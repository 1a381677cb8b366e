//! Timer that synchronises frame production with the display refresh.
//!
//! The display link fires on a thread of its own and only merges a signal
//! into a coalescing event source. The source belongs to one serial queue,
//! which takes one frame event at a time: however many signals arrived since
//! the last event, the next event stands for all of them.
//!
//! `DisplayLink` keeps the state of the timer and the signals that wait for
//! delivery. What has to be done to the display link and to the event source
//! is returned as a list of `TimerAction`s, in the order in which the caller
//! performs them.

use vstd::prelude::*;

verus! {

/// Result code of a call into the display-link API.
pub type CVReturn = i32;

/// The code with which the display-link API reports success.
pub const CV_RETURN_SUCCESS: CVReturn = 0;

/// State of the timer.
#[derive(Clone, Copy, PartialEq, Eq, Structural, Debug)]
pub enum DisplayLinkState {
    Running,
    Paused,
    Stopped,
}

/// Why a timer could not be created.
#[derive(Clone, Copy, PartialEq, Eq, Structural, Debug)]
pub enum DisplayLinkError {
    FailedToCreateTimer,
    FailedToConnectToDisplay,
}

/// What a caller can ask of the timer.
#[derive(Clone, Copy, PartialEq, Eq, Structural, Debug)]
pub enum DisplayLinkRequest {
    Start,
    Pause,
    Stop,
}

/// One operation on the display link or on the event source.
#[derive(Clone, Copy, PartialEq, Eq, Structural, Debug)]
pub enum TimerAction {
    /// Start the display link.
    StartDisplayLink,
    /// Stop the display link; its output callback stays registered.
    StopDisplayLink,
    /// Resume the event source.
    ResumeSource,
    /// Suspend the event source; merged signals are kept.
    SuspendSource,
    /// Cancel the event source.
    CancelSource,
}

/// Whether the timer may go from `from` to `to`.
pub open spec fn transition_allowed(from: DisplayLinkState, to: DisplayLinkState) -> bool {
    match from {
        DisplayLinkState::Running => to is Paused || to is Stopped,
        DisplayLinkState::Paused => to is Running || to is Stopped,
        DisplayLinkState::Stopped => to is Running,
    }
}

/// The state that `request` asks for.
pub open spec fn requested_state(request: DisplayLinkRequest) -> DisplayLinkState {
    match request {
        DisplayLinkRequest::Start => DisplayLinkState::Running,
        DisplayLinkRequest::Pause => DisplayLinkState::Paused,
        DisplayLinkRequest::Stop => DisplayLinkState::Stopped,
    }
}

/// The state after `request` in `state`: the requested state where the
/// transition is allowed, `state` itself where it is not.
pub open spec fn next_state(state: DisplayLinkState, request: DisplayLinkRequest)
    -> DisplayLinkState {
    if transition_allowed(state, requested_state(request)) {
        requested_state(request)
    } else {
        state
    }
}

/// What `request` in `state` does to the display link and the event source:
/// nothing where the transition is not allowed, else one operation on each.
pub open spec fn request_actions(state: DisplayLinkState, request: DisplayLinkRequest) -> Seq<
    TimerAction,
> {
    if !transition_allowed(state, requested_state(request)) {
        Seq::empty()
    } else {
        match request {
            DisplayLinkRequest::Start => seq![
                TimerAction::StartDisplayLink,
                TimerAction::ResumeSource,
            ],
            DisplayLinkRequest::Pause => seq![
                TimerAction::StopDisplayLink,
                TimerAction::SuspendSource,
            ],
            DisplayLinkRequest::Stop => seq![
                TimerAction::StopDisplayLink,
                TimerAction::CancelSource,
            ],
        }
    }
}

/// The state after all of `requests`, first to last, starting in `state`.
pub open spec fn run_requests(state: DisplayLinkState, requests: Seq<DisplayLinkRequest>)
    -> DisplayLinkState
    decreases requests.len(),
{
    if requests.len() == 0 {
        state
    } else {
        next_state(run_requests(state, requests.drop_last()), requests.last())
    }
}

/// Whether `action` operates on the display link.
pub open spec fn on_display_link(action: TimerAction) -> bool {
    action is StartDisplayLink || action is StopDisplayLink
}

/// Whether `action` operates on the event source.
pub open spec fn on_event_source(action: TimerAction) -> bool {
    action is ResumeSource || action is SuspendSource || action is CancelSource
}

/// What the timer's hardware does: whether the display link fires, and
/// whether the event source hands events to the queue.
pub struct HardwareModel {
    pub link_running: bool,
    pub source_delivering: bool,
}

/// The hardware of a timer in `state`: both parts run in `Running`, and
/// neither runs in any other state.
pub open spec fn hardware_of(state: DisplayLinkState) -> HardwareModel {
    HardwareModel { link_running: state is Running, source_delivering: state is Running }
}

/// The hardware after `action`.
pub open spec fn perform_action(hardware: HardwareModel, action: TimerAction) -> HardwareModel {
    match action {
        TimerAction::StartDisplayLink => HardwareModel { link_running: true, ..hardware },
        TimerAction::StopDisplayLink => HardwareModel { link_running: false, ..hardware },
        TimerAction::ResumeSource => HardwareModel { source_delivering: true, ..hardware },
        TimerAction::SuspendSource => HardwareModel { source_delivering: false, ..hardware },
        TimerAction::CancelSource => HardwareModel { source_delivering: false, ..hardware },
    }
}

/// The hardware after all of `actions`, first to last.
pub open spec fn perform_actions(hardware: HardwareModel, actions: Seq<TimerAction>)
    -> HardwareModel
    decreases actions.len(),
{
    if actions.len() == 0 {
        hardware
    } else {
        perform_action(perform_actions(hardware, actions.drop_last()), actions.last())
    }
}

/// The actions that `requests` ask for, first to last, starting in `state`.
pub open spec fn run_actions(state: DisplayLinkState, requests: Seq<DisplayLinkRequest>) -> Seq<
    TimerAction,
>
    decreases requests.len(),
{
    if requests.len() == 0 {
        Seq::empty()
    } else {
        run_actions(state, requests.drop_last()) + request_actions(
            run_requests(state, requests.drop_last()),
            requests.last(),
        )
    }
}

/// `pending + data`, held at the largest count where the sum passes it.
pub open spec fn merged_count(pending: u64, data: u64) -> u64 {
    if pending + data <= u64::MAX {
        (pending + data) as u64
    } else {
        u64::MAX
    }
}

/// What a timer is: its state, and the count of the signals that were merged
/// and not delivered yet.
pub struct DisplayLinkModel {
    pub state: DisplayLinkState,
    pub pending: u64,
}

impl DisplayLinkModel {
    /// A stopped timer has nothing to deliver.
    pub open spec fn wf(self) -> bool {
        self.state is Stopped ==> self.pending == 0
    }

    /// A timer as it is created: stopped, nothing merged.
    pub open spec fn initial() -> DisplayLinkModel {
        DisplayLinkModel { state: DisplayLinkState::Stopped, pending: 0 }
    }

    /// The timer after `request`. Entering `Stopped` discards what was merged.
    pub open spec fn request(self, request: DisplayLinkRequest) -> DisplayLinkModel {
        let next = next_state(self.state, request);
        DisplayLinkModel { state: next, pending: if next is Stopped { 0 } else { self.pending } }
    }

    /// The timer after a signal of weight `data` was merged. A stopped timer
    /// has no source to merge into.
    pub open spec fn merge(self, data: u64) -> DisplayLinkModel {
        if self.state is Stopped {
            self
        } else {
            DisplayLinkModel { state: self.state, pending: merged_count(self.pending, data) }
        }
    }

    /// Whether the queue gets a frame event now: the timer runs and at least
    /// one signal waits.
    pub open spec fn delivers(self) -> bool {
        self.state is Running && self.pending > 0
    }

    /// The frame event that the queue gets now, if any: the count of the
    /// signals it stands for.
    pub open spec fn drained(self) -> Option<u64> {
        if self.delivers() {
            Some(self.pending)
        } else {
            None
        }
    }

    /// The timer after the queue took its frame event, if there was one.
    pub open spec fn after_drain(self) -> DisplayLinkModel {
        if self.delivers() {
            DisplayLinkModel { state: self.state, pending: 0 }
        } else {
            self
        }
    }

    /// The timer after `ticks` signals of weight one.
    pub open spec fn merge_ticks(self, ticks: nat) -> DisplayLinkModel
        decreases ticks,
    {
        if ticks == 0 {
            self
        } else {
            self.merge_ticks((ticks - 1) as nat).merge(1)
        }
    }
}

/// The error with which creation ends, if any. `connect` is the code of
/// binding the display link to the active display. `register` is the code of
/// registering the output callback, `None` where that was not attempted.
pub open spec fn creation_error(connect: CVReturn, register: Option<CVReturn>) -> Option<
    DisplayLinkError,
> {
    if connect != CV_RETURN_SUCCESS {
        Some(DisplayLinkError::FailedToConnectToDisplay)
    } else if register != Some(CV_RETURN_SUCCESS) {
        Some(DisplayLinkError::FailedToCreateTimer)
    } else {
        None
    }
}

impl DisplayLinkError {
    /// The text of the error.
    pub open spec fn message(self) -> Seq<char> {
        match self {
            DisplayLinkError::FailedToCreateTimer => "Failed to create timer"@,
            DisplayLinkError::FailedToConnectToDisplay => "Failed to connect to display"@,
        }
    }

    /// The text of the error.
    pub fn to_string(&self) -> (text: String)
        ensures
            text@ == self.message(),
    {
        match self {
            DisplayLinkError::FailedToCreateTimer => "Failed to create timer".to_owned(),
            DisplayLinkError::FailedToConnectToDisplay => "Failed to connect to display".to_owned(),
        }
    }
}

/// The timer of one surface.
#[derive(Clone, Copy, Debug)]
pub struct DisplayLink {
    state: DisplayLinkState,
    pending: u64,
}

impl View for DisplayLink {
    type V = DisplayLinkModel;

    closed spec fn view(&self) -> DisplayLinkModel {
        DisplayLinkModel { state: self.state, pending: self.pending }
    }
}

impl DisplayLink {
    #[verifier::type_invariant]
    spec fn inv(self) -> bool {
        self@.wf()
    }

    /// Creates the timer from what the display-link API answered.
    ///
    /// Fails with `FailedToConnectToDisplay` where binding to the display
    /// failed, and with `FailedToCreateTimer` where the binding succeeded and
    /// the output callback was not registered. The new timer is stopped.
    pub fn new_with_queue_and_callback(connect: CVReturn, register: Option<CVReturn>) -> (created:
        Result<DisplayLink, DisplayLinkError>)
        ensures
            match created {
                Ok(link) => creation_error(connect, register) is None && link@
                    == DisplayLinkModel::initial(),
                Err(error) => creation_error(connect, register) == Some(error),
            },
    {
        if connect != CV_RETURN_SUCCESS {
            return Err(DisplayLinkError::FailedToConnectToDisplay);
        }
        let registered = match register {
            Some(code) => code == CV_RETURN_SUCCESS,
            None => false,
        };
        if !registered {
            return Err(DisplayLinkError::FailedToCreateTimer);
        }
        Ok(DisplayLink { state: DisplayLinkState::Stopped, pending: 0 })
    }

    /// The state of the timer.
    pub fn state(&self) -> (state: DisplayLinkState)
        ensures
            state == self@.state,
    {
        self.state
    }

    /// The count of the signals that were merged and not delivered yet.
    pub fn pending(&self) -> (pending: u64)
        ensures
            pending == self@.pending,
            self@.wf(),
    {
        proof {
            use_type_invariant(self);
        }
        self.pending
    }

    /// Whether the timer may enter `next_state` from the state it is in.
    pub fn can_enter_state(&self, next_state: DisplayLinkState) -> (allowed: bool)
        ensures
            allowed == transition_allowed(self@.state, next_state),
    {
        match self.state {
            DisplayLinkState::Running => match next_state {
                DisplayLinkState::Paused => true,
                DisplayLinkState::Stopped => true,
                _ => false,
            },
            DisplayLinkState::Paused => match next_state {
                DisplayLinkState::Running => true,
                DisplayLinkState::Stopped => true,
                _ => false,
            },
            DisplayLinkState::Stopped => match next_state {
                DisplayLinkState::Running => true,
                _ => false,
            },
        }
    }

    /// Starts the timer from `Stopped` or `Paused`: the display link is
    /// started and the source resumed. Does nothing in `Running`.
    pub fn start(&mut self) -> (actions: Vec<TimerAction>)
        ensures
            final(self)@ == old(self)@.request(DisplayLinkRequest::Start),
            actions@ == request_actions(old(self)@.state, DisplayLinkRequest::Start),
    {
        proof {
            use_type_invariant(&*self);
        }
        let mut actions: Vec<TimerAction> = Vec::new();
        if self.can_enter_state(DisplayLinkState::Running) {
            actions.push(TimerAction::StartDisplayLink);
            actions.push(TimerAction::ResumeSource);
            self.state = DisplayLinkState::Running;
        }
        actions
    }

    /// Stops the timer from `Running` or `Paused`: the display link is
    /// stopped, the source cancelled and what it held discarded. Does nothing
    /// in `Stopped`.
    pub fn stop(&mut self) -> (actions: Vec<TimerAction>)
        ensures
            final(self)@ == old(self)@.request(DisplayLinkRequest::Stop),
            final(self)@.state is Stopped,
            actions@ == request_actions(old(self)@.state, DisplayLinkRequest::Stop),
    {
        proof {
            use_type_invariant(&*self);
        }
        let mut actions: Vec<TimerAction> = Vec::new();
        if self.can_enter_state(DisplayLinkState::Stopped) {
            actions.push(TimerAction::StopDisplayLink);
            actions.push(TimerAction::CancelSource);
            self.pending = 0;
            self.state = DisplayLinkState::Stopped;
        }
        actions
    }

    /// Pauses the timer from `Running`: the display link is stopped and the
    /// source suspended; what was merged stays. Does nothing in any other
    /// state.
    pub fn pause(&mut self) -> (actions: Vec<TimerAction>)
        ensures
            final(self)@ == old(self)@.request(DisplayLinkRequest::Pause),
            actions@ == request_actions(old(self)@.state, DisplayLinkRequest::Pause),
    {
        proof {
            use_type_invariant(&*self);
        }
        let mut actions: Vec<TimerAction> = Vec::new();
        if self.can_enter_state(DisplayLinkState::Paused) {
            actions.push(TimerAction::StopDisplayLink);
            actions.push(TimerAction::SuspendSource);
            self.state = DisplayLinkState::Paused;
        }
        actions
    }

    /// Merges a signal of weight `data` into the event source: the display
    /// link's output callback does this with weight one on each refresh.
    pub fn merge_signal(&mut self, data: u64)
        ensures
            final(self)@ == old(self)@.merge(data),
    {
        proof {
            use_type_invariant(&*self);
        }
        match self.state {
            DisplayLinkState::Stopped => {},
            _ => {
                if data <= u64::MAX - self.pending {
                    self.pending = self.pending + data;
                } else {
                    self.pending = u64::MAX;
                }
            },
        }
    }

    /// One turn of the queue. Where the timer runs and signals wait, they
    /// leave as one frame event: the result is their count, and the
    /// registered callback is due exactly once. Else the result is `None`.
    pub fn drain(&mut self) -> (event: Option<u64>)
        ensures
            event == old(self)@.drained(),
            final(self)@ == old(self)@.after_drain(),
    {
        proof {
            use_type_invariant(&*self);
        }
        match self.state {
            DisplayLinkState::Running => {
                if self.pending > 0 {
                    let count: u64 = self.pending;
                    self.pending = 0;
                    Some(count)
                } else {
                    None
                }
            },
            _ => None,
        }
    }
}

/// The transition table: `Start` leads to `Running` and `Stop` to `Stopped`
/// from every state; `Pause` leads to `Paused` from `Running`, and changes
/// nothing in `Paused` and in `Stopped`.
pub proof fn lemma_transition_table(state: DisplayLinkState)
    ensures
        next_state(state, DisplayLinkRequest::Start) is Running,
        next_state(state, DisplayLinkRequest::Stop) is Stopped,
        next_state(state, DisplayLinkRequest::Pause) == (if state is Running {
            DisplayLinkState::Paused
        } else {
            state
        }),
{
}

/// Requests one after the other: running `first` and then `second` is
/// running their concatenation.
pub proof fn lemma_run_requests_concat(
    state: DisplayLinkState,
    first: Seq<DisplayLinkRequest>,
    second: Seq<DisplayLinkRequest>,
)
    ensures
        run_requests(state, first + second) == run_requests(
            run_requests(state, first),
            second,
        ),
    decreases second.len(),
{
    if second.len() == 0 {
        assert(first + second =~= first);
    } else {
        lemma_run_requests_concat(state, first, second.drop_last());
        assert((first + second).drop_last() =~= first + second.drop_last());
        assert((first + second).last() == second.last());
    }
}

/// Where a sequence of requests ends: in `Running` after a last `Start`, in
/// `Stopped` after a last `Stop`; a last `Pause` pauses a timer that the
/// requests before it left running, and changes nothing else.
pub proof fn lemma_run_requests_end(state: DisplayLinkState, requests: Seq<DisplayLinkRequest>)
    requires
        requests.len() > 0,
    ensures
        requests.last() is Start ==> run_requests(state, requests) is Running,
        requests.last() is Stop ==> run_requests(state, requests) is Stopped,
        requests.last() is Pause ==> run_requests(state, requests) == (if run_requests(
            state,
            requests.drop_last(),
        ) is Running {
            DisplayLinkState::Paused
        } else {
            run_requests(state, requests.drop_last())
        }),
{
    lemma_transition_table(run_requests(state, requests.drop_last()));
}

/// Every request keeps the timer well formed, whatever the state.
pub proof fn lemma_request_keeps_wf(timer: DisplayLinkModel, request: DisplayLinkRequest)
    ensures
        timer.request(request).wf(),
        timer.request(request).state == next_state(timer.state, request),
{
}

/// The display link and the event source move together: a request either
/// touches neither, and then the state stays as it is, or it changes the
/// state with one operation on the display link followed by one on the
/// source.
pub proof fn lemma_link_and_source_move_together(
    state: DisplayLinkState,
    request: DisplayLinkRequest,
)
    ensures
        ({
            let actions = request_actions(state, request);
            if next_state(state, request) == state {
                actions.len() == 0
            } else {
                &&& actions.len() == 2
                &&& on_display_link(actions[0])
                &&& on_event_source(actions[1])
            }
        }),
{
}

/// The hardware after `first + second` is the hardware after `second`,
/// starting from the hardware after `first`.
pub proof fn lemma_perform_actions_concat(
    hardware: HardwareModel,
    first: Seq<TimerAction>,
    second: Seq<TimerAction>,
)
    ensures
        perform_actions(hardware, first + second) == perform_actions(
            perform_actions(hardware, first),
            second,
        ),
    decreases second.len(),
{
    if second.len() == 0 {
        assert(first + second =~= first);
    } else {
        lemma_perform_actions_concat(hardware, first, second.drop_last());
        assert((first + second).drop_last() =~= first + second.drop_last());
        assert((first + second).last() == second.last());
    }
}

/// The hardware follows the state. Where the display link fires and the
/// source delivers exactly while the timer is `Running`, the actions of any
/// request leave it so: after them both run if the new state is `Running`,
/// and neither does otherwise.
pub proof fn lemma_hardware_follows_request(state: DisplayLinkState, request: DisplayLinkRequest)
    ensures
        perform_actions(hardware_of(state), request_actions(state, request)) == hardware_of(
            next_state(state, request),
        ),
{
    reveal_with_fuel(perform_actions, 3);
    let actions = request_actions(state, request);
    if actions.len() == 2 {
        assert(actions.drop_last().len() == 1);
        assert(actions.drop_last().drop_last().len() == 0);
        assert(actions.drop_last().last() == actions[0]);
        assert(actions.last() == actions[1]);
    }
}

/// The hardware follows the state through any sequence of requests: after
/// the actions of all of them, the display link fires and the source
/// delivers exactly if the timer ends in `Running`. So between requests
/// neither of the two runs without the other.
pub proof fn lemma_hardware_follows_requests(
    state: DisplayLinkState,
    requests: Seq<DisplayLinkRequest>,
)
    ensures
        perform_actions(hardware_of(state), run_actions(state, requests)) == hardware_of(
            run_requests(state, requests),
        ),
    decreases requests.len(),
{
    if requests.len() > 0 {
        let before = run_requests(state, requests.drop_last());
        lemma_hardware_follows_requests(state, requests.drop_last());
        lemma_hardware_follows_request(before, requests.last());
        lemma_perform_actions_concat(
            hardware_of(state),
            run_actions(state, requests.drop_last()),
            request_actions(before, requests.last()),
        );
    }
}

/// Stopping is idempotent: a second `Stop` changes nothing and asks for
/// nothing.
pub proof fn lemma_stop_is_idempotent(timer: DisplayLinkModel)
    ensures
        timer.request(DisplayLinkRequest::Stop).request(DisplayLinkRequest::Stop) == timer.request(
            DisplayLinkRequest::Stop,
        ),
        request_actions(timer.request(DisplayLinkRequest::Stop).state, DisplayLinkRequest::Stop)
            =~= Seq::<TimerAction>::empty(),
{
}

/// Signals coalesce: a running timer that took `ticks` signals, one or many,
/// delivers one frame event that stands for all that waited, and then has
/// nothing more to deliver.
pub proof fn lemma_ticks_coalesce(timer: DisplayLinkModel, ticks: nat)
    requires
        timer.state is Running,
        ticks > 0,
    ensures
        timer.merge_ticks(ticks).state is Running,
        timer.merge_ticks(ticks).pending == (if timer.pending + ticks <= u64::MAX {
            timer.pending + ticks
        } else {
            u64::MAX as int
        }),
        timer.merge_ticks(ticks).drained() == Some(timer.merge_ticks(ticks).pending),
        timer.merge_ticks(ticks).after_drain().drained() is None,
    decreases ticks,
{
    if ticks > 1 {
        lemma_ticks_coalesce(timer, (ticks - 1) as nat);
    } else {
        assert(timer.merge_ticks(0) == timer);
    }
}

/// A timer that is not running delivers nothing, whatever was merged.
pub proof fn lemma_only_running_delivers(timer: DisplayLinkModel)
    requires
        !(timer.state is Running),
    ensures
        timer.drained() is None,
        timer.after_drain() == timer,
{
}

} // verus!
