use vstd::prelude::*;

verus! {

/// Where one aggregation pass stands.
#[derive(Debug, Clone, Copy, PartialEq, Eq)]
pub enum PassState {
    /// The session with the message bus is being established.
    Connecting,
    /// The attributes of the manager and its reference lists are being
    /// fetched.
    ManagerFetch,
    /// The objects that the lists refer to are being resolved and read.
    ChildExpansion,
    /// The report is being assembled from what was read.
    Folding,
    /// The report is complete.
    Done,
    /// The session could not be established and there is no report.
    Failed,
}

/// What moves a pass on.
#[derive(Debug, Clone, Copy, PartialEq, Eq)]
pub enum PassEvent {
    /// The session with the message bus was established.
    SessionOpened,
    /// The session with the message bus could not be established.
    SessionFailed,
    /// Every read on the manager has ended, with a value or without one.
    ManagerFetched,
    /// Every referenced object was read or given up.
    ChildrenExpanded,
    /// The report was assembled.
    Folded,
}

/// What a pass has to do next. The caller does it and tells the pass how
/// it ended.
#[derive(Debug, Clone, Copy, PartialEq, Eq)]
pub enum PassAction {
    /// Establish the session with the message bus and reach the manager.
    OpenSession,
    /// Read the attributes of the manager and its reference lists, all at
    /// once.
    FetchManager,
    /// Resolve and read every object that the lists refer to, all at once.
    ExpandChildren,
    /// Assemble the report from what was read.
    Fold,
    /// Hand the report over: the pass has ended.
    Deliver,
    /// Hand over the failure to establish the session: the pass has ended.
    Abort,
}

/// What a pass in `state` has to do next.
pub open spec fn action_of(state: PassState) -> PassAction {
    match state {
        PassState::Connecting => PassAction::OpenSession,
        PassState::ManagerFetch => PassAction::FetchManager,
        PassState::ChildExpansion => PassAction::ExpandChildren,
        PassState::Folding => PassAction::Fold,
        PassState::Done => PassAction::Deliver,
        PassState::Failed => PassAction::Abort,
    }
}

/// The event that tells how `action` ended, or `None` for the two actions
/// that end the pass. Only the session can fail: whatever else cannot be
/// read leaves its mark in the report and not in the course of the pass.
pub open spec fn event_of(action: PassAction, succeeded: bool) -> Option<PassEvent> {
    match action {
        PassAction::OpenSession => Some(
            if succeeded {
                PassEvent::SessionOpened
            } else {
                PassEvent::SessionFailed
            },
        ),
        PassAction::FetchManager => Some(PassEvent::ManagerFetched),
        PassAction::ExpandChildren => Some(PassEvent::ChildrenExpanded),
        PassAction::Fold => Some(PassEvent::Folded),
        PassAction::Deliver => None,
        PassAction::Abort => None,
    }
}

/// The state of a pass once the action of `state` has ended, with success
/// or without; a pass that has ended stays where it is.
pub open spec fn after_action(state: PassState, succeeded: bool) -> PassState {
    match event_of(action_of(state), succeeded) {
        Some(event) => match step(state, event) {
            Some(next) => next,
            None => state,
        },
        None => state,
    }
}

/// The state that follows `state` on `event`, or `None` where the event
/// does not belong to the state.
pub open spec fn step(state: PassState, event: PassEvent) -> Option<PassState> {
    match (state, event) {
        (PassState::Connecting, PassEvent::SessionOpened) => Some(PassState::ManagerFetch),
        (PassState::Connecting, PassEvent::SessionFailed) => Some(PassState::Failed),
        (PassState::ManagerFetch, PassEvent::ManagerFetched) => Some(PassState::ChildExpansion),
        (PassState::ChildExpansion, PassEvent::ChildrenExpanded) => Some(PassState::Folding),
        (PassState::Folding, PassEvent::Folded) => Some(PassState::Done),
        _ => None,
    }
}

/// The state that a pass is in after the events of `events`, one after the
/// other, starting from `state`; `None` as soon as an event does not belong
/// to the state that it meets.
pub open spec fn run(state: PassState, events: Seq<PassEvent>) -> Option<PassState>
    decreases events.len(),
{
    if events.len() == 0 {
        Some(state)
    } else {
        match step(state, events[0]) {
            Some(next) => run(next, events.drop_first()),
            None => None,
        }
    }
}

impl PassState {
    /// The state in which every pass starts.
    pub fn start() -> (r: PassState)
        ensures
            r == PassState::Connecting,
    {
        PassState::Connecting
    }

    /// The state that follows this one on `event`, or `None` where the
    /// event does not belong to this state.
    pub fn on(self, event: PassEvent) -> (r: Option<PassState>)
        ensures
            r == step(self, event),
    {
        match (self, event) {
            (PassState::Connecting, PassEvent::SessionOpened) => Some(PassState::ManagerFetch),
            (PassState::Connecting, PassEvent::SessionFailed) => Some(PassState::Failed),
            (PassState::ManagerFetch, PassEvent::ManagerFetched) => Some(PassState::ChildExpansion),
            (PassState::ChildExpansion, PassEvent::ChildrenExpanded) => Some(PassState::Folding),
            (PassState::Folding, PassEvent::Folded) => Some(PassState::Done),
            _ => None,
        }
    }

    /// What the pass has to do in this state.
    pub fn action(self) -> (r: PassAction)
        ensures
            r == action_of(self),
    {
        match self {
            PassState::Connecting => PassAction::OpenSession,
            PassState::ManagerFetch => PassAction::FetchManager,
            PassState::ChildExpansion => PassAction::ExpandChildren,
            PassState::Folding => PassAction::Fold,
            PassState::Done => PassAction::Deliver,
            PassState::Failed => PassAction::Abort,
        }
    }

    /// The state of the pass once the action of this state has ended,
    /// with success or without. The event that tells so always belongs to
    /// this state, and a pass that has ended stays where it is.
    pub fn after(self, succeeded: bool) -> (r: PassState)
        ensures
            r == after_action(self, succeeded),
            match event_of(action_of(self), succeeded) {
                Some(event) => step(self, event) == Some(r),
                None => r == self && (self == PassState::Done || self == PassState::Failed),
            },
    {
        match self.action().ended(succeeded) {
            Some(event) => match self.on(event) {
                Some(next) => next,
                None => self,
            },
            None => self,
        }
    }

    /// Whether the pass has ended, with a report or without one.
    pub fn is_terminal(self) -> (r: bool)
        ensures
            r == (self == PassState::Done || self == PassState::Failed),
            r == (forall|event: PassEvent| step(self, event) is None),
    {
        proof {
            if self == PassState::Connecting {
                assert(step(self, PassEvent::SessionOpened) is Some);
            } else if self == PassState::ManagerFetch {
                assert(step(self, PassEvent::ManagerFetched) is Some);
            } else if self == PassState::ChildExpansion {
                assert(step(self, PassEvent::ChildrenExpanded) is Some);
            } else if self == PassState::Folding {
                assert(step(self, PassEvent::Folded) is Some);
            }
        }
        match self {
            PassState::Done => true,
            PassState::Failed => true,
            _ => false,
        }
    }
}

impl PassAction {
    /// The event that tells how this action ended, or `None` for the two
    /// actions that end the pass.
    pub fn ended(self, succeeded: bool) -> (r: Option<PassEvent>)
        ensures
            r == event_of(self, succeeded),
    {
        match self {
            PassAction::OpenSession => {
                if succeeded {
                    Some(PassEvent::SessionOpened)
                } else {
                    Some(PassEvent::SessionFailed)
                }
            },
            PassAction::FetchManager => Some(PassEvent::ManagerFetched),
            PassAction::ExpandChildren => Some(PassEvent::ChildrenExpanded),
            PassAction::Fold => Some(PassEvent::Folded),
            PassAction::Deliver => None,
            PassAction::Abort => None,
        }
    }
}

/// A pass that is driven by its own actions ends after four of them: with
/// a report where the session opened, whatever happened after that, and
/// without one where it did not.
pub proof fn lemma_driven_pass_ends(opened: bool, second: bool, third: bool, fourth: bool)
    ensures
        after_action(
            after_action(
                after_action(after_action(PassState::Connecting, opened), second),
                third,
            ),
            fourth,
        ) == (if opened {
            PassState::Done
        } else {
            PassState::Failed
        }),
{
}

/// A pass fails only while it connects, and only because the session could
/// not be established.
pub proof fn lemma_failure_only_while_connecting(state: PassState, event: PassEvent)
    requires
        step(state, event) == Some(PassState::Failed),
    ensures
        state == PassState::Connecting,
        event == PassEvent::SessionFailed,
{
}

/// Once the session is open no run of events leads to failure.
pub proof fn lemma_no_failure_after_connecting(state: PassState, events: Seq<PassEvent>)
    requires
        state != PassState::Connecting,
        state != PassState::Failed,
    ensures
        run(state, events) != Some(PassState::Failed),
    decreases events.len(),
{
    if events.len() > 0 {
        match step(state, events[0]) {
            Some(next) => {
                lemma_no_failure_after_connecting(next, events.drop_first());
            },
            None => {},
        }
    }
}

/// A pass whose session opens runs through fetching, expansion and folding
/// to a complete report.
pub proof fn lemma_open_session_leads_to_done()
    ensures
        run(
            PassState::Connecting,
            seq![
                PassEvent::SessionOpened,
                PassEvent::ManagerFetched,
                PassEvent::ChildrenExpanded,
                PassEvent::Folded,
            ],
        ) == Some(PassState::Done),
{
    reveal_with_fuel(run, 5);
}

} // verus!
