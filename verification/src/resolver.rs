//! The assignee resolver: an ordered, short-circuiting walk over rotation
//! schedules, correlating the on-call person to the team roster.
//!
//! The resolver never performs a rotation query itself. It hands the
//! orchestrator an [`Action`] saying which query to make next; the
//! orchestrator answers with an [`Event`], and [`Resolver::step`] decides what
//! follows. [`step_model`] is the exact mathematical description of that
//! decision, and every step is proved to follow it.

use vstd::prelude::*;

use crate::roster::TeamRoster;

verus! {

/// Why a resolution run failed.
#[derive(Clone, Copy, Debug, PartialEq, Eq, Structural)]
pub enum ResolveError {
    /// A directory query failed: the contact-address lookup for an on-call
    /// reference (or, before resolution starts, the roster fetch).
    DirectoryError,
    /// The on-call query for a schedule failed.
    ScheduleError,
    /// Every schedule was consulted without error, none produced a team
    /// member, and no default assignee was configured.
    NoAssigneeFound,
}

/// What the orchestrator must do next.
#[derive(Debug)]
pub enum Action {
    /// Ask the rotation provider who is on call for this schedule at the
    /// resolution instant.
    QueryOnCall(String),
    /// Ask the rotation provider for this opaque user reference's contact
    /// address.
    QueryContact(String),
    /// Resolution is complete: the assignee's login, or a definitive failure.
    Finish(Result<String, ResolveError>),
}

/// The answer the orchestrator obtained for the pending query.
#[derive(Debug)]
pub enum Event {
    /// Answer to [`Action::QueryOnCall`]: the on-call user's opaque
    /// reference, or `None` when the schedule has no entry at the instant.
    OnCall(Option<String>),
    /// Answer to [`Action::QueryContact`]: the contact address.
    Contact(String),
    /// The on-call query failed.
    ScheduleFailed,
    /// The contact-address lookup failed.
    DirectoryFailed,
}

/// Which query, if any, the resolver is waiting on.
#[derive(Clone, Copy, Debug)]
pub enum Phase {
    /// An on-call query for the schedule at index `next` is outstanding.
    AwaitOnCall,
    /// A contact-address query is outstanding.
    AwaitContact,
    /// A `Finish` action has been issued; no further query is ever made.
    Done,
}

/// The resolver's mathematical state.
pub struct ResolverModel {
    /// Contact address to login, as fetched once before resolution.
    pub roster: Map<Seq<char>, Seq<char>>,
    /// Schedule identifiers in the caller's priority order.
    pub schedules: Seq<Seq<char>>,
    /// Index of the schedule under consideration; schedules before it were
    /// consulted and produced no team member.
    pub next: int,
    /// The configured fallback: a login identifier, or a contact address to
    /// be translated through the roster.
    pub default_assignee: Option<Seq<char>>,
    pub phase: Phase,
}

/// Mathematical form of an [`Event`].
pub enum EventModel {
    OnCall(Option<Seq<char>>),
    Contact(Seq<char>),
    ScheduleFailed,
    DirectoryFailed,
}

/// Mathematical form of an [`Action`].
pub enum ActionModel {
    QueryOnCall(Seq<char>),
    QueryContact(Seq<char>),
    Finish(Result<Seq<char>, ResolveError>),
}

impl View for Event {
    type V = EventModel;

    open spec fn view(&self) -> EventModel {
        match self {
            Event::OnCall(r) => EventModel::OnCall(
                match r {
                    Some(u) => Some(u@),
                    None => None,
                },
            ),
            Event::Contact(a) => EventModel::Contact(a@),
            Event::ScheduleFailed => EventModel::ScheduleFailed,
            Event::DirectoryFailed => EventModel::DirectoryFailed,
        }
    }
}

impl View for Action {
    type V = ActionModel;

    open spec fn view(&self) -> ActionModel {
        match self {
            Action::QueryOnCall(s) => ActionModel::QueryOnCall(s@),
            Action::QueryContact(u) => ActionModel::QueryContact(u@),
            Action::Finish(r) => ActionModel::Finish(
                match r {
                    Ok(login) => Ok(login@),
                    Err(e) => Err(*e),
                },
            ),
        }
    }
}

impl ResolverModel {
    /// The states a resolver can actually be in: `next` stays within the
    /// schedule list, and while a query is outstanding the schedule under
    /// consideration exists.
    pub open spec fn wf(self) -> bool {
        &&& 0 <= self.next <= self.schedules.len()
        &&& !(self.phase is Done) ==> self.next < self.schedules.len()
    }
}

/// The decision taken once no schedule has matched: translate the configured
/// default through the roster if it is a member's contact address, use it
/// verbatim as a login otherwise, and fail when none was configured.
pub open spec fn fallback_model(
    roster: Map<Seq<char>, Seq<char>>,
    default_assignee: Option<Seq<char>>,
) -> Result<Seq<char>, ResolveError> {
    match default_assignee {
        Some(d) => if roster.contains_key(d) {
            Ok(roster[d])
        } else {
            Ok(d)
        },
        None => Err(ResolveError::NoAssigneeFound),
    }
}

/// Move on to the schedule at `m.next`: query it if it exists, otherwise
/// every schedule has been consulted and the fallback decision is final.
pub open spec fn advance_model(m: ResolverModel) -> (ResolverModel, ActionModel) {
    if m.next < m.schedules.len() {
        (
            ResolverModel { phase: Phase::AwaitOnCall, ..m },
            ActionModel::QueryOnCall(m.schedules[m.next]),
        )
    } else {
        (
            ResolverModel { phase: Phase::Done, ..m },
            ActionModel::Finish(fallback_model(m.roster, m.default_assignee)),
        )
    }
}

/// The resolver's first state and action for the given inputs.
pub open spec fn init_model(
    roster: Map<Seq<char>, Seq<char>>,
    schedules: Seq<Seq<char>>,
    default_assignee: Option<Seq<char>>,
) -> (ResolverModel, ActionModel) {
    advance_model(
        ResolverModel { roster, schedules, next: 0, default_assignee, phase: Phase::Done },
    )
}

/// Which events answer the outstanding query. A finished resolver accepts no
/// event at all: no schedule is ever consulted after a `Finish`.
pub open spec fn event_fits(m: ResolverModel, ev: EventModel) -> bool {
    match ev {
        EventModel::OnCall(_) => m.phase is AwaitOnCall,
        EventModel::ScheduleFailed => m.phase is AwaitOnCall,
        EventModel::Contact(_) => m.phase is AwaitContact,
        EventModel::DirectoryFailed => m.phase is AwaitContact,
    }
}

/// The whole resolution algorithm, one answered query at a time:
/// - a provider failure ends the run at once with the matching error;
/// - nobody on call is a benign skip: the next schedule is consulted;
/// - an on-call reference leads to a contact-address query;
/// - a contact address in the roster resolves to that member's login and
///   ends the run, with no later schedule consulted;
/// - a contact address outside the roster is a benign skip.
pub open spec fn step_model(m: ResolverModel, ev: EventModel) -> (ResolverModel, ActionModel) {
    match ev {
        EventModel::ScheduleFailed => (
            ResolverModel { phase: Phase::Done, ..m },
            ActionModel::Finish(Err(ResolveError::ScheduleError)),
        ),
        EventModel::DirectoryFailed => (
            ResolverModel { phase: Phase::Done, ..m },
            ActionModel::Finish(Err(ResolveError::DirectoryError)),
        ),
        EventModel::OnCall(r) => match r {
            Some(u) => (
                ResolverModel { phase: Phase::AwaitContact, ..m },
                ActionModel::QueryContact(u),
            ),
            None => advance_model(ResolverModel { next: m.next + 1, ..m }),
        },
        EventModel::Contact(addr) => if m.roster.contains_key(addr) {
            (
                ResolverModel { phase: Phase::Done, ..m },
                ActionModel::Finish(Ok(m.roster[addr])),
            )
        } else {
            advance_model(ResolverModel { next: m.next + 1, ..m })
        },
    }
}

/// The resolver: owns the roster, the schedule order and the configured
/// default for the duration of one run, and decides each next action.
pub struct Resolver {
    roster: TeamRoster,
    schedules: Vec<String>,
    next: usize,
    default_assignee: Option<String>,
    phase: Phase,
}

impl View for Resolver {
    type V = ResolverModel;

    closed spec fn view(&self) -> ResolverModel {
        ResolverModel {
            roster: self.roster@,
            schedules: self.schedules@.map_values(|s: String| s@),
            next: self.next as int,
            default_assignee: match self.default_assignee {
                Some(d) => Some(d@),
                None => None,
            },
            phase: self.phase,
        }
    }
}

impl Resolver {
    /// Start a run: the resolver and the first action. With at least one
    /// schedule that action queries the first schedule; with none, the
    /// fallback decision is already final.
    pub fn new(
        roster: TeamRoster,
        schedules: Vec<String>,
        default_assignee: Option<String>,
    ) -> (r: (Resolver, Action))
        ensures
            r.0@ == init_model(
                roster@,
                schedules@.map_values(|s: String| s@),
                match default_assignee {
                    Some(d) => Some(d@),
                    None => None,
                },
            ).0,
            r.1@ == init_model(
                roster@,
                schedules@.map_values(|s: String| s@),
                match default_assignee {
                    Some(d) => Some(d@),
                    None => None,
                },
            ).1,
            r.0@.wf(),
    {
        let mut resolver = Resolver { roster, schedules, next: 0, default_assignee, phase: Phase::Done };
        let action = resolver.advance();
        (resolver, action)
    }

    /// Feed the answer to the outstanding query in and learn what to do next.
    /// The step is exactly [`step_model`] on the resolver's mathematical
    /// state.
    pub fn step(&mut self, event: Event) -> (r: Action)
        requires
            old(self)@.wf(),
            event_fits(old(self)@, event@),
        ensures
            final(self)@ == step_model(old(self)@, event@).0,
            r@ == step_model(old(self)@, event@).1,
            final(self)@.wf(),
    {
        match event {
            Event::ScheduleFailed => {
                self.phase = Phase::Done;
                Action::Finish(Err(ResolveError::ScheduleError))
            },
            Event::DirectoryFailed => {
                self.phase = Phase::Done;
                Action::Finish(Err(ResolveError::DirectoryError))
            },
            Event::OnCall(r) => match r {
                Some(u) => {
                    self.phase = Phase::AwaitContact;
                    Action::QueryContact(u)
                },
                None => {
                    proof {
                        assert(self@.schedules.len() == self.schedules.len());
                    }
                    self.next = self.next + 1;
                    self.advance()
                },
            },
            Event::Contact(addr) => match self.roster.lookup(&addr) {
                Some(login) => {
                    self.phase = Phase::Done;
                    Action::Finish(Ok(login))
                },
                None => {
                    proof {
                        assert(self@.schedules.len() == self.schedules.len());
                    }
                    self.next = self.next + 1;
                    self.advance()
                },
            },
        }
    }

    /// Consult the schedule at `next`, or fall back once none is left.
    fn advance(&mut self) -> (r: Action)
        requires
            old(self)@.next <= old(self)@.schedules.len(),
        ensures
            final(self)@ == advance_model(old(self)@).0,
            r@ == advance_model(old(self)@).1,
            final(self)@.wf(),
    {
        if self.next < self.schedules.len() {
            self.phase = Phase::AwaitOnCall;
            Action::QueryOnCall(self.schedules[self.next].clone())
        } else {
            self.phase = Phase::Done;
            Action::Finish(fallback(&self.roster, &self.default_assignee))
        }
    }
}

/// The fallback decision, computed: exactly [`fallback_model`].
fn fallback(
    roster: &TeamRoster,
    default_assignee: &Option<String>,
) -> (r: Result<String, ResolveError>)
    ensures
        (match r {
            Ok(login) => Ok(login@),
            Err(e) => Err(e),
        }) == fallback_model(
            roster@,
            match *default_assignee {
                Some(d) => Some(d@),
                None => None,
            },
        ),
{
    match default_assignee {
        Some(d) => match roster.lookup(d) {
            Some(login) => Ok(login),
            None => Ok(d.clone()),
        },
        None => Err(ResolveError::NoAssigneeFound),
    }
}

} // verus!
