//! Laws of the resolution algorithm, proved once and for all over
//! [`step_model`], the exact description that [`crate::resolver::Resolver`]'s
//! contracts tie every executable step to.

use vstd::prelude::*;

use crate::resolver::{
    event_fits, fallback_model, init_model, step_model, ActionModel, EventModel, ResolveError,
    ResolverModel,
};

verus! {

/// A finished resolver accepts no further event: once a `Finish` action is
/// issued, no schedule — in particular no later schedule — is ever consulted
/// again.
pub proof fn done_is_terminal(m: ResolverModel, ev: EventModel)
    requires
        m.phase is Done,
    ensures
        !event_fits(m, ev),
{
}

/// Law: when the schedule under consideration has an on-call person whose
/// contact address is in the roster, the resolver returns that member's
/// login, and the run ends there — the answer is `Finish`, not a query, and
/// the resolver is done, so no later schedule is consulted.
pub proof fn first_match_wins(m: ResolverModel, user_ref: Seq<char>, addr: Seq<char>)
    requires
        m.wf(),
        m.phase is AwaitOnCall,
        m.roster.contains_key(addr),
    ensures
        ({
            let (m1, a1) = step_model(m, EventModel::OnCall(Some(user_ref)));
            let (m2, a2) = step_model(m1, EventModel::Contact(addr));
            &&& a1 == ActionModel::QueryContact(user_ref)
            &&& a2 == ActionModel::Finish(Result::<Seq<char>, ResolveError>::Ok(m.roster[addr]))
            &&& m2.phase is Done
            &&& m2.next == m.next
        }),
{
}

/// Law: a schedule with nobody on call contributes only a skip, never a
/// failure — the resolver moves on to the very next schedule — and when that
/// next schedule's on-call person is a roster member, their login is the
/// result.
pub proof fn empty_schedule_is_skipped(m: ResolverModel, user_ref: Seq<char>, addr: Seq<char>)
    requires
        m.wf(),
        m.phase is AwaitOnCall,
        m.next + 1 < m.schedules.len(),
        m.roster.contains_key(addr),
    ensures
        ({
            let (m1, a1) = step_model(m, EventModel::OnCall(None));
            let (m2, a2) = step_model(m1, EventModel::OnCall(Some(user_ref)));
            let (m3, a3) = step_model(m2, EventModel::Contact(addr));
            &&& a1 == ActionModel::QueryOnCall(m.schedules[m.next + 1])
            &&& m1.phase is AwaitOnCall
            &&& a3 == ActionModel::Finish(Result::<Seq<char>, ResolveError>::Ok(m.roster[addr]))
            &&& m3.phase is Done
        }),
{
}

/// Law: with no schedules configured and no default assignee, resolution
/// fails at once with `NoAssigneeFound`.
pub proof fn nothing_configured_fails(roster: Map<Seq<char>, Seq<char>>)
    ensures
        init_model(roster, Seq::<Seq<char>>::empty(), None).1 == ActionModel::Finish(
            Result::<Seq<char>, ResolveError>::Err(ResolveError::NoAssigneeFound),
        ),
        init_model(roster, Seq::<Seq<char>>::empty(), None).0.phase is Done,
{
}

/// Law: a failed on-call query aborts the whole run immediately with
/// `ScheduleError`; the resolver is done, so no further schedule — in
/// particular none of the remaining ones — is ever queried.
pub proof fn schedule_error_aborts(m: ResolverModel)
    requires
        m.wf(),
        m.phase is AwaitOnCall,
    ensures
        ({
            let (m1, a1) = step_model(m, EventModel::ScheduleFailed);
            &&& a1 == ActionModel::Finish(
                Result::<Seq<char>, ResolveError>::Err(ResolveError::ScheduleError),
            )
            &&& m1.phase is Done
            &&& m1.next == m.next
        }),
{
}

/// Law: a failed contact-address lookup likewise aborts the run immediately,
/// with `DirectoryError`.
pub proof fn directory_error_aborts(m: ResolverModel)
    requires
        m.wf(),
        m.phase is AwaitContact,
    ensures
        ({
            let (m1, a1) = step_model(m, EventModel::DirectoryFailed);
            &&& a1 == ActionModel::Finish(
                Result::<Seq<char>, ResolveError>::Err(ResolveError::DirectoryError),
            )
            &&& m1.phase is Done
        }),
{
}

/// An event that neither resolves an assignee nor fails: an on-call answer of
/// any kind, or a contact address that is not in the roster.
pub open spec fn benign_event(m: ResolverModel, ev: EventModel) -> bool {
    &&& event_fits(m, ev)
    &&& match ev {
        EventModel::OnCall(_) => true,
        EventModel::Contact(addr) => !m.roster.contains_key(addr),
        EventModel::ScheduleFailed => false,
        EventModel::DirectoryFailed => false,
    }
}

/// A whole run of benign events, each one fitting the state it meets.
pub open spec fn benign_trace(m: ResolverModel, evs: Seq<EventModel>) -> bool
    decreases evs.len(),
{
    evs.len() > 0 ==> {
        &&& benign_event(m, evs[0])
        &&& benign_trace(step_model(m, evs[0]).0, evs.skip(1))
    }
}

/// The state after a run of events.
pub open spec fn run_model(m: ResolverModel, evs: Seq<EventModel>) -> ResolverModel
    decreases evs.len(),
{
    if evs.len() == 0 {
        m
    } else {
        run_model(step_model(m, evs[0]).0, evs.skip(1))
    }
}

/// The action the last event of a run was answered with.
pub open spec fn last_action(m: ResolverModel, evs: Seq<EventModel>) -> ActionModel
    recommends
        evs.len() > 0,
    decreases evs.len(),
{
    if evs.len() <= 1 {
        step_model(m, evs[0]).1
    } else {
        last_action(step_model(m, evs[0]).0, evs.skip(1))
    }
}

/// Law: over any run in which no on-call person matches the roster and no
/// query fails — however many schedules are consulted — the roster, the
/// schedule order and the configured default never change, and if the run
/// finishes, its final action is exactly the fallback decision over the
/// starting roster and default.
pub proof fn benign_run_falls_back(m: ResolverModel, evs: Seq<EventModel>)
    requires
        m.wf(),
        !(m.phase is Done),
        benign_trace(m, evs),
        evs.len() > 0,
    ensures
        ({
            let mf = run_model(m, evs);
            &&& mf.wf()
            &&& mf.roster == m.roster
            &&& mf.schedules == m.schedules
            &&& mf.default_assignee == m.default_assignee
            &&& (mf.phase is Done ==> last_action(m, evs) == ActionModel::Finish(
                fallback_model(m.roster, m.default_assignee),
            ))
        }),
    decreases evs.len(),
{
    let (m1, a1) = step_model(m, evs[0]);
    let rest = evs.skip(1);
    assert(m1.wf());
    if evs.len() == 1 {
        assert(run_model(m1, rest) == m1);
    } else {
        assert(benign_trace(m1, rest));
        assert(benign_event(m1, rest[0]));
        assert(!(m1.phase is Done));
        benign_run_falls_back(m1, rest);
    }
}

/// Law: when every consulted schedule fails to match and the configured
/// default is not a roster contact address, the run ends with the default
/// used verbatim as the login identifier.
pub proof fn unmatched_default_is_literal_login(
    m: ResolverModel,
    evs: Seq<EventModel>,
    d: Seq<char>,
)
    requires
        m.wf(),
        !(m.phase is Done),
        benign_trace(m, evs),
        evs.len() > 0,
        m.default_assignee == Some(d),
        !m.roster.contains_key(d),
        run_model(m, evs).phase is Done,
    ensures
        last_action(m, evs) == ActionModel::Finish(Result::<Seq<char>, ResolveError>::Ok(d)),
{
    benign_run_falls_back(m, evs);
}

/// Law: when every consulted schedule fails to match and the configured
/// default is itself a roster contact address, the run ends with that roster
/// entry's login — the address is translated, never returned raw.
pub proof fn unmatched_default_address_is_translated(
    m: ResolverModel,
    evs: Seq<EventModel>,
    d: Seq<char>,
)
    requires
        m.wf(),
        !(m.phase is Done),
        benign_trace(m, evs),
        evs.len() > 0,
        m.default_assignee == Some(d),
        m.roster.contains_key(d),
        run_model(m, evs).phase is Done,
    ensures
        last_action(m, evs) == ActionModel::Finish(
            Result::<Seq<char>, ResolveError>::Ok(m.roster[d]),
        ),
{
    benign_run_falls_back(m, evs);
}

} // verus!
