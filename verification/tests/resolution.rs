use oncall_assignee::resolver::{Action, Event, ResolveError, Resolver};
use oncall_assignee::roster::TeamRoster;

fn roster_ab() -> TeamRoster {
    let mut roster = TeamRoster::new();
    roster.insert("a@x.com".to_string(), "alice".to_string());
    roster.insert("b@x.com".to_string(), "bob".to_string());
    roster
}

fn expect_query_oncall(action: Action) -> String {
    match action {
        Action::QueryOnCall(schedule_id) => schedule_id,
        other => panic!("expected an on-call query, got {:?}", other),
    }
}

fn expect_query_contact(action: Action) -> String {
    match action {
        Action::QueryContact(user_ref) => user_ref,
        other => panic!("expected a contact query, got {:?}", other),
    }
}

fn expect_finish(action: Action) -> Result<String, ResolveError> {
    match action {
        Action::Finish(result) => result,
        other => panic!("expected the run to finish, got {:?}", other),
    }
}

#[test]
fn single_schedule_match_resolves_member() {
    let (mut resolver, a0) = Resolver::new(roster_ab(), vec!["S1".to_string()], None);
    assert_eq!(expect_query_oncall(a0), "S1");
    let a1 = resolver.step(Event::OnCall(Some("U1".to_string())));
    assert_eq!(expect_query_contact(a1), "U1");
    let a2 = resolver.step(Event::Contact("a@x.com".to_string()));
    assert_eq!(expect_finish(a2), Ok("alice".to_string()));
}

#[test]
fn first_schedule_empty_second_matches() {
    let schedules = vec!["S1".to_string(), "S2".to_string()];
    let (mut resolver, a0) = Resolver::new(roster_ab(), schedules, None);
    assert_eq!(expect_query_oncall(a0), "S1");
    // Nobody on call for S1: a benign skip, the run moves on to S2.
    let a1 = resolver.step(Event::OnCall(None));
    assert_eq!(expect_query_oncall(a1), "S2");
    let a2 = resolver.step(Event::OnCall(Some("U2".to_string())));
    assert_eq!(expect_query_contact(a2), "U2");
    let a3 = resolver.step(Event::Contact("b@x.com".to_string()));
    assert_eq!(expect_finish(a3), Ok("bob".to_string()));
}

#[test]
fn unmatched_oncall_uses_default_literal() {
    let (mut resolver, a0) =
        Resolver::new(roster_ab(), vec!["S1".to_string()], Some("zoe".to_string()));
    assert_eq!(expect_query_oncall(a0), "S1");
    let a1 = resolver.step(Event::OnCall(Some("U1".to_string())));
    assert_eq!(expect_query_contact(a1), "U1");
    // The on-call person is not a team member; the default is no roster
    // address either, so it is used verbatim as the login.
    let a2 = resolver.step(Event::Contact("c@x.com".to_string()));
    assert_eq!(expect_finish(a2), Ok("zoe".to_string()));
}

#[test]
fn unmatched_oncall_translates_default_address() {
    let (mut resolver, a0) =
        Resolver::new(roster_ab(), vec!["S1".to_string()], Some("a@x.com".to_string()));
    assert_eq!(expect_query_oncall(a0), "S1");
    let a1 = resolver.step(Event::OnCall(Some("U1".to_string())));
    assert_eq!(expect_query_contact(a1), "U1");
    // The default names a roster contact address: it is translated to that
    // member's login, not returned raw.
    let a2 = resolver.step(Event::Contact("c@x.com".to_string()));
    assert_eq!(expect_finish(a2), Ok("alice".to_string()));
}

#[test]
fn nothing_configured_reports_no_assignee() {
    let (_resolver, a0) = Resolver::new(roster_ab(), Vec::new(), None);
    assert_eq!(expect_finish(a0), Err(ResolveError::NoAssigneeFound));
}

#[test]
fn empty_roster_no_schedules_uses_default() {
    let (_resolver, a0) =
        Resolver::new(TeamRoster::new(), Vec::new(), Some("zoe".to_string()));
    assert_eq!(expect_finish(a0), Ok("zoe".to_string()));
}

#[test]
fn schedule_error_aborts_run() {
    let schedules = vec!["S1".to_string(), "S2".to_string()];
    let (mut resolver, a0) = Resolver::new(roster_ab(), schedules, None);
    assert_eq!(expect_query_oncall(a0), "S1");
    // The on-call query for the first schedule failed: the run ends at once
    // with ScheduleError; the answer is Finish, so S2 is never queried.
    let a1 = resolver.step(Event::ScheduleFailed);
    assert_eq!(expect_finish(a1), Err(ResolveError::ScheduleError));
}

#[test]
fn directory_error_aborts_run() {
    let (mut resolver, a0) = Resolver::new(roster_ab(), vec!["S1".to_string()], None);
    assert_eq!(expect_query_oncall(a0), "S1");
    let a1 = resolver.step(Event::OnCall(Some("U1".to_string())));
    assert_eq!(expect_query_contact(a1), "U1");
    let a2 = resolver.step(Event::DirectoryFailed);
    assert_eq!(expect_finish(a2), Err(ResolveError::DirectoryError));
}

#[test]
fn all_schedules_empty_falls_back_to_address_default() {
    let schedules = vec!["S1".to_string(), "S2".to_string()];
    let (mut resolver, a0) =
        Resolver::new(roster_ab(), schedules, Some("b@x.com".to_string()));
    assert_eq!(expect_query_oncall(a0), "S1");
    let a1 = resolver.step(Event::OnCall(None));
    assert_eq!(expect_query_oncall(a1), "S2");
    let a2 = resolver.step(Event::OnCall(None));
    assert_eq!(expect_finish(a2), Ok("bob".to_string()));
}

#[test]
fn two_schedules_skip_then_match() {
    // roster = {"a@x.com": "alice", "b@x.com": "bob"}; S1's on-call person
    // resolves to an address outside the roster (a skip), S2's resolves to
    // "b@x.com" (a match): the result is "bob" and no further query is made.
    let schedules = vec!["S1".to_string(), "S2".to_string()];
    let (mut resolver, a0) = Resolver::new(roster_ab(), schedules, None);
    assert_eq!(expect_query_oncall(a0), "S1");
    let a1 = resolver.step(Event::OnCall(Some("U1".to_string())));
    assert_eq!(expect_query_contact(a1), "U1");
    let a2 = resolver.step(Event::Contact("c@x.com".to_string()));
    assert_eq!(expect_query_oncall(a2), "S2");
    let a3 = resolver.step(Event::OnCall(Some("U2".to_string())));
    assert_eq!(expect_query_contact(a3), "U2");
    let a4 = resolver.step(Event::Contact("b@x.com".to_string()));
    assert_eq!(expect_finish(a4), Ok("bob".to_string()));
}
