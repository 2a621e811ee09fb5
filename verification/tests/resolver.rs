use identity_core::claims::{Claims, PartialUser, ResolveError, User};
use identity_core::ids::{SessionUserId, UserId};
use identity_core::resolver::{Action, DbFailure, Event, Resolver, ResolverState};

fn claims(subject: &str, name: Option<&str>, email: Option<&str>) -> Claims {
    Claims {
        subject: subject.to_string(),
        name: name.map(|n| n.to_string()),
        email: email.map(|e| e.to_string()),
    }
}

fn ana_claims() -> Claims {
    claims("abc123", Some("Ana"), Some("a@example.com"))
}

fn user_id(key: &str) -> UserId {
    UserId { table: "user".to_string(), key: key.to_string() }
}

fn ana_row(key: &str) -> User {
    User {
        id: user_id(key),
        subject: "abc123".to_string(),
        name: "Ana".to_string(),
        email: "a@example.com".to_string(),
    }
}

#[test]
fn session_hit_resolves_without_any_database_event() {
    let stored = SessionUserId(user_id("cached")).to_session_string();
    let (mut resolver, first) = Resolver::start(ana_claims());
    assert!(matches!(first, Action::ReadSession));
    let action = resolver.step(Event::SessionRead(Some(stored)));
    match action {
        Action::Finish { id, write_back } => {
            assert_eq!(id.0.table, "user");
            assert_eq!(id.0.key, "cached");
            assert!(!write_back);
        }
        _ => panic!("a session hit must finish at once"),
    }
    assert_eq!(resolver.state, ResolverState::Resolved);
}

#[test]
fn malformed_session_value_falls_through_to_claims() {
    let (mut resolver, _) = Resolver::start(ana_claims());
    let action = resolver.step(Event::SessionRead(Some("garbage".to_string())));
    match action {
        Action::LookupSubject(subject) => assert_eq!(subject, "abc123"),
        _ => panic!("a malformed session value must fall through to a lookup"),
    }
}

#[test]
fn known_subject_resolves_from_the_lookup() {
    let (mut resolver, _) = Resolver::start(ana_claims());
    resolver.step(Event::SessionRead(None));
    let action = resolver.step(Event::LookupDone(Ok(Some(user_id("existing")))));
    match action {
        Action::Finish { id, write_back } => {
            assert_eq!(id.0.key, "existing");
            assert!(write_back);
        }
        _ => panic!("a found row must resolve the request"),
    }
}

#[test]
fn first_time_login_creates_then_resolves_and_caches() {
    // Session absent; subject "abc123" not found; a new user is created from
    // the claims; resolution returns its identifier and asks for the session
    // to be repopulated.
    let (mut resolver, _) = Resolver::start(ana_claims());
    let action = resolver.step(Event::SessionRead(None));
    match action {
        Action::LookupSubject(subject) => assert_eq!(subject, "abc123"),
        _ => panic!("a session miss must look the subject up"),
    }
    let action = resolver.step(Event::LookupDone(Ok(None)));
    let row = match action {
        Action::CreateUser(row) => row,
        _ => panic!("an unknown subject with complete claims must create"),
    };
    assert_eq!(row.subject, "abc123");
    assert_eq!(row.name, "Ana");
    assert_eq!(row.email, "a@example.com");
    let action = resolver.step(Event::CreateDone(Ok(Some(ana_row("fresh")))));
    let written = match action {
        Action::Finish { id, write_back } => {
            assert_eq!(id.0.key, "fresh");
            assert!(write_back);
            id.to_session_string()
        }
        _ => panic!("a created row must resolve the request"),
    };
    assert_eq!(resolver.state, ResolverState::Resolved);

    // A later request finds the now-populated session and never touches the
    // database: the one step is the session read, and it yields the same
    // identifier.
    let (mut next_request, _) = Resolver::start(ana_claims());
    let action = next_request.step(Event::SessionRead(Some(written)));
    match action {
        Action::Finish { id, write_back } => {
            assert_eq!(id.0.table, "user");
            assert_eq!(id.0.key, "fresh");
            assert!(!write_back);
        }
        _ => panic!("the populated session must resolve without the database"),
    }
    assert_eq!(next_request.state, ResolverState::Resolved);
}

#[test]
fn missing_display_name_is_an_authorization_failure_without_a_row() {
    let (mut resolver, _) = Resolver::start(claims("abc123", None, Some("a@example.com")));
    resolver.step(Event::SessionRead(None));
    let action = resolver.step(Event::LookupDone(Ok(None)));
    match action {
        Action::Fail(e) => assert_eq!(e, ResolveError::MissingDisplayName),
        Action::CreateUser(_) => panic!("incomplete claims must not create a row"),
        _ => panic!("incomplete claims must fail the request"),
    }
    assert_eq!(resolver.state, ResolverState::Failed);
}

#[test]
fn missing_email_is_an_authorization_failure_without_a_row() {
    let (mut resolver, _) = Resolver::start(claims("abc123", Some("Ana"), None));
    resolver.step(Event::SessionRead(None));
    let action = resolver.step(Event::LookupDone(Ok(None)));
    match action {
        Action::Fail(e) => assert_eq!(e, ResolveError::MissingEmail),
        Action::CreateUser(_) => panic!("incomplete claims must not create a row"),
        _ => panic!("incomplete claims must fail the request"),
    }
    assert_eq!(resolver.state, ResolverState::Failed);
}

#[test]
fn duplicate_subject_retries_the_lookup_once() {
    // A concurrent first login won the race: the store rejected the insert,
    // and the retried lookup returns the row the winner created.
    let (mut resolver, _) = Resolver::start(ana_claims());
    resolver.step(Event::SessionRead(None));
    resolver.step(Event::LookupDone(Ok(None)));
    let action = resolver.step(Event::CreateDone(Err(DbFailure::DuplicateSubject)));
    match action {
        Action::LookupSubject(subject) => assert_eq!(subject, "abc123"),
        _ => panic!("a duplicate-subject insert must retry the lookup"),
    }
    assert_eq!(resolver.state, ResolverState::AwaitingRetryLookup);
    let action = resolver.step(Event::LookupDone(Ok(Some(user_id("winner")))));
    match action {
        Action::Finish { id, write_back } => {
            assert_eq!(id.0.key, "winner");
            assert!(write_back);
        }
        _ => panic!("the retried lookup must resolve to the winner's row"),
    }
}

#[test]
fn retry_lookup_finding_nothing_fails_the_request() {
    let (mut resolver, _) = Resolver::start(ana_claims());
    resolver.step(Event::SessionRead(None));
    resolver.step(Event::LookupDone(Ok(None)));
    resolver.step(Event::CreateDone(Err(DbFailure::DuplicateSubject)));
    let action = resolver.step(Event::LookupDone(Ok(None)));
    match action {
        Action::Fail(e) => assert_eq!(e, ResolveError::Database),
        _ => panic!("an inconsistent store must fail the request"),
    }
}

#[test]
fn database_errors_fail_as_authorization_failures() {
    let (mut resolver, _) = Resolver::start(ana_claims());
    resolver.step(Event::SessionRead(None));
    let action = resolver.step(Event::LookupDone(Err(DbFailure::Other)));
    match action {
        Action::Fail(e) => assert_eq!(e, ResolveError::Database),
        _ => panic!("a failed lookup must fail the request"),
    }

    let (mut resolver, _) = Resolver::start(ana_claims());
    resolver.step(Event::SessionRead(None));
    resolver.step(Event::LookupDone(Ok(None)));
    let action = resolver.step(Event::CreateDone(Err(DbFailure::Other)));
    match action {
        Action::Fail(e) => assert_eq!(e, ResolveError::Database),
        _ => panic!("a failed create must fail the request"),
    }
}

#[test]
fn create_yielding_no_row_fails_the_request() {
    let (mut resolver, _) = Resolver::start(ana_claims());
    resolver.step(Event::SessionRead(None));
    resolver.step(Event::LookupDone(Ok(None)));
    let action = resolver.step(Event::CreateDone(Ok(None)));
    match action {
        Action::Fail(e) => assert_eq!(e, ResolveError::NoIdentity),
        _ => panic!("a create without a row must fail the request"),
    }
}

#[test]
fn new_user_row_is_built_from_the_claims() {
    let row = PartialUser::from_claims(&ana_claims()).expect("complete claims must build a row");
    assert_eq!(row.subject, "abc123");
    assert_eq!(row.name, "Ana");
    assert_eq!(row.email, "a@example.com");
    match PartialUser::from_claims(&claims("s", None, None)) {
        Err(e) => assert_eq!(e, ResolveError::MissingDisplayName),
        Ok(_) => panic!("claims without a name must not build a row"),
    }
    match PartialUser::from_claims(&claims("s", Some("n"), None)) {
        Err(e) => assert_eq!(e, ResolveError::MissingEmail),
        Ok(_) => panic!("claims without an email must not build a row"),
    }
}

#[test]
fn group_claims_default_is_empty() {
    let g = identity_core::claims::GroupClaims::default();
    assert!(g.groups.is_empty());
}

#[test]
fn two_racing_first_logins_end_with_one_row_and_one_identifier() {
    // Two requests for the same fresh subject, interleaved so both observe
    // "not found" before either insert lands. The store double below keeps
    // the uniqueness constraint the real store enforces, so the second
    // insert is rejected as a duplicate and that request retries its lookup.
    let mut rows: Vec<(String, String)> = Vec::new();

    let (mut first, _) = Resolver::start(ana_claims());
    let (mut second, _) = Resolver::start(ana_claims());
    first.step(Event::SessionRead(None));
    second.step(Event::SessionRead(None));

    // Both lookups run before either create: the table is still empty.
    let first_create = match first.step(Event::LookupDone(Ok(None))) {
        Action::CreateUser(row) => row,
        _ => panic!("the first request must ask to create"),
    };
    let second_create = match second.step(Event::LookupDone(Ok(None))) {
        Action::CreateUser(row) => row,
        _ => panic!("the second request must ask to create"),
    };

    // The first insert lands; the store admits it.
    assert!(!rows.iter().any(|(s, _)| *s == first_create.subject));
    rows.push((first_create.subject.clone(), "u1".to_string()));
    let first_id = match first.step(Event::CreateDone(Ok(Some(ana_row("u1"))))) {
        Action::Finish { id, .. } => id.to_session_string(),
        _ => panic!("the winning insert must resolve the request"),
    };

    // The second insert hits the uniqueness constraint and is rejected.
    assert!(rows.iter().any(|(s, _)| *s == second_create.subject));
    let action = second.step(Event::CreateDone(Err(DbFailure::DuplicateSubject)));
    match action {
        Action::LookupSubject(subject) => assert_eq!(subject, "abc123"),
        _ => panic!("the losing insert must retry the lookup"),
    }

    // The retried lookup reads the winner's row: same identifier, one row.
    let second_id = match second.step(Event::LookupDone(Ok(Some(user_id("u1"))))) {
        Action::Finish { id, .. } => id.to_session_string(),
        _ => panic!("the retried lookup must resolve to the winner's row"),
    };
    assert_eq!(first_id, second_id);
    assert_eq!(rows.len(), 1);
}
