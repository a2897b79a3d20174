use std::collections::HashMap;

use k_librarian::invite::{InviteOption, InviteToken, InviteTokenApplicationRequest};
use k_librarian::lifecycle::{
    DownstreamFailure, Effect, Event, InviteError, Operation, Reply, Session,
};

fn option(expire_at: Option<u64>, roles: Option<Vec<&str>>) -> InviteOption {
    InviteOption {
        labels_allow: Some(vec!["kids".to_string()]),
        labels_exclude: None,
        shared_libraries: None,
        expire_at,
        roles: roles.map(|r| r.into_iter().map(|s| s.to_string()).collect()),
    }
}

fn record(token: &str, expire_at: Option<u64>, user_id: Option<&str>) -> InviteToken {
    InviteToken {
        token: token.to_string(),
        option: option(expire_at, None),
        user_id: user_id.map(|s| s.to_string()),
    }
}

fn application(email: &str, password: &str) -> InviteTokenApplicationRequest {
    InviteTokenApplicationRequest::new(email.to_string(), password.to_string())
}

/// What the server does when asked; `Err(None)` stands for an unreachable server.
struct Server {
    create: Result<String, Option<String>>,
    restrict: Result<(), Option<String>>,
    creates: Vec<(String, String, Vec<String>)>,
    restricts: Vec<String>,
}

impl Server {
    fn new(create: Result<&str, &str>, restrict: bool) -> Server {
        Server {
            create: create.map(|s| s.to_string()).map_err(|s| Some(s.to_string())),
            restrict: if restrict { Ok(()) } else { Err(Some("Failed to apply user restriction".to_string())) },
            creates: vec![],
            restricts: vec![],
        }
    }
}

/// Runs one operation to its end against an in-memory store; returns the
/// outcome and the number of store reads.
fn drive(
    store: &mut HashMap<String, InviteToken>,
    server: &mut Server,
    token: &str,
    op: Operation,
    now: u64,
) -> (Result<Reply, InviteError>, usize) {
    let (mut session, mut effect) = Session::start(token.to_string(), op);
    let mut reads = 0;
    loop {
        let event = match effect {
            Effect::Finish(outcome) => {
                assert!(session.is_finished());
                return (outcome, reads);
            }
            Effect::Fetch(key) => {
                reads += 1;
                Event::Fetched(Ok(store.get(&key).map(|r| r.duplicate())), now)
            }
            Effect::FetchAll => {
                reads += 1;
                Event::FetchedAll(Ok(store.values().map(|r| r.duplicate()).collect()))
            }
            Effect::Remove(key) => Event::Removed(Ok(store.remove(&key).is_some())),
            Effect::Save(rec) => {
                store.insert(rec.token.clone(), rec);
                Event::Saved
            }
            Effect::CreateAccount(req) => {
                server.creates.push((req.email, req.password, req.roles));
                Event::AccountCreated(server.create.clone().map_err(failure))
            }
            Effect::ApplyRestriction(id, _) => {
                server.restricts.push(id);
                Event::RestrictionApplied(server.restrict.clone().map_err(failure))
            }
        };
        assert!(session.accepts(&event));
        let (next, eff) = session.step(event);
        session = next;
        effect = eff;
    }
}

fn failure(message: Option<String>) -> DownstreamFailure {
    match message {
        Some(m) => DownstreamFailure::Rejected(m),
        None => DownstreamFailure::Unreachable,
    }
}

fn store_with(records: Vec<InviteToken>) -> HashMap<String, InviteToken> {
    records.into_iter().map(|r| (r.token.clone(), r)).collect()
}

#[test]
fn expired_record_is_listed_until_inspected() {
    let mut store = store_with(vec![record("old", Some(100), None), record("new", None, None)]);
    let mut server = Server::new(Ok("x"), true);
    let (listed, _) = drive(&mut store, &mut server, "", Operation::List, 200);
    match listed {
        Ok(Reply::Records(all)) => {
            assert_eq!(all.len(), 2);
            assert!(all.iter().any(|r| r.token == "old"));
        }
        _ => panic!("listing failed"),
    }
    let (first, _) = drive(&mut store, &mut server, "old", Operation::Inspect, 200);
    assert!(matches!(first, Err(InviteError::Expired)));
    assert!(!store.contains_key("old"));
    let (second, _) = drive(&mut store, &mut server, "old", Operation::Inspect, 200);
    assert!(matches!(second, Err(InviteError::NotFound)));
    assert!(store.contains_key("new"));
}

#[test]
fn expired_record_is_purged_by_redeem() {
    let mut store = store_with(vec![record("old", Some(100), None)]);
    let mut server = Server::new(Ok("x"), true);
    let (r, _) = drive(&mut store, &mut server, "old", Operation::Redeem(application("a@b.co", "secret1")), 101);
    assert!(matches!(r, Err(InviteError::Expired)));
    assert!(store.is_empty());
    assert!(server.creates.is_empty() && server.restricts.is_empty());
}

#[test]
fn deadline_itself_is_not_expired() {
    let mut store = store_with(vec![record("t", Some(100), None)]);
    let mut server = Server::new(Ok("x"), true);
    let (r, _) = drive(&mut store, &mut server, "t", Operation::Inspect, 100);
    match r {
        Ok(Reply::Record(rec)) => assert_eq!(rec.token, "t"),
        _ => panic!("record not returned"),
    }
    assert!(store.contains_key("t"));
}

#[test]
fn resume_applies_restriction_only() {
    let mut store = store_with(vec![record("t1", None, Some("acct-9"))]);
    let mut server = Server::new(Ok("other"), true);
    let (r, _) = drive(&mut store, &mut server, "t1", Operation::Redeem(application("a@b.co", "secret1")), 5);
    assert!(matches!(r, Ok(Reply::Redeemed)));
    assert!(server.creates.is_empty());
    assert_eq!(server.restricts, vec!["acct-9".to_string()]);
    assert!(!store.contains_key("t1"));
}

#[test]
fn restriction_failure_keeps_created_account() {
    let mut store = store_with(vec![record("t2", None, None)]);
    let mut server = Server::new(Ok("acct-1"), false);
    let (r, _) = drive(&mut store, &mut server, "t2", Operation::Redeem(application("a@b.co", "secret1")), 5);
    match r {
        Err(e) => assert_eq!(e.message(), "Failed to create user: Failed to apply user restriction"),
        Ok(_) => panic!("should fail"),
    }
    assert_eq!(server.creates.len(), 1);
    assert_eq!(store.get("t2").unwrap().user_id.as_deref(), Some("acct-1"));
    let (again, _) = drive(&mut store, &mut server, "t2", Operation::Inspect, 5);
    match again {
        Ok(Reply::Record(rec)) => assert_eq!(rec.user_id.as_deref(), Some("acct-1")),
        _ => panic!("record lost"),
    }
    // A retry resumes at the restriction step.
    server.restrict = Ok(());
    let (retry, _) = drive(&mut store, &mut server, "t2", Operation::Redeem(application("a@b.co", "secret1")), 5);
    assert!(matches!(retry, Ok(Reply::Redeemed)));
    assert_eq!(server.creates.len(), 1);
    assert_eq!(server.restricts, vec!["acct-1".to_string(), "acct-1".to_string()]);
}

#[test]
fn full_success_deletes_record() {
    let mut store = store_with(vec![record("t3", Some(1000), None)]);
    let mut server = Server::new(Ok("acct-3"), true);
    let (r, _) = drive(&mut store, &mut server, "t3", Operation::Redeem(application("reader@example.com", "hunter22")), 5);
    assert!(matches!(r, Ok(Reply::Redeemed)));
    let (creates_email, creates_password, roles) = &server.creates[0];
    assert_eq!(creates_email, "reader@example.com");
    assert_eq!(creates_password, "hunter22");
    assert_eq!(roles, &vec!["USER".to_string(), "FILE_DOWNLOAD".to_string(), "PAGE_STREAMING".to_string()]);
    let (after, _) = drive(&mut store, &mut server, "t3", Operation::Inspect, 5);
    assert!(matches!(after, Err(InviteError::NotFound)));
}

#[test]
fn configured_roles_are_used() {
    let mut rec = record("t4", None, None);
    rec.option = option(None, Some(vec!["USER"]));
    let mut store = store_with(vec![rec]);
    let mut server = Server::new(Ok("acct-4"), true);
    let _ = drive(&mut store, &mut server, "t4", Operation::Redeem(application("a@b.co", "secret1")), 5);
    assert_eq!(server.creates[0].2, vec!["USER".to_string()]);
}

#[test]
fn create_failure_leaves_record_pending() {
    let mut store = store_with(vec![record("t5", None, None)]);
    let mut server = Server::new(Err("Bad Request: email already used"), true);
    let (r, _) = drive(&mut store, &mut server, "t5", Operation::Redeem(application("a@b.co", "secret1")), 5);
    match r {
        Err(e) => assert_eq!(
            e.message(),
            "Failed to create user: Bad Request: email already used"
        ),
        Ok(_) => panic!("should fail"),
    }
    assert!(store.get("t5").unwrap().user_id.is_none());
    assert!(server.restricts.is_empty());
}

#[test]
fn validation_short_circuits() {
    let mut store = store_with(vec![record("t6", None, None)]);
    let mut server = Server::new(Ok("x"), true);
    let (r, reads) = drive(&mut store, &mut server, "t6", Operation::Redeem(application("not-an-email", "pw")), 5);
    match r {
        Err(e) => assert_eq!(
            e.message(),
            "Invalid request:\n- email: not a valid email: value is missing `@`\n- password: length is lower than 6\n"
        ),
        Ok(_) => panic!("should fail"),
    }
    assert_eq!(reads, 0);
    assert!(server.creates.is_empty() && server.restricts.is_empty());
    assert!(store.contains_key("t6"));
}

#[test]
fn unknown_token_is_not_found() {
    let mut store = store_with(vec![]);
    let mut server = Server::new(Ok("x"), true);
    let (r, _) = drive(&mut store, &mut server, "nope", Operation::Redeem(application("a@b.co", "secret1")), 5);
    match r {
        Err(e) => assert_eq!(e.message(), "Invite token not found"),
        Ok(_) => panic!("should fail"),
    }
    assert!(server.creates.is_empty());
}

#[test]
fn delete_is_unconditional() {
    let mut store = store_with(vec![record("gone", Some(1), None)]);
    let mut server = Server::new(Ok("x"), true);
    let (r, _) = drive(&mut store, &mut server, "gone", Operation::Delete, 1_000_000);
    assert!(matches!(r, Ok(Reply::Removed(true))));
    assert!(store.is_empty());
    let (again, _) = drive(&mut store, &mut server, "gone", Operation::Delete, 1_000_000);
    assert!(matches!(again, Ok(Reply::Removed(false))));
}

#[test]
fn error_messages() {
    assert_eq!(InviteError::Expired.message(), "Invite token expired");
    assert_eq!(
        InviteError::Storage("down".to_string()).message(),
        "Invite store failure: down"
    );
    assert_eq!(
        InviteError::IssueFailed("connection refused".to_string()).message(),
        "Failed to create invite token: connection refused"
    );
    assert_eq!(
        InviteError::DownstreamUnreachable.message(),
        "Failed to create user: Komga could not be reached"
    );
}

#[test]
fn finished_session_accepts_nothing() {
    let (session, _) = Session::start("t".to_string(), Operation::Redeem(application("bad", "pw")));
    assert!(session.is_finished());
    assert!(!session.accepts(&Event::Saved));
    assert_eq!(session.token(), "t");
}

#[test]
fn unreachable_server_is_reported_apart() {
    let mut store = store_with(vec![record("t7", None, None)]);
    let mut server = Server::new(Ok("x"), true);
    server.create = Err(None);
    let (r, _) = drive(&mut store, &mut server, "t7", Operation::Redeem(application("a@b.co", "secret1")), 5);
    assert!(matches!(r, Err(InviteError::DownstreamUnreachable)));
    assert!(store.get("t7").unwrap().user_id.is_none());
}

fn finish_of(effect: Effect) -> Result<Reply, InviteError> {
    match effect {
        Effect::Finish(outcome) => outcome,
        _ => panic!("session not finished"),
    }
}

#[test]
fn failed_store_read_is_a_storage_error() {
    let (session, _) = Session::start("t".to_string(), Operation::Inspect);
    let (_, effect) = session.step(Event::Fetched(Err("connection refused".to_string()), 5));
    match finish_of(effect) {
        Err(e) => assert_eq!(e.message(), "Invite store failure: connection refused"),
        Ok(_) => panic!("should fail"),
    }
}

#[test]
fn failed_listing_is_a_storage_error() {
    let (session, _) = Session::start(String::new(), Operation::List);
    let (_, effect) = session.step(Event::FetchedAll(Err("timeout".to_string())));
    assert!(matches!(finish_of(effect), Err(InviteError::Storage(m)) if m == "timeout"));
}

#[test]
fn failed_delete_is_a_storage_error() {
    let (session, _) = Session::start("t".to_string(), Operation::Delete);
    let (_, effect) = session.step(Event::Removed(Err("read only".to_string())));
    assert!(matches!(finish_of(effect), Err(InviteError::Storage(m)) if m == "read only"));
}
