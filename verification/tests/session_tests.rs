use ppslib::instant::Instant;
use ppslib::session::{
    judge_stored_session, Session, SessionSetup, SetupAction, SetupEvent, StoredLookup,
    StoredVerdict,
};

const ID: &str = "e3b0c44298fc1c149afbf4c8996fb92427ae41e4649b934ca495991b7852b855";
const OTHER_ID: &str = "07714c67cf02269caf91e2e65b7d7ad10d3b21610d68498b627f161def8f7e86";

fn stored(sessid: &str, ua: &str, last: Option<Instant>) -> Session {
    Session {
        sessid: sessid.to_string(),
        user_agent: ua.to_string(),
        shooter_id: Some(7),
        shooter_name: Some("kim".to_string()),
        email_address: Some("kim@example.com".to_string()),
        last_access: last,
        google_oauth: true,
        facebook_oauth: false,
    }
}

fn at(secs: i64) -> Instant {
    Instant { secs, nanos: 0 }
}

#[test]
fn default_and_fresh_sessions() {
    let d = Session::default();
    assert_eq!(d.sessid, "");
    assert_eq!(d.user_agent, "");
    assert_eq!(d.shooter_id, None);
    assert_eq!(d.last_access, None);
    assert!(!d.google_oauth && !d.facebook_oauth);
    let f = Session::fresh(ID.to_string(), &"ua".to_string());
    assert_eq!(f.sessid, ID);
    assert_eq!(f.user_agent, "ua");
    assert_eq!(f.shooter_name, None);
    assert_eq!(f.email_address, None);
}

#[test]
fn touch_sets_last_access_only() {
    let mut s = stored(ID, "ua", None);
    s.touch(at(99));
    assert_eq!(s.last_access, Some(at(99)));
    assert_eq!(s.shooter_id, Some(7));
    assert!(s.google_oauth);
}

#[test]
fn stored_session_within_window_is_valid() {
    let s = stored(ID, "ua", Some(at(1_000)));
    assert_eq!(judge_stored_session(&s, &"ua".to_string(), at(1_000 + 29 * 60), 30), StoredVerdict::Valid);
}

#[test]
fn stored_session_at_the_edge_is_stale() {
    let s = stored(ID, "ua", Some(at(1_000)));
    assert_eq!(judge_stored_session(&s, &"ua".to_string(), at(1_000 + 30 * 60), 30), StoredVerdict::Stale);
    let just_inside = stored(ID, "ua", Some(Instant { secs: 1_000, nanos: 1 }));
    assert_eq!(
        judge_stored_session(&just_inside, &"ua".to_string(), at(1_000 + 30 * 60), 30),
        StoredVerdict::Valid
    );
}

#[test]
fn stored_session_of_other_agent_is_stale() {
    let s = stored(ID, "ua", Some(at(1_000)));
    assert_eq!(judge_stored_session(&s, &"other".to_string(), at(1_001), 30), StoredVerdict::Stale);
}

#[test]
fn stored_session_without_last_access() {
    let s = stored(ID, "ua", None);
    assert_eq!(judge_stored_session(&s, &"ua".to_string(), at(1_001), 30), StoredVerdict::NoLastAccess);
}

fn expect_lookup(a: &SetupAction) -> String {
    match a {
        SetupAction::Lookup(id) => id.clone(),
        _ => panic!("expected a lookup"),
    }
}

#[test]
fn valid_cookie_keeps_its_session() {
    let m = SessionSetup::new("ua".to_string(), 30);
    let (m, a) = m.step(SetupEvent::Begin, at(2_000));
    assert!(matches!(a, SetupAction::ReadCookie));
    let (m, a) = m.step(SetupEvent::Cookie(Some(ID.to_string())), at(2_000));
    assert_eq!(expect_lookup(&a), ID);
    let ev = SetupEvent::Looked(StoredLookup::Found(stored(ID, "ua", Some(at(1_500)))));
    assert!(m.step_is_defined(&ev, at(2_000)));
    let (m, a) = m.step(ev, at(2_000));
    match &a {
        SetupAction::Save(s) => {
            assert_eq!(s.sessid, ID);
            assert_eq!(s.last_access, Some(at(2_000)));
            assert_eq!(s.shooter_id, Some(7));
        }
        _ => panic!("expected a save"),
    }
    let (m, a) = m.step(SetupEvent::Saved, at(2_001));
    match &a {
        SetupAction::Finish(s) => {
            assert_eq!(s.sessid, ID);
            assert_eq!(s.shooter_name, Some("kim".to_string()));
            assert!(s.google_oauth);
        }
        _ => panic!("expected the session"),
    }
    let (_, a) = m.step(SetupEvent::Saved, at(2_002));
    assert!(matches!(a, SetupAction::Ignored));
}

#[test]
fn no_cookie_opens_a_new_session() {
    let m = SessionSetup::new("ua".to_string(), 30);
    let (m, _) = m.step(SetupEvent::Begin, at(5));
    let (m, a) = m.step(SetupEvent::Cookie(None), at(5));
    assert!(matches!(a, SetupAction::DrawCandidate));
    let (m, a) = m.step(SetupEvent::Candidate(OTHER_ID.to_string()), at(5));
    assert_eq!(expect_lookup(&a), OTHER_ID);
    let (m, a) = m.step(SetupEvent::Looked(StoredLookup::Absent), at(6));
    match &a {
        SetupAction::Save(s) => {
            assert_eq!(s.sessid, OTHER_ID);
            assert_eq!(s.user_agent, "ua");
            assert_eq!(s.last_access, Some(at(6)));
            assert_eq!(s.shooter_id, None);
        }
        _ => panic!("expected a save"),
    }
    let (m, a) = m.step(SetupEvent::Saved, at(7));
    match &a {
        SetupAction::SetCookie(id) => assert_eq!(id, OTHER_ID),
        _ => panic!("expected a cookie"),
    }
    let (_, a) = m.step(SetupEvent::CookieSet, at(7));
    match &a {
        SetupAction::Finish(s) => {
            assert_eq!(s.sessid, OTHER_ID);
            assert_eq!(s.last_access, Some(at(6)));
        }
        _ => panic!("expected the session"),
    }
}

#[test]
fn expired_cookie_session_is_deleted_and_replaced() {
    let m = SessionSetup::new("ua".to_string(), 30);
    let (m, _) = m.step(SetupEvent::Begin, at(5_000));
    let (m, _) = m.step(SetupEvent::Cookie(Some(ID.to_string())), at(5_000));
    let (m, a) = m.step(
        SetupEvent::Looked(StoredLookup::Found(stored(ID, "ua", Some(at(10))))),
        at(5_000),
    );
    match &a {
        SetupAction::Delete(id) => assert_eq!(id, ID),
        _ => panic!("expected a delete"),
    }
    let (_, a) = m.step(SetupEvent::Deleted, at(5_000));
    assert!(matches!(a, SetupAction::DrawCandidate));
}

#[test]
fn malformed_cookie_is_not_looked_up() {
    let m = SessionSetup::new("ua".to_string(), 30);
    let (m, _) = m.step(SetupEvent::Begin, at(5));
    let (_, a) = m.step(SetupEvent::Cookie(Some("not-a-session".to_string())), at(5));
    assert!(matches!(a, SetupAction::DrawCandidate));
}

#[test]
fn candidate_in_use_is_drawn_again() {
    let m = SessionSetup::new("ua".to_string(), 30);
    let (m, _) = m.step(SetupEvent::Begin, at(100));
    let (m, _) = m.step(SetupEvent::Cookie(None), at(100));
    let (m, _) = m.step(SetupEvent::Candidate(ID.to_string()), at(100));
    let (m, a) = m.step(
        SetupEvent::Looked(StoredLookup::Found(stored(ID, "ua", Some(at(90))))),
        at(100),
    );
    assert!(matches!(a, SetupAction::DrawCandidate));
    let (_, a) = m.step(SetupEvent::Candidate(String::new()), at(100));
    assert!(matches!(a, SetupAction::DrawCandidate));
}

#[test]
fn stale_candidate_is_deleted_then_taken() {
    let m = SessionSetup::new("ua".to_string(), 30);
    let (m, _) = m.step(SetupEvent::Begin, at(100));
    let (m, _) = m.step(SetupEvent::Cookie(None), at(100));
    let (m, _) = m.step(SetupEvent::Candidate(ID.to_string()), at(100));
    let (m, a) = m.step(SetupEvent::Looked(StoredLookup::Found(stored(ID, "other", None))), at(100));
    assert!(matches!(a, SetupAction::Delete(_)));
    let (_, a) = m.step(SetupEvent::Deleted, at(101));
    match &a {
        SetupAction::Save(s) => assert_eq!(s.sessid, ID),
        _ => panic!("expected a save"),
    }
}

#[test]
fn failed_lookup_of_cookie_opens_new_session() {
    let m = SessionSetup::new("ua".to_string(), 30);
    let (m, _) = m.step(SetupEvent::Begin, at(1));
    let (m, _) = m.step(SetupEvent::Cookie(Some(ID.to_string())), at(1));
    let (_, a) = m.step(SetupEvent::Looked(StoredLookup::Failed), at(1));
    assert!(matches!(a, SetupAction::DrawCandidate));
}

#[test]
fn unexpected_event_is_ignored() {
    let m = SessionSetup::new("ua".to_string(), 30);
    let (m, a) = m.step(SetupEvent::Saved, at(1));
    assert!(matches!(a, SetupAction::Ignored));
    let (_, a) = m.step(SetupEvent::Begin, at(1));
    assert!(matches!(a, SetupAction::ReadCookie));
}

#[test]
fn expiry_beyond_chrono_is_flagged() {
    let m = SessionSetup::new("ua".to_string(), i64::MAX);
    let (m, _) = m.step(SetupEvent::Begin, at(1));
    let (m, _) = m.step(SetupEvent::Cookie(Some(ID.to_string())), at(1));
    let found = SetupEvent::Looked(StoredLookup::Found(stored(ID, "ua", Some(at(0)))));
    assert!(!m.step_is_defined(&found, at(1)));
    let none = SetupEvent::Looked(StoredLookup::Found(stored(ID, "ua", None)));
    assert!(m.step_is_defined(&none, at(1)));
}

#[test]
fn upper_case_cookie_is_not_looked_up() {
    let m = SessionSetup::new("ua".to_string(), 30);
    let (m, _) = m.step(SetupEvent::Begin, at(5));
    let (_, a) = m.step(SetupEvent::Cookie(Some(ID.to_uppercase())), at(5));
    assert!(matches!(a, SetupAction::DrawCandidate));
}

#[test]
fn saved_session_survives_the_next_request() {
    let m = SessionSetup::new("ua".to_string(), 30);
    let (m, _) = m.step(SetupEvent::Begin, at(100));
    let (m, _) = m.step(SetupEvent::Cookie(None), at(100));
    let (m, _) = m.step(SetupEvent::Candidate(ID.to_string()), at(100));
    let (m, _) = m.step(SetupEvent::Looked(StoredLookup::Absent), at(100));
    let (m, _) = m.step(SetupEvent::Saved, at(100));
    let (_, a) = m.step(SetupEvent::CookieSet, at(100));
    let first = match a {
        SetupAction::Finish(s) => s,
        _ => panic!("expected the session"),
    };
    let next = SessionSetup::new("ua".to_string(), 30);
    let (next, _) = next.step(SetupEvent::Begin, at(1_000));
    let (next, _) = next.step(SetupEvent::Cookie(Some(first.sessid.clone())), at(1_000));
    let (next, _) = next.step(SetupEvent::Looked(StoredLookup::Found(first)), at(1_000));
    let (_, a) = next.step(SetupEvent::Saved, at(1_001));
    match a {
        SetupAction::Finish(s) => {
            assert_eq!(s.sessid, ID);
            assert_eq!(s.user_agent, "ua");
            assert_eq!(s.last_access, Some(at(1_000)));
        }
        _ => panic!("expected the same session"),
    }
}
