use ppslib::instant::Instant;
use ppslib::model::{new_shooter, NewOauth, Oauth, Shooter};
use ppslib::oauth::{vendor_name, LinkAction, LinkEvent, LinkFlow, LinkState, Vendor};
use ppslib::session::Session;

fn t() -> Instant {
    Instant { secs: 0, nanos: 0 }
}

fn oauth_row(shooter_id: i32) -> Oauth {
    Oauth {
        oauth_id: 1,
        oauth_vendor: "google".to_string(),
        oauth_user: "sub-1".to_string(),
        shooter_id,
        oauth_status: "active".to_string(),
        oauth_create_time: t(),
        oauth_last_use_time: t(),
        oauth_modify_time: t(),
    }
}

fn shooter_row(shooter_id: i32) -> Shooter {
    Shooter {
        shooter_id,
        shooter_name: "kim".to_string(),
        shooter_password: "pw".to_string(),
        shooter_status: "active".to_string(),
        shooter_email: "kim@example.com".to_string(),
        shooter_real_name: "kim".to_string(),
        shooter_create_time: t(),
        shooter_active_time: None,
        shooter_inactive_time: None,
        shooter_remove_time: None,
        shooter_modify_time: t(),
    }
}

fn session_with(shooter: Option<i32>) -> Session {
    let mut s = Session::default();
    s.shooter_id = shooter;
    s
}

fn flow(vendor: Vendor) -> LinkFlow {
    LinkFlow::new(vendor, "sub-1".to_string(), "Kim".to_string(), "kim@example.com".to_string())
}

fn started(vendor: Vendor, session: &mut Session) -> LinkFlow {
    let (f, a) = flow(vendor).step(LinkEvent::Begin, session);
    match a {
        LinkAction::FindOauth { vendor: v, user } => {
            assert_eq!(v, vendor_name(vendor));
            assert_eq!(user, "sub-1");
        }
        _ => panic!("expected a search for the link"),
    }
    f
}

#[test]
fn vendor_names() {
    assert_eq!(vendor_name(Vendor::Google), "google");
    assert_eq!(vendor_name(Vendor::Facebook), "facebook");
}

#[test]
fn known_token_of_same_shooter_is_accepted() {
    let mut s = session_with(Some(7));
    let f = started(Vendor::Google, &mut s);
    let (f, a) = f.step(LinkEvent::OauthFound(oauth_row(7)), &mut s);
    assert!(matches!(a, LinkAction::Finish(true)));
    assert_eq!(f.state, LinkState::Done);
    assert_eq!(s.shooter_id, Some(7));
}

#[test]
fn known_token_of_other_shooter_is_refused() {
    let mut s = session_with(Some(7));
    let f = started(Vendor::Facebook, &mut s);
    let (_, a) = f.step(LinkEvent::OauthFound(oauth_row(8)), &mut s);
    assert!(matches!(a, LinkAction::Finish(false)));
    assert_eq!(s.shooter_id, Some(7));
}

#[test]
fn known_token_without_session_shooter_logs_in() {
    let mut s = session_with(None);
    let f = started(Vendor::Google, &mut s);
    let (f, a) = f.step(LinkEvent::OauthFound(oauth_row(8)), &mut s);
    assert!(matches!(a, LinkAction::FindOwner { shooter_id: 8 }));
    assert_eq!(s.shooter_id, None);
    let (f, a) = f.step(LinkEvent::OwnerFound(shooter_row(8)), &mut s);
    assert!(matches!(a, LinkAction::Finish(true)));
    assert_eq!(f.state, LinkState::Done);
    assert_eq!(s.shooter_id, Some(8));
    assert_eq!(s.shooter_name, Some("kim".to_string()));
    assert_eq!(s.email_address, Some("kim@example.com".to_string()));
}

#[test]
fn known_token_whose_owner_is_gone_is_refused() {
    let mut s = session_with(None);
    let f = started(Vendor::Facebook, &mut s);
    let (f, _) = f.step(LinkEvent::OauthFound(oauth_row(8)), &mut s);
    let (_, a) = f.step(LinkEvent::OwnerMissing, &mut s);
    assert!(matches!(a, LinkAction::Finish(false)));
    assert_eq!(s.shooter_id, None);
    assert_eq!(s.shooter_name, None);
}

#[test]
fn unknown_token_is_linked_to_session_shooter() {
    let mut s = session_with(Some(7));
    let f = started(Vendor::Google, &mut s);
    let (f, a) = f.step(LinkEvent::OauthMissing, &mut s);
    match a {
        LinkAction::CreateLink(o) => {
            assert_eq!(o.oauth_vendor, "google");
            assert_eq!(o.oauth_user, "sub-1");
            assert_eq!(o.shooter_id, 7);
        }
        _ => panic!("expected a new link"),
    }
    let (_, a) = f.step(LinkEvent::LinkCreated(oauth_row(7)), &mut s);
    assert!(matches!(a, LinkAction::Finish(true)));
}

#[test]
fn unknown_token_is_linked_to_shooter_with_same_email() {
    let mut s = session_with(None);
    let f = started(Vendor::Facebook, &mut s);
    let (f, a) = f.step(LinkEvent::OauthMissing, &mut s);
    match a {
        LinkAction::FindShooter { email } => assert_eq!(email, "kim@example.com"),
        _ => panic!("expected a search by email"),
    }
    let (f, a) = f.step(LinkEvent::ShooterFound(shooter_row(9)), &mut s);
    match a {
        LinkAction::CreateLink(o) => {
            assert_eq!(o.oauth_vendor, "facebook");
            assert_eq!(o.shooter_id, 9);
        }
        _ => panic!("expected a new link"),
    }
    assert_eq!(s.shooter_id, None);
    let (_, a) = f.step(LinkEvent::LinkCreated(oauth_row(9)), &mut s);
    assert!(matches!(a, LinkAction::Finish(true)));
}

#[test]
fn unknown_visitor_gets_a_new_shooter() {
    let mut s = session_with(None);
    let f = started(Vendor::Google, &mut s);
    let (f, _) = f.step(LinkEvent::OauthMissing, &mut s);
    let (f, a) = f.step(LinkEvent::ShooterMissing, &mut s);
    match a {
        LinkAction::CreateShooter(n) => {
            assert_eq!(n.shooter_name, "Kim");
            assert_eq!(n.shooter_real_name, "Kim");
            assert_eq!(n.shooter_email, "kim@example.com");
            assert_eq!(n.shooter_status, "active");
            assert_eq!(n.shooter_password.len(), 64);
            assert!(n.shooter_password.chars().all(|c| c.is_ascii_alphanumeric()));
        }
        _ => panic!("expected a new shooter"),
    }
    let (f, a) = f.step(LinkEvent::ShooterCreated(shooter_row(11)), &mut s);
    assert_eq!(s.shooter_id, Some(11));
    match a {
        LinkAction::CreateLink(o) => assert_eq!(o.shooter_id, 11),
        _ => panic!("expected a new link"),
    }
    let (f, a) = f.step(LinkEvent::LinkCreated(oauth_row(11)), &mut s);
    assert!(matches!(a, LinkAction::Finish(true)));
    let (_, a) = f.step(LinkEvent::Begin, &mut s);
    assert!(matches!(a, LinkAction::Ignored));
}

#[test]
fn out_of_order_event_is_ignored() {
    let mut s = session_with(Some(3));
    let (f, a) = flow(Vendor::Google).step(LinkEvent::ShooterMissing, &mut s);
    assert!(matches!(a, LinkAction::Ignored));
    assert_eq!(f.state, LinkState::Start);
    assert_eq!(s.shooter_id, Some(3));
}

#[test]
fn new_shooter_with_and_without_password() {
    let a = new_shooter("ann", Some("secret"), "ann@example.com", "active");
    assert_eq!(a.shooter_password, "secret");
    assert_eq!(a.shooter_name, "ann");
    assert_eq!(a.shooter_real_name, "ann");
    assert_eq!(a.shooter_email, "ann@example.com");
    assert_eq!(a.shooter_status, "active");
    let b = new_shooter("bo", None, "bo@example.com", "pending");
    assert_eq!(b.shooter_password.chars().count(), 64);
    assert!(b.shooter_password.chars().all(|c| c.is_ascii_alphanumeric()));
    assert_eq!(b.shooter_status, "pending");
}

#[test]
fn new_oauth_record() {
    let o = NewOauth::new(&"google".to_string(), &"sub-9".to_string(), 4);
    assert_eq!(o.oauth_vendor, "google");
    assert_eq!(o.oauth_user, "sub-9");
    assert_eq!(o.shooter_id, 4);
}
