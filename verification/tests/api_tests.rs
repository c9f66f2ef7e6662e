use ppslib::api::{signin_plan, signin_reply, OAuthReq, SigninPlan};
use ppslib::oauth::Vendor;
use ppslib::routes::Nginx;
use ppslib::session::Session;

fn req(g: Option<&str>, fb: Option<&str>) -> OAuthReq {
    OAuthReq {
        g_token: g.map(|s| s.to_string()),
        fb_token: fb.map(|s| s.to_string()),
        name: "Kim".to_string(),
        email: "kim@example.com".to_string(),
    }
}

#[test]
fn google_token_comes_first() {
    match signin_plan(&req(Some("g"), Some("f"))) {
        SigninPlan::Verify { vendor, token } => {
            assert_eq!(vendor, Vendor::Google);
            assert_eq!(token, "g");
        }
        SigninPlan::NoToken => panic!("expected a token"),
    }
}

#[test]
fn facebook_token_when_no_google_token() {
    match signin_plan(&req(None, Some("f"))) {
        SigninPlan::Verify { vendor, token } => {
            assert_eq!(vendor, Vendor::Facebook);
            assert_eq!(token, "f");
        }
        SigninPlan::NoToken => panic!("expected a token"),
    }
}

#[test]
fn no_token() {
    assert!(matches!(signin_plan(&req(None, None)), SigninPlan::NoToken));
}

#[test]
fn replies_and_flags() {
    let mut s = Session::default();
    assert_eq!(signin_reply(&mut s, Some((Vendor::Google, true))), ("success".to_string(), true));
    assert!(s.google_oauth);
    assert!(!s.facebook_oauth);
    assert_eq!(signin_reply(&mut s, Some((Vendor::Facebook, false))), ("failed".to_string(), true));
    assert!(s.google_oauth);
    assert!(!s.facebook_oauth);
    assert_eq!(signin_reply(&mut s, Some((Vendor::Google, false))), ("failed".to_string(), true));
    assert!(!s.google_oauth);
    assert_eq!(signin_reply(&mut s, None), ("no token sent".to_string(), false));
    assert!(!s.google_oauth && !s.facebook_oauth);
}

#[test]
fn headers_default_to_empty() {
    let n = Nginx::from_headers(Some("Mozilla"), None);
    assert_eq!(n.x_user_agent, "Mozilla");
    assert_eq!(n.x_real_ip, "");
    let d = Nginx::default();
    assert_eq!(d.x_user_agent, "");
    assert_eq!(d.x_real_ip, "");
    let both = Nginx::from_headers(Some("ua"), Some("10.0.0.1"));
    assert_eq!(both.x_real_ip, "10.0.0.1");
}
