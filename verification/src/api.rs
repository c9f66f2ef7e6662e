//! The sign-in endpoint's decisions: which token to verify, and what to answer.

use vstd::prelude::*;
use crate::oauth::Vendor;
use crate::session::{Session, SessionView};

verus! {

/// A sign-in request: a Google or a Facebook token, and the visitor's name and
/// email address.
pub struct OAuthReq {
    pub g_token: Option<String>,
    pub fb_token: Option<String>,
    pub name: String,
    pub email: String,
}

/// What a sign-in request asks to have verified.
pub enum SigninPlan {
    /// The token to verify with this provider.
    Verify { vendor: Vendor, token: String },
    /// The request carries no token.
    NoToken,
}

/// The plan for a request: a Google token if there is one, else a Facebook
/// token if there is one, else nothing to verify.
pub fn signin_plan(req: &OAuthReq) -> (plan: SigninPlan)
    ensures
        match req.g_token {
            Some(t) => plan matches SigninPlan::Verify { vendor, token } && vendor == Vendor::Google
                && token@ == t@,
            None => match req.fb_token {
                Some(t) => plan matches SigninPlan::Verify { vendor, token } && vendor
                    == Vendor::Facebook && token@ == t@,
                None => plan is NoToken,
            },
        },
{
    match &req.g_token {
        Some(t) => SigninPlan::Verify { vendor: Vendor::Google, token: t.clone() },
        None => match &req.fb_token {
            Some(t) => SigninPlan::Verify { vendor: Vendor::Facebook, token: t.clone() },
            None => SigninPlan::NoToken,
        },
    }
}

/// The reply `"success"`.
pub open spec fn spec_success() -> Seq<char> {
    seq!['s', 'u', 'c', 'c', 'e', 's', 's']
}

/// The reply `"failed"`.
pub open spec fn spec_failed() -> Seq<char> {
    seq!['f', 'a', 'i', 'l', 'e', 'd']
}

/// The reply `"no token sent"`.
pub open spec fn spec_no_token() -> Seq<char> {
    seq!['n', 'o', ' ', 't', 'o', 'k', 'e', 'n', ' ', 's', 'e', 'n', 't']
}

/// The session after a sign-in with `vendor` was verified (`verified`) or refused.
pub open spec fn spec_after_signin(s: SessionView, vendor: Vendor, verified: bool) -> SessionView {
    match vendor {
        Vendor::Google => SessionView { google_oauth: verified, ..s },
        Vendor::Facebook => SessionView { facebook_oauth: verified, ..s },
    }
}

/// The reply to a sign-in request, and the session's record of it.
/// `outcome` is the provider and whether the sign-in was accepted, or `None`
/// when the request carried no token: then the session stays as it was.
/// The second part of the result tells whether the session is to be saved:
/// after a verification, whatever its outcome, and not otherwise.
pub fn signin_reply(session: &mut Session, outcome: Option<(Vendor, bool)>) -> (res: (String, bool))
    ensures
        res.1 == outcome is Some,
        ({
            let reply = res.0;
            match outcome {
            Some((vendor, verified)) => {
                &&& final(session)@ == spec_after_signin(old(session)@, vendor, verified)
                &&& reply@ == if verified {
                    spec_success()
                } else {
                    spec_failed()
                }
            },
            None => {
                &&& final(session)@ == old(session)@
                &&& reply@ == spec_no_token()
            },
        }
        }),
{
    match outcome {
        Some((vendor, verified)) => {
            match vendor {
                Vendor::Google => session.google_oauth = verified,
                Vendor::Facebook => session.facebook_oauth = verified,
            }
            if verified {
                let r = String::from_str("success");
                proof {
                    reveal_strlit("success");
                    assert(r@ =~= spec_success());
                }
                (r, true)
            } else {
                let r = String::from_str("failed");
                proof {
                    reveal_strlit("failed");
                    assert(r@ =~= spec_failed());
                }
                (r, true)
            }
        },
        None => {
            let r = String::from_str("no token sent");
            proof {
                reveal_strlit("no token sent");
                assert(r@ =~= spec_no_token());
            }
            (r, false)
        },
    }
}


/// A sign-in's outcome is recorded under its provider only: that provider's
/// flag becomes the outcome, and the other provider's flag and every other
/// field of the session stay as they were.
pub proof fn signin_records_outcome(s: SessionView, vendor: Vendor, verified: bool)
    ensures
        ({
            let r = spec_after_signin(s, vendor, verified);
            &&& r.sessid == s.sessid
            &&& r.user_agent == s.user_agent
            &&& r.shooter_id == s.shooter_id
            &&& r.shooter_name == s.shooter_name
            &&& r.email_address == s.email_address
            &&& r.last_access == s.last_access
            &&& vendor == Vendor::Google ==> r.google_oauth == verified && r.facebook_oauth
                == s.facebook_oauth
            &&& vendor == Vendor::Facebook ==> r.facebook_oauth == verified && r.google_oauth
                == s.google_oauth
        }),
{
}

} // verus!
