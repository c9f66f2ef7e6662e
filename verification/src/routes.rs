//! What the service reads from the headers that its nginx front adds.

use vstd::prelude::*;

verus! {

/// The visitor's user agent and address, as forwarded by nginx.
pub struct Nginx {
    pub x_user_agent: String,
    pub x_real_ip: String,
}

/// The value of an optional header, or the empty string when it is missing.
pub open spec fn header_or_empty(h: Option<Seq<char>>) -> Seq<char> {
    match h {
        Some(v) => v,
        None => Seq::empty(),
    }
}

fn header_value(h: Option<&str>) -> (v: String)
    ensures
        v@ == header_or_empty(
            match h {
                Some(s) => Some(s@),
                None => None,
            },
        ),
{
    match h {
        Some(s) => String::from_str(s),
        None => String::new(),
    }
}

impl Nginx {
    /// Reads the `X-User-Agent` and `X-Real-IP` headers; a missing header reads as empty.
    pub fn from_headers(user_agent: Option<&str>, real_ip: Option<&str>) -> (n: Nginx)
        ensures
            n.x_user_agent@ == header_or_empty(
                match user_agent {
                    Some(s) => Some(s@),
                    None => None,
                },
            ),
            n.x_real_ip@ == header_or_empty(
                match real_ip {
                    Some(s) => Some(s@),
                    None => None,
                },
            ),
    {
        Nginx { x_user_agent: header_value(user_agent), x_real_ip: header_value(real_ip) }
    }
}

impl Default for Nginx {
    /// Both headers empty.
    fn default() -> (n: Nginx)
        ensures
            n.x_user_agent@ == Seq::<char>::empty(),
            n.x_real_ip@ == Seq::<char>::empty(),
    {
        Nginx { x_user_agent: String::new(), x_real_ip: String::new() }
    }
}

} // verus!
