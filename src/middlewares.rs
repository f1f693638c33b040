use crate::session::{provider_opens, OpenStep, SaveStep, Session, SessionError, SessionProvider};
use crate::strmap::assoc_map_opt;
use crate::utils::{cookie_entries, parse_cookie};
use vstd::prelude::*;

verus! {

/// The cookies that a request's `Cookie` header names; none without one.
pub open spec fn header_cookies(header: Option<Seq<char>>) -> Map<Seq<char>, Seq<char>> {
    match header {
        Some(h) => assoc_map_opt(cookie_entries(h)),
        None => Map::empty(),
    }
}

pub open spec fn opt_str_view(o: Option<&str>) -> Option<Seq<char>> {
    match o {
        Some(s) => Some(s@),
        None => None,
    }
}

/// The middleware that opens the session before the view and saves it
/// after.
pub struct SessionMiddleware;

impl SessionMiddleware {
    /// The pre-phase: where a provider is configured, the first step of
    /// opening the session that the request's cookies name.
    pub fn pre_process(&self, provider: Option<&SessionProvider>, cookie_header: Option<&str>) -> (r:
        Result<Option<OpenStep>, SessionError>)
        ensures
            match provider {
                None => r == Ok::<Option<OpenStep>, SessionError>(None),
                Some(p) => match r {
                    Ok(Some(step)) => provider_opens(
                        *p,
                        header_cookies(opt_str_view(cookie_header)),
                        Ok(step),
                    ),
                    Ok(None) => false,
                    Err(e) => provider_opens(
                        *p,
                        header_cookies(opt_str_view(cookie_header)),
                        Err(e),
                    ),
                },
            },
    {
        let p = match provider {
            Some(p) => p,
            None => return Ok(None),
        };
        let cookie_map = match cookie_header {
            Some(h) => parse_cookie(h),
            None => parse_cookie(""),
        };
        proof {
            reveal_strlit("");
        }
        match p.open_session(&cookie_map) {
            Ok(step) => Ok(Some(step)),
            Err(e) => Err(e),
        }
    }

    /// The post-phase: where a session was opened and a provider is
    /// configured, what saving the session takes.
    pub fn post_process(&self, provider: Option<&SessionProvider>, session: Option<&Session>) -> (r:
        Result<Option<SaveStep>, SessionError>)
        ensures
            match (provider, session) {
                (Some(p), Some(s)) => match r {
                    Ok(Some(step)) => p.save_session_spec(*s, Ok(step)),
                    Ok(None) => false,
                    Err(e) => p.save_session_spec(*s, Err(e)),
                },
                _ => r == Ok::<Option<SaveStep>, SessionError>(None),
            },
    {
        match (provider, session) {
            (Some(p), Some(s)) => match p.save_session(s) {
                Ok(step) => Ok(Some(step)),
                Err(e) => Err(e),
            },
            _ => Ok(None),
        }
    }
}

} // verus!
