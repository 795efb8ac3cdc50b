use vstd::prelude::*;
use crate::message::{first_value, is_visible_text, Request};

verus! {

/// A value that can be drawn out of an in-flight request. Extraction may
/// change the request (take a header, drain the body) before the next
/// extraction runs, and never fails.
pub trait FromRequest: Sized {
    /// Whether extraction from `before` may give `value` and leave the
    /// request as `after`.
    spec fn extracted(before: Request, after: Request, value: Self) -> bool;

    /// Draws a value out of `req`.
    fn from_request(req: &mut Request) -> (r: Self)
        ensures
            Self::extracted(*old(req), *final(req), r),
    ;
}

/// The identity of the caller, read from the `x-user-id` header.
#[derive(Clone, Debug)]
pub struct UserId(pub String);

/// The name of the header that carries the caller's identity.
pub open spec fn user_header() -> Seq<char> {
    "x-user-id"@
}

/// The identity given to a caller that sends no readable `x-user-id` header.
pub open spec fn guest() -> Seq<char> {
    "guest"@
}

/// The identity that a request carries: the value of its first `x-user-id`
/// header where that value is readable text, else `guest`.
pub open spec fn user_id_of(req: Request) -> Seq<char> {
    match first_value(req.headers@, user_header()) {
        Some(v) => if is_visible_text(v) { v } else { guest() },
        None => guest(),
    }
}

impl FromRequest for UserId {
    open spec fn extracted(before: Request, after: Request, value: UserId) -> bool {
        after == before && value.0@ == user_id_of(before)
    }

    fn from_request(req: &mut Request) -> (r: UserId) {
        let found = req.header("x-user-id");
        let id = match found {
            Some(v) => if crate::message::visible_text(v.as_str()) {
                v.clone()
            } else {
                "guest".to_owned()
            },
            None => "guest".to_owned(),
        };
        UserId(id)
    }
}

} // verus!
