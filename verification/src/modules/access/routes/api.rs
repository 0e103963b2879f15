//! The JSON API routes of the access module (mounted at `/api/v1`).

use vstd::prelude::*;

use crate::helpers::routing::handler_views;

verus! {

/// The user-management API handlers, in mounting order.
pub open spec fn api_handlers() -> Seq<Seq<char>> {
    seq![
        "api::user::index"@,
        "api::user::store"@,
        "api::user::edit"@,
        "api::user::update"@,
        "api::user::delete"@,
        "api::user::delete_selected"@,
    ]
}

/// The handlers of the access API, in mounting order.
pub fn routes() -> (r: Vec<&'static str>)
    ensures
        handler_views(r@) == api_handlers(),
{
    let mut r: Vec<&'static str> = Vec::new();
    r.push("api::user::index");
    r.push("api::user::store");
    r.push("api::user::edit");
    r.push("api::user::update");
    r.push("api::user::delete");
    r.push("api::user::delete_selected");
    assert(handler_views(r@) =~= api_handlers());
    r
}

} // verus!
