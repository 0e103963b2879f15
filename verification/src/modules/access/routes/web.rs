//! The server-rendered routes of the access module (mounted at `/admin/v1`).

use vstd::prelude::*;

use crate::helpers::routing::handler_views;

verus! {

/// The user-management page handlers, in mounting order.
pub open spec fn web_handlers() -> Seq<Seq<char>> {
    seq![
        "web::user::index"@,
        "web::user::create"@,
        "web::user::store"@,
        "web::user::edit"@,
        "web::user::update"@,
        "web::user::delete"@,
        "web::user::delete_selected"@,
    ]
}

/// The handlers of the access pages, in mounting order.
pub fn routes() -> (r: Vec<&'static str>)
    ensures
        handler_views(r@) == web_handlers(),
{
    let mut r: Vec<&'static str> = Vec::new();
    r.push("web::user::index");
    r.push("web::user::create");
    r.push("web::user::store");
    r.push("web::user::edit");
    r.push("web::user::update");
    r.push("web::user::delete");
    r.push("web::user::delete_selected");
    assert(handler_views(r@) =~= web_handlers());
    r
}

} // verus!
