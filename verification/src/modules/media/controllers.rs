//! The file-manager endpoints: list, upload and delete media (signed-in users; uploads and
//! deletions also carry the CSRF header).

use vstd::prelude::*;

use serde_json::Value;

use crate::errors::{AppError, ErrorKind};
use crate::helpers::json::{
    json_entries, json_optional_bool, json_string, map_insert, map_new, optional_bool_value,
    string_value,
};
use crate::helpers::routing::{route_views, HttpMethod, RouteDecl, RouteDeclView};

verus! {

/// An upload: the bytes of the posted file.
pub struct UploadForm {
    pub file: Vec<u8>,
}

/// A deletion request: the storage key of the file.
pub struct DeleteBody {
    pub key: String,
}

/// The media routes, in mounting order.
pub open spec fn media_routes() -> Seq<RouteDeclView> {
    seq![
        RouteDeclView { method: HttpMethod::Get, uri: "/media/list"@, handler: "list"@ },
        RouteDeclView { method: HttpMethod::Post, uri: "/media/upload"@, handler: "upload"@ },
        RouteDeclView { method: HttpMethod::Post, uri: "/media/delete"@, handler: "delete"@ },
    ]
}

/// The media routes.
pub fn routes() -> (r: Vec<RouteDecl>)
    ensures
        route_views(r@) == media_routes(),
{
    let mut r: Vec<RouteDecl> = Vec::new();
    r.push(RouteDecl { method: HttpMethod::Get, uri: "/media/list", handler: "list" });
    r.push(RouteDecl { method: HttpMethod::Post, uri: "/media/upload", handler: "upload" });
    r.push(RouteDecl { method: HttpMethod::Post, uri: "/media/delete", handler: "delete" });
    assert(route_views(r@) =~= media_routes());
    r
}

/// The body of a successful listing or upload: `{success: true, data}`.
pub open spec fn success_entries(data: Value) -> Map<Seq<char>, Value> {
    map!["success"@ => json_optional_bool(Some(true)), "data"@ => data]
}

/// The body of a successful deletion: `{success: true, message: "Deleted"}`.
pub open spec fn deleted_entries() -> Map<Seq<char>, Value> {
    map!["success"@ => json_optional_bool(Some(true)), "message"@ => json_string("Deleted"@)]
}

/// The body of a successful listing or upload.
pub fn success_body(data: Value) -> (m: serde_json::Map<String, Value>)
    ensures
        json_entries(m) == success_entries(data),
{
    let mut m = map_new();
    map_insert(&mut m, String::from_str("success"), optional_bool_value(Some(true)));
    map_insert(&mut m, String::from_str("data"), data);
    assert(json_entries(m) =~= success_entries(data));
    m
}

/// The body of a successful deletion.
pub fn deleted_body() -> (m: serde_json::Map<String, Value>)
    ensures
        json_entries(m) == deleted_entries(),
{
    let mut m = map_new();
    map_insert(&mut m, String::from_str("success"), optional_bool_value(Some(true)));
    map_insert(&mut m, String::from_str("message"), string_value("Deleted"));
    assert(json_entries(m) =~= deleted_entries());
    m
}

/// The error answered when the uploaded file cannot be read: a server error whose message
/// names the cause.
pub fn upload_read_error(cause: &str) -> (e: AppError)
    ensures
        e.kind == ErrorKind::Internal,
        e.message@ == "read upload: "@ + cause@,
{
    let mut m = String::from_str("read upload: ");
    m.append(cause);
    AppError::internal(m)
}

/// A successful listing or upload answers `success: true` with the data it was given; a
/// deletion answers `success: true` with the message `Deleted`; neither holds anything else.
pub proof fn lemma_response_bodies(data: Value)
    ensures
        success_entries(data).dom() == set!["success"@, "data"@],
        success_entries(data)["success"@] == json_optional_bool(Some(true)),
        success_entries(data)["data"@] == data,
        deleted_entries().dom() == set!["success"@, "message"@],
        deleted_entries()["success"@] == json_optional_bool(Some(true)),
        deleted_entries()["message"@] == json_string("Deleted"@),
{
    reveal_strlit("success");
    reveal_strlit("data");
    reveal_strlit("message");
    assert("success"@.len() == 7 && "data"@.len() == 4 && "message"@.len() == 7);
    assert("success"@[0] == 's' && "message"@[0] == 'm');
    assert("success"@ != "data"@ && "success"@ != "message"@);
    assert(success_entries(data).dom() =~= set!["success"@, "data"@]);
    assert(deleted_entries().dom() =~= set!["success"@, "message"@]);
}

} // verus!
