use serde_json::Value;

type JsonMap = serde_json::Map<String, Value>;

fn j(text: &str) -> Value {
    serde_json::from_str(text).unwrap()
}

use rustadmin::errors::{AppError, ErrorKind};
use rustadmin::helpers::json::JsonShape;
use rustadmin::helpers::routing::HttpMethod;
use rustadmin::helpers::view::{active_theme, context_from_locals, insert_if_absent, render_context, view_context};
use rustadmin::modules::access::routes::{api, web};
use rustadmin::modules::media::controllers::{self as media, upload_read_error};
use rustadmin::modules::setting::controllers::{
    self as setting, chrome, flash_object, setting_page, update_outcome, FlashKind, SettingForm, SettingInput,
};

fn keys(m: &serde_json::Map<String, Value>) -> Vec<String> {
    let mut k: Vec<String> = m.keys().cloned().collect();
    k.sort();
    k
}

#[test]
fn active_theme_falls_back_to_default() {
    assert_eq!(active_theme(Some("ocean"), "default"), "ocean");
    assert_eq!(active_theme(None, "default"), "default");
}

#[test]
fn locals_become_an_object() {
    let mut m = JsonMap::new();
    m.insert("title".into(), j(r#""Users""#));
    let c = context_from_locals(JsonShape::Object(m));
    assert_eq!(keys(&c), vec!["title"]);
    assert!(context_from_locals(JsonShape::Null).is_empty());
    let c = context_from_locals(JsonShape::Other(j(r#"[1, 2]"#)));
    assert_eq!(c.get("data"), Some(&j(r#"[1, 2]"#)));
}

#[test]
fn theme_locals_are_added_but_never_override() {
    let mut m = JsonMap::new();
    m.insert("themeName".into(), j(r#""mine""#));
    m.insert("title".into(), j(r#""Users""#));
    let ctx = view_context(JsonShape::Object(m), "ocean", j(r#"["a", "b"]"#), j(r#"{"primary": "black"}"#));
    assert_eq!(keys(&ctx), vec!["theme", "themeName", "themes", "title"]);
    assert_eq!(ctx.get("themeName"), Some(&j(r#""mine""#)));
    assert_eq!(ctx.get("themes"), Some(&j(r#"["a", "b"]"#)));
    assert_eq!(ctx.get("theme"), Some(&j(r#"{"primary": "black"}"#)));
}

#[test]
fn render_context_from_any_value() {
    let ctx = render_context(j(r#"null"#), "ocean", j(r#"[]"#), j(r#"{}"#));
    assert_eq!(keys(&ctx), vec!["theme", "themeName", "themes"]);
    assert_eq!(ctx.get("themeName"), Some(&j(r#""ocean""#)));
    let ctx = render_context(j(r#"42"#), "ocean", j(r#"[]"#), j(r#"{}"#));
    assert_eq!(keys(&ctx), vec!["data", "theme", "themeName", "themes"]);
}

#[test]
fn rendering_a_complete_context_changes_no_key() {
    let first = render_context(j(r#"{"x": 1}"#), "a", j(r#"[]"#), j(r#"{}"#));
    let again = render_context(Value::Object(first.clone()), "b", j(r#"[1]"#), j(r#"{"y": 2}"#));
    assert_eq!(first, again);
}

#[test]
fn insert_if_absent_reports_addition() {
    let mut m = JsonMap::new();
    assert!(insert_if_absent(&mut m, "k", j(r#"1"#)));
    assert!(!insert_if_absent(&mut m, "k", j(r#"2"#)));
    assert_eq!(m.get("k"), Some(&j(r#"1"#)));
}

#[test]
fn setting_form_converts_field_by_field() {
    let form = SettingForm {
        initial: Some("RA".into()),
        name: Some("RustAdmin".into()),
        description: None,
        icon: Some("i.png".into()),
        logo: Some("l.png".into()),
        login_image: None,
        phone: Some("123".into()),
        address: Some("Street".into()),
        email: Some("a@b.c".into()),
        copyright: Some("(c)".into()),
        theme: Some("ocean".into()),
        fe_template: Some("saas".into()),
    };
    let input: SettingInput = form.into();
    assert_eq!(input.initial.as_deref(), Some("RA"));
    assert_eq!(input.name.as_deref(), Some("RustAdmin"));
    assert_eq!(input.description, None);
    assert_eq!(input.icon.as_deref(), Some("i.png"));
    assert_eq!(input.logo.as_deref(), Some("l.png"));
    assert_eq!(input.login_image, None);
    assert_eq!(input.phone.as_deref(), Some("123"));
    assert_eq!(input.address.as_deref(), Some("Street"));
    assert_eq!(input.email.as_deref(), Some("a@b.c"));
    assert_eq!(input.copyright.as_deref(), Some("(c)"));
    assert_eq!(input.theme.as_deref(), Some("ocean"));
    assert_eq!(input.fe_template.as_deref(), Some("saas"));
}

#[test]
fn update_outcome_redirects_with_flash() {
    let ok = update_outcome(Ok(()));
    assert_eq!(ok.kind, FlashKind::Success);
    assert_eq!(ok.url, "/admin/v1/setting");
    assert_eq!(ok.message, "Setting saved successfully");
    let err = update_outcome(Err(AppError::bad_request("Name is required")));
    assert_eq!(err.kind, FlashKind::Error);
    assert_eq!(err.url, "/admin/v1/setting");
    assert_eq!(err.message, "Name is required");
}

#[test]
fn chrome_and_setting_page() {
    let c = chrome("Alice", j(r#"[{"label": "Users"}]"#), "tok");
    assert_eq!(keys(&c), vec!["active", "auth", "csrf_token", "nav"]);
    assert_eq!(c.get("auth"), Some(&j(r#"{"name": "Alice", "picture": null}"#)));
    assert_eq!(c.get("active"), Some(&j(r#""setting""#)));
    assert_eq!(c.get("csrf_token"), Some(&j(r#""tok""#)));
    let page = setting_page(j(r#"{"name": "RustAdmin"}"#), Some(("success", "Saved")), c);
    assert_eq!(keys(&page), vec!["active", "auth", "csrf_token", "flash", "nav", "setting"]);
    assert_eq!(page.get("flash"), Some(&j(r#"{"key": "success", "message": "Saved"}"#)));
    assert!(flash_object(None).is_empty());
}

#[test]
fn chrome_entries_take_precedence() {
    let mut c = JsonMap::new();
    c.insert("setting".into(), j(r#""from chrome""#));
    let page = setting_page(j(r#"{"a": 1}"#), None, c);
    assert_eq!(page.get("setting"), Some(&j(r#""from chrome""#)));
    assert_eq!(page.get("flash"), Some(&j(r#"{}"#)));
}

#[test]
fn route_tables() {
    assert_eq!(
        api::routes(),
        vec![
            "api::user::index",
            "api::user::store",
            "api::user::edit",
            "api::user::update",
            "api::user::delete",
            "api::user::delete_selected"
        ]
    );
    assert_eq!(web::routes().len(), 7);
    assert_eq!(web::routes()[1], "web::user::create");
    let m = media::routes();
    assert_eq!(m.len(), 3);
    assert_eq!((m[0].method, m[0].uri, m[0].handler), (HttpMethod::Get, "/media/list", "list"));
    assert_eq!((m[1].method, m[1].uri, m[1].handler), (HttpMethod::Post, "/media/upload", "upload"));
    assert_eq!((m[2].method, m[2].uri, m[2].handler), (HttpMethod::Post, "/media/delete", "delete"));
    let s = setting::routes();
    assert_eq!((s[0].method, s[0].uri, s[0].handler), (HttpMethod::Get, "/setting", "index"));
    assert_eq!((s[1].method, s[1].uri, s[1].handler), (HttpMethod::Put, "/setting/update", "update"));
}

#[test]
fn upload_errors_are_server_errors() {
    let e = upload_read_error("disk full");
    assert_eq!(e.kind, ErrorKind::Internal);
    assert_eq!(e.message(), "read upload: disk full");
    assert_eq!(e.status(), 500);
}

#[test]
fn error_constructors() {
    let e = AppError::forbidden("no");
    assert_eq!((e.kind, e.status(), e.message()), (ErrorKind::Forbidden, 403, "no"));
    let e = AppError::internal("boom".to_string());
    assert_eq!((e.kind, e.status()), (ErrorKind::Internal, 500));
}

#[test]
fn media_response_bodies() {
    let b = media::success_body(j(r#"[{"key": "a.png"}]"#));
    assert_eq!(Value::Object(b), j(r#"{"success": true, "data": [{"key": "a.png"}]}"#));
    assert_eq!(Value::Object(media::deleted_body()), j(r#"{"success": true, "message": "Deleted"}"#));
}

#[test]
fn setting_page_values() {
    let c = chrome("Bob", j(r#"["n"]"#), "t1");
    let page = setting_page(j(r#"{"name": "Site"}"#), Some(("error", "Bad")), c);
    assert_eq!(
        Value::Object(page),
        j(r#"{"setting": {"name": "Site"}, "flash": {"key": "error", "message": "Bad"},
              "auth": {"name": "Bob", "picture": null}, "nav": ["n"], "csrf_token": "t1", "active": "setting"}"#)
    );
}

#[test]
fn default_theme_values() {
    let ctx = render_context(j(r#"{"a": 1}"#), active_theme(None, "light"), j(r#"["light", "dark"]"#), j(r#"{"bg": "white"}"#));
    assert_eq!(
        Value::Object(ctx),
        j(r#"{"a": 1, "themes": ["light", "dark"], "themeName": "light", "theme": {"bg": "white"}}"#)
    );
}
