//! The site-settings page: the form posted by the settings screen, the service input it
//! becomes, the page context, and the redirect that answers an update.

use vstd::prelude::*;

use serde_json::Value;

use crate::errors::AppError;
use crate::helpers::routing::{route_views, HttpMethod, RouteDecl, RouteDeclView};
use crate::helpers::json::{
    json_entries, json_object, json_optional_bool, json_string, map_append, map_insert, map_new,
    object_value, optional_bool_value, string_value,
};

verus! {

/// Where the settings page lives.
pub const INDEX_URL: &'static str = "/admin/v1/setting";

/// The settings form as posted (every field optional).
#[derive(Debug, Default)]
pub struct SettingForm {
    pub initial: Option<String>,
    pub name: Option<String>,
    pub description: Option<String>,
    pub icon: Option<String>,
    pub logo: Option<String>,
    pub login_image: Option<String>,
    pub phone: Option<String>,
    pub address: Option<String>,
    pub email: Option<String>,
    pub copyright: Option<String>,
    pub theme: Option<String>,
    pub fe_template: Option<String>,
}

/// The update handed to the settings service.
#[derive(Debug, Default)]
pub struct SettingInput {
    pub initial: Option<String>,
    pub name: Option<String>,
    pub description: Option<String>,
    pub icon: Option<String>,
    pub logo: Option<String>,
    pub login_image: Option<String>,
    pub phone: Option<String>,
    pub address: Option<String>,
    pub email: Option<String>,
    pub copyright: Option<String>,
    pub theme: Option<String>,
    pub fe_template: Option<String>,
}

/// The service input of a posted form: every field carried over as posted.
pub open spec fn input_of(f: SettingForm) -> SettingInput {
    SettingInput {
        initial: f.initial,
        name: f.name,
        description: f.description,
        icon: f.icon,
        logo: f.logo,
        login_image: f.login_image,
        phone: f.phone,
        address: f.address,
        email: f.email,
        copyright: f.copyright,
        theme: f.theme,
        fe_template: f.fe_template,
    }
}

impl From<SettingForm> for SettingInput {
    fn from(f: SettingForm) -> (r: SettingInput)
        ensures
            r == input_of(f),
    {
        SettingInput {
            initial: f.initial,
            name: f.name,
            description: f.description,
            icon: f.icon,
            logo: f.logo,
            login_image: f.login_image,
            phone: f.phone,
            address: f.address,
            email: f.email,
            copyright: f.copyright,
            theme: f.theme,
            fe_template: f.fe_template,
        }
    }
}

impl vstd::std_specs::convert::FromSpecImpl<SettingForm> for SettingInput {
    open spec fn obeys_from_spec() -> bool {
        true
    }

    open spec fn from_spec(f: SettingForm) -> SettingInput {
        input_of(f)
    }
}

/// The kind of a one-shot message shown after a redirect.
#[derive(Clone, Copy, Debug, PartialEq, Eq, Structural)]
pub enum FlashKind {
    Success,
    Error,
}

/// A redirect carrying a one-shot message.
pub struct FlashRedirect {
    pub kind: FlashKind,
    pub url: String,
    pub message: String,
}

/// The message shown after a successful update.
pub open spec fn saved_message() -> Seq<char> {
    "Setting saved successfully"@
}

/// The answer to a settings update: back to the settings page, with a success message, or with
/// the error's own message.
pub fn update_outcome(result: Result<(), AppError>) -> (r: FlashRedirect)
    ensures
        r.url@ == INDEX_URL@,
        match result {
            Ok(_) => r.kind == FlashKind::Success && r.message@ == saved_message(),
            Err(e) => r.kind == FlashKind::Error && r.message@ == e.message@,
        },
{
    match result {
        Ok(_) => FlashRedirect {
            kind: FlashKind::Success,
            url: String::from_str(INDEX_URL),
            message: String::from_str("Setting saved successfully"),
        },
        Err(e) => FlashRedirect {
            kind: FlashKind::Error,
            url: String::from_str(INDEX_URL),
            message: e.message().to_owned(),
        },
    }
}

/// The chrome of an admin page: the signed-in user (name, no picture), the navigation, the
/// CSRF token and the active menu entry `setting`.
pub open spec fn chrome_entries(user_name: Seq<char>, nav: Value, csrf: Seq<char>) -> Map<
    Seq<char>,
    Value,
> {
    map![
        "auth"@ => json_object(
            map!["name"@ => json_string(user_name), "picture"@ => json_optional_bool(None)],
        ),
        "nav"@ => nav,
        "csrf_token"@ => json_string(csrf),
        "active"@ => json_string("setting"@),
    ]
}

/// The one-shot message as the page reads it: `{key, message}`, or the empty object.
pub open spec fn flash_entries(flash: Option<(&str, &str)>) -> Map<Seq<char>, Value> {
    match flash {
        Some((kind, message)) => map!["key"@ => json_string(kind@), "message"@ => json_string(message@)],
        None => Map::empty(),
    }
}

/// The settings page: the settings and the flash object, then the chrome, whose entries take
/// precedence.
pub open spec fn setting_page_entries(
    setting: Value,
    flash: Option<(&str, &str)>,
    chrome: Map<Seq<char>, Value>,
) -> Map<Seq<char>, Value> {
    map!["setting"@ => setting, "flash"@ => json_object(flash_entries(flash))].union_prefer_right(
        chrome,
    )
}

/// The chrome of the settings page.
pub fn chrome(user_name: &str, nav: Value, csrf: &str) -> (m: serde_json::Map<String, Value>)
    ensures
        json_entries(m) == chrome_entries(user_name@, nav, csrf@),
{
    let mut auth = map_new();
    map_insert(&mut auth, String::from_str("name"), string_value(user_name));
    map_insert(&mut auth, String::from_str("picture"), optional_bool_value(None));
    let ghost auth_entries = json_entries(auth);
    assert(auth_entries =~= map!["name"@ => json_string(user_name@), "picture"@ => json_optional_bool(None)]);
    let mut m = map_new();
    map_insert(&mut m, String::from_str("auth"), object_value(auth));
    map_insert(&mut m, String::from_str("nav"), nav);
    map_insert(&mut m, String::from_str("csrf_token"), string_value(csrf));
    map_insert(&mut m, String::from_str("active"), string_value("setting"));
    assert(json_entries(m) =~= chrome_entries(user_name@, nav, csrf@));
    m
}

/// The one-shot message as the page reads it.
pub fn flash_object(flash: Option<(&str, &str)>) -> (m: serde_json::Map<String, Value>)
    ensures
        json_entries(m) == flash_entries(flash),
{
    let mut m = map_new();
    match flash {
        Some((kind, message)) => {
            map_insert(&mut m, String::from_str("key"), string_value(kind));
            map_insert(&mut m, String::from_str("message"), string_value(message));
            assert(json_entries(m) =~= flash_entries(flash));
        },
        None => {},
    }
    m
}

/// The context of the settings page.
pub fn setting_page(
    setting: Value,
    flash: Option<(&str, &str)>,
    chrome: serde_json::Map<String, Value>,
) -> (page: serde_json::Map<String, Value>)
    ensures
        json_entries(page) == setting_page_entries(setting, flash, json_entries(chrome)),
{
    let mut page = map_new();
    map_insert(&mut page, String::from_str("setting"), setting);
    map_insert(&mut page, String::from_str("flash"), object_value(flash_object(flash)));
    let mut c = chrome;
    assert(json_entries(page) =~= map![
        "setting"@ => setting,
        "flash"@ => json_object(flash_entries(flash)),
    ]);
    map_append(&mut page, &mut c);
    page
}

/// The settings routes, in mounting order.
pub open spec fn setting_routes() -> Seq<RouteDeclView> {
    seq![
        RouteDeclView { method: HttpMethod::Get, uri: "/setting"@, handler: "index"@ },
        RouteDeclView { method: HttpMethod::Put, uri: "/setting/update"@, handler: "update"@ },
    ]
}

/// The settings routes.
pub fn routes() -> (r: Vec<RouteDecl>)
    ensures
        route_views(r@) == setting_routes(),
{
    let mut r: Vec<RouteDecl> = Vec::new();
    r.push(RouteDecl { method: HttpMethod::Get, uri: "/setting", handler: "index" });
    r.push(RouteDecl { method: HttpMethod::Put, uri: "/setting/update", handler: "update" });
    assert(route_views(r@) =~= setting_routes());
    r
}

/// Converting a posted form keeps every field where it was posted: each field of the service
/// input is the form's field of the same name.
pub proof fn lemma_form_fields_carried(f: SettingForm)
    ensures
        ({
            let r = input_of(f);
            &&& r.initial == f.initial
            &&& r.name == f.name
            &&& r.description == f.description
            &&& r.icon == f.icon
            &&& r.logo == f.logo
            &&& r.login_image == f.login_image
            &&& r.phone == f.phone
            &&& r.address == f.address
            &&& r.email == f.email
            &&& r.copyright == f.copyright
            &&& r.theme == f.theme
            &&& r.fe_template == f.fe_template
        }),
{
}

/// The chrome carries the user's name with no picture, the navigation as given, the CSRF
/// token and the active entry `setting`, and nothing else.
pub proof fn lemma_chrome_values(user_name: Seq<char>, nav: Value, csrf: Seq<char>)
    ensures
        ({
            let c = chrome_entries(user_name, nav, csrf);
            &&& c.dom() == set!["auth"@, "nav"@, "csrf_token"@, "active"@]
            &&& c["auth"@] == json_object(
                map!["name"@ => json_string(user_name), "picture"@ => json_optional_bool(None)],
            )
            &&& c["nav"@] == nav
            &&& c["csrf_token"@] == json_string(csrf)
            &&& c["active"@] == json_string("setting"@)
        }),
{
    reveal_strlit("auth");
    reveal_strlit("nav");
    reveal_strlit("csrf_token");
    reveal_strlit("active");
    assert("auth"@.len() == 4 && "nav"@.len() == 3 && "csrf_token"@.len() == 10 && "active"@.len() == 6);
    assert("auth"@ != "nav"@ && "auth"@ != "csrf_token"@ && "auth"@ != "active"@);
    assert("nav"@ != "csrf_token"@ && "nav"@ != "active"@ && "csrf_token"@ != "active"@);
    let c = chrome_entries(user_name, nav, csrf);
    assert(c.dom() =~= set!["auth"@, "nav"@, "csrf_token"@, "active"@]);
}

/// The flash object carries the message's kind under `key` and its text under `message`, and
/// is empty when there is no message.
pub proof fn lemma_flash_values(flash: Option<(&str, &str)>)
    ensures
        flash is None ==> flash_entries(flash).dom().is_empty(),
        flash matches Some((kind, message)) ==> {
            &&& flash_entries(flash).dom() == set!["key"@, "message"@]
            &&& flash_entries(flash)["key"@] == json_string(kind@)
            &&& flash_entries(flash)["message"@] == json_string(message@)
        },
{
    reveal_strlit("key");
    reveal_strlit("message");
    assert("key"@.len() == 3 && "message"@.len() == 7);
    assert("key"@ != "message"@);
    if let Some((kind, message)) = flash {
        assert(flash_entries(flash).dom() =~= set!["key"@, "message"@]);
    }
}

/// The settings page holds the settings and the flash object, and every chrome entry, the
/// chrome winning where the keys meet; it holds nothing else.
pub proof fn lemma_setting_page_values(
    setting: Value,
    flash: Option<(&str, &str)>,
    chrome: Map<Seq<char>, Value>,
    k: Seq<char>,
)
    ensures
        ({
            let p = setting_page_entries(setting, flash, chrome);
            &&& p.dom() == set!["setting"@, "flash"@].union(chrome.dom())
            &&& chrome.contains_key(k) ==> p[k] == chrome[k]
            &&& !chrome.contains_key("setting"@) ==> p["setting"@] == setting
            &&& !chrome.contains_key("flash"@) ==> p["flash"@] == json_object(flash_entries(flash))
        }),
{
    reveal_strlit("setting");
    reveal_strlit("flash");
    assert("setting"@.len() == 7 && "flash"@.len() == 5);
    assert("setting"@ != "flash"@);
    let p = setting_page_entries(setting, flash, chrome);
    assert(p.dom() =~= set!["setting"@, "flash"@].union(chrome.dom()));
}

} // verus!
