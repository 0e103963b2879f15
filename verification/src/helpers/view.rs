//! The template context of a backend page: the page's own locals plus the theme locals
//! (`themes`, `themeName`, `theme`) that the layout maps to CSS variables. The page's own
//! locals win: a theme local is added only where the page did not set one.

use vstd::prelude::*;

use serde_json::Value;

use crate::helpers::json::{
    is_object_value, json_entries, json_object, json_optional_bool, json_string,
    map_contains_key, map_insert, map_new, shape_of, string_value, JsonShape,
};

verus! {

/// The entries of the object a page's locals become: an object as it is, `null` as the
/// empty object, any other value under the key `data`.
pub open spec fn locals_entries(locals: JsonShape) -> Map<Seq<char>, Value> {
    match locals {
        JsonShape::Object(m) => json_entries(m),
        JsonShape::Null => Map::empty(),
        JsonShape::Other(v) => map!["data"@ => v],
    }
}

/// The entries with `key` set to `value` unless the key is already there.
pub open spec fn with_default(e: Map<Seq<char>, Value>, key: Seq<char>, value: Value) -> Map<
    Seq<char>,
    Value,
> {
    if e.contains_key(key) {
        e
    } else {
        e.insert(key, value)
    }
}

/// The entries completed by the theme locals they lack: the theme list, the active theme's
/// name and its palette.
pub open spec fn with_theme_locals(
    e: Map<Seq<char>, Value>,
    active: Seq<char>,
    themes: Value,
    palette: Value,
) -> Map<Seq<char>, Value> {
    with_default(
        with_default(with_default(e, "themes"@, themes), "themeName"@, json_string(active)),
        "theme"@,
        palette,
    )
}

/// The theme locals every backend page receives.
pub open spec fn theme_keys() -> Set<Seq<char>> {
    set!["themes"@, "themeName"@, "theme"@]
}

/// The theme in use: the one asked for, else the default.
pub fn active_theme<'a>(theme_name: Option<&'a str>, default_theme: &'a str) -> (r: &'a str)
    ensures
        r@ == (match theme_name {
            Some(t) => t@,
            None => default_theme@,
        }),
{
    match theme_name {
        Some(t) => t,
        None => default_theme,
    }
}

/// The object a page's locals become.
pub fn context_from_locals(locals: JsonShape) -> (m: serde_json::Map<String, Value>)
    ensures
        json_entries(m) == locals_entries(locals),
{
    match locals {
        JsonShape::Object(m) => m,
        JsonShape::Null => map_new(),
        JsonShape::Other(v) => {
            let mut m = map_new();
            map_insert(&mut m, String::from_str("data"), v);
            assert(json_entries(m) =~= map!["data"@ => v]);
            m
        },
    }
}

/// Set `key` to `value` unless the object already has it; whether it was set is returned.
pub fn insert_if_absent(m: &mut serde_json::Map<String, Value>, key: &str, value: Value) -> (added:
    bool)
    ensures
        added == !json_entries(*old(m)).contains_key(key@),
        json_entries(*final(m)) == with_default(json_entries(*old(m)), key@, value),
{
    if map_contains_key(m, key) {
        false
    } else {
        map_insert(m, key.to_owned(), value);
        true
    }
}

/// The context of a backend page: its locals, completed by the theme locals it lacks.
pub fn view_context(locals: JsonShape, active: &str, themes: Value, palette: Value) -> (ctx:
    serde_json::Map<String, Value>)
    ensures
        json_entries(ctx) == with_theme_locals(locals_entries(locals), active@, themes, palette),
{
    let mut ctx = context_from_locals(locals);
    insert_if_absent(&mut ctx, "themes", themes);
    insert_if_absent(&mut ctx, "themeName", string_value(active));
    insert_if_absent(&mut ctx, "theme", palette);
    ctx
}

/// The context of a backend page rendered from arbitrary locals: an object's entries, the
/// empty object for `null`, and any other value under `data`, completed by the theme locals.
pub fn render_context(locals: Value, active: &str, themes: Value, palette: Value) -> (ctx:
    serde_json::Map<String, Value>)
    ensures
        forall|e: Map<Seq<char>, Value>|
            e.dom().finite() && #[trigger] json_object(e) == locals ==> json_entries(ctx)
                == with_theme_locals(e, active@, themes, palette),
        locals == json_optional_bool(None) ==> json_entries(ctx) == with_theme_locals(
            Map::empty(),
            active@,
            themes,
            palette,
        ),
        !is_object_value(locals) && locals != json_optional_bool(None) ==> json_entries(ctx)
            == with_theme_locals(map!["data"@ => locals], active@, themes, palette),
{
    let s = shape_of(locals);
    let ghost gs = s;
    let ctx = view_context(s, active, themes, palette);
    proof {
        match gs {
            JsonShape::Object(m) => {
                assert(json_object(json_entries(m)) == locals);
                assert(is_object_value(locals));
            },
            JsonShape::Null => {
                assert(!is_object_value(locals));
            },
            JsonShape::Other(w) => {
                assert(!is_object_value(locals));
            },
        }
    }
    ctx
}

/// Whatever the locals, the context holds the three theme locals, keeps every entry of the
/// page unchanged, and adds nothing else.
pub proof fn lemma_context_shape(e: Map<Seq<char>, Value>, active: Seq<char>, themes: Value, palette: Value)
    ensures
        with_theme_locals(e, active, themes, palette).dom() == e.dom().union(theme_keys()),
        forall|k: Seq<char>|
            #[trigger] e.contains_key(k) ==> with_theme_locals(e, active, themes, palette)[k] == e[k],
{
    assert(with_theme_locals(e, active, themes, palette).dom() =~= e.dom().union(theme_keys()));
}

/// Completing an already complete context changes nothing: rendering a context that already
/// carries the theme locals gives back exactly that context, whatever theme is asked for.
pub proof fn lemma_complete_context_is_fixed(
    e: Map<Seq<char>, Value>,
    active: Seq<char>,
    themes: Value,
    palette: Value,
)
    requires
        theme_keys().subset_of(e.dom()),
    ensures
        with_theme_locals(e, active, themes, palette) == e,
{
    assert(e.contains_key("themes"@));
    assert(e.contains_key("themeName"@));
    assert(e.contains_key("theme"@));
}

/// Rendering twice gives the context of the first rendering: the second completion finds the
/// theme locals already there.
pub proof fn lemma_rerender_is_fixed(
    e: Map<Seq<char>, Value>,
    a1: Seq<char>,
    t1: Value,
    p1: Value,
    a2: Seq<char>,
    t2: Value,
    p2: Value,
)
    ensures
        with_theme_locals(with_theme_locals(e, a1, t1, p1), a2, t2, p2) == with_theme_locals(
            e,
            a1,
            t1,
            p1,
        ),
{
    let c1 = with_theme_locals(e, a1, t1, p1);
    lemma_context_shape(e, a1, t1, p1);
    assert(theme_keys().subset_of(c1.dom()));
    lemma_complete_context_is_fixed(c1, a2, t2, p2);
}

/// Each theme local the page lacks is filled with what it stands for: `themes` with the theme
/// list, `themeName` with the JSON string of the active theme's name, `theme` with the active
/// theme's palette, whatever other entries the page carries.
pub proof fn lemma_missing_theme_locals_filled(
    e: Map<Seq<char>, Value>,
    active: Seq<char>,
    themes: Value,
    palette: Value,
)
    ensures
        !e.contains_key("themes"@) ==> with_theme_locals(e, active, themes, palette)["themes"@]
            == themes,
        !e.contains_key("themeName"@) ==> with_theme_locals(e, active, themes, palette)["themeName"@]
            == json_string(active),
        !e.contains_key("theme"@) ==> with_theme_locals(e, active, themes, palette)["theme"@]
            == palette,
{
    reveal_strlit("themes");
    reveal_strlit("themeName");
    reveal_strlit("theme");
    assert("themes"@.len() == 6);
    assert("theme"@.len() == 5);
    assert("themeName"@.len() == 9);
    assert("themes"@ != "themeName"@);
    assert("themes"@ != "theme"@);
    assert("themeName"@ != "theme"@);
}

/// The context of a page answers each lookup from the page when the page has the key, and
/// from the theme locals otherwise; `view_context` is this completion of the page's locals.
pub proof fn lemma_view_context_lookup(
    locals: JsonShape,
    active: Seq<char>,
    themes: Value,
    palette: Value,
    k: Seq<char>,
)
    ensures
        ({
            let e = locals_entries(locals);
            let c = with_theme_locals(e, active, themes, palette);
            &&& e.contains_key(k) ==> c.contains_key(k) && c[k] == e[k]
            &&& !e.contains_key(k) && k == "themeName"@ ==> c[k] == json_string(active)
            &&& !e.contains_key(k) && k == "themes"@ ==> c[k] == themes
            &&& !e.contains_key(k) && k == "theme"@ ==> c[k] == palette
            &&& !e.contains_key(k) && k != "themes"@ && k != "themeName"@ && k != "theme"@
                ==> !c.contains_key(k)
        }),
{
    let e = locals_entries(locals);
    lemma_context_shape(e, active, themes, palette);
    lemma_missing_theme_locals_filled(e, active, themes, palette);
}

/// How the page's locals are read: an object gives its own entries, `null` gives no entry, and
/// any other value is the single entry `data`.
pub proof fn lemma_locals_reading(locals: JsonShape)
    ensures
        locals matches JsonShape::Object(m) ==> locals_entries(locals) == json_entries(m),
        locals is Null ==> locals_entries(locals).dom().is_empty(),
        locals matches JsonShape::Other(v) ==> locals_entries(locals).dom() == set!["data"@]
            && locals_entries(locals)["data"@] == v,
{
    if let JsonShape::Other(v) = locals {
        assert(locals_entries(locals).dom() =~= set!["data"@]);
    }
}

} // verus!
