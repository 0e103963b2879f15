//! The frontend templates of the catalog and the slugs that name them.

use vstd::prelude::*;

verus! {

/// A frontend template of the catalog.
#[derive(Debug)]
pub struct FeTemplate {
    pub slug: String,
    pub name: String,
    pub category: String,
}

/// A template as plain values.
pub struct FeTemplateView {
    pub slug: Seq<char>,
    pub name: Seq<char>,
    pub category: Seq<char>,
}

impl View for FeTemplate {
    type V = FeTemplateView;

    open spec fn view(&self) -> FeTemplateView {
        FeTemplateView { slug: self.slug@, name: self.name@, category: self.category@ }
    }
}

/// The views of a list of templates.
pub open spec fn views(s: Seq<FeTemplate>) -> Seq<FeTemplateView> {
    s.map_values(|t: FeTemplate| t@)
}

/// A slug character: a lowercase ASCII letter, an ASCII digit or a hyphen.
pub open spec fn is_slug_char(c: char) -> bool {
    ('a' <= c && c <= 'z') || ('0' <= c && c <= '9') || c == '-'
}

/// A valid slug is non-empty and made of slug characters only, so it can name nothing but a
/// catalog entry (no path separators, dots or URL syntax).
pub open spec fn is_valid_slug_spec(s: Seq<char>) -> bool {
    s.len() > 0 && forall|i: int| 0 <= i < s.len() ==> is_slug_char(#[trigger] s[i])
}

/// The category given to a template known only by its slug.
pub open spec fn derived_category() -> Seq<char> {
    "Template"@
}

/// The template described by a slug alone: named after its slug.
pub open spec fn derived_template(slug: Seq<char>) -> FeTemplateView {
    FeTemplateView { slug: slug, name: slug, category: derived_category() }
}

impl FeTemplate {
    /// A copy of this template.
    pub fn duplicate(&self) -> (r: FeTemplate)
        ensures
            r@ == self@,
    {
        FeTemplate {
            slug: self.slug.clone(),
            name: self.name.clone(),
            category: self.category.clone(),
        }
    }

    /// The template a valid slug stands for; `None` for an invalid slug.
    pub fn from_slug(slug: &str) -> (r: Option<FeTemplate>)
        ensures
            r is Some <==> is_valid_slug_spec(slug@),
            r matches Some(t) ==> t@ == derived_template(slug@),
    {
        if is_valid_slug(slug) {
            Some(
                FeTemplate {
                    slug: slug.to_owned(),
                    name: slug.to_owned(),
                    category: String::from_str("Template"),
                },
            )
        } else {
            None
        }
    }
}

/// Whether `slug` is a valid catalog slug.
pub fn is_valid_slug(slug: &str) -> (r: bool)
    ensures
        r == is_valid_slug_spec(slug@),
{
    let mut ok = true;
    let mut seen_any = false;
    for c in it: slug.chars()
        invariant
            it.seq() == slug@,
            seen_any == (it.index() > 0),
            ok == (forall|j: int| 0 <= j < it.index() ==> is_slug_char(#[trigger] slug@[j])),
    {
        if !(('a' <= c && c <= 'z') || ('0' <= c && c <= '9') || c == '-') {
            ok = false;
        }
        seen_any = true;
    }
    ok && seen_any
}

} // verus!
