//! The frontend-template catalog: the curated list with the active template pinned to the
//! front, server-side search and pagination (12 per page), and per-template previews that
//! only valid slugs of the catalog (the default template or a curated one) may request.

use vstd::prelude::*;

use crate::config::fe_templates::{
    derived_template, is_valid_slug, is_valid_slug_spec, views, FeTemplate, FeTemplateView,
};
use crate::errors::{AppError, AppResult, ErrorKind};
use crate::helpers::pagination::{
    page_window, requested_page, total_pages_spec, window_spec, PageParams, PaginationMeta,
};
use crate::helpers::text::{
    ascii_lower, ascii_lower_char, has_substring, is_ascii_seq, is_blank, is_blank_spec, is_white_space, lowercase_of,
    str_contains, to_lowercase,
};

verus! {

/// Rows per catalog page.
pub const PER_PAGE: u64 = 12;

/// Whether `i` is the first position of `slug` in `s`.
pub open spec fn is_first_slug_index(s: Seq<FeTemplateView>, slug: Seq<char>, i: int) -> bool {
    &&& 0 <= i < s.len()
    &&& s[i].slug == slug
    &&& forall|j: int| 0 <= j < i ==> #[trigger] s[j].slug != slug
}

/// Whether some template of `s` has the slug.
pub open spec fn has_slug(s: Seq<FeTemplateView>, slug: Seq<char>) -> bool {
    exists|i: int| 0 <= i < s.len() && #[trigger] s[i].slug == slug
}

/// The list with the first template of slug `active` moved to the front; unchanged when no
/// template has that slug.
pub open spec fn pinned(s: Seq<FeTemplateView>, active: Seq<char>) -> Seq<FeTemplateView> {
    if has_slug(s, active) {
        let i = choose|i: int| is_first_slug_index(s, active, i);
        seq![s[i]] + s.remove(i)
    } else {
        s
    }
}

/// The lowercase search term of an optional query; a missing or blank query filters nothing.
pub open spec fn query_term(q: Option<Seq<char>>) -> Option<Seq<char>> {
    match q {
        Some(s) => if is_blank_spec(s) { None } else { Some(lowercase_of(s)) },
        None => None,
    }
}

/// A non-blank ASCII query searches for its ASCII lowercase: the search ignores the case of
/// the query.
pub open spec fn ascii_query_folds(q: Option<&str>) -> bool {
    match q {
        Some(s) => is_ascii_seq(s@) && !is_blank_spec(s@) ==> query_term(opt_view(q)) == Some(
            ascii_lower(s@),
        ),
        None => true,
    }
}

/// The view of an optional string argument.
pub open spec fn opt_view(q: Option<&str>) -> Option<Seq<char>> {
    match q {
        Some(s) => Some(s@),
        None => None,
    }
}

/// A template matches a name search when its lowercased name, or its slug, contains the term.
pub open spec fn name_pred(term: Seq<char>) -> spec_fn(FeTemplateView) -> bool {
    |t: FeTemplateView| has_substring(lowercase_of(t.name), term) || has_substring(t.slug, term)
}

/// A template matches a category search when its lowercased category contains the term.
pub open spec fn category_pred(term: Seq<char>) -> spec_fn(FeTemplateView) -> bool {
    |t: FeTemplateView| has_substring(lowercase_of(t.category), term)
}

/// The searched catalog: pinned, then filtered by name, then by category.
pub open spec fn searched(
    curated: Seq<FeTemplateView>,
    active: Seq<char>,
    q_name: Option<Seq<char>>,
    q_category: Option<Seq<char>>,
) -> Seq<FeTemplateView> {
    let by_name = match query_term(q_name) {
        Some(t) => pinned(curated, active).filter(name_pred(t)),
        None => pinned(curated, active),
    };
    match query_term(q_category) {
        Some(t) => by_name.filter(category_pred(t)),
        None => by_name,
    }
}

/// The page shown for a request of `page` over `total` rows.
pub open spec fn shown_page(page: Option<u64>, total: int) -> int {
    let tp = total_pages_spec(total, PER_PAGE as int);
    if requested_page(page) <= tp {
        requested_page(page) as int
    } else {
        tp
    }
}

/// The rows of page `p` (counting from 1) of a listing.
pub open spec fn page_rows(all: Seq<FeTemplateView>, p: int) -> Seq<FeTemplateView> {
    let start = (p - 1) * PER_PAGE;
    let end = if start + PER_PAGE <= all.len() { start + PER_PAGE } else { all.len() as int };
    all.subrange(start, end)
}

/// The preview up to the page title (the template name follows).
pub const PREVIEW_HEAD: &'static str = "<!doctype html><html lang=\"en\"><head><meta charset=\"utf-8\">\n<meta name=\"viewport\" content=\"width=device-width,initial-scale=1\">\n<meta name=\"color-scheme\" content=\"light\">\n<title>";

/// The preview between the title and the brand in the header (the name follows).
pub const PREVIEW_AFTER_TITLE: &'static str = "</title><script src=\"https://cdn.tailwindcss.com\"></script></head>\n<body class=\"bg-white text-slate-800\">\n  <header class=\"px-8 py-5 flex items-center justify-between border-b\">\n    <span class=\"font-bold text-lg text-indigo-600\">";

/// The preview between the brand and the kicker (the category follows).
pub const PREVIEW_AFTER_BRAND: &'static str = "</span>\n    <nav class=\"space-x-6 text-sm text-slate-600\"><a>Home</a><a>About</a><a>Services</a><a>Contact</a></nav>\n  </header>\n  <section class=\"px-8 py-20 text-center bg-gradient-to-b from-indigo-50 to-white\">\n    <p class=\"uppercase tracking-widest text-indigo-500 text-xs font-semibold\">";

/// The preview between the kicker and the headline (the name follows).
pub const PREVIEW_AFTER_KICKER: &'static str = "</p>\n    <h1 class=\"text-4xl md:text-5xl font-extrabold mt-3\">Beautiful ";

/// The preview between the headline and the slug in the lead text.
pub const PREVIEW_AFTER_HEADLINE: &'static str = "</h1>\n    <p class=\"text-slate-500 mt-4 max-w-xl mx-auto\">A self-contained opentailwind template preview (";

/// The preview from the lead text to the footer (the category follows).
pub const PREVIEW_AFTER_SLUG: &'static str = ").</p>\n    <button class=\"mt-6 px-6 py-3 rounded-lg bg-indigo-600 text-white font-medium\">Get Started</button>\n  </section>\n  <section class=\"px-8 py-16 grid md:grid-cols-3 gap-6 max-w-5xl mx-auto\">\n    <div class=\"p-6 rounded-2xl border\"><h3 class=\"font-bold\">Fast</h3><p class=\"text-slate-500 text-sm mt-2\">Lightweight and quick.</p></div>\n    <div class=\"p-6 rounded-2xl border\"><h3 class=\"font-bold\">Responsive</h3><p class=\"text-slate-500 text-sm mt-2\">Looks great anywhere.</p></div>\n    <div class=\"p-6 rounded-2xl border\"><h3 class=\"font-bold\">Themed</h3><p class=\"text-slate-500 text-sm mt-2\">Tailwind-powered design.</p></div>\n  </section>\n  <footer class=\"px-8 py-8 text-center text-slate-400 text-sm border-t\">";

/// The footer separator between category and slug.
pub const PREVIEW_FOOTER_SEP: &'static str = " · ";

/// The end of the preview.
pub const PREVIEW_TAIL: &'static str = "</footer>\n</body></html>";

/// The self-contained, themed HTML preview of a template.
pub open spec fn preview_spec(t: FeTemplateView) -> Seq<char> {
    PREVIEW_HEAD@ + t.name + PREVIEW_AFTER_TITLE@ + t.name + PREVIEW_AFTER_BRAND@ + t.category
        + PREVIEW_AFTER_KICKER@ + t.name + PREVIEW_AFTER_HEADLINE@ + t.slug + PREVIEW_AFTER_SLUG@
        + t.category + PREVIEW_FOOTER_SEP@ + t.slug + PREVIEW_TAIL@
}

/// The HTML preview of a template.
pub fn generated_preview(t: &FeTemplate) -> (html: String)
    ensures
        html@ == preview_spec(t@),
{
    let mut html = String::from_str(PREVIEW_HEAD);
    html.append(t.name.as_str());
    html.append(PREVIEW_AFTER_TITLE);
    html.append(t.name.as_str());
    html.append(PREVIEW_AFTER_BRAND);
    html.append(t.category.as_str());
    html.append(PREVIEW_AFTER_KICKER);
    html.append(t.name.as_str());
    html.append(PREVIEW_AFTER_HEADLINE);
    html.append(t.slug.as_str());
    html.append(PREVIEW_AFTER_SLUG);
    html.append(t.category.as_str());
    html.append(PREVIEW_FOOTER_SEP);
    html.append(t.slug.as_str());
    html.append(PREVIEW_TAIL);
    html
}

/// The catalog service: the curated template list (the offline catalog) and the slug of the
/// default template.
pub struct FeCatalogService {
    curated: Vec<FeTemplate>,
    default_slug: String,
}

/// One page of the searched catalog.
pub struct CatalogPage {
    pub rows: Vec<FeTemplate>,
    pub meta: PaginationMeta,
    /// The page links, with `None` for a gap.
    pub pages: Vec<Option<u64>>,
}

/// The catalog operations that the controllers depend on.
pub trait IFeCatalogService {
    /// The full catalog, the active template pinned to the front.
    fn catalog(&self, active_slug: &str) -> Vec<FeTemplate>;

    /// Search by name and category, then one page of 12, the active template pinned first.
    fn paginate(
        &self,
        q_name: Option<&str>,
        q_category: Option<&str>,
        page: Option<u64>,
        active_slug: &str,
    ) -> CatalogPage;

    /// The HTML preview of a template; only valid slugs of the catalog are previewed.
    fn preview_html(&self, slug: &str) -> AppResult<String>;
}

/// Which text of a template a search looks at.
#[derive(Clone, Copy, Debug, PartialEq, Eq, Structural)]
pub enum SearchField {
    Name,
    Category,
}

/// The match of a search term in a field: a name search also looks at the slug.
pub open spec fn field_pred(f: SearchField, term: Seq<char>) -> spec_fn(FeTemplateView) -> bool {
    match f {
        SearchField::Name => name_pred(term),
        SearchField::Category => category_pred(term),
    }
}

/// Whether a template matches the search term in the given field.
pub fn matches_field(t: &FeTemplate, term: &str, f: SearchField) -> (r: bool)
    ensures
        r == field_pred(f, term@)(t@),
{
    match f {
        SearchField::Name => {
            let lname = to_lowercase(t.name.as_str());
            str_contains(lname.as_str(), term) || str_contains(t.slug.as_str(), term)
        },
        SearchField::Category => {
            let lcat = to_lowercase(t.category.as_str());
            str_contains(lcat.as_str(), term)
        },
    }
}

/// The templates of `list` that match the term, in order.
pub fn retain_matching(list: &Vec<FeTemplate>, term: &str, f: SearchField) -> (r: Vec<FeTemplate>)
    ensures
        views(r@) == views(list@).filter(field_pred(f, term@)),
{
    let mut out: Vec<FeTemplate> = Vec::new();
    let ghost pred = field_pred(f, term@);
    for i in 0..list.len()
        invariant
            pred == field_pred(f, term@),
            views(out@) == views(list@).take(i as int).filter(pred),
    {
        let keep = matches_field(&list[i], term, f);
        proof {
            reveal(Seq::filter);
            assert(views(list@).take(i + 1).drop_last() =~= views(list@).take(i as int));
            assert(views(list@).take(i + 1).last() == list@[i as int]@);
        }
        if keep {
            let t = list[i].duplicate();
            out.push(t);
            assert(views(out@) =~= views(list@).take(i as int).filter(pred).push(list@[i as int]@));
        }
    }
    assert(views(list@).take(list.len() as int) =~= views(list@));
    out
}

/// The lowercase search term of a query, `None` when the query is missing or blank.
fn query_term_of(q: Option<&str>) -> (r: Option<String>)
    ensures
        match r {
            Some(s) => query_term(opt_view(q)) == Some(s@),
            None => query_term(opt_view(q)) is None,
        },
        ascii_query_folds(q),
{
    match q {
        Some(s) => {
            if is_blank(s) {
                None
            } else {
                Some(to_lowercase(s))
            }
        },
        None => None,
    }
}

/// The first position of `slug` in `list`.
fn first_slug_index(list: &Vec<FeTemplate>, slug: &str) -> (r: Option<usize>)
    ensures
        match r {
            Some(i) => is_first_slug_index(views(list@), slug@, i as int),
            None => !has_slug(views(list@), slug@),
        },
{
    let wanted = slug.to_owned();
    for i in 0..list.len()
        invariant
            wanted@ == slug@,
            forall|j: int| 0 <= j < i ==> #[trigger] list@[j].slug@ != slug@,
    {
        if list[i].slug == wanted {
            return Some(i);
        }
    }
    None
}

/// A first position is unique.
proof fn lemma_first_slug_index_unique(s: Seq<FeTemplateView>, slug: Seq<char>, i: int, k: int)
    requires
        is_first_slug_index(s, slug, i),
        is_first_slug_index(s, slug, k),
    ensures
        i == k,
{
    if i < k {
        assert(s[i].slug != slug);
    } else if k < i {
        assert(s[k].slug != slug);
    }
}

impl FeCatalogService {
    /// A catalog service over a curated list and a default template slug.
    pub fn new(curated: Vec<FeTemplate>, default_slug: String) -> (r: FeCatalogService)
        ensures
            r.curated_view() == views(curated@),
            r.default_slug_view() == default_slug@,
    {
        FeCatalogService { curated, default_slug }
    }

    /// The curated templates.
    pub closed spec fn curated_view(&self) -> Seq<FeTemplateView> {
        views(self.curated@)
    }

    /// The slug of the default template.
    pub closed spec fn default_slug_view(&self) -> Seq<char> {
        self.default_slug@
    }

    /// Whether a slug belongs to the catalog: the default template or a curated one.
    pub open spec fn known_spec(&self, slug: Seq<char>) -> bool {
        slug == self.default_slug_view() || has_slug(self.curated_view(), slug)
    }

    /// Whether the slug belongs to the catalog.
    pub fn known(&self, slug: &str) -> (r: bool)
        ensures
            r == self.known_spec(slug@),
    {
        let wanted = slug.to_owned();
        if self.default_slug == wanted {
            return true;
        }
        first_slug_index(&self.curated, slug).is_some()
    }
}

impl IFeCatalogService for FeCatalogService {
    fn catalog(&self, active_slug: &str) -> (r: Vec<FeTemplate>)
        ensures
            views(r@) == pinned(self.curated_view(), active_slug@),
    {
        let mut list: Vec<FeTemplate> = Vec::new();
        for i in 0..self.curated.len()
            invariant
                list@.len() == i,
                views(list@) == views(self.curated@).take(i as int),
        {
            let t = self.curated[i].duplicate();
            list.push(t);
            assert(list@[i as int]@ == self.curated@[i as int]@);
            assert(views(list@) =~= views(self.curated@).take(i + 1));
        }
        assert(views(list@) =~= views(self.curated@));
        let ghost before = views(list@);
        match first_slug_index(&list, active_slug) {
            Some(pos) => {
                let t = list.remove(pos);
                list.insert(0, t);
                proof {
                    let i = choose|i: int| is_first_slug_index(before, active_slug@, i);
                    lemma_first_slug_index_unique(before, active_slug@, i, pos as int);
                    assert(views(list@) =~= seq![before[pos as int]] + before.remove(pos as int));
                }
            },
            None => {},
        }
        list
    }

    fn paginate(
        &self,
        q_name: Option<&str>,
        q_category: Option<&str>,
        page: Option<u64>,
        active_slug: &str,
    ) -> (r: CatalogPage)
        ensures
            ({
                let all = searched(
                    self.curated_view(),
                    active_slug@,
                    opt_view(q_name),
                    opt_view(q_category),
                );
                &&& r.meta.total == all.len()
                &&& r.meta.per_page == PER_PAGE
                &&& r.meta.total_pages == total_pages_spec(all.len() as int, PER_PAGE as int)
                &&& r.meta.page == shown_page(page, all.len() as int)
                &&& views(r.rows@) == page_rows(all, r.meta.page as int)
                &&& r.pages@ == window_spec(r.meta.page as int, r.meta.total_pages as int)
            }),
            ascii_query_folds(q_name),
            ascii_query_folds(q_category),
    {
        let mut all = self.catalog(active_slug);
        match query_term_of(q_name) {
            Some(t) => {
                all = retain_matching(&all, t.as_str(), SearchField::Name);
            },
            None => {},
        }
        match query_term_of(q_category) {
            Some(t) => {
                all = retain_matching(&all, t.as_str(), SearchField::Category);
            },
            None => {},
        }
        let params = PageParams::new(page, Some(PER_PAGE), PER_PAGE);
        let total = all.len() as u64;
        let meta = PaginationMeta::new(total, params);
        proof {
            if total > 0 {
                let q = (total - 1) / 12;
                assert(q * 12 <= total - 1) by (nonlinear_arith)
                    requires
                        q == (total - 1) / 12,
                        total >= 1,
                ;
                assert((meta.page - 1) * 12 <= q * 12) by (nonlinear_arith)
                    requires
                        meta.page - 1 <= q,
                        meta.page >= 1,
                ;
            }
        }
        let start = ((meta.page - 1) * PER_PAGE) as usize;
        assert(start <= all.len());
        let end: usize = if all.len() - start >= 12 {
            start + 12
        } else {
            all.len()
        };
        let mut rows: Vec<FeTemplate> = Vec::new();
        let mut k: usize = start;
        while k < end
            invariant
                start <= k <= end,
                end <= all.len(),
                rows@.len() == k - start,
                views(rows@) == views(all@).subrange(start as int, k as int),
            decreases end - k,
        {
            let t = all[k].duplicate();
            rows.push(t);
            assert(rows@[rows@.len() - 1]@ == all@[k as int]@);
            assert(views(rows@) =~= views(all@).subrange(start as int, k + 1));
            k = k + 1;
        }
        let pages = page_window(meta.page, meta.total_pages);
        CatalogPage { rows, meta, pages }
    }

    fn preview_html(&self, slug: &str) -> (r: AppResult<String>)
        ensures
            r is Ok <==> is_valid_slug_spec(slug@) && self.known_spec(slug@),
            r matches Ok(html) ==> html@ == preview_spec(derived_template(slug@)),
            r matches Err(e) ==> e.kind == ErrorKind::BadRequest && e.message@ == "Unknown template"@,
    {
        if !is_valid_slug(slug) || !self.known(slug) {
            return Err(AppError::bad_request("Unknown template"));
        }
        match FeTemplate::from_slug(slug) {
            Some(t) => Ok(generated_preview(&t)),
            None => Err(AppError::bad_request("Invalid template slug")),
        }
    }
}

/// Pinning the active template only reorders the catalog: the same templates, each as many
/// times, and when the active template is curated it comes first.
pub proof fn lemma_pinned_is_reordering(s: Seq<FeTemplateView>, active: Seq<char>)
    ensures
        pinned(s, active).to_multiset() == s.to_multiset(),
        pinned(s, active).len() == s.len(),
        has_slug(s, active) ==> pinned(s, active)[0].slug == active,
        !has_slug(s, active) ==> pinned(s, active) == s,
{
    broadcast use vstd::multiset::group_multiset_axioms;
    if has_slug(s, active) {
        let w = choose|i: int| 0 <= i < s.len() && #[trigger] s[i].slug == active;
        lemma_first_index_exists(s, active, w);
        let i = choose|i: int| is_first_slug_index(s, active, i);
        let rest = s.remove(i);
        assert(s =~= s.subrange(0, i) + seq![s[i]] + s.subrange(i + 1, s.len() as int));
        vstd::seq_lib::lemma_multiset_commutative(s.subrange(0, i) + seq![s[i]], s.subrange(i + 1, s.len() as int));
        vstd::seq_lib::lemma_multiset_commutative(s.subrange(0, i), seq![s[i]]);
        vstd::seq_lib::lemma_multiset_commutative(seq![s[i]], rest);
        vstd::seq_lib::lemma_multiset_commutative(s.subrange(0, i), s.subrange(i + 1, s.len() as int));
        assert(rest =~= s.subrange(0, i) + s.subrange(i + 1, s.len() as int));
    }
}

/// Some template has the slug, so a first one does.
proof fn lemma_first_index_exists(s: Seq<FeTemplateView>, slug: Seq<char>, w: int)
    requires
        0 <= w < s.len(),
        s[w].slug == slug,
    ensures
        exists|i: int| is_first_slug_index(s, slug, i),
    decreases w,
{
    if exists|j: int| 0 <= j < w && #[trigger] s[j].slug == slug {
        let j = choose|j: int| 0 <= j < w && #[trigger] s[j].slug == slug;
        lemma_first_index_exists(s, slug, j);
    } else {
        assert(is_first_slug_index(s, slug, w));
    }
}

/// Every row of every page matches the active searches, and a page holds at most 12 rows.
pub proof fn lemma_page_rows_match_search(
    curated: Seq<FeTemplateView>,
    active: Seq<char>,
    q_name: Option<Seq<char>>,
    q_category: Option<Seq<char>>,
    page: Option<u64>,
)
    ensures
        ({
            let all = searched(curated, active, q_name, q_category);
            let rows = page_rows(all, shown_page(page, all.len() as int));
            &&& rows.len() <= PER_PAGE
            &&& forall|k: int|
                0 <= k < rows.len() ==> (query_term(q_name) matches Some(t) ==> name_pred(t)(
                    #[trigger] rows[k],
                )) && (query_term(q_category) matches Some(t) ==> category_pred(t)(rows[k]))
        }),
{
    broadcast use vstd::seq_lib::group_filter_ensures;
    let base = pinned(curated, active);
    let by_name = match query_term(q_name) {
        Some(t) => base.filter(name_pred(t)),
        None => base,
    };
    let all = searched(curated, active, q_name, q_category);
    let p = shown_page(page, all.len() as int);
    let tp = total_pages_spec(all.len() as int, PER_PAGE as int);
    assert(1 <= p <= tp);
    let start = (p - 1) * PER_PAGE;
    if all.len() > 0 {
        let q = (all.len() - 1) / 12;
        assert(q * 12 <= all.len() - 1) by (nonlinear_arith)
            requires
                q == (all.len() - 1) / 12,
                all.len() >= 1,
        ;
        assert((p - 1) * 12 <= q * 12) by (nonlinear_arith)
            requires
                p - 1 <= q,
                p >= 1,
        ;
    }
    assert(0 <= start <= all.len()) by (nonlinear_arith)
        requires
            start == (p - 1) * 12,
            p >= 1,
            all.len() == 0 ==> p == 1,
            all.len() > 0 ==> start <= all.len() - 1,
    ;
    let rows = page_rows(all, p);
    assert forall|k: int| 0 <= k < rows.len() implies (query_term(q_name) matches Some(t) ==> name_pred(t)(
        #[trigger] rows[k],
    )) && (query_term(q_category) matches Some(t) ==> category_pred(t)(rows[k])) by {
        let x = all[start + k];
        assert(rows[k] == x);
        assert(all.contains(x));
        if let Some(c) = query_term(q_category) {
            assert(all == by_name.filter(category_pred(c)));
            assert(category_pred(c)(x));
            by_name.lemma_filter_contains_rev(category_pred(c), x);
        }
        assert(by_name.contains(x));
        if let Some(n) = query_term(q_name) {
            assert(by_name == base.filter(name_pred(n)));
            assert(name_pred(n)(x));
        }
    }
}

/// Filtering a list whose head passes keeps that head first.
proof fn lemma_filter_keeps_passing_head(s: Seq<FeTemplateView>, pred: spec_fn(FeTemplateView) -> bool)
    requires
        s.len() > 0,
        pred(s[0]),
    ensures
        s.filter(pred).len() > 0,
        s.filter(pred)[0] == s[0],
{
    let head = seq![s[0]];
    assert(s =~= head + s.drop_first());
    Seq::filter_distributes_over_add(head, s.drop_first(), pred);
    reveal(Seq::filter);
    assert(head.drop_last() =~= Seq::<FeTemplateView>::empty());
    assert(Seq::<FeTemplateView>::empty().filter(pred) =~= Seq::<FeTemplateView>::empty());
    assert(head.filter(pred) =~= head);
}

/// The active template is pinned to the first page: when it is curated and matches the
/// searches, it is the first row of page 1.
pub proof fn lemma_active_first_on_page_one(
    curated: Seq<FeTemplateView>,
    active: Seq<char>,
    q_name: Option<Seq<char>>,
    q_category: Option<Seq<char>>,
)
    requires
        has_slug(curated, active),
        query_term(q_name) matches Some(n) ==> name_pred(n)(pinned(curated, active)[0]),
        query_term(q_category) matches Some(c) ==> category_pred(c)(pinned(curated, active)[0]),
    ensures
        ({
            let rows = page_rows(searched(curated, active, q_name, q_category), 1);
            rows.len() > 0 && rows[0] == pinned(curated, active)[0] && rows[0].slug == active
        }),
{
    lemma_pinned_is_reordering(curated, active);
    let base = pinned(curated, active);
    let t0 = base[0];
    let by_name = match query_term(q_name) {
        Some(n) => base.filter(name_pred(n)),
        None => base,
    };
    if let Some(n) = query_term(q_name) {
        lemma_filter_keeps_passing_head(base, name_pred(n));
    }
    assert(by_name.len() > 0 && by_name[0] == t0);
    if let Some(c) = query_term(q_category) {
        lemma_filter_keeps_passing_head(by_name, category_pred(c));
    }
    let all = searched(curated, active, q_name, q_category);
    assert(all.len() > 0 && all[0] == t0);
    assert(total_pages_spec(all.len() as int, PER_PAGE as int) >= 1);
}

/// Every entry of the searched catalog is on exactly one page: the entry at index `i` is row
/// `i % 12` of page `i / 12 + 1`, and that page exists.
pub proof fn lemma_entry_page(all: Seq<FeTemplateView>, i: int)
    requires
        0 <= i < all.len(),
    ensures
        1 <= i / 12 + 1 <= total_pages_spec(all.len() as int, PER_PAGE as int),
        i % 12 < page_rows(all, i / 12 + 1).len(),
        page_rows(all, i / 12 + 1)[i % 12] == all[i],
{
    let p = i / 12 + 1;
    assert((p - 1) * 12 + i % 12 == i) by (nonlinear_arith)
        requires
            p == i / 12 + 1,
            i >= 0,
    ;
    assert(i / 12 <= (all.len() - 1) / 12) by (nonlinear_arith)
        requires
            0 <= i <= all.len() - 1,
    ;
    assert(0 <= i % 12 < 12) by (nonlinear_arith)
        requires
            i >= 0,
    ;
}

/// Pages 1 to `n` of a listing, one after the other.
pub open spec fn pages_through(all: Seq<FeTemplateView>, n: int) -> Seq<FeTemplateView>
    decreases n,
{
    if n <= 0 {
        Seq::empty()
    } else {
        pages_through(all, n - 1) + page_rows(all, n)
    }
}

/// Pages 1 to `n` hold exactly the first `12 n` entries (or all of them).
proof fn lemma_pages_through_prefix(all: Seq<FeTemplateView>, n: int)
    requires
        0 <= n <= total_pages_spec(all.len() as int, PER_PAGE as int),
    ensures
        pages_through(all, n) == all.subrange(
            0,
            if n * 12 <= all.len() { n * 12 } else { all.len() as int },
        ),
    decreases n,
{
    if n > 0 {
        lemma_pages_through_prefix(all, n - 1);
        let tp = total_pages_spec(all.len() as int, PER_PAGE as int);
        if all.len() > 0 {
            let q = (all.len() - 1) / 12;
            assert(q * 12 <= all.len() - 1) by (nonlinear_arith)
                requires
                    q == (all.len() - 1) / 12,
                    all.len() >= 1,
            ;
            assert((n - 1) * 12 <= q * 12) by (nonlinear_arith)
                requires
                    n - 1 <= q,
                    n >= 1,
            ;
        }
        assert((n - 1) * 12 <= all.len());
        assert(n * 12 == (n - 1) * 12 + 12) by (nonlinear_arith);
        let end = if n * 12 <= all.len() { n * 12 } else { all.len() as int };
        assert(all.subrange(0, (n - 1) * 12) + all.subrange((n - 1) * 12, end) =~= all.subrange(0, end));
    }
}

/// The pages of a listing, one after the other, give back exactly the listing: every entry
/// is on one page, in order, none lost and none repeated.
pub proof fn lemma_pages_cover_listing(all: Seq<FeTemplateView>)
    ensures
        pages_through(all, total_pages_spec(all.len() as int, PER_PAGE as int)) == all,
{
    let tp = total_pages_spec(all.len() as int, PER_PAGE as int);
    lemma_pages_through_prefix(all, tp);
    if all.len() > 0 {
        let q = (all.len() - 1) / 12;
        assert((q + 1) * 12 >= all.len()) by (nonlinear_arith)
            requires
                q == (all.len() - 1) / 12,
                all.len() >= 1,
        ;
    }
    assert(all.subrange(0, all.len() as int) =~= all);
}

/// A page that exists is shown as asked.
pub proof fn lemma_existing_page_is_shown(total: int, p: int)
    requires
        0 <= total,
        1 <= p <= total_pages_spec(total, PER_PAGE as int),
        p <= u64::MAX,
    ensures
        shown_page(Some(p as u64), total) == p,
{
}

/// A page past the end shows the last page.
pub proof fn lemma_page_past_end_shows_last(total: int, p: u64)
    requires
        0 <= total,
        p > total_pages_spec(total, PER_PAGE as int),
    ensures
        shown_page(Some(p), total) == total_pages_spec(total, PER_PAGE as int),
{
}

/// The rows that asking for pages 1 to `n` in turn returns, one after the other.
pub open spec fn paginated_through(all: Seq<FeTemplateView>, n: int) -> Seq<FeTemplateView>
    decreases n,
{
    if n <= 0 {
        Seq::empty()
    } else {
        paginated_through(all, n - 1) + page_rows(all, shown_page(Some(n as u64), all.len() as int))
    }
}

/// Asking `paginate` for pages 1 to the last, in turn, returns every searched template exactly
/// once, in catalog order (the rows of each call are `page_rows(all, shown_page(page, ..))`).
pub proof fn lemma_paginated_calls_cover_search(all: Seq<FeTemplateView>)
    requires
        all.len() <= u64::MAX,
    ensures
        paginated_through(all, total_pages_spec(all.len() as int, PER_PAGE as int)) == all,
{
    let tp = total_pages_spec(all.len() as int, PER_PAGE as int);
    assert forall|n: int| 0 <= n <= tp implies #[trigger] paginated_through(all, n) == pages_through(
        all,
        n,
    ) by {
        lemma_paginated_prefix(all, n);
    }
    lemma_pages_cover_listing(all);
}

proof fn lemma_paginated_prefix(all: Seq<FeTemplateView>, n: int)
    requires
        all.len() <= u64::MAX,
        0 <= n <= total_pages_spec(all.len() as int, PER_PAGE as int),
    ensures
        paginated_through(all, n) == pages_through(all, n),
    decreases n,
{
    if n > 0 {
        lemma_paginated_prefix(all, n - 1);
        assert(total_pages_spec(all.len() as int, PER_PAGE as int) <= all.len() + 1);
        lemma_existing_page_is_shown(all.len() as int, n);
    }
}

/// The ASCII lowercase of a character is whitespace exactly when the character is.
proof fn lemma_ascii_lower_char(c: char)
    ensures
        is_white_space(ascii_lower_char(c)) == is_white_space(c),
{
    if 'A' <= c && c <= 'Z' {
        let u = c as u32;
        assert(65 <= u <= 90);
        let l = ((c as u32) + 32) as char;
        assert(l as u32 == u + 32);
        assert(!is_white_space(l));
        assert(!is_white_space(c));
    }
}

/// Two ASCII queries with the same ASCII lowercase are blank together.
pub proof fn lemma_ascii_case_keeps_blankness(q1: Seq<char>, q2: Seq<char>)
    requires
        is_ascii_seq(q1),
        is_ascii_seq(q2),
        ascii_lower(q1) == ascii_lower(q2),
    ensures
        is_blank_spec(q1) == is_blank_spec(q2),
{
    assert(q1.len() == ascii_lower(q1).len());
    assert(q2.len() == ascii_lower(q2).len());
    assert forall|i: int| 0 <= i < q1.len() implies is_white_space(#[trigger] q1[i]) == is_white_space(q2[i]) by {
        assert(ascii_lower(q1)[i] == ascii_lower(q2)[i]);
        let a = q1[i];
        let b = q2[i];
        lemma_ascii_lower_char(a);
        lemma_ascii_lower_char(b);
        assert(ascii_lower(q1)[i] == ascii_lower_char(a));
        assert(ascii_lower(q2)[i] == ascii_lower_char(b));
    }
    if is_blank_spec(q1) {
        assert forall|i: int| 0 <= i < q2.len() implies is_white_space(#[trigger] q2[i]) by {
            assert(is_white_space(q1[i]));
        }
    }
    if is_blank_spec(q2) {
        assert forall|i: int| 0 <= i < q1.len() implies is_white_space(#[trigger] q1[i]) by {
            assert(is_white_space(q2[i]));
        }
    }
}

/// The search ignores the case of ASCII queries: two name queries, or two category queries,
/// that differ only in the case of ASCII letters give the same searched catalog, hence the same
/// pages. The term facts required are what `paginate` ensures of every query it is given.
pub proof fn lemma_search_ignores_ascii_case(
    curated: Seq<FeTemplateView>,
    active: Seq<char>,
    n1: Seq<char>,
    n2: Seq<char>,
    c1: Seq<char>,
    c2: Seq<char>,
)
    requires
        is_ascii_seq(n1) && is_ascii_seq(n2) && ascii_lower(n1) == ascii_lower(n2),
        is_ascii_seq(c1) && is_ascii_seq(c2) && ascii_lower(c1) == ascii_lower(c2),
        !is_blank_spec(n1) ==> query_term(Some(n1)) == Some(ascii_lower(n1)),
        !is_blank_spec(n2) ==> query_term(Some(n2)) == Some(ascii_lower(n2)),
        !is_blank_spec(c1) ==> query_term(Some(c1)) == Some(ascii_lower(c1)),
        !is_blank_spec(c2) ==> query_term(Some(c2)) == Some(ascii_lower(c2)),
    ensures
        searched(curated, active, Some(n1), Some(c1)) == searched(curated, active, Some(n2), Some(c2)),
{
    lemma_ascii_case_keeps_blankness(n1, n2);
    lemma_ascii_case_keeps_blankness(c1, c2);
    assert(query_term(Some(n1)) == query_term(Some(n2)));
    assert(query_term(Some(c1)) == query_term(Some(c2)));
}

/// A name search looks at the lowercased name and at the slug, never at the category: a
/// template matches when either contains the term, does not match when neither does, and two
/// templates with the same name and slug match alike whatever their categories.
pub proof fn lemma_name_search_reads_name_and_slug(term: Seq<char>, t: FeTemplateView, u: FeTemplateView)
    ensures
        has_substring(lowercase_of(t.name), term) ==> field_pred(SearchField::Name, term)(t),
        has_substring(t.slug, term) ==> field_pred(SearchField::Name, term)(t),
        !has_substring(lowercase_of(t.name), term) && !has_substring(t.slug, term) ==> !field_pred(
            SearchField::Name,
            term,
        )(t),
        t.name == u.name && t.slug == u.slug ==> field_pred(SearchField::Name, term)(t) == field_pred(
            SearchField::Name,
            term,
        )(u),
{
}

/// A category search looks at the lowercased category alone: two templates with the same
/// category match alike whatever their names and slugs.
pub proof fn lemma_category_search_reads_category(term: Seq<char>, t: FeTemplateView, u: FeTemplateView)
    ensures
        field_pred(SearchField::Category, term)(t) == has_substring(lowercase_of(t.category), term),
        t.category == u.category ==> field_pred(SearchField::Category, term)(t) == field_pred(
            SearchField::Category,
            term,
        )(u),
{
}

/// Pinning moves the first template with the active slug to the front and leaves every other
/// template in catalog order: the templates before it shift back by one, those after it stay
/// where they were.
pub proof fn lemma_pinning_keeps_order(s: Seq<FeTemplateView>, active: Seq<char>, i: int)
    requires
        0 <= i < s.len(),
        s[i].slug == active,
        forall|j: int| 0 <= j < i ==> #[trigger] s[j].slug != active,
    ensures
        pinned(s, active).len() == s.len(),
        pinned(s, active)[0] == s[i],
        forall|j: int| 0 <= j < i ==> #[trigger] pinned(s, active)[j + 1] == s[j],
        forall|j: int| i < j < s.len() ==> #[trigger] pinned(s, active)[j] == s[j],
{
    assert(has_slug(s, active));
    let k = choose|k: int| is_first_slug_index(s, active, k);
    assert(is_first_slug_index(s, active, i));
    lemma_first_slug_index_unique(s, active, i, k);
}

/// Every template of the catalog is known: the default slug and the slug of every curated
/// template, whatever its position; a slug that is neither is not.
pub proof fn lemma_every_curated_slug_known(svc: &FeCatalogService, slug: Seq<char>)
    ensures
        svc.known_spec(svc.default_slug_view()),
        forall|i: int|
            0 <= i < svc.curated_view().len() ==> svc.known_spec(#[trigger] svc.curated_view()[i].slug),
        slug != svc.default_slug_view() && (forall|i: int|
            0 <= i < svc.curated_view().len() ==> #[trigger] svc.curated_view()[i].slug != slug)
            ==> !svc.known_spec(slug),
{
    assert forall|i: int| 0 <= i < svc.curated_view().len() implies svc.known_spec(
        #[trigger] svc.curated_view()[i].slug,
    ) by {
        assert(has_slug(svc.curated_view(), svc.curated_view()[i].slug));
    }
}

/// The search keeps every template of the pinned catalog that matches both searches: none is
/// lost, and (with `lemma_page_rows_match_search`) none that fails a search is kept.
pub proof fn lemma_search_keeps_every_match(
    curated: Seq<FeTemplateView>,
    active: Seq<char>,
    q_name: Option<Seq<char>>,
    q_category: Option<Seq<char>>,
    j: int,
)
    requires
        0 <= j < pinned(curated, active).len(),
        query_term(q_name) matches Some(n) ==> has_substring(lowercase_of(pinned(curated, active)[j].name), n)
            || has_substring(pinned(curated, active)[j].slug, n),
        query_term(q_category) matches Some(c) ==> has_substring(
            lowercase_of(pinned(curated, active)[j].category),
            c,
        ),
    ensures
        searched(curated, active, q_name, q_category).contains(pinned(curated, active)[j]),
{
    broadcast use vstd::seq_lib::group_filter_ensures;
    let base = pinned(curated, active);
    let x = base[j];
    let by_name = match query_term(q_name) {
        Some(n) => base.filter(name_pred(n)),
        None => base,
    };
    if let Some(n) = query_term(q_name) {
        assert(name_pred(n)(x));
        assert(by_name.contains(x));
    } else {
        assert(by_name[j] == x);
    }
    if let Some(c) = query_term(q_category) {
        assert(category_pred(c)(x));
        let k = choose|k: int| 0 <= k < by_name.len() && by_name[k] == x;
        assert(by_name.filter(category_pred(c)).contains(by_name[k]));
    }
}

/// The preview is titled with the template's name, right after the document head, and ends
/// with a footer of its category and slug: `category · slug` then the closing tags.
pub proof fn lemma_preview_title_and_footer(t: FeTemplateView)
    ensures
        ({
            let h = preview_spec(t);
            let n = PREVIEW_HEAD@.len();
            let tail = PREVIEW_FOOTER_SEP@ + t.slug + PREVIEW_TAIL@;
            &&& h.subrange(0, n as int) == PREVIEW_HEAD@
            &&& h.subrange(n as int, (n + t.name.len()) as int) == t.name
            &&& h.subrange(h.len() - tail.len() - t.category.len(), h.len() - tail.len()) == t.category
            &&& h.subrange(h.len() - tail.len(), h.len() as int) == tail
        }),
{
    let h = preview_spec(t);
    let n = PREVIEW_HEAD@.len();
    let tail = PREVIEW_FOOTER_SEP@ + t.slug + PREVIEW_TAIL@;
    let front = PREVIEW_HEAD@ + t.name + PREVIEW_AFTER_TITLE@ + t.name + PREVIEW_AFTER_BRAND@
        + t.category + PREVIEW_AFTER_KICKER@ + t.name + PREVIEW_AFTER_HEADLINE@ + t.slug
        + PREVIEW_AFTER_SLUG@;
    assert(h =~= front + t.category + tail);
    assert(h.subrange(0, n as int) =~= PREVIEW_HEAD@);
    assert(h.subrange(n as int, (n + t.name.len()) as int) =~= t.name);
    assert(h.subrange(h.len() - tail.len() - t.category.len(), h.len() - tail.len()) =~= t.category);
    assert(h.subrange(h.len() - tail.len(), h.len() as int) =~= tail);
}

} // verus!
