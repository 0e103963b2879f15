use rustadmin::config::fe_templates::{is_valid_slug, FeTemplate};
use rustadmin::errors::ErrorKind;
use rustadmin::helpers::pagination::{page_window, PageParams, PaginationMeta};
use rustadmin::modules::home::services::{
    generated_preview, matches_field, retain_matching, FeCatalogService, IFeCatalogService, SearchField,
};

fn tpl(slug: &str, name: &str, category: &str) -> FeTemplate {
    FeTemplate { slug: slug.to_string(), name: name.to_string(), category: category.to_string() }
}

fn service(n: usize) -> FeCatalogService {
    let mut list = Vec::new();
    for i in 0..n {
        let cat = if i % 2 == 0 { "Landing" } else { "Dashboard" };
        list.push(tpl(&format!("tpl-{i}"), &format!("Template {i}"), cat));
    }
    FeCatalogService::new(list, "default".to_string())
}

fn slugs(v: &[FeTemplate]) -> Vec<String> {
    v.iter().map(|t| t.slug.clone()).collect()
}

#[test]
fn catalog_pins_active_template_first() {
    let svc = service(4);
    let c = svc.catalog("tpl-2");
    assert_eq!(slugs(&c), vec!["tpl-2", "tpl-0", "tpl-1", "tpl-3"]);
}

#[test]
fn catalog_unchanged_for_unknown_active() {
    let svc = service(3);
    assert_eq!(slugs(&svc.catalog("nope")), vec!["tpl-0", "tpl-1", "tpl-2"]);
}

#[test]
fn catalog_is_a_reordering() {
    let svc = service(7);
    let mut a = slugs(&svc.catalog("tpl-5"));
    let mut b = slugs(&svc.catalog("zzz"));
    a.sort();
    b.sort();
    assert_eq!(a, b);
}

#[test]
fn paginate_first_page_of_twelve() {
    let svc = service(30);
    let p = svc.paginate(None, None, None, "tpl-20");
    assert_eq!(p.rows.len(), 12);
    assert_eq!(p.rows[0].slug, "tpl-20");
    assert_eq!(p.meta.total, 30);
    assert_eq!(p.meta.page, 1);
    assert_eq!(p.meta.total_pages, 3);
    assert_eq!(p.meta.per_page, 12);
    assert_eq!(p.pages, vec![Some(1), Some(2), Some(3)]);
}

#[test]
fn paginate_last_page_is_partial() {
    let svc = service(30);
    let p = svc.paginate(None, None, Some(3), "none");
    assert_eq!(slugs(&p.rows), (24..30).map(|i| format!("tpl-{i}")).collect::<Vec<_>>());
}

#[test]
fn paginate_clamps_page_past_the_end() {
    let svc = service(13);
    let p = svc.paginate(None, None, Some(99), "none");
    assert_eq!(p.meta.page, 2);
    assert_eq!(slugs(&p.rows), vec!["tpl-12"]);
    let p0 = svc.paginate(None, None, Some(0), "none");
    assert_eq!(p0.meta.page, 1);
}

#[test]
fn paginate_searches_names_case_insensitively() {
    let svc = service(12);
    let p = svc.paginate(Some("TEMPLATE 1"), None, None, "none");
    assert_eq!(slugs(&p.rows), vec!["tpl-1", "tpl-10", "tpl-11"]);
}

#[test]
fn paginate_searches_slugs() {
    let svc = service(12);
    let p = svc.paginate(Some("tpl-3"), None, None, "none");
    assert_eq!(slugs(&p.rows), vec!["tpl-3"]);
}

#[test]
fn paginate_filters_by_category() {
    let svc = service(6);
    let p = svc.paginate(None, Some("dash"), None, "none");
    assert_eq!(slugs(&p.rows), vec!["tpl-1", "tpl-3", "tpl-5"]);
    for t in &p.rows {
        assert_eq!(t.category, "Dashboard");
    }
}

#[test]
fn paginate_ignores_blank_queries() {
    let svc = service(5);
    let p = svc.paginate(Some("   "), Some("\t"), None, "none");
    assert_eq!(p.meta.total, 5);
}

#[test]
fn paginate_empty_result_has_one_page() {
    let svc = service(5);
    let p = svc.paginate(Some("nothing-like-this"), None, Some(4), "none");
    assert_eq!(p.meta.total, 0);
    assert_eq!(p.meta.total_pages, 1);
    assert_eq!(p.meta.page, 1);
    assert!(p.rows.is_empty());
    assert_eq!(p.pages, vec![Some(1)]);
}

#[test]
fn slug_validity() {
    assert!(is_valid_slug("saas-landing-2"));
    assert!(!is_valid_slug(""));
    assert!(!is_valid_slug("../etc/passwd"));
    assert!(!is_valid_slug("Upper"));
    assert!(!is_valid_slug("a.b"));
    assert!(!is_valid_slug("http://x"));
}

#[test]
fn preview_of_valid_slug() {
    let svc = service(2);
    let html = svc.preview_html("tpl-1").unwrap();
    assert!(html.starts_with("<!doctype html>"));
    assert!(html.contains("<title>tpl-1</title>"));
    assert!(html.contains("Beautiful tpl-1"));
    assert!(html.contains("preview (tpl-1)."));
    assert!(html.contains("Template · tpl-1</footer>"));
    let t = FeTemplate::from_slug("tpl-1").unwrap();
    assert_eq!(html, generated_preview(&t));
}

#[test]
fn preview_of_invalid_slug_is_refused() {
    let svc = service(2);
    let e = svc.preview_html("../secret").unwrap_err();
    assert_eq!(e.kind, ErrorKind::BadRequest);
    assert_eq!(e.message(), "Unknown template");
    assert_eq!(e.status(), 400);
}

#[test]
fn known_slugs() {
    let svc = FeCatalogService::new(vec![tpl("Curated_One", "C", "X")], "Default.Tpl".to_string());
    assert!(svc.known("Default.Tpl"));
    assert!(svc.known("Curated_One"));
    assert!(!svc.known("any-valid-slug"));
    assert!(!svc.known("Not Valid"));
}

#[test]
fn generated_preview_exact_text() {
    let t = tpl("s", "N", "C");
    let html = generated_preview(&t);
    let expected = format!(
        r##"<!doctype html><html lang="en"><head><meta charset="utf-8">
<meta name="viewport" content="width=device-width,initial-scale=1">
<meta name="color-scheme" content="light">
<title>{name}</title><script src="https://cdn.tailwindcss.com"></script></head>
<body class="bg-white text-slate-800">
  <header class="px-8 py-5 flex items-center justify-between border-b">
    <span class="font-bold text-lg text-indigo-600">{name}</span>
    <nav class="space-x-6 text-sm text-slate-600"><a>Home</a><a>About</a><a>Services</a><a>Contact</a></nav>
  </header>
  <section class="px-8 py-20 text-center bg-gradient-to-b from-indigo-50 to-white">
    <p class="uppercase tracking-widest text-indigo-500 text-xs font-semibold">{category}</p>
    <h1 class="text-4xl md:text-5xl font-extrabold mt-3">Beautiful {name}</h1>
    <p class="text-slate-500 mt-4 max-w-xl mx-auto">A self-contained opentailwind template preview ({slug}).</p>
    <button class="mt-6 px-6 py-3 rounded-lg bg-indigo-600 text-white font-medium">Get Started</button>
  </section>
  <section class="px-8 py-16 grid md:grid-cols-3 gap-6 max-w-5xl mx-auto">
    <div class="p-6 rounded-2xl border"><h3 class="font-bold">Fast</h3><p class="text-slate-500 text-sm mt-2">Lightweight and quick.</p></div>
    <div class="p-6 rounded-2xl border"><h3 class="font-bold">Responsive</h3><p class="text-slate-500 text-sm mt-2">Looks great anywhere.</p></div>
    <div class="p-6 rounded-2xl border"><h3 class="font-bold">Themed</h3><p class="text-slate-500 text-sm mt-2">Tailwind-powered design.</p></div>
  </section>
  <footer class="px-8 py-8 text-center text-slate-400 text-sm border-t">{category} · {slug}</footer>
</body></html>"##,
        name = "N",
        category = "C",
        slug = "s",
    );
    assert_eq!(html, expected);
}

#[test]
fn page_params_defaults() {
    let p = PageParams::new(None, None, 12);
    assert_eq!((p.page, p.per_page), (1, 12));
    let p = PageParams::new(Some(0), Some(0), 7);
    assert_eq!((p.page, p.per_page), (1, 7));
    let p = PageParams::new(Some(4), Some(5), 7);
    assert_eq!((p.page, p.per_page), (4, 5));
}

#[test]
fn pagination_meta_counts_pages() {
    let m = PaginationMeta::new(25, PageParams::new(Some(2), Some(12), 12));
    assert_eq!((m.total, m.per_page, m.page, m.total_pages), (25, 12, 2, 3));
    let m = PaginationMeta::new(24, PageParams::new(Some(9), Some(12), 12));
    assert_eq!((m.page, m.total_pages), (2, 2));
    let m = PaginationMeta::new(0, PageParams::new(Some(3), Some(12), 12));
    assert_eq!((m.page, m.total_pages), (1, 1));
}

#[test]
fn page_window_shapes() {
    assert_eq!(page_window(1, 1), vec![Some(1)]);
    assert_eq!(page_window(1, 2), vec![Some(1), Some(2)]);
    assert_eq!(page_window(1, 10), vec![Some(1), Some(2), Some(3), None, Some(10)]);
    assert_eq!(
        page_window(5, 10),
        vec![Some(1), None, Some(3), Some(4), Some(5), Some(6), Some(7), None, Some(10)]
    );
    assert_eq!(page_window(10, 10), vec![Some(1), None, Some(8), Some(9), Some(10)]);
    assert_eq!(page_window(4, 7), vec![Some(1), Some(2), Some(3), Some(4), Some(5), Some(6), Some(7)]);
}

#[test]
fn page_window_links_current_first_and_last() {
    for total in 1..30u64 {
        for cur in 1..=total {
            let w = page_window(cur, total);
            assert_eq!(w[0], Some(1));
            assert_eq!(*w.last().unwrap(), Some(total));
            assert!(w.contains(&Some(cur)));
            let pages: Vec<u64> = w.iter().flatten().copied().collect();
            assert!(pages.windows(2).all(|p| p[0] < p[1]));
            assert!(w.windows(2).all(|p| !(p[0].is_none() && p[1].is_none())));
        }
    }
}

#[test]
fn active_template_leads_first_page_of_a_search() {
    let svc = service(30);
    let p = svc.paginate(Some("Template 2"), None, None, "tpl-21");
    assert_eq!(p.rows[0].slug, "tpl-21");
    assert_eq!(slugs(&p.rows), vec!["tpl-21", "tpl-2", "tpl-20", "tpl-22", "tpl-23", "tpl-24", "tpl-25", "tpl-26", "tpl-27", "tpl-28", "tpl-29"]);
}

#[test]
fn every_entry_is_on_its_page() {
    let svc = service(40);
    let all = svc.catalog("none");
    for (i, t) in all.iter().enumerate() {
        let page = (i / 12 + 1) as u64;
        let p = svc.paginate(None, None, Some(page), "none");
        assert_eq!(p.rows[i % 12].slug, t.slug);
    }
}

#[test]
fn preview_refuses_valid_slug_outside_catalog() {
    let svc = service(2);
    let e = svc.preview_html("not-in-catalog").unwrap_err();
    assert_eq!(e.kind, ErrorKind::BadRequest);
    assert_eq!(e.message(), "Unknown template");
    let empty = FeCatalogService::new(Vec::new(), "default".to_string());
    assert!(empty.preview_html("some-slug").is_err());
    assert!(empty.preview_html("default").is_ok());
}

#[test]
fn pages_together_give_the_search_result() {
    let svc = service(40);
    for q in [None, Some("template 1"), Some("TPL")] {
        let first = svc.paginate(q, None, Some(1), "tpl-7");
        let mut all: Vec<String> = Vec::new();
        for p in 1..=first.meta.total_pages {
            all.extend(slugs(&svc.paginate(q, None, Some(p), "tpl-7").rows));
        }
        assert_eq!(all.len() as u64, first.meta.total);
        let mut expected = svc.catalog("tpl-7");
        if let Some(t) = q {
            let t = t.to_lowercase();
            expected.retain(|x| x.name.to_lowercase().contains(&t) || x.slug.contains(&t));
        }
        assert_eq!(all, slugs(&expected));
    }
}

#[test]
fn search_ignores_query_case() {
    let svc = service(15);
    let a = svc.paginate(Some("Template 1"), Some("LANDING"), None, "none");
    let b = svc.paginate(Some("tEMPLATE 1"), Some("landing"), None, "none");
    assert_eq!(slugs(&a.rows), slugs(&b.rows));
    assert_eq!(slugs(&a.rows), vec!["tpl-10", "tpl-12", "tpl-14"]);
}

#[test]
fn field_matching_lowercases_unicode_names() {
    let t = tpl("ecole", "École Pro", "ÉDUCATION");
    assert!(matches_field(&t, "école", SearchField::Name));
    assert!(matches_field(&t, "eco", SearchField::Name));
    assert!(!matches_field(&t, "École", SearchField::Name));
    assert!(matches_field(&t, "éduc", SearchField::Category));
    assert!(!matches_field(&t, "pro", SearchField::Category));
    let list = vec![t, tpl("shop", "Boutique", "Commerce")];
    let kept = retain_matching(&list, "boutique", SearchField::Name);
    assert_eq!(slugs(&kept), vec!["shop"]);
    let kept = retain_matching(&list, "e", SearchField::Category);
    assert_eq!(slugs(&kept), vec!["shop"]);
}
