use rustadmin::assembly::{assembly_plan, healthz, Fairing, Managed, Mount, Step};
use rustadmin::config::{app_mode_from, AppMode};
use rustadmin::migrations::m0008_add_missing_columns::{needs_column, pending_additions, probe_query};

fn core_steps() -> Vec<Step> {
    vec![
        Step::Manage(Managed::Config),
        Step::Manage(Managed::TokenStore),
        Step::Manage(Managed::AuthService),
        Step::Manage(Managed::UserService),
        Step::Attach(Fairing::SecurityHeaders),
        Step::Attach(Fairing::MethodOverride),
        Step::Mount(Mount::Health),
        Step::Mount(Mount::AuthApi),
        Step::Mount(Mount::AccessApi),
    ]
}

#[test]
fn api_mode_with_supplied_database() {
    let mut expected = core_steps();
    expected.push(Step::Manage(Managed::Database));
    expected.push(Step::Attach(Fairing::Banner));
    assert_eq!(assembly_plan(AppMode::Api, true), expected);
}

#[test]
fn full_mode_connects_database_on_ignite() {
    let mut expected = core_steps();
    expected.push(Step::Attach(Fairing::ConnectDatabase));
    expected.push(Step::Mount(Mount::Home));
    expected.push(Step::Mount(Mount::AccessWeb));
    expected.push(Step::Mount(Mount::BackendAssets));
    expected.push(Step::Mount(Mount::PublicAssets));
    expected.push(Step::Attach(Fairing::Templates));
    expected.push(Step::Attach(Fairing::Banner));
    assert_eq!(assembly_plan(AppMode::Full, false), expected);
}

#[test]
fn health_is_mounted_in_every_mode() {
    for mode in [AppMode::Full, AppMode::Api] {
        for db in [true, false] {
            assert!(assembly_plan(mode, db).contains(&Step::Mount(Mount::Health)));
        }
    }
    assert_eq!(healthz(), "ok");
}

#[test]
fn web_layer_is_purely_additive() {
    for db in [true, false] {
        let api = assembly_plan(AppMode::Api, db);
        let full = assembly_plan(AppMode::Full, db);
        let web: Vec<Step> = full.iter().copied().filter(|s| !api.contains(s)).collect();
        assert_eq!(web.len(), 5);
        let rest: Vec<Step> = full.iter().copied().filter(|s| api.contains(s)).collect();
        assert_eq!(rest, api);
        assert!(!api.contains(&Step::Attach(Fairing::Templates)));
        assert!(!api.contains(&Step::Mount(Mount::AccessWeb)));
    }
}

#[test]
fn database_is_provided_exactly_once() {
    for mode in [AppMode::Full, AppMode::Api] {
        let with = assembly_plan(mode, true);
        assert!(with.contains(&Step::Manage(Managed::Database)));
        assert!(!with.contains(&Step::Attach(Fairing::ConnectDatabase)));
        let without = assembly_plan(mode, false);
        assert!(!without.contains(&Step::Manage(Managed::Database)));
        assert!(without.contains(&Step::Attach(Fairing::ConnectDatabase)));
    }
}

#[test]
fn mount_paths_and_static_directories() {
    assert_eq!(Mount::Health.base_path(), "/");
    assert_eq!(Mount::AuthApi.base_path(), "/api/v1/auth");
    assert_eq!(Mount::AccessApi.base_path(), "/api/v1");
    assert_eq!(Mount::Home.base_path(), "/");
    assert_eq!(Mount::AccessWeb.base_path(), "/admin/v1");
    assert_eq!(Mount::BackendAssets.base_path(), "/be/default");
    assert_eq!(Mount::PublicAssets.base_path(), "/static");
    assert_eq!(Mount::BackendAssets.static_dir(), Some(("static/be/default", 10)));
    assert_eq!(Mount::PublicAssets.static_dir(), Some(("static", 11)));
    assert_eq!(Mount::Home.static_dir(), None);
}

#[test]
fn migration_adds_the_two_missing_columns() {
    let adds = pending_additions();
    assert_eq!(adds.len(), 2);
    assert_eq!(adds[0].table, "roles");
    assert_eq!(adds[0].column, "guard_name");
    assert_eq!(adds[0].max_len, Some(20));
    assert_eq!(adds[0].default_value, Some("web"));
    assert_eq!(adds[1].table, "settings");
    assert_eq!(adds[1].column, "favicon");
    assert_eq!(adds[1].max_len, Some(255));
    assert_eq!(adds[1].default_value, None);
}

#[test]
fn migration_probe_queries() {
    assert_eq!(
        probe_query("roles", "guard_name"),
        "SELECT COUNT(*) FROM pragma_table_info('roles') WHERE name='guard_name'"
    );
    assert_eq!(
        probe_query("settings", "favicon"),
        "SELECT COUNT(*) FROM pragma_table_info('settings') WHERE name='favicon'"
    );
}

#[test]
fn migration_adds_only_missing_columns() {
    assert!(needs_column(Some(0)));
    assert!(needs_column(None));
    assert!(!needs_column(Some(1)));
    assert!(!needs_column(Some(2)));
}

#[test]
fn app_mode_from_setting() {
    assert_eq!(app_mode_from(Some("api")), AppMode::Api);
    assert_eq!(app_mode_from(Some("full")), AppMode::Full);
    assert_eq!(app_mode_from(Some("API")), AppMode::Full);
    assert_eq!(app_mode_from(Some("")), AppMode::Full);
    assert_eq!(app_mode_from(None), AppMode::Full);
}
