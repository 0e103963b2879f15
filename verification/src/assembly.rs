//! How the web application is assembled from its parts: which state is shared, which
//! fairings are attached and which route groups are mounted, for each run mode.

use vstd::prelude::*;

use crate::config::AppMode;

verus! {

/// A piece of shared state handed to the request handlers.
#[derive(Clone, Copy, Debug, PartialEq, Eq, Structural)]
pub enum Managed {
    Config,
    TokenStore,
    AuthService,
    UserService,
    /// A database connection supplied by the caller.
    Database,
}

/// A fairing (request/response or lifecycle hook).
#[derive(Clone, Copy, Debug, PartialEq, Eq, Structural)]
pub enum Fairing {
    SecurityHeaders,
    MethodOverride,
    /// Connects the database when the server ignites.
    ConnectDatabase,
    Templates,
    /// Logs the listening address on liftoff.
    Banner,
}

/// A group of routes, or a directory of static files, mounted under a base path.
#[derive(Clone, Copy, Debug, PartialEq, Eq, Structural)]
pub enum Mount {
    Health,
    AuthApi,
    AccessApi,
    Home,
    AccessWeb,
    BackendAssets,
    PublicAssets,
}

/// One step of the assembly, in the order in which it is applied.
#[derive(Clone, Copy, Debug, PartialEq, Eq, Structural)]
pub enum Step {
    Manage(Managed),
    Attach(Fairing),
    Mount(Mount),
}

/// The base path of each mount.
pub open spec fn base_path_spec(m: Mount) -> Seq<char> {
    match m {
        Mount::Health => "/"@,
        Mount::AuthApi => "/api/v1/auth"@,
        Mount::AccessApi => "/api/v1"@,
        Mount::Home => "/"@,
        Mount::AccessWeb => "/admin/v1"@,
        Mount::BackendAssets => "/be/default"@,
        Mount::PublicAssets => "/static"@,
    }
}

/// Whether a mount belongs to the server-rendered web layer.
pub open spec fn is_web_mount(m: Mount) -> bool {
    match m {
        Mount::Home | Mount::AccessWeb | Mount::BackendAssets | Mount::PublicAssets => true,
        _ => false,
    }
}

/// Whether a step belongs to the server-rendered web layer.
pub open spec fn is_web_step(s: Step) -> bool {
    match s {
        Step::Mount(m) => is_web_mount(m),
        Step::Attach(f) => f == Fairing::Templates,
        Step::Manage(_) => false,
    }
}

/// The steps every instance starts with: shared services, security fairings and the API.
pub open spec fn core_steps() -> Seq<Step> {
    seq![
        Step::Manage(Managed::Config),
        Step::Manage(Managed::TokenStore),
        Step::Manage(Managed::AuthService),
        Step::Manage(Managed::UserService),
        Step::Attach(Fairing::SecurityHeaders),
        Step::Attach(Fairing::MethodOverride),
        Step::Mount(Mount::Health),
        Step::Mount(Mount::AuthApi),
        Step::Mount(Mount::AccessApi),
    ]
}

/// The database step: a supplied connection is shared as-is, otherwise one is opened on ignite.
pub open spec fn database_step(db_supplied: bool) -> Step {
    if db_supplied {
        Step::Manage(Managed::Database)
    } else {
        Step::Attach(Fairing::ConnectDatabase)
    }
}

/// The web layer, added only in full mode.
pub open spec fn web_steps() -> Seq<Step> {
    seq![
        Step::Mount(Mount::Home),
        Step::Mount(Mount::AccessWeb),
        Step::Mount(Mount::BackendAssets),
        Step::Mount(Mount::PublicAssets),
        Step::Attach(Fairing::Templates),
    ]
}

/// The full assembly for a mode and for whether a database connection was supplied.
pub open spec fn plan_spec(mode: AppMode, db_supplied: bool) -> Seq<Step> {
    core_steps().push(database_step(db_supplied))
        + (if mode == AppMode::Full { web_steps() } else { Seq::empty() })
        + seq![Step::Attach(Fairing::Banner)]
}

impl Mount {
    /// The path under which this mount is served.
    pub fn base_path(&self) -> (p: &'static str)
        ensures
            p@ == base_path_spec(*self),
    {
        match self {
            Mount::Health => "/",
            Mount::AuthApi => "/api/v1/auth",
            Mount::AccessApi => "/api/v1",
            Mount::Home => "/",
            Mount::AccessWeb => "/admin/v1",
            Mount::BackendAssets => "/be/default",
            Mount::PublicAssets => "/static",
        }
    }

    /// For a static-file mount, the directory it serves and its route rank.
    pub fn static_dir(&self) -> (r: Option<(&'static str, i32)>)
        ensures
            *self == Mount::BackendAssets ==> (r matches Some((d, rank)) && d@ == "static/be/default"@
                && rank == 10),
            *self == Mount::PublicAssets ==> (r matches Some((d, rank)) && d@ == "static"@ && rank
                == 11),
            *self != Mount::BackendAssets && *self != Mount::PublicAssets ==> r is None,
    {
        match self {
            Mount::BackendAssets => Some(("static/be/default", 10)),
            Mount::PublicAssets => Some(("static", 11)),
            _ => None,
        }
    }
}

/// The ordered assembly steps of the application instance.
pub fn assembly_plan(mode: AppMode, db_supplied: bool) -> (plan: Vec<Step>)
    ensures
        plan@ == plan_spec(mode, db_supplied),
{
    let mut plan: Vec<Step> = Vec::new();
    plan.push(Step::Manage(Managed::Config));
    plan.push(Step::Manage(Managed::TokenStore));
    plan.push(Step::Manage(Managed::AuthService));
    plan.push(Step::Manage(Managed::UserService));
    plan.push(Step::Attach(Fairing::SecurityHeaders));
    plan.push(Step::Attach(Fairing::MethodOverride));
    plan.push(Step::Mount(Mount::Health));
    plan.push(Step::Mount(Mount::AuthApi));
    plan.push(Step::Mount(Mount::AccessApi));
    if db_supplied {
        plan.push(Step::Manage(Managed::Database));
    } else {
        plan.push(Step::Attach(Fairing::ConnectDatabase));
    }
    if mode == AppMode::Full {
        plan.push(Step::Mount(Mount::Home));
        plan.push(Step::Mount(Mount::AccessWeb));
        plan.push(Step::Mount(Mount::BackendAssets));
        plan.push(Step::Mount(Mount::PublicAssets));
        plan.push(Step::Attach(Fairing::Templates));
    }
    plan.push(Step::Attach(Fairing::Banner));
    plan
}

/// The body of the health endpoint.
pub fn healthz() -> (body: &'static str)
    ensures
        body@ == "ok"@,
{
    "ok"
}

/// The health endpoint is mounted whatever the mode and however the database is provided.
pub proof fn lemma_health_always_mounted(mode: AppMode, db_supplied: bool)
    ensures
        plan_spec(mode, db_supplied).contains(Step::Mount(Mount::Health)),
{
    assert(plan_spec(mode, db_supplied)[6] == Step::Mount(Mount::Health));
}

/// An API-only instance mounts nothing of the server-rendered web layer.
pub proof fn lemma_api_mode_has_no_web_layer(db_supplied: bool)
    ensures
        forall|i: int|
            0 <= i < plan_spec(AppMode::Api, db_supplied).len() ==> !is_web_step(
                #[trigger] plan_spec(AppMode::Api, db_supplied)[i],
            ),
{
    let p = plan_spec(AppMode::Api, db_supplied);
    assert(p =~= core_steps().push(database_step(db_supplied)).push(Step::Attach(Fairing::Banner)));
}

/// The web layer is purely additive: the full instance is the API-only instance with the web
/// steps inserted just before the final banner, and nothing else changes.
pub proof fn lemma_web_layer_is_additive(db_supplied: bool)
    ensures
        ({
            let api = plan_spec(AppMode::Api, db_supplied);
            let full = plan_spec(AppMode::Full, db_supplied);
            full =~= api.drop_last() + web_steps() + seq![api.last()]
        }),
        forall|i: int|
            0 <= i < web_steps().len() ==> is_web_step(#[trigger] web_steps()[i]),
{
    let api = plan_spec(AppMode::Api, db_supplied);
    assert(api =~= core_steps().push(database_step(db_supplied)).push(Step::Attach(Fairing::Banner)));
    assert(api.drop_last() =~= core_steps().push(database_step(db_supplied)));
}

/// The database is provided exactly one way: shared when supplied, connected on ignite when not.
pub proof fn lemma_database_provided_once(mode: AppMode, db_supplied: bool)
    ensures
        plan_spec(mode, db_supplied).contains(Step::Manage(Managed::Database)) == db_supplied,
        plan_spec(mode, db_supplied).contains(Step::Attach(Fairing::ConnectDatabase)) == !db_supplied,
{
    let p = plan_spec(mode, db_supplied);
    assert(p[9] == database_step(db_supplied));
    if db_supplied {
        assert(!p.contains(Step::Attach(Fairing::ConnectDatabase))) by {
            if p.contains(Step::Attach(Fairing::ConnectDatabase)) {
                let i = choose|i: int| 0 <= i < p.len() && p[i] == Step::Attach(Fairing::ConnectDatabase);
                assert(false);
            }
        }
    } else {
        assert(!p.contains(Step::Manage(Managed::Database))) by {
            if p.contains(Step::Manage(Managed::Database)) {
                let i = choose|i: int| 0 <= i < p.len() && p[i] == Step::Manage(Managed::Database);
                assert(false);
            }
        }
    }
}

} // verus!
