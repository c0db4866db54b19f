use crate::application::Application;
use crate::application::ApplicationV;
use crate::application::app_wf;
use crate::error::DisplayableError;
use crate::registry::DependencyEntry;
use crate::registry::RegistryError;
use crate::registry::registry_has;
use crate::registry::registry_lookup;
use crate::route::PageRoute;
use crate::router::Router;
use crate::router::find_action;
use crate::router::has_action;
use crate::router::opt_variant_view;
use crate::router::parameter_matches;
use crate::router::router_init;
use crate::router::spec_activate;
use crate::router::spec_back;
use crate::router::spec_show_error;
use crate::router::visit_action_name;
use crate::variant::Variant;
use vstd::prelude::*;

verus! {

/// Initializes the composition layer: a fresh application context in
/// which a new router has installed itself as the discoverable
/// instance.
pub fn init() -> (app: Application)
    ensures
        app_wf(app@),
        app@.registry =~= Seq::empty(),
        app@.router == Some(router_init()),
{
    let mut app = Application::new();
    let _leftover = app.install_router(Router::new());
    app
}

/// Navigates the application's discoverable router to the route of page
/// type `R`.  The route must be registered and the parameter must fit
/// its declared shape; violations are programmer errors.
pub fn visit<R: PageRoute>(app: &mut Application, parameter: Option<Variant>)
    requires
        app_wf(old(app)@),
        old(app)@.router matches Some(r) && has_action(
            r.actions,
            visit_action_name(R::route_spec()),
        ) && parameter_matches(
            find_action(r.actions, visit_action_name(R::route_spec()))->0,
            opt_variant_view(parameter),
        ),
    ensures
        app_wf(final(app)@),
        final(app)@ == (ApplicationV {
            router: Some(
                spec_activate(
                    old(app)@.router->0,
                    find_action(
                        (old(app)@.router->0).actions,
                        visit_action_name(R::route_spec()),
                    )->0,
                    opt_variant_view(parameter),
                ),
            ),
            ..old(app)@
        }),
{
    let taken = app.router.take();
    let mut router = taken.unwrap();
    router.visit::<R>(parameter);
    app.router = Some(router);
    proof {
        assert(app@ =~= (ApplicationV {
            router: Some(
                spec_activate(
                    old(app)@.router->0,
                    find_action(
                        (old(app)@.router->0).actions,
                        visit_action_name(R::route_spec()),
                    )->0,
                    opt_variant_view(parameter),
                ),
            ),
            ..old(app)@
        }));
    }
}

/// Navigates the application's discoverable router one page back.
pub fn back(app: &mut Application)
    requires
        app_wf(old(app)@),
        old(app)@.router is Some,
    ensures
        app_wf(final(app)@),
        final(app)@ == (ApplicationV {
            router: Some(spec_back(old(app)@.router->0)),
            ..old(app)@
        }),
{
    let taken = app.router.take();
    let mut router = taken.unwrap();
    router.back();
    app.router = Some(router);
    proof {
        assert(app@ =~= (ApplicationV {
            router: Some(spec_back(old(app)@.router->0)),
            ..old(app)@
        }));
    }
}

/// Shows a recoverable failure on the application's discoverable
/// router: the visible page is replaced by an error page displaying
/// exactly the error's own title and body, with the depth unchanged.
/// Never fatal, whatever the error value.
pub fn show_error_page<E: DisplayableError>(app: &mut Application, error: &E)
    requires
        app_wf(old(app)@),
        old(app)@.router is Some,
    ensures
        app_wf(final(app)@),
        final(app)@ == (ApplicationV {
            router: Some(
                spec_show_error(old(app)@.router->0, error.title_spec(), error.body_spec()),
            ),
            ..old(app)@
        }),
{
    let taken = app.router.take();
    let mut router = taken.unwrap();
    router.show_error(error);
    app.router = Some(router);
    proof {
        assert(app@ =~= (ApplicationV {
            router: Some(
                spec_show_error(old(app)@.router->0, error.title_spec(), error.body_spec()),
            ),
            ..old(app)@
        }));
    }
}

/// The dependency registered under the type tag `tag` in the
/// application's registry.
pub fn get_dependency(app: &Application, tag: u64) -> (r: u64)
    requires
        registry_has(app@.registry, tag),
    ensures
        Some(r) == registry_lookup(app@.registry, tag),
{
    app.get_dependency(tag)
}

/// Registers `handle` under the type tag `tag` in the application's
/// registry.
pub fn add_dependency(app: &mut Application, tag: u64, handle: u64) -> (r: Result<
    (),
    RegistryError,
>)
    requires
        app_wf(old(app)@),
    ensures
        app_wf(final(app)@),
        r is Err <==> registry_has(old(app)@.registry, tag),
        r is Err ==> final(app)@ == old(app)@,
        r is Ok ==> final(app)@ == (ApplicationV {
            registry: old(app)@.registry.push(DependencyEntry { tag, handle }),
            ..old(app)@
        }),
        r is Ok ==> registry_lookup(final(app)@.registry, tag) == Some(handle),
{
    app.add_dependency(tag, handle)
}

} // verus!
