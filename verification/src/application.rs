use crate::registry::DependencyEntry;
use crate::registry::Registry;
use crate::registry::RegistryError;
use crate::registry::registry_has;
use crate::registry::registry_lookup;
use crate::registry::registry_wf;
use crate::router::Router;
use crate::router::RouterV;
use crate::router::router_wf;
use vstd::prelude::*;

verus! {

/// The application singleton, modelled as an explicit context struct:
/// it owns the process-wide dependency registry and, once one has
/// installed itself, the discoverable router.  One instance exists for
/// the process lifetime and is touched by the UI thread alone.
#[derive(Debug)]
pub struct Application {
    /// The process-wide dependency registry.
    pub registry: Registry,
    /// The discoverable router, once one has installed itself.
    pub router: Option<Router>,
}

/// Mathematical model of an `Application`.
#[verifier::ext_equal]
pub struct ApplicationV {
    pub registry: Seq<DependencyEntry>,
    pub router: Option<RouterV>,
}

impl View for Application {
    type V = ApplicationV;

    open spec fn view(&self) -> ApplicationV {
        ApplicationV {
            registry: self.registry.entries@,
            router: match self.router {
                Some(r) => Some(r@),
                None => None,
            },
        }
    }
}

/// The application's invariant: its registry and its router, if any,
/// are well formed.
pub open spec fn app_wf(a: ApplicationV) -> bool {
    &&& registry_wf(a.registry)
    &&& (a.router matches Some(r) ==> router_wf(r))
}

impl Application {
    /// A fresh application context: empty registry, no router yet.
    pub fn new() -> (a: Application)
        ensures
            a@.registry =~= Seq::<DependencyEntry>::empty(),
            a@.router is None,
            app_wf(a@),
    {
        Application { registry: Registry::new(), router: None }
    }

    /// The self-registration a router performs on construction: install
    /// `router` as the discoverable instance if none is installed yet.
    /// A later router is handed back unchanged; it still works, but is
    /// not auto-discoverable.
    pub fn install_router(&mut self, router: Router) -> (r: Option<Router>)
        requires
            app_wf(old(self)@),
            router_wf(router@),
        ensures
            app_wf(final(self)@),
            old(self)@.router is None ==> final(self)@ == (ApplicationV {
                router: Some(router@),
                ..old(self)@
            }) && r is None,
            old(self)@.router is Some ==> final(self)@ == old(self)@ && (r matches Some(h) && h@
                == router@),
    {
        if self.router.is_none() {
            self.router = Some(router);
            proof {
                assert(self@ =~= (ApplicationV { router: Some(router@), ..old(self)@ }));
            }
            None
        } else {
            Some(router)
        }
    }

    /// Whether a discoverable router is installed.
    pub fn has_router(&self) -> (b: bool)
        ensures
            b == (self@.router is Some),
    {
        self.router.is_some()
    }

    /// Registers `handle` under the type tag `tag`.  Registering a
    /// second dependency of one concrete type fails; the failure is a
    /// programmer error that callers treat as fatal.
    pub fn add_dependency(&mut self, tag: u64, handle: u64) -> (r: Result<(), RegistryError>)
        requires
            app_wf(old(self)@),
        ensures
            app_wf(final(self)@),
            r is Err <==> registry_has(old(self)@.registry, tag),
            r is Err ==> final(self)@ == old(self)@,
            r is Ok ==> final(self)@ == (ApplicationV {
                registry: old(self)@.registry.push(DependencyEntry { tag, handle }),
                ..old(self)@
            }),
            r is Ok ==> registry_lookup(final(self)@.registry, tag) == Some(handle),
    {
        let r = self.registry.add(tag, handle);
        proof {
            if r is Ok {
                assert(self@ =~= (ApplicationV {
                    registry: old(self)@.registry.push(DependencyEntry { tag, handle }),
                    ..old(self)@
                }));
            } else {
                assert(self@ =~= old(self)@);
            }
        }
        r
    }

    /// The handle registered under `tag`.  Asking for a type that was
    /// never registered is a programmer error, so the caller must know
    /// the entry is present.
    pub fn get_dependency(&self, tag: u64) -> (r: u64)
        requires
            registry_has(self@.registry, tag),
        ensures
            Some(r) == registry_lookup(self@.registry, tag),
    {
        self.registry.get(tag)
    }

    /// The handle registered under `tag`, or `None`.  Never fails.
    pub fn try_get_dependency(&self, tag: u64) -> (r: Option<u64>)
        ensures
            r == registry_lookup(self@.registry, tag),
            r is Some <==> registry_has(self@.registry, tag),
    {
        self.registry.try_get(tag)
    }

    /// Whether a dependency of the type tagged `tag` is registered.
    pub fn has_dependency(&self, tag: u64) -> (b: bool)
        ensures
            b == registry_has(self@.registry, tag),
    {
        self.registry.has(tag)
    }
}

} // verus!
