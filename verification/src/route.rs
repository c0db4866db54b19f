use crate::variant::TyV;
use crate::variant::Variant;
use crate::variant::VariantTy;
use crate::variant::VariantV;
use crate::variant::void_value;
use vstd::prelude::*;

verus! {

/// The per-route contract, as plain data: a unique dot-namespaced name,
/// the declared parameter shape, and the two navigation-policy flags.
#[derive(Debug)]
pub struct RouteDescriptor {
    /// Unique dot-namespaced route name, such as `profile.detail`.
    pub name: String,
    /// Shape of the parameter the route's page is built from.
    pub parameter_type: VariantTy,
    /// A top-level route replaces the whole navigation stack; any other
    /// route pushes its page on top.
    pub top_level: bool,
    /// A static route's page is built once, at registration, and reused
    /// for every later visit.
    pub static_page: bool,
}

/// Mathematical model of a `RouteDescriptor`.
#[verifier::ext_equal]
pub struct RouteDescriptorV {
    pub name: Seq<char>,
    pub parameter_type: TyV,
    pub top_level: bool,
    pub static_page: bool,
}

impl View for RouteDescriptor {
    type V = RouteDescriptorV;

    open spec fn view(&self) -> RouteDescriptorV {
        RouteDescriptorV {
            name: self.name@,
            parameter_type: self.parameter_type@,
            top_level: self.top_level,
            static_page: self.static_page,
        }
    }
}

/// Why a route registration was refused.
#[derive(Debug, Clone, Copy, PartialEq, Eq, Structural)]
pub enum RouteError {
    /// A route of the same name is already registered with this router.
    DuplicateRoute,
    /// The route is static yet declares a non-void parameter: its page
    /// would be built once and every supplied parameter silently
    /// discarded, so the combination is rejected.
    StaticRouteTakesParameter,
}

/// One page of the navigation stack: either the page of a visited route,
/// or an error page shown for a recoverable failure.
#[derive(Debug, PartialEq, Eq)]
pub enum Page {
    Route { name: String, parameter: Variant },
    Error { title: String, body: String },
}

/// Mathematical model of a `Page`.
#[verifier::ext_equal]
pub enum PageV {
    Route { name: Seq<char>, parameter: VariantV },
    Error { title: Seq<char>, body: Seq<char> },
}

impl View for Page {
    type V = PageV;

    open spec fn view(&self) -> PageV {
        match self {
            Page::Route { name, parameter } => PageV::Route {
                name: name@,
                parameter: parameter@,
            },
            Page::Error { title, body } => PageV::Error { title: title@, body: body@ },
        }
    }
}

impl Clone for Page {
    fn clone(&self) -> (r: Self)
        ensures
            r@ == self@,
    {
        match self {
            Page::Route { name, parameter } => Page::Route {
                name: name.clone(),
                parameter: parameter.clone(),
            },
            Page::Error { title, body } => Page::Error {
                title: title.clone(),
                body: body.clone(),
            },
        }
    }
}

/// The page a route activation shows by default: the route's name as the
/// title of a navigable page holding the decoded parameter.
pub open spec fn canonical_page(route: Seq<char>, parameter: VariantV) -> PageV {
    PageV::Route { name: route, parameter }
}

impl Page {
    /// Builds the default page for visiting `name` with `parameter`.
    pub fn for_route(name: String, parameter: Variant) -> (p: Page)
        ensures
            p@ == canonical_page(name@, parameter@),
    {
        Page::Route { name, parameter }
    }
}

/// The parameter a page is built from: the supplied value, or the void
/// value when none was supplied.
pub open spec fn effective_parameter(parameter: Option<VariantV>) -> VariantV {
    match parameter {
        Some(v) => v,
        None => void_value(),
    }
}

/// The compile-time contract a page type implements to become a route.
/// The spec functions pin the route's data down so that the router's
/// contracts can speak about it; each executable method must return
/// exactly that data.
pub trait PageRoute {
    /// The route name, as a mathematical value.
    spec fn route_spec() -> Seq<char>;

    /// The declared parameter shape, as a mathematical value.
    spec fn parameter_type_spec() -> TyV;

    /// Whether the route is top-level, as a mathematical value.
    spec fn top_level_spec() -> bool;

    /// Whether the route is static, as a mathematical value.
    spec fn static_spec() -> bool;

    /// The unique dot-namespaced name this route is visited under.
    fn route() -> (r: String)
        ensures
            r@ == Self::route_spec(),
    ;

    /// The shape of the parameter the page is built from; declare the
    /// void shape for a route that takes none.
    fn parameter_type() -> (t: VariantTy)
        ensures
            t@ == Self::parameter_type_spec(),
    ;

    /// Whether visiting this route replaces the whole stack.  (The
    /// route contract cannot supply a shared default body here: each
    /// implementor fixes `top_level_spec`, and only a body written
    /// beside that choice can be proved to return it.)
    fn is_top_level() -> (b: bool)
        ensures
            b == Self::top_level_spec(),
    ;

    /// Whether the page is built once at registration and reused.
    fn is_static() -> (b: bool)
        ensures
            b == Self::static_spec(),
    ;

    /// The route's contract as plain data.
    fn descriptor() -> (d: RouteDescriptor)
        ensures
            d@ == (RouteDescriptorV {
                name: Self::route_spec(),
                parameter_type: Self::parameter_type_spec(),
                top_level: Self::top_level_spec(),
                static_page: Self::static_spec(),
            }),
    {
        RouteDescriptor {
            name: Self::route(),
            parameter_type: Self::parameter_type(),
            top_level: Self::is_top_level(),
            static_page: Self::is_static(),
        }
    }

    /// Builds the page shown when this route is visited: a titled
    /// navigable page around the decoded parameter.
    fn build_page(parameter: Option<Variant>) -> (p: Page)
        ensures
            p@ == canonical_page(
                Self::route_spec(),
                effective_parameter(
                    match parameter {
                        Some(v) => Some(v@),
                        None => None,
                    },
                ),
            ),
    {
        let q = match parameter {
            Some(v) => v,
            None => Variant::void(),
        };
        Page::for_route(Self::route(), q)
    }
}

} // verus!
