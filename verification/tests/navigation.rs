use rose::Page;
use rose::PageRoute;
use rose::RouteDescriptor;
use rose::Scalar;
use rose::ScalarTy;
use rose::Variant;
use rose::VariantTy;
use rose::TyV;
use rose::back;
use rose::init;
use rose::visit;
use vstd::prelude::Seq;

struct HomeRoute;

// The `*_spec` members are the ghost half of the route contract; they are
// erased from every compiled call path and these bodies never run.
impl PageRoute for HomeRoute {
    fn route_spec() -> Seq<char> {
        panic!()
    }

    fn parameter_type_spec() -> TyV {
        panic!()
    }

    fn top_level_spec() -> bool {
        panic!()
    }

    fn static_spec() -> bool {
        panic!()
    }

    fn route() -> String {
        "home".to_string()
    }

    fn parameter_type() -> VariantTy {
        VariantTy::Tuple(vec![])
    }

    fn is_top_level() -> bool {
        true
    }

    fn is_static() -> bool {
        true
    }
}

struct ProfileDetailRoute;

impl PageRoute for ProfileDetailRoute {
    fn route_spec() -> Seq<char> {
        panic!()
    }

    fn parameter_type_spec() -> TyV {
        panic!()
    }

    fn top_level_spec() -> bool {
        panic!()
    }

    fn static_spec() -> bool {
        panic!()
    }

    fn route() -> String {
        "profile.detail".to_string()
    }

    fn parameter_type() -> VariantTy {
        VariantTy::Tuple(vec![ScalarTy::Unsigned])
    }

    fn is_top_level() -> bool {
        false
    }

    fn is_static() -> bool {
        false
    }
}

fn profile_parameter(id: u64) -> Variant {
    Variant::Tuple(vec![Scalar::Unsigned(id)])
}

#[test]
fn descriptor_reflects_the_trait() {
    let d: RouteDescriptor = HomeRoute::descriptor();
    assert_eq!(d.name, "home");
    assert!(d.top_level);
    assert!(d.static_page);
    let d = ProfileDetailRoute::descriptor();
    assert_eq!(d.name, "profile.detail");
    assert!(!d.top_level);
    assert!(!d.static_page);
}

#[test]
fn build_page_wraps_the_parameter_under_the_route_name() {
    let p = ProfileDetailRoute::build_page(Some(profile_parameter(7)));
    assert_eq!(
        p,
        Page::Route { name: "profile.detail".to_string(), parameter: profile_parameter(7) }
    );
    let p = HomeRoute::build_page(None);
    assert_eq!(
        p,
        Page::Route { name: "home".to_string(), parameter: Variant::Tuple(vec![]) }
    );
}

#[test]
fn end_to_end_navigation() {
    let mut app = init();
    assert!(app.has_router());

    {
        let router = app.router.as_mut().unwrap();
        router.add_route::<HomeRoute>().unwrap();
        router.add_route::<ProfileDetailRoute>().unwrap();
    }

    visit::<HomeRoute>(&mut app, None);
    {
        let router = app.router.as_ref().unwrap();
        assert_eq!(router.depth(), 1);
        assert!(!router.can_go_back);
        assert_eq!(
            router.top_page().unwrap(),
            &Page::Route { name: "home".to_string(), parameter: Variant::Tuple(vec![]) }
        );
    }

    visit::<ProfileDetailRoute>(&mut app, Some(profile_parameter(42)));
    {
        let router = app.router.as_ref().unwrap();
        assert_eq!(router.depth(), 2);
        assert!(router.can_go_back);
        assert_eq!(
            router.stack[0],
            Page::Route { name: "home".to_string(), parameter: Variant::Tuple(vec![]) }
        );
        assert_eq!(
            router.stack[1],
            Page::Route { name: "profile.detail".to_string(), parameter: profile_parameter(42) }
        );
    }

    back(&mut app);
    {
        let router = app.router.as_ref().unwrap();
        assert_eq!(router.depth(), 1);
        assert!(!router.can_go_back);
        assert_eq!(
            router.top_page().unwrap(),
            &Page::Route { name: "home".to_string(), parameter: Variant::Tuple(vec![]) }
        );
    }
}

#[test]
fn typed_visits_reuse_the_static_home_page() {
    let mut app = init();
    {
        let router = app.router.as_mut().unwrap();
        router.add_route::<HomeRoute>().unwrap();
        router.add_route::<ProfileDetailRoute>().unwrap();
    }
    visit::<HomeRoute>(&mut app, None);
    let first = app.router.as_ref().unwrap().top_page().unwrap().clone();
    visit::<ProfileDetailRoute>(&mut app, Some(profile_parameter(1)));
    visit::<HomeRoute>(&mut app, None);
    let second = app.router.as_ref().unwrap().top_page().unwrap().clone();
    assert_eq!(first, second);
}
