use rose::DisplayableError;
use rose::Page;
use rose::RouteDescriptor;
use rose::RouteError;
use rose::Router;
use rose::Scalar;
use rose::ScalarTy;
use rose::Variant;
use rose::VariantTy;
use vstd::prelude::Seq;

fn void_ty() -> VariantTy {
    VariantTy::Tuple(vec![])
}

fn home_descriptor() -> RouteDescriptor {
    RouteDescriptor {
        name: "home".to_string(),
        parameter_type: void_ty(),
        top_level: true,
        static_page: true,
    }
}

fn profile_descriptor() -> RouteDescriptor {
    RouteDescriptor {
        name: "profile.detail".to_string(),
        parameter_type: VariantTy::Tuple(vec![ScalarTy::Unsigned]),
        top_level: false,
        static_page: false,
    }
}

fn settings_descriptor() -> RouteDescriptor {
    RouteDescriptor {
        name: "settings".to_string(),
        parameter_type: void_ty(),
        top_level: false,
        static_page: false,
    }
}

fn profile_parameter(id: u64) -> Variant {
    Variant::Tuple(vec![Scalar::Unsigned(id)])
}

#[test]
fn new_router_is_empty() {
    let router = Router::new();
    assert_eq!(router.depth(), 0);
    assert!(!router.can_go_back);
    assert!(router.top_page().is_none());
}

#[test]
fn duplicate_route_is_rejected() {
    let mut router = Router::new();
    assert_eq!(router.add_route_with(home_descriptor()), Ok(()));
    assert_eq!(router.add_route_with(home_descriptor()), Err(RouteError::DuplicateRoute));
}

#[test]
fn static_route_with_parameter_is_rejected() {
    let mut router = Router::new();
    let contradictory = RouteDescriptor {
        name: "broken".to_string(),
        parameter_type: VariantTy::Tuple(vec![ScalarTy::Unsigned]),
        top_level: false,
        static_page: true,
    };
    assert_eq!(
        router.add_route_with(contradictory),
        Err(RouteError::StaticRouteTakesParameter)
    );
    // Nothing was registered by the refused call.
    assert_eq!(router.depth(), 0);
}

#[test]
fn static_route_shows_the_same_page_on_every_visit() {
    let mut router = Router::new();
    router.add_route_with(home_descriptor()).unwrap();
    router.add_route_with(profile_descriptor()).unwrap();

    router.visit_unsafe("visit.home", None);
    let first = router.top_page().unwrap().clone();

    router
        .visit_unsafe("visit.profile.detail", Some(profile_parameter(9)));
    router.visit_unsafe("visit.home", None);
    let second = router.top_page().unwrap().clone();

    assert_eq!(first, second);
    assert_eq!(
        first,
        Page::Route { name: "home".to_string(), parameter: Variant::Tuple(vec![]) }
    );
}

#[test]
fn top_level_visit_resets_depth_to_one() {
    let mut router = Router::new();
    router.add_route_with(home_descriptor()).unwrap();
    router.add_route_with(profile_descriptor()).unwrap();
    router.add_route_with(settings_descriptor()).unwrap();

    router.visit_unsafe("visit.home", None);
    router.visit_unsafe("visit.profile.detail", Some(profile_parameter(1)));
    router.visit_unsafe("visit.settings", None);
    assert_eq!(router.depth(), 3);

    router.visit_unsafe("visit.home", None);
    assert_eq!(router.depth(), 1);
    assert!(!router.can_go_back);
}

#[test]
fn non_top_level_visit_pushes_one_page() {
    let mut router = Router::new();
    router.add_route_with(home_descriptor()).unwrap();
    router.add_route_with(profile_descriptor()).unwrap();

    router.visit_unsafe("visit.home", None);
    assert_eq!(router.depth(), 1);
    assert!(!router.can_go_back);

    router.visit_unsafe("visit.profile.detail", Some(profile_parameter(2)));
    assert_eq!(router.depth(), 2);
    assert!(router.can_go_back);

    router.visit_unsafe("visit.profile.detail", Some(profile_parameter(3)));
    assert_eq!(router.depth(), 3);
    assert!(router.can_go_back);
}

#[test]
fn back_pops_one_page_and_is_a_no_op_on_the_last() {
    let mut router = Router::new();
    router.add_route_with(home_descriptor()).unwrap();
    router.add_route_with(profile_descriptor()).unwrap();

    router.visit_unsafe("visit.home", None);
    router.visit_unsafe("visit.profile.detail", Some(profile_parameter(4)));
    assert_eq!(router.depth(), 2);

    router.back();
    assert_eq!(router.depth(), 1);
    assert!(!router.can_go_back);

    // The fixed policy: `back` on the last page changes nothing.
    router.back();
    assert_eq!(router.depth(), 1);
    assert!(!router.can_go_back);
    assert_eq!(
        router.top_page().unwrap(),
        &Page::Route { name: "home".to_string(), parameter: Variant::Tuple(vec![]) }
    );
}

struct BrokenLink;

// The `*_spec` members are the ghost half of the error contract; they
// are erased from every compiled call path and these bodies never run.
impl DisplayableError for BrokenLink {
    fn title_spec(&self) -> Seq<char> {
        panic!()
    }

    fn body_spec(&self) -> Seq<char> {
        panic!()
    }

    fn title(&self) -> String {
        "Not found".to_string()
    }

    fn body(&self) -> String {
        "The link points nowhere.".to_string()
    }
}

#[test]
fn show_error_replaces_the_visible_page() {
    let mut router = Router::new();
    router.add_route_with(home_descriptor()).unwrap();
    router.add_route_with(profile_descriptor()).unwrap();

    router.visit_unsafe("visit.home", None);
    router.visit_unsafe("visit.profile.detail", Some(profile_parameter(5)));
    assert_eq!(router.depth(), 2);

    router.show_error(&BrokenLink);
    assert_eq!(router.depth(), 2);
    assert!(router.can_go_back);
    assert_eq!(
        router.top_page().unwrap(),
        &Page::Error {
            title: "Not found".to_string(),
            body: "The link points nowhere.".to_string(),
        }
    );

    // Below the error page the previous page is untouched.
    router.back();
    assert_eq!(
        router.top_page().unwrap(),
        &Page::Route { name: "home".to_string(), parameter: Variant::Tuple(vec![]) }
    );
}

#[test]
fn show_error_on_a_single_page_keeps_depth_one() {
    let mut router = Router::new();
    router.add_route_with(home_descriptor()).unwrap();
    router.visit_unsafe("visit.home", None);

    router.show_error_message("Oops".to_string(), "It broke.".to_string());
    assert_eq!(router.depth(), 1);
    assert!(!router.can_go_back);
    assert_eq!(
        router.top_page().unwrap(),
        &Page::Error { title: "Oops".to_string(), body: "It broke.".to_string() }
    );
}

#[test]
fn show_error_on_an_empty_stack_does_nothing() {
    let mut router = Router::new();
    router.show_error_message("Oops".to_string(), "It broke.".to_string());
    assert_eq!(router.depth(), 0);
    assert!(router.top_page().is_none());
}

#[test]
fn switcher_selection_mirrors_a_plain_visit() {
    let mut visited = Router::new();
    visited.add_main_route_with(home_descriptor(), "Home", "go-home").unwrap();
    visited.add_route_with(profile_descriptor()).unwrap();
    let mut switched = Router::new();
    switched.add_main_route_with(home_descriptor(), "Home", "go-home").unwrap();
    switched.add_route_with(profile_descriptor()).unwrap();

    visited.visit_unsafe("visit.profile.detail", Some(profile_parameter(6)));
    switched.visit_unsafe("visit.profile.detail", Some(profile_parameter(6)));

    visited.visit_unsafe("visit.home", None);
    switched.switch_to("home");

    assert_eq!(visited.depth(), switched.depth());
    assert_eq!(visited.can_go_back, switched.can_go_back);
    assert_eq!(visited.top_page(), switched.top_page());
}

#[test]
fn main_route_registers_a_switcher_slot() {
    let mut router = Router::new();
    router.add_main_route_with(home_descriptor(), "Home", "go-home").unwrap();
    assert_eq!(router.switcher.len(), 1);
    assert_eq!(router.switcher[0].name, "home");
    assert_eq!(router.switcher[0].title, "Home");
    assert_eq!(router.switcher[0].icon, "go-home");

    // A refused registration adds no slot either.
    let r = router.add_main_route_with(home_descriptor(), "Home", "go-home");
    assert_eq!(r, Err(RouteError::DuplicateRoute));
    assert_eq!(router.switcher.len(), 1);
}
