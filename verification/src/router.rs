use crate::error::DisplayableError;
use crate::route::Page;
use crate::route::PageRoute;
use crate::route::PageV;
use crate::route::RouteDescriptor;
use crate::route::RouteError;
use crate::route::canonical_page;
use crate::route::effective_parameter;
use crate::variant::TyV;
use crate::variant::Variant;
use crate::variant::VariantTy;
use crate::variant::VariantV;
use crate::variant::ty_is_void;
use crate::variant::ty_of;
use crate::variant::void_value;
use vstd::prelude::*;

verus! {

/// One registered navigation action of a router: everything an
/// activation needs, keyed by the action's name inside the router's
/// private namespace.
#[derive(Debug)]
pub struct RouteAction {
    /// The action name the route is activated under: `visit.<route>`.
    pub action: String,
    /// The route name itself.
    pub route: String,
    /// The declared parameter shape.
    pub parameter_type: VariantTy,
    /// Whether activation replaces the whole stack.
    pub top_level: bool,
    /// For a static route, the page built once at registration and
    /// reused for every later activation.
    pub captured: Option<Page>,
}

/// Mathematical model of a `RouteAction`.
#[verifier::ext_equal]
pub struct RouteActionV {
    pub action: Seq<char>,
    pub route: Seq<char>,
    pub parameter_type: TyV,
    pub top_level: bool,
    pub captured: Option<PageV>,
}

impl View for RouteAction {
    type V = RouteActionV;

    open spec fn view(&self) -> RouteActionV {
        RouteActionV {
            action: self.action@,
            route: self.route@,
            parameter_type: self.parameter_type@,
            top_level: self.top_level,
            captured: match self.captured {
                Some(p) => Some(p@),
                None => None,
            },
        }
    }
}

/// One named slot of the switcher surface, mirroring a top-level route.
#[derive(Debug)]
pub struct SwitcherSlot {
    /// The route name the slot mirrors.
    pub name: String,
    /// Human-readable slot title.
    pub title: String,
    /// Icon name shown beside the title.
    pub icon: String,
}

/// Mathematical model of a `SwitcherSlot`.
#[verifier::ext_equal]
pub struct SwitcherSlotV {
    pub name: Seq<char>,
    pub title: Seq<char>,
    pub icon: Seq<char>,
}

impl View for SwitcherSlot {
    type V = SwitcherSlotV;

    open spec fn view(&self) -> SwitcherSlotV {
        SwitcherSlotV { name: self.name@, title: self.title@, icon: self.icon@ }
    }
}

/// Mathematical model of a `Router`.
#[verifier::ext_equal]
pub struct RouterV {
    pub stack: Seq<PageV>,
    pub can_go_back: bool,
    pub actions: Seq<RouteActionV>,
    pub switcher: Seq<SwitcherSlotV>,
}

/// The views of a sequence of pages, element by element.
pub open spec fn page_views(ps: Seq<Page>) -> Seq<PageV> {
    ps.map_values(|p: Page| p@)
}

/// The views of a sequence of actions, element by element.
pub open spec fn action_views(a_s: Seq<RouteAction>) -> Seq<RouteActionV> {
    a_s.map_values(|a: RouteAction| a@)
}

/// The views of a sequence of switcher slots, element by element.
pub open spec fn slot_views(ss: Seq<SwitcherSlot>) -> Seq<SwitcherSlotV> {
    ss.map_values(|s: SwitcherSlot| s@)
}

/// The stack-based navigation router: a navigation stack whose top is
/// the visible page, the derived `can_go_back` flag, the registered
/// actions, and the switcher surface.  UI-thread-only by convention.
#[derive(Debug)]
pub struct Router {
    /// The navigation stack; the last page is the visible one.
    pub stack: Vec<Page>,
    /// Whether a page exists below the visible one.  Recomputed exactly
    /// once by every transition, before that transition returns.
    pub can_go_back: bool,
    /// The registered navigation actions, in registration order.
    pub actions: Vec<RouteAction>,
    /// The switcher surface: one named slot per main route.
    pub switcher: Vec<SwitcherSlot>,
}

impl View for Router {
    type V = RouterV;

    open spec fn view(&self) -> RouterV {
        RouterV {
            stack: page_views(self.stack@),
            can_go_back: self.can_go_back,
            actions: action_views(self.actions@),
            switcher: slot_views(self.switcher@),
        }
    }
}

/// The name a route's action is registered under, inside the router's
/// private action namespace.
pub open spec fn visit_action_name(route: Seq<char>) -> Seq<char> {
    "visit."@ + route
}

/// The first action registered under `name`, if any.  Names are unique
/// within one router, so the first match is the only one.
pub open spec fn find_action(actions: Seq<RouteActionV>, name: Seq<char>) -> Option<RouteActionV>
    decreases actions.len(),
{
    if actions.len() == 0 {
        None
    } else if actions[0].action == name {
        Some(actions[0])
    } else {
        find_action(actions.drop_first(), name)
    }
}

/// Whether some action is registered under `name`.
pub open spec fn has_action(actions: Seq<RouteActionV>, name: Seq<char>) -> bool {
    find_action(actions, name) is Some
}

/// Whether a supplied parameter fits an action: a void route takes no
/// parameter, any other route takes exactly one value of its declared
/// shape.  A mismatch is a contract violation, not a guarded case.
pub open spec fn parameter_matches(a: RouteActionV, parameter: Option<VariantV>) -> bool {
    if ty_is_void(a.parameter_type) {
        parameter is None
    } else {
        parameter matches Some(v) && ty_of(v) == a.parameter_type
    }
}

/// The page an activation of `a` shows: the captured page of a static
/// route, or a page built fresh from the supplied parameter.
pub open spec fn activation_page(a: RouteActionV, parameter: Option<VariantV>) -> PageV {
    match a.captured {
        Some(p) => p,
        None => canonical_page(a.route, effective_parameter(parameter)),
    }
}

/// One navigation transition.  A top-level action discards the whole
/// stack and replaces it with its one page; any other action pushes its
/// page on top.  `can_go_back` is recomputed from the new stack.
pub open spec fn spec_activate(
    r: RouterV,
    a: RouteActionV,
    parameter: Option<VariantV>,
) -> RouterV {
    let page = activation_page(a, parameter);
    let stack = if a.top_level {
        seq![page]
    } else {
        r.stack.push(page)
    };
    RouterV { stack, can_go_back: stack.len() > 1, ..r }
}

/// The `back` transition: pop the visible page when one exists below
/// it; at depth one or zero, do nothing.  (Leaving the last page in
/// place is this router's fixed policy for `back` at depth one.)
pub open spec fn spec_back(r: RouterV) -> RouterV {
    if r.stack.len() > 1 {
        RouterV {
            stack: r.stack.drop_last(),
            can_go_back: r.stack.drop_last().len() > 1,
            ..r
        }
    } else {
        r
    }
}

/// The error-display transition: the visible page is replaced by an
/// error page, leaving the depth unchanged; with an empty stack nothing
/// happens.
pub open spec fn spec_show_error(r: RouterV, title: Seq<char>, body: Seq<char>) -> RouterV {
    if r.stack.len() == 0 {
        r
    } else {
        RouterV {
            stack: r.stack.update(r.stack.len() - 1, PageV::Error { title, body }),
            ..r
        }
    }
}

/// The action entry that registering `desc` appends.
pub open spec fn action_of_descriptor(desc: crate::route::RouteDescriptorV) -> RouteActionV {
    RouteActionV {
        action: visit_action_name(desc.name),
        route: desc.name,
        parameter_type: desc.parameter_type,
        top_level: desc.top_level,
        captured: if desc.static_page {
            Some(canonical_page(desc.name, void_value()))
        } else {
            None
        },
    }
}

/// Well-formedness of one registered action: its name carries the
/// `visit.` prefix of its route, and a captured page exists only for a
/// void-parameter route and is the route's canonical void page.
pub open spec fn action_wf(a: RouteActionV) -> bool {
    &&& a.action == visit_action_name(a.route)
    &&& (a.captured matches Some(p) ==> p == canonical_page(a.route, void_value())
        && ty_is_void(a.parameter_type))
}

/// The router's invariant: `can_go_back` says whether a page exists
/// below the visible one, action names are unique, every action is
/// well formed, and every switcher slot mirrors a registered route.
pub open spec fn router_wf(r: RouterV) -> bool {
    &&& r.can_go_back == (r.stack.len() > 1)
    &&& forall|i: int, j: int|
        0 <= i < j < r.actions.len() ==> (#[trigger] r.actions[i]).action != (
        #[trigger] r.actions[j]).action
    &&& forall|i: int| 0 <= i < r.actions.len() ==> action_wf(#[trigger] r.actions[i])
    &&& forall|i: int|
        0 <= i < r.switcher.len() ==> has_action(
            r.actions,
            visit_action_name((#[trigger] r.switcher[i]).name),
        )
}

/// A router's initial state: empty stack, nothing registered, nothing
/// to go back to.
pub open spec fn router_init() -> RouterV {
    RouterV {
        stack: Seq::empty(),
        can_go_back: false,
        actions: Seq::empty(),
        switcher: Seq::empty(),
    }
}

/// `find_action` returns the entry at `k` when `k` is the first index
/// carrying `name`.
pub proof fn lemma_find_action_at(actions: Seq<RouteActionV>, name: Seq<char>, k: int)
    requires
        0 <= k < actions.len(),
        actions[k].action == name,
        forall|j: int| 0 <= j < k ==> (#[trigger] actions[j]).action != name,
    ensures
        find_action(actions, name) == Some(actions[k]),
    decreases k,
{
    if k > 0 {
        assert forall|j: int|
            0 <= j < k - 1 implies (#[trigger] actions.drop_first()[j]).action != name by {
            assert(actions[j + 1].action != name);
        }
        lemma_find_action_at(actions.drop_first(), name, k - 1);
    }
}

/// `find_action` fails when no entry carries `name`.
pub proof fn lemma_find_action_absent(actions: Seq<RouteActionV>, name: Seq<char>)
    requires
        forall|j: int| 0 <= j < actions.len() ==> (#[trigger] actions[j]).action != name,
    ensures
        find_action(actions, name) is None,
    decreases actions.len(),
{
    if actions.len() > 0 {
        assert forall|j: int|
            0 <= j < actions.drop_first().len() implies (
            #[trigger] actions.drop_first()[j]).action != name by {
            assert(actions[j + 1].action != name);
        }
        lemma_find_action_absent(actions.drop_first(), name);
    }
}

/// A found action is one of the entries.
pub proof fn lemma_find_action_member(actions: Seq<RouteActionV>, name: Seq<char>)
    requires
        find_action(actions, name) is Some,
    ensures
        exists|i: int|
            0 <= i < actions.len() && actions[i] == find_action(actions, name)->0
                && actions[i].action == name,
    decreases actions.len(),
{
    if actions.len() > 0 {
        if actions[0].action == name {
            assert(actions[0] == find_action(actions, name)->0);
        } else {
            lemma_find_action_member(actions.drop_first(), name);
            let i = choose|i: int|
                0 <= i < actions.drop_first().len() && actions.drop_first()[i] == find_action(
                    actions.drop_first(),
                    name,
                )->0 && actions.drop_first()[i].action == name;
            assert(actions[i + 1] == find_action(actions, name)->0);
        }
    }
}

/// An action is registered under `name` exactly when some entry carries
/// that name.
pub proof fn lemma_has_action_iff(actions: Seq<RouteActionV>, name: Seq<char>)
    ensures
        has_action(actions, name) <==> exists|i: int|
            0 <= i < actions.len() && (#[trigger] actions[i]).action == name,
    decreases actions.len(),
{
    if actions.len() > 0 {
        if actions[0].action == name {
        } else {
            lemma_has_action_iff(actions.drop_first(), name);
            if has_action(actions, name) {
                let i = choose|i: int|
                    0 <= i < actions.drop_first().len() && (
                    #[trigger] actions.drop_first()[i]).action == name;
                assert(actions[i + 1].action == name);
            } else if exists|i: int|
                0 <= i < actions.len() && (#[trigger] actions[i]).action == name {
                let i = choose|i: int|
                    0 <= i < actions.len() && (#[trigger] actions[i]).action == name;
                assert(actions.drop_first()[i - 1].action == name);
            }
        }
    }
}

/// Appending an entry under a fresh name leaves every other search
/// unchanged and makes the new entry findable under its name.
pub proof fn lemma_find_action_push(actions: Seq<RouteActionV>, a: RouteActionV)
    requires
        !has_action(actions, a.action),
    ensures
        find_action(actions.push(a), a.action) == Some(a),
        forall|n: Seq<char>|
            n != a.action ==> find_action(actions.push(a), n) == find_action(actions, n),
    decreases actions.len(),
{
    let pushed = actions.push(a);
    if actions.len() == 0 {
        assert(pushed[0] == a);
        assert(pushed.drop_first() =~= Seq::<RouteActionV>::empty());
        assert forall|n: Seq<char>| n != a.action implies find_action(pushed, n) == find_action(
            actions,
            n,
        ) by {
            assert(find_action(pushed.drop_first(), n) is None);
        }
    } else {
        assert(pushed[0] == actions[0]);
        assert(actions[0].action != a.action);
        lemma_find_action_push(actions.drop_first(), a);
        assert(pushed.drop_first() =~= actions.drop_first().push(a));
        assert forall|n: Seq<char>| n != a.action implies find_action(pushed, n) == find_action(
            actions,
            n,
        ) by {
            if actions[0].action != n {
                assert(find_action(pushed, n) == find_action(pushed.drop_first(), n));
                assert(find_action(actions, n) == find_action(actions.drop_first(), n));
            }
        }
    }
}

impl Router {
    /// A fresh router: empty stack, no registered routes, no switcher
    /// slots, nothing to go back to.
    pub fn new() -> (r: Router)
        ensures
            r@ == router_init(),
            router_wf(r@),
    {
        let r = Router {
            stack: Vec::new(),
            can_go_back: false,
            actions: Vec::new(),
            switcher: Vec::new(),
        };
        proof {
            assert(r@ =~= router_init());
        }
        r
    }

    /// The index of the action registered under `name`, searching in
    /// registration order.
    fn find_action_index(&self, name: &String) -> (r: Option<usize>)
        ensures
            match r {
                Some(i) => i < self.actions@.len() && find_action(self@.actions, name@) == Some(
                    self@.actions[i as int],
                ) && self@.actions[i as int].action == name@,
                None => find_action(self@.actions, name@) is None,
            },
    {
        let mut i: usize = 0;
        while i < self.actions.len()
            invariant
                i <= self.actions.len(),
                forall|j: int| 0 <= j < i ==> (#[trigger] self@.actions[j]).action != name@,
            decreases self.actions.len() - i,
        {
            if self.actions[i].action == *name {
                proof {
                    assert(self@.actions[i as int].action == name@);
                    lemma_find_action_at(self@.actions, name@, i as int);
                }
                return Some(i);
            }
            proof {
                assert(self@.actions[i as int].action != name@);
            }
            i = i + 1;
        }
        proof {
            lemma_find_action_absent(self@.actions, name@);
        }
        None
    }

    /// Registers the route described by `desc`.  The registration is
    /// refused when the route is static yet declares a non-void
    /// parameter, and when a route of the same name is already
    /// registered; otherwise the action `visit.<name>` is appended, and
    /// for a static route its page is built now and captured.  The
    /// navigation stack is never touched.
    pub fn add_route_with(&mut self, desc: RouteDescriptor) -> (r: Result<(), RouteError>)
        requires
            router_wf(old(self)@),
        ensures
            router_wf(final(self)@),
            r == Err::<(), RouteError>(RouteError::StaticRouteTakesParameter) <==> (
            desc@.static_page && !ty_is_void(desc@.parameter_type)),
            r == Err::<(), RouteError>(RouteError::DuplicateRoute) <==> (!(desc@.static_page
                && !ty_is_void(desc@.parameter_type)) && has_action(
                old(self)@.actions,
                visit_action_name(desc@.name),
            )),
            r is Ok <==> (!(desc@.static_page && !ty_is_void(desc@.parameter_type)) && !has_action(
                old(self)@.actions,
                visit_action_name(desc@.name),
            )),
            r is Err ==> final(self)@ == old(self)@,
            r is Ok ==> final(self)@ == (RouterV {
                actions: old(self)@.actions.push(action_of_descriptor(desc@)),
                ..old(self)@
            }),
    {
        let is_void = match &desc.parameter_type {
            VariantTy::Tuple(ts) => ts.len() == 0,
            VariantTy::Scalar(_) => false,
        };
        if desc.static_page && !is_void {
            return Err(RouteError::StaticRouteTakesParameter);
        }
        let action_name = action_name_for(&desc.name);
        if self.find_action_index(&action_name).is_some() {
            return Err(RouteError::DuplicateRoute);
        }
        let captured = if desc.static_page {
            Some(Page::for_route(clone_string(&desc.name), Variant::void()))
        } else {
            None
        };
        let entry = RouteAction {
            action: action_name,
            route: desc.name,
            parameter_type: desc.parameter_type,
            top_level: desc.top_level,
            captured,
        };
        proof {
            lemma_find_action_push(self@.actions, entry@);
        }
        self.actions.push(entry);
        proof {
            let prev = old(self)@;
            let now = self@;
            assert(now.actions =~= prev.actions.push(action_of_descriptor(desc@)));
            assert(now.stack =~= prev.stack);
            assert(now.switcher =~= prev.switcher);
            assert(now =~= (RouterV {
                actions: prev.actions.push(action_of_descriptor(desc@)),
                ..prev
            }));
            lemma_has_action_iff(prev.actions, action_of_descriptor(desc@).action);
            assert forall|i: int, j: int|
                0 <= i < j < now.actions.len() implies (#[trigger] now.actions[i]).action != (
                #[trigger] now.actions[j]).action by {
                if j < prev.actions.len() {
                } else {
                    assert(now.actions[i] == prev.actions[i]);
                    assert(now.actions[j] == action_of_descriptor(desc@));
                }
            }
            assert forall|i: int| 0 <= i < now.actions.len() implies action_wf(
                #[trigger] now.actions[i],
            ) by {
                if i < prev.actions.len() {
                    assert(now.actions[i] == prev.actions[i]);
                } else {
                    assert(now.actions[i] == action_of_descriptor(desc@));
                    assert(action_wf(action_of_descriptor(desc@)));
                }
            }
            assert forall|i: int|
                0 <= i < now.switcher.len() implies has_action(
                now.actions,
                visit_action_name((#[trigger] now.switcher[i]).name),
            ) by {
                assert(has_action(prev.actions, visit_action_name(prev.switcher[i].name)));
                if visit_action_name(prev.switcher[i].name) != action_of_descriptor(
                    desc@,
                ).action {
                } else {
                    lemma_find_action_member(prev.actions, visit_action_name(
                        prev.switcher[i].name,
                    ));
                }
            }
        }
        Ok(())
    }

    /// Registers the route of page type `R`.
    pub fn add_route<R: PageRoute>(&mut self) -> (r: Result<(), RouteError>)
        requires
            router_wf(old(self)@),
        ensures
            router_wf(final(self)@),
            r == Err::<(), RouteError>(RouteError::StaticRouteTakesParameter) <==> (
            R::static_spec() && !ty_is_void(R::parameter_type_spec())),
            r == Err::<(), RouteError>(RouteError::DuplicateRoute) <==> (!(R::static_spec()
                && !ty_is_void(R::parameter_type_spec())) && has_action(
                old(self)@.actions,
                visit_action_name(R::route_spec()),
            )),
            r is Ok <==> (!(R::static_spec() && !ty_is_void(R::parameter_type_spec()))
                && !has_action(old(self)@.actions, visit_action_name(R::route_spec()))),
            r is Err ==> final(self)@ == old(self)@,
            r is Ok ==> final(self)@ == (RouterV {
                actions: old(self)@.actions.push(
                    action_of_descriptor(
                        crate::route::RouteDescriptorV {
                            name: R::route_spec(),
                            parameter_type: R::parameter_type_spec(),
                            top_level: R::top_level_spec(),
                            static_page: R::static_spec(),
                        },
                    ),
                ),
                ..old(self)@
            }),
    {
        self.add_route_with(R::descriptor())
    }
}

/// The view of an optional encoded parameter.
pub open spec fn opt_variant_view(p: Option<Variant>) -> Option<VariantV> {
    match p {
        Some(v) => Some(v@),
        None => None,
    }
}

impl Router {
    /// Activates the action registered under `action` (normally
    /// `visit.<route>`), the untyped entry point for late-bound
    /// navigation such as deep links and switcher callbacks.  The caller
    /// guarantees that the action exists and that the encoded parameter
    /// fits its declared shape; a mismatch is a contract violation.
    /// Every navigation entry point converges on this one transition.
    pub fn visit_unsafe(&mut self, action: &str, parameter: Option<Variant>)
        requires
            router_wf(old(self)@),
            has_action(old(self)@.actions, action@),
            parameter_matches(
                find_action(old(self)@.actions, action@)->0,
                opt_variant_view(parameter),
            ),
        ensures
            router_wf(final(self)@),
            final(self)@ == spec_activate(
                old(self)@,
                find_action(old(self)@.actions, action@)->0,
                opt_variant_view(parameter),
            ),
    {
        let ghost a = find_action(old(self)@.actions, action@)->0;
        let ghost pv = opt_variant_view(parameter);
        let name = action.to_owned();
        let idx = self.find_action_index(&name);
        let i = idx.unwrap();
        let page = match &self.actions[i].captured {
            Some(p) => p.clone(),
            None => {
                let route = clone_string(&self.actions[i].route);
                let q = match parameter {
                    Some(v) => v,
                    None => Variant::void(),
                };
                Page::for_route(route, q)
            },
        };
        proof {
            assert(page@ == activation_page(a, pv));
        }
        if self.actions[i].top_level {
            let mut replaced: Vec<Page> = Vec::new();
            replaced.push(page);
            self.stack = replaced;
        } else {
            self.stack.push(page);
        }
        self.can_go_back = self.stack.len() > 1;
        proof {
            assert(self@.stack =~= spec_activate(old(self)@, a, pv).stack);
            assert(self@ =~= spec_activate(old(self)@, a, pv));
        }
    }

    /// Navigates to the route of page type `R`, the type-checked entry
    /// point.  Visiting a route that was never registered is a
    /// programmer error, so the caller must know it is registered.
    pub fn visit<R: PageRoute>(&mut self, parameter: Option<Variant>)
        requires
            router_wf(old(self)@),
            has_action(old(self)@.actions, visit_action_name(R::route_spec())),
            parameter_matches(
                find_action(old(self)@.actions, visit_action_name(R::route_spec()))->0,
                opt_variant_view(parameter),
            ),
        ensures
            router_wf(final(self)@),
            final(self)@ == spec_activate(
                old(self)@,
                find_action(old(self)@.actions, visit_action_name(R::route_spec()))->0,
                opt_variant_view(parameter),
            ),
    {
        let route = R::route();
        let action = action_name_for(&route);
        self.visit_unsafe(action.as_str(), parameter);
    }

    /// Registers the route described by `desc` and inserts a named slot
    /// for it into the switcher surface, so that selecting the slot
    /// mirrors visiting the route.  On a refused registration the
    /// switcher is left untouched as well.  Selection passes no
    /// parameter, so only a void-parameter route's slot can ever be
    /// selected (`switch_to` requires the void shape).
    pub fn add_main_route_with(&mut self, desc: RouteDescriptor, title: &str, icon: &str) -> (r:
        Result<(), RouteError>)
        requires
            router_wf(old(self)@),
        ensures
            router_wf(final(self)@),
            r == Err::<(), RouteError>(RouteError::StaticRouteTakesParameter) <==> (
            desc@.static_page && !ty_is_void(desc@.parameter_type)),
            r == Err::<(), RouteError>(RouteError::DuplicateRoute) <==> (!(desc@.static_page
                && !ty_is_void(desc@.parameter_type)) && has_action(
                old(self)@.actions,
                visit_action_name(desc@.name),
            )),
            r is Ok <==> (!(desc@.static_page && !ty_is_void(desc@.parameter_type)) && !has_action(
                old(self)@.actions,
                visit_action_name(desc@.name),
            )),
            r is Err ==> final(self)@ == old(self)@,
            r is Ok ==> final(self)@ == (RouterV {
                actions: old(self)@.actions.push(action_of_descriptor(desc@)),
                switcher: old(self)@.switcher.push(
                    SwitcherSlotV { name: desc@.name, title: title@, icon: icon@ },
                ),
                ..old(self)@
            }),
    {
        let slot_name = clone_string(&desc.name);
        let ghost entry = action_of_descriptor(desc@);
        let ghost mid = (RouterV { actions: old(self)@.actions.push(entry), ..old(self)@ });
        match self.add_route_with(desc) {
            Err(e) => Err(e),
            Ok(()) => {
                let slot = SwitcherSlot { name: slot_name, title: title.to_owned(), icon: icon.to_owned() };
                proof {
                    lemma_find_action_push(old(self)@.actions, entry);
                }
                self.switcher.push(slot);
                proof {
                    let now = self@;
                    assert(now.switcher =~= mid.switcher.push(slot@));
                    assert(now =~= (RouterV {
                        actions: old(self)@.actions.push(entry),
                        switcher: old(self)@.switcher.push(
                            SwitcherSlotV { name: desc@.name, title: title@, icon: icon@ },
                        ),
                        ..old(self)@
                    }));
                    assert forall|i: int|
                        0 <= i < now.switcher.len() implies has_action(
                        now.actions,
                        visit_action_name((#[trigger] now.switcher[i]).name),
                    ) by {
                        if i < mid.switcher.len() {
                            assert(now.switcher[i] == mid.switcher[i]);
                            assert(has_action(mid.actions, visit_action_name(mid.switcher[i].name)));
                        } else {
                            assert(now.switcher[i] == slot@);
                            assert(find_action(now.actions, entry.action) == Some(entry));
                        }
                    }
                }
                Ok(())
            },
        }
    }

    /// Registers the route of page type `R` as a main route with a
    /// switcher slot.
    pub fn add_main_route<R: PageRoute>(&mut self, title: &str, icon: &str) -> (r: Result<
        (),
        RouteError,
    >)
        requires
            router_wf(old(self)@),
        ensures
            router_wf(final(self)@),
            r == Err::<(), RouteError>(RouteError::StaticRouteTakesParameter) <==> (
            R::static_spec() && !ty_is_void(R::parameter_type_spec())),
            r == Err::<(), RouteError>(RouteError::DuplicateRoute) <==> (!(R::static_spec()
                && !ty_is_void(R::parameter_type_spec())) && has_action(
                old(self)@.actions,
                visit_action_name(R::route_spec()),
            )),
            r is Ok <==> (!(R::static_spec() && !ty_is_void(R::parameter_type_spec()))
                && !has_action(old(self)@.actions, visit_action_name(R::route_spec()))),
            r is Err ==> final(self)@ == old(self)@,
            r is Ok ==> final(self)@ == (RouterV {
                actions: old(self)@.actions.push(
                    action_of_descriptor(
                        crate::route::RouteDescriptorV {
                            name: R::route_spec(),
                            parameter_type: R::parameter_type_spec(),
                            top_level: R::top_level_spec(),
                            static_page: R::static_spec(),
                        },
                    ),
                ),
                switcher: old(self)@.switcher.push(
                    SwitcherSlotV { name: R::route_spec(), title: title@, icon: icon@ },
                ),
                ..old(self)@
            }),
    {
        self.add_main_route_with(R::descriptor(), title, icon)
    }

    /// Reacts to the switcher surface selecting the slot named `route`:
    /// exactly the same transition as activating the route's action with
    /// no parameter.  The selection callback runs once per user-driven
    /// change and navigation does not change the selection back, so no
    /// feedback loop arises.
    pub fn switch_to(&mut self, route: &str)
        requires
            router_wf(old(self)@),
            exists|i: int|
                0 <= i < old(self)@.switcher.len() && (#[trigger] old(self)@.switcher[i]).name
                    == route@,
            ty_is_void(
                (find_action(old(self)@.actions, visit_action_name(route@))->0).parameter_type,
            ),
        ensures
            router_wf(final(self)@),
            final(self)@ == spec_activate(
                old(self)@,
                find_action(old(self)@.actions, visit_action_name(route@))->0,
                None,
            ),
    {
        let name = route.to_owned();
        let action = action_name_for(&name);
        self.visit_unsafe(action.as_str(), None);
    }

    /// Navigates back: pops the visible page when a page exists below
    /// it.  At depth one or zero this is a no-op, the router's fixed
    /// policy for `back` on the last page.
    pub fn back(&mut self)
        requires
            router_wf(old(self)@),
        ensures
            router_wf(final(self)@),
            final(self)@ == spec_back(old(self)@),
    {
        if self.stack.len() > 1 {
            let _top = self.stack.pop();
            self.can_go_back = self.stack.len() > 1;
            proof {
                assert(self@.stack =~= spec_back(old(self)@).stack);
                assert(self@ =~= spec_back(old(self)@));
            }
        }
    }

    /// Shows a recoverable failure: the visible page is replaced by an
    /// error page carrying `title` and `body`, leaving the depth
    /// unchanged.  With an empty stack there is nothing to replace and
    /// nothing happens.
    pub fn show_error_message(&mut self, title: String, body: String)
        requires
            router_wf(old(self)@),
        ensures
            router_wf(final(self)@),
            final(self)@ == spec_show_error(old(self)@, title@, body@),
    {
        if self.stack.len() == 0 {
            return ;
        }
        let _top = self.stack.pop();
        self.stack.push(Page::Error { title, body });
        self.can_go_back = self.stack.len() > 1;
        proof {
            assert(self@.stack =~= spec_show_error(old(self)@, title@, body@).stack);
            assert(self@ =~= spec_show_error(old(self)@, title@, body@));
        }
    }

    /// Shows any displayable error as an error page, through
    /// `show_error_message`: the visible page is replaced by a page
    /// displaying exactly the error's own title and body, with the
    /// depth unchanged.  Never fatal, whatever the error value.
    pub fn show_error<E: DisplayableError>(&mut self, error: &E)
        requires
            router_wf(old(self)@),
        ensures
            router_wf(final(self)@),
            final(self)@ == spec_show_error(old(self)@, error.title_spec(), error.body_spec()),
    {
        let title = error.title();
        let body = error.body();
        self.show_error_message(title, body);
    }

    /// The number of pages on the navigation stack.
    pub fn depth(&self) -> (n: usize)
        ensures
            n == self@.stack.len(),
    {
        self.stack.len()
    }

    /// The visible page: the top of the stack, if any.
    pub fn top_page(&self) -> (p: Option<&Page>)
        ensures
            match p {
                Some(page) => self@.stack.len() > 0 && page@ == self@.stack.last(),
                None => self@.stack.len() == 0,
            },
    {
        if self.stack.len() == 0 {
            None
        } else {
            Some(&self.stack[self.stack.len() - 1])
        }
    }
}

/// A static route shows the very same page on every visit, whatever
/// parameters are supplied and whatever the prior navigation state.
pub proof fn lemma_static_route_page_stable(
    r1: RouterV,
    r2: RouterV,
    a: RouteActionV,
    p1: Option<VariantV>,
    p2: Option<VariantV>,
)
    requires
        a.captured is Some,
    ensures
        spec_activate(r1, a, p1).stack.last() == spec_activate(r2, a, p2).stack.last(),
{
}

/// Visiting a top-level route leaves the stack at depth exactly one,
/// irrespective of the prior depth, and nothing remains to go back to.
pub proof fn lemma_top_level_resets_depth(r: RouterV, a: RouteActionV, p: Option<VariantV>)
    requires
        a.top_level,
    ensures
        spec_activate(r, a, p).stack.len() == 1,
        !spec_activate(r, a, p).can_go_back,
{
}

/// Visiting a non-top-level route increases the depth by exactly one,
/// and `can_go_back` holds afterwards exactly when the new depth
/// exceeds one.
pub proof fn lemma_push_increases_depth(r: RouterV, a: RouteActionV, p: Option<VariantV>)
    requires
        !a.top_level,
    ensures
        spec_activate(r, a, p).stack.len() == r.stack.len() + 1,
        spec_activate(r, a, p).can_go_back <==> spec_activate(r, a, p).stack.len() > 1,
{
}

/// Registering a static route builds its page once, at registration:
/// the captured page is the route's canonical void page, and every
/// later activation of the route's action shows exactly that captured
/// page, whatever parameter accompanies the activation -- nothing is
/// built again.
pub proof fn lemma_static_registration_captures_once(
    r: RouterV,
    desc: crate::route::RouteDescriptorV,
    p: Option<VariantV>,
)
    requires
        desc.static_page,
        ty_is_void(desc.parameter_type),
        !has_action(r.actions, visit_action_name(desc.name)),
    ensures
        ({
            let registered = RouterV { actions: r.actions.push(action_of_descriptor(desc)), ..r };
            let name = visit_action_name(desc.name);
            &&& has_action(registered.actions, name)
            &&& (find_action(registered.actions, name)->0).captured == Some(
                canonical_page(desc.name, void_value()),
            )
            &&& spec_activate(registered, find_action(registered.actions, name)->0, p).stack.last()
                == canonical_page(desc.name, void_value())
        }),
{
    let entry = action_of_descriptor(desc);
    lemma_find_action_push(r.actions, entry);
    let registered = RouterV { actions: r.actions.push(entry), ..r };
    let found = find_action(registered.actions, visit_action_name(desc.name))->0;
    assert(found == entry);
    let page = activation_page(found, p);
    assert(page == canonical_page(desc.name, void_value()));
    if found.top_level {
        assert(spec_activate(registered, found, p).stack.last() == page);
    } else {
        assert(registered.stack.push(page).last() == page);
    }
}

/// Going back at depth above one removes exactly the visible page and
/// recomputes `can_go_back`; at depth one or zero the state is
/// unchanged.
pub proof fn lemma_back_pops_one(r: RouterV)
    ensures
        r.stack.len() > 1 ==> spec_back(r).stack == r.stack.drop_last() && spec_back(r).can_go_back
            == (spec_back(r).stack.len() > 1),
        r.stack.len() <= 1 ==> spec_back(r) == r,
{
}

/// The action name a route is registered under: `visit.<route>`.
fn action_name_for(route: &String) -> (r: String)
    ensures
        r@ == visit_action_name(route@),
{
    let prefix = String::from_str("visit.");
    prefix.concat(route.as_str())
}

/// A clone of a string, by view.
fn clone_string(s: &String) -> (r: String)
    ensures
        r@ == s@,
{
    s.clone()
}

} // verus!
