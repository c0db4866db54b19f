//! Non-visual machinery of an application composition layer: a typed
//! dependency registry, a stack-based navigation router driven by named
//! actions, and a cross-thread asynchronous execution bridge.  Exactly one
//! thread (the UI thread) may touch the shared mutable state modelled
//! here; cross-thread data flow goes through the channel types alone.

mod application;
mod channel;
mod error;
mod functions;
mod mailbox;
mod registry;
mod route;
mod router;
mod spawn;
mod variant;

pub use application::Application;
pub use application::ApplicationV;
pub use application::app_wf;
pub use channel::Channel;
pub use channel::Received;
pub use channel::Receiver;
pub use channel::Sender;
pub use error::DisplayableError;
pub use functions::add_dependency;
pub use functions::back;
pub use functions::get_dependency;
pub use functions::init;
pub use functions::show_error_page;
pub use functions::visit;
pub use mailbox::ChannelClosed;
pub use mailbox::Mailbox;
pub use mailbox::enqueue_all;
pub use mailbox::lemma_enqueue_all_appends;
pub use registry::DependencyEntry;
pub use registry::Registry;
pub use registry::RegistryError;
pub use registry::lemma_get_after_add;
pub use registry::lemma_lookup_has;
pub use registry::registry_has;
pub use registry::registry_lookup;
pub use registry::registry_wf;
pub use route::Page;
pub use route::PageRoute;
pub use route::PageV;
pub use route::RouteDescriptor;
pub use route::RouteDescriptorV;
pub use route::RouteError;
pub use route::canonical_page;
pub use route::effective_parameter;
pub use router::RouteAction;
pub use router::RouteActionV;
pub use router::Router;
pub use router::RouterV;
pub use router::SwitcherSlot;
pub use router::SwitcherSlotV;
pub use router::action_of_descriptor;
pub use router::activation_page;
pub use router::find_action;
pub use router::has_action;
pub use router::lemma_back_pops_one;
pub use router::lemma_push_increases_depth;
pub use router::lemma_static_registration_captures_once;
pub use router::lemma_static_route_page_stable;
pub use router::lemma_top_level_resets_depth;
pub use router::opt_variant_view;
pub use router::parameter_matches;
pub use router::router_init;
pub use router::router_wf;
pub use router::spec_activate;
pub use router::spec_back;
pub use router::spec_show_error;
pub use router::visit_action_name;
pub use spawn::Completion;
pub use spawn::can_deliver;
pub use spawn::lemma_deliver_at_most_once;
pub use variant::IsVariantTyVoidExt;
pub use variant::Scalar;
pub use variant::ScalarTy;
pub use variant::ScalarV;
pub use variant::TyV;
pub use variant::Variant;
pub use variant::VariantTy;
pub use variant::VariantV;
pub use variant::scalar_ty_of;
pub use variant::ty_is_void;
pub use variant::ty_of;
pub use variant::void_value;
