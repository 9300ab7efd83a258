//! Hierarchical navigation state for nested views: each nesting level maps
//! its parent's location down to its own, and lifts navigation requests back
//! up to the root, where a single navigator applies them.

mod navigator;
mod query;
mod router;
mod scope;
mod target;
mod users;

pub use navigator::{location_of, Navigator};
pub use query::{pair_views, url_query_of};
pub use scope::{lemma_lift_composes, lemma_nested_well_formed, lemma_root_delivers_unchanged, lemma_two_levels_fold, RootScope, Scope, ScopeContext};
pub use target::{apply, is_function, lemma_apply, ChangeTargetArgs, Mapper};
pub use router::{child_active, lemma_active_maps_down, lemma_inactive_propagates, derive_active, derive_context, Published, RouterContext, ScopeNode};
pub use users::{open_user_tab, to_users, user_of, RootTarget};
