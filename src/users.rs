use vstd::prelude::*;
use crate::navigator::Navigator;
use crate::query::{encode_query, pair_views, url_query_of};
use gloo_history::HistoryError;
use crate::router::{derive_context, RouterContext};
use crate::scope::{lemma_lift_composes, lemma_nested_well_formed, lemma_root_delivers_unchanged, RootScope, Scope};
use crate::target::{ChangeTargetArgs, Mapper};

verus! {

/// Locations of a two-level application: the home page, or the page of one
/// user, below which each user has a level of its own.
#[derive(Clone, Copy, Debug, PartialEq, Eq, Structural)]
pub enum RootTarget {
    Home,
    Users(u64),
}

/// The user level's location under a root location: the user's id on a
/// user's page, none on the home page.
pub fn user_of(parent: &RootTarget) -> (r: Option<u64>)
    ensures
        r == (match *parent {
            RootTarget::Users(id) => Some(id),
            RootTarget::Home => None,
        }),
{
    match parent {
        RootTarget::Users(id) => Some(*id),
        RootTarget::Home => None,
    }
}

/// A user-level intent as a root-level one: the user's page, with the query
/// kept.
pub fn to_users(child: ChangeTargetArgs<u64>) -> (r: ChangeTargetArgs<RootTarget>)
    ensures
        r == (ChangeTargetArgs { target: RootTarget::Users(child.target), query: child.query }),
{
    ChangeTargetArgs { target: RootTarget::Users(child.target), query: child.query }
}

/// Derives the user level under `root` and opens the tab `tab` of user `id`
/// from there, whether or not the user level is active. Returns the user
/// level's active location.
pub fn open_user_tab<F: Fn(&RootTarget) -> String>(
    root: &RouterContext<RootTarget, RootScope>,
    nav: &mut Navigator<RootTarget, F>,
    id: u64,
    tab: String,
) -> (active: Option<u64>)
    requires
        old(nav).well_formed(),
    ensures
        active == (match root.active_target {
            Some(RootTarget::Users(i)) => Some(i),
            _ => None,
        }),
        final(nav).base == old(nav).base,
        final(nav).path == old(nav).path,
        exists|q: String| #![trigger q@] {
            let lifted = ChangeTargetArgs { target: RootTarget::Users(id), query: Some(q) };
            &&& q@ == url_query_of(seq![("tab"@, tab@)])
            &&& final(nav).location@ == old(nav).location_spec(lifted)
            &&& final(nav).applied@ == old(nav).applied@.push(lifted)
        },
{
    let mapper = Mapper { downwards: user_of, upwards: to_users };
    let mut query: Vec<(String, String)> = Vec::new();
    query.push(("tab".to_owned(), tab));
    proof {
        reveal_strlit("tab");
        assert(pair_views(query@) =~= seq![("tab"@, tab@)]);
    }
    let encoded = encode_query(&query);
    let q = match encoded {
        Ok(q) => q,
        Err(_) => String::new(),
    };
    // The intent that reaches the root, computed once through the mapper.
    let lifted = mapper.up(ChangeTargetArgs { target: id, query: Some(q.clone()) });
    let child = derive_context(root, mapper);
    proof {
        lemma_nested_well_formed::<RootTarget, u64, RootTarget, RootScope, _>(child.scope);
        let a = ChangeTargetArgs { target: id, query: Some(q) };
        lemma_lift_composes::<RootTarget, u64, RootTarget, RootScope, _>(child.scope, a);
        lemma_root_delivers_unchanged(lifted);
    }
    let _ = child.scope.push_encoded(nav, id, Ok::<String, HistoryError>(q));
    child.active_target
}

} // verus!
