use vstd::prelude::*;
use vstd::laws_eq::obeys_concrete_eq;
use crate::scope::ScopeContext;
use crate::target::{apply, ChangeTargetArgs, Mapper};

verus! {

/// What one level publishes to its subtree: the base path, the composed path
/// up to the root, and the location that is active at this level, if any.
pub struct RouterContext<T, S> {
    pub base: String,
    pub scope: S,
    pub active_target: Option<T>,
}

impl<T, S> RouterContext<T, S> {
    /// The location that is active at this level, if any.
    pub fn active(&self) -> (r: &Option<T>)
        ensures
            *r == self.active_target,
    {
        &self.active_target
    }
}

/// The active location of a child level: the parent's mapped down, and none
/// where the parent has none.
pub open spec fn child_active<P, C, D: Fn(&P) -> Option<C>>(downwards: D, parent: Option<P>) -> Option<C> {
    match parent {
        Some(p) => apply(downwards, &p),
        None => None,
    }
}

/// Maps the parent's active location down through `mapper`.
pub fn derive_active<P, C, D, U>(parent: &Option<P>, mapper: &Mapper<D, U>) -> (r: Option<C>) where
    D: Fn(&P) -> Option<C>,
    U: Fn(ChangeTargetArgs<C>) -> ChangeTargetArgs<P>,
    requires
        mapper.well_formed::<P, C>(),
    ensures
        r == child_active(mapper.downwards, *parent),
        parent is Some ==> mapper.downwards.ensures((&parent->Some_0,), r),
{
    match parent {
        Some(p) => mapper.down(p),
        None => None,
    }
}

/// Derives a child level's context from its parent's: the base path is kept,
/// the child's path to the root extends the parent's by `mapper.upwards`, and
/// the active location is the parent's mapped down.
pub fn derive_context<'a, P, C, S, D, U>(parent: &'a RouterContext<P, S>, mapper: Mapper<D, U>) -> (r: RouterContext<C, ScopeContext<'a, S, U>>) where
    D: Fn(&P) -> Option<C>,
    U: Fn(ChangeTargetArgs<C>) -> ChangeTargetArgs<P>,
    requires
        mapper.well_formed::<P, C>(),
    ensures
        r.base@ == parent.base@,
        r.scope.parent == &parent.scope,
        r.scope.upwards == mapper.upwards,
        r.active_target == child_active(mapper.downwards, parent.active_target),
        parent.active_target is Some ==> mapper.downwards.ensures((&parent.active_target->Some_0,), r.active_target),
{
    let active_target = derive_active(&parent.active_target, &mapper);
    RouterContext {
        base: parent.base.clone(),
        scope: ScopeContext { parent: &parent.scope, upwards: mapper.upwards },
        active_target,
    }
}

/// Whether two optional locations are equal.
fn same_target<C: PartialEq>(a: &Option<C>, b: &Option<C>) -> (r: bool)
    requires
        obeys_concrete_eq::<C>(),
    ensures
        r == (*a == *b),
{
    proof {
        broadcast use vstd::laws_eq::lemma_option_obeys_concrete_eq;
        reveal(obeys_concrete_eq);
    }
    a == b
}

/// The context that a level published last, with the identities of the
/// parent path and of the `upwards` function it was derived from.
pub struct Published<'a, C, S, U> {
    pub parent_id: u64,
    pub upwards_id: u64,
    pub context: RouterContext<C, ScopeContext<'a, S, U>>,
}

/// One nesting level of the tree: it derives its context from its parent's
/// and derives it anew only when something it depends on changed.
pub struct ScopeNode<'a, C, S, U> {
    pub published: Option<Published<'a, C, S, U>>,
}

impl<'a, C, S, U> ScopeNode<'a, C, S, U> {
    /// Whether the published context was derived from the parent path
    /// `parent_id`, the `upwards` function `upwards_id` and the active
    /// location `active`.
    pub open spec fn publishes(&self, parent_id: u64, upwards_id: u64, active: Option<C>) -> bool {
        match self.published {
            Some(p) => p.parent_id == parent_id && p.upwards_id == upwards_id && p.context.active_target == active,
            None => false,
        }
    }

    /// A level that has published nothing yet.
    pub fn new() -> (r: Self)
        ensures
            r.published is None,
    {
        ScopeNode { published: None }
    }

    /// One composition pass: computes the active location from the parent's;
    /// where the parent path `parent_id`, the `upwards` function `upwards_id`
    /// and that location are those of the published context, keeps it as it
    /// is, and otherwise publishes a context derived anew. Returns whether it
    /// derived anew.
    pub fn recompose<P, D>(
        &mut self,
        parent: &'a RouterContext<P, S>,
        parent_id: u64,
        mapper: Mapper<D, U>,
        upwards_id: u64,
    ) -> (derived: bool) where
        C: PartialEq,
        D: Fn(&P) -> Option<C>,
        U: Fn(ChangeTargetArgs<C>) -> ChangeTargetArgs<P>,
        requires
            obeys_concrete_eq::<C>(),
            mapper.well_formed::<P, C>(),
        ensures
            ({
                let active = child_active(mapper.downwards, parent.active_target);
                &&& derived == !old(self).publishes(parent_id, upwards_id, active)
                &&& !derived ==> *final(self) == *old(self)
                &&& final(self).publishes(parent_id, upwards_id, active)
                &&& derived ==> ({
                    let c = final(self).published->Some_0.context;
                    &&& c.base@ == parent.base@
                    &&& c.scope.parent == &parent.scope
                    &&& c.scope.upwards == mapper.upwards
                })
            }),
    {
        let active = derive_active(&parent.active_target, &mapper);
        let unchanged = match &self.published {
            Some(p) => p.parent_id == parent_id && p.upwards_id == upwards_id && same_target(&p.context.active_target, &active),
            None => false,
        };
        if unchanged {
            return false;
        }
        let context = RouterContext {
            base: parent.base.clone(),
            scope: ScopeContext { parent: &parent.scope, upwards: mapper.upwards },
            active_target: active,
        };
        self.published = Some(Published { parent_id, upwards_id, context });
        true
    }
}

/// Where a level has no active location, neither has any level below it,
/// whatever the mappers: shown here for its child and its grandchild.
pub proof fn lemma_inactive_propagates<P, C, G, D1: Fn(&P) -> Option<C>, D2: Fn(&C) -> Option<G>>(
    down1: D1,
    down2: D2,
)
    ensures
        child_active(down1, None::<P>) is None,
        child_active(down2, child_active(down1, None::<P>)) is None,
{
}

/// Where the parent has an active location, the child's is that location
/// mapped down.
pub proof fn lemma_active_maps_down<P, C, D: Fn(&P) -> Option<C>>(downwards: D, parent: P)
    ensures
        child_active(downwards, Some(parent)) == apply(downwards, &parent),
{
}

} // verus!
