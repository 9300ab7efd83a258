use vstd::prelude::*;
use crate::navigator::Navigator;
use crate::query::{encode_query, url_query_of, pair_views};
use crate::target::{apply, is_function, lemma_apply, ChangeTargetArgs};
use gloo_history::HistoryError;

verus! {

/// The composed path from a level with locations `T` up to the root, whose
/// locations are `R`.
pub trait Scope<T, R>: Sized {
    /// Every mapper on the path lifts every intent to exactly one intent and
    /// keeps a query that is present.
    spec fn well_formed(&self) -> bool;

    /// The root-level intent that the intent `args` at this level stands for.
    spec fn lift_spec(&self, args: ChangeTargetArgs<T>) -> ChangeTargetArgs<R>;

    /// Lifts `args` through every level above this one, nearest first.
    fn lift(&self, args: ChangeTargetArgs<T>) -> (r: ChangeTargetArgs<R>)
        requires
            self.well_formed(),
        ensures
            r == self.lift_spec(args),
            args.query is Some ==> self.lift_spec(args).query == args.query,
    ;

    /// Hands `args`, lifted to the root, to the navigator.
    fn upwards<F: Fn(&R) -> String>(&self, nav: &mut Navigator<R, F>, args: ChangeTargetArgs<T>)
        requires
            self.well_formed(),
            old(nav).well_formed(),
        ensures
            final(nav).base == old(nav).base,
            final(nav).path == old(nav).path,
            final(nav).location@ == old(nav).location_spec(self.lift_spec(args)),
            final(nav).applied@ == old(nav).applied@.push(self.lift_spec(args)),
            args.query is Some ==> self.lift_spec(args).query == args.query,
    {
        let r = self.lift(args);
        nav.navigate(r);
    }

    /// The location that `upwards` would lead to with `args`, computed without
    /// navigating.
    fn collect<F: Fn(&R) -> String>(&self, nav: &Navigator<R, F>, args: ChangeTargetArgs<T>) -> (r: String)
        requires
            self.well_formed(),
            nav.well_formed(),
        ensures
            r@ == nav.location_spec(self.lift_spec(args)),
            args.query is Some ==> self.lift_spec(args).query == args.query,
    {
        let a = self.lift(args);
        nav.render(&a)
    }

    /// Navigates to `target` at this level, with no query.
    fn push<F: Fn(&R) -> String>(&self, nav: &mut Navigator<R, F>, target: T)
        requires
            self.well_formed(),
            old(nav).well_formed(),
        ensures
            ({
                let lifted = self.lift_spec(ChangeTargetArgs { target, query: None });
                &&& final(nav).base == old(nav).base
                &&& final(nav).path == old(nav).path
                &&& final(nav).location@ == old(nav).location_spec(lifted)
                &&& final(nav).applied@ == old(nav).applied@.push(lifted)
            }),
    {
        self.upwards(nav, ChangeTargetArgs { target, query: None });
    }

    /// Navigates to `target` with the query `encoded` if encoding succeeded;
    /// otherwise leaves the navigator as it was and returns the error.
    fn push_encoded<F: Fn(&R) -> String, E>(
        &self,
        nav: &mut Navigator<R, F>,
        target: T,
        encoded: Result<String, E>,
    ) -> (r: Result<(), E>)
        requires
            self.well_formed(),
            old(nav).well_formed(),
        ensures
            match encoded {
                Ok(q) => {
                    let lifted = self.lift_spec(ChangeTargetArgs { target, query: Some(q) });
                    &&& r is Ok
                    &&& lifted.query == Some(q)
                    &&& final(nav).base == old(nav).base
                    &&& final(nav).path == old(nav).path
                    &&& final(nav).location@ == old(nav).location_spec(lifted)
                    &&& final(nav).applied@ == old(nav).applied@.push(lifted)
                },
                Err(e) => r == Err::<(), E>(e) && *final(nav) == *old(nav),
            },
    {
        match encoded {
            Ok(q) => {
                self.upwards(nav, ChangeTargetArgs { target, query: Some(q) });
                Ok(())
            },
            Err(e) => Err(e),
        }
    }

    /// Encodes `query` as a URL query and navigates to `target` with it.
    /// Encoding a sequence of string pairs always succeeds.
    fn push_with_query<F: Fn(&R) -> String>(
        &self,
        nav: &mut Navigator<R, F>,
        target: T,
        query: &Vec<(String, String)>,
    ) -> (r: Result<(), HistoryError>)
        requires
            self.well_formed(),
            old(nav).well_formed(),
        ensures
            r is Ok,
            exists|q: String| #![trigger q@] {
                let lifted = self.lift_spec(ChangeTargetArgs { target, query: Some(q) });
                &&& q@ == url_query_of(pair_views(query@))
                &&& lifted.query == Some(q)
                &&& final(nav).base == old(nav).base
                &&& final(nav).path == old(nav).path
                &&& final(nav).location@ == old(nav).location_spec(lifted)
                &&& final(nav).applied@ == old(nav).applied@.push(lifted)
            },
    {
        let encoded = encode_query(query);
        self.push_encoded(nav, target, encoded)
    }
}

/// The root level: its intents are already root-level intents.
#[derive(Clone, Copy, Debug, PartialEq, Eq)]
pub struct RootScope;

impl<R> Scope<R, R> for RootScope {
    open spec fn well_formed(&self) -> bool {
        true
    }

    open spec fn lift_spec(&self, args: ChangeTargetArgs<R>) -> ChangeTargetArgs<R> {
        args
    }

    fn lift(&self, args: ChangeTargetArgs<R>) -> (r: ChangeTargetArgs<R>) {
        args
    }
}

/// A nested level: the path of its parent level, extended by the `upwards`
/// direction of the mapper between the two.
pub struct ScopeContext<'a, S, U> {
    pub parent: &'a S,
    pub upwards: U,
}

impl<'a, P, C, R, S: Scope<P, R>, U: Fn(ChangeTargetArgs<C>) -> ChangeTargetArgs<P>> Scope<C, R> for ScopeContext<'a, S, U> {
    open spec fn well_formed(&self) -> bool {
        &&& self.parent.well_formed()
        &&& is_function(self.upwards)
        &&& forall|a: ChangeTargetArgs<C>, r: ChangeTargetArgs<P>|
            #[trigger] self.upwards.ensures((a,), r) && a.query is Some ==> r.query == a.query
    }

    open spec fn lift_spec(&self, args: ChangeTargetArgs<C>) -> ChangeTargetArgs<R> {
        self.parent.lift_spec(apply(self.upwards, args))
    }

    fn lift(&self, args: ChangeTargetArgs<C>) -> (r: ChangeTargetArgs<R>) {
        let ghost a = args;
        let up = (self.upwards)(args);
        proof {
            lemma_apply(self.upwards, a, up);
        }
        self.parent.lift(up)
    }
}

/// A nested level is well formed when its parent is, and its `upwards` is a
/// function that keeps a query that is present.
pub proof fn lemma_nested_well_formed<'a, P, C, R, S: Scope<P, R>, U: Fn(ChangeTargetArgs<C>) -> ChangeTargetArgs<P>>(
    scope: ScopeContext<'a, S, U>,
)
    requires
        scope.parent.well_formed(),
        is_function(scope.upwards),
        forall|a: ChangeTargetArgs<C>, r: ChangeTargetArgs<P>|
            #[trigger] scope.upwards.ensures((a,), r) && a.query is Some ==> r.query == a.query,
    ensures
        scope.well_formed(),
{
}

/// At the root, an intent is delivered as it is.
pub proof fn lemma_root_delivers_unchanged<R>(args: ChangeTargetArgs<R>)
    ensures
        RootScope.lift_spec(args) == args,
{
}

/// Lifting at a nested level applies the level's own `upwards` first and then
/// lifts the result from the parent level: one step per ancestor, nearest
/// first, ending at the root.
pub proof fn lemma_lift_composes<'a, P, C, R, S: Scope<P, R>, U: Fn(ChangeTargetArgs<C>) -> ChangeTargetArgs<P>>(
    scope: ScopeContext<'a, S, U>,
    args: ChangeTargetArgs<C>,
)
    ensures
        scope.lift_spec(args) == scope.parent.lift_spec(apply(scope.upwards, args)),
{
}

/// For a leaf two levels below the root, with mappers `m1` (leaf) and `m2`
/// (its parent), the root receives `m2.upwards(m1.upwards(args))`: the same as
/// folding the mappers' `upwards` from leaf to root and delivering the result.
pub proof fn lemma_two_levels_fold<'a, 'b, A, B, R, U1, U2>(
    leaf: ScopeContext<'a, ScopeContext<'b, RootScope, U2>, U1>,
    args: ChangeTargetArgs<A>,
) where
    U1: Fn(ChangeTargetArgs<A>) -> ChangeTargetArgs<B>,
    U2: Fn(ChangeTargetArgs<B>) -> ChangeTargetArgs<R>,

    ensures
        leaf.lift_spec(args) == apply(leaf.parent.upwards, apply(leaf.upwards, args)),
{
}

} // verus!
