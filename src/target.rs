use vstd::prelude::*;

verus! {

/// One navigation intent at a level whose locations are `T`: a location and
/// an optional query string that is already encoded.
#[derive(Clone, Debug, PartialEq, Eq)]
pub struct ChangeTargetArgs<T> {
    pub target: T,
    pub query: Option<String>,
}

/// `f` may be called on every argument and gives one result for each.
pub open spec fn is_function<A, B, F: Fn(A) -> B>(f: F) -> bool {
    &&& forall|a: A| #[trigger] f.requires((a,))
    &&& forall|a: A, r1: B, r2: B| #[trigger] f.ensures((a,), r1) && #[trigger] f.ensures((a,), r2) ==> r1 == r2
}

/// The result of `f` on `a`, for an `f` that is a function.
pub open spec fn apply<A, B, F: Fn(A) -> B>(f: F, a: A) -> B {
    choose|r: B| f.ensures((a,), r)
}

/// `f` may be called on every argument, and all its results for one argument
/// have the same text.
pub open spec fn is_text_function<A, F: Fn(A) -> String>(f: F) -> bool {
    &&& forall|a: A| #[trigger] f.requires((a,))
    &&& forall|a: A, r1: String, r2: String| #[trigger] f.ensures((a,), r1) && #[trigger] f.ensures((a,), r2) ==> r1@ == r2@
}

/// The text of the result of `f` on `a`, for an `f` that is a text function.
pub open spec fn text_of<A, F: Fn(A) -> String>(f: F, a: A) -> Seq<char> {
    apply(f, a)@
}

/// Calling a text function gives the text that `text_of` names.
pub proof fn lemma_text_of<A, F: Fn(A) -> String>(f: F, a: A, r: String)
    requires
        is_text_function(f),
        f.ensures((a,), r),
    ensures
        r@ == text_of(f, a),
{
    let c = apply(f, a);
    assert(f.ensures((a,), c));
}

/// Calling a function gives the one result that `apply` names.
pub proof fn lemma_apply<A, B, F: Fn(A) -> B>(f: F, a: A, r: B)
    requires
        is_function(f),
        f.ensures((a,), r),
    ensures
        r == apply(f, a),
{
    let c = apply(f, a);
    assert(f.ensures((a,), c));
}

/// The translation between a parent level with locations `P` and a child
/// level with locations `C`: `downwards` is partial (`None` when the parent
/// location has no counterpart below), `upwards` lifts every child intent.
pub struct Mapper<D, U> {
    pub downwards: D,
    pub upwards: U,
}

impl<D, U> Mapper<D, U> {
    /// Both directions are functions, and lifting keeps a query that is
    /// present.
    pub open spec fn well_formed<P, C>(&self) -> bool where
        D: Fn(&P) -> Option<C>,
        U: Fn(ChangeTargetArgs<C>) -> ChangeTargetArgs<P>,
     {
        &&& is_function(self.downwards)
        &&& is_function(self.upwards)
        &&& forall|a: ChangeTargetArgs<C>, r: ChangeTargetArgs<P>|
            #[trigger] self.upwards.ensures((a,), r) && a.query is Some ==> r.query == a.query
    }

    /// The child location under the parent location `parent`, if any.
    pub fn down<P, C>(&self, parent: &P) -> (r: Option<C>) where
        D: Fn(&P) -> Option<C>,
        U: Fn(ChangeTargetArgs<C>) -> ChangeTargetArgs<P>,
        requires
            self.well_formed::<P, C>(),
        ensures
            r == apply(self.downwards, parent),
            self.downwards.ensures((parent,), r),
    {
        let r = (self.downwards)(parent);
        proof {
            lemma_apply(self.downwards, parent, r);
        }
        r
    }

    /// The parent-level intent that the child-level intent `child` stands for.
    pub fn up<P, C>(&self, child: ChangeTargetArgs<C>) -> (r: ChangeTargetArgs<P>) where
        D: Fn(&P) -> Option<C>,
        U: Fn(ChangeTargetArgs<C>) -> ChangeTargetArgs<P>,
        requires
            self.well_formed::<P, C>(),
        ensures
            r == apply(self.upwards, child),
            self.upwards.ensures((child,), r),
            child.query is Some ==> r.query == child.query,
    {
        let ghost g = child;
        let r = (self.upwards)(child);
        proof {
            lemma_apply(self.upwards, g, r);
        }
        r
    }
}

} // verus!
