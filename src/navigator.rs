use vstd::prelude::*;
use vstd::string::StringExecFns;
use crate::target::{is_text_function, lemma_text_of, text_of, ChangeTargetArgs};

verus! {

/// The location that the root-level intent with path `path` and query `query`
/// leads to under the base path `base`: the query, when present, follows a `?`.
pub open spec fn location_of(base: Seq<char>, path: Seq<char>, query: Option<String>) -> Seq<char> {
    match query {
        Some(q) => base + path + seq!['?'] + q@,
        None => base + path,
    }
}

/// The root navigation authority: it renders root-level intents as locations
/// and applies them, keeping every intent it applied in order.
pub struct Navigator<R, F> {
    /// The base path that every location starts with.
    pub base: String,
    /// Renders a root location as a path below `base`.
    pub path: F,
    /// The current location.
    pub location: String,
    /// Every intent applied so far, oldest first.
    pub applied: Vec<ChangeTargetArgs<R>>,
}

impl<R, F: Fn(&R) -> String> Navigator<R, F> {
    pub open spec fn well_formed(&self) -> bool {
        is_text_function(self.path)
    }

    /// The location that `args` leads to.
    pub open spec fn location_spec(&self, args: ChangeTargetArgs<R>) -> Seq<char> {
        location_of(self.base@, text_of(self.path, &args.target), args.query)
    }

    /// A navigator at `base` that has applied nothing yet.
    pub fn new(base: String, path: F) -> (r: Self)
        ensures
            r.base == base,
            r.path == path,
            r.location@ == base@,
            r.applied@.len() == 0,
    {
        let location = base.clone();
        Navigator { base, path, location, applied: Vec::new() }
    }

    /// Renders `args` as the location it leads to, changing nothing.
    pub fn render(&self, args: &ChangeTargetArgs<R>) -> (r: String)
        requires
            self.well_formed(),
        ensures
            r@ == self.location_spec(*args),
    {
        let p = (self.path)(&args.target);
        proof {
            lemma_text_of(self.path, &args.target, p);
        }
        let mut r = self.base.clone();
        r.append(p.as_str());
        match &args.query {
            Some(q) => {
                r.append("?");
                proof {
                    reveal_strlit("?");
                }
                r.append(q.as_str());
            },
            None => {},
        }
        r
    }

    /// Applies `args`: the location becomes the one `args` leads to, and
    /// `args` is recorded after the earlier intents.
    pub fn navigate(&mut self, args: ChangeTargetArgs<R>)
        requires
            old(self).well_formed(),
        ensures
            final(self).base == old(self).base,
            final(self).path == old(self).path,
            final(self).location@ == old(self).location_spec(args),
            final(self).applied@ == old(self).applied@.push(args),
    {
        self.location = self.render(&args);
        self.applied.push(args);
    }
}

} // verus!
