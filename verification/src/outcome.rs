//! How a run ends.

use vstd::prelude::*;
use crate::text::views;

verus! {

/// Why a run ended before its end: what was being done, from the whole to the
/// part, and last the cause.
pub struct Failure {
    pub chain: Vec<String>,
}

impl View for Failure {
    type V = Seq<Seq<char>>;

    open spec fn view(&self) -> Seq<Seq<char>> {
        views(self.chain@)
    }
}

/// A failure that says nothing of what was being done.
pub open spec fn bare(cause: Seq<char>) -> Seq<Seq<char>> {
    seq![cause]
}

/// A failure while doing what `context` says.
pub open spec fn during(context: Seq<char>, failure: Seq<Seq<char>>) -> Seq<Seq<char>> {
    seq![context] + failure
}

impl Failure {
    /// A failure that says nothing of what was being done.
    pub fn new(cause: String) -> (r: Failure)
        ensures
            r@ == bare(cause@),
    {
        let r = Failure { chain: vec![cause] };
        assert(r@ =~= bare(cause@));
        r
    }

    /// This failure while doing what `context` says.
    pub fn context(self, context: &str) -> (r: Failure)
        ensures
            r@ == during(context@, self@),
    {
        let ghost inner = self@;
        let mut chain = self.chain;
        chain.insert(0, context.to_owned());
        let r = Failure { chain };
        assert(r@ =~= during(context@, inner));
        r
    }
}

/// The view of a result that is a text or a failure.
pub open spec fn failing_view(r: Result<String, Failure>) -> Result<Seq<char>, Seq<Seq<char>>> {
    match r {
        Ok(s) => Ok(s@),
        Err(f) => Err(f@),
    }
}

/// The view of a result that is nothing or a failure.
pub open spec fn unit_failing_view(r: Result<(), Failure>) -> Result<(), Seq<Seq<char>>> {
    match r {
        Ok(()) => Ok(()),
        Err(f) => Err(f@),
    }
}

/// The view of a result that is nothing or the text of an error.
pub open spec fn unit_view(r: Result<(), String>) -> Result<(), Seq<char>> {
    match r {
        Ok(()) => Ok(()),
        Err(e) => Err(e@),
    }
}

} // verus!
