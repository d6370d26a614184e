//! The validation policy: a pure classifier of raw document bytes, run once
//! at insertion time. It is a replaceable single-method strategy, so a real
//! credential-verification rule can be substituted without touching the
//! registry facade.

use vstd::prelude::*;

verus! {

/// A pure, deterministic classifier of document bytes. It always returns a
/// boolean and never fails; rejection does not stop a document from being
/// stored, it only marks the record invalid.
pub trait ValidationPolicy: Sized {
    /// What the policy accepts.
    spec fn accepts(&self, content: Seq<u8>) -> bool;

    /// Classifies `content`, with no side effects and no error path.
    fn validate(&self, content: &Vec<u8>) -> (b: bool)
        ensures
            b == self.accepts(content@),
    ;
}

/// The reference acceptance policy: every document is considered valid.
pub struct AcceptAll {}

impl ValidationPolicy for AcceptAll {
    open spec fn accepts(&self, content: Seq<u8>) -> bool {
        true
    }

    fn validate(&self, content: &Vec<u8>) -> (b: bool) {
        true
    }
}

/// A strict policy that rejects empty submissions; it stands in for a real
/// credential-verification rule where one is wanted.
pub struct RequireNonEmpty {}

impl ValidationPolicy for RequireNonEmpty {
    open spec fn accepts(&self, content: Seq<u8>) -> bool {
        content.len() > 0
    }

    fn validate(&self, content: &Vec<u8>) -> (b: bool) {
        content.len() > 0
    }
}

} // verus!
