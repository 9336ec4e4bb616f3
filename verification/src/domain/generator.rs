//! The interface every decoy generator offers.

use vstd::prelude::*;

use crate::domain::payload::{Payload, PayloadView};
use crate::domain::request::{Request, RequestView};

verus! {

/// A decoy generator: it recognises the requests it answers and builds a
/// decoy for them.
pub trait PayloadGenerator {
    /// The generator's name, under which served requests are counted.
    spec fn spec_name(&self) -> Seq<char>;

    /// The requests the generator answers.
    spec fn handles(&self, request: RequestView) -> bool;

    /// The decoys the generator may answer `request` with.
    spec fn produces(&self, request: RequestView, payload: PayloadView) -> bool;

    /// The generator's name.
    fn name(&self) -> (n: &'static str)
        ensures
            n@ == self.spec_name(),
    ;

    /// Whether the generator answers `request`.
    fn supports(&self, request: &Request) -> (b: bool)
        ensures
            b == self.handles(request@),
    ;

    /// A decoy for `request`.
    fn generate(&self, request: &Request) -> (p: Payload)
        ensures
            self.produces(request@, p@),
    ;
}

} // verus!
