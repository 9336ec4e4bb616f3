//! Dispatch over a list of generators, first match wins.

use vstd::prelude::*;

use super::{Dispatch, Metrics, Recorded};
use crate::domain::generator::PayloadGenerator;
use crate::domain::generators::Generator;
use crate::domain::payload::PayloadView;
use crate::domain::request::{Request, RequestView};
use crate::domain::Payload;

verus! {

/// The position of the first generator that handles `request`.
pub open spec fn first_handler(generators: Seq<Generator>, request: RequestView) -> Option<int>
    decreases generators.len(),
{
    if generators.len() == 0 {
        None
    } else if generators[0].handles(request) {
        Some(0)
    } else {
        match first_handler(generators.drop_first(), request) {
            Some(i) => Some(i + 1),
            None => None,
        }
    }
}

/// Hands each request to the first generator that supports it, and counts
/// what was served.
#[derive(Clone)]
pub struct DispatchHandler<M> {
    generators: Vec<Generator>,
    metrics: M,
    /// The calls made on `metrics` through this handler, oldest first.
    told: Ghost<Seq<Recorded>>,
}

impl<M: Metrics> DispatchHandler<M> {
    /// A dispatcher over `generators`, tried in order, counting into `metrics`.
    pub fn new(generators: Vec<Generator>, metrics: M) -> (h: Self)
        ensures
            h.generator_list() == generators@,
            h.metrics_log() == Seq::<Recorded>::empty(),
    {
        DispatchHandler { generators, metrics, told: Ghost(Seq::empty()) }
    }

    /// The generators, in the order they are tried.
    pub closed spec fn generator_list(&self) -> Seq<Generator> {
        self.generators@
    }

    /// What this handler has told its counter, oldest first: a generator's
    /// name for each `record_served`, nothing for each `record_miss`.
    pub closed spec fn metrics_log(&self) -> Seq<Recorded> {
        self.told@
    }

    /// Tells the counter that the generator named `name` served a request.
    fn count_served(&mut self, name: &str)
        ensures
            final(self).generators == old(self).generators,
            final(self).metrics_log() == old(self).metrics_log().push(Some(name@)),
    {
        self.metrics.record_served(name);
        self.told = Ghost(self.told@.push(Some(name@)));
    }

    /// Tells the counter that no generator served a request.
    fn count_miss(&mut self)
        ensures
            final(self).generators == old(self).generators,
            final(self).metrics_log() == old(self).metrics_log().push(None),
    {
        self.metrics.record_miss();
        self.told = Ghost(self.told@.push(None));
    }
}

/// What dispatching `request` over `generators` records: the name of the
/// first generator that handles it, or a miss.
pub open spec fn recorded_for(generators: Seq<Generator>, request: RequestView) -> Recorded {
    match first_handler(generators, request) {
        Some(i) => Some(generators[i].spec_name()),
        None => None,
    }
}

impl<M: Metrics> Dispatch for DispatchHandler<M> {
    open spec fn answers(&self, request: RequestView, answer: Option<PayloadView>) -> bool {
        match first_handler(self.generator_list(), request) {
            Some(i) => answer matches Some(p) && self.generator_list()[i].produces(request, p),
            None => answer is None,
        }
    }

    /// Dispatching keeps the generators and records exactly one entry: the
    /// serving generator's name, or a miss.
    open spec fn counts(self, request: RequestView, next: Self) -> bool {
        &&& next.generator_list() == self.generator_list()
        &&& next.metrics_log() == self.metrics_log().push(
            recorded_for(self.generator_list(), request),
        )
    }

    fn dispatch(&mut self, request: &Request) -> (answer: Option<Payload>) {
        let mut i: usize = 0;
        assert(self.generators@.skip(0) == self.generators@);
        while i < self.generators.len()
            invariant
                *self == *old(self),
                i <= self.generators.len(),
                forall|j: int| 0 <= j < i ==> !(#[trigger] self.generators@[j]).handles(request@),
                first_handler(self.generators@, request@) == match first_handler(
                    self.generators@.skip(i as int),
                    request@,
                ) {
                    Some(k) => Some(k + i),
                    None => None,
                },
            decreases self.generators.len() - i,
        {
            assert(self.generators@.skip(i as int)[0] == self.generators@[i as int]);
            assert(self.generators@.skip(i as int).drop_first() == self.generators@.skip(i + 1));
            let generator = self.generators[i];
            if generator.supports(request) {
                self.count_served(generator.name());
                return Some(generator.generate(request));
            }
            i = i + 1;
        }
        assert(self.generators@.skip(i as int).len() == 0);
        self.count_miss();
        None
    }
}

} // verus!
