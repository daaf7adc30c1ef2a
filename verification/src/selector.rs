//! Choosing one endpoint of a replica pool at random.

use rand::rngs::StdRng;
use rand::seq::SliceRandom;
use vstd::prelude::*;

verus! {

/// rand's standard generator; its state is opaque here.
#[verifier::external_type_specification]
#[verifier::external_body]
pub struct ExStdRng(StdRng);

/// `endpoint` is one of the entries of `pool`.
pub open spec fn is_member(pool: Seq<String>, endpoint: Seq<char>) -> bool {
    exists|i: int| 0 <= i < pool.len() && (#[trigger] pool[i])@ == endpoint
}

/// Calls rand's `SliceRandom::choose` on the pool: `None` for an empty
/// slice, else a copy of one of its elements. Which one depends on the
/// generator's state, of which nothing is claimed.
#[verifier::external_body]
fn choose_endpoint(pool: &Vec<String>, rng: &mut StdRng) -> (chosen: Option<String>)
    ensures
        chosen is Some <==> pool@.len() > 0,
        chosen matches Some(endpoint) ==> is_member(pool@, endpoint@),
{
    pool.as_slice().choose(rng).cloned()
}

/// An ordered, non-empty list of endpoints (`host:port`), fixed once built.
pub struct ReplicaPool {
    endpoints: Vec<String>,
}

impl View for ReplicaPool {
    type V = Seq<String>;

    closed spec fn view(&self) -> Seq<String> {
        self.endpoints@
    }
}

impl ReplicaPool {
    /// A pool is never empty.
    pub closed spec fn wf(&self) -> bool {
        self.endpoints@.len() > 0
    }

    /// The pool of these endpoints; `None` exactly where there are none.
    pub fn new(endpoints: Vec<String>) -> (pool: Option<ReplicaPool>)
        ensures
            pool is Some <==> endpoints@.len() > 0,
            pool matches Some(p) ==> p.wf() && p@ == endpoints@,
    {
        if endpoints.len() == 0 {
            None
        } else {
            Some(ReplicaPool { endpoints })
        }
    }

    pub fn len(&self) -> (n: usize)
        ensures
            n == self@.len(),
    {
        self.endpoints.len()
    }

    /// The endpoint at position `i`.
    pub fn endpoint(&self, i: usize) -> (endpoint: &String)
        requires
            i < self@.len(),
        ensures
            *endpoint == self@[i as int],
    {
        &self.endpoints[i]
    }

    /// One endpoint of the pool, picked by `rng`.
    pub fn select(&self, rng: &mut StdRng) -> (endpoint: String)
        requires
            self.wf(),
        ensures
            is_member(self@, endpoint@),
    {
        let chosen = choose_endpoint(&self.endpoints, rng);
        chosen.unwrap()
    }
}

/// What the request handlers share: the random source and the two pools.
pub struct AppState {
    pub rng: StdRng,
    pub logging_services: ReplicaPool,
    pub message_services: ReplicaPool,
}

impl AppState {
    pub open spec fn wf(&self) -> bool {
        self.logging_services.wf() && self.message_services.wf()
    }

    pub fn new(rng: StdRng, logging_services: ReplicaPool, message_services: ReplicaPool) -> (state:
        AppState)
        requires
            logging_services.wf(),
            message_services.wf(),
        ensures
            state.wf(),
            state.logging_services == logging_services,
            state.message_services == message_services,
    {
        AppState { rng, logging_services, message_services }
    }

    /// An endpoint of the log-store pool. Only the random source changes.
    pub fn select_logging_service(&mut self) -> (endpoint: String)
        requires
            old(self).wf(),
        ensures
            is_member(old(self).logging_services@, endpoint@),
            final(self).logging_services == old(self).logging_services,
            final(self).message_services == old(self).message_services,
    {
        self.logging_services.select(&mut self.rng)
    }

    /// An endpoint of the read-back pool. Only the random source changes.
    pub fn select_message_service(&mut self) -> (endpoint: String)
        requires
            old(self).wf(),
        ensures
            is_member(old(self).message_services@, endpoint@),
            final(self).logging_services == old(self).logging_services,
            final(self).message_services == old(self).message_services,
    {
        self.message_services.select(&mut self.rng)
    }
}

} // verus!
