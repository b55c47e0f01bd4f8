//! The provider registry: a process-wide directory from a backend
//! identifier to a shared handle of that backend.
//!
//! Backends are contributed as an explicit registration table (an ordered
//! list of shared handles). The identifier directory is built lazily, once,
//! on first lookup; afterwards lookups are pure reads of the built
//! directory. When two registered backends report the same identifier, the
//! last registered one wins, matching map-insertion semantics.

use vstd::prelude::*;
use std::sync::Arc;
use once_cell::sync::OnceCell;
use crate::sandbox::Sandboxer;

verus! {

#[verifier::external_type_specification]
#[verifier::external_body]
#[verifier::reject_recursive_types(T)]
pub struct ExOnceCell<T>(OnceCell<T>);

/// The backend that a lookup of `id` among `providers` yields: the last
/// registered provider whose identifier is `id`, if any.
pub open spec fn find_provider<S: Sandboxer>(providers: Seq<Arc<S>>, id: Seq<char>) -> Option<
    Arc<S>,
>
    decreases providers.len(),
{
    if providers.len() == 0 {
        None
    } else if (*providers.last()).id_spec() == id {
        Some(providers.last())
    } else {
        find_provider(providers.drop_last(), id)
    }
}

/// A successful lookup yields a backend whose identifier is the one looked
/// up.
pub proof fn lemma_found_provider_has_id<S: Sandboxer>(providers: Seq<Arc<S>>, id: Seq<char>)
    requires
        find_provider(providers, id) is Some,
    ensures
        (*find_provider(providers, id)->Some_0).id_spec() == id,
    decreases providers.len(),
{
    if providers.len() > 0 && (*providers.last()).id_spec() != id {
        lemma_found_provider_has_id(providers.drop_last(), id);
    }
}

/// A lookup misses exactly when no registered backend has the identifier:
/// absence is a normal result, not a fault.
pub proof fn lemma_miss_means_unregistered<S: Sandboxer>(providers: Seq<Arc<S>>, id: Seq<char>)
    ensures
        find_provider(providers, id) is None <==> forall|i: int|
            0 <= i < providers.len() ==> (*#[trigger] providers[i]).id_spec() != id,
    decreases providers.len(),
{
    if providers.len() > 0 {
        lemma_miss_means_unregistered(providers.drop_last(), id);
        assert(forall|i: int| 0 <= i < providers.len() - 1
            ==> providers.drop_last()[i] == providers[i]);
        assert(providers.last() == providers[providers.len() - 1]);
    }
}

/// A lookup hit is one of the registered handles itself: the registry
/// hands out shared references to the instances it owns, never fresh
/// copies, so two lookups of one identifier refer to the same underlying
/// backend.
pub proof fn lemma_found_provider_is_registered<S: Sandboxer>(providers: Seq<Arc<S>>, id: Seq<char>)
    requires
        find_provider(providers, id) is Some,
    ensures
        exists|i: int| 0 <= i < providers.len()
            && providers[i] == find_provider(providers, id)->Some_0,
    decreases providers.len(),
{
    if (*providers.last()).id_spec() == id {
        assert(providers[providers.len() - 1] == providers.last());
    } else {
        lemma_found_provider_is_registered(providers.drop_last(), id);
        let w = choose|i: int| 0 <= i < providers.drop_last().len()
            && providers.drop_last()[i] == find_provider(providers.drop_last(), id)->Some_0;
        assert(providers[w] == providers.drop_last()[w]);
    }
}

/// Looking up two distinct identifiers never yields the same backend: each
/// handle the registry gives out is the instance registered under the
/// identifier it was asked for, so handles for different identifiers never
/// alias one underlying backend.
pub proof fn lemma_distinct_ids_distinct_instances<S: Sandboxer>(
    providers: Seq<Arc<S>>,
    id1: Seq<char>,
    id2: Seq<char>,
)
    requires
        id1 != id2,
        find_provider(providers, id1) is Some,
        find_provider(providers, id2) is Some,
    ensures
        find_provider(providers, id1) != find_provider(providers, id2),
{
    lemma_found_provider_has_id(providers, id1);
    lemma_found_provider_has_id(providers, id2);
}

/// The process-wide provider directory for backends of type `S`.
#[verifier::reject_recursive_types(S)]
pub struct Registry<S: Sandboxer> {
    providers: Vec<Arc<S>>,
    cell: OnceCell<Vec<(String, Arc<S>)>>,
}

/// Asks each registered backend for its identifier once and pairs it with
/// the backend's handle, in registration order.
fn build_directory<S: Sandboxer>(providers: &Vec<Arc<S>>) -> (r: Vec<(String, Arc<S>)>)
    ensures
        r@.len() == providers@.len(),
        forall|i: int| 0 <= i < providers@.len()
            ==> (#[trigger] r@[i]).0@ == (*providers@[i]).id_spec() && r@[i].1 == providers@[i],
{
    let mut out: Vec<(String, Arc<S>)> = Vec::new();
    let mut i: usize = 0;
    while i < providers.len()
        invariant
            i <= providers@.len(),
            out@.len() == i,
            forall|m: int| 0 <= m < i
                ==> (#[trigger] out@[m]).0@ == (*providers@[m]).id_spec() && out@[m].1 == providers@[m],
        decreases providers@.len() - i,
    {
        let handle = providers[i].clone();
        let id = handle.id();
        out.push((id, handle));
        i = i + 1;
    }
    out
}

/// Relies on once_cell's `OnceCell::get_or_init`: it initializes the cell
/// at most once, even under concurrent first access — concurrent callers
/// block until the one running initializer finishes — and every call
/// returns a reference to the single stored value. The cell of a
/// `Registry` is private and is initialized only here, always with
/// `build_directory` over the registry's fixed provider table, so whichever
/// call built the directory, the stored value satisfies exactly the
/// properties `build_directory` establishes.
#[verifier::external_body]
fn cached_directory<'a, S: Sandboxer>(reg: &'a Registry<S>) -> (r: &'a Vec<(String, Arc<S>)>)
    ensures
        r@.len() == reg.providers@.len(),
        forall|i: int| 0 <= i < reg.providers@.len()
            ==> (#[trigger] r@[i]).0@ == (*reg.providers@[i]).id_spec()
                && r@[i].1 == reg.providers@[i],
{
    reg.cell.get_or_init(|| build_directory(&reg.providers))
}

/// Relies on once_cell's `OnceCell::new`: a fresh, empty cell.
#[verifier::external_body]
fn empty_cell<T>() -> OnceCell<T> {
    OnceCell::new()
}

impl<S: Sandboxer> Registry<S> {
    /// The registered backends, in registration order.
    pub closed spec fn providers_spec(self) -> Seq<Arc<S>> {
        self.providers@
    }

    /// A registry over the full contributed registration table. The table
    /// is fixed from here on: the registry is read-only after construction.
    pub fn new(providers: Vec<Arc<S>>) -> (r: Registry<S>)
        ensures
            r.providers_spec() == providers@,
    {
        Registry { providers, cell: empty_cell() }
    }

    /// Returns a shared handle to the backend registered under `id`, or
    /// `None` if no backend with that identifier was registered. All
    /// callers share the same underlying backend instance: the handle is a
    /// clone of the one shared reference the registry owns. The first call
    /// from any thread builds the directory; later calls are pure reads.
    pub fn sandboxer(&self, id: &String) -> (r: Option<Arc<S>>)
        ensures
            r == find_provider(self.providers_spec(), id@),
    {
        let dir = cached_directory(self);
        proof {
            assert(self.providers@.take(self.providers@.len() as int) =~= self.providers@);
        }
        let mut i: usize = dir.len();
        while i > 0
            invariant
                i <= dir@.len(),
                dir@.len() == self.providers@.len(),
                forall|m: int| 0 <= m < self.providers@.len()
                    ==> (#[trigger] dir@[m]).0@ == (*self.providers@[m]).id_spec()
                        && dir@[m].1 == self.providers@[m],
                find_provider(self.providers@, id@)
                    == find_provider(self.providers@.take(i as int), id@),
            decreases i,
        {
            i = i - 1;
            proof {
                assert(self.providers@.take(i + 1).last() == self.providers@[i as int]);
                assert(self.providers@.take(i + 1).drop_last() =~= self.providers@.take(i as int));
            }
            if dir[i].0 == *id {
                return Some(dir[i].1.clone());
            }
        }
        proof {
            assert(self.providers@.take(0) =~= Seq::<Arc<S>>::empty());
        }
        None
    }
}

} // verus!
