//! The identifier map: a caller-supplied, ordered naming scheme that assigns
//! compact integer identifiers to a module's services and their members.
//!
//! The position of a qualified service name in the outer sequence is its
//! integer identifier; the position of a member name within its service's
//! inner sequence is that member's identifier, scoped to its owner. These
//! positions are fixed at load time and stay stable for the lifetime of the
//! sandbox built from the map.

use vstd::prelude::*;

verus! {

/// An ordered sequence of (qualified service name, ordered member names).
pub struct IdMap {
    entries: Vec<(String, Vec<String>)>,
}

impl IdMap {
    /// The underlying ordered entries.
    pub closed spec fn entries_spec(self) -> Seq<(String, Vec<String>)> {
        self.entries@
    }

    /// How many services the map names.
    pub open spec fn service_count(self) -> nat {
        self.entries_spec().len()
    }

    /// The qualified name assigned to service identifier `i`.
    pub open spec fn service_name(self, i: int) -> Seq<char> {
        self.entries_spec()[i].0@
    }

    /// How many members service `i` has.
    pub open spec fn member_count(self, i: int) -> nat {
        self.entries_spec()[i].1@.len()
    }

    /// The name assigned to member identifier `j` of service identifier `i`.
    pub open spec fn member_name(self, i: int, j: int) -> Seq<char> {
        self.entries_spec()[i].1@[j]@
    }

    /// What the integer pair (service `i`, member `j`) resolves to: the
    /// qualified name and member name at those positions, if both are in
    /// range.
    pub open spec fn resolved(self, i: int, j: int) -> Option<(Seq<char>, Seq<char>)> {
        if 0 <= i < self.service_count() && 0 <= j < self.member_count(i) {
            Some((self.service_name(i), self.member_name(i, j)))
        } else {
            None
        }
    }

    /// Service names are unique in the map, and member names are unique
    /// within their owning service. The load protocol does not enforce this;
    /// it is the caller's obligation.
    pub open spec fn names_unique(self) -> bool {
        &&& forall|i1: int, i2: int|
            0 <= i1 < self.service_count() && 0 <= i2 < self.service_count() && i1 != i2
                ==> self.service_name(i1) != self.service_name(i2)
        &&& forall|i: int, j1: int, j2: int|
            0 <= i < self.service_count() && 0 <= j1 < self.member_count(i)
                && 0 <= j2 < self.member_count(i) && j1 != j2
                ==> self.member_name(i, j1) != self.member_name(i, j2)
    }

    /// An empty map.
    pub fn new() -> (r: IdMap)
        ensures
            r.service_count() == 0,
    {
        IdMap { entries: Vec::new() }
    }

    /// Appends one service with its ordered member names; the service's
    /// identifier is the previous service count.
    pub fn push_service(&mut self, name: String, members: Vec<String>)
        ensures
            final(self).service_count() == old(self).service_count() + 1,
            final(self).entries_spec() == old(self).entries_spec().push((name, members)),
            forall|i: int| 0 <= i < old(self).service_count()
                ==> final(self).entries_spec()[i] == old(self).entries_spec()[i],
            final(self).service_name(old(self).service_count() as int) == name@,
            final(self).member_count(old(self).service_count() as int) == members@.len(),
            forall|j: int| 0 <= j < members@.len()
                ==> final(self).member_name(old(self).service_count() as int, j) == members@[j]@,
    {
        self.entries.push((name, members));
    }

    /// How many services the map names.
    pub fn len(&self) -> (r: usize)
        ensures
            r == self.service_count(),
    {
        self.entries.len()
    }

    /// An identifier-for-identifier copy of the map: the same names at the
    /// same positions, so it resolves exactly as the original does. A
    /// sandbox keeps such a copy so its identifier assignments stay stable
    /// whatever the caller later does with the map it supplied.
    pub fn duplicate(&self) -> (r: IdMap)
        ensures
            r.service_count() == self.service_count(),
            forall|i: int| 0 <= i < self.service_count()
                ==> #[trigger] r.service_name(i) == self.service_name(i)
                    && r.member_count(i) == self.member_count(i),
            forall|i: int, j: int| 0 <= i < self.service_count() && 0 <= j < self.member_count(i)
                ==> #[trigger] r.member_name(i, j) == self.member_name(i, j),
            forall|i: int, j: int| #[trigger] r.resolved(i, j) == self.resolved(i, j),
    {
        let mut entries: Vec<(String, Vec<String>)> = Vec::new();
        let mut i: usize = 0;
        while i < self.entries.len()
            invariant
                i <= self.entries@.len(),
                entries@.len() == i,
                forall|m: int| 0 <= m < i
                    ==> #[trigger] entries@[m].0@ == self.entries@[m].0@
                        && entries@[m].1@.len() == self.entries@[m].1@.len(),
                forall|m: int, j: int| 0 <= m < i && 0 <= j < self.entries@[m].1@.len()
                    ==> #[trigger] entries@[m].1@[j]@ == self.entries@[m].1@[j]@,
            decreases self.entries@.len() - i,
        {
            let entry = &self.entries[i];
            let mut members: Vec<String> = Vec::new();
            let mut j: usize = 0;
            while j < entry.1.len()
                invariant
                    j <= entry.1@.len(),
                    members@.len() == j,
                    forall|m: int| 0 <= m < j ==> #[trigger] members@[m] == entry.1@[m],
                decreases entry.1@.len() - j,
            {
                members.push(entry.1[j].clone());
                j = j + 1;
            }
            entries.push((entry.0.clone(), members));
            i = i + 1;
        }
        IdMap { entries }
    }

    /// Resolves the integer pair (service `i`, member `j`) to the qualified
    /// service name and member name assigned those identifiers, or `None` if
    /// either identifier is out of range.
    pub fn resolve(&self, i: usize, j: usize) -> (r: Option<(String, String)>)
        ensures
            match r {
                Some(p) => self.resolved(i as int, j as int) == Some((p.0@, p.1@)),
                None => self.resolved(i as int, j as int) is None,
            },
    {
        if i < self.entries.len() {
            let entry = &self.entries[i];
            if j < entry.1.len() {
                Some((entry.0.clone(), entry.1[j].clone()))
            } else {
                None
            }
        } else {
            None
        }
    }
}

/// In a map with unique names, identifier resolution is injective: two
/// distinct (service, member) integer pairs never resolve to the same
/// qualified name and member name, so each name pair is addressable by
/// exactly one pair of integers.
pub proof fn lemma_resolution_injective(m: IdMap, i1: int, j1: int, i2: int, j2: int)
    requires
        m.names_unique(),
        m.resolved(i1, j1) is Some,
        m.resolved(i1, j1) == m.resolved(i2, j2),
    ensures
        i1 == i2,
        j1 == j2,
{
}

} // verus!
