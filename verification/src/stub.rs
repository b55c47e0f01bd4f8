//! A minimal in-process backend: it executes nothing, but carries out the
//! whole load protocol — repository lookup, module-type validation,
//! identifier binding and ordered export construction — against a module
//! repository modelled as data. Hosts use it to exercise the registry and
//! the load protocol; it is also this crate's reference implementation of
//! the two capabilities.

use vstd::prelude::*;
use std::sync::Arc;
use crate::idmap::IdMap;
use crate::sandbox::{Error, ExportSpec, Sandbox, Sandboxer};

verus! {

/// What the first repository entry whose path equals `path` declares as the
/// module's type, or `None` when no entry matches.
pub open spec fn repo_lookup(entries: Seq<(String, String)>, path: Seq<char>) -> Option<Seq<char>>
    decreases entries.len(),
{
    if entries.len() == 0 {
        None
    } else if entries[0].0@ == path {
        Some(entries[0].1@)
    } else {
        repo_lookup(entries.skip(1), path)
    }
}

/// A module repository modelled as data: an ordered list of
/// (module reference, declared module type). The real repository — its
/// layout and how modules are materialized into it — is an external
/// collaborator; this backend consults only what it declares.
pub struct ModuleRepo {
    modules: Vec<(String, String)>,
}

impl ModuleRepo {
    /// The repository's entries in order.
    pub closed spec fn entries_spec(self) -> Seq<(String, String)> {
        self.modules@
    }

    /// Whether `path` resolves to a module.
    pub open spec fn resolves(self, path: Seq<char>) -> bool {
        repo_lookup(self.entries_spec(), path) is Some
    }

    /// The declared type of the module at `path`.
    pub open spec fn declared_type(self, path: Seq<char>) -> Seq<char> {
        repo_lookup(self.entries_spec(), path)->Some_0
    }

    /// An empty repository.
    pub fn new() -> (r: ModuleRepo)
        ensures
            r.entries_spec().len() == 0,
    {
        ModuleRepo { modules: Vec::new() }
    }

    /// Declares one module: `path` resolves to a module of type `ty`.
    pub fn add_module(&mut self, path: String, ty: String)
        ensures
            final(self).entries_spec() == old(self).entries_spec().push((path, ty)),
    {
        self.modules.push((path, ty));
    }

    /// Looks `path` up, returning the declared type of the first matching
    /// entry.
    pub fn lookup(&self, path: &String) -> (r: Option<String>)
        ensures
            match r {
                Some(ty) => self.resolves(path@) && ty@ == self.declared_type(path@),
                None => !self.resolves(path@),
            },
    {
        assert(self.modules@.skip(0) =~= self.modules@);
        let mut i: usize = 0;
        while i < self.modules.len()
            invariant
                i <= self.modules@.len(),
                repo_lookup(self.modules@, path@) == repo_lookup(self.modules@.skip(i as int), path@),
            decreases self.modules@.len() - i,
        {
            if self.modules[i].0 == *path {
                assert(self.modules@.skip(i as int)[0] == self.modules@[i as int]);
                return Some(self.modules[i].1.clone());
            }
            assert(self.modules@.skip(i as int).skip(1) =~= self.modules@.skip(i + 1));
            assert(self.modules@.skip(i as int)[0] == self.modules@[i as int]);
            i = i + 1;
        }
        assert(self.modules@.skip(i as int) =~= Seq::<(String, String)>::empty());
        None
    }
}

/// The stub backend: an identifier, the module types it accepts, and its
/// view of the module repository.
pub struct StubSandboxer {
    id: String,
    supported: Vec<String>,
    repo: ModuleRepo,
}

/// A module loaded by the stub backend. It owns the load-time state: the
/// bound identifier map, the module-wide configuration bytes, and the
/// services constructed from the export specification, in order.
pub struct StubSandbox {
    sandboxer: Arc<StubSandboxer>,
    id_map: IdMap,
    init: Vec<u8>,
    exports: Vec<(String, Vec<u8>)>,
}

impl StubSandboxer {
    /// A backend with the given identity, supported module types, and
    /// repository view.
    pub fn new(id: String, supported: Vec<String>, repo: ModuleRepo) -> (r: StubSandboxer)
        ensures
            r.id_spec() == id@,
            r.supported_spec() == supported@.map_values(|s: String| s@),
            forall|path: Seq<char>| #[trigger] r.resolves_spec(path) == repo.resolves(path),
            forall|path: Seq<char>| #[trigger] r.module_type_spec(path) == repo.declared_type(path),
    {
        StubSandboxer { id, supported, repo }
    }
}

impl Sandboxer for StubSandboxer {
    type Sb = StubSandbox;

    closed spec fn id_spec(&self) -> Seq<char> {
        self.id@
    }

    closed spec fn supported_spec(&self) -> Seq<Seq<char>> {
        self.supported@.map_values(|s: String| s@)
    }

    closed spec fn resolves_spec(&self, path: Seq<char>) -> bool {
        self.repo.resolves(path)
    }

    closed spec fn module_type_spec(&self, path: Seq<char>) -> Seq<char> {
        self.repo.declared_type(path)
    }

    fn id(&self) -> (r: String) {
        self.id.clone()
    }

    fn supported_module_types(&self) -> (r: Vec<String>) {
        let mut out: Vec<String> = Vec::new();
        let mut i: usize = 0;
        while i < self.supported.len()
            invariant
                i <= self.supported@.len(),
                out@.len() == i,
                forall|m: int| 0 <= m < i ==> out@[m] == self.supported@[m],
            decreases self.supported@.len() - i,
        {
            out.push(self.supported[i].clone());
            i = i + 1;
        }
        assert(out@ =~= self.supported@);
        out
    }

    fn load(self: Arc<Self>, path: &String, id_map: &IdMap, init: &Vec<u8>, exports: &ExportSpec)
        -> (r: Result<StubSandbox, Error>)
        ensures
            r matches Ok(sb) ==> sb.init_spec() == init@,
    {
        let ty = match self.repo.lookup(path) {
            None => {
                return Err(Error::ModuleNotFound { path: path.clone() });
            },
            Some(ty) => ty,
        };
        let mut supported = false;
        let mut i: usize = 0;
        while i < self.supported.len()
            invariant
                i <= self.supported@.len(),
                supported == exists|m: int| 0 <= m < i && self.supported@[m]@ == ty@,
            decreases self.supported@.len() - i,
        {
            if self.supported[i] == ty {
                supported = true;
            }
            i = i + 1;
        }
        if !supported {
            assert(forall|m: int| 0 <= m < self.supported@.len()
                ==> (*self).supported_spec()[m] != ty@);
            return Err(Error::UnsupportedModuleType { path: path.clone(), ty });
        }
        let mut services: Vec<(String, Vec<u8>)> = Vec::new();
        let mut k: usize = 0;
        let n = exports.len();
        while k < n
            invariant
                n == exports.entry_count(),
                k <= n,
                services@.len() == k,
                forall|m: int| 0 <= m < k ==> #[trigger] services@[m].0@ == exports.ctor_name(m)
                    && services@[m].1@ == exports.ctor_args(m),
            decreases n - k,
        {
            match exports.get(k) {
                Some(entry) => {
                    services.push(entry);
                },
                None => {
                    // k < n, so the entry exists.
                    assert(false);
                },
            }
            k = k + 1;
        }
        proof {
            let ss = (*self).supported_spec();
            let w = choose|m: int| 0 <= m < self.supported@.len() && self.supported@[m]@ == ty@;
            assert(ss[w] == self.supported@[w]@);
            assert(ss[w] == (*self).module_type_spec(path@));
            assert(ss.contains((*self).module_type_spec(path@)));
        }
        let backref = self.clone();
        let sb = StubSandbox {
            sandboxer: backref,
            id_map: id_map.duplicate(),
            init: copy_bytes(init),
            exports: services,
        };
        proof {
            assert(sb.sandboxer_id_spec() == (*self).id_spec());
        }
        Ok(sb)
    }
}

/// A byte-for-byte copy of a buffer.
fn copy_bytes(v: &Vec<u8>) -> (r: Vec<u8>)
    ensures
        r@ == v@,
{
    let mut out: Vec<u8> = Vec::new();
    let mut i: usize = 0;
    while i < v.len()
        invariant
            i <= v@.len(),
            out@.len() == i,
            forall|m: int| 0 <= m < i ==> out@[m] == v@[m],
        decreases v@.len() - i,
    {
        out.push(v[i]);
        i = i + 1;
    }
    assert(out@ =~= v@);
    out
}

impl StubSandbox {
    /// The module-wide configuration bytes bound at load time.
    pub closed spec fn init_spec(self) -> Seq<u8> {
        self.init@
    }
}

impl Sandbox for StubSandbox {
    closed spec fn export_count_spec(&self) -> nat {
        self.exports@.len()
    }

    closed spec fn exported_spec(&self, k: int) -> Option<(Seq<char>, Seq<u8>)> {
        if 0 <= k < self.exports@.len() {
            Some((self.exports@[k].0@, self.exports@[k].1@))
        } else {
            None
        }
    }

    closed spec fn resolved_name_spec(&self, i: int, j: int) -> Option<(Seq<char>, Seq<char>)> {
        self.id_map.resolved(i, j)
    }

    closed spec fn sandboxer_id_spec(&self) -> Seq<char> {
        (*self.sandboxer).id_spec()
    }

    fn sandboxer_id(&self) -> (r: String) {
        self.sandboxer.id.clone()
    }
}

impl StubSandbox {
    /// Returns the shared handle of the `Sandboxer` that created this
    /// sandbox: the same underlying backend instance, not a copy.
    pub fn sandboxer(&self) -> (r: Arc<StubSandboxer>)
        ensures
            (*r).id_spec() == self.sandboxer_id_spec(),
    {
        self.sandboxer.clone()
    }

    /// How many externally addressable services the sandbox exposes.
    pub fn export_count(&self) -> (r: usize)
        ensures
            r == self.export_count_spec(),
    {
        self.exports.len()
    }

    /// The constructor name and arguments that built the service at export
    /// index `k`.
    pub fn exported(&self, k: usize) -> (r: Option<(String, Vec<u8>)>)
        ensures
            match r {
                Some(p) => self.exported_spec(k as int) == Some((p.0@, p.1@)),
                None => self.exported_spec(k as int) is None,
            },
    {
        if k < self.exports.len() {
            let e = &self.exports[k];
            Some((e.0.clone(), e.1.clone()))
        } else {
            None
        }
    }

    /// Resolves (service index, member index) through the identifier map
    /// bound at load time.
    pub fn resolve_name(&self, i: usize, j: usize) -> (r: Option<(String, String)>)
        ensures
            match r {
                Some(p) => self.resolved_name_spec(i as int, j as int) == Some((p.0@, p.1@)),
                None => self.resolved_name_spec(i as int, j as int) is None,
            },
    {
        self.id_map.resolve(i, j)
    }

    /// The module-wide configuration bytes the sandbox was initialized
    /// with.
    pub fn init_bytes(&self) -> (r: &Vec<u8>)
        ensures
            r@ == self.init_spec(),
    {
        &self.init
    }
}

} // verus!
