//! The sandboxing capabilities and the load protocol.
//!
//! A `Sandboxer` is one pluggable backend: it advertises an identifier and
//! the module types it understands, and is the factory for `Sandbox`
//! instances. A `Sandbox` is one live, loaded module. The `load` contract
//! fixes the protocol: validate the module's type, bind the caller-assigned
//! integer identifiers of `IdMap`, and construct the exported services in
//! the order the export specification gives, so that each export is
//! addressable by its position.

use vstd::prelude::*;
use crate::idmap::IdMap;
use std::sync::Arc;

verus! {

/// A caller-facing, recoverable load failure. Errors own their context so
/// they outlive the call that produced them.
#[derive(Debug)]
pub enum Error {
    /// The module reference did not resolve in the module repository.
    ModuleNotFound { path: String },
    /// The module resolved, but its declared type is not one the chosen
    /// backend supports.
    UnsupportedModuleType { path: String, ty: String },
}

impl Error {
    /// The module reference this error carries.
    pub fn path(&self) -> (r: &String)
        ensures
            match self {
                Error::ModuleNotFound { path } => r@ == path@,
                Error::UnsupportedModuleType { path, .. } => r@ == path@,
            },
    {
        match self {
            Error::ModuleNotFound { path } => path,
            Error::UnsupportedModuleType { path, .. } => path,
        }
    }

    /// A diagnostic line naming the failure and its module reference.
    pub fn message(&self) -> (r: String)
        ensures
            match self {
                Error::ModuleNotFound { path } => r@ =~= "could not find the specified module: "@ + path@,
                Error::UnsupportedModuleType { path, ty } => r@ =~= "the module is not supported: type '"@
                    + ty@ + "' at '"@ + path@ + "'"@,
            },
    {
        match self {
            Error::ModuleNotFound { path } => {
                let mut m = "could not find the specified module: ".to_owned();
                m.append(path.as_str());
                m
            },
            Error::UnsupportedModuleType { path, ty } => {
                let mut m = "the module is not supported: type '".to_owned();
                m.append(ty.as_str());
                m.append("' at '");
                m.append(path.as_str());
                m.append("'");
                m
            },
        }
    }
}

/// An ordered list of constructor calls: each entry is the name of a
/// constructor function exposed by the module's constructor service and its
/// CBOR-encoded arguments. The position of an entry is the external index
/// by which the linking subsystem will address the constructed service.
pub struct ExportSpec {
    entries: Vec<(String, Vec<u8>)>,
}

impl ExportSpec {
    /// The underlying ordered entries.
    pub closed spec fn entries_spec(self) -> Seq<(String, Vec<u8>)> {
        self.entries@
    }

    /// How many services the specification exports.
    pub open spec fn entry_count(self) -> nat {
        self.entries_spec().len()
    }

    /// The constructor-function name of entry `k`.
    pub open spec fn ctor_name(self, k: int) -> Seq<char> {
        self.entries_spec()[k].0@
    }

    /// The CBOR-encoded constructor arguments of entry `k`.
    pub open spec fn ctor_args(self, k: int) -> Seq<u8> {
        self.entries_spec()[k].1@
    }

    /// An empty specification.
    pub fn new() -> (r: ExportSpec)
        ensures
            r.entry_count() == 0,
    {
        ExportSpec { entries: Vec::new() }
    }

    /// Appends one constructor call; its external index is the previous
    /// entry count.
    pub fn push_export(&mut self, name: String, args: Vec<u8>)
        ensures
            final(self).entries_spec() == old(self).entries_spec().push((name, args)),
            final(self).entry_count() == old(self).entry_count() + 1,
    {
        self.entries.push((name, args));
    }

    /// How many services the specification exports.
    pub fn len(&self) -> (r: usize)
        ensures
            r == self.entry_count(),
    {
        self.entries.len()
    }

    /// The entry at external index `k`.
    pub fn get(&self, k: usize) -> (r: Option<(String, Vec<u8>)>)
        ensures
            match r {
                Some(p) => k < self.entry_count() && p.0@ == self.ctor_name(k as int)
                    && p.1@ == self.ctor_args(k as int),
                None => k >= self.entry_count(),
            },
    {
        if k < self.entries.len() {
            let entry = &self.entries[k];
            Some((entry.0.clone(), entry.1.clone()))
        } else {
            None
        }
    }
}

/// One live, loaded module instance. It owns the module's execution state
/// exclusively; the host invokes its exported services through the external
/// linking subsystem by export index and id-mapped member index.
///
/// A concrete sandbox type additionally returns a shared handle to the
/// backend that created it (a back-reference for introspection); the trait
/// itself exposes that backend's identity, since the backend type cannot be
/// named here without a definitional cycle between the two capabilities.
pub trait Sandbox: Sized {
    /// How many externally addressable services the sandbox exposes.
    spec fn export_count_spec(&self) -> nat;

    /// The constructor name and arguments that built the service at export
    /// index `k`, or `None` if `k` is out of range.
    spec fn exported_spec(&self, k: int) -> Option<(Seq<char>, Seq<u8>)>;

    /// What the integer pair (service `i`, member `j`) resolves to through
    /// the identifier map fixed at load time.
    spec fn resolved_name_spec(&self, i: int, j: int) -> Option<(Seq<char>, Seq<char>)>;

    /// The identifier of the backend that created this sandbox.
    spec fn sandboxer_id_spec(&self) -> Seq<char>;

    /// Returns the identifier of the `Sandboxer` that created this sandbox.
    fn sandboxer_id(&self) -> (r: String)
        ensures
            r@ == self.sandboxer_id_spec(),
    ;
}

/// One sandboxing backend. Implementations must tolerate concurrent calls
/// from multiple threads without external locking.
pub trait Sandboxer: Sized {
    /// The sandbox type this backend produces.
    type Sb: Sandbox;

    /// The backend's stable identity, used as the registry key.
    spec fn id_spec(&self) -> Seq<char>;

    /// The fixed set of module-type tags this backend can load.
    spec fn supported_spec(&self) -> Seq<Seq<char>>;

    /// Whether the module repository resolves `path` to a module, as this
    /// backend sees the repository.
    spec fn resolves_spec(&self, path: Seq<char>) -> bool;

    /// The declared type of the module at `path`, meaningful when
    /// `resolves_spec(path)` holds.
    spec fn module_type_spec(&self, path: Seq<char>) -> Seq<char>;

    /// Returns the identifier string for this backend.
    fn id(&self) -> (r: String)
        ensures
            r@ == self.id_spec(),
    ;

    /// Returns the module types this backend can load.
    fn supported_module_types(&self) -> (r: Vec<String>)
        ensures
            r@.map_values(|s: String| s@) == self.supported_spec(),
    ;

    /// Loads the module at `path` into a sandbox. The caller hands in a
    /// shared handle to this backend (as obtained from the registry); the
    /// sandbox keeps it as its back-reference.
    ///
    /// On success the sandbox exposes exactly one service per export-spec
    /// entry, at the entry's position, and resolves integer identifiers
    /// exactly as `id_map` assigns them. The load fails with
    /// `ModuleNotFound` when the repository cannot resolve `path`, and with
    /// `UnsupportedModuleType` when the module's declared type is not in
    /// `supported_module_types()`; both carry the offending reference.
    fn load(self: Arc<Self>, path: &String, id_map: &IdMap, init: &Vec<u8>, exports: &ExportSpec)
        -> (r: Result<Self::Sb, Error>)
        ensures
            match r {
                Ok(sb) => {
                    &&& (*self).resolves_spec(path@)
                    &&& (*self).supported_spec().contains((*self).module_type_spec(path@))
                    &&& sb.sandboxer_id_spec() == (*self).id_spec()
                    &&& sb.export_count_spec() == exports.entry_count()
                    &&& forall|k: int| 0 <= k < exports.entry_count()
                        ==> sb.exported_spec(k) == Some((exports.ctor_name(k), exports.ctor_args(k)))
                    &&& forall|k: int| k < 0 || k >= exports.entry_count()
                        ==> sb.exported_spec(k) is None
                    &&& forall|i: int, j: int| sb.resolved_name_spec(i, j) == id_map.resolved(i, j)
                },
                Err(e) => match e {
                    Error::ModuleNotFound { path: p } => {
                        &&& !(*self).resolves_spec(path@)
                        &&& p@ == path@
                    },
                    Error::UnsupportedModuleType { path: p, ty } => {
                        &&& (*self).resolves_spec(path@)
                        &&& !(*self).supported_spec().contains((*self).module_type_spec(path@))
                        &&& p@ == path@
                        &&& ty@ == (*self).module_type_spec(path@)
                    },
                },
            },
    ;
}

} // verus!
