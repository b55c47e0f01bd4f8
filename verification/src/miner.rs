//! The miner-facing work adapter: the decision rules of handing out and
//! accepting proof-of-work packages.
//!
//! The blockchain client and the mining service behind the adapter are
//! external collaborators; the adapter consumes what they report (whether
//! the engine produces work packages externally, whether an author is
//! configured, the current sealing work) as plain values and decides what
//! the caller receives.

use vstd::prelude::*;
use std::sync::Arc;

verus! {

/// A proof-of-work package: the hash to work on and the target derived
/// from the block's score. Both are opaque byte values computed by the
/// blockchain client.
#[derive(Clone, Debug)]
pub struct Work {
    pub pow_hash: Vec<u8>,
    pub target: Vec<u8>,
}

/// Why no work package is handed out.
#[derive(Clone, Copy, Debug, PartialEq, Eq, Structural)]
pub enum MinerError {
    /// The engine seals internally; no external work is required.
    NoWorkRequired,
    /// No author is configured to credit the work to.
    NoAuthor,
    /// The mining service currently has no sealing work.
    NoWorkFound,
}

/// The work adapter over a blockchain client `C` and a mining service `M`.
pub struct MinerClient<C, M> {
    client: Arc<C>,
    miner: Arc<M>,
}

impl<C, M> MinerClient<C, M> {
    /// The shared blockchain client this adapter consults.
    pub closed spec fn client_spec(self) -> Arc<C> {
        self.client
    }

    /// The shared mining service this adapter consults.
    pub closed spec fn miner_spec(self) -> Arc<M> {
        self.miner
    }

    /// An adapter over the given shared client and mining service.
    pub fn new(client: Arc<C>, miner: Arc<M>) -> (r: Self)
        ensures
            r.client_spec() == client,
            r.miner_spec() == miner,
    {
        Self {
            client,
            miner,
        }
    }

    /// Decides what a work request returns, given what the mining service
    /// reports: refuse when the engine seals internally, refuse when no
    /// author is configured, otherwise hand out the current sealing work
    /// if there is any.
    pub fn get_work(
        &self,
        can_produce_work_package: bool,
        author_is_zero: bool,
        sealing_work: Option<Work>,
    ) -> (r: Result<Work, MinerError>)
        ensures
            !can_produce_work_package ==> r is Err && r->Err_0 is NoWorkRequired,
            can_produce_work_package && author_is_zero ==> r is Err && r->Err_0 is NoAuthor,
            can_produce_work_package && !author_is_zero ==> match sealing_work {
                Some(w) => r is Ok && r->Ok_0 == w,
                None => r is Err && r->Err_0 is NoWorkFound,
            },
    {
        if !can_produce_work_package {
            return Err(MinerError::NoWorkRequired);
        }
        if author_is_zero {
            return Err(MinerError::NoAuthor);
        }
        match sealing_work {
            Some(w) => Ok(w),
            None => Err(MinerError::NoWorkFound),
        }
    }

    /// Decides what a work submission returns: refuse when the engine
    /// seals internally, otherwise report whether the mining service
    /// accepted the seal.
    pub fn submit_work(&self, can_produce_work_package: bool, seal_accepted: bool) -> (r: Result<
        bool,
        MinerError,
    >)
        ensures
            !can_produce_work_package ==> r is Err && r->Err_0 is NoWorkRequired,
            can_produce_work_package ==> r == Ok::<bool, MinerError>(seal_accepted),
    {
        if !can_produce_work_package {
            return Err(MinerError::NoWorkRequired);
        }
        Ok(seal_accepted)
    }
}

} // verus!
