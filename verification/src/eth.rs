//! An Ethereum hook: before each test it takes a snapshot of a development
//! node's state, and after the test it reverts the node to that snapshot.
//! The RPC calls themselves are made by the caller; this module keeps the
//! snapshot id that links them.
use crate::hook::{Base, Builder, HookRun};
use crate::outcome::{plain, Status, TestRes};
use core::marker::PhantomData;
use vstd::prelude::*;

verus! {

/// The id of a node snapshot: a 256-bit number, as four 64-bit limbs, least
/// significant first.
#[derive(Debug, Clone, Copy, PartialEq, Eq, Structural)]
pub struct SnapshotId(pub u64, pub u64, pub u64, pub u64);

impl SnapshotId {
    pub open spec fn is_zero(&self) -> bool {
        self.0 == 0 && self.1 == 0 && self.2 == 0 && self.3 == 0
    }

    /// The id 0.
    pub fn zero() -> (r: SnapshotId)
        ensures
            r.is_zero(),
    {
        SnapshotId(0, 0, 0, 0)
    }
}

/// Implemented by the initial context of Ethereum tests, to hand out the
/// RPC client that the hooks use.
///
/// `client_ok(out)` says that `out` is a client that `client` may hand out;
/// a context that says nothing more admits every value.
pub trait DevRpcCtx {
    type Client: Clone;

    open spec fn client_ok(&self, out: Self::Client) -> bool {
        true
    }

    fn client(&self) -> (r: Self::Client)
        ensures
            self.client_ok(r),
    ;
}

/// A hook that saves the node state before each test and restores it after.
#[derive(Clone)]
pub struct DevRpcHook<M> {
    snap_id: SnapshotId,
    client: M,
}

impl<M> DevRpcHook<M> {
    /// The snapshot to revert to after the test.
    pub closed spec fn snap_id(&self) -> SnapshotId {
        self.snap_id
    }

    /// The client through which the RPC calls are made.
    pub closed spec fn client(&self) -> M {
        self.client
    }

    pub fn new(client: M) -> (r: DevRpcHook<M>)
        ensures
            r.snap_id().is_zero(),
            r.client() == client,
    {
        DevRpcHook { snap_id: SnapshotId::zero(), client }
    }

    /// The client through which the RPC calls are made.
    pub fn get_client(&self) -> (r: &M)
        ensures
            *r == self.client(),
    {
        &self.client
    }

    /// The `pre` hook, once the node has taken the snapshot `id`: the hook
    /// keeps `id` and reports a skipped result.
    pub fn pre(&mut self, id: SnapshotId) -> (r: TestRes)
        ensures
            final(self).snap_id() == id,
            final(self).client() == old(self).client(),
            r@ == plain(Status::Skip),
    {
        self.snap_id = id;
        TestRes::default()
    }

    /// The `post` hook: the snapshot that the node is to revert to, the one
    /// that the last `pre` hook kept.
    pub fn post(&self) -> (r: SnapshotId)
        ensures
            r == self.snap_id(),
    {
        self.snap_id
    }

    /// The result that the `post` hook reports once the node has reverted.
    pub fn reverted(&self) -> (r: TestRes)
        ensures
            r@ == plain(Status::Skip),
    {
        TestRes::default()
    }
}

/// A runner that runs each test between a snapshot and a revert.
pub type Eth<M> = HookRun<Base, DevRpcHook<M>>;

/// Builds a `DevRpcHook` from the client of a context.
pub struct DevRpcBuilder<M>(pub PhantomData<M>);

impl<M> DevRpcBuilder<M> {
    pub fn new() -> (r: DevRpcBuilder<M>)
        ensures
            r == DevRpcBuilder::<M>(PhantomData),
    {
        DevRpcBuilder(PhantomData)
    }
}

impl<M> Default for DevRpcBuilder<M> {
    fn default() -> (r: DevRpcBuilder<M>)
        ensures
            r == DevRpcBuilder::<M>(PhantomData),
    {
        DevRpcBuilder::new()
    }
}

impl<M, C> Builder<C> for DevRpcBuilder<M> where C: DevRpcCtx<Client = M> {
    type This = DevRpcHook<M>;

    /// The hook starts with snapshot id 0 and the client that the context
    /// hands out.
    open spec fn builds(&self, base: C, out: DevRpcHook<M>) -> bool {
        out.snap_id().is_zero() && base.client_ok(out.client())
    }

    fn build(self, base: &C) -> (r: DevRpcHook<M>) {
        DevRpcHook::new(base.client())
    }
}

/// A type with a builder of its own.
pub trait Built {
    type Builder;

    fn builder() -> Self::Builder;
}

impl<M> Built for DevRpcHook<M> {
    type Builder = DevRpcBuilder<M>;

    fn builder() -> (r: DevRpcBuilder<M>)
        ensures
            r == DevRpcBuilder::<M>(PhantomData),
    {
        DevRpcBuilder::new()
    }
}

} // verus!
