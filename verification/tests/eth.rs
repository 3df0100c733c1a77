use runrun::eth::{Built, DevRpcBuilder, DevRpcCtx, DevRpcHook, SnapshotId};
use runrun::hook::Builder;
use runrun::outcome::Status;

#[derive(Clone)]
struct Ctx0 {
    client: u32,
}

impl DevRpcCtx for Ctx0 {
    type Client = u32;
    fn client(&self) -> u32 {
        self.client
    }
}

#[test]
fn hook_starts_at_snapshot_zero() {
    let h = DevRpcHook::new("client");
    assert_eq!(h.post(), SnapshotId::zero());
    assert_eq!(*h.get_client(), "client");
}

#[test]
fn post_reverts_to_last_pre_snapshot() {
    let mut h = DevRpcHook::new(1u8);
    let r = h.pre(SnapshotId(5, 0, 0, 1));
    assert_eq!(r.status, Status::Skip);
    assert_eq!(h.post(), SnapshotId(5, 0, 0, 1));
    h.pre(SnapshotId(6, 0, 0, 0));
    assert_eq!(h.post(), SnapshotId(6, 0, 0, 0));
    assert_eq!(h.reverted().status, Status::Skip);
}

#[test]
fn builder_takes_client_from_context() {
    let b: DevRpcBuilder<u32> = DevRpcHook::<u32>::builder();
    let h = b.build(&Ctx0 { client: 42 });
    assert_eq!(*h.get_client(), 42);
    assert_eq!(h.post(), SnapshotId(0, 0, 0, 0));
    let d: DevRpcBuilder<u32> = Default::default();
    let h2 = d.build(&Ctx0 { client: 7 });
    assert_eq!(*h2.get_client(), 7);
}

#[test]
fn builder_new_and_default_agree() {
    let a: DevRpcBuilder<u8> = DevRpcBuilder::new();
    let b: DevRpcBuilder<u8> = Default::default();
    let (ha, hb) = (a.build(&Ctx8), b.build(&Ctx8));
    assert_eq!(*ha.get_client(), *hb.get_client());
    assert_eq!(ha.post(), hb.post());
}

struct Ctx8;

impl DevRpcCtx for Ctx8 {
    type Client = u8;
    fn client(&self) -> u8 {
        8
    }
}
