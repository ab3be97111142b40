//! Backend of a virtio RPMB (Replay-Protected Memory Block) device for
//! vhost-user: the backing store with its write-once key, the 512-byte frame
//! codec, and the protocol engine that turns descriptor chains into requests
//! and replies.

pub mod frame;
pub mod guest;
pub mod rpmb;
pub mod vhu_rpmb;
