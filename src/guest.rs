//! Access to guest memory through vm-memory. What guest memory holds is up
//! to the guest, so the wrappers here promise only the shape of a result.

use vstd::prelude::*;
use vm_memory::Bytes;

verus! {

#[verifier::external_type_specification]
#[verifier::external_body]
#[verifier::reject_recursive_types(R)]
pub struct ExGuestRegionCollection<R>(vm_memory::GuestRegionCollection<R>);

#[verifier::external_type_specification]
#[verifier::external_body]
#[verifier::reject_recursive_types(B)]
pub struct ExGuestRegionMmap<B>(vm_memory::GuestRegionMmap<B>);

#[verifier::external_type_specification]
#[verifier::external_body]
pub struct ExGuestMemoryError(vm_memory::GuestMemoryError);

/// Relies on `Bytes::read_slice` of `GuestMemoryMmap`: it fills the whole
/// buffer from guest memory at `addr`, or fails (a short read is an error).
#[verifier::external_body]
pub(crate) fn read_guest(mem: &vm_memory::GuestMemoryMmap, addr: u64, len: usize) -> (r: Result<
    Vec<u8>,
    vm_memory::GuestMemoryError,
>)
    ensures
        r is Ok ==> r->Ok_0@.len() == len,
{
    let mut buf = vec![0u8; len];
    mem.read_slice(&mut buf, vm_memory::GuestAddress(addr)).map(|()| buf)
}

/// Relies on `Bytes::write_slice` of `GuestMemoryMmap`: it writes all of
/// `bytes` to guest memory at `addr`, or fails.
#[verifier::external_body]
pub(crate) fn write_guest(mem: &vm_memory::GuestMemoryMmap, addr: u64, bytes: &[u8]) -> (r: Result<
    (),
    vm_memory::GuestMemoryError,
>) {
    mem.write_slice(bytes, vm_memory::GuestAddress(addr))
}

} // verus!
