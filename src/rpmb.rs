//! Backing store of the RPMB device: the mapped flash image, its capacity in
//! 128 KiB units, and the hidden device state (counters and the write-once
//! authentication key).

use vstd::prelude::*;

verus! {

pub const KB: u64 = 1024;

/// Size of one capacity unit of the flash image.
pub const UNIT_128KB: u64 = KB * 128;

/// Largest part of a backing file that the device exposes (128 units).
pub const MAX_RPMB_SIZE: u64 = UNIT_128KB * 128;

pub const RPMB_KEY_MAC_SIZE: usize = 32;

pub const RPMB_BLOCK_SIZE: usize = 256;

#[verifier::external_type_specification]
#[verifier::external_body]
#[verifier::reject_recursive_types(T)]
pub struct ExArrayVec<T, const CAP: usize>(arrayvec::ArrayVec<T, CAP>);

#[verifier::external_type_specification]
#[verifier::external_body]
pub struct ExMmapMut(memmap::MmapMut);

/// The bytes that a key buffer holds, in order.
pub uninterp spec fn key_contents(k: arrayvec::ArrayVec<u8, RPMB_KEY_MAC_SIZE>) -> Seq<u8>;

/// Relies on `ArrayVec::from([T; CAP])`: the vector holds the array's
/// elements, in order, and is full.
#[verifier::external_body]
fn key_from_array(a: [u8; RPMB_KEY_MAC_SIZE]) -> (r: arrayvec::ArrayVec<
    u8,
    RPMB_KEY_MAC_SIZE,
>)
    ensures
        key_contents(r) == a@,
{
    arrayvec::ArrayVec::from(a)
}

/// Relies on `ArrayVec`'s deref to a slice of its elements and on
/// `<[u8]>::to_vec`: a copy of the elements, in order.
#[verifier::external_body]
fn key_to_vec(k: &arrayvec::ArrayVec<u8, RPMB_KEY_MAC_SIZE>) -> (r: Vec<u8>)
    ensures
        r@ == key_contents(*k),
{
    k.to_vec()
}

/// Length of the part of a backing file of `file_len` bytes that is mapped.
pub open spec fn flash_len_of(file_len: u64) -> u64 {
    if file_len > MAX_RPMB_SIZE {
        MAX_RPMB_SIZE
    } else {
        file_len
    }
}

/// Capacity, in 128 KiB units, of a backing file of `file_len` bytes.
pub open spec fn capacity_of(file_len: u64) -> int {
    flash_len_of(file_len) as int / UNIT_128KB as int
}

/// The key slot after an attempt to program `k` into `slot`: an empty slot
/// takes the key, a full one keeps what it holds.
pub open spec fn key_slot_after(slot: Option<Seq<u8>>, k: Seq<u8>) -> Option<Seq<u8>> {
    if slot is None {
        Some(k)
    } else {
        slot
    }
}

/// The key slot after attempts to program each of `ks`, in order.
pub open spec fn key_slot_after_all(slot: Option<Seq<u8>>, ks: Seq<Seq<u8>>) -> Option<Seq<u8>>
    decreases ks.len(),
{
    if ks.len() == 0 {
        slot
    } else {
        key_slot_after(key_slot_after_all(slot, ks.drop_last()), ks.last())
    }
}

/// Programming keys one after another into an empty slot stores the first
/// of them for good: after the first attempt the slot holds it, so every
/// later attempt finds the slot full, fails with `AlreadyProgrammed`, and
/// leaves it holding the first key.
pub proof fn lemma_key_programmed_once(ks: Seq<Seq<u8>>)
    requires
        ks.len() >= 1,
    ensures
        forall|i: int|
            1 <= i <= ks.len() ==> #[trigger] key_slot_after_all(None, ks.take(i)) == Some(ks[0]),
    decreases ks.len(),
{
    if ks.len() > 1 {
        let pre = ks.drop_last();
        lemma_key_programmed_once(pre);
        assert forall|i: int| 1 <= i <= ks.len() implies #[trigger] key_slot_after_all(
            None,
            ks.take(i),
        ) == Some(ks[0]) by {
            if i < ks.len() {
                assert(ks.take(i) =~= pre.take(i));
            } else {
                assert(ks.take(i) =~= ks);
                assert(pre.take(pre.len() as int) =~= pre);
                assert(key_slot_after_all(None, pre.take(pre.len() as int)) == Some(pre[0]));
            }
        }
    } else {
        assert forall|i: int| 1 <= i <= ks.len() implies #[trigger] key_slot_after_all(
            None,
            ks.take(i),
        ) == Some(ks[0]) by {
            assert(ks.take(i) =~= ks);
            assert(ks.drop_last() =~= Seq::<Seq<u8>>::empty());
            assert(key_slot_after_all(None, ks.drop_last()) == None::<Seq<u8>>);
            assert(key_slot_after_all(None, ks) == key_slot_after(None, ks.last()));
        }
    }
}

/// The authentication key slot: empty until the first successful programming.
pub enum Key {
    Empty,
    Programmed(arrayvec::ArrayVec<u8, RPMB_KEY_MAC_SIZE>),
}

impl Key {
    pub open spec fn view(&self) -> Option<Seq<u8>> {
        match self {
            Key::Empty => None,
            Key::Programmed(k) => Some(key_contents(*k)),
        }
    }
}

#[derive(Debug, Clone, Copy, PartialEq, Eq, Structural)]
pub enum KeyError {
    /// A key is already stored; it cannot be replaced.
    AlreadyProgrammed,
}

#[derive(Debug, Clone, Copy, PartialEq, Eq, Structural)]
pub enum FlashError {
    /// The image holds more capacity units than one byte can count.
    InvalidCapacity,
}

/// The device state that requests may change.
pub struct RpmbMutableState {
    write_count: u32,
    read_count: u32,
    key: Key,
}

impl RpmbMutableState {
    /// The stored key, if one was programmed.
    pub closed spec fn key_view(&self) -> Option<Seq<u8>> {
        self.key@
    }

    pub closed spec fn counters(&self) -> (u32, u32) {
        (self.write_count, self.read_count)
    }

    pub fn new() -> (r: RpmbMutableState)
        ensures
            r.key_view() is None,
            r.counters() == (0u32, 0u32),
    {
        RpmbMutableState { write_count: 0, read_count: 0, key: Key::Empty }
    }

    /// Stores `key` if no key is stored yet; otherwise fails and changes
    /// nothing.
    pub fn program_key(&mut self, key: arrayvec::ArrayVec<u8, RPMB_KEY_MAC_SIZE>) -> (r: Result<
        (),
        KeyError,
    >)
        ensures
            final(self).key_view() == key_slot_after(old(self).key_view(), key_contents(key)),
            r is Ok <==> old(self).key_view() is None,
            r is Err ==> r == Err::<(), KeyError>(KeyError::AlreadyProgrammed),
            final(self).counters() == old(self).counters(),
        no_unwind
    {
        if let Key::Empty = self.key {
            self.key = Key::Programmed(key);
            Ok(())
        } else {
            Err(KeyError::AlreadyProgrammed)
        }
    }

    /// A copy of the stored key, if one was programmed.
    pub fn programmed_key(&self) -> (r: Option<Vec<u8>>)
        ensures
            r is None <==> self.key_view() is None,
            r is Some ==> Some(r->Some_0@) == self.key_view(),
    {
        match &self.key {
            Key::Empty => None,
            Key::Programmed(k) => Some(key_to_vec(k)),
        }
    }
}

/// Length of the part of a backing file of `file_len` bytes that the device
/// maps: the file itself, cut to `MAX_RPMB_SIZE`.
pub fn flash_len(file_len: u64) -> (r: u64)
    ensures
        r == flash_len_of(file_len),
        r <= MAX_RPMB_SIZE,
{
    if file_len > MAX_RPMB_SIZE {
        MAX_RPMB_SIZE
    } else {
        file_len
    }
}

/// Capacity in 128 KiB units of a backing file of `file_len` bytes.
pub fn capacity_units(file_len: u64) -> (r: Result<u8, FlashError>)
    ensures
        r is Ok,
        r->Ok_0 == capacity_of(file_len),
        0 <= capacity_of(file_len) <= 128,
{
    let units: u64 = flash_len(file_len) / UNIT_128KB;
    if units > 255 {
        Err(FlashError::InvalidCapacity)
    } else {
        Ok(units as u8)
    }
}

/// The backing store: the mapped flash image, its fixed capacity and the
/// mutable device state.
pub struct RpmbBackend {
    image: memmap::MmapMut,
    capacity: u8,
    state: RpmbMutableState,
}

impl RpmbBackend {
    /// The capacity never exceeds the 128 units of the largest image.
    #[verifier::type_invariant]
    spec fn capacity_fits(&self) -> bool {
        self.capacity <= 128
    }

    pub closed spec fn capacity_view(&self) -> int {
        self.capacity as int
    }

    pub closed spec fn key_view(&self) -> Option<Seq<u8>> {
        self.state.key_view()
    }

    pub closed spec fn counters(&self) -> (u32, u32) {
        self.state.counters()
    }

    /// Builds the store over `image`, the mapping of the first
    /// `flash_len(file_len)` bytes of a backing file of `file_len` bytes.
    pub fn new(image: memmap::MmapMut, file_len: u64) -> (r: Result<RpmbBackend, FlashError>)
        ensures
            r is Ok,
            r->Ok_0.capacity_view() == capacity_of(file_len),
            r->Ok_0.capacity_view() == flash_len_of(file_len) / UNIT_128KB,
            0 <= r->Ok_0.capacity_view() <= 128,
            file_len >= MAX_RPMB_SIZE ==> r->Ok_0.capacity_view() == 128,
            r->Ok_0.key_view() is None,
            r->Ok_0.counters() == (0u32, 0u32),
    {
        let capacity = match capacity_units(file_len) {
            Ok(c) => c,
            Err(e) => {
                return Err(e);
            },
        };
        Ok(RpmbBackend { image, capacity, state: RpmbMutableState::new() })
    }

    pub fn get_capacity(&self) -> (r: u8)
        ensures
            r == self.capacity_view(),
            r <= 128,
    {
        proof {
            use_type_invariant(self);
        }
        self.capacity
    }

    /// Stores `key` once; every later call fails with `AlreadyProgrammed`
    /// and keeps the stored key.
    pub fn program_key(&mut self, key: arrayvec::ArrayVec<u8, RPMB_KEY_MAC_SIZE>) -> (r: Result<
        (),
        KeyError,
    >)
        ensures
            final(self).key_view() == key_slot_after(old(self).key_view(), key_contents(key)),
            r is Ok <==> old(self).key_view() is None,
            r is Err ==> r == Err::<(), KeyError>(KeyError::AlreadyProgrammed),
            final(self).capacity_view() == old(self).capacity_view(),
            final(self).counters() == old(self).counters(),
    {
        proof {
            use_type_invariant(&*self);
        }
        self.state.program_key(key)
    }

    /// Stores the key held in a frame's 32-byte key field, as `program_key`.
    pub fn program_key_bytes(&mut self, key: [u8; RPMB_KEY_MAC_SIZE]) -> (r: Result<(), KeyError>)
        ensures
            final(self).key_view() == key_slot_after(old(self).key_view(), key@),
            r is Ok <==> old(self).key_view() is None,
            r is Err ==> r == Err::<(), KeyError>(KeyError::AlreadyProgrammed),
            final(self).capacity_view() == old(self).capacity_view(),
            final(self).counters() == old(self).counters(),
    {
        self.program_key(key_from_array(key))
    }

    /// A copy of the stored key, if one was programmed.
    pub fn programmed_key(&self) -> (r: Option<Vec<u8>>)
        ensures
            r is None <==> self.key_view() is None,
            r is Some ==> Some(r->Some_0@) == self.key_view(),
    {
        self.state.programmed_key()
    }
}

} // verus!
