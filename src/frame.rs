//! The RPMB frame: a fixed 512-byte record whose multi-byte integer fields
//! are big-endian on the wire.

use vstd::prelude::*;
use crate::rpmb::{RPMB_BLOCK_SIZE, RPMB_KEY_MAC_SIZE};

verus! {

pub const RPMB_FRAME_SIZE: usize = 512;

pub const RPMB_STUFF_SIZE: usize = 196;

pub const RPMB_NONCE_SIZE: usize = 16;

/// Offsets of the fields in the wire record.
pub const KEY_MAC_OFFSET: usize = 196;

pub const DATA_OFFSET: usize = 228;

pub const NONCE_OFFSET: usize = 484;

pub const WRITE_COUNTER_OFFSET: usize = 500;

pub const ADDRESS_OFFSET: usize = 504;

pub const BLOCK_COUNT_OFFSET: usize = 506;

pub const RESULT_OFFSET: usize = 508;

pub const REQ_RESP_OFFSET: usize = 510;

/// One RPMB frame, its integer fields held as native values.
#[derive(Clone, Copy, Debug, PartialEq, Eq)]
pub struct VirtIORPMBFrame {
    pub stuff: [u8; RPMB_STUFF_SIZE],
    pub key_mac: [u8; RPMB_KEY_MAC_SIZE],
    pub data: [u8; RPMB_BLOCK_SIZE],
    pub nonce: [u8; RPMB_NONCE_SIZE],
    pub write_counter: u32,
    pub address: u16,
    pub block_count: u16,
    pub result: u16,
    pub req_resp: u16,
}

/// Big-endian bytes of a 16-bit value.
pub open spec fn be16_bytes(v: u16) -> Seq<u8> {
    seq![(v / 256) as u8, (v % 256) as u8]
}

/// Big-endian bytes of a 32-bit value.
pub open spec fn be32_bytes(v: u32) -> Seq<u8> {
    seq![
        (v / 0x100_0000) as u8,
        ((v / 0x1_0000) % 256) as u8,
        ((v / 256) % 256) as u8,
        (v % 256) as u8,
    ]
}

/// The big-endian 16-bit value of the two bytes of `s` from `i` on.
pub open spec fn be16_at(s: Seq<u8>, i: int) -> int {
    s[i] * 256 + s[i + 1]
}

/// The big-endian 32-bit value of the four bytes of `s` from `i` on.
pub open spec fn be32_at(s: Seq<u8>, i: int) -> int {
    ((s[i] * 256 + s[i + 1]) * 256 + s[i + 2]) * 256 + s[i + 3]
}

/// The wire form of a frame.
pub open spec fn frame_bytes(f: VirtIORPMBFrame) -> Seq<u8> {
    f.stuff@ + f.key_mac@ + f.data@ + f.nonce@ + be32_bytes(f.write_counter) + be16_bytes(
        f.address,
    ) + be16_bytes(f.block_count) + be16_bytes(f.result) + be16_bytes(f.req_resp)
}

/// `f` is what the 512 bytes `s` hold, read field by field.
pub open spec fn decodes_to(s: Seq<u8>, f: VirtIORPMBFrame) -> bool {
    &&& s.len() == RPMB_FRAME_SIZE
    &&& f.stuff@ == s.subrange(0, KEY_MAC_OFFSET as int)
    &&& f.key_mac@ == s.subrange(KEY_MAC_OFFSET as int, DATA_OFFSET as int)
    &&& f.data@ == s.subrange(DATA_OFFSET as int, NONCE_OFFSET as int)
    &&& f.nonce@ == s.subrange(NONCE_OFFSET as int, WRITE_COUNTER_OFFSET as int)
    &&& f.write_counter as int == be32_at(s, WRITE_COUNTER_OFFSET as int)
    &&& f.address as int == be16_at(s, ADDRESS_OFFSET as int)
    &&& f.block_count as int == be16_at(s, BLOCK_COUNT_OFFSET as int)
    &&& f.result as int == be16_at(s, RESULT_OFFSET as int)
    &&& f.req_resp as int == be16_at(s, REQ_RESP_OFFSET as int)
}

/// `f` is a reply frame: all fields zero but `req_resp` and `result`.
pub open spec fn is_result_frame(f: VirtIORPMBFrame, response: u16, result: u16) -> bool {
    &&& f.stuff@ == Seq::new(RPMB_STUFF_SIZE as nat, |i: int| 0u8)
    &&& f.key_mac@ == Seq::new(RPMB_KEY_MAC_SIZE as nat, |i: int| 0u8)
    &&& f.data@ == Seq::new(RPMB_BLOCK_SIZE as nat, |i: int| 0u8)
    &&& f.nonce@ == Seq::new(RPMB_NONCE_SIZE as nat, |i: int| 0u8)
    &&& f.write_counter == 0
    &&& f.address == 0
    &&& f.block_count == 0
    &&& f.result == result
    &&& f.req_resp == response
}

fn zero_array<const N: usize>() -> (r: [u8; N])
    ensures
        r@ == Seq::new(N as nat, |i: int| 0u8),
{
    let r: [u8; N] = [0u8; N];
    assert(r@ =~= Seq::new(N as nat, |i: int| 0u8));
    r
}

fn copy_array<const N: usize>(b: &[u8], start: usize) -> (r: [u8; N])
    requires
        start + N <= b@.len(),
    ensures
        r@ == b@.subrange(start as int, start + N),
{
    let mut r: [u8; N] = [0u8; N];
    let len: usize = b.len();
    let mut i: usize = 0;
    while i < N
        invariant
            start + N <= b@.len(),
            len == b@.len(),
            i <= N,
            r@.len() == N,
            forall|j: int| 0 <= j < i ==> r@[j] == b@[start + j],
        decreases N - i,
    {
        r[i] = b[start + i];
        i = i + 1;
    }
    assert(r@ =~= b@.subrange(start as int, start + N));
    r
}

fn read_be16(b: &[u8], i: usize) -> (r: u16)
    requires
        i + 2 <= b@.len(),
    ensures
        r as int == be16_at(b@, i as int),
{
    (b[i] as u16) * 256 + (b[i + 1] as u16)
}

fn read_be32(b: &[u8], i: usize) -> (r: u32)
    requires
        i + 4 <= b@.len(),
    ensures
        r as int == be32_at(b@, i as int),
{
    (((b[i] as u32) * 256 + (b[i + 1] as u32)) * 256 + (b[i + 2] as u32)) * 256 + (b[i + 3] as u32)
}

fn push_bytes(out: &mut Vec<u8>, src: &[u8])
    ensures
        final(out)@ == old(out)@ + src@,
{
    let mut i: usize = 0;
    while i < src.len()
        invariant
            i <= src@.len(),
            out@ == old(out)@ + src@.subrange(0, i as int),
        decreases src@.len() - i,
    {
        out.push(src[i]);
        i = i + 1;
        assert(out@ =~= old(out)@ + src@.subrange(0, i as int));
    }
    assert(src@.subrange(0, src@.len() as int) =~= src@);
}

fn push_be16(out: &mut Vec<u8>, v: u16)
    ensures
        final(out)@ == old(out)@ + be16_bytes(v),
{
    out.push((v / 256) as u8);
    out.push((v % 256) as u8);
    assert(out@ =~= old(out)@ + be16_bytes(v));
}

fn push_be32(out: &mut Vec<u8>, v: u32)
    ensures
        final(out)@ == old(out)@ + be32_bytes(v),
{
    out.push((v / 0x100_0000) as u8);
    out.push(((v / 0x1_0000) % 256) as u8);
    out.push(((v / 256) % 256) as u8);
    out.push((v % 256) as u8);
    assert(out@ =~= old(out)@ + be32_bytes(v));
}

impl VirtIORPMBFrame {
    /// A reply frame carrying `response` and `result`, every other field zero.
    pub fn result(response: u16, result: u16) -> (r: Self)
        ensures
            is_result_frame(r, response, result),
    {
        VirtIORPMBFrame {
            stuff: zero_array(),
            key_mac: zero_array(),
            data: zero_array(),
            nonce: zero_array(),
            write_counter: 0,
            address: 0,
            block_count: 0,
            result,
            req_resp: response,
        }
    }

    /// Reads a frame from its 512-byte wire form. No field is checked: the
    /// bytes are taken as they are.
    pub fn decode(b: &[u8]) -> (r: Self)
        requires
            b@.len() == RPMB_FRAME_SIZE,
        ensures
            decodes_to(b@, r),
    {
        VirtIORPMBFrame {
            stuff: copy_array(b, 0),
            key_mac: copy_array(b, KEY_MAC_OFFSET),
            data: copy_array(b, DATA_OFFSET),
            nonce: copy_array(b, NONCE_OFFSET),
            write_counter: read_be32(b, WRITE_COUNTER_OFFSET),
            address: read_be16(b, ADDRESS_OFFSET),
            block_count: read_be16(b, BLOCK_COUNT_OFFSET),
            result: read_be16(b, RESULT_OFFSET),
            req_resp: read_be16(b, REQ_RESP_OFFSET),
        }
    }

    /// The 512-byte wire form of the frame.
    pub fn encode(&self) -> (r: Vec<u8>)
        ensures
            r@ == frame_bytes(*self),
            r@.len() == RPMB_FRAME_SIZE,
    {
        let mut out: Vec<u8> = Vec::new();
        push_bytes(&mut out, self.stuff.as_slice());
        push_bytes(&mut out, self.key_mac.as_slice());
        push_bytes(&mut out, self.data.as_slice());
        push_bytes(&mut out, self.nonce.as_slice());
        push_be32(&mut out, self.write_counter);
        push_be16(&mut out, self.address);
        push_be16(&mut out, self.block_count);
        push_be16(&mut out, self.result);
        push_be16(&mut out, self.req_resp);
        out
    }
}

impl Default for VirtIORPMBFrame {
    fn default() -> (r: Self)
        ensures
            is_result_frame(r, 0, 0),
    {
        VirtIORPMBFrame::result(0, 0)
    }
}

proof fn lemma_be16_round_trip(v: u16)
    ensures
        be16_at(be16_bytes(v), 0) == v as int,
{
}

proof fn lemma_be32_round_trip(v: u32)
    ensures
        be32_at(be32_bytes(v), 0) == v as int,
{
}

proof fn lemma_be16_bytes_of(s: Seq<u8>, i: int)
    requires
        0 <= i,
        i + 2 <= s.len(),
    ensures
        be16_bytes(be16_at(s, i) as u16) == s.subrange(i, i + 2),
{
    assert(be16_bytes(be16_at(s, i) as u16) =~= s.subrange(i, i + 2));
}

proof fn lemma_be32_bytes_of(s: Seq<u8>, i: int)
    requires
        0 <= i,
        i + 4 <= s.len(),
    ensures
        be32_bytes(be32_at(s, i) as u32) == s.subrange(i, i + 4),
{
    assert(be32_bytes(be32_at(s, i) as u32) =~= s.subrange(i, i + 4));
}

/// Decoding the wire form of any frame gives that frame back, every field
/// and every big-endian integer included.
pub proof fn lemma_decode_encode(f: VirtIORPMBFrame, g: VirtIORPMBFrame)
    requires
        decodes_to(frame_bytes(f), g),
    ensures
        g == f,
{
    let s = frame_bytes(f);
    lemma_be32_round_trip(f.write_counter);
    lemma_be16_round_trip(f.address);
    lemma_be16_round_trip(f.block_count);
    lemma_be16_round_trip(f.result);
    lemma_be16_round_trip(f.req_resp);
    assert(s.subrange(0, 196) =~= f.stuff@);
    assert(s.subrange(196, 228) =~= f.key_mac@);
    assert(s.subrange(228, 484) =~= f.data@);
    assert(s.subrange(484, 500) =~= f.nonce@);
    assert(s.subrange(500, 504) =~= be32_bytes(f.write_counter));
    assert(s.subrange(504, 506) =~= be16_bytes(f.address));
    assert(s.subrange(506, 508) =~= be16_bytes(f.block_count));
    assert(s.subrange(508, 510) =~= be16_bytes(f.result));
    assert(s.subrange(510, 512) =~= be16_bytes(f.req_resp));
    assert(g.stuff =~= f.stuff);
    assert(g.key_mac =~= f.key_mac);
    assert(g.data =~= f.data);
    assert(g.nonce =~= f.nonce);
}

/// Encoding what 512 bytes decode to gives those bytes back.
pub proof fn lemma_encode_decode(s: Seq<u8>, f: VirtIORPMBFrame)
    requires
        decodes_to(s, f),
    ensures
        frame_bytes(f) == s,
{
    lemma_be32_bytes_of(s, 500);
    lemma_be16_bytes_of(s, 504);
    lemma_be16_bytes_of(s, 506);
    lemma_be16_bytes_of(s, 508);
    lemma_be16_bytes_of(s, 510);
    assert(frame_bytes(f) =~= s);
}

} // verus!
