use vstd::prelude::*;

use core::marker::PhantomData;
use tokio_util::bytes::BytesMut;

use crate::bat::BatThreshold;
use crate::ec::RWData;
use crate::fan_speed::FanMode;
use crate::traits::WriteResult;

verus! {

/// Requests a client sends to the daemon.
#[derive(Debug)]
pub enum DaemonReq {
    SetFanMode(FanMode),
    SetBatThreshold(BatThreshold),
    ReadValues(Vec<RWData>),
}

/// Replies the daemon sends back.
#[derive(Debug)]
pub enum DaemonResp {
    ReadValues(Vec<RWData>),
    WriteResult(WriteResult),
    Error(String),
}

#[verifier::external_type_specification]
#[verifier::external_body]
pub struct ExBytesMut(BytesMut);

/// The bytes a buffer holds, in order.
pub uninterp spec fn buffered(b: BytesMut) -> Seq<u8>;

/// Relies on `<BytesMut as Deref>::deref`: a view of the bytes held.
#[verifier::external_body]
fn held(b: &BytesMut) -> (r: &[u8])
    ensures
        r@ == buffered(*b),
{
    core::ops::Deref::deref(b)
}

/// Relies on `<BytesMut as Buf>::advance`: drops the first `n` bytes (it
/// panics when fewer are held).
#[verifier::external_body]
fn drop_front(b: &mut BytesMut, n: usize)
    requires
        n <= buffered(*old(b)).len(),
    ensures
        buffered(*final(b)) == buffered(*old(b)).subrange(n as int, buffered(*old(b)).len() as int),
{
    tokio_util::bytes::Buf::advance(b, n)
}

/// Relies on `BytesMut::extend_from_slice`: appends the bytes at the end.
#[verifier::external_body]
fn append(b: &mut BytesMut, s: &[u8])
    ensures
        buffered(*final(b)) == buffered(*old(b)) + s@,
{
    b.extend_from_slice(s)
}

/// Length of the little-endian length prefix of a frame.
pub const PREFIX_LEN: usize = 4;

/// The four little-endian bytes of `n`.
pub open spec fn le_bytes(n: u32) -> Seq<u8> {
    seq![
        (n & 0xff) as u8,
        ((n >> 8u32) & 0xff) as u8,
        ((n >> 16u32) & 0xff) as u8,
        ((n >> 24u32) & 0xff) as u8,
    ]
}

pub open spec fn le_of(b0: u8, b1: u8, b2: u8, b3: u8) -> u32 {
    (b0 as u32) | ((b1 as u32) << 8u32) | ((b2 as u32) << 16u32) | ((b3 as u32) << 24u32)
}

/// The number that four little-endian bytes encode.
pub open spec fn le_value(b: Seq<u8>) -> u32 {
    le_of(b[0], b[1], b[2], b[3])
}

proof fn lemma_le_round_trip(n: u32)
    ensures
        le_value(le_bytes(n)) == n,
{
    let b0 = (n & 0xff) as u8;
    let b1 = ((n >> 8u32) & 0xff) as u8;
    let b2 = ((n >> 16u32) & 0xff) as u8;
    let b3 = ((n >> 24u32) & 0xff) as u8;
    assert(le_of(b0, b1, b2, b3) == n) by (bit_vector)
        requires
            b0 == (n & 0xff) as u8,
            b1 == ((n >> 8u32) & 0xff) as u8,
            b2 == ((n >> 16u32) & 0xff) as u8,
            b3 == ((n >> 24u32) & 0xff) as u8,
    ;
}

/// A frame: the payload's length as four little-endian bytes, then the payload.
pub open spec fn frame(payload: Seq<u8>) -> Seq<u8> {
    le_bytes(payload.len() as u32) + payload
}

/// The first complete frame at the front of `buf`, split into its payload
/// and the bytes that follow it; `None` while more data is needed.
pub open spec fn first_frame(buf: Seq<u8>) -> Option<(Seq<u8>, Seq<u8>)> {
    if buf.len() < PREFIX_LEN {
        None
    } else {
        let n = le_value(buf) as int;
        if buf.len() < PREFIX_LEN + n {
            None
        } else {
            Some((buf.subrange(PREFIX_LEN as int, PREFIX_LEN + n), buf.subrange(PREFIX_LEN + n, buf.len() as int)))
        }
    }
}

/// A frame decodes to its payload, whatever bytes follow it.
pub proof fn lemma_frame_round_trip(payload: Seq<u8>, rest: Seq<u8>)
    requires
        payload.len() <= u32::MAX,
    ensures
        first_frame(frame(payload) + rest) == Some((payload, rest)),
{
    let buf = frame(payload) + rest;
    lemma_le_round_trip(payload.len() as u32);
    assert(le_value(buf) == le_value(le_bytes(payload.len() as u32)));
    assert(buf.subrange(PREFIX_LEN as int, PREFIX_LEN + payload.len()) =~= payload);
    assert(buf.subrange(PREFIX_LEN + payload.len(), buf.len() as int) =~= rest);
}

/// A frame cut in two at any byte: the first piece alone asks for more data,
/// and the two pieces together decode as the whole frame does.
pub proof fn lemma_frame_split(payload: Seq<u8>, k: int)
    requires
        payload.len() <= u32::MAX,
        0 <= k <= frame(payload).len(),
    ensures
        k < frame(payload).len() ==> first_frame(frame(payload).take(k)) is None,
        first_frame(frame(payload).take(k) + frame(payload).skip(k)) == Some(
            (payload, Seq::<u8>::empty()),
        ),
{
    let f = frame(payload);
    assert(f.take(k) + f.skip(k) =~= f);
    assert(f + Seq::<u8>::empty() =~= f);
    lemma_frame_round_trip(payload, Seq::<u8>::empty());
    lemma_le_round_trip(payload.len() as u32);
    if PREFIX_LEN <= k < f.len() {
        assert(le_value(f.take(k)) == le_value(f));
    }
}

/// The client side of the protocol: sends requests, receives replies.
#[derive(Debug)]
pub struct RoleClient;

/// The server side of the protocol: receives requests, sends replies.
#[derive(Debug)]
pub struct RoleServer;

/// Length-prefixed framing of the protocol's messages, for one side.
#[derive(Debug)]
pub struct DaemonCodec<T> {
    _phantom: PhantomData<T>,
}

impl<T> DaemonCodec<T> {
    pub fn new() -> Self {
        DaemonCodec { _phantom: PhantomData }
    }

    /// Takes the first complete frame off the front of `src` and returns its
    /// payload; leaves `src` as it is while the frame is incomplete.
    pub fn decode(&mut self, src: &mut BytesMut) -> (r: Option<Vec<u8>>)
        ensures
            first_frame(buffered(*old(src))) is None ==> r is None && buffered(*final(src))
                == buffered(*old(src)),
            first_frame(buffered(*old(src))) matches Some((payload, rest)) ==> r is Some
                && r->Some_0@ == payload && buffered(*final(src)) == rest,
    {
        let bytes = held(src);
        let avail = bytes.len();
        if avail < PREFIX_LEN {
            return None;
        }
        let length = (bytes[0] as u32) | ((bytes[1] as u32) << 8u32) | ((bytes[2] as u32) << 16u32)
            | ((bytes[3] as u32) << 24u32);
        if ((avail - PREFIX_LEN) as u64) < (length as u64) {
            return None;
        }
        let end = PREFIX_LEN + length as usize;
        let mut payload: Vec<u8> = Vec::new();
        let mut i = PREFIX_LEN;
        while i < end
            invariant
                PREFIX_LEN <= i <= end <= avail,
                avail == bytes@.len(),
                payload@ == bytes@.subrange(PREFIX_LEN as int, i as int),
            decreases end - i,
        {
            payload.push(bytes[i]);
            i = i + 1;
            assert(payload@ =~= bytes@.subrange(PREFIX_LEN as int, i as int));
        }
        drop_front(src, end);
        Some(payload)
    }

    /// Appends a frame holding `payload` to `dst`.
    pub fn encode(&mut self, payload: &[u8], dst: &mut BytesMut)
        requires
            payload@.len() <= u32::MAX,
        ensures
            buffered(*final(dst)) == buffered(*old(dst)) + frame(payload@),
    {
        let n = payload.len() as u32;
        let prefix: [u8; 4] = [
            (n & 0xff) as u8,
            ((n >> 8u32) & 0xff) as u8,
            ((n >> 16u32) & 0xff) as u8,
            ((n >> 24u32) & 0xff) as u8,
        ];
        assert(prefix@ =~= le_bytes(n));
        append(dst, &prefix);
        append(dst, payload);
        assert(buffered(*old(dst)) + le_bytes(n) + payload@ =~= buffered(*old(dst)) + frame(payload@));
    }
}

} // verus!
