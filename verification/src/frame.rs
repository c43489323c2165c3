//! Length-prefixed framing of session payloads: every frame is the payload's
//! length as a big-endian `u64`, followed by the payload itself.

use vstd::prelude::*;

verus! {

/// The eight big-endian bytes of `n`.
pub open spec fn be_bytes(n: u64) -> Seq<u8> {
    seq![
        (n >> 56u64) as u8,
        (n >> 48u64) as u8,
        (n >> 40u64) as u8,
        (n >> 32u64) as u8,
        (n >> 24u64) as u8,
        (n >> 16u64) as u8,
        (n >> 8u64) as u8,
        n as u8,
    ]
}

/// The `u64` whose big-endian bytes are the first eight of `b`.
pub open spec fn be_value(b: Seq<u8>) -> u64
    recommends
        b.len() >= 8,
{
    ((b[0] as u64) << 56u64) | ((b[1] as u64) << 48u64) | ((b[2] as u64) << 40u64) | ((
    b[3] as u64) << 32u64) | ((b[4] as u64) << 24u64) | ((b[5] as u64) << 16u64) | ((
    b[6] as u64) << 8u64) | (b[7] as u64)
}

/// The frame that carries `data`.
pub open spec fn frame(data: Seq<u8>) -> Seq<u8> {
    be_bytes(data.len() as u64) + data
}

/// The frame at the start of `buf`, with the number of bytes it takes:
/// `None` while the prefix or the payload is incomplete.
pub open spec fn parse_frame(buf: Seq<u8>) -> Option<(Seq<u8>, int)> {
    if buf.len() < 8 {
        None
    } else {
        let n = be_value(buf);
        if buf.len() - 8 < n {
            None
        } else {
            Some((buf.subrange(8, 8 + n), 8 + n))
        }
    }
}

proof fn lemma_be_value_of_bytes(n: u64)
    ensures
        be_value(be_bytes(n)) == n,
{
    let b0 = (n >> 56u64) as u8;
    let b1 = (n >> 48u64) as u8;
    let b2 = (n >> 40u64) as u8;
    let b3 = (n >> 32u64) as u8;
    let b4 = (n >> 24u64) as u8;
    let b5 = (n >> 16u64) as u8;
    let b6 = (n >> 8u64) as u8;
    let b7 = n as u8;
    assert(((b0 as u64) << 56u64) | ((b1 as u64) << 48u64) | ((b2 as u64) << 40u64) | ((
    b3 as u64) << 32u64) | ((b4 as u64) << 24u64) | ((b5 as u64) << 16u64) | ((b6 as u64)
        << 8u64) | (b7 as u64) == n) by (bit_vector)
        requires
            b0 == (n >> 56u64) as u8,
            b1 == (n >> 48u64) as u8,
            b2 == (n >> 40u64) as u8,
            b3 == (n >> 32u64) as u8,
            b4 == (n >> 24u64) as u8,
            b5 == (n >> 16u64) as u8,
            b6 == (n >> 8u64) as u8,
            b7 == n as u8,
    ;
}

/// Decoding the length prefix of a frame gives back the length it was
/// written with, and the payload that follows comes back unchanged, whatever
/// bytes come after the frame.
pub proof fn law_frame_roundtrip(data: Seq<u8>, rest: Seq<u8>)
    requires
        data.len() <= u64::MAX,
    ensures
        parse_frame(frame(data) + rest) == Some((data, 8 + data.len() as int)),
{
    lemma_be_value_of_bytes(data.len() as u64);
    let buf = frame(data) + rest;
    assert(buf.subrange(0, 8) =~= be_bytes(data.len() as u64));
    assert(be_value(buf) == be_value(be_bytes(data.len() as u64)));
    assert(buf.subrange(8, 8 + data.len() as int) =~= data);
}

/// A frame is the payload's length in eight bytes, which read back as that
/// length, followed by the payload and nothing else.
pub proof fn law_frame_layout(data: Seq<u8>)
    requires
        data.len() <= u64::MAX,
    ensures
        frame(data).len() == 8 + data.len(),
        frame(data).subrange(0, 8) == be_bytes(data.len() as u64),
        be_value(frame(data)) == data.len(),
        frame(data).subrange(8, 8 + data.len() as int) == data,
{
    lemma_be_value_of_bytes(data.len() as u64);
    let f = frame(data);
    assert(f.subrange(0, 8) =~= be_bytes(data.len() as u64));
    assert(be_value(f) == be_value(be_bytes(data.len() as u64)));
    assert(f.subrange(8, 8 + data.len() as int) =~= data);
}

/// A frame is split off only when all of it is there: what comes out is the
/// whole payload its prefix announces, and the bytes used are the prefix
/// and that payload. A buffer shorter than the announced frame gives
/// nothing; one that holds it gives it.
pub proof fn law_parse_frame_complete(buf: Seq<u8>)
    ensures
        buf.len() < 8 ==> parse_frame(buf) is None,
        buf.len() >= 8 && buf.len() - 8 < be_value(buf) ==> parse_frame(buf) is None,
        buf.len() >= 8 && be_value(buf) <= buf.len() - 8 ==> parse_frame(buf) is Some,
        parse_frame(buf) matches Some((p, used)) ==> {
            &&& buf.len() >= 8
            &&& used == 8 + be_value(buf)
            &&& used <= buf.len()
            &&& p.len() == be_value(buf)
            &&& forall|i: int| 0 <= i < p.len() ==> p[i] == buf[8 + i]
        },
{
}

/// The eight-byte big-endian length prefix for a payload of `len` bytes.
pub fn length_prefix(len: u64) -> (res: Vec<u8>)
    ensures
        res@ == be_bytes(len),
{
    let mut res: Vec<u8> = Vec::new();
    res.push((len >> 56u64) as u8);
    res.push((len >> 48u64) as u8);
    res.push((len >> 40u64) as u8);
    res.push((len >> 32u64) as u8);
    res.push((len >> 24u64) as u8);
    res.push((len >> 16u64) as u8);
    res.push((len >> 8u64) as u8);
    res.push(len as u8);
    assert(res@ =~= be_bytes(len));
    res
}

/// Frames `data` for a session stream: its length as a big-endian `u64`,
/// then the bytes of `data`.
pub fn encode_frame(data: &[u8]) -> (res: Vec<u8>)
    ensures
        res@ == frame(data@),
{
    let mut res = length_prefix(data.len() as u64);
    let mut i: usize = 0;
    while i < data.len()
        invariant
            i <= data@.len(),
            res@ == be_bytes(data@.len() as u64) + data@.subrange(0, i as int),
        decreases data@.len() - i,
    {
        res.push(data[i]);
        i = i + 1;
        assert(res@ =~= be_bytes(data@.len() as u64) + data@.subrange(0, i as int));
    }
    assert(data@.subrange(0, data@.len() as int) =~= data@);
    res
}

/// The payload length announced by the first eight bytes of `header`, or
/// `None` when fewer than eight bytes are there.
pub fn read_length_prefix(header: &[u8]) -> (res: Option<u64>)
    ensures
        header@.len() >= 8 ==> res == Some(be_value(header@)),
        header@.len() < 8 ==> res is None,
{
    if header.len() < 8 {
        return None;
    }
    let v: u64 = ((header[0] as u64) << 56u64) | ((header[1] as u64) << 48u64) | ((
    header[2] as u64) << 40u64) | ((header[3] as u64) << 32u64) | ((header[4] as u64)
        << 24u64) | ((header[5] as u64) << 16u64) | ((header[6] as u64) << 8u64) | (
    header[7] as u64);
    Some(v)
}

/// Splits the frame at the start of `buf` off: its payload and the number of
/// bytes the whole frame takes. `None` while the frame is incomplete.
pub fn decode_frame(buf: &[u8]) -> (res: Option<(Vec<u8>, usize)>)
    ensures
        match res {
            Some((payload, used)) => parse_frame(buf@) == Some((payload@, used as int)),
            None => parse_frame(buf@) is None,
        },
{
    let n = match read_length_prefix(buf) {
        Some(n) => n,
        None => return None,
    };
    let avail: usize = buf.len() - 8;
    if (avail as u64) < n {
        return None;
    }
    let end: usize = 8 + (n as usize);
    let mut payload: Vec<u8> = Vec::new();
    let mut i: usize = 8;
    while i < end
        invariant
            8 <= i <= end <= buf@.len(),
            payload@ == buf@.subrange(8, i as int),
        decreases end - i,
    {
        payload.push(buf[i]);
        i = i + 1;
        assert(payload@ =~= buf@.subrange(8, i as int));
    }
    Some((payload, end))
}

} // verus!
