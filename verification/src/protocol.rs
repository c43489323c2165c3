//! The transfer protocol's message and configuration.

use std::sync::Arc;
use vstd::prelude::*;

verus! {

#[verifier::external_type_specification]
#[verifier::external_body]
pub struct ExIoError(std::io::Error);

/// The bytes a shared byte buffer holds.
pub uninterp spec fn shared_bytes(a: Arc<[u8]>) -> Seq<u8>;

/// A shared buffer holding a copy of `bytes`, made with std's
/// `From<&[u8]> for Arc<[u8]>`. Claimed: it holds exactly those bytes.
#[verifier::external_body]
pub(crate) fn share_bytes(bytes: &[u8]) -> (res: Arc<[u8]>)
    ensures
        shared_bytes(res) == bytes@,
{
    bytes.into()
}

/// Another handle on the buffer `a`, made with `Arc::clone`. Claimed: it
/// holds the same bytes.
#[verifier::external_body]
pub(crate) fn share(a: &Arc<[u8]>) -> (res: Arc<[u8]>)
    ensures
        shared_bytes(res) == shared_bytes(*a),
{
    Arc::clone(a)
}

/// The byte at `i` of the buffer `a`, read through `Index` on the slice.
/// Claimed: it is the `i`-th byte the buffer holds.
#[verifier::external_body]
pub(crate) fn shared_byte(a: &Arc<[u8]>, i: usize) -> (res: u8)
    requires
        i < shared_bytes(*a).len(),
    ensures
        res == shared_bytes(*a)[i as int],
{
    a[i]
}

/// The number of bytes in the buffer `a`, read with the slice's `len`.
/// Claimed: it is the length of what the buffer holds.
#[verifier::external_body]
pub(crate) fn shared_len(a: &Arc<[u8]>) -> (res: usize)
    ensures
        res == shared_bytes(*a).len(),
{
    a.len()
}

/// A message of the transfer protocol.
#[derive(Clone, Debug, PartialEq)]
pub enum Message {
    /// A payload to deliver.
    Send(Arc<[u8]>),
}

/// The payload bytes of a message.
pub open spec fn message_bytes(m: Message) -> Seq<u8> {
    match m {
        Message::Send(a) => shared_bytes(a),
    }
}

impl Message {
    /// The message carrying a copy of `msg`; reading a message never fails.
    pub fn from_bytes(msg: &[u8]) -> (res: std::io::Result<Self>)
        ensures
            res matches Ok(m) && message_bytes(m) == msg@,
    {
        Ok(Message::Send(share_bytes(msg)))
    }

    /// A copy of the message's payload bytes.
    pub fn to_bytes(&self) -> (res: Vec<u8>)
        ensures
            res@ == message_bytes(*self),
    {
        match self {
            Message::Send(msg) => {
                let mut buf: Vec<u8> = Vec::new();
                let n = shared_len(msg);
                let mut i: usize = 0;
                while i < n
                    invariant
                        n == shared_bytes(*msg).len(),
                        i <= n,
                        buf@ == shared_bytes(*msg).subrange(0, i as int),
                    decreases n - i,
                {
                    buf.push(shared_byte(msg, i));
                    i = i + 1;
                    assert(buf@ =~= shared_bytes(*msg).subrange(0, i as int));
                }
                assert(shared_bytes(*msg).subrange(0, n as int) =~= shared_bytes(*msg));
                buf
            },
        }
    }
}

/// The size limit of a transfer frame.
#[derive(Clone, Debug)]
pub struct TransferConfig {
    max_buf_size: usize,
}

impl TransferConfig {
    /// The largest frame accepted, in bytes.
    pub fn max_buf_size(&self) -> (res: usize)
        ensures
            res == self.spec_max_buf_size(),
    {
        self.max_buf_size
    }

    pub closed spec fn spec_max_buf_size(&self) -> usize {
        self.max_buf_size
    }
}

impl Default for TransferConfig {
    /// Frames of up to 4 MiB.
    fn default() -> (res: Self)
        ensures
            res.spec_max_buf_size() == 4 * 1024 * 1024,
    {
        TransferConfig { max_buf_size: 1024 * 1024 * 4 }
    }
}

} // verus!
