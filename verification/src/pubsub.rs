use vstd::prelude::*;
use vstd::utf8::*;
use crate::wire::copy_bytes;

verus! {

/// A published message: the topic's bytes immediately followed by the payload.
pub open spec fn publish_frame_spec(topic: Seq<char>, buf: Seq<u8>) -> Seq<u8> {
    encode_utf8(topic) + buf
}

/// Builds the message a publisher writes for `topic` and payload `buf` (subscribers match
/// the topic as a byte prefix).
pub fn publish_frame(topic: &str, buf: &[u8]) -> (msg: Vec<u8>)
    ensures
        msg@ == publish_frame_spec(topic@, buf@),
{
    let mut msg = copy_bytes(topic.as_bytes());
    let mut i: usize = 0;
    let ghost head = msg@;
    while i < buf.len()
        invariant
            i <= buf@.len(),
            msg@ == head + buf@.take(i as int),
        decreases buf@.len() - i,
    {
        msg.push(buf[i]);
        i = i + 1;
        assert(msg@ =~= head + buf@.take(i as int));
    }
    assert(buf@.take(i as int) =~= buf@);
    msg
}

/// A published stock quote: code, name and last price.
pub struct Stock {
    pub _code: [u8; 8],
    pub _name: [u8; 20],
    pub _last_price: u32,
}

impl Stock {
    /// Decoding a quote from bytes is not supported: always `None`.
    pub fn from(_buf: &[u8]) -> (r: Option<Stock>)
        ensures
            r is None,
    {
        None
    }
}

} // verus!
