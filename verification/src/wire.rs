use vstd::prelude::*;
use byteorder::ByteOrder;
use vstd::utf8::*;
use vstd::string::*;

verus! {

/// Big-endian value of the first two bytes of `s`.
pub open spec fn be_u16(s: Seq<u8>) -> u16 {
    (s[0] as int * 0x100 + s[1] as int) as u16
}

/// Big-endian value of the first four bytes of `s`.
pub open spec fn be_u32(s: Seq<u8>) -> u32 {
    (s[0] as int * 0x1000000 + s[1] as int * 0x10000 + s[2] as int * 0x100 + s[3] as int) as u32
}

/// Big-endian unsigned value of the first eight bytes of `s`.
pub open spec fn be_u64(s: Seq<u8>) -> u64 {
    (be_u32(s) as int * 0x1_0000_0000 + be_u32(s.subrange(4, 8)) as int) as u64
}

/// Big-endian two's-complement value of the first eight bytes of `s`.
pub open spec fn be_i64(s: Seq<u8>) -> i64 {
    be_u64(s) as i64
}

/// The four big-endian bytes of `n`.
pub open spec fn be_bytes_u32(n: u32) -> Seq<u8> {
    seq![
        (n / 0x1000000) as u8,
        ((n / 0x10000) % 0x100) as u8,
        ((n / 0x100) % 0x100) as u8,
        (n % 0x100) as u8,
    ]
}

/// `u16` stored big-endian at byte offset `off` of `b`.
pub open spec fn u16_at(b: Seq<u8>, off: int) -> u16 {
    be_u16(b.subrange(off, off + 2))
}

/// `u32` stored big-endian at byte offset `off` of `b`.
pub open spec fn u32_at(b: Seq<u8>, off: int) -> u32 {
    be_u32(b.subrange(off, off + 4))
}

/// `i64` stored big-endian at byte offset `off` of `b`.
pub open spec fn i64_at(b: Seq<u8>, off: int) -> i64 {
    be_i64(b.subrange(off, off + 8))
}

/// `byteorder::BigEndian::read_u16`: the first two bytes of `buf`, big-endian.
/// Claimed: the result is `be_u16(buf)`; the call panics on shorter input, which `requires` excludes.
#[verifier::external_body]
fn read_u16_be(buf: &[u8]) -> (r: u16)
    requires
        buf@.len() >= 2,
    ensures
        r == be_u16(buf@),
{
    byteorder::BigEndian::read_u16(buf)
}

/// `byteorder::BigEndian::read_u32`: the first four bytes of `buf`, big-endian.
/// Claimed: the result is `be_u32(buf)`; the call panics on shorter input, which `requires` excludes.
#[verifier::external_body]
fn read_u32_be(buf: &[u8]) -> (r: u32)
    requires
        buf@.len() >= 4,
    ensures
        r == be_u32(buf@),
{
    byteorder::BigEndian::read_u32(buf)
}

/// `byteorder::BigEndian::read_i64`: the first eight bytes of `buf` as a big-endian
/// two's-complement integer (the unsigned read cast to `i64`).
/// Claimed: the result is `be_i64(buf)`; shorter input panics and is excluded.
#[verifier::external_body]
fn read_i64_be(buf: &[u8]) -> (r: i64)
    requires
        buf@.len() >= 8,
    ensures
        r == be_i64(buf@),
{
    byteorder::BigEndian::read_i64(buf)
}

/// `byteorder::BigEndian::write_u32` into a fresh four-byte array.
/// Claimed: the array holds the big-endian bytes of `n`.
#[verifier::external_body]
fn write_u32_be(n: u32) -> (r: [u8; 4])
    ensures
        r@ == be_bytes_u32(n),
{
    let mut b = [0u8; 4];
    byteorder::BigEndian::write_u32(&mut b, n);
    b
}

/// A copy of the bytes `b`.
pub fn copy_bytes(b: &[u8]) -> (v: Vec<u8>)
    ensures
        v@ == b@,
{
    let mut v: Vec<u8> = Vec::new();
    let mut i: usize = 0;
    while i < b.len()
        invariant
            i <= b@.len(),
            v@ == b@.take(i as int),
        decreases b@.len() - i,
    {
        v.push(b[i]);
        i = i + 1;
        assert(v@ =~= b@.take(i as int));
    }
    assert(b@.take(i as int) =~= b@);
    v
}

/// Reads the big-endian `u16` at `off`.
pub fn get_u16(buf: &[u8], off: usize) -> (r: u16)
    requires
        off + 2 <= buf@.len(),
    ensures
        r == u16_at(buf@, off as int),
{
    let n = buf.len();
    assert(off + 2 <= n);
    read_u16_be(&buf[off..off + 2])
}

/// Reads the big-endian `u32` at `off`.
pub fn get_u32(buf: &[u8], off: usize) -> (r: u32)
    requires
        off + 4 <= buf@.len(),
    ensures
        r == u32_at(buf@, off as int),
{
    let n = buf.len();
    assert(off + 4 <= n);
    read_u32_be(&buf[off..off + 4])
}

/// Reads the big-endian `i64` at `off`.
pub fn get_i64(buf: &[u8], off: usize) -> (r: i64)
    requires
        off + 8 <= buf@.len(),
    ensures
        r == i64_at(buf@, off as int),
{
    let n = buf.len();
    assert(off + 8 <= n);
    read_i64_be(&buf[off..off + 8])
}

/// Appends the big-endian bytes of `n` to `v`.
pub fn push_u32_be(v: &mut Vec<u8>, n: u32)
    ensures
        final(v)@ == old(v)@ + be_bytes_u32(n),
{
    let b = write_u32_be(n);
    v.push(b[0]);
    v.push(b[1]);
    v.push(b[2]);
    v.push(b[3]);
    assert(final(v)@ =~= old(v)@ + be_bytes_u32(n));
}

/// Reading back the bytes written for `n` gives `n`.
pub proof fn lemma_be_u32_roundtrip(n: u32)
    ensures
        be_u32(be_bytes_u32(n)) == n,
{
    let b = be_bytes_u32(n);
    assert(b[0] == (n / 0x1000000) as u8);
    assert(b[1] == ((n / 0x10000) % 0x100) as u8);
    assert(b[2] == ((n / 0x100) % 0x100) as u8);
    assert(b[3] == (n % 0x100) as u8);
    assert(n / 0x1000000 < 0x100);
    assert((n / 0x1000000) * 0x1000000 + ((n / 0x10000) % 0x100) * 0x10000 + ((n / 0x100) % 0x100) * 0x100 + n % 0x100 == n) by (nonlinear_arith);
}

/// Sum of all bytes of `s`, as a mathematical integer.
pub open spec fn byte_sum(s: Seq<u8>) -> int
    decreases s.len(),
{
    if s.len() == 0 {
        0
    } else {
        byte_sum(s.drop_last()) + s.last()
    }
}

/// Sum of the bytes of `bs`; the frame checksum of the market data protocol.
pub fn generate_checksum(bs: &[u8]) -> (sum: u32)
    requires
        byte_sum(bs@) <= u32::MAX,
    ensures
        sum == byte_sum(bs@),
{
    let mut sum: u32 = 0;
    let mut i: usize = 0;
    while i < bs.len()
        invariant
            i <= bs@.len(),
            sum == byte_sum(bs@.take(i as int)),
            byte_sum(bs@) <= u32::MAX,
        decreases bs@.len() - i,
    {
        assert(bs@.take(i as int + 1).drop_last() =~= bs@.take(i as int));
        proof {
            lemma_byte_sum_prefix_le(bs@, i as int + 1);
        }
        sum = sum + bs[i] as u32;
        i = i + 1;
    }
    assert(bs@.take(i as int) =~= bs@);
    sum
}

/// A prefix never sums to more than the whole.
pub proof fn lemma_byte_sum_prefix_le(s: Seq<u8>, n: int)
    requires
        0 <= n <= s.len(),
    ensures
        byte_sum(s.take(n)) <= byte_sum(s),
    decreases s.len() - n,
{
    if n < s.len() {
        lemma_byte_sum_prefix_le(s, n + 1);
        assert(s.take(n + 1).drop_last() =~= s.take(n));
    } else {
        assert(s.take(n) =~= s);
    }
}

/// Every byte is at most 255.
pub proof fn lemma_byte_sum_bound(s: Seq<u8>)
    ensures
        0 <= byte_sum(s) <= 255 * s.len(),
    decreases s.len(),
{
    if s.len() > 0 {
        lemma_byte_sum_bound(s.drop_last());
    }
}

/// The checksum of a concatenation is the sum of the checksums of its parts.
pub proof fn checksum_of_concatenation(a: Seq<u8>, b: Seq<u8>)
    ensures
        byte_sum(a + b) == byte_sum(a) + byte_sum(b),
    decreases b.len(),
{
    if b.len() == 0 {
        assert(a + b =~= a);
    } else {
        checksum_of_concatenation(a, b.drop_last());
        assert((a + b).drop_last() =~= a + b.drop_last());
    }
}

/// Taking out the byte at `j` takes its value off the sum.
proof fn lemma_byte_sum_remove(t: Seq<u8>, j: int)
    requires
        0 <= j < t.len(),
    ensures
        byte_sum(t) == byte_sum(t.remove(j)) + t[j],
{
    let l = t.take(j);
    let r = t.skip(j + 1);
    assert(t =~= l + (seq![t[j]] + r));
    assert(t.remove(j) =~= l + r);
    checksum_of_concatenation(l, seq![t[j]] + r);
    checksum_of_concatenation(seq![t[j]], r);
    checksum_of_concatenation(l, r);
    let one = seq![t[j]];
    assert(one.drop_last() =~= Seq::<u8>::empty());
    assert(byte_sum(Seq::<u8>::empty()) == 0);
    assert(byte_sum(one) == t[j]);
    assert(byte_sum(t) == byte_sum(l) + byte_sum(one) + byte_sum(r));
}

/// The checksum does not depend on the order of the bytes: two byte strings holding the same
/// bytes, each as often, have the same checksum.
pub proof fn checksum_ignores_order(s: Seq<u8>, t: Seq<u8>)
    requires
        s.to_multiset() == t.to_multiset(),
    ensures
        byte_sum(s) == byte_sum(t),
    decreases s.len(),
{
    s.to_multiset_ensures();
    t.to_multiset_ensures();
    if s.len() == 0 {
        assert(t.len() == 0);
        assert(t =~= s);
    } else {
        let x = s.last();
        let d = s.drop_last();
        d.to_multiset_ensures();
        assert(d.push(x) =~= s);
        assert(t.to_multiset().count(x) > 0);
        assert(t.contains(x));
        let j = choose|j: int| 0 <= j < t.len() && t[j] == x;
        assert(t.remove(j).to_multiset() =~= d.to_multiset());
        checksum_ignores_order(d, t.remove(j));
        lemma_byte_sum_remove(t, j);
    }
}

/// Header of a protocol frame: message type and body length.
pub struct MsgHead {
    pub _msg_type: u32,
    pub _body_length: u32,
}

/// Decodes the eight-byte frame header (type, then body length, both big-endian).
pub fn decode_msg_head(header: &[u8]) -> (h: MsgHead)
    requires
        header@.len() >= 8,
    ensures
        h._msg_type == u32_at(header@, 0),
        h._body_length == u32_at(header@, 4),
{
    MsgHead { _msg_type: get_u32(header, 0), _body_length: get_u32(header, 4) }
}

/// The last four bytes of `f` hold, big-endian, the byte sum of everything before them.
pub open spec fn frame_checksum_ok(f: Seq<u8>) -> bool {
    &&& f.len() >= 4
    &&& u32_at(f, f.len() - 4) as int == byte_sum(f.take(f.len() - 4))
}

/// The heartbeat frame: type 3, empty body, checksum of the header.
pub open spec fn heartbeat_frame() -> Seq<u8> {
    be_bytes_u32(3) + be_bytes_u32(0) + be_bytes_u32(byte_sum(be_bytes_u32(3) + be_bytes_u32(0)) as u32)
}

/// Builds the twelve-byte heartbeat frame (message type 3 with an empty body).
pub fn heartbeat_message() -> (m: Vec<u8>)
    ensures
        m@ == heartbeat_frame(),
{
    let mut msg: Vec<u8> = Vec::new();
    push_u32_be(&mut msg, 3);
    push_u32_be(&mut msg, 0);
    proof {
        lemma_byte_sum_bound(msg@);
    }
    let checksum = generate_checksum(msg.as_slice());
    push_u32_be(&mut msg, checksum);
    msg
}

/// The heartbeat frame declares type 3 and an empty body, and carries a correct checksum.
pub proof fn heartbeat_frame_is_well_formed()
    ensures
        heartbeat_frame().len() == 12,
        u32_at(heartbeat_frame(), 0) == 3,
        u32_at(heartbeat_frame(), 4) == 0,
        frame_checksum_ok(heartbeat_frame()),
{
    let h = be_bytes_u32(3) + be_bytes_u32(0);
    lemma_byte_sum_bound(h);
    let c = byte_sum(h) as u32;
    let f = heartbeat_frame();
    assert(f.subrange(0, 4) =~= be_bytes_u32(3));
    assert(f.subrange(4, 8) =~= be_bytes_u32(0));
    assert(f.subrange(8, 12) =~= be_bytes_u32(c));
    assert(f.take(8) =~= h);
    lemma_be_u32_roundtrip(3);
    lemma_be_u32_roundtrip(0);
    lemma_be_u32_roundtrip(c);
}

/// The recorded log-in frame sent to the market data gateway.
pub open spec fn login_frame() -> Seq<u8> {
    seq![
        0x00, 0x00, 0x00, 0x01, 0x00, 0x00, 0x00, 0x5c,
        0x46, 0x30, 0x30, 0x30, 0x36, 0x34, 0x38, 0x51,
        0x30, 0x30, 0x31, 0x31, 0x00, 0x00, 0x00, 0x00,
        0x0c, 0x00, 0x00, 0x00, 0x56, 0x44, 0x45, 0x00,
        0xb4, 0x00, 0x00, 0x00, 0x84, 0xff, 0xff, 0xff,
        0xb4, 0x00, 0x00, 0x00, 0x03, 0x00, 0x00, 0x00,
        0x31, 0x35, 0x30, 0x00, 0x46, 0x30, 0x30, 0x30,
        0x36, 0x34, 0x38, 0x51, 0x30, 0x30, 0x31, 0x31,
        0x00, 0x00, 0x00, 0x00, 0x31, 0x2e, 0x30, 0x30,
        0x00, 0x00, 0x00, 0x00, 0x00, 0x00, 0x29, 0xdb,
        0xb4, 0x00, 0x00, 0x00, 0x04, 0x00, 0x00, 0x00,
        0x00, 0x00, 0x00, 0x00, 0x0f, 0x00, 0x00, 0x00,
        0x00, 0x00, 0x00, 0x00, 0x00, 0x00, 0x00, 0x6a,
    ]
}

/// The 104-byte log-in frame sent to the market data gateway.
pub fn login_request() -> (m: Vec<u8>)
    ensures
        m@ == login_frame(),
{
    let m: Vec<u8> = vec![
        0x00, 0x00, 0x00, 0x01, 0x00, 0x00, 0x00, 0x5c,
        0x46, 0x30, 0x30, 0x30, 0x36, 0x34, 0x38, 0x51,
        0x30, 0x30, 0x31, 0x31, 0x00, 0x00, 0x00, 0x00,
        0x0c, 0x00, 0x00, 0x00, 0x56, 0x44, 0x45, 0x00,
        0xb4, 0x00, 0x00, 0x00, 0x84, 0xff, 0xff, 0xff,
        0xb4, 0x00, 0x00, 0x00, 0x03, 0x00, 0x00, 0x00,
        0x31, 0x35, 0x30, 0x00, 0x46, 0x30, 0x30, 0x30,
        0x36, 0x34, 0x38, 0x51, 0x30, 0x30, 0x31, 0x31,
        0x00, 0x00, 0x00, 0x00, 0x31, 0x2e, 0x30, 0x30,
        0x00, 0x00, 0x00, 0x00, 0x00, 0x00, 0x29, 0xdb,
        0xb4, 0x00, 0x00, 0x00, 0x04, 0x00, 0x00, 0x00,
        0x00, 0x00, 0x00, 0x00, 0x0f, 0x00, 0x00, 0x00,
        0x00, 0x00, 0x00, 0x00, 0x00, 0x00, 0x00, 0x6a,
    ];
    assert(m@ =~= login_frame());
    m
}

/// Sender id used to log in.
pub const SENDER: &'static str = "F000648Q0011";

/// Target id used to log in.
pub const TARGET: &'static str = "VDE";

/// Heartbeat interval, in seconds, announced at log-in.
pub const HEARTBEAT_INTERVAL: u32 = 150;

/// Password used to log in.
pub const PASSWORD: &'static str = "F000648Q0011";

/// Application version announced at log-in.
pub const APPVER: &'static str = "1.00";

/// `s` in a zero-padded field of `width` bytes.
pub open spec fn padded(s: Seq<u8>, width: nat) -> Seq<u8> {
    s + Seq::new((width - s.len()) as nat, |i: int| 0u8)
}

fn push_padded(v: &mut Vec<u8>, s: &[u8], width: usize)
    requires
        s@.len() <= width,
    ensures
        final(v)@ == old(v)@ + padded(s@, width as nat),
{
    let ghost start = v@;
    let mut i: usize = 0;
    while i < s.len()
        invariant
            i <= s@.len(),
            s@.len() <= width,
            v@ == start + s@.take(i as int),
        decreases s@.len() - i,
    {
        v.push(s[i]);
        i = i + 1;
        assert(v@ =~= start + s@.take(i as int));
    }
    assert(s@.take(i as int) =~= s@);
    let mut j: usize = s.len();
    while j < width
        invariant
            s@.len() <= j <= width,
            v@ == start + s@ + Seq::new((j - s@.len()) as nat, |i: int| 0u8),
        decreases width - j,
    {
        v.push(0);
        j = j + 1;
        assert(v@ =~= start + s@ + Seq::new((j - s@.len()) as nat, |i: int| 0u8));
    }
}

/// The first 100 bytes of the log-in frame: type 1, body length 92, sender and target
/// (20 bytes each), heartbeat interval, password (16 bytes) and version (32 bytes).
pub open spec fn login2_body() -> Seq<u8> {
    be_bytes_u32(1) + be_bytes_u32(92) + padded(encode_utf8(SENDER@), 20) + padded(
        encode_utf8(TARGET@),
        20,
    ) + be_bytes_u32(HEARTBEAT_INTERVAL) + padded(encode_utf8(PASSWORD@), 16) + padded(
        encode_utf8(APPVER@),
        32,
    )
}

/// The log-in frame built from the log-in constants, with its checksum.
pub open spec fn login2_frame() -> Seq<u8> {
    login2_body() + be_bytes_u32(byte_sum(login2_body()) as u32)
}

/// Builds the 104-byte log-in frame from the sender, target, heartbeat interval, password and
/// version.
pub fn login2_request() -> (m: Vec<u8>)
    ensures
        m@ == login2_frame(),
{
    proof {
        reveal_strlit("F000648Q0011");
        reveal_strlit("VDE");
        reveal_strlit("1.00");
    }
    let sender = SENDER.as_bytes();
    let target = TARGET.as_bytes();
    let password = PASSWORD.as_bytes();
    let version = APPVER.as_bytes();
    assert(sender@.len() <= 20) by {
        broadcast use vstd::string::is_ascii_spec_bytes;
        assert(is_ascii(SENDER));
    }
    assert(target@.len() <= 20) by {
        broadcast use vstd::string::is_ascii_spec_bytes;
        assert(is_ascii(TARGET));
    }
    assert(password@.len() <= 16) by {
        broadcast use vstd::string::is_ascii_spec_bytes;
        assert(is_ascii(PASSWORD));
    }
    assert(version@.len() <= 32) by {
        broadcast use vstd::string::is_ascii_spec_bytes;
        assert(is_ascii(APPVER));
    }
    let mut msg: Vec<u8> = Vec::new();
    push_u32_be(&mut msg, 1);
    push_u32_be(&mut msg, 92);
    push_padded(&mut msg, sender, 20);
    push_padded(&mut msg, target, 20);
    push_u32_be(&mut msg, HEARTBEAT_INTERVAL);
    push_padded(&mut msg, password, 16);
    push_padded(&mut msg, version, 32);
    assert(msg@ =~= login2_body());
    proof {
        lemma_byte_sum_bound(msg@);
    }
    let checksum = generate_checksum(msg.as_slice());
    push_u32_be(&mut msg, checksum);
    msg
}

/// The log-in frame is 104 bytes, declares type 1 and a 92-byte body, and carries a correct
/// checksum.
pub proof fn login2_frame_is_well_formed()
    ensures
        login2_frame().len() == 104,
        u32_at(login2_frame(), 0) == 1,
        u32_at(login2_frame(), 4) == 92,
        frame_checksum_ok(login2_frame()),
{
    reveal_strlit("F000648Q0011");
    reveal_strlit("VDE");
    reveal_strlit("1.00");
    broadcast use vstd::string::is_ascii_spec_bytes;
    assert(is_ascii(SENDER));
    assert(is_ascii(TARGET));
    assert(is_ascii(PASSWORD));
    assert(is_ascii(APPVER));
    assert(SENDER.spec_bytes().len() == 12);
    assert(TARGET.spec_bytes().len() == 3);
    assert(PASSWORD.spec_bytes().len() == 12);
    assert(APPVER.spec_bytes().len() == 4);
    let b = login2_body();
    assert(b.len() == 100);
    lemma_byte_sum_bound(b);
    let c = byte_sum(b) as u32;
    let f = login2_frame();
    assert(f.subrange(0, 4) =~= be_bytes_u32(1));
    assert(f.subrange(4, 8) =~= be_bytes_u32(92));
    assert(f.subrange(100, 104) =~= be_bytes_u32(c));
    assert(f.take(100) =~= b);
    lemma_be_u32_roundtrip(1);
    lemma_be_u32_roundtrip(92);
    lemma_be_u32_roundtrip(c);
}

} // verus!
