use vstd::prelude::*;
use vstd::utf8::*;
use crate::wire::{be_bytes_u32, copy_bytes};

verus! {

/// The four little-endian bytes of `n`.
pub open spec fn le_bytes_u32(n: u32) -> Seq<u8> {
    seq![
        (n % 0x100) as u8,
        ((n / 0x100) % 0x100) as u8,
        ((n / 0x10000) % 0x100) as u8,
        (n / 0x1000000) as u8,
    ]
}

/// The eight little-endian bytes of `n`.
pub open spec fn le_bytes_u64(n: u64) -> Seq<u8> {
    le_bytes_u32((n % 0x1_0000_0000) as u32) + le_bytes_u32((n / 0x1_0000_0000) as u32)
}

/// The eight big-endian bytes of `n`.
pub open spec fn be_bytes_u64(n: u64) -> Seq<u8> {
    be_bytes_u32((n / 0x1_0000_0000) as u32) + be_bytes_u32((n % 0x1_0000_0000) as u32)
}

/// `u32::to_ne_bytes`.
/// Claimed (documentation): the bytes in the machine's byte order, so little- or big-endian.
/// Which one is left open: it depends on the machine.
#[verifier::external_body]
fn ne_bytes_u32(v: u32) -> (r: [u8; 4])
    ensures
        r@ == le_bytes_u32(v) || r@ == be_bytes_u32(v),
{
    v.to_ne_bytes()
}

/// `u64::to_ne_bytes`.
/// Claimed (documentation): the bytes in the machine's byte order, so little- or big-endian.
/// Which one is left open: it depends on the machine.
#[verifier::external_body]
fn ne_bytes_u64(v: u64) -> (r: [u8; 8])
    ensures
        r@ == le_bytes_u64(v) || r@ == be_bytes_u64(v),
{
    v.to_ne_bytes()
}

/// The machine-order bytes of `v` are its little- or big-endian bytes.
pub open spec fn is_ne_u32(b: Seq<u8>, v: u32) -> bool {
    b == le_bytes_u32(v) || b == be_bytes_u32(v)
}

/// The machine-order bytes of `v` are its little- or big-endian bytes.
pub open spec fn is_ne_u64(b: Seq<u8>, v: u64) -> bool {
    b == le_bytes_u64(v) || b == be_bytes_u64(v)
}

/// The four bytes of a `u32` in machine order.
pub fn to_bytes(value: &u32) -> (r: [u8; 4])
    ensures
        is_ne_u32(r@, *value),
{
    ne_bytes_u32(*value)
}

fn push_array4(v: &mut Vec<u8>, a: [u8; 4])
    ensures
        final(v)@ == old(v)@ + a@,
{
    v.push(a[0]);
    v.push(a[1]);
    v.push(a[2]);
    v.push(a[3]);
    assert(final(v)@ =~= old(v)@ + a@);
}

fn push_array8(v: &mut Vec<u8>, a: [u8; 8])
    ensures
        final(v)@ == old(v)@ + a@,
{
    let mut i: usize = 0;
    let ghost start = v@;
    while i < 8
        invariant
            i <= 8,
            v@ == start + a@.take(i as int),
        decreases 8 - i,
    {
        v.push(a[i]);
        i = i + 1;
        assert(v@ =~= start + a@.take(i as int));
    }
    assert(a@.take(8) =~= a@);
}

/// One K-line (candle) as stored: traded value and volume, ratio, time, open, close, high
/// and low prices; packed, fields in this order.
pub struct KLine {
    pub _balance: u64,
    pub _amount: u64,
    pub _radio: u32,
    pub _data_time: u32,
    pub _open_price: u32,
    pub _close_price: u32,
    pub _high_price: u32,
    pub _low_price: u32,
}

impl KLine {
    /// An all-zero K-line.
    pub fn default() -> (k: KLine)
        ensures
            k._balance == 0 && k._amount == 0 && k._radio == 0 && k._data_time == 0,
            k._open_price == 0 && k._close_price == 0 && k._high_price == 0 && k._low_price == 0,
    {
        KLine {
            _amount: 0,
            _balance: 0,
            _radio: 0,
            _data_time: 0,
            _open_price: 0,
            _close_price: 0,
            _high_price: 0,
            _low_price: 0,
        }
    }

    /// The packed storage image: each field's machine-order bytes, in field order (40 bytes).
    pub fn as_bytes(&self) -> (r: Vec<u8>)
        ensures
            r@.len() == 40,
            is_ne_u64(r@.subrange(0, 8), self._balance),
            is_ne_u64(r@.subrange(8, 16), self._amount),
            is_ne_u32(r@.subrange(16, 20), self._radio),
            is_ne_u32(r@.subrange(20, 24), self._data_time),
            is_ne_u32(r@.subrange(24, 28), self._open_price),
            is_ne_u32(r@.subrange(28, 32), self._close_price),
            is_ne_u32(r@.subrange(32, 36), self._high_price),
            is_ne_u32(r@.subrange(36, 40), self._low_price),
    {
        let mut v: Vec<u8> = Vec::new();
        let a0 = ne_bytes_u64(self._balance);
        let a1 = ne_bytes_u64(self._amount);
        let a2 = ne_bytes_u32(self._radio);
        let a3 = ne_bytes_u32(self._data_time);
        let a4 = ne_bytes_u32(self._open_price);
        let a5 = ne_bytes_u32(self._close_price);
        let a6 = ne_bytes_u32(self._high_price);
        let a7 = ne_bytes_u32(self._low_price);
        push_array8(&mut v, a0);
        push_array8(&mut v, a1);
        push_array4(&mut v, a2);
        push_array4(&mut v, a3);
        push_array4(&mut v, a4);
        push_array4(&mut v, a5);
        push_array4(&mut v, a6);
        push_array4(&mut v, a7);
        assert(v@.subrange(0, 8) =~= a0@);
        assert(v@.subrange(8, 16) =~= a1@);
        assert(v@.subrange(16, 20) =~= a2@);
        assert(v@.subrange(20, 24) =~= a3@);
        assert(v@.subrange(24, 28) =~= a4@);
        assert(v@.subrange(28, 32) =~= a5@);
        assert(v@.subrange(32, 36) =~= a6@);
        assert(v@.subrange(36, 40) =~= a7@);
        v
    }
}

/// Key of a stored item: market, security code and line number.
pub struct Uri {
    pub _market: u32,
    pub _code: String,
    pub _line_no: u32,
}

impl Uri {
    /// Market 0, empty code, line 0.
    pub fn default() -> (u: Uri)
        ensures
            u._market == 0,
            u._code@ == Seq::<char>::empty(),
            u._line_no == 0,
    {
        Uri { _market: 0, _code: String::new(), _line_no: 0 }
    }

    /// The key bytes: the market in machine order, the code's bytes, the line number in
    /// machine order.
    pub fn as_bytes(&self) -> (r: Vec<u8>)
        ensures
            ({
                let c = encode_utf8(self._code@);
                &&& r@.len() == c.len() + 8
                &&& is_ne_u32(r@.subrange(0, 4), self._market)
                &&& r@.subrange(4, 4 + c.len() as int) == c
                &&& is_ne_u32(r@.subrange(4 + c.len() as int, 8 + c.len() as int), self._line_no)
            }),
    {
        let mut buf: Vec<u8> = Vec::new();
        let m = to_bytes(&self._market);
        push_array4(&mut buf, m);
        let code = copy_bytes(self._code.as_str().as_bytes());
        let ghost c = code@;
        let mut i: usize = 0;
        while i < code.len()
            invariant
                i <= code@.len(),
                buf@ == m@ + code@.take(i as int),
            decreases code@.len() - i,
        {
            buf.push(code[i]);
            i = i + 1;
            assert(buf@ =~= m@ + code@.take(i as int));
        }
        assert(code@.take(i as int) =~= code@);
        let l = to_bytes(&self._line_no);
        push_array4(&mut buf, l);
        assert(buf@.subrange(0, 4) =~= m@);
        assert(buf@.subrange(4, 4 + c.len() as int) =~= c);
        assert(buf@.subrange(4 + c.len() as int, 8 + c.len() as int) =~= l@);
        buf
    }
}

/// Key under which the last line number of a security is kept: line 0.
pub fn line_no_key(mkt: u32, code: &String) -> (u: Uri)
    ensures
        u._market == mkt,
        u._code@ == code@,
        u._line_no == 0,
{
    Uri { _market: mkt, _code: code.clone(), _line_no: 0 }
}

/// Big-endian `u32` of exactly four bytes; 0 for any other length.
pub fn bytes_to_u32(d: &[u8]) -> (r: u32)
    ensures
        r == (if d@.len() == 4 { crate::wire::be_u32(d@) } else { 0 }),
{
    if d.len() == 4 {
        let value: u32 = (d[0] as u32) * 0x1000000 + (d[1] as u32) * 0x10000 + (d[2] as u32) * 0x100 + (d[3] as u32);
        value
    } else {
        0
    }
}

/// The four big-endian bytes of `v`.
pub fn u32_to_bytes(v: u32) -> (r: [u8; 4])
    ensures
        r@ == be_bytes_u32(v),
{
    let r = [(v / 0x1000000) as u8, ((v / 0x10000) % 0x100) as u8, ((v / 0x100) % 0x100) as u8, (v % 0x100) as u8];
    assert(r@ =~= be_bytes_u32(v));
    r
}

/// A line number written with `u32_to_bytes` reads back unchanged with `bytes_to_u32`.
pub proof fn line_number_bytes_roundtrip(v: u32)
    ensures
        be_bytes_u32(v).len() == 4,
        crate::wire::be_u32(be_bytes_u32(v)) == v,
{
    crate::wire::lemma_be_u32_roundtrip(v);
}

} // verus!
