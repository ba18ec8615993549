use vstd::prelude::*;
use vstd::utf8::*;
use vstd::std_specs::iter::IteratorSpec;
use chrono::{Datelike, Timelike};
use encoding::{EncoderTrap, DecoderTrap, Encoding};
use crate::errors::MarketError;

verus! {

/// Truncating division (the `/` of Rust integers), for `b > 0`.
pub open spec fn tdiv(a: int, b: int) -> int {
    if a >= 0 {
        a / b
    } else {
        -((-a) / b)
    }
}

/// Remainder of the truncating division (the `%` of Rust integers), for `b > 0`.
pub open spec fn trem(a: int, b: int) -> int {
    a - b * tdiv(a, b)
}

/// Minute slot of an `hhmmss` time in the trading day: 0 before the open,
/// 1..=120 in the morning session, 120 at noon, 121..=241 in the afternoon, 241 after the close.
pub open spec fn line_number(time: int) -> int {
    let h = time / 10000;
    let m = time / 100;
    let s = m % 100;
    if 1300 <= m && m <= 1500 {
        121 + (h - 13) * 60 + s
    } else if m <= 1130 && m >= 930 {
        (h - 9) * 60 + s - 30
    } else if m < 930 && m >= 925 {
        0
    } else if m > 1500 {
        241
    } else if m > 1130 && m < 1300 {
        120
    } else if m <= 859 {
        241
    } else {
        0
    }
}

/// Minute slot (K-line number) of the `hhmmss` time `time`.
pub fn get_line_number(time: u32) -> (pos: u32)
    ensures
        pos == line_number(time as int),
{
    let h = time / 10000;
    let m = time / 100;
    let s = m % 100;

    let mut pos: u32 = 0;
    if m >= 1300 && m <= 1500 {
        pos = 121 + (h - 13) * 60 + s;
    } else if m <= 1130 && m >= 930 {
        pos = (h - 9) * 60 + s - 30;
    } else if m < 930 && m >= 925 {
        pos = 0;
    } else if m > 1500 {
        pos = 241;
    } else if m > 1130 && m < 1300 {
        pos = 120;
    } else if m <= 859 {
        pos = 241;
    }
    pos
}

/// For a clock time (minutes below 60) the slot lies in `0..=241`.
pub proof fn line_number_in_range(time: u32)
    requires
        (time / 100) % 100 < 60,
    ensures
        0 <= line_number(time as int) <= 241,
{
}

/// Slots of the trading day: at `hh:mm:ss` from 09:30 to 11:30 the slot is the minutes since
/// 09:30 (0..=120), from 13:00 to 15:00 it is 121 plus the minutes since 13:00 (121..=241), from
/// 09:25 to 09:29 it is 0, over the noon break it stays 120, and before 09:00 or after 15:00 it
/// is 241.
pub proof fn line_numbers_of_the_day(h: int, m: int, s: int)
    requires
        0 <= h < 24,
        0 <= m < 60,
        0 <= s < 60,
    ensures
        ({
            let t = h * 10000 + m * 100 + s;
            let hm = h * 100 + m;
            &&& 930 <= hm <= 1130 ==> line_number(t) == (h - 9) * 60 + m - 30
            &&& 1300 <= hm <= 1500 ==> line_number(t) == 121 + (h - 13) * 60 + m
            &&& 925 <= hm < 930 ==> line_number(t) == 0
            &&& 1130 < hm < 1300 ==> line_number(t) == 120
            &&& (hm < 900 || hm > 1500) ==> line_number(t) == 241
        }),
{
    let t = h * 10000 + m * 100 + s;
    assert(t / 100 == h * 100 + m);
    assert(t / 10000 == h);
    assert((h * 100 + m) % 100 == m);
}

/// The trading phase by the first letter of its code: `S` start 1, `O` opening auction 2, `T`
/// trading 4, `B` break 5, `C` closing auction 8, `E` closed 6, `H` halt 7, `A` after-hours 13,
/// `V` volatility break 14, any other 0; a second character `1` (suspended) makes it 9.
pub proof fn trading_phase_by_letter(code: Seq<u8>)
    requires
        code.len() >= 1,
    ensures
        code.len() >= 2 && code[1] == 0x31 ==> phase_status(code) == 9,
        !(code.len() >= 2 && code[1] == 0x31) ==> phase_status(code) == (if code[0] == 'S' as u8 { 1u32 }
            else if code[0] == 'O' as u8 { 2u32 }
            else if code[0] == 'T' as u8 { 4u32 }
            else if code[0] == 'B' as u8 { 5u32 }
            else if code[0] == 'C' as u8 { 8u32 }
            else if code[0] == 'E' as u8 { 6u32 }
            else if code[0] == 'H' as u8 { 7u32 }
            else if code[0] == 'A' as u8 { 13u32 }
            else if code[0] == 'V' as u8 { 14u32 }
            else { 0u32 }),
{
}

/// Trading status encoded by a trading-phase code.
pub open spec fn phase_status(code: Seq<u8>) -> u32 {
    if code.len() == 0 {
        0
    } else if code.len() >= 2 && code[1] == 0x31 {
        9
    } else if code[0] == 0x53 {
        1
    } else if code[0] == 0x4f {
        2
    } else if code[0] == 0x54 {
        4
    } else if code[0] == 0x42 {
        5
    } else if code[0] == 0x43 {
        8
    } else if code[0] == 0x45 {
        6
    } else if code[0] == 0x48 {
        7
    } else if code[0] == 0x41 {
        13
    } else if code[0] == 0x56 {
        14
    } else {
        0
    }
}

/// Trading status of a trading-phase code: the first byte selects the phase
/// (`S`=1, `O`=2, `T`=4, `B`=5, `C`=8, `E`=6, `H`=7, `A`=13, `V`=14, otherwise 0);
/// a second byte `1` (suspended) overrides it with 9.
pub fn trading_phase_to_u32(code: &[u8]) -> (status: u32)
    ensures
        status == phase_status(code@),
{
    if code.len() == 0 {
        return 0;
    }
    let mut status: u32 = match code[0] {
        0x53 => 1,
        0x4f => 2,
        0x54 => 4,
        0x42 => 5,
        0x43 => 8,
        0x45 => 6,
        0x48 => 7,
        0x41 => 13,
        0x56 => 14,
        _ => 0,
    };
    if code.len() >= 2 {
        if code[1] == 0x31 {
            status = 9;
        }
    }
    status
}

/// `value / factor` rounded half up for the factors 10, 100 and 1000 (truncated otherwise),
/// kept in its low 32 bits; 0 for a factor that is not positive.
pub open spec fn rounded_div(value: int, factor: int) -> u32 {
    if factor <= 0 {
        0
    } else {
        let q = tdiv(value, factor);
        let bump = if (factor == 10 && trem(value, 10) >= 5) || (factor == 100 && trem(value, 100)
            >= 50) || (factor == 1000 && trem(value, 1000) >= 500) {
            1int
        } else {
            0int
        };
        (q + bump) as u32
    }
}

/// Divides a fixed-point value by `factor`, rounding half up for the factors 10, 100 and 1000.
pub fn div_accurate(value: i64, factor: i32) -> (r: u32)
    ensures
        r == rounded_div(value as int, factor as int),
{
    if factor <= 0 {
        return 0;
    }
    let v1 = value / factor as i64;
    let mut result = v1;
    if factor == 10 {
        if value % 10 >= 5 {
            result += 1;
        }
    } else if factor == 100 {
        if value % 100 >= 50 {
            result += 1;
        }
    } else if factor == 1000 {
        if value % 1000 >= 500 {
            result += 1;
        }
    }
    result as u32
}

/// On a non-negative value, dividing by 10, 100 or 1000 rounds half up: the result is the
/// quotient of the value plus half the factor.
pub proof fn div_accurate_rounds_half_up(value: int, factor: int)
    requires
        0 <= value,
        factor == 10 || factor == 100 || factor == 1000,
    ensures
        rounded_div(value, factor) == ((value + factor / 2) / factor) as u32,
{
}

/// The code's bytes begin with `10`, `11`, `12` or `13`.
pub open spec fn dept_code(b: Seq<u8>) -> bool {
    b.len() >= 2 && b[0] == 0x31 && 0x30 <= b[1] && b[1] <= 0x33
}

/// The code's bytes begin with `15`, `16`, `17` or `18`.
pub open spec fn fund_code(b: Seq<u8>) -> bool {
    b.len() >= 2 && b[0] == 0x31 && 0x35 <= b[1] && b[1] <= 0x38
}

/// Whether a security code is a bond code (prefix `10` to `13`).
pub fn is_dept(code: &String) -> (r: bool)
    ensures
        r == dept_code(encode_utf8(code@)),
{
    let b = code.as_str().as_bytes();
    b.len() >= 2 && b[0] == 0x31 && b[1] >= 0x30 && b[1] <= 0x33
}

/// Whether a security code is a fund code (prefix `15` to `18`).
pub fn is_fund(code: &String) -> (r: bool)
    ensures
        r == fund_code(encode_utf8(code@)),
{
    let b = code.as_str().as_bytes();
    b.len() >= 2 && b[0] == 0x31 && b[1] >= 0x35 && b[1] <= 0x38
}

/// No code is both a bond code and a fund code.
pub proof fn bond_and_fund_codes_are_disjoint(b: Seq<u8>)
    ensures
        !(dept_code(b) && fund_code(b)),
{
}

/// Byte-wise equality of two strings; equal bytes mean equal text.
pub fn str_eq(a: &str, b: &str) -> (r: bool)
    ensures
        r == (a@ == b@),
{
    let x = a.as_bytes();
    let y = b.as_bytes();
    assert(x@ == encode_utf8(a@));
    assert(y@ == encode_utf8(b@));
    proof {
        encode_utf8_decode_utf8(a@);
        encode_utf8_decode_utf8(b@);
    }
    if x.len() != y.len() {
        return false;
    }
    let mut i: usize = 0;
    while i < x.len()
        invariant
            x@.len() == y@.len(),
            x@ == encode_utf8(a@),
            y@ == encode_utf8(b@),
            i <= x@.len(),
            forall|j: int| 0 <= j < i ==> x@[j] == y@[j],
        decreases x@.len() - i,
    {
        if x[i] != y[i] {
            assert(x@[i as int] != y@[i as int]);
            assert(x@ != y@);
            return false;
        }
        i = i + 1;
    }
    assert(x@ =~= y@);
    true
}

/// Index code mapped to the code of its volume statistics, if it has one.
pub open spec fn translated_code(code: Seq<char>) -> Option<Seq<char>> {
    if code == "399001"@ {
        Some("395099"@)
    } else if code == "399002"@ {
        Some("395001"@)
    } else if code == "399003"@ {
        Some("395002"@)
    } else if code == "399005"@ {
        Some("395003"@)
    } else if code == "399006"@ {
        Some("395004"@)
    } else {
        None
    }
}

/// The indices with volume statistics and their statistics codes: 399001 to 395099, 399002 to
/// 395001, 399003 to 395002, 399005 to 395003 and 399006 to 395004; no two indices share a
/// statistics code, and no other code has one.
pub proof fn statistics_codes_of_indices(code: Seq<char>, other: Seq<char>)
    ensures
        translated_code("399001"@) == Some("395099"@),
        translated_code("399002"@) == Some("395001"@),
        translated_code("399003"@) == Some("395002"@),
        translated_code("399005"@) == Some("395003"@),
        translated_code("399006"@) == Some("395004"@),
        translated_code(code) is Some ==> code == "399001"@ || code == "399002"@ || code == "399003"@
            || code == "399005"@ || code == "399006"@,
        translated_code(code) is Some && translated_code(code) == translated_code(other) ==> code == other,
{
    reveal_strlit("399001");
    reveal_strlit("399002");
    reveal_strlit("399003");
    reveal_strlit("399005");
    reveal_strlit("399006");
    reveal_strlit("395099");
    reveal_strlit("395001");
    reveal_strlit("395002");
    reveal_strlit("395003");
    reveal_strlit("395004");
    assert("399001"@[5] != "399002"@[5]);
    assert("399001"@[5] != "399003"@[5]);
    assert("399001"@[5] != "399005"@[5]);
    assert("399001"@[5] != "399006"@[5]);
    assert("399002"@[5] != "399003"@[5]);
    assert("399002"@[5] != "399005"@[5]);
    assert("399002"@[5] != "399006"@[5]);
    assert("399003"@[5] != "399005"@[5]);
    assert("399003"@[5] != "399006"@[5]);
    assert("399005"@[5] != "399006"@[5]);
    assert("395099"@[4] != "395001"@[4]);
    assert("395099"@[4] != "395002"@[4]);
    assert("395099"@[4] != "395003"@[4]);
    assert("395099"@[4] != "395004"@[4]);
    assert("395001"@[5] != "395002"@[5]);
    assert("395001"@[5] != "395003"@[5]);
    assert("395001"@[5] != "395004"@[5]);
    assert("395002"@[5] != "395003"@[5]);
    assert("395002"@[5] != "395004"@[5]);
    assert("395003"@[5] != "395004"@[5]);
}

/// The code under which the volume statistics of an index are published.
pub fn translate(code: &String) -> (r: Option<String>)
    ensures
        match r {
            Some(t) => translated_code(code@) == Some(t@),
            None => translated_code(code@) is None,
        },
{
    let c = code.as_str();
    if str_eq(c, "399001") {
        return Some("395099".to_owned());
    }
    if str_eq(c, "399002") {
        return Some("395001".to_owned());
    }
    if str_eq(c, "399003") {
        return Some("395002".to_owned());
    }
    if str_eq(c, "399005") {
        return Some("395003".to_owned());
    }
    if str_eq(c, "399006") {
        return Some("395004".to_owned());
    }
    None
}

/// Text decoded from bytes with every invalid UTF-8 sequence replaced by U+FFFD.
pub uninterp spec fn utf8_lossy(b: Seq<u8>) -> Seq<char>;

/// `String::from_utf8_lossy`, made owned.
/// Claimed: the text is `utf8_lossy` of the bytes, and for valid UTF-8 it is the decoded text
/// (the documentation: valid input is returned unchanged). How invalid sequences are replaced is
/// left to the name.
#[verifier::external_body]
fn from_utf8_lossy_owned(buf: &[u8]) -> (s: String)
    ensures
        s@ == utf8_lossy(buf@),
        valid_utf8(buf@) ==> s@ == decode_utf8(buf@),
{
    String::from_utf8_lossy(buf).into_owned()
}

/// Decodes bytes as UTF-8, replacing invalid sequences.
pub fn utf8_to_string(buf: &[u8]) -> (s: String)
    ensures
        s@ == utf8_lossy(buf@),
        valid_utf8(buf@) ==> s@ == decode_utf8(buf@),
{
    from_utf8_lossy_owned(buf)
}

/// `std::str::from_utf8`, made owned.
/// Claimed (documentation): it succeeds exactly on valid UTF-8, giving the decoded text.
#[verifier::external_body]
pub(crate) fn str_from_utf8(buf: &[u8]) -> (r: Option<String>)
    ensures
        r is Some <==> valid_utf8(buf@),
        r matches Some(s) ==> s@ == decode_utf8(buf@),
{
    match std::str::from_utf8(buf) {
        Ok(s) => Some(s.to_owned()),
        Err(_) => None,
    }
}

/// Trading-window check on a clock reading: the `hhmm` time when it lies strictly between
/// 08:30 and 15:30 on a weekday (`weekday` counts from Monday = 0), otherwise `WouldBlock`.
pub fn check_time_at(hour: u32, minute: u32, weekday: u32) -> (r: Result<u32, MarketError>)
    requires
        hour * 100 + minute <= u32::MAX,
    ensures
        ({
            let time = hour * 100 + minute;
            if time >= 1530 || time <= 830 || weekday >= 5 {
                r == Err::<u32, MarketError>(MarketError::WouldBlock)
            } else {
                r == Ok::<u32, MarketError>(time as u32)
            }
        }),
{
    let time = hour * 100 + minute;
    if (time >= 1530 || time <= 830) || weekday >= 5 {
        return Err(MarketError::WouldBlock);
    }
    Ok(time)
}

/// `chrono::Local::now()` read as (hour, minute, days since Monday).
/// Claimed (chrono documentation): hour in 0..24, minute in 0..60, weekday in 0..7.
/// The reading depends on the clock and the time zone, so nothing else is stated.
#[verifier::external_body]
pub(crate) fn local_clock() -> (r: (u32, u32, u32))
    ensures
        r.0 < 24,
        r.1 < 60,
        r.2 < 7,
{
    let now = chrono::Local::now();
    (now.hour(), now.minute(), now.weekday().num_days_from_monday())
}

/// Checks that the market is open now; gives the `hhmm` time.
pub fn check_time() -> (r: Result<u32, MarketError>)
    ensures
        r matches Ok(t) ==> 830 < t && t < 1530,
        r matches Err(e) ==> e == MarketError::WouldBlock,
{
    let (hour, minute, weekday) = local_clock();
    check_time_at(hour, minute, weekday)
}

/// Text that `encoding::decode` gives for `b`: a UTF-8 or UTF-16 byte-order mark selects that
/// encoding, otherwise GBK is used; strict, so `None` on a malformed sequence.
pub uninterp spec fn gbk_decoded(b: Seq<u8>) -> Option<Seq<char>>;

/// `encoding::decode(buf, DecoderTrap::Strict, GBK)`.
/// Claimed: the outcome is `gbk_decoded(buf)`; what that is takes the GBK tables to say.
#[verifier::external_body]
fn decode_gbk(buf: &[u8]) -> (r: Option<String>)
    ensures
        r matches Some(s) ==> gbk_decoded(buf@) == Some(s@),
        r is None ==> gbk_decoded(buf@) is None,
{
    let (x, _) = encoding::decode(buf, DecoderTrap::Strict, encoding::all::GBK);
    x.ok()
}

/// Decodes GB2312/GBK text (a byte-order mark may select UTF-8 or UTF-16).
pub fn gb2312_to_string(buf: &[u8]) -> (r: Option<String>)
    ensures
        match r {
            Some(s) => gbk_decoded(buf@) == Some(s@),
            None => gbk_decoded(buf@) is None,
        },
{
    decode_gbk(buf)
}

/// GBK bytes of one character, if GBK can encode it.
pub uninterp spec fn gbk_char(c: char) -> Option<Seq<u8>>;

/// `GBK.encode(c, EncoderTrap::Strict)` on the one-character string `c`.
/// Claimed: the outcome is `gbk_char(c)`; an ASCII character is its own single byte
/// (the encoder writes characters below U+0080 unchanged).
#[verifier::external_body]
fn encode_gbk_char(c: char) -> (r: Option<Vec<u8>>)
    ensures
        r matches Some(v) ==> gbk_char(c) == Some(v@),
        r is None ==> gbk_char(c) is None,
        (c as u32) < 0x80 ==> (r is Some && r->0@ == seq![c as u8]),
{
    encoding::all::GBK.encode(&c.to_string(), EncoderTrap::Strict).ok()
}

/// Lower-case hexadecimal digit of `d < 16`.
pub open spec fn hex_digit(d: int) -> u8 {
    if d < 10 {
        (0x30 + d) as u8
    } else {
        (0x61 + d - 10) as u8
    }
}

/// Lower-case hexadecimal digits of `n`, without leading zeros.
pub open spec fn hex_lower(n: nat) -> Seq<u8>
    decreases n,
{
    if n < 16 {
        seq![hex_digit(n as int)]
    } else {
        hex_lower(n / 16).push(hex_digit((n % 16) as int))
    }
}

/// The hexadecimal character reference `&#x..;` of `c`.
pub open spec fn ncr_escape(c: char) -> Seq<u8> {
    seq![0x26u8, 0x23u8, 0x78u8] + hex_lower(c as nat) + seq![0x3bu8]
}

/// Character references of all the characters of `s`, in order.
pub open spec fn ncr_escape_all(s: Seq<char>) -> Seq<u8>
    decreases s.len(),
{
    if s.len() == 0 {
        seq![]
    } else {
        ncr_escape_all(s.drop_last()) + ncr_escape(s.last())
    }
}

/// GBK bytes of a character, or its character reference where GBK has none.
pub open spec fn gbk_or_escape(c: char) -> Seq<u8> {
    match gbk_char(c) {
        Some(b) => b,
        None => ncr_escape(c),
    }
}

/// GBK encoding of a text, escaping what GBK cannot encode.
pub open spec fn gb2312_bytes(s: Seq<char>) -> Seq<u8>
    decreases s.len(),
{
    if s.len() == 0 {
        seq![]
    } else {
        gb2312_bytes(s.drop_last()) + gbk_or_escape(s.last())
    }
}

fn push_hex(n: u32, out: &mut Vec<u8>)
    ensures
        final(out)@ == old(out)@ + hex_lower(n as nat),
    decreases n,
{
    if n >= 16 {
        push_hex(n / 16, out);
    }
    let d = n % 16;
    if d < 10 {
        out.push(0x30 + d as u8);
    } else {
        out.push(0x61 + (d - 10) as u8);
    }
    assert(final(out)@ =~= old(out)@ + hex_lower(n as nat));
}

fn push_ncr_escape(c: char, out: &mut Vec<u8>)
    ensures
        final(out)@ == old(out)@ + ncr_escape(c),
{
    out.push(0x26);
    out.push(0x23);
    out.push(0x78);
    push_hex(c as u32, out);
    out.push(0x3b);
    assert(final(out)@ =~= old(out)@ + ncr_escape(c));
}

/// Writes the character reference `&#x..;` of every character of `input`; always succeeds.
pub fn hex_ncr_escape(input: &str, output: &mut Vec<u8>) -> (r: bool)
    ensures
        r,
        final(output)@ == old(output)@ + ncr_escape_all(input@),
{
    let ghost start = output@;
    let mut chars = input.chars();
    let ghost mut done: Seq<char> = Seq::empty();
    proof {
        broadcast use vstd::string::axiom_spec_iter;
        assert(done + chars.remaining() =~= input@);
    }
    loop
        invariant
            done + chars.remaining() == input@,
            output@ == start + ncr_escape_all(done),
            chars.decrease() is Some,
        ensures
            done == input@,
            output@ == start + ncr_escape_all(done),
        decreases chars.decrease()->0,
    {
        match chars.next() {
            Some(c) => {
                proof {
                    assert(done.push(c) + chars.remaining() =~= input@);
                    assert(done.push(c).drop_last() =~= done);
                    done = done.push(c);
                }
                push_ncr_escape(c, output);
            },
            None => {
                assert(done =~= input@);
                break;
            },
        }
    }
    true
}

/// GBK bytes of a text; a character GBK cannot encode is written as its `&#x..;` reference.
pub fn string_to_gb2312(s: &String) -> (r: Vec<u8>)
    ensures
        r@ == gb2312_bytes(s@),
{
    let mut out: Vec<u8> = Vec::new();
    let mut chars = s.as_str().chars();
    let ghost mut done: Seq<char> = Seq::empty();
    proof {
        broadcast use vstd::string::axiom_spec_iter;
        assert(done + chars.remaining() =~= s@);
    }
    loop
        invariant
            done + chars.remaining() == s@,
            out@ == gb2312_bytes(done),
            chars.decrease() is Some,
        ensures
            done == s@,
            out@ == gb2312_bytes(done),
        decreases chars.decrease()->0,
    {
        match chars.next() {
            Some(c) => {
                proof {
                    assert(done.push(c) + chars.remaining() =~= s@);
                    assert(done.push(c).drop_last() =~= done);
                }
                match encode_gbk_char(c) {
                    Some(b) => {
                        let mut i: usize = 0;
                        let ghost before = out@;
                        while i < b.len()
                            invariant
                                i <= b@.len(),
                                out@ == before + b@.take(i as int),
                            decreases b@.len() - i,
                        {
                            out.push(b[i]);
                            i = i + 1;
                            assert(out@ =~= before + b@.take(i as int));
                        }
                        assert(b@.take(i as int) =~= b@);
                    },
                    None => {
                        push_ncr_escape(c, &mut out);
                    },
                }
                proof {
                    done = done.push(c);
                }
            },
            None => {
                assert(done =~= s@);
                break;
            },
        }
    }
    out
}

/// Decimal digits of `n`, without leading zeros.
pub open spec fn decimal_digits(n: nat) -> Seq<u8>
    decreases n,
{
    if n < 10 {
        seq![(0x30 + n) as u8]
    } else {
        decimal_digits(n / 10).push((0x30 + n % 10) as u8)
    }
}

/// Decimal text of `v`, with a leading `-` when negative.
pub open spec fn decimal_text(v: int) -> Seq<u8> {
    if v < 0 {
        seq![0x2du8] + decimal_digits((-v) as nat)
    } else {
        decimal_digits(v as nat)
    }
}

fn push_decimal_digits(n: u64, out: &mut Vec<u8>)
    ensures
        final(out)@ == old(out)@ + decimal_digits(n as nat),
    decreases n,
{
    if n >= 10 {
        push_decimal_digits(n / 10, out);
    }
    out.push(0x30 + (n % 10) as u8);
    assert(final(out)@ =~= old(out)@ + decimal_digits(n as nat));
}

/// The decimal text of `v` (as `i64::to_string` writes it), as bytes.
pub fn decimal_bytes(v: i64) -> (r: Vec<u8>)
    ensures
        r@ == decimal_text(v as int),
{
    let mut out: Vec<u8> = Vec::new();
    if v < 0 {
        out.push(0x2d);
        let m: u64 = (0 - (v as i128)) as u64;
        push_decimal_digits(m, &mut out);
    } else {
        push_decimal_digits(v as u64, &mut out);
    }
    assert(out@ =~= decimal_text(v as int));
    out
}

/// Value of a sequence of ASCII decimal digits (most significant first).
pub open spec fn digits_value(b: Seq<u8>) -> int
    decreases b.len(),
{
    if b.len() == 0 {
        0
    } else {
        digits_value(b.drop_last()) * 10 + (b.last() - 0x30)
    }
}

/// Every byte is an ASCII decimal digit.
pub open spec fn all_digits(b: Seq<u8>) -> bool {
    forall|i: int| 0 <= i < b.len() ==> 0x30 <= #[trigger] b[i] <= 0x39
}

/// What `str::parse::<u32>` gives for text with bytes `b`: an optional `+` followed by at
/// least one decimal digit, with a value that fits.
pub open spec fn parsed_u32(b: Seq<u8>) -> Option<u32> {
    let d = if b.len() > 0 && b[0] == 0x2b { b.drop_first() } else { b };
    if d.len() > 0 && all_digits(d) && digits_value(d) <= u32::MAX {
        Some(digits_value(d) as u32)
    } else {
        None
    }
}

/// What `str::parse::<i64>` gives for text with bytes `b`: an optional sign followed by at
/// least one decimal digit, with a value that fits.
pub open spec fn parsed_i64(b: Seq<u8>) -> Option<i64> {
    let neg = b.len() > 0 && b[0] == 0x2d;
    let d = if b.len() > 0 && (b[0] == 0x2b || b[0] == 0x2d) { b.drop_first() } else { b };
    let v = if neg { -digits_value(d) } else { digits_value(d) };
    if d.len() > 0 && all_digits(d) && i64::MIN <= v <= i64::MAX {
        Some(v as i64)
    } else {
        None
    }
}

/// Digits `b[from..]` read as a number, or `None` on a non-digit or when it exceeds `limit`.
fn digits_upto(b: &[u8], from: usize, limit: u64) -> (r: Option<u64>)
    requires
        from <= b@.len(),
    ensures
        r matches Some(v) ==> all_digits(b@.subrange(from as int, b@.len() as int)) && v == digits_value(b@.subrange(from as int, b@.len() as int)) && v <= limit,
        r is None ==> !all_digits(b@.subrange(from as int, b@.len() as int)) || digits_value(b@.subrange(from as int, b@.len() as int)) > limit,
{
    let n = b.len();
    let mut v: u64 = 0;
    let mut i = from;
    while i < n
        invariant
            from <= i <= n,
            n == b@.len(),
            all_digits(b@.subrange(from as int, i as int)),
            v == digits_value(b@.subrange(from as int, i as int)),
            v <= limit,
        decreases n - i,
    {
        let c = b[i];
        assert(b@.subrange(from as int, i as int + 1).drop_last() =~= b@.subrange(from as int, i as int));
        if c < 0x30 || c > 0x39 {
            proof {
                lemma_digits_extend_fails(b@, from as int, i as int);
            }
            return None;
        }
        let d = (c - 0x30) as u64;
        if d > limit || v > (limit - d) / 10 {
            proof {
                lemma_digits_value_grows(b@, from as int, i as int + 1);
            }
            return None;
        }
        v = v * 10 + d;
        i = i + 1;
    }
    Some(v)
}

proof fn lemma_digits_extend_fails(b: Seq<u8>, from: int, i: int)
    requires
        0 <= from <= i < b.len(),
        !(0x30 <= b[i] <= 0x39),
    ensures
        !all_digits(b.subrange(from, b.len() as int)),
{
    assert(b.subrange(from, b.len() as int)[i - from] == b[i]);
}

/// Once the value of a digit prefix exceeds a bound, so does the value of every longer run.
proof fn lemma_digits_value_grows(b: Seq<u8>, from: int, k: int)
    requires
        0 <= from < k <= b.len(),
    ensures
        all_digits(b.subrange(from, b.len() as int)) ==> digits_value(b.subrange(from, b.len() as int)) >= digits_value(b.subrange(from, k)),
    decreases b.len() - k,
{
    if k < b.len() {
        lemma_digits_value_grows(b, from, k + 1);
        let s = b.subrange(from, k + 1);
        assert(s.drop_last() =~= b.subrange(from, k));
        if all_digits(b.subrange(from, b.len() as int)) {
            assert(b.subrange(from, b.len() as int)[k - from] == b[k]);
            assert(0x30 <= b[k]);
            assert(digits_value(b.subrange(from, k)) >= 0) by {
                lemma_digits_value_nonneg(b.subrange(from, k));
            }
        }
    } else {
        assert(b.subrange(from, k) =~= b.subrange(from, b.len() as int));
    }
}

proof fn lemma_digits_value_nonneg(b: Seq<u8>)
    ensures
        all_digits(b) ==> digits_value(b) >= 0,
    decreases b.len(),
{
    if b.len() > 0 {
        assert(all_digits(b) ==> all_digits(b.drop_last())) by {
            if all_digits(b) {
                assert forall|i: int| 0 <= i < b.drop_last().len() implies 0x30 <= #[trigger] b.drop_last()[i] <= 0x39 by {
                    assert(b.drop_last()[i] == b[i]);
                }
            }
        }
        lemma_digits_value_nonneg(b.drop_last());
        if all_digits(b) {
            assert(0x30 <= b[b.len() - 1]);
        }
    }
}

/// `text.parse::<u32>()`: an optional `+` followed by decimal digits that fit.
pub fn parse_u32(text: &str) -> (r: Option<u32>)
    ensures
        r == parsed_u32(encode_utf8(text@)),
{
    let b = text.as_bytes();
    let n = b.len();
    let from: usize = if n > 0 && b[0] == 0x2b { 1 } else { 0 };
    assert(from > 0 ==> b@.subrange(1, n as int) =~= b@.drop_first());
    assert(from == 0 ==> b@.subrange(0, n as int) =~= b@);
    if from >= n {
        return None;
    }
    match digits_upto(b, from, 0xffff_ffff) {
        Some(v) => Some(v as u32),
        None => None,
    }
}

/// `text.parse::<i64>()`: an optional sign followed by decimal digits that fit.
pub fn parse_i64(text: &str) -> (r: Option<i64>)
    ensures
        r == parsed_i64(encode_utf8(text@)),
{
    let b = text.as_bytes();
    let n = b.len();
    let neg = n > 0 && b[0] == 0x2d;
    let from: usize = if n > 0 && (b[0] == 0x2b || b[0] == 0x2d) { 1 } else { 0 };
    assert(from > 0 ==> b@.subrange(1, n as int) =~= b@.drop_first());
    assert(from == 0 ==> b@.subrange(0, n as int) =~= b@);
    if from >= n {
        return None;
    }
    let limit: u64 = if neg { 0x8000_0000_0000_0000 } else { 0x7fff_ffff_ffff_ffff };
    match digits_upto(b, from, limit) {
        Some(v) => {
            if neg {
                Some((0 - (v as i128)) as i64)
            } else {
                Some(v as i64)
            }
        },
        None => None,
    }
}

proof fn lemma_decimal_digits(n: nat)
    ensures
        decimal_digits(n).len() > 0,
        all_digits(decimal_digits(n)),
        digits_value(decimal_digits(n)) == n,
        decimal_digits(n)[0] != 0x2b && decimal_digits(n)[0] != 0x2d,
    decreases n,
{
    if n >= 10 {
        lemma_decimal_digits(n / 10);
        let d = decimal_digits(n / 10);
        let e = d.push((0x30 + n % 10) as u8);
        assert(decimal_digits(n) == e);
        assert(e.drop_last() =~= d);
        assert(e.last() == (0x30 + n % 10) as u8);
        assert(0x30 + n % 10 < 256);
        assert(e.last() - 0x30 == n % 10);
        assert(digits_value(e) == digits_value(d) * 10 + (e.last() - 0x30));
        assert((n / 10) * 10 + n % 10 == n);
        assert forall|i: int| 0 <= i < e.len() implies 0x30 <= #[trigger] e[i] <= 0x39 by {
            if i < d.len() {
                assert(e[i] == d[i]);
            }
        }
    } else {
        let e = decimal_digits(n);
        assert(e.drop_last() =~= Seq::<u8>::empty());
        assert(digits_value(Seq::<u8>::empty()) == 0);
        assert(e.last() - 0x30 == n);
        assert(digits_value(e) == digits_value(e.drop_last()) * 10 + (e.last() - 0x30));
    }
}

/// The decimal text of a number parses back to that number.
pub proof fn decimal_text_parses_back(v: i64)
    ensures
        parsed_i64(decimal_text(v as int)) == Some(v),
{
    if v < 0 {
        let d = decimal_digits((-v) as nat);
        lemma_decimal_digits((-v) as nat);
        let t = seq![0x2du8] + d;
        assert(t.drop_first() =~= d);
    } else {
        lemma_decimal_digits(v as nat);
    }
}

/// Unicode `White_Space` characters, which `str::trim` removes.
pub open spec fn is_white_space(c: char) -> bool {
    let u = c as u32;
    (0x9 <= u && u <= 0xd) || u == 0x20 || u == 0x85 || u == 0xa0 || u == 0x1680 || (0x2000 <= u
        && u <= 0x200a) || u == 0x2028 || u == 0x2029 || u == 0x202f || u == 0x205f || u == 0x3000
}

/// `s` without its leading white space.
pub open spec fn trim_start_chars(s: Seq<char>) -> Seq<char>
    decreases s.len(),
{
    if s.len() > 0 && is_white_space(s[0]) {
        trim_start_chars(s.drop_first())
    } else {
        s
    }
}

/// `s` without its trailing white space.
pub open spec fn trim_end_chars(s: Seq<char>) -> Seq<char>
    decreases s.len(),
{
    if s.len() > 0 && is_white_space(s.last()) {
        trim_end_chars(s.drop_last())
    } else {
        s
    }
}

/// `s` without leading and trailing white space.
pub open spec fn trimmed(s: Seq<char>) -> Seq<char> {
    trim_end_chars(trim_start_chars(s))
}

/// `str::trim`, made owned.
/// Claimed (documentation): leading and trailing characters with the Unicode `White_Space`
/// property are removed, nothing else.
#[verifier::external_body]
pub(crate) fn trim_owned(s: &str) -> (r: String)
    ensures
        r@ == trimmed(s@),
{
    s.trim().to_owned()
}

/// `String::push_str`.
/// Claimed (documentation): `t` is appended to `s`.
#[verifier::external_body]
pub(crate) fn push_str(s: &mut String, t: &str)
    ensures
        final(s)@ == old(s)@ + t@,
{
    s.push_str(t)
}

/// Settings of the feed: gateway address and the location of the static security files.
pub struct Configuration {
    pub _addr: String,
    pub _static_files: String,
}

/// Outcome of a clock reading `hour:minute` for a schedule that last saved at minute `last`
/// of the day: whether to save, and the minute remembered afterwards.
pub open spec fn save_step(last: u32, hour: int, minute: int) -> (bool, u32) {
    let time = hour * 100 + minute;
    let time2 = hour * 60 + minute;
    if 900 <= time && time <= 1600 {
        if time2 > last {
            if time2 >= last + 15 {
                (true, time2 as u32)
            } else {
                (false, last)
            }
        } else {
            (false, time2 as u32)
        }
    } else {
        (false, last)
    }
}

/// Two saves are at least 15 minutes apart while the clock moves forward: after a save at
/// `h1:m1`, a reading less than 15 minutes later does not save.
pub proof fn saves_are_fifteen_minutes_apart(last: u32, h1: int, m1: int, h2: int, m2: int)
    requires
        0 <= h1 * 60 + m1 <= u32::MAX,
        save_step(last, h1, m1).0,
        h1 * 60 + m1 < h2 * 60 + m2 < h1 * 60 + m1 + 15,
    ensures
        !save_step(save_step(last, h1, m1).1, h2, m2).0,
{
}

/// Decides, on a clock reading, whether the periodic snapshot to disk is due: inside
/// 09:00..=16:00, at least 15 minutes after the last save. The time of day in minutes is
/// remembered; a reading that does not move forward resets it.
pub struct SaveSchedule {
    pub _save_time: u32,
}

impl SaveSchedule {
    /// A schedule that has never saved.
    pub fn new() -> (r: SaveSchedule)
        ensures
            r._save_time == 0,
    {
        SaveSchedule { _save_time: 0 }
    }

    /// Whether to save at `hour:minute`, updating the remembered time.
    pub fn due(&mut self, hour: u32, minute: u32) -> (save: bool)
        requires
            hour * 100 + minute <= u32::MAX,
            hour * 60 + minute <= u32::MAX,
        ensures
            (save, final(self)._save_time) == save_step(old(self)._save_time, hour as int, minute as int),
    {
        let time = hour * 100 + minute;
        let time2 = hour * 60 + minute;
        let mut need_to_save = false;
        if time >= 900 && time <= 1600 {
            if time2 > self._save_time {
                if time2 - self._save_time >= 15 {
                    need_to_save = true;
                    self._save_time = time2;
                }
            } else {
                self._save_time = time2;
            }
        }
        need_to_save
    }
}

} // verus!
