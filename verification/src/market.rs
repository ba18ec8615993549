use vstd::prelude::*;
use vstd::utf8::*;
use crate::errors::MarketError;
use crate::interoper::{T2Context, T2State};
use crate::t2sdk::{
    datetime_step, push_debt, push_fund, push_index, push_market_datetime, push_market_status,
    push_step, push_stock, stamp_date, stamp_time, status_step, stock_wf, StockModel, StockRecord,
};
use crate::table::{
    lookup, lookup_or_default, table_wf, upsert, upsert_then_lookup, StockTable, TableModel,
};
use crate::utils::{
    dept_code, div_accurate, fund_code, get_line_number, is_dept, is_fund, line_number,
    phase_status, rounded_div, str_from_utf8, tdiv, translate, translated_code, trading_phase_to_u32,
    trem, utf8_lossy, utf8_to_string,
};
use crate::wire::{copy_bytes, get_i64, get_u16, get_u32, heartbeat_frame, heartbeat_message, i64_at, u16_at, u32_at};

verus! {

/// One quote entry of a snapshot: entry type, price, size and price level.
pub struct StockEntry {
    pub _entry_type: [u8; 2],
    pub _entry_px: i64,
    pub _entry_size: i64,
    pub _price_level: u16,
    pub _num_of_orders: i64,
}

/// Effect of one quote entry on a record. Entry types: `0` bid and `1` ask at price level
/// 1..=5 (volume in lots of 100, price to three decimals), `2`/`3` last price (refreshing the
/// market value and the P/E ratios), `4` open, `7` high, `8` low; `x7` fund value,
/// `xa` previous close, `xb` open, `xc` high, `xd` low. Other types change nothing.
pub open spec fn entry_effect(s: StockModel, t0: u8, t1: u8, px: i64, size: i64, level: u16) -> StockModel {
    if t0 == 0x30 {
        if 1 <= level && level <= 5 {
            StockModel {
                buy_amounts: s.buy_amounts.update(level - 1, rounded_div(size as int, 100)),
                buy_pxs: s.buy_pxs.update(level - 1, rounded_div(px as int, 1000)),
                ..s
            }
        } else {
            s
        }
    } else if t0 == 0x31 {
        if 1 <= level && level <= 5 {
            StockModel {
                sale_amounts: s.sale_amounts.update(level - 1, rounded_div(size as int, 100)),
                sale_pxs: s.sale_pxs.update(level - 1, rounded_div(px as int, 1000)),
                ..s
            }
        } else {
            s
        }
    } else if t0 == 0x32 || t0 == 0x33 {
        let last = rounded_div(px as int, 1000);
        let s1 = StockModel { last_px: last, ..s };
        let s2 = if s1.total_shares > 0 && last > 0 {
            StockModel {
                market_value: tdiv(s1.total_shares.wrapping_mul(last as i64) as int, 1000) as u64,
                ..s1
            }
        } else {
            s1
        };
        let s3 = if s2.static_pe_rate > 0 && last > 0 {
            StockModel { pe_rate: (last.wrapping_mul(100) / s2.static_pe_rate) as u32, ..s2 }
        } else {
            s2
        };
        if s3.static_dynamic_pe > 0 && last > 0 {
            StockModel { dynamic_pe: (last.wrapping_mul(100) / s3.static_dynamic_pe) as u32, ..s3 }
        } else {
            s3
        }
    } else if t0 == 0x34 {
        StockModel { open_px: rounded_div(px as int, 1000), ..s }
    } else if t0 == 0x37 {
        StockModel { high_px: rounded_div(px as int, 1000), ..s }
    } else if t0 == 0x38 {
        StockModel { low_px: rounded_div(px as int, 1000), ..s }
    } else if t0 == 0x78 {
        if t1 == 0x37 {
            if px > 0 {
                StockModel { market_value: px as u64, ..s }
            } else {
                s
            }
        } else if t1 == 0x61 {
            StockModel { pre_close_px: rounded_div(px as int, 1000), ..s }
        } else if t1 == 0x62 {
            StockModel { open_px: rounded_div(px as int, 1000), ..s }
        } else if t1 == 0x63 {
            StockModel { high_px: rounded_div(px as int, 1000), ..s }
        } else if t1 == 0x64 {
            StockModel { low_px: rounded_div(px as int, 1000), ..s }
        } else {
            s
        }
    } else {
        s
    }
}

/// Applies one quote entry to a record.
pub fn parse_entry(stock: &mut StockRecord, entry: &StockEntry)
    requires
        stock_wf(old(stock)@),
    ensures
        final(stock)@ == entry_effect(
            old(stock)@,
            entry._entry_type[0],
            entry._entry_type[1],
            entry._entry_px,
            entry._entry_size,
            entry._price_level,
        ),
        stock_wf(final(stock)@),
{
    let t0 = entry._entry_type[0];
    let t1 = entry._entry_type[1];
    if t0 == 0x30 {
        if entry._price_level >= 1 && entry._price_level <= 5 {
            let index = (entry._price_level - 1) as usize;
            stock._buy_amounts[index] = div_accurate(entry._entry_size, 100);
            stock._buy_pxs[index] = div_accurate(entry._entry_px, 1000);
        }
    } else if t0 == 0x31 {
        if entry._price_level >= 1 && entry._price_level <= 5 {
            let index = (entry._price_level - 1) as usize;
            stock._sale_amounts[index] = div_accurate(entry._entry_size, 100);
            stock._sale_pxs[index] = div_accurate(entry._entry_px, 1000);
        }
    } else if t0 == 0x32 || t0 == 0x33 {
        stock._last_px = div_accurate(entry._entry_px, 1000);
        if stock._total_shares > 0 && stock._last_px > 0 {
            stock._market_value = (stock._total_shares.wrapping_mul(stock._last_px as i64) / 1000) as u64;
        }
        if stock._static_pe_rate > 0 && stock._last_px > 0 {
            stock._pe_rate = stock._last_px.wrapping_mul(100) / stock._static_pe_rate;
        }
        if stock._static_dynamic_pe > 0 && stock._last_px > 0 {
            stock._dynamic_pe = stock._last_px.wrapping_mul(100) / stock._static_dynamic_pe;
        }
    } else if t0 == 0x34 {
        stock._open_px = div_accurate(entry._entry_px, 1000);
    } else if t0 == 0x37 {
        stock._high_px = div_accurate(entry._entry_px, 1000);
    } else if t0 == 0x38 {
        stock._low_px = div_accurate(entry._entry_px, 1000);
    } else if t0 == 0x78 {
        if t1 == 0x37 {
            if entry._entry_px > 0 {
                stock._market_value = entry._entry_px as u64;
            }
        } else if t1 == 0x61 {
            stock._pre_close_px = div_accurate(entry._entry_px, 1000);
        } else if t1 == 0x62 {
            stock._open_px = div_accurate(entry._entry_px, 1000);
        } else if t1 == 0x63 {
            stock._high_px = div_accurate(entry._entry_px, 1000);
        } else if t1 == 0x64 {
            stock._low_px = div_accurate(entry._entry_px, 1000);
        }
    }
}

/// Byte offset just past the snapshot entry that starts at `start` (32 fixed bytes, then
/// eight bytes for each of its order quantities).
pub open spec fn entry_next(b: Seq<u8>, start: int) -> int {
    start + 32 + 8 * u32_at(b, start + 28)
}

/// `count` snapshot entries, starting at `start`, lie within `b`.
pub open spec fn entries_fit(b: Seq<u8>, start: int, count: nat) -> bool
    decreases count,
{
    if count == 0 {
        0 <= start <= b.len()
    } else {
        0 <= start && start + 32 <= b.len() && entries_fit(b, entry_next(b, start), (count - 1) as nat)
    }
}

/// Effect of the entry at `start` on a record.
pub open spec fn entry_effect_at(s: StockModel, b: Seq<u8>, start: int) -> StockModel {
    entry_effect(s, b[start], b[start + 1], i64_at(b, start + 2), i64_at(b, start + 10), u16_at(b, start + 18))
}

/// Effect of `count` snapshot entries starting at `start`, in order.
pub open spec fn apply_entries(s: StockModel, b: Seq<u8>, start: int, count: nat) -> StockModel
    decreases count,
{
    if count == 0 {
        s
    } else {
        apply_entries(entry_effect_at(s, b, start), b, entry_next(b, start), (count - 1) as nat)
    }
}

/// Entries that fit start within the buffer.
pub proof fn lemma_fit_start_le(b: Seq<u8>, start: int, count: nat)
    requires
        entries_fit(b, start, count),
    ensures
        0 <= start <= b.len(),
    decreases count,
{
}

fn apply_stock_entries(stock: &mut StockRecord, buf: &[u8], start0: usize, count: u32)
    requires
        stock_wf(old(stock)@),
        entries_fit(buf@, start0 as int, count as nat),
    ensures
        final(stock)@ == apply_entries(old(stock)@, buf@, start0 as int, count as nat),
        stock_wf(final(stock)@),
{
    let mut start = start0;
    let mut i: u32 = 0;
    while i < count
        invariant
            i <= count,
            stock_wf(stock@),
            entries_fit(buf@, start as int, (count - i) as nat),
            apply_entries(old(stock)@, buf@, start0 as int, count as nat) == apply_entries(
                stock@,
                buf@,
                start as int,
                (count - i) as nat,
            ),
        decreases count - i,
    {
        let n = buf.len();
        let entry = StockEntry {
            _entry_type: [buf[start], buf[start + 1]],
            _entry_px: get_i64(buf, start + 2),
            _entry_size: get_i64(buf, start + 10),
            _price_level: get_u16(buf, start + 18),
            _num_of_orders: get_i64(buf, start + 20),
        };
        let qty_count = get_u32(buf, start + 28);
        parse_entry(stock, &entry);
        proof {
            lemma_fit_start_le(buf@, entry_next(buf@, start as int), (count - i - 1) as nat);
        }
        assert(start as int + 32 + 8 * qty_count as int <= n);
        start = start + 32 + 8 * (qty_count as usize);
        i = i + 1;
    }
}

/// A stock snapshot body: 69 header bytes, then the entries its header counts.
pub open spec fn stock_snapshot_fits(b: Seq<u8>) -> bool {
    b.len() >= 69 && entries_fit(b, 69, u32_at(b, 65) as nat)
}

/// Whether `buf` holds a complete stock snapshot body.
pub fn check_stock_snapshot(buf: &[u8]) -> (r: bool)
    ensures
        r == stock_snapshot_fits(buf@),
{
    let n = buf.len();
    if n < 69 {
        return false;
    }
    let count = get_u32(buf, 65);
    let mut start: usize = 69;
    let mut i: u32 = 0;
    while i < count
        invariant
            i <= count,
            n == buf@.len(),
            count == u32_at(buf@, 65),
            69 <= start <= n,
            entries_fit(buf@, 69, count as nat) == entries_fit(buf@, start as int, (count - i) as nat),
        decreases count - i,
    {
        if start > n - 32 {
            assert(!entries_fit(buf@, start as int, (count - i) as nat));
            return false;
        }
        let qty_count = get_u32(buf, start + 28);
        let room: usize = n - start - 32;
        if qty_count as usize > room / 8 {
            assert(8 * qty_count as int > room);
            proof {
                if entries_fit(buf@, start as int, (count - i) as nat) {
                    lemma_fit_start_le(buf@, entry_next(buf@, start as int), (count - i - 1) as nat);
                }
            }
            return false;
        }
        start = start + 32 + 8 * (qty_count as usize);
        i = i + 1;
    }
    true
}

/// A stock report (announcement): time, channel, news id, headline, raw document.
pub struct StockReport {
    pub _time: i64,
    pub _channel_no: u16,
    pub _news_id: Vec<u8>,
    pub _head_line: String,
    pub _raw_data_format: Vec<u8>,
    pub _raw_data_length: u32,
    pub _raw_data: Vec<u8>,
}

impl StockReport {
    /// Decodes a stock report body; a headline that is not UTF-8 is left empty.
    pub fn parse(buf: &[u8]) -> (r: StockReport)
        requires
            stock_report_fits(buf@),
        ensures
            r._time == i64_at(buf@, 0),
            r._channel_no == u16_at(buf@, 8),
            r._news_id@ == buf@.subrange(10, 18),
            valid_utf8(buf@.subrange(18, 146)) ==> r._head_line@ == decode_utf8(buf@.subrange(18, 146)),
            !valid_utf8(buf@.subrange(18, 146)) ==> r._head_line@ == Seq::<char>::empty(),
            r._raw_data_format@ == buf@.subrange(146, 154),
            r._raw_data_length == u32_at(buf@, 154),
            r._raw_data@ == (if r._raw_data_length > 0 { buf@.subrange(158, buf@.len() as int) } else { Seq::<u8>::empty() }),
    {
        let n = buf.len();
        let head_line = match str_from_utf8(&buf[18..146]) {
            Some(s) => s,
            None => String::new(),
        };
        let raw_len = get_u32(buf, 154);
        let raw = if raw_len > 0 { copy_bytes(&buf[158..n]) } else { Vec::new() };
        StockReport {
            _time: get_i64(buf, 0),
            _channel_no: get_u16(buf, 8),
            _news_id: copy_bytes(&buf[10..18]),
            _head_line: head_line,
            _raw_data_format: copy_bytes(&buf[146..154]),
            _raw_data_length: raw_len,
            _raw_data: raw,
        }
    }
}

/// The record of a user report: time, version code, number of users.
pub struct ReportMsg {
    pub _time: i64,
    pub _version_code: [u8; 16],
    pub _user_num: u16,
}

/// Writes the common snapshot header fields into a record.
fn fill_snapshot_header(stock: &mut StockRecord, buf: &[u8], security_id: &String)
    requires
        buf@.len() >= 69,
        security_id@ == snapshot_code(buf@),
        stock_wf(old(stock)@),
    ensures
        final(stock)@ == snapshot_header(old(stock)@, buf@),
        stock_wf(final(stock)@),
{
    let orig_time = get_i64(buf, 0);
    stock._date = (orig_time / 1000000000) as u32;
    stock._time = ((orig_time / 1000) % 1000000) as u32;
    stock._stock_code = security_id.clone();
    stock._trade_status = trading_phase_to_u32(&buf[25..33]);
    stock._line_no = get_line_number(stock._time);
    stock._pre_close_px = (get_i64(buf, 33) / 10) as u32;
}

/// Whether `buf` holds a complete index snapshot body.
pub fn check_index_snapshot(buf: &[u8]) -> (r: bool)
    ensures
        r == index_snapshot_fits(buf@),
{
    let n = buf.len();
    if n < 69 {
        return false;
    }
    let count = get_u32(buf, 65) as u64;
    (n - 69) as u64 / 10 >= count
}

/// Whether `buf` holds a complete realtime status body.
pub fn check_realtime_status(buf: &[u8]) -> (r: bool)
    ensures
        r == realtime_status_fits(buf@),
{
    let n = buf.len();
    if n < 34 {
        return false;
    }
    let count = get_u32(buf, 30) as u64;
    (n - 34) as u64 / 4 >= count
}

/// Whether `buf` holds a complete stock report body.
pub fn check_stock_report(buf: &[u8]) -> (r: bool)
    ensures
        r == stock_report_fits(buf@),
{
    let n = buf.len();
    if n < 158 {
        return false;
    }
    let raw = get_u32(buf, 154);
    raw == 0 || (n - 158) as u64 == raw as u64
}

/// Whether `buf` holds the body layout that messages of type `msg_type` need.
pub fn check_message(msg_type: u32, buf: &[u8]) -> (r: bool)
    ensures
        r == message_fits(msg_type, buf@),
{
    if msg_type == 390013 {
        check_realtime_status(buf)
    } else if msg_type == 390012 {
        check_stock_report(buf)
    } else if msg_type == 300111 {
        check_stock_snapshot(buf)
    } else if msg_type == 309011 {
        check_index_snapshot(buf)
    } else if msg_type == 309111 {
        buf.len() >= 69
    } else {
        true
    }
}

/// Common header of a snapshot message.
pub struct Snapshot {
    pub _orig_time: i64,
    pub _channel_no: u16,
    pub _md_stream_id: [u8; 3],
    pub _security_id: [u8; 8],
    pub _security_id_source: [u8; 4],
    pub _trading_phase_code: [u8; 8],
    pub _prev_close_px: i64,
    pub _num_trades: i64,
    pub _total_vol_trade: i64,
    pub _total_value_trade: i64,
}

impl Snapshot {
    /// Decodes the 65-byte snapshot header (numbers big-endian).
    pub fn parse(buf: &[u8]) -> (s: Snapshot)
        requires
            buf@.len() >= 65,
        ensures
            s._orig_time == i64_at(buf@, 0),
            s._channel_no == u16_at(buf@, 8),
            s._md_stream_id@ == buf@.subrange(10, 13),
            s._security_id@ == buf@.subrange(13, 21),
            s._security_id_source@ == buf@.subrange(21, 25),
            s._trading_phase_code@ == buf@.subrange(25, 33),
            s._prev_close_px == i64_at(buf@, 33),
            s._num_trades == i64_at(buf@, 41),
            s._total_vol_trade == i64_at(buf@, 49),
            s._total_value_trade == i64_at(buf@, 57),
    {
        let s = Snapshot {
            _orig_time: get_i64(buf, 0),
            _channel_no: get_u16(buf, 8),
            _md_stream_id: [buf[10], buf[11], buf[12]],
            _security_id: [buf[13], buf[14], buf[15], buf[16], buf[17], buf[18], buf[19], buf[20]],
            _security_id_source: [buf[21], buf[22], buf[23], buf[24]],
            _trading_phase_code: [buf[25], buf[26], buf[27], buf[28], buf[29], buf[30], buf[31], buf[32]],
            _prev_close_px: get_i64(buf, 33),
            _num_trades: get_i64(buf, 41),
            _total_vol_trade: get_i64(buf, 49),
            _total_value_trade: get_i64(buf, 57),
        };
        assert(s._md_stream_id@ =~= buf@.subrange(10, 13));
        assert(s._security_id@ =~= buf@.subrange(13, 21));
        assert(s._security_id_source@ =~= buf@.subrange(21, 25));
        assert(s._trading_phase_code@ =~= buf@.subrange(25, 33));
        s
    }
}

/// A stock snapshot body is read back under its code: afterwards the stock table holds, under
/// the snapshot's code, a record carrying that code, the snapshot's date and time, and a
/// security type of bond, fund or stock; the other codes keep their records.
pub proof fn snapshot_is_stored_under_its_code(c: ContextModel, b: Seq<u8>, other: Seq<char>)
    requires
        context_wf(c),
        stock_snapshot_fits(b),
    ensures
        ({
            let after = apply_stock_snapshot(c, b);
            let code = snapshot_code(b);
            &&& context_wf(after)
            &&& lookup(after.stocks, code) matches Some(s) && s.stock_code == code
                && s.date == stamp_date(i64_at(b, 0) as int) && s.time == stamp_time(i64_at(b, 0) as int)
                && (s.stock_type == 1 || s.stock_type == 3 || s.stock_type == 4)
            &&& other != code ==> lookup(after.stocks, other) == lookup(c.stocks, other)
            &&& after.statics == c.statics
        }),
{
    let code = snapshot_code(b);
    let s0 = lookup_or_default(c.stocks, code);
    lemma_lookup_wf(c.stocks, code);
    let s1 = stock_snapshot_record(s0, b);
    lemma_apply_entries_keeps(s1, b, 69, u32_at(b, 65) as nat);
    let s2 = apply_entries(s1, b, 69, u32_at(b, 65) as nat);
    let bytes = encode_utf8(code);
    let s3 = if dept_code(bytes) {
        StockModel { stock_type: 4, ..s2 }
    } else if fund_code(bytes) {
        StockModel { stock_type: 3, ..s2 }
    } else {
        StockModel { stock_type: 1, ..s2 }
    };
    upsert_then_lookup(c.stocks, code, s3, other);
}

/// An ask entry (type `1`) at level L in 1..=5 sets level L of the ask ladder to the price in
/// thousandths and the volume in lots (both rounded half up for non-negative values) and leaves
/// the other ask levels, the whole bid ladder and every other figure as they were; a bid entry
/// (type `0`) does the same on the bid ladder. At any other level neither entry changes anything.
pub proof fn entries_fill_their_own_ladder(s: StockModel, t1: u8, px: i64, size: i64, level: u16)
    requires
        stock_wf(s),
    ensures
        ({
            let a = entry_effect(s, 0x31, t1, px, size, level);
            let b = entry_effect(s, 0x30, t1, px, size, level);
            &&& stock_wf(a) && stock_wf(b)
            &&& 1 <= level <= 5 ==> {
                &&& a.sale_pxs[level - 1] == rounded_div(px as int, 1000)
                &&& a.sale_amounts[level - 1] == rounded_div(size as int, 100)
                &&& forall|j: int| 0 <= j < 5 && j != level - 1 ==> a.sale_pxs[j] == s.sale_pxs[j]
                    && a.sale_amounts[j] == s.sale_amounts[j]
                &&& a.buy_pxs == s.buy_pxs && a.buy_amounts == s.buy_amounts
                &&& a == StockModel { sale_pxs: a.sale_pxs, sale_amounts: a.sale_amounts, ..s }
                &&& b.buy_pxs[level - 1] == rounded_div(px as int, 1000)
                &&& b.buy_amounts[level - 1] == rounded_div(size as int, 100)
                &&& forall|j: int| 0 <= j < 5 && j != level - 1 ==> b.buy_pxs[j] == s.buy_pxs[j]
                    && b.buy_amounts[j] == s.buy_amounts[j]
                &&& b.sale_pxs == s.sale_pxs && b.sale_amounts == s.sale_amounts
                &&& b == StockModel { buy_pxs: b.buy_pxs, buy_amounts: b.buy_amounts, ..s }
            }
            &&& !(1 <= level <= 5) ==> a == s && b == s
        }),
{
}

/// An index without volume statistics (no statistics code, or none recorded for it) is stored
/// with the snapshot's own traded volume in lots of 100 (truncated), as a stock snapshot is,
/// and its traded value in tenths; it is typed as index.
pub proof fn index_without_statistics_keeps_its_volume(c: ContextModel, b: Seq<u8>)
    requires
        context_wf(c),
        index_snapshot_fits(b),
        match translated_code(snapshot_code(b)) {
            Some(k) => lookup(c.statics, k) is None,
            None => true,
        },
    ensures
        ({
            let after = apply_index_snapshot(c, b);
            lookup(after.stocks, snapshot_code(b)) matches Some(s)
                && s.trade_amount == tdiv(i64_at(b, 49) as int, 100)
                && s.trade_balance == tdiv(i64_at(b, 57) as int, 10)
                && s.stock_type == 2
        }),
{
    let code = snapshot_code(b);
    lemma_lookup_wf(c.stocks, code);
    let s0 = index_snapshot_record(lookup_or_default(c.stocks, code), b, c.statics);
    lemma_index_entries_keep_volume(s0, b, 69, u32_at(b, 65) as nat);
    let s1 = apply_index_entries(s0, b, 69, u32_at(b, 65) as nat);
    let s2 = StockModel { stock_type: 2, ..s1 };
    upsert_then_lookup(c.stocks, code, s2, code);
}

/// A snapshot types a bond code 4 and a fund code 3 (as the pre-open push reads the types), and
/// the quote row a snapshot pushes uses the same function as the pre-open push of the stored
/// record: 2205 for a fund, 2202 for a bond or a stock.
pub proof fn snapshot_type_matches_pre_open_push(c: ContextModel, b: Seq<u8>, t2: T2State)
    requires
        context_wf(c),
        stock_snapshot_fits(b),
    ensures
        ({
            let after = apply_stock_snapshot(c, b);
            let code = snapshot_code(b);
            let bytes = encode_utf8(code);
            lookup(after.stocks, code) matches Some(s)
                && (s.stock_type == 4 <==> dept_code(bytes))
                && (s.stock_type == 3 <==> !dept_code(bytes) && fund_code(bytes))
                && init_push_one(t2, s) == push_step(t2, s, if s.stock_type == 3 { 2205i32 } else { 2202i32 })
                && after.t2 == (if s.time >= 91500 {
                    push_step(datetime_step(c.t2, i64_at(b, 0)), s, if s.stock_type == 3 { 2205i32 } else { 2202i32 })
                } else {
                    datetime_step(c.t2, i64_at(b, 0))
                })
        }),
{
    let code = snapshot_code(b);
    snapshot_is_stored_under_its_code(c, b, code);
    let s0 = lookup_or_default(c.stocks, code);
    lemma_lookup_wf(c.stocks, code);
    let s1 = stock_snapshot_record(s0, b);
    lemma_apply_entries_keeps(s1, b, 69, u32_at(b, 65) as nat);
    let s2 = apply_entries(s1, b, 69, u32_at(b, 65) as nat);
    let bytes = encode_utf8(code);
    let s3 = if dept_code(bytes) {
        StockModel { stock_type: 4, ..s2 }
    } else if fund_code(bytes) {
        StockModel { stock_type: 3, ..s2 }
    } else {
        StockModel { stock_type: 1, ..s2 }
    };
    upsert_then_lookup(c.stocks, code, s3, code);
}

/// A stock snapshot stores under its code the snapshot's date, time, trading status (from the
/// trading-phase code), minute slot of the time, traded volume in lots of 100 and traded value
/// in tenths (both truncated); when the tradable shares are known and the volume is positive
/// the turnover ratio is refreshed from the two, otherwise it is kept.
#[verifier::spinoff_prover]
pub proof fn stock_snapshot_figures(c: ContextModel, b: Seq<u8>)
    requires
        context_wf(c),
        stock_snapshot_fits(b),
    ensures
        ({
            let code = snapshot_code(b);
            let before = lookup_or_default(c.stocks, code);
            let t = i64_at(b, 0) as int;
            let amount = tdiv(i64_at(b, 49) as int, 100);
            lookup(apply_stock_snapshot(c, b).stocks, code) matches Some(s)
                && s.date == stamp_date(t)
                && s.time == stamp_time(t)
                && s.trade_status == phase_status(b.subrange(25, 33))
                && s.line_no == line_number(stamp_time(t) as int)
                && s.trade_amount == amount
                && s.trade_balance == tdiv(i64_at(b, 57) as int, 10)
                && s.change_rate == (if before.nonstrict_shares > 0 && amount > 0 {
                    turnover(amount as i64, before.nonstrict_shares)
                } else {
                    before.change_rate
                })
        }),
{
    let code = snapshot_code(b);
    let s0 = lookup_or_default(c.stocks, code);
    lemma_lookup_wf(c.stocks, code);
    let t = i64_at(b, 0) as int;
    let amount = tdiv(i64_at(b, 49) as int, 100);
    assert(-0x8000_0000_0000_0000 <= amount <= 0x7fff_ffff_ffff_ffff);
    let h = snapshot_header(s0, b);
    assert(h.nonstrict_shares == s0.nonstrict_shares && h.change_rate == s0.change_rate);
    assert(h.line_no == line_number(stamp_time(t) as int));
    let s1 = stock_snapshot_record(s0, b);
    assert(s1.trade_amount == amount);
    assert(s1.change_rate == (if s0.nonstrict_shares > 0 && amount > 0 {
        turnover(amount as i64, s0.nonstrict_shares)
    } else {
        s0.change_rate
    }));
    lemma_apply_entries_keeps(s1, b, 69, u32_at(b, 65) as nat);
    let s2 = apply_entries(s1, b, 69, u32_at(b, 65) as nat);
    let bytes = encode_utf8(code);
    let s3 = if dept_code(bytes) {
        StockModel { stock_type: 4, ..s2 }
    } else if fund_code(bytes) {
        StockModel { stock_type: 3, ..s2 }
    } else {
        StockModel { stock_type: 1, ..s2 }
    };
    upsert_then_lookup(c.stocks, code, s3, code);
    assert(apply_stock_snapshot(c, b).stocks == upsert(c.stocks, code, s3));
}

/// Volume statistics are stored in the statistics table under their code: date, time, traded
/// volume in hundreds of lots (truncated) and traded value in tenths; the stock table is
/// untouched.
pub proof fn volume_statistic_figures(c: ContextModel, b: Seq<u8>)
    requires
        context_wf(c),
        b.len() >= 69,
    ensures
        ({
            let after = apply_volume_statistic(c, b);
            let t = i64_at(b, 0) as int;
            &&& context_wf(after)
            &&& after.stocks == c.stocks
            &&& lookup(after.statics, snapshot_code(b)) matches Some(s)
                && s.stock_code == snapshot_code(b)
                && s.date == stamp_date(t)
                && s.time == stamp_time(t)
                && s.trade_amount == tdiv(i64_at(b, 49) as int, 10000)
                && s.trade_balance == tdiv(i64_at(b, 57) as int, 10)
        }),
{
    let k = snapshot_code(b);
    lemma_lookup_wf(c.statics, k);
    let st = StockModel {
        trade_amount: tdiv(i64_at(b, 49) as int, 10000) as i64,
        trade_balance: tdiv(i64_at(b, 57) as int, 10) as i64,
        ..snapshot_header(lookup_or_default(c.statics, k), b)
    };
    upsert_then_lookup(c.statics, k, st, k);
}

/// Some switch among those from `i` to `count` has type `ty` and status 1 (on).
pub open spec fn has_switch_on(b: Seq<u8>, i: nat, count: nat, ty: u16) -> bool {
    exists|j: int| i <= j < count && #[trigger] u16_at(b, 34 + 4 * j) == ty && u16_at(b, 36 + 4 * j) == 1
}

/// The switches turn bit 0 of the margin status on when one of them is margin trading (type 1)
/// switched on, and bit 1 when one is short selling (type 2) switched on; no bit is cleared and
/// nothing else changes.
proof fn lemma_switches(s: StockModel, b: Seq<u8>, i: nat, count: nat)
    ensures
        apply_switches(s, b, i, count) == (StockModel {
            margin_status: s.margin_status | (if has_switch_on(b, i, count, 1) { 1u32 } else { 0u32 })
                | (if has_switch_on(b, i, count, 2) { 2u32 } else { 0u32 }),
            ..s
        }),
    decreases count - i,
{
    let x = s.margin_status;
    if i >= count {
        assert((x | 0u32) | 0u32 == x) by (bit_vector);
    } else {
        let ty = u16_at(b, 34 + 4 * i as int);
        let st = u16_at(b, 36 + 4 * i as int);
        let s1 = if ty == 1 && st == 1 {
            StockModel { margin_status: s.margin_status | 1u32, ..s }
        } else if ty == 2 && st == 1 {
            StockModel { margin_status: s.margin_status | 2u32, ..s }
        } else {
            s
        };
        lemma_switches(s1, b, i + 1, count);
        let h1 = has_switch_on(b, i + 1, count, 1);
        let h2 = has_switch_on(b, i + 1, count, 2);
        let a: u32 = if h1 { 1u32 } else { 0u32 };
        let c: u32 = if h2 { 2u32 } else { 0u32 };
        if h1 {
            let j = choose|j: int| i + 1 <= j < count && #[trigger] u16_at(b, 34 + 4 * j) == 1u16 && u16_at(b, 36 + 4 * j) == 1;
            assert(has_switch_on(b, i, count, 1));
        }
        if h2 {
            let j = choose|j: int| i + 1 <= j < count && #[trigger] u16_at(b, 34 + 4 * j) == 2u16 && u16_at(b, 36 + 4 * j) == 1;
            assert(has_switch_on(b, i, count, 2));
        }
        if ty == 1 && st == 1 {
            assert(u16_at(b, 34 + 4 * (i as int)) == 1u16);
            assert(has_switch_on(b, i, count, 1));
            assert(has_switch_on(b, i, count, 2) == h2);
            assert(((x | 1u32) | a) | c == (x | 1u32) | c) by (bit_vector)
                requires
                    a == 0 || a == 1,
            ;
        } else if ty == 2 && st == 1 {
            assert(u16_at(b, 34 + 4 * (i as int)) == 2u16);
            assert(has_switch_on(b, i, count, 2));
            assert(has_switch_on(b, i, count, 1) == h1);
            assert(((x | 2u32) | a) | c == (x | a) | 2u32) by (bit_vector)
                requires
                    c == 0 || c == 2,
            ;
        } else {
            assert(has_switch_on(b, i, count, 1) == h1);
            assert(has_switch_on(b, i, count, 2) == h2);
        }
    }
}

/// A realtime status message updates only the margin status of the record under its code
/// (created empty if absent): bit 0 (margin trading) is turned on when the message has a
/// margin-trading switch (type 1) on, bit 1 (short selling) when it has a short-selling switch
/// (type 2) on; no bit is cleared, and every other figure and every other code is kept.
pub proof fn realtime_status_sets_margin_bits(c: ContextModel, b: Seq<u8>, other: Seq<char>)
    requires
        context_wf(c),
        realtime_status_fits(b),
    ensures
        ({
            let after = apply_realtime_status(c, b);
            let code = realtime_code(b);
            let before = lookup_or_default(c.stocks, code);
            let n = u32_at(b, 30) as nat;
            &&& context_wf(after)
            &&& lookup(after.stocks, code) matches Some(r)
                && r.margin_status == before.margin_status | (if has_switch_on(b, 0, n, 1) { 1u32 } else { 0u32 })
                    | (if has_switch_on(b, 0, n, 2) { 2u32 } else { 0u32 })
                && r == StockModel { margin_status: r.margin_status, ..before }
            &&& other != code ==> lookup(after.stocks, other) == lookup(c.stocks, other)
            &&& after.statics == c.statics
        }),
{
    let code = realtime_code(b);
    let before = lookup_or_default(c.stocks, code);
    lemma_lookup_wf(c.stocks, code);
    let n = u32_at(b, 30) as nat;
    lemma_switches(before, b, 0, n);
    upsert_then_lookup(c.stocks, code, apply_switches(before, b, 0, n), other);
}

/// Index entries touch neither the traded volume, the traded value nor the shape of a record.
proof fn lemma_index_entries_keep_volume(s: StockModel, b: Seq<u8>, start: int, count: nat)
    requires
        stock_wf(s),
    ensures
        stock_wf(apply_index_entries(s, b, start, count)),
        apply_index_entries(s, b, start, count).trade_amount == s.trade_amount,
        apply_index_entries(s, b, start, count).trade_balance == s.trade_balance,
    decreases count,
{
    if count > 0 {
        let s1 = entry_effect(s, b[start], b[start + 1], i64_at(b, start + 2), 0, 0);
        lemma_index_entries_keep_volume(s1, b, start + 10, (count - 1) as nat);
    }
}

/// An index is published with the volume of its statistics code: after the volume statistics
/// of the code that `translated_code` gives for an index, a snapshot of that index stores under
/// the index code a record with the statistics' traded volume (in hundreds of lots) and
/// traded value, whatever the index snapshot itself reports.
pub proof fn index_takes_volume_from_statistics(c: ContextModel, v: Seq<u8>, b: Seq<u8>)
    requires
        context_wf(c),
        v.len() >= 69,
        index_snapshot_fits(b),
        translated_code(snapshot_code(b)) == Some(snapshot_code(v)),
    ensures
        ({
            let after = apply_index_snapshot(apply_volume_statistic(c, v), b);
            &&& context_wf(after)
            &&& lookup(after.stocks, snapshot_code(b)) matches Some(s)
                && s.trade_amount == tdiv(i64_at(v, 49) as int, 10000)
                && s.trade_balance == tdiv(i64_at(v, 57) as int, 10)
                && s.stock_type == 2
        }),
{
    let k = snapshot_code(v);
    lemma_lookup_wf(c.statics, k);
    let st = StockModel {
        trade_amount: tdiv(i64_at(v, 49) as int, 10000) as i64,
        trade_balance: tdiv(i64_at(v, 57) as int, 10) as i64,
        ..snapshot_header(lookup_or_default(c.statics, k), v)
    };
    upsert_then_lookup(c.statics, k, st, k);
    let c1 = apply_volume_statistic(c, v);
    assert(lookup(c1.statics, k) == Some(st));
    let code = snapshot_code(b);
    lemma_lookup_wf(c1.stocks, code);
    let s0 = index_snapshot_record(lookup_or_default(c1.stocks, code), b, c1.statics);
    assert(s0.trade_amount == st.trade_amount);
    assert(s0.trade_balance == st.trade_balance);
    lemma_index_entries_keep_volume(s0, b, 69, u32_at(b, 65) as nat);
    let s1 = apply_index_entries(s0, b, 69, u32_at(b, 65) as nat);
    let s2 = StockModel { stock_type: 2, ..s1 };
    upsert_then_lookup(c1.stocks, code, s2, code);
}

/// A record read from a well-formed table (or the empty record) is well formed.
pub proof fn lemma_lookup_wf(t: TableModel, k: Seq<char>)
    requires
        table_wf(t),
    ensures
        stock_wf(lookup_or_default(t, k)),
{
    if t.keys.contains(k) {
        let i = crate::table::key_index(t, k);
        assert(stock_wf(t.records[i]));
    }
}

/// Quote entries touch neither the code, the date, the time nor the shape of a record.
pub proof fn lemma_apply_entries_keeps(s: StockModel, b: Seq<u8>, start: int, count: nat)
    requires
        stock_wf(s),
    ensures
        stock_wf(apply_entries(s, b, start, count)),
        apply_entries(s, b, start, count).stock_code == s.stock_code,
        apply_entries(s, b, start, count).date == s.date,
        apply_entries(s, b, start, count).time == s.time,
        apply_entries(s, b, start, count).trade_amount == s.trade_amount,
        apply_entries(s, b, start, count).trade_balance == s.trade_balance,
        apply_entries(s, b, start, count).trade_status == s.trade_status,
        apply_entries(s, b, start, count).line_no == s.line_no,
        apply_entries(s, b, start, count).change_rate == s.change_rate,
        apply_entries(s, b, start, count).nonstrict_shares == s.nonstrict_shares,
    decreases count,
{
    if count > 0 {
        lemma_apply_entries_keeps(entry_effect_at(s, b, start), b, entry_next(b, start), (count - 1) as nat);
    }
}

/// Mathematical form of the feed context: the stock table, the volume statistics table,
/// the quote-bus connection, and the last date and time seen by the pre-open preparation.
pub struct ContextModel {
    pub stocks: TableModel,
    pub statics: TableModel,
    pub t2: T2State,
    pub today: u32,
    pub now: u32,
}

/// Both tables are well formed.
pub open spec fn context_wf(c: ContextModel) -> bool {
    table_wf(c.stocks) && table_wf(c.statics)
}

/// Security code of a snapshot: its first six identifier bytes, decoded as UTF-8.
pub open spec fn snapshot_code(b: Seq<u8>) -> Seq<char> {
    utf8_lossy(b.subrange(13, 19))
}

/// Common snapshot header fields applied to a record: date, time, code, trading status,
/// minute slot and previous close (prices in thousandths).
pub open spec fn snapshot_header(s: StockModel, b: Seq<u8>) -> StockModel {
    let t = i64_at(b, 0);
    StockModel {
        date: stamp_date(t as int),
        time: stamp_time(t as int),
        stock_code: snapshot_code(b),
        trade_status: phase_status(b.subrange(25, 33)),
        line_no: line_number(stamp_time(t as int) as int) as u32,
        pre_close_px: tdiv(i64_at(b, 33) as int, 10) as u32,
        ..s
    }
}

/// Turnover ratio, in hundredths of a percent rounded half up, of a traded volume (in lots)
/// against the tradable shares.
pub open spec fn turnover(amount: i64, shares: i64) -> u32 {
    (tdiv((tdiv(amount.wrapping_mul(100000) as int, shares as int) as i64).wrapping_add(5) as int, 10)) as u32
}

/// The record of a stock snapshot, before its entries: header fields, traded volume in lots
/// (and turnover ratio when the tradable shares are known) and traded value.
pub open spec fn stock_snapshot_record(s: StockModel, b: Seq<u8>) -> StockModel {
    let s1 = StockModel {
        trade_amount: tdiv(i64_at(b, 49) as int, 100) as i64,
        ..snapshot_header(s, b)
    };
    let s2 = if s1.nonstrict_shares > 0 && s1.trade_amount > 0 {
        StockModel { change_rate: turnover(s1.trade_amount, s1.nonstrict_shares), ..s1 }
    } else {
        s1
    };
    StockModel { trade_balance: tdiv(i64_at(b, 57) as int, 10) as i64, ..s2 }
}

/// Effect of a stock snapshot: the time is announced, the record under the snapshot's code is
/// updated with the header and the entries and classified (bond 4, fund 3, stock 1), and from
/// 09:15:00 on its quote row is pushed (2202 for bonds and stocks, 2205 for funds).
pub open spec fn apply_stock_snapshot(c: ContextModel, b: Seq<u8>) -> ContextModel {
    let t2 = datetime_step(c.t2, i64_at(b, 0));
    let code = snapshot_code(b);
    let s1 = apply_entries(
        stock_snapshot_record(lookup_or_default(c.stocks, code), b),
        b,
        69,
        u32_at(b, 65) as nat,
    );
    let bytes = encode_utf8(code);
    let (s2, func) = if dept_code(bytes) {
        (StockModel { stock_type: 4, ..s1 }, 2202i32)
    } else if fund_code(bytes) {
        (StockModel { stock_type: 3, ..s1 }, 2205i32)
    } else {
        (StockModel { stock_type: 1, ..s1 }, 2202i32)
    };
    ContextModel {
        stocks: upsert(c.stocks, code, s2),
        t2: if s2.time >= 91500 { push_step(t2, s2, func) } else { t2 },
        ..c
    }
}

/// `count` index entries of ten bytes each, starting at offset 69, lie within `b`.
pub open spec fn index_snapshot_fits(b: Seq<u8>) -> bool {
    b.len() >= 69 && 69 + 10 * (u32_at(b, 65) as int) <= b.len()
}

/// Effect of `count` index entries (type and price) starting at `start`, in order.
pub open spec fn apply_index_entries(s: StockModel, b: Seq<u8>, start: int, count: nat) -> StockModel
    decreases count,
{
    if count == 0 {
        s
    } else {
        apply_index_entries(
            entry_effect(s, b[start], b[start + 1], i64_at(b, start + 2), 0, 0),
            b,
            start + 10,
            (count - 1) as nat,
        )
    }
}

/// The record of an index snapshot, before its entries: header fields, traded volume in lots
/// and traded value, both replaced by the volume statistics of the index when there are some.
pub open spec fn index_snapshot_record(s: StockModel, b: Seq<u8>, statics: TableModel) -> StockModel {
    let s1 = StockModel {
        trade_amount: tdiv(i64_at(b, 49) as int, 100) as i64,
        trade_balance: tdiv(i64_at(b, 57) as int, 10) as i64,
        ..snapshot_header(s, b)
    };
    match translated_code(snapshot_code(b)) {
        Some(k) => match lookup(statics, k) {
            Some(v) => StockModel { trade_amount: v.trade_amount, trade_balance: v.trade_balance, ..s1 },
            None => s1,
        },
        None => s1,
    }
}

/// Effect of an index snapshot: the time is announced, the record under the index code is
/// updated and typed as index (2), and from 09:15:00 on its quote row is pushed (2203).
pub open spec fn apply_index_snapshot(c: ContextModel, b: Seq<u8>) -> ContextModel {
    let t2 = datetime_step(c.t2, i64_at(b, 0));
    let code = snapshot_code(b);
    let s1 = apply_index_entries(
        index_snapshot_record(lookup_or_default(c.stocks, code), b, c.statics),
        b,
        69,
        u32_at(b, 65) as nat,
    );
    let s2 = StockModel { stock_type: 2, ..s1 };
    ContextModel {
        stocks: upsert(c.stocks, code, s2),
        t2: if s2.time >= 91500 { push_step(t2, s2, 2203) } else { t2 },
        ..c
    }
}

/// Effect of a volume statistics message: the time is announced and the statistics record of
/// the code gets the header fields, the volume in hundreds of lots and the traded value.
pub open spec fn apply_volume_statistic(c: ContextModel, b: Seq<u8>) -> ContextModel {
    let code = snapshot_code(b);
    let s1 = StockModel {
        trade_amount: tdiv(i64_at(b, 49) as int, 10000) as i64,
        trade_balance: tdiv(i64_at(b, 57) as int, 10) as i64,
        ..snapshot_header(lookup_or_default(c.statics, code), b)
    };
    ContextModel {
        statics: upsert(c.statics, code, s1),
        t2: datetime_step(c.t2, i64_at(b, 0)),
        ..c
    }
}

/// A realtime status body: 34 header bytes, then four bytes per switch.
pub open spec fn realtime_status_fits(b: Seq<u8>) -> bool {
    b.len() >= 34 && 34 + 4 * (u32_at(b, 30) as int) <= b.len()
}

/// Effect of the switches `start..count` on the margin status: switch type 1 (margin trading)
/// and type 2 (short selling) set bits 0 and 1 when their status is 1.
pub open spec fn apply_switches(s: StockModel, b: Seq<u8>, i: nat, count: nat) -> StockModel
    decreases count - i,
{
    if i >= count {
        s
    } else {
        let ty = u16_at(b, 34 + 4 * i as int);
        let st = u16_at(b, 36 + 4 * i as int);
        let s1 = if ty == 1 && st == 1 {
            StockModel { margin_status: s.margin_status | 1u32, ..s }
        } else if ty == 2 && st == 1 {
            StockModel { margin_status: s.margin_status | 2u32, ..s }
        } else {
            s
        };
        apply_switches(s1, b, i + 1, count)
    }
}

/// Security code of a realtime status message.
pub open spec fn realtime_code(b: Seq<u8>) -> Seq<char> {
    utf8_lossy(b.subrange(10, 16))
}

/// Effect of a realtime status message: the switches update the margin status of the record
/// under its code (created empty if absent), then the time is announced.
pub open spec fn apply_realtime_status(c: ContextModel, b: Seq<u8>) -> ContextModel {
    let code = realtime_code(b);
    ContextModel {
        stocks: upsert(c.stocks, code, apply_switches(lookup_or_default(c.stocks, code), b, 0, u32_at(b, 30) as nat)),
        t2: datetime_step(c.t2, i64_at(b, 0)),
        ..c
    }
}

/// A stock report body: 158 header bytes; a non-empty raw document fills the rest exactly.
pub open spec fn stock_report_fits(b: Seq<u8>) -> bool {
    b.len() >= 158 && (u32_at(b, 154) > 0 ==> b.len() - 158 == u32_at(b, 154))
}

/// Announcing the time of a message that carries nothing else the feed keeps.
pub open spec fn apply_time_only(c: ContextModel, dt: i64) -> ContextModel {
    ContextModel { t2: datetime_step(c.t2, dt), ..c }
}

/// Body layout each dispatched message needs; other types read nothing.
pub open spec fn message_fits(msg_type: u32, b: Seq<u8>) -> bool {
    if msg_type == 390013 {
        realtime_status_fits(b)
    } else if msg_type == 390012 {
        stock_report_fits(b)
    } else if msg_type == 300111 {
        stock_snapshot_fits(b)
    } else if msg_type == 309011 {
        index_snapshot_fits(b)
    } else if msg_type == 309111 {
        b.len() >= 69
    } else {
        true
    }
}

/// The message types the feed acts on.
pub open spec fn dispatched(msg_type: u32) -> bool {
    msg_type == 390093 || msg_type == 390013 || msg_type == 390012 || msg_type == 300111
        || msg_type == 309011 || msg_type == 309111
}

/// A message of any other type (heartbeats, channel heartbeats, resend and channel statistics,
/// market status, Hong Kong snapshots, unknown types) leaves the context as it was.
pub proof fn other_messages_change_nothing(c: ContextModel, msg_type: u32, b: Seq<u8>)
    requires
        !dispatched(msg_type),
    ensures
        message_fits(msg_type, b),
        apply_message(c, msg_type, b) == c,
{
}

/// Effect of a message on the context, by message type: user report (390093), realtime
/// status (390013), stock report (390012), stock snapshot (300111), index snapshot (309011),
/// volume statistics (309111); heartbeats (3) and every other type change nothing.
pub open spec fn apply_message(c: ContextModel, msg_type: u32, b: Seq<u8>) -> ContextModel {
    if msg_type == 390093 {
        apply_time_only(c, 0)
    } else if msg_type == 390013 {
        apply_realtime_status(c, b)
    } else if msg_type == 390012 {
        apply_time_only(c, i64_at(b, 0))
    } else if msg_type == 300111 {
        apply_stock_snapshot(c, b)
    } else if msg_type == 309011 {
        apply_index_snapshot(c, b)
    } else if msg_type == 309111 {
        apply_volume_statistic(c, b)
    } else {
        c
    }
}

/// Which of the pre-open steps are due when the clock moves from (`today`, `now`) to
/// (`date`, `time`) on the same day: the static data sync when 08:50:00 is passed, the initial
/// push of all records when 09:00:00 is reached.
pub struct MarketInitPlan {
    pub _sync_static: bool,
    pub _push_all: bool,
}

/// Whether the `hhmm` time lies in the window of the pre-open preparation, 08:40..=09:05.
pub fn in_pre_open_window(time: u32) -> (r: bool)
    ensures
        r == (840 <= time && time <= 905),
{
    time >= 840 && time <= 905
}

/// The static data sync is due when the clock, on the day last seen, passes 08:50:00.
pub open spec fn sync_due(today: u32, now: u32, date: u32, time: u32) -> bool {
    today == date && now <= 85000 && time > 85000
}

/// The push of all records is due when the clock, on the day last seen, reaches 09:00:00.
pub open spec fn push_due(today: u32, now: u32, date: u32, time: u32) -> bool {
    today == date && now < 90000 && time >= 90000
}

/// Each pre-open step runs at most once a day: once the clock reading at which a step was due
/// is remembered, no later reading of that day makes it due again.
pub proof fn pre_open_steps_run_once(today: u32, now: u32, date: u32, time: u32, later: u32)
    ensures
        sync_due(today, now, date, time) ==> !sync_due(date, time, date, later),
        push_due(today, now, date, time) ==> !push_due(date, time, date, later),
{
}

/// Quote row pushed for a record during the pre-open push, by stock type:
/// 1 stock (2202), 2 index (2203), 3 fund (2205), 4 bond (2202); other types are not pushed.
pub open spec fn init_push_one(t2: T2State, s: StockModel) -> T2State {
    if s.stock_type == 1 {
        push_step(t2, s, 2202)
    } else if s.stock_type == 2 {
        push_step(t2, s, 2203)
    } else if s.stock_type == 3 {
        push_step(t2, s, 2205)
    } else if s.stock_type == 4 {
        push_step(t2, s, 2202)
    } else {
        t2
    }
}

/// Quote rows pushed for all the records, in table order.
pub open spec fn init_push_all(t2: T2State, recs: Seq<StockModel>) -> T2State
    decreases recs.len(),
{
    if recs.len() == 0 {
        t2
    } else {
        init_push_one(init_push_all(t2, recs.drop_last()), recs.last())
    }
}

/// The feed context.
pub struct Context {
    pub _stocks: StockTable,
    pub _index_statics: StockTable,
    pub _t2ctx: T2Context,
    pub _today: u32,
    pub _now: u32,
}

impl View for Context {
    type V = ContextModel;

    open spec fn view(&self) -> ContextModel {
        ContextModel {
            stocks: self._stocks@,
            statics: self._index_statics@,
            t2: self._t2ctx@,
            today: self._today,
            now: self._now,
        }
    }
}

impl Context {
    /// Applies a stock snapshot body (message 300111).
    pub fn handle_stock_snapshot(&mut self, buf: &[u8]) -> (r: Result<(), MarketError>)
        requires
            context_wf(old(self)@),
            stock_snapshot_fits(buf@),
        ensures
            r is Ok,
            final(self)@ == apply_stock_snapshot(old(self)@, buf@),
            context_wf(final(self)@),
    {
        let orig_time = get_i64(buf, 0);
        push_market_datetime(&mut self._t2ctx, orig_time)?;
        let security_id = utf8_to_string(&buf[13..19]);
        let ghost code = security_id@;
        let ghost before = self._stocks@;
        let stock = self._stocks.entry(security_id.clone());
        fill_snapshot_header(stock, buf, &security_id);
        stock._trade_amount = get_i64(buf, 49) / 100;
        if stock._nonstrict_shares > 0 {
            if stock._trade_amount > 0 {
                stock._change_rate = ((stock._trade_amount.wrapping_mul(100000) / stock._nonstrict_shares).wrapping_add(5) / 10) as u32;
            }
        }
        stock._trade_balance = get_i64(buf, 57) / 10;
        let entry_count = get_u32(buf, 65);
        apply_stock_entries(stock, buf, 69, entry_count);
        if is_dept(&security_id) {
            stock._stock_type = 4;
            if stock._time >= 91500 {
                push_debt(&mut self._t2ctx, stock)?;
            }
        } else if is_fund(&security_id) {
            stock._stock_type = 3;
            if stock._time >= 91500 {
                push_fund(&mut self._t2ctx, stock)?;
            }
        } else {
            stock._stock_type = 1;
            if stock._time >= 91500 {
                push_stock(&mut self._t2ctx, stock)?;
            }
        }
        proof {
            upsert_then_lookup(before, code, final(stock)@, code);
        }
        Ok(())
    }

    /// Applies an index snapshot body (message 309011).
    pub fn handle_index_snapshot(&mut self, buf: &[u8]) -> (r: Result<(), MarketError>)
        requires
            context_wf(old(self)@),
            index_snapshot_fits(buf@),
        ensures
            r is Ok,
            final(self)@ == apply_index_snapshot(old(self)@, buf@),
            context_wf(final(self)@),
    {
        let orig_time = get_i64(buf, 0);
        push_market_datetime(&mut self._t2ctx, orig_time)?;
        let security_id = utf8_to_string(&buf[13..19]);
        let ghost code = security_id@;
        let ghost before = self._stocks@;
        let key = translate(&security_id);
        let mut amount_balance: Option<(i64, i64)> = None;
        match &key {
            Some(k) => {
                match self._index_statics.get(k.as_str()) {
                    Some(v) => {
                        amount_balance = Some((v._trade_amount, v._trade_balance));
                    },
                    None => {},
                }
            },
            None => {},
        }
        let stock = self._stocks.entry(security_id.clone());
        fill_snapshot_header(stock, buf, &security_id);
        stock._trade_amount = get_i64(buf, 49) / 100;
        stock._trade_balance = get_i64(buf, 57) / 10;
        match amount_balance {
            Some((a, b)) => {
                stock._trade_amount = a;
                stock._trade_balance = b;
            },
            None => {},
        }
        let entry_count = get_u32(buf, 65);
        let mut start: usize = 69;
        let mut i: u32 = 0;
        let ghost s0 = stock@;
        while i < entry_count
            invariant
                i <= entry_count,
                start == 69 + 10 * i,
                69 + 10 * (entry_count as int) <= buf@.len(),
                stock_wf(stock@),
                apply_index_entries(s0, buf@, 69, entry_count as nat) == apply_index_entries(
                    stock@,
                    buf@,
                    start as int,
                    (entry_count - i) as nat,
                ),
            decreases entry_count - i,
        {
            let entry = StockEntry {
                _entry_type: [buf[start], buf[start + 1]],
                _entry_px: get_i64(buf, start + 2),
                _entry_size: 0,
                _price_level: 0,
                _num_of_orders: 0,
            };
            parse_entry(stock, &entry);
            start = start + 10;
            i = i + 1;
        }
        stock._stock_type = 2;
        if stock._time >= 91500 {
            push_index(&mut self._t2ctx, stock)?;
        }
        proof {
            upsert_then_lookup(before, code, final(stock)@, code);
        }
        Ok(())
    }

    /// Applies a volume statistics body (message 309111) to the statistics table.
    pub fn handle_volume_statistic(&mut self, buf: &[u8]) -> (r: Result<(), MarketError>)
        requires
            context_wf(old(self)@),
            buf@.len() >= 69,
        ensures
            r is Ok,
            final(self)@ == apply_volume_statistic(old(self)@, buf@),
            context_wf(final(self)@),
    {
        let orig_time = get_i64(buf, 0);
        push_market_datetime(&mut self._t2ctx, orig_time)?;
        let security_id = utf8_to_string(&buf[13..19]);
        let ghost code = security_id@;
        let ghost before = self._index_statics@;
        let stock = self._index_statics.entry(security_id.clone());
        fill_snapshot_header(stock, buf, &security_id);
        stock._trade_amount = get_i64(buf, 49) / 10000;
        stock._trade_balance = get_i64(buf, 57) / 10;
        let _stock_num = get_u32(buf, 65);
        proof {
            upsert_then_lookup(before, code, final(stock)@, code);
        }
        Ok(())
    }

    /// Applies a realtime status body (message 390013): margin switches, then the time.
    pub fn handle_realtime_status(&mut self, buf: &[u8]) -> (r: Result<(), MarketError>)
        requires
            context_wf(old(self)@),
            realtime_status_fits(buf@),
        ensures
            r is Ok,
            final(self)@ == apply_realtime_status(old(self)@, buf@),
            context_wf(final(self)@),
    {
        let time = get_i64(buf, 0);
        let _channel_no = get_u16(buf, 8);
        let count = get_u32(buf, 30);
        let security_id = utf8_to_string(&buf[10..16]);
        let ghost code = security_id@;
        let ghost before = self._stocks@;
        let stock = self._stocks.entry(security_id);
        let ghost s0 = stock@;
        let n = buf.len();
        let mut i: u32 = 0;
        while i < count
            invariant
                i <= count,
                n == buf@.len(),
                34 + 4 * (count as int) <= buf@.len(),
                stock_wf(stock@),
                apply_switches(s0, buf@, 0, count as nat) == apply_switches(stock@, buf@, i as nat, count as nat),
            decreases count - i,
        {
            let off = 34 + 4 * (i as usize);
            let switch_type = get_u16(buf, off);
            let switch_status = get_u16(buf, off + 2);
            if switch_type == 1 {
                if switch_status == 1 {
                    stock._margin_status = stock._margin_status | 1;
                }
            } else if switch_type == 2 {
                if switch_status == 1 {
                    stock._margin_status = stock._margin_status | 2;
                }
            }
            i = i + 1;
        }
        proof {
            upsert_then_lookup(before, code, final(stock)@, code);
        }
        push_market_datetime(&mut self._t2ctx, time)?;
        Ok(())
    }

    /// Applies a stock report body (message 390012): only its time is announced.
    pub fn handle_stock_report(&mut self, buf: &[u8]) -> (r: Result<(), MarketError>)
        requires
            stock_report_fits(buf@),
        ensures
            r is Ok,
            final(self)@ == apply_time_only(old(self)@, i64_at(buf@, 0)),
    {
        let report = StockReport::parse(buf);
        push_market_datetime(&mut self._t2ctx, report._time)?;
        Ok(())
    }

    /// Applies a user report (message 390093). The report record is decoded from its own
    /// zero-initialised storage, not from the body, so the time announced is always 0.
    pub fn handle_user_report_message(&mut self, _buf: &[u8]) -> (r: Result<(), MarketError>)
        ensures
            r is Ok,
            final(self)@ == apply_time_only(old(self)@, 0),
    {
        let msg = ReportMsg { _time: 0, _version_code: [0; 16], _user_num: 0 };
        push_market_datetime(&mut self._t2ctx, msg._time)?;
        Ok(())
    }

    /// Applies a message body by message type. Gives the frame to send back: the heartbeat
    /// frame for a heartbeat (3), nothing otherwise.
    pub fn handle_message(&mut self, msg_type: u32, buf: &[u8]) -> (r: Result<Option<Vec<u8>>, MarketError>)
        requires
            context_wf(old(self)@),
            message_fits(msg_type, buf@),
        ensures
            r matches Ok(reply) && (reply matches Some(f) ==> f@ == heartbeat_frame()) && (reply
                is Some <==> msg_type == 3),
            final(self)@ == apply_message(old(self)@, msg_type, buf@),
            context_wf(final(self)@),
    {
        if msg_type == 3 {
            return Ok(Some(heartbeat_message()));
        } else if msg_type == 390093 {
            self.handle_user_report_message(buf)?;
        } else if msg_type == 390013 {
            self.handle_realtime_status(buf)?;
        } else if msg_type == 390012 {
            self.handle_stock_report(buf)?;
        } else if msg_type == 300111 {
            self.handle_stock_snapshot(buf)?;
        } else if msg_type == 309011 {
            self.handle_index_snapshot(buf)?;
        } else if msg_type == 309111 {
            self.handle_volume_statistic(buf)?;
        }
        Ok(None)
    }

    /// A context over the given stock and statistics tables, connected to a fresh quote bus.
    pub fn with_tables(stocks: StockTable, statics: StockTable) -> (c: Context)
        requires
            table_wf(stocks@),
            table_wf(statics@),
        ensures
            c@ == (ContextModel {
                stocks: stocks@,
                statics: statics@,
                t2: T2State { sent: seq![], date: 0, time: 0, market_status: 0 },
                today: 0,
                now: 0,
            }),
            context_wf(c@),
    {
        Context { _stocks: stocks, _index_statics: statics, _t2ctx: T2Context::new(), _today: 0, _now: 0 }
    }

    /// The pre-open steps due at (`date`, `time`).
    pub fn plan_market_init(&self, date: u32, time: u32) -> (p: MarketInitPlan)
        ensures
            p._sync_static == sync_due(self._today, self._now, date, time),
            p._push_all == push_due(self._today, self._now, date, time),
    {
        let same_day = self._today == date;
        MarketInitPlan {
            _sync_static: same_day && self._now <= 85000 && time > 85000,
            _push_all: same_day && self._now < 90000 && time >= 90000,
        }
    }

    /// The pre-open push: the quote row of every record by its type, in table order, then the
    /// market status 2 (call auction).
    pub fn push_market_init(&mut self, date: u32, time: u32) -> (r: Result<(), MarketError>)
        requires
            context_wf(old(self)@),
        ensures
            r is Ok,
            final(self)@ == (ContextModel {
                t2: status_step(init_push_all(old(self)@.t2, old(self)@.stocks.records), date, time, 2),
                ..old(self)@
            }),
    {
        let n = self._stocks.len();
        let mut i: usize = 0;
        while i < n
            invariant
                i <= n,
                n == self@.stocks.keys.len(),
                context_wf(self@),
                self@.stocks == old(self)@.stocks,
                self@.statics == old(self)@.statics,
                self@.today == old(self)@.today,
                self@.now == old(self)@.now,
                self@.t2 == init_push_all(old(self)@.t2, old(self)@.stocks.records.take(i as int)),
            decreases n - i,
        {
            let value = self._stocks.record_at(i);
            assert(old(self)@.stocks.records.take(i as int + 1).drop_last() =~= old(self)@.stocks.records.take(i as int));
            if value._stock_type == 1 {
                push_stock(&mut self._t2ctx, value)?;
            } else if value._stock_type == 2 {
                push_index(&mut self._t2ctx, value)?;
            } else if value._stock_type == 3 {
                push_fund(&mut self._t2ctx, value)?;
            } else if value._stock_type == 4 {
                push_debt(&mut self._t2ctx, value)?;
            }
            i = i + 1;
        }
        assert(old(self)@.stocks.records.take(n as int) =~= old(self)@.stocks.records);
        push_market_status(&mut self._t2ctx, date, time, 2)?;
        Ok(())
    }

    /// Remembers the clock reading of the pre-open preparation.
    pub fn set_market_clock(&mut self, date: u32, time: u32)
        ensures
            final(self)@ == (ContextModel { today: date, now: time, ..old(self)@ }),
    {
        self._today = date;
        self._now = time;
    }
}

} // verus!
