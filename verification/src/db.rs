use vstd::prelude::*;
use vstd::utf8::*;
use crate::t2sdk::{StockModel, StockRecord};
use crate::table::{lookup, lookup_or_default, table_wf, upsert, upsert_then_lookup, StockTable, TableModel};
use crate::market::lemma_lookup_wf;
use crate::utils::{parse_i64, parsed_i64};

verus! {

/// The record of a security after its listing row: code, listing price (thousandths) and
/// listing date `yyyymmdd`.
pub open spec fn issue_record(s: StockModel, code: Seq<char>, first_px: u32, year: i32, month: u32, day: u32) -> StockModel {
    StockModel {
        stock_code: code,
        first_px: first_px,
        first_date: ((year as u32) as int * 10000 + month * 100 + day) as u32,
        ..s
    }
}

/// Stores the listing row of a security (from the IPO table): code, listing price in
/// thousandths and listing date.
pub fn apply_issue_row(stocks: &mut StockTable, code: &str, first_px: u32, year: i32, month: u32, day: u32)
    requires
        table_wf(old(stocks)@),
        (year as u32) as int * 10000 + month * 100 + day <= u32::MAX,
    ensures
        table_wf(final(stocks)@),
        final(stocks)@ == upsert(old(stocks)@, code@, issue_record(lookup_or_default(old(stocks)@, code@), code@, first_px, year, month, day)),
{
    let ghost before = stocks@;
    let value = stocks.entry(code.to_owned());
    value._stock_code = code.to_owned();
    value._first_px = first_px;
    value._first_date = (year as u32) * 10000 + month * 100 + day;
    proof {
        upsert_then_lookup(before, code@, final(value)@, code@);
    }
}

/// Number in a text, 0 when it is not one.
pub open spec fn number_or_zero(t: Seq<char>) -> i64 {
    match parsed_i64(encode_utf8(t)) {
        Some(v) => v,
        None => 0,
    }
}

/// The record of a security after its quote-table row: code, name, total shares, tradable
/// shares (when given) and P/E figures (when given).
pub open spec fn quote_record(
    s: StockModel,
    code: Seq<char>,
    name: Seq<char>,
    total_shares: Seq<char>,
    nonstrict_shares: Option<Seq<char>>,
    pe_rate: Option<u32>,
    dynamic_pe: Option<u32>,
) -> StockModel {
    let s1 = StockModel {
        stock_code: code,
        stock_name: name,
        total_shares: number_or_zero(total_shares),
        ..s
    };
    let s2 = match nonstrict_shares {
        Some(n) => StockModel { nonstrict_shares: number_or_zero(n), ..s1 },
        None => s1,
    };
    let s3 = match pe_rate {
        Some(p) => StockModel { pe_rate: p, ..s2 },
        None => s2,
    };
    match dynamic_pe {
        Some(p) => StockModel { dynamic_pe: p, ..s3 },
        None => s3,
    }
}

/// Stores the quote-table row of a security: code, name, total and tradable shares (texts,
/// 0 when not a number) and P/E figures in thousandths.
pub fn apply_quote_row(
    stocks: &mut StockTable,
    code: &str,
    name: &str,
    total_shares: &str,
    nonstrict_shares: Option<&str>,
    pe_rate: Option<u32>,
    dynamic_pe: Option<u32>,
)
    requires
        table_wf(old(stocks)@),
    ensures
        table_wf(final(stocks)@),
        final(stocks)@ == upsert(
            old(stocks)@,
            code@,
            quote_record(
                lookup_or_default(old(stocks)@, code@),
                code@,
                name@,
                total_shares@,
                match nonstrict_shares {
                    Some(n) => Some(n@),
                    None => None,
                },
                pe_rate,
                dynamic_pe,
            ),
        ),
{
    let ghost before = stocks@;
    let value = stocks.entry(code.to_owned());
    value._stock_code = code.to_owned();
    value._stock_name = name.to_owned();
    value._total_shares = match parse_i64(total_shares) {
        Some(v) => v,
        None => 0,
    };
    match nonstrict_shares {
        Some(ns) => {
            value._nonstrict_shares = match parse_i64(ns) {
                Some(v) => v,
                None => 0,
            };
        },
        None => {},
    }
    match pe_rate {
        Some(p) => {
            value._pe_rate = p;
        },
        None => {},
    }
    match dynamic_pe {
        Some(p) => {
            value._dynamic_pe = p;
        },
        None => {},
    }
    proof {
        upsert_then_lookup(before, code@, final(value)@, code@);
    }
}


/// A quote-table row stores its figures each in its own place: the code and name; the total
/// shares; the tradable shares when the row gives them (kept otherwise); the static P/E figure
/// when given (kept otherwise) and the dynamic P/E figure when given (kept otherwise) — neither
/// P/E figure ever changes the other. Quotes, prices and every other figure are kept, and other
/// codes keep their records.
pub proof fn quote_row_stores_its_figures(
    t: TableModel,
    code: Seq<char>,
    name: Seq<char>,
    total_shares: Seq<char>,
    nonstrict_shares: Option<Seq<char>>,
    pe_rate: Option<u32>,
    dynamic_pe: Option<u32>,
    other: Seq<char>,
)
    requires
        table_wf(t),
    ensures
        ({
            let before = lookup_or_default(t, code);
            let after = upsert(t, code, quote_record(before, code, name, total_shares, nonstrict_shares, pe_rate, dynamic_pe));
            &&& table_wf(after)
            &&& lookup(after, code) matches Some(r)
                && r.stock_code == code
                && r.stock_name == name
                && r.total_shares == number_or_zero(total_shares)
                && r.nonstrict_shares == (match nonstrict_shares { Some(n) => number_or_zero(n), None => before.nonstrict_shares })
                && r.pe_rate == (match pe_rate { Some(p) => p, None => before.pe_rate })
                && r.dynamic_pe == (match dynamic_pe { Some(p) => p, None => before.dynamic_pe })
                && r == StockModel {
                    stock_code: r.stock_code,
                    stock_name: r.stock_name,
                    total_shares: r.total_shares,
                    nonstrict_shares: r.nonstrict_shares,
                    pe_rate: r.pe_rate,
                    dynamic_pe: r.dynamic_pe,
                    ..before
                }
            &&& other != code ==> lookup(after, other) == lookup(t, other)
        }),
{
    let before = lookup_or_default(t, code);
    lemma_lookup_wf(t, code);
    let r = quote_record(before, code, name, total_shares, nonstrict_shares, pe_rate, dynamic_pe);
    upsert_then_lookup(t, code, r, other);
}


/// A listing row of a year from 0 on stores the listing date as `yyyymmdd` (year times
/// 10000, month times 100, day) and the listing price, under the row's code; every other figure
/// of the record and every other code is kept.
pub proof fn issue_row_stores_listing(t: TableModel, code: Seq<char>, first_px: u32, year: i32, month: u32, day: u32, other: Seq<char>)
    requires
        table_wf(t),
        0 <= year,
        year * 10000 + month * 100 + day <= u32::MAX,
    ensures
        ({
            let before = lookup_or_default(t, code);
            let after = upsert(t, code, issue_record(before, code, first_px, year, month, day));
            &&& table_wf(after)
            &&& lookup(after, code) matches Some(r)
                && r.first_date == year * 10000 + month * 100 + day
                && r.first_px == first_px
                && r == StockModel { stock_code: code, first_date: r.first_date, first_px: first_px, ..before }
            &&& other != code ==> lookup(after, other) == lookup(t, other)
        }),
{
    let before = lookup_or_default(t, code);
    lemma_lookup_wf(t, code);
    assert((year as u32) as int == year as int);
    upsert_then_lookup(t, code, issue_record(before, code, first_px, year, month, day), other);
}

} // verus!
