use vstd::prelude::*;
use vstd::utf8::*;
use crate::errors::MarketError;
use crate::wire::copy_bytes;
use crate::interoper::{REQUEST, T2Context, T2Item, T2Message, T2Packet, T2State, T2Value};
use crate::utils::{
    decimal_bytes, decimal_text, gb2312_bytes, get_line_number, line_number, string_to_gb2312, tdiv,
    trem,
};

verus! {

/// Quote record of one security, as pushed to the quote bus.
/// Prices are in thousandths of a yuan; `_stock_type` is 1 stock, 2 index, 3 fund, 4 bond.
pub struct StockRecord {
    pub _stock_code: String,
    pub _stock_type: u32,
    pub _stock_name: String,
    pub _last_px: u32,
    pub _trade_amount: i64,
    pub _trade_balance: i64,
    pub _trade_status: u32,
    pub _open_px: u32,
    pub _close_px: u32,
    pub _pre_close_px: u32,
    pub _high_px: u32,
    pub _low_px: u32,
    pub _date: u32,
    pub _time: u32,
    pub _sale_pxs: [u32; 5],
    pub _sale_amounts: [u32; 5],
    pub _buy_pxs: [u32; 5],
    pub _buy_amounts: [u32; 5],
    pub _market_value: u64,
    pub _pe_rate: u32,
    pub _dynamic_pe: u32,
    pub _first_date: u32,
    pub _first_px: u32,
    pub _line_no: u32,
    pub _total_shares: i64,
    pub _nonstrict_shares: i64,
    /// Bit 0: margin trading enabled, bit 1: short selling enabled.
    pub _margin_status: u32,
    /// Turnover ratio in hundredths of a percent.
    pub _change_rate: u32,
    /// Earnings per share used for the static P/E ratio (0: unknown).
    pub _static_pe_rate: u32,
    /// Earnings per share used for the dynamic P/E ratio (0: unknown).
    pub _static_dynamic_pe: u32,
}

/// Mathematical form of a `StockRecord`: texts as character sequences, arrays as sequences.
pub struct StockModel {
    pub stock_code: Seq<char>,
    pub stock_type: u32,
    pub stock_name: Seq<char>,
    pub last_px: u32,
    pub trade_amount: i64,
    pub trade_balance: i64,
    pub trade_status: u32,
    pub open_px: u32,
    pub close_px: u32,
    pub pre_close_px: u32,
    pub high_px: u32,
    pub low_px: u32,
    pub date: u32,
    pub time: u32,
    pub sale_pxs: Seq<u32>,
    pub sale_amounts: Seq<u32>,
    pub buy_pxs: Seq<u32>,
    pub buy_amounts: Seq<u32>,
    pub market_value: u64,
    pub pe_rate: u32,
    pub dynamic_pe: u32,
    pub first_date: u32,
    pub first_px: u32,
    pub line_no: u32,
    pub total_shares: i64,
    pub nonstrict_shares: i64,
    pub margin_status: u32,
    pub change_rate: u32,
    pub static_pe_rate: u32,
    pub static_dynamic_pe: u32,
}

impl View for StockRecord {
    type V = StockModel;

    open spec fn view(&self) -> StockModel {
        StockModel {
            stock_code: self._stock_code@,
            stock_type: self._stock_type,
            stock_name: self._stock_name@,
            last_px: self._last_px,
            trade_amount: self._trade_amount,
            trade_balance: self._trade_balance,
            trade_status: self._trade_status,
            open_px: self._open_px,
            close_px: self._close_px,
            pre_close_px: self._pre_close_px,
            high_px: self._high_px,
            low_px: self._low_px,
            date: self._date,
            time: self._time,
            sale_pxs: self._sale_pxs@,
            sale_amounts: self._sale_amounts@,
            buy_pxs: self._buy_pxs@,
            buy_amounts: self._buy_amounts@,
            market_value: self._market_value,
            pe_rate: self._pe_rate,
            dynamic_pe: self._dynamic_pe,
            first_date: self._first_date,
            first_px: self._first_px,
            line_no: self._line_no,
            total_shares: self._total_shares,
            nonstrict_shares: self._nonstrict_shares,
            margin_status: self._margin_status,
            change_rate: self._change_rate,
            static_pe_rate: self._static_pe_rate,
            static_dynamic_pe: self._static_dynamic_pe,
        }
    }
}

/// Five zeros.
pub open spec fn zeros5() -> Seq<u32> {
    seq![0u32, 0u32, 0u32, 0u32, 0u32]
}

/// The empty record: empty texts, every number 0.
pub open spec fn default_stock() -> StockModel {
    StockModel {
        stock_code: seq![],
        stock_type: 0,
        stock_name: seq![],
        last_px: 0,
        trade_amount: 0,
        trade_balance: 0,
        trade_status: 0,
        open_px: 0,
        close_px: 0,
        pre_close_px: 0,
        high_px: 0,
        low_px: 0,
        date: 0,
        time: 0,
        sale_pxs: zeros5(),
        sale_amounts: zeros5(),
        buy_pxs: zeros5(),
        buy_amounts: zeros5(),
        market_value: 0,
        pe_rate: 0,
        dynamic_pe: 0,
        first_date: 0,
        first_px: 0,
        line_no: 0,
        total_shares: 0,
        nonstrict_shares: 0,
        margin_status: 0,
        change_rate: 0,
        static_pe_rate: 0,
        static_dynamic_pe: 0,
    }
}

/// Every record holds five levels of bid and ask quotes.
pub open spec fn stock_wf(s: StockModel) -> bool {
    &&& s.sale_pxs.len() == 5
    &&& s.sale_amounts.len() == 5
    &&& s.buy_pxs.len() == 5
    &&& s.buy_amounts.len() == 5
}

impl Default for StockRecord {
    fn default() -> (r: StockRecord)
        ensures
            r@ == default_stock(),
    {
        let r = StockRecord {
            _stock_code: String::new(),
            _stock_type: 0,
            _stock_name: String::new(),
            _last_px: 0,
            _trade_amount: 0,
            _trade_balance: 0,
            _trade_status: 0,
            _open_px: 0,
            _close_px: 0,
            _pre_close_px: 0,
            _high_px: 0,
            _low_px: 0,
            _date: 0,
            _time: 0,
            _sale_pxs: [0; 5],
            _sale_amounts: [0; 5],
            _buy_pxs: [0; 5],
            _buy_amounts: [0; 5],
            _market_value: 0,
            _pe_rate: 0,
            _dynamic_pe: 0,
            _first_date: 0,
            _first_px: 0,
            _line_no: 0,
            _total_shares: 0,
            _nonstrict_shares: 0,
            _margin_status: 0,
            _change_rate: 0,
            _static_pe_rate: 0,
            _static_dynamic_pe: 0,
        };
        assert(r._sale_pxs@ =~= zeros5());
        assert(r._sale_amounts@ =~= zeros5());
        assert(r._buy_pxs@ =~= zeros5());
        assert(r._buy_amounts@ =~= zeros5());
        r
    }
}

/// Field names of a quote row, in four groups.
pub open spec fn stock_fields_head() -> Seq<Seq<char>> {
    seq![
        "stock_code"@,
        "stock_type"@,
        "stock_name"@,
        "exchange_type"@,
        "last_price"@,
        "business_amount"@,
        "split_amount"@,
        "business_balance"@,
        "open_price"@,
        "close_price"@,
        "pre_close_price"@,
        "high_price"@,
        "low_price"@,
        "record_time"@,
        "line_no"@,
        "market_date"@,
    ]
}

pub open spec fn stock_fields_asks() -> Seq<Seq<char>> {
    seq![
        "sale_price5"@,
        "sale_amount5"@,
        "sale_price4"@,
        "sale_amount4"@,
        "sale_price3"@,
        "sale_amount3"@,
        "sale_price2"@,
        "sale_amount2"@,
        "sale_price1"@,
        "sale_amount1"@,
    ]
}

pub open spec fn stock_fields_bids() -> Seq<Seq<char>> {
    seq![
        "buy_price1"@,
        "buy_amount1"@,
        "buy_price2"@,
        "buy_amount2"@,
        "buy_price3"@,
        "buy_amount3"@,
        "buy_price4"@,
        "buy_amount4"@,
        "buy_price5"@,
        "buy_amount5"@,
    ]
}

pub open spec fn stock_fields_tail() -> Seq<Seq<char>> {
    seq![
        "market_value"@,
        "turnover_ratio"@,
        "pe_rate"@,
        "dynamic_pe_rate"@,
        "first_date"@,
        "issue_price"@,
        "trade_status"@,
        "margin_status"@,
    ]
}

/// Field names of a quote row.
pub open spec fn stock_fields() -> Seq<Seq<char>> {
    stock_fields_head() + stock_fields_asks() + stock_fields_bids() + stock_fields_tail()
}

/// Code, type, name, exchange (`2`: Shenzhen), prices, volumes, time, slot and date of `s`.
pub open spec fn stock_values_head(s: StockModel) -> Seq<T2Item> {
    seq![
        T2Item::Str(encode_utf8(s.stock_code)),
        T2Item::Int(s.stock_type as i64),
        T2Item::Str(gb2312_bytes(s.stock_name)),
        T2Item::Char(0x32),
        T2Item::Int(s.last_px as i64),
        T2Item::Str(decimal_text(s.trade_amount as int)),
        T2Item::Str(decimal_text(s.trade_amount as int)),
        T2Item::Str(decimal_text(s.trade_balance as int)),
        T2Item::Int(s.open_px as i64),
        T2Item::Int(s.close_px as i64),
        T2Item::Int(s.pre_close_px as i64),
        T2Item::Int(s.high_px as i64),
        T2Item::Int(s.low_px as i64),
        T2Item::Int(s.time as i64),
        T2Item::Int(line_number(s.time as int) as i64),
        T2Item::Int(s.date as i64),
    ]
}

/// Ask prices and volumes of `s`, fifth level first.
pub open spec fn stock_values_asks(s: StockModel) -> Seq<T2Item> {
    seq![
        T2Item::Int(s.sale_pxs[4] as i64),
        T2Item::Int(s.sale_amounts[4] as i64),
        T2Item::Int(s.sale_pxs[3] as i64),
        T2Item::Int(s.sale_amounts[3] as i64),
        T2Item::Int(s.sale_pxs[2] as i64),
        T2Item::Int(s.sale_amounts[2] as i64),
        T2Item::Int(s.sale_pxs[1] as i64),
        T2Item::Int(s.sale_amounts[1] as i64),
        T2Item::Int(s.sale_pxs[0] as i64),
        T2Item::Int(s.sale_amounts[0] as i64),
    ]
}

/// Bid prices and volumes of `s`, first level first.
pub open spec fn stock_values_bids(s: StockModel) -> Seq<T2Item> {
    seq![
        T2Item::Int(s.buy_pxs[0] as i64),
        T2Item::Int(s.buy_amounts[0] as i64),
        T2Item::Int(s.buy_pxs[1] as i64),
        T2Item::Int(s.buy_amounts[1] as i64),
        T2Item::Int(s.buy_pxs[2] as i64),
        T2Item::Int(s.buy_amounts[2] as i64),
        T2Item::Int(s.buy_pxs[3] as i64),
        T2Item::Int(s.buy_amounts[3] as i64),
        T2Item::Int(s.buy_pxs[4] as i64),
        T2Item::Int(s.buy_amounts[4] as i64),
    ]
}

/// Market value, turnover ratio (sent as 0), P/E ratios, listing date and price, trading status and margin status (sent as 0) of `s`.
pub open spec fn stock_values_tail(s: StockModel) -> Seq<T2Item> {
    seq![
        T2Item::Int(s.market_value as i64),
        T2Item::Int(0i64),
        T2Item::Int(s.pe_rate as i64),
        T2Item::Int(s.dynamic_pe as i64),
        T2Item::Int(s.first_date as i64),
        T2Item::Int(s.first_px as i64),
        T2Item::Int(s.trade_status as i64),
        T2Item::Int(0i64),
    ]
}

/// Values of the quote row of `s`.
pub open spec fn stock_values(s: StockModel) -> Seq<T2Item> {
    stock_values_head(s) + stock_values_asks(s) + stock_values_bids(s) + stock_values_tail(s)
}

/// The request that pushes the quote row of `s` under function `func_no`.
pub open spec fn stock_packet(s: StockModel, func_no: i32) -> T2Packet {
    T2Packet { packet_type: REQUEST, function_no: func_no, fields: stock_fields(), values: stock_values(s) }
}

impl StockRecord {
    fn add_fields_head(msg: &mut T2Message)
        ensures
            final(msg)@ == (T2Packet { fields: old(msg)@.fields + stock_fields_head(), ..old(msg)@ }),
    {
        let ghost f0 = msg@.fields;
        msg.add_field("stock_code");
        msg.add_field("stock_type");
        msg.add_field("stock_name");
        msg.add_field("exchange_type");
        msg.add_field("last_price");
        msg.add_field("business_amount");
        msg.add_field("split_amount");
        msg.add_field("business_balance");
        msg.add_field("open_price");
        msg.add_field("close_price");
        msg.add_field("pre_close_price");
        msg.add_field("high_price");
        msg.add_field("low_price");
        msg.add_field("record_time");
        msg.add_field("line_no");
        msg.add_field("market_date");
        assert(msg@.fields =~= f0 + stock_fields_head());
    }

    fn add_values_head(&self, msg: &mut T2Message)
        requires
            stock_wf(self@),
        ensures
            final(msg)@ == (T2Packet { values: old(msg)@.values + stock_values_head(self@), ..old(msg)@ }),
    {
        let ghost v0 = msg@.values;
        msg.add_value(T2Value::Str(copy_bytes(self._stock_code.as_str().as_bytes())));
        msg.add_value(T2Value::Int(self._stock_type as i64));
        msg.add_value(T2Value::Str(string_to_gb2312(&self._stock_name)));
        msg.add_value(T2Value::Char(0x32));
        msg.add_value(T2Value::Int(self._last_px as i64));
        msg.add_value(T2Value::Str(decimal_bytes(self._trade_amount)));
        msg.add_value(T2Value::Str(decimal_bytes(self._trade_amount)));
        msg.add_value(T2Value::Str(decimal_bytes(self._trade_balance)));
        msg.add_value(T2Value::Int(self._open_px as i64));
        msg.add_value(T2Value::Int(self._close_px as i64));
        msg.add_value(T2Value::Int(self._pre_close_px as i64));
        msg.add_value(T2Value::Int(self._high_px as i64));
        msg.add_value(T2Value::Int(self._low_px as i64));
        msg.add_value(T2Value::Int(self._time as i64));
        msg.add_value(T2Value::Int(get_line_number(self._time) as i64));
        msg.add_value(T2Value::Int(self._date as i64));
        assert(msg@.values =~= v0 + stock_values_head(self@));
    }

    fn add_fields_asks(msg: &mut T2Message)
        ensures
            final(msg)@ == (T2Packet { fields: old(msg)@.fields + stock_fields_asks(), ..old(msg)@ }),
    {
        let ghost f0 = msg@.fields;
        msg.add_field("sale_price5");
        msg.add_field("sale_amount5");
        msg.add_field("sale_price4");
        msg.add_field("sale_amount4");
        msg.add_field("sale_price3");
        msg.add_field("sale_amount3");
        msg.add_field("sale_price2");
        msg.add_field("sale_amount2");
        msg.add_field("sale_price1");
        msg.add_field("sale_amount1");
        assert(msg@.fields =~= f0 + stock_fields_asks());
    }

    fn add_values_asks(&self, msg: &mut T2Message)
        requires
            stock_wf(self@),
        ensures
            final(msg)@ == (T2Packet { values: old(msg)@.values + stock_values_asks(self@), ..old(msg)@ }),
    {
        let ghost v0 = msg@.values;
        msg.add_value(T2Value::Int(self._sale_pxs[4] as i64));
        msg.add_value(T2Value::Int(self._sale_amounts[4] as i64));
        msg.add_value(T2Value::Int(self._sale_pxs[3] as i64));
        msg.add_value(T2Value::Int(self._sale_amounts[3] as i64));
        msg.add_value(T2Value::Int(self._sale_pxs[2] as i64));
        msg.add_value(T2Value::Int(self._sale_amounts[2] as i64));
        msg.add_value(T2Value::Int(self._sale_pxs[1] as i64));
        msg.add_value(T2Value::Int(self._sale_amounts[1] as i64));
        msg.add_value(T2Value::Int(self._sale_pxs[0] as i64));
        msg.add_value(T2Value::Int(self._sale_amounts[0] as i64));
        assert(msg@.values =~= v0 + stock_values_asks(self@));
    }

    fn add_fields_bids(msg: &mut T2Message)
        ensures
            final(msg)@ == (T2Packet { fields: old(msg)@.fields + stock_fields_bids(), ..old(msg)@ }),
    {
        let ghost f0 = msg@.fields;
        msg.add_field("buy_price1");
        msg.add_field("buy_amount1");
        msg.add_field("buy_price2");
        msg.add_field("buy_amount2");
        msg.add_field("buy_price3");
        msg.add_field("buy_amount3");
        msg.add_field("buy_price4");
        msg.add_field("buy_amount4");
        msg.add_field("buy_price5");
        msg.add_field("buy_amount5");
        assert(msg@.fields =~= f0 + stock_fields_bids());
    }

    fn add_values_bids(&self, msg: &mut T2Message)
        requires
            stock_wf(self@),
        ensures
            final(msg)@ == (T2Packet { values: old(msg)@.values + stock_values_bids(self@), ..old(msg)@ }),
    {
        let ghost v0 = msg@.values;
        msg.add_value(T2Value::Int(self._buy_pxs[0] as i64));
        msg.add_value(T2Value::Int(self._buy_amounts[0] as i64));
        msg.add_value(T2Value::Int(self._buy_pxs[1] as i64));
        msg.add_value(T2Value::Int(self._buy_amounts[1] as i64));
        msg.add_value(T2Value::Int(self._buy_pxs[2] as i64));
        msg.add_value(T2Value::Int(self._buy_amounts[2] as i64));
        msg.add_value(T2Value::Int(self._buy_pxs[3] as i64));
        msg.add_value(T2Value::Int(self._buy_amounts[3] as i64));
        msg.add_value(T2Value::Int(self._buy_pxs[4] as i64));
        msg.add_value(T2Value::Int(self._buy_amounts[4] as i64));
        assert(msg@.values =~= v0 + stock_values_bids(self@));
    }

    fn add_fields_tail(msg: &mut T2Message)
        ensures
            final(msg)@ == (T2Packet { fields: old(msg)@.fields + stock_fields_tail(), ..old(msg)@ }),
    {
        let ghost f0 = msg@.fields;
        msg.add_field("market_value");
        msg.add_field("turnover_ratio");
        msg.add_field("pe_rate");
        msg.add_field("dynamic_pe_rate");
        msg.add_field("first_date");
        msg.add_field("issue_price");
        msg.add_field("trade_status");
        msg.add_field("margin_status");
        assert(msg@.fields =~= f0 + stock_fields_tail());
    }

    fn add_values_tail(&self, msg: &mut T2Message)
        requires
            stock_wf(self@),
        ensures
            final(msg)@ == (T2Packet { values: old(msg)@.values + stock_values_tail(self@), ..old(msg)@ }),
    {
        let ghost v0 = msg@.values;
        msg.add_value(T2Value::Int(self._market_value as i64));
        msg.add_value(T2Value::Int(0));
        msg.add_value(T2Value::Int(self._pe_rate as i64));
        msg.add_value(T2Value::Int(self._dynamic_pe as i64));
        msg.add_value(T2Value::Int(self._first_date as i64));
        msg.add_value(T2Value::Int(self._first_px as i64));
        msg.add_value(T2Value::Int(self._trade_status as i64));
        msg.add_value(T2Value::Int(0));
        assert(msg@.values =~= v0 + stock_values_tail(self@));
    }

    /// Packs the quote row of this record as a request with function `func_no` and queues it.
    pub fn push(&self, ctx: &mut T2Context, func_no: i32) -> (r: Result<(), MarketError>)
        requires
            stock_wf(self@),
        ensures
            r is Ok,
            final(ctx)@ == (T2State { sent: old(ctx)@.sent.push(stock_packet(self@, func_no)), ..old(ctx)@ }),
    {
        let mut msg = T2Message::new();
        msg.set_packet_type(REQUEST);
        msg.set_function_no(func_no);
        Self::add_fields_head(&mut msg);
        Self::add_fields_asks(&mut msg);
        Self::add_fields_bids(&mut msg);
        Self::add_fields_tail(&mut msg);
        self.add_values_head(&mut msg);
        self.add_values_asks(&mut msg);
        self.add_values_bids(&mut msg);
        self.add_values_tail(&mut msg);
        assert(msg@.fields =~= stock_fields());
        assert(msg@.values =~= stock_values(self@));
        ctx.send_message(msg);
        Ok(())
    }
}

/// Market status of an `hhmmss` time: 1 pre-open (08:58:00..=09:14:59), 2 call auction
/// (09:15:00..=09:25:00), 3 (09:25:01..=09:29:59), 4 trading (09:30:00..=11:29:59 and
/// 13:00:00..=14:57:00), 5 noon break (11:30:00..=12:59:59), 8 closing auction
/// (14:57:01..=15:00:00), otherwise 6 (closed).
pub open spec fn market_status(time: int) -> u32 {
    if 85800 <= time && time <= 91459 {
        1
    } else if 91500 <= time && time <= 92500 {
        2
    } else if 92500 <= time && time <= 92959 {
        3
    } else if 93000 <= time && time <= 112959 {
        4
    } else if 113000 <= time && time <= 125959 {
        5
    } else if 130000 <= time && time <= 145700 {
        4
    } else if 145700 <= time && time <= 150000 {
        8
    } else {
        6
    }
}

/// Market status of the `hhmmss` time `time`.
pub fn get_market_status(time: u32) -> (status: u32)
    ensures
        status == market_status(time as int),
{
    if 85800 <= time && time <= 91459 {
        1
    } else if 91500 <= time && time <= 92500 {
        2
    } else if 92500 <= time && time <= 92959 {
        3
    } else if 93000 <= time && time <= 112959 {
        4
    } else if 113000 <= time && time <= 125959 {
        5
    } else if 130000 <= time && time <= 145700 {
        4
    } else if 145700 <= time && time <= 150000 {
        8
    } else {
        6
    }
}

/// The request announcing the market time (function 2206).
pub open spec fn time_packet(date: u32, time: u32) -> T2Packet {
    T2Packet {
        packet_type: REQUEST,
        function_no: 2206,
        fields: seq!["exchange_type"@, "market_date"@, "market_time"@, "line_no"@, "market_status"@],
        values: seq![
            T2Item::Char(0x32),
            T2Item::Int(date as i64),
            T2Item::Int(time as i64),
            T2Item::Int(line_number(time as int) as i64),
            T2Item::Int(market_status(time as int) as i64),
        ],
    }
}

/// The request announcing a change of market status (function 2206); the status sent is
/// the one of `time`.
pub open spec fn status_packet(date: u32, time: u32) -> T2Packet {
    T2Packet {
        packet_type: REQUEST,
        function_no: 2206,
        fields: seq![
            "exchange_type"@,
            "market_date"@,
            "market_time"@,
            "line_no"@,
            "market_status"@,
            "market_time_old"@,
        ],
        values: seq![
            T2Item::Char(0x32),
            T2Item::Int(date as i64),
            T2Item::Int(time as i64),
            T2Item::Int(line_number(time as int) as i64),
            T2Item::Int(market_status(time as int) as i64),
            T2Item::Int(time as i64),
        ],
    }
}

/// Announcing the status `status`: sent only when it differs from the last one announced.
pub open spec fn status_step(c: T2State, date: u32, time: u32, status: u32) -> T2State {
    if c.market_status == status {
        c
    } else {
        T2State { sent: c.sent.push(status_packet(date, time)), market_status: status, ..c }
    }
}

/// Announcing the market date and time: nothing when both equal the last ones announced;
/// otherwise the time is sent, then the status of that time.
pub open spec fn time_step(c: T2State, date: u32, time: u32) -> T2State {
    if c.date == date && c.time == time {
        c
    } else {
        status_step(
            T2State { sent: c.sent.push(time_packet(date, time)), date: date, time: time, ..c },
            date,
            time,
            market_status(time as int),
        )
    }
}

/// Date `yyyymmdd` of a timestamp `yyyymmddhhmmssSSS`.
pub open spec fn stamp_date(dt: int) -> u32 {
    tdiv(dt, 1000000000) as u32
}

/// Time `hhmmss` of a timestamp `yyyymmddhhmmssSSS`.
pub open spec fn stamp_time(dt: int) -> u32 {
    trem(tdiv(dt, 1000), 1000000) as u32
}

/// Announcing the date and time of the timestamp `dt`.
pub open spec fn datetime_step(c: T2State, dt: i64) -> T2State {
    time_step(c, stamp_date(dt as int), stamp_time(dt as int))
}

/// Pushing the quote row of `s` under function `func_no`.
pub open spec fn push_step(c: T2State, s: StockModel, func_no: i32) -> T2State {
    T2State { sent: c.sent.push(stock_packet(s, func_no)), ..c }
}

/// Announces a trading status change; does nothing while the status is unchanged.
pub fn push_market_status(ctx: &mut T2Context, date: u32, time: u32, trade_status: u32) -> (r:
    Result<(), MarketError>)
    ensures
        r is Ok,
        final(ctx)@ == status_step(old(ctx)@, date, time, trade_status),
{
    if ctx._market_status == trade_status {
        return Ok(());
    }
    ctx._market_status = trade_status;
    let mut msg = T2Message::new();
    msg.set_packet_type(REQUEST);
    msg.set_function_no(2206);
    msg.add_field("exchange_type");
    msg.add_field("market_date");
    msg.add_field("market_time");
    msg.add_field("line_no");
    msg.add_field("market_status");
    msg.add_field("market_time_old");
    msg.add_value(T2Value::Char(0x32));
    msg.add_value(T2Value::Int(date as i64));
    msg.add_value(T2Value::Int(time as i64));
    msg.add_value(T2Value::Int(get_line_number(time) as i64));
    msg.add_value(T2Value::Int(get_market_status(time) as i64));
    msg.add_value(T2Value::Int(time as i64));
    assert(msg@.fields =~= status_packet(date, time).fields);
    assert(msg@.values =~= status_packet(date, time).values);
    ctx.send_message(msg);
    Ok(())
}

/// Announces the market date and time, then the status of that time; does nothing when
/// date and time are those announced last.
pub fn push_market_time(ctx: &mut T2Context, date: u32, time: u32) -> (r: Result<(), MarketError>)
    ensures
        r is Ok,
        final(ctx)@ == time_step(old(ctx)@, date, time),
{
    if ctx._date == date && ctx._time == time {
        return Ok(());
    }
    ctx._date = date;
    ctx._time = time;
    let mut msg = T2Message::new();
    msg.set_packet_type(REQUEST);
    msg.set_function_no(2206);
    msg.add_field("exchange_type");
    msg.add_field("market_date");
    msg.add_field("market_time");
    msg.add_field("line_no");
    msg.add_field("market_status");
    msg.add_value(T2Value::Char(0x32));
    msg.add_value(T2Value::Int(date as i64));
    msg.add_value(T2Value::Int(time as i64));
    msg.add_value(T2Value::Int(get_line_number(time) as i64));
    msg.add_value(T2Value::Int(get_market_status(time) as i64));
    assert(msg@.fields =~= time_packet(date, time).fields);
    assert(msg@.values =~= time_packet(date, time).values);
    ctx.send_message(msg);
    let status = get_market_status(time);
    push_market_status(ctx, date, time, status)?;
    Ok(())
}

/// Announces the date and time of a `yyyymmddhhmmssSSS` timestamp.
pub fn push_market_datetime(ctx: &mut T2Context, dt: i64) -> (r: Result<(), MarketError>)
    ensures
        r is Ok,
        final(ctx)@ == datetime_step(old(ctx)@, dt),
{
    let date = (dt / 1000000000) as u32;
    let time = ((dt / 1000) % 1000000) as u32;
    push_market_time(ctx, date, time)
}

/// Per-security trading status; not sent (the status travels with the quote row).
pub fn push_stock_status(ctx: &mut T2Context, code: &str, trade_status: u32, time: u32) -> (r:
    Result<(), MarketError>)
    ensures
        r is Ok,
        final(ctx)@ == old(ctx)@,
{
    Ok(())
}

/// Pushes the quote row of a stock (function 2202).
pub fn push_stock(ctx: &mut T2Context, stock: &StockRecord) -> (r: Result<(), MarketError>)
    requires
        stock_wf(stock@),
    ensures
        r is Ok,
        final(ctx)@ == push_step(old(ctx)@, stock@, 2202),
{
    stock.push(ctx, 2202)
}

/// Pushes the quote row of a bond (function 2202).
pub fn push_debt(ctx: &mut T2Context, stock: &StockRecord) -> (r: Result<(), MarketError>)
    requires
        stock_wf(stock@),
    ensures
        r is Ok,
        final(ctx)@ == push_step(old(ctx)@, stock@, 2202),
{
    stock.push(ctx, 2202)
}

/// Pushes the quote row of a fund (function 2205).
pub fn push_fund(ctx: &mut T2Context, stock: &StockRecord) -> (r: Result<(), MarketError>)
    requires
        stock_wf(stock@),
    ensures
        r is Ok,
        final(ctx)@ == push_step(old(ctx)@, stock@, 2205),
{
    stock.push(ctx, 2205)
}

/// Pushes the quote row of an index (function 2203).
pub fn push_index(ctx: &mut T2Context, stock: &StockRecord) -> (r: Result<(), MarketError>)
    requires
        stock_wf(stock@),
    ensures
        r is Ok,
        final(ctx)@ == push_step(old(ctx)@, stock@, 2203),
{
    stock.push(ctx, 2203)
}

/// Announcing the same date and time twice sends nothing the second time.
pub proof fn announcing_the_same_time_twice_is_silent(c: T2State, date: u32, time: u32)
    ensures
        time_step(time_step(c, date, time), date, time) == time_step(c, date, time),
{
}

/// Announcing the same status twice sends nothing the second time.
pub proof fn announcing_the_same_status_twice_is_silent(c: T2State, date: u32, time: u32, status: u32)
    ensures
        status_step(status_step(c, date, time, status), date, time, status) == status_step(
            c,
            date,
            time,
            status,
        ),
{
}

/// After an announcement the context remembers the date, the time and the status of that
/// time, and the messages already sent stay first in the queue.
pub proof fn announcement_is_remembered(c: T2State, date: u32, time: u32)
    ensures
        time_step(c, date, time).date == date,
        time_step(c, date, time).time == time,
        (c.date != date || c.time != time) ==> time_step(c, date, time).market_status
            == market_status(time as int),
        c.sent.is_prefix_of(time_step(c, date, time).sent),
{
    let r = time_step(c, date, time);
    if c.date != date || c.time != time {
        let c1 = T2State { sent: c.sent.push(time_packet(date, time)), date: date, time: time, ..c };
        assert(c.sent.is_prefix_of(c1.sent));
        assert(c1.sent.is_prefix_of(r.sent));
    } else {
        assert(c.sent.is_prefix_of(c.sent));
    }
}


/// The market status follows the trading calendar of the day: pre-open 08:58:00..=09:14:59
/// is 1, the opening call auction 09:15:00..=09:25:00 is 2, 09:25:01..=09:29:59 is 3,
/// continuous trading 09:30:00..=11:29:59 and 13:00:00..=14:57:00 is 4, the noon break
/// 11:30:00..=12:59:59 is 5, the closing call auction 14:57:01..=15:00:00 is 8, and every
/// other time is 6 (closed). An announced time carries the status of its period.
pub proof fn market_status_by_period(c: T2State, date: u32, time: u32)
    ensures
        85800 <= time <= 91459 ==> market_status(time as int) == 1,
        91500 <= time <= 92500 ==> market_status(time as int) == 2,
        92501 <= time <= 92959 ==> market_status(time as int) == 3,
        93000 <= time <= 112959 ==> market_status(time as int) == 4,
        113000 <= time <= 125959 ==> market_status(time as int) == 5,
        130000 <= time <= 145700 ==> market_status(time as int) == 4,
        145701 <= time <= 150000 ==> market_status(time as int) == 8,
        !(85800 <= time <= 91459 || 91500 <= time <= 92959 || 93000 <= time <= 125959 || 130000
            <= time <= 150000) ==> market_status(time as int) == 6,
        (c.date != date || c.time != time) ==> time_step(c, date, time).sent[c.sent.len() as int].values[4]
            == T2Item::Int(market_status(time as int) as i64),
{
}

/// A field `name` of the row `p` holds the value `v`.
pub open spec fn row_has(p: T2Packet, name: Seq<char>, v: T2Item) -> bool {
    exists|i: int| 0 <= i < p.fields.len() && i < p.values.len() && p.fields[i] == name && #[trigger] p.values[i] == v
}

/// In a pushed quote row each ladder field carries its own level: `sale_priceK` and
/// `sale_amountK` hold the ask price and volume of level K (`_sale_pxs[K-1]`,
/// `_sale_amounts[K-1]`), and `buy_priceK` and `buy_amountK` the bid price and volume of
/// level K, for K in 1..=5.
pub proof fn quote_row_ladders_by_level(s: StockModel, func_no: i32)
    requires
        stock_wf(s),
    ensures
        ({
            let p = stock_packet(s, func_no);
            &&& p.fields.len() == p.values.len()
            &&& row_has(p, "sale_price1"@, T2Item::Int(s.sale_pxs[0] as i64))
            &&& row_has(p, "sale_price2"@, T2Item::Int(s.sale_pxs[1] as i64))
            &&& row_has(p, "sale_price3"@, T2Item::Int(s.sale_pxs[2] as i64))
            &&& row_has(p, "sale_price4"@, T2Item::Int(s.sale_pxs[3] as i64))
            &&& row_has(p, "sale_price5"@, T2Item::Int(s.sale_pxs[4] as i64))
            &&& row_has(p, "sale_amount1"@, T2Item::Int(s.sale_amounts[0] as i64))
            &&& row_has(p, "sale_amount2"@, T2Item::Int(s.sale_amounts[1] as i64))
            &&& row_has(p, "sale_amount3"@, T2Item::Int(s.sale_amounts[2] as i64))
            &&& row_has(p, "sale_amount4"@, T2Item::Int(s.sale_amounts[3] as i64))
            &&& row_has(p, "sale_amount5"@, T2Item::Int(s.sale_amounts[4] as i64))
            &&& row_has(p, "buy_price1"@, T2Item::Int(s.buy_pxs[0] as i64))
            &&& row_has(p, "buy_price2"@, T2Item::Int(s.buy_pxs[1] as i64))
            &&& row_has(p, "buy_price3"@, T2Item::Int(s.buy_pxs[2] as i64))
            &&& row_has(p, "buy_price4"@, T2Item::Int(s.buy_pxs[3] as i64))
            &&& row_has(p, "buy_price5"@, T2Item::Int(s.buy_pxs[4] as i64))
            &&& row_has(p, "buy_amount1"@, T2Item::Int(s.buy_amounts[0] as i64))
            &&& row_has(p, "buy_amount2"@, T2Item::Int(s.buy_amounts[1] as i64))
            &&& row_has(p, "buy_amount3"@, T2Item::Int(s.buy_amounts[2] as i64))
            &&& row_has(p, "buy_amount4"@, T2Item::Int(s.buy_amounts[3] as i64))
            &&& row_has(p, "buy_amount5"@, T2Item::Int(s.buy_amounts[4] as i64))
        }),
{
    let p = stock_packet(s, func_no);
    let f = p.fields;
    let v = p.values;
    assert(f.len() == 44 && v.len() == 44);
    assert(f[16] == "sale_price5"@ && v[16] == T2Item::Int(s.sale_pxs[4] as i64));
    assert(f[17] == "sale_amount5"@ && v[17] == T2Item::Int(s.sale_amounts[4] as i64));
    assert(f[18] == "sale_price4"@ && v[18] == T2Item::Int(s.sale_pxs[3] as i64));
    assert(f[19] == "sale_amount4"@ && v[19] == T2Item::Int(s.sale_amounts[3] as i64));
    assert(f[20] == "sale_price3"@ && v[20] == T2Item::Int(s.sale_pxs[2] as i64));
    assert(f[21] == "sale_amount3"@ && v[21] == T2Item::Int(s.sale_amounts[2] as i64));
    assert(f[22] == "sale_price2"@ && v[22] == T2Item::Int(s.sale_pxs[1] as i64));
    assert(f[23] == "sale_amount2"@ && v[23] == T2Item::Int(s.sale_amounts[1] as i64));
    assert(f[24] == "sale_price1"@ && v[24] == T2Item::Int(s.sale_pxs[0] as i64));
    assert(f[25] == "sale_amount1"@ && v[25] == T2Item::Int(s.sale_amounts[0] as i64));
    assert(f[26] == "buy_price1"@ && v[26] == T2Item::Int(s.buy_pxs[0] as i64));
    assert(f[27] == "buy_amount1"@ && v[27] == T2Item::Int(s.buy_amounts[0] as i64));
    assert(f[28] == "buy_price2"@ && v[28] == T2Item::Int(s.buy_pxs[1] as i64));
    assert(f[29] == "buy_amount2"@ && v[29] == T2Item::Int(s.buy_amounts[1] as i64));
    assert(f[30] == "buy_price3"@ && v[30] == T2Item::Int(s.buy_pxs[2] as i64));
    assert(f[31] == "buy_amount3"@ && v[31] == T2Item::Int(s.buy_amounts[2] as i64));
    assert(f[32] == "buy_price4"@ && v[32] == T2Item::Int(s.buy_pxs[3] as i64));
    assert(f[33] == "buy_amount4"@ && v[33] == T2Item::Int(s.buy_amounts[3] as i64));
    assert(f[34] == "buy_price5"@ && v[34] == T2Item::Int(s.buy_pxs[4] as i64));
    assert(f[35] == "buy_amount5"@ && v[35] == T2Item::Int(s.buy_amounts[4] as i64));
}




/// In a pushed quote row each named field carries its figure of the record: the code (its
/// UTF-8 bytes), type, name (GBK bytes), exchange `2` (Shenzhen), last, open, close, previous
/// close, high and low prices, traded volume (as decimal text, twice) and value, time, minute
/// slot of the time, date, market value, P/E figures, listing date and price and trading
/// status; the turnover ratio and the margin status are sent as 0.
pub proof fn quote_row_fields_by_name(s: StockModel, func_no: i32)
    requires
        stock_wf(s),
    ensures
        ({
            let p = stock_packet(s, func_no);
            &&& p.packet_type == REQUEST && p.function_no == func_no
            &&& row_has(p, "stock_code"@, T2Item::Str(encode_utf8(s.stock_code)))
            &&& row_has(p, "stock_type"@, T2Item::Int(s.stock_type as i64))
            &&& row_has(p, "stock_name"@, T2Item::Str(gb2312_bytes(s.stock_name)))
            &&& row_has(p, "exchange_type"@, T2Item::Char(0x32))
            &&& row_has(p, "last_price"@, T2Item::Int(s.last_px as i64))
            &&& row_has(p, "business_amount"@, T2Item::Str(decimal_text(s.trade_amount as int)))
            &&& row_has(p, "split_amount"@, T2Item::Str(decimal_text(s.trade_amount as int)))
            &&& row_has(p, "business_balance"@, T2Item::Str(decimal_text(s.trade_balance as int)))
            &&& row_has(p, "open_price"@, T2Item::Int(s.open_px as i64))
            &&& row_has(p, "close_price"@, T2Item::Int(s.close_px as i64))
            &&& row_has(p, "pre_close_price"@, T2Item::Int(s.pre_close_px as i64))
            &&& row_has(p, "high_price"@, T2Item::Int(s.high_px as i64))
            &&& row_has(p, "low_price"@, T2Item::Int(s.low_px as i64))
            &&& row_has(p, "record_time"@, T2Item::Int(s.time as i64))
            &&& row_has(p, "line_no"@, T2Item::Int(line_number(s.time as int) as i64))
            &&& row_has(p, "market_date"@, T2Item::Int(s.date as i64))
            &&& row_has(p, "market_value"@, T2Item::Int(s.market_value as i64))
            &&& row_has(p, "turnover_ratio"@, T2Item::Int(0i64))
            &&& row_has(p, "pe_rate"@, T2Item::Int(s.pe_rate as i64))
            &&& row_has(p, "dynamic_pe_rate"@, T2Item::Int(s.dynamic_pe as i64))
            &&& row_has(p, "first_date"@, T2Item::Int(s.first_date as i64))
            &&& row_has(p, "issue_price"@, T2Item::Int(s.first_px as i64))
            &&& row_has(p, "trade_status"@, T2Item::Int(s.trade_status as i64))
            &&& row_has(p, "margin_status"@, T2Item::Int(0i64))
        }),
{
    let p = stock_packet(s, func_no);
    let f = p.fields;
    let v = p.values;
    assert(f.len() == 44 && v.len() == 44);
    assert(f[0] == "stock_code"@ && v[0] == T2Item::Str(encode_utf8(s.stock_code)));
    assert(f[1] == "stock_type"@ && v[1] == T2Item::Int(s.stock_type as i64));
    assert(f[2] == "stock_name"@ && v[2] == T2Item::Str(gb2312_bytes(s.stock_name)));
    assert(f[3] == "exchange_type"@ && v[3] == T2Item::Char(0x32));
    assert(f[4] == "last_price"@ && v[4] == T2Item::Int(s.last_px as i64));
    assert(f[5] == "business_amount"@ && v[5] == T2Item::Str(decimal_text(s.trade_amount as int)));
    assert(f[6] == "split_amount"@ && v[6] == T2Item::Str(decimal_text(s.trade_amount as int)));
    assert(f[7] == "business_balance"@ && v[7] == T2Item::Str(decimal_text(s.trade_balance as int)));
    assert(f[8] == "open_price"@ && v[8] == T2Item::Int(s.open_px as i64));
    assert(f[9] == "close_price"@ && v[9] == T2Item::Int(s.close_px as i64));
    assert(f[10] == "pre_close_price"@ && v[10] == T2Item::Int(s.pre_close_px as i64));
    assert(f[11] == "high_price"@ && v[11] == T2Item::Int(s.high_px as i64));
    assert(f[12] == "low_price"@ && v[12] == T2Item::Int(s.low_px as i64));
    assert(f[13] == "record_time"@ && v[13] == T2Item::Int(s.time as i64));
    assert(f[14] == "line_no"@ && v[14] == T2Item::Int(line_number(s.time as int) as i64));
    assert(f[15] == "market_date"@ && v[15] == T2Item::Int(s.date as i64));
    assert(f[36] == "market_value"@ && v[36] == T2Item::Int(s.market_value as i64));
    assert(f[37] == "turnover_ratio"@ && v[37] == T2Item::Int(0i64));
    assert(f[38] == "pe_rate"@ && v[38] == T2Item::Int(s.pe_rate as i64));
    assert(f[39] == "dynamic_pe_rate"@ && v[39] == T2Item::Int(s.dynamic_pe as i64));
    assert(f[40] == "first_date"@ && v[40] == T2Item::Int(s.first_date as i64));
    assert(f[41] == "issue_price"@ && v[41] == T2Item::Int(s.first_px as i64));
    assert(f[42] == "trade_status"@ && v[42] == T2Item::Int(s.trade_status as i64));
    assert(f[43] == "margin_status"@ && v[43] == T2Item::Int(0i64));
}


/// Announcing a new market date and time sends, as function 2206, a row with the exchange
/// `2`, the date, the time, its minute slot and the market status of that time; when that
/// status differs from the last one announced, a second 2206 row follows that also carries the
/// time under `market_time_old`. Nothing else is sent, and the date, time and status are
/// remembered.
pub proof fn announcement_rows_by_name(c: T2State, date: u32, time: u32)
    requires
        c.date != date || c.time != time,
    ensures
        ({
            let r = time_step(c, date, time);
            let n = c.sent.len() as int;
            let t = r.sent[n];
            let st = market_status(time as int);
            &&& r.sent.len() == n + (if c.market_status == st { 1int } else { 2int })
            &&& r.sent.take(n) == c.sent
            &&& t.packet_type == REQUEST && t.function_no == 2206
            &&& row_has(t, "exchange_type"@, T2Item::Char(0x32))
            &&& row_has(t, "market_date"@, T2Item::Int(date as i64))
            &&& row_has(t, "market_time"@, T2Item::Int(time as i64))
            &&& row_has(t, "line_no"@, T2Item::Int(line_number(time as int) as i64))
            &&& row_has(t, "market_status"@, T2Item::Int(st as i64))
            &&& c.market_status != st ==> {
                let u = r.sent[n + 1];
                &&& u.function_no == 2206
                &&& row_has(u, "market_status"@, T2Item::Int(st as i64))
                &&& row_has(u, "market_time_old"@, T2Item::Int(time as i64))
                &&& row_has(u, "market_date"@, T2Item::Int(date as i64))
            }
            &&& r.date == date && r.time == time && r.market_status == st
        }),
{
    let t = time_packet(date, time);
    assert(t.fields[0] == "exchange_type"@ && t.values[0] == T2Item::Char(0x32));
    assert(t.fields[1] == "market_date"@ && t.values[1] == T2Item::Int(date as i64));
    assert(t.fields[2] == "market_time"@ && t.values[2] == T2Item::Int(time as i64));
    assert(t.fields[3] == "line_no"@ && t.values[3] == T2Item::Int(line_number(time as int) as i64));
    assert(t.fields[4] == "market_status"@ && t.values[4] == T2Item::Int(market_status(time as int) as i64));
    let u = status_packet(date, time);
    assert(u.fields[1] == "market_date"@ && u.values[1] == T2Item::Int(date as i64));
    assert(u.fields[4] == "market_status"@ && u.values[4] == T2Item::Int(market_status(time as int) as i64));
    assert(u.fields[5] == "market_time_old"@ && u.values[5] == T2Item::Int(time as i64));
    let r = time_step(c, date, time);
    let c1 = T2State { sent: c.sent.push(t), date: date, time: time, ..c };
    assert(c1.sent.take(c.sent.len() as int) =~= c.sent);
    if c.market_status != market_status(time as int) {
        assert(r.sent == c1.sent.push(u));
        assert(r.sent.take(c.sent.len() as int) =~= c.sent);
    }
}

} // verus!
