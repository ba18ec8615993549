use market_sz::interoper::{T2Context, T2Message, T2Value, REQUEST};
use market_sz::market::{check_message, in_pre_open_window, Context, Snapshot, StockReport};
use market_sz::t2sdk::{
    get_market_status, push_debt, push_fund, push_index, push_market_datetime, push_market_status,
    push_market_time, push_stock, push_stock_status, StockRecord,
};
use market_sz::table::StockTable;

fn header(time: i64, code: &[u8; 6], phase: &[u8; 8], prev_close: i64, vol: i64, value: i64, count: u32) -> Vec<u8> {
    let mut b = vec![];
    b.extend_from_slice(&time.to_be_bytes());
    b.extend_from_slice(&7u16.to_be_bytes());
    b.extend_from_slice(b"010");
    b.extend_from_slice(code);
    b.extend_from_slice(b"  ");
    b.extend_from_slice(b"102 ");
    b.extend_from_slice(phase);
    b.extend_from_slice(&prev_close.to_be_bytes());
    b.extend_from_slice(&42i64.to_be_bytes());
    b.extend_from_slice(&vol.to_be_bytes());
    b.extend_from_slice(&value.to_be_bytes());
    b.extend_from_slice(&count.to_be_bytes());
    assert_eq!(b.len(), 69);
    b
}

fn stock_entry(b: &mut Vec<u8>, ty: &[u8; 2], px: i64, size: i64, level: u16, qty: &[i64]) {
    b.extend_from_slice(ty);
    b.extend_from_slice(&px.to_be_bytes());
    b.extend_from_slice(&size.to_be_bytes());
    b.extend_from_slice(&level.to_be_bytes());
    b.extend_from_slice(&(qty.len() as i64).to_be_bytes());
    b.extend_from_slice(&(qty.len() as u32).to_be_bytes());
    for q in qty {
        b.extend_from_slice(&q.to_be_bytes());
    }
}

fn int_at(m: &T2Message, i: usize) -> i64 {
    match &m._values[i] {
        T2Value::Int(v) => *v,
        _ => panic!("not an int"),
    }
}

fn str_at(m: &T2Message, i: usize) -> Vec<u8> {
    match &m._values[i] {
        T2Value::Str(v) => v.clone(),
        _ => panic!("not a string"),
    }
}

fn new_context() -> Context {
    Context::with_tables(StockTable::new(), StockTable::new())
}

#[test]
fn market_status_by_time() {
    assert_eq!(get_market_status(85800), 1);
    assert_eq!(get_market_status(91459), 1);
    assert_eq!(get_market_status(91500), 2);
    assert_eq!(get_market_status(92500), 2);
    assert_eq!(get_market_status(92501), 3);
    assert_eq!(get_market_status(93000), 4);
    assert_eq!(get_market_status(113000), 5);
    assert_eq!(get_market_status(126000), 6);
    assert_eq!(get_market_status(130000), 4);
    assert_eq!(get_market_status(145700), 4);
    assert_eq!(get_market_status(145701), 8);
    assert_eq!(get_market_status(150000), 8);
    assert_eq!(get_market_status(150001), 6);
    assert_eq!(get_market_status(0), 6);
}

#[test]
fn market_time_is_announced_once() {
    let mut ctx = T2Context::new();
    push_market_time(&mut ctx, 20240105, 93000).unwrap();
    assert_eq!(ctx._outbox.len(), 2);
    let m = &ctx._outbox[0];
    assert_eq!(m._packet_type, REQUEST);
    assert_eq!(m._function_no, 2206);
    assert_eq!(m._fields, vec!["exchange_type", "market_date", "market_time", "line_no", "market_status"]);
    assert_eq!(int_at(m, 1), 20240105);
    assert_eq!(int_at(m, 2), 93000);
    assert_eq!(int_at(m, 4), 4);
    assert_eq!(ctx._outbox[1]._fields.len(), 6);
    assert_eq!(ctx._market_status, 4);
    push_market_time(&mut ctx, 20240105, 93000).unwrap();
    assert_eq!(ctx._outbox.len(), 2);
    push_market_time(&mut ctx, 20240105, 93001).unwrap();
    assert_eq!(ctx._outbox.len(), 3);
    let sent = ctx.take_outbox();
    assert_eq!(sent.len(), 3);
    assert_eq!(ctx._outbox.len(), 0);
    assert_eq!(ctx._time, 93001);
}

#[test]
fn market_status_changes_only() {
    let mut ctx = T2Context::new();
    push_market_status(&mut ctx, 20240105, 91600, 2).unwrap();
    assert_eq!(ctx._outbox.len(), 1);
    assert_eq!(int_at(&ctx._outbox[0], 4), 2);
    assert_eq!(int_at(&ctx._outbox[0], 5), 91600);
    push_market_status(&mut ctx, 20240105, 91700, 2).unwrap();
    assert_eq!(ctx._outbox.len(), 1);
    push_stock_status(&mut ctx, "000001", 1, 91700).unwrap();
    assert_eq!(ctx._outbox.len(), 1);
}

#[test]
fn datetime_stamp_is_split() {
    let mut ctx = T2Context::new();
    push_market_datetime(&mut ctx, 20240105093000123).unwrap();
    assert_eq!(ctx._date, 20240105);
    assert_eq!(ctx._time, 93000);
}

#[test]
fn quote_row_layout() {
    let mut s = StockRecord::default();
    s._stock_code = "000001".to_string();
    s._stock_name = "\u{4e2d}A".to_string();
    s._trade_amount = -5;
    s._sale_pxs = [1, 2, 3, 4, 5];
    s._buy_amounts = [6, 7, 8, 9, 10];
    s._time = 130000;
    let mut ctx = T2Context::new();
    push_stock(&mut ctx, &s).unwrap();
    push_debt(&mut ctx, &s).unwrap();
    push_fund(&mut ctx, &s).unwrap();
    push_index(&mut ctx, &s).unwrap();
    let funcs: Vec<i32> = ctx._outbox.iter().map(|m| m._function_no).collect();
    assert_eq!(funcs, vec![2202, 2202, 2205, 2203]);
    let m = &ctx._outbox[0];
    assert_eq!(m._fields.len(), 44);
    assert_eq!(m._values.len(), 44);
    assert_eq!(m._fields[0], "stock_code");
    assert_eq!(m._fields[16], "sale_price5");
    assert_eq!(m._fields[43], "margin_status");
    assert_eq!(str_at(m, 0), b"000001".to_vec());
    assert_eq!(str_at(m, 2), vec![0xd6, 0xd0, b'A']);
    assert!(matches!(m._values[3], T2Value::Char(b'2')));
    assert_eq!(str_at(m, 5), b"-5".to_vec());
    assert_eq!(int_at(m, 14), 121);
    assert_eq!(int_at(m, 16), 5);
    assert_eq!(int_at(m, 24), 1);
    assert_eq!(int_at(m, 27), 6);
    assert_eq!(int_at(m, 35), 10);
}

#[test]
fn stock_snapshot_updates_record_and_pushes() {
    let mut ctx = new_context();
    let mut b = header(20240105093000123, b"000001", b"T0      ", 102300, 123400, 5000000, 2);
    stock_entry(&mut b, b"0 ", 10500000, 30000, 1, &[100]);
    stock_entry(&mut b, b"2 ", 10600000, 0, 0, &[]);
    assert!(check_message(300111, &b));
    assert!(!check_message(300111, &b[..b.len() - 1]));
    let reply = ctx.handle_message(300111, &b).unwrap();
    assert!(reply.is_none());
    let s = ctx._stocks.get("000001").unwrap();
    assert_eq!(s._stock_code, "000001");
    assert_eq!(s._date, 20240105);
    assert_eq!(s._time, 93000);
    assert_eq!(s._trade_status, 4);
    assert_eq!(s._line_no, 0);
    assert_eq!(s._pre_close_px, 10230);
    assert_eq!(s._trade_amount, 1234);
    assert_eq!(s._trade_balance, 500000);
    assert_eq!(s._buy_pxs[0], 10500);
    assert_eq!(s._buy_amounts[0], 300);
    assert_eq!(s._last_px, 10600);
    assert_eq!(s._stock_type, 1);
    assert_eq!(ctx._t2ctx._outbox.len(), 3);
    assert_eq!(ctx._t2ctx._outbox[2]._function_no, 2202);
}

#[test]
fn bond_and_fund_snapshots_are_typed() {
    let mut ctx = new_context();
    let b = header(20240105091400000, b"112233", b"S0      ", 1000, 0, 0, 0);
    ctx.handle_stock_snapshot(&b).unwrap();
    assert_eq!(ctx._stocks.get("112233").unwrap()._stock_type, 4);
    let before = ctx._t2ctx._outbox.len();
    let f = header(20240105091500000, b"150001", b"T0      ", 1000, 0, 0, 0);
    ctx.handle_stock_snapshot(&f).unwrap();
    assert_eq!(ctx._stocks.get("150001").unwrap()._stock_type, 3);
    assert_eq!(ctx._t2ctx._outbox.last().unwrap()._function_no, 2205);
    assert!(ctx._t2ctx._outbox.len() > before);
}

#[test]
fn turnover_and_market_value() {
    let mut ctx = new_context();
    {
        let s = ctx._stocks.entry("000002".to_string());
        s._nonstrict_shares = 1000000;
        s._total_shares = 2000000;
    }
    let mut b = header(20240105100000000, b"000002", b"T0      ", 0, 500000, 0, 1);
    stock_entry(&mut b, b"3 ", 20000000, 0, 0, &[]);
    ctx.handle_stock_snapshot(&b).unwrap();
    let s = ctx._stocks.get("000002").unwrap();
    assert_eq!(s._trade_amount, 5000);
    assert_eq!(s._change_rate, 50);
    assert_eq!(s._last_px, 20000);
    assert_eq!(s._market_value, 40000000);
}

#[test]
fn index_snapshot_uses_volume_statistics() {
    let mut ctx = new_context();
    let v = header(20240105100000000, b"395099", b"T0      ", 0, 1230000, 4560, 0);
    assert!(check_message(309111, &v));
    ctx.handle_message(309111, &v).unwrap();
    let st = ctx._index_statics.get("395099").unwrap();
    assert_eq!(st._trade_amount, 123);
    assert_eq!(st._trade_balance, 456);
    let mut b = header(20240105100000000, b"399001", b"T0      ", 100000, 999, 999, 2);
    b.extend_from_slice(b"xa");
    b.extend_from_slice(&12345678i64.to_be_bytes());
    b.extend_from_slice(b"7 ");
    b.extend_from_slice(&13000000i64.to_be_bytes());
    assert!(check_message(309011, &b));
    ctx.handle_message(309011, &b).unwrap();
    let s = ctx._stocks.get("399001").unwrap();
    assert_eq!(s._trade_amount, 123);
    assert_eq!(s._trade_balance, 456);
    assert_eq!(s._pre_close_px, 12346);
    assert_eq!(s._high_px, 13000);
    assert_eq!(s._stock_type, 2);
    assert_eq!(ctx._t2ctx._outbox.last().unwrap()._function_no, 2203);
}

#[test]
fn realtime_status_sets_margin_bits() {
    let mut ctx = new_context();
    let mut b = vec![];
    b.extend_from_slice(&20240105093000000i64.to_be_bytes());
    b.extend_from_slice(&1u16.to_be_bytes());
    b.extend_from_slice(b"000003  ");
    b.extend_from_slice(b"102 ");
    b.extend_from_slice(b"        ");
    b.extend_from_slice(&2u32.to_be_bytes());
    for (t, st) in [(1u16, 1u16), (2, 1)] {
        b.extend_from_slice(&t.to_be_bytes());
        b.extend_from_slice(&st.to_be_bytes());
    }
    assert!(check_message(390013, &b));
    assert!(!check_message(390013, &b[..b.len() - 2]));
    ctx.handle_message(390013, &b).unwrap();
    assert_eq!(ctx._stocks.get("000003").unwrap()._margin_status, 3);
    assert_eq!(ctx._t2ctx._time, 93000);
}

#[test]
fn stock_report_announces_time_only() {
    let mut ctx = new_context();
    let mut b = vec![];
    b.extend_from_slice(&20240105094500000i64.to_be_bytes());
    b.extend_from_slice(&1u16.to_be_bytes());
    b.extend_from_slice(b"news0001");
    let mut head = b"headline".to_vec();
    head.resize(128, b' ');
    b.extend_from_slice(&head);
    b.extend_from_slice(b"txt     ");
    b.extend_from_slice(&3u32.to_be_bytes());
    b.extend_from_slice(b"abc");
    assert!(check_message(390012, &b));
    assert!(!check_message(390012, &b[..b.len() - 1]));
    let r = StockReport::parse(&b);
    assert_eq!(r._raw_data, b"abc".to_vec());
    assert_eq!(r._head_line.trim_end(), "headline");
    ctx.handle_message(390012, &b).unwrap();
    assert_eq!(ctx._t2ctx._time, 94500);
    assert_eq!(ctx._stocks.len(), 0);
}

#[test]
fn stock_report_with_a_headline_that_is_not_utf8() {
    let mut b = vec![];
    b.extend_from_slice(&20240105094500000i64.to_be_bytes());
    b.extend_from_slice(&1u16.to_be_bytes());
    b.extend_from_slice(b"news0002");
    let mut head = vec![0xffu8, 0xfe];
    head.resize(128, b' ');
    b.extend_from_slice(&head);
    b.extend_from_slice(b"pdf     ");
    b.extend_from_slice(&0u32.to_be_bytes());
    let r = StockReport::parse(&b);
    assert_eq!(r._head_line, "");
    assert_eq!(r._news_id, b"news0002".to_vec());
    assert_eq!(r._raw_data_length, 0);
    assert!(r._raw_data.is_empty());
}

#[test]
fn heartbeat_and_other_messages() {
    let mut ctx = new_context();
    let r = ctx.handle_message(3, &[]).unwrap();
    assert_eq!(r, Some(vec![0, 0, 0, 3, 0, 0, 0, 0, 0, 0, 0, 3]));
    assert_eq!(ctx.handle_message(390095, &[1, 2]).unwrap(), None);
    assert_eq!(ctx.handle_message(300611, &[]).unwrap(), None);
    assert_eq!(ctx._t2ctx._outbox.len(), 0);
    ctx.handle_message(390093, &[]).unwrap();
    assert_eq!(ctx._t2ctx._date, 0);
    assert_eq!(ctx._t2ctx._time, 0);
    assert_eq!(ctx._t2ctx._outbox.len(), 0);
}

#[test]
fn pre_open_plan_and_push() {
    let mut ctx = new_context();
    let p = ctx.plan_market_init(20240105, 84500);
    assert!(!p._sync_static && !p._push_all);
    ctx.set_market_clock(20240105, 84500);
    let p = ctx.plan_market_init(20240105, 85100);
    assert!(p._sync_static && !p._push_all);
    ctx.set_market_clock(20240105, 85100);
    let p = ctx.plan_market_init(20240105, 90000);
    assert!(!p._sync_static && p._push_all);
    let p = ctx.plan_market_init(20240106, 90000);
    assert!(!p._sync_static && !p._push_all);
    for (code, ty) in [("000001", 1u32), ("399001", 2), ("150001", 3), ("112233", 4), ("999999", 0)] {
        ctx._stocks.entry(code.to_string())._stock_type = ty;
    }
    ctx.push_market_init(20240105, 90000).unwrap();
    let funcs: Vec<i32> = ctx._t2ctx._outbox.iter().map(|m| m._function_no).collect();
    assert_eq!(funcs, vec![2202, 2203, 2205, 2202, 2206]);
    assert_eq!(ctx._t2ctx._market_status, 2);
}

#[test]
fn pre_open_steps_are_not_repeated() {
    let mut ctx = new_context();
    ctx.set_market_clock(20240105, 84000);
    assert!(ctx.plan_market_init(20240105, 85500)._sync_static);
    ctx.set_market_clock(20240105, 85500);
    assert!(!ctx.plan_market_init(20240105, 85600)._sync_static);
    assert!(ctx.plan_market_init(20240105, 90100)._push_all);
    ctx.set_market_clock(20240105, 90100);
    let p = ctx.plan_market_init(20240105, 90200);
    assert!(!p._sync_static && !p._push_all);
}

#[test]
fn undispatched_messages_leave_the_context() {
    let mut ctx = new_context();
    ctx._stocks.entry("000001".to_string())._last_px = 7;
    for t in [390095u32, 390094, 390090, 390019, 300611, 12345] {
        assert!(check_message(t, &[1, 2, 3]));
        assert_eq!(ctx.handle_message(t, &[1, 2, 3]).unwrap(), None);
    }
    assert_eq!(ctx._stocks.len(), 1);
    assert_eq!(ctx._stocks.get("000001").unwrap()._last_px, 7);
    assert_eq!(ctx._index_statics.len(), 0);
    assert_eq!(ctx._t2ctx._outbox.len(), 0);
    assert_eq!(ctx._t2ctx._date, 0);
}

#[test]
fn snapshot_header_decodes() {
    let b = header(20240105093000123, b"000001", b"T0      ", 102300, 123400, 5000000, 0);
    let s = Snapshot::parse(&b);
    assert_eq!(s._orig_time, 20240105093000123);
    assert_eq!(s._channel_no, 7);
    assert_eq!(&s._security_id, b"000001  ");
    assert_eq!(s._num_trades, 42);
    assert_eq!(s._total_value_trade, 5000000);
}

#[test]
fn pre_open_window() {
    assert!(!in_pre_open_window(839));
    assert!(in_pre_open_window(840));
    assert!(in_pre_open_window(905));
    assert!(!in_pre_open_window(906));
}
