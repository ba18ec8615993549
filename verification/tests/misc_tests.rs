use market_sz::db::{apply_issue_row, apply_quote_row};
use market_sz::dbf::{DbfHead, Record};
use market_sz::pubsub::{publish_frame, Stock};
use market_sz::storage::{bytes_to_u32, line_no_key, to_bytes, u32_to_bytes, KLine, Uri};
use market_sz::t2sdk::StockRecord;
use market_sz::table::StockTable;
use market_sz::xmlhelper::{apply_security, gather_securities, indent, static_file_securities, StaticFileParser};

#[test]
fn blank_dbf_record() {
    let r = Record::new(1153);
    assert_eq!(r._offset, 1153);
    assert_eq!(r._stock_code, "");
    assert_eq!(r._buy_pxs, [0; 5]);
    Record::sync_to_file(&"x".to_string());
}

#[test]
fn dbf_header() {
    let h = DbfHead::new();
    assert_eq!(h._flag, 3);
    assert_eq!(h._offset, 1153);
    assert_eq!(h._record_len, 352);
    assert_eq!(h.get_field_number(), 35);
    let mut raw = [0u8; 32];
    raw[0] = 3;
    raw[1] = 124;
    raw[4..8].copy_from_slice(&(-2i32).to_le_bytes());
    raw[8..10].copy_from_slice(&1153u16.to_le_bytes());
    raw[10..12].copy_from_slice(&352u16.to_le_bytes());
    raw[31] = 9;
    let d = DbfHead::from_bytes(&raw);
    assert_eq!(d._year, 124);
    assert_eq!(d._record_count, -2);
    assert_eq!(d._offset, 1153);
    assert_eq!(d._record_len, 352);
    assert_eq!(d._reserved[19], 9);
    assert_eq!(d.get_field_number(), 35);
}

#[test]
fn indentation() {
    assert_eq!(indent(0), "");
    assert_eq!(indent(2), "        ");
}

fn walk(p: &mut StaticFileParser, t: &mut StockTable, events: &[(&str, &str)]) {
    for (kind, val) in events {
        match *kind {
            "start" => p.start_element(val.to_string()),
            "text" => p.characters(val),
            _ => {
                let milli = (p._pre_close_text.parse::<f32>().unwrap_or(0f32) * 1000f32) as u32;
                p.end_element(val, t, milli)
            }
        }
    }
}

#[test]
fn static_file_walk() {
    let mut p = StaticFileParser::new();
    let mut t = StockTable::new();
    walk(&mut p, &mut t, &[
        ("start", "SecurityList"),
        ("start", "Security"),
        ("start", "SecurityID"),
        ("text", " 000001 "),
        ("end", "SecurityID"),
        ("start", "Symbol"),
        ("text", "PAYH"),
        ("end", "Symbol"),
        ("start", "PrevClosePx"),
        ("text", "10.5"),
        ("end", "PrevClosePx"),
        ("start", "SecurityStatus"),
        ("start", "Status"),
        ("text", "1"),
        ("end", "Status"),
        ("end", "SecurityStatus"),
        ("end", "Security"),
    ]);
    let s = t.get("000001").unwrap();
    assert_eq!(s._stock_name, "PAYH");
    assert_eq!(s._pre_close_px, 10500);
    assert_eq!(s._trade_status, 9);
    assert_eq!(p._code, "");
    assert_eq!(p._stock_status, 0);
    assert_eq!(p._depth, 1);
}

#[test]
fn static_file_texts_are_trimmed() {
    let mut p = StaticFileParser::new();
    let mut t = StockTable::new();
    walk(&mut p, &mut t, &[
        ("start", "SecurityList"),
        ("start", "Security"),
        ("start", "SecurityID"),
        ("text", "  000002 \t\n"),
        ("end", "SecurityID"),
        ("start", "Symbol"),
        ("text", "\u{3000}a b\u{a0}"),
        ("end", "Symbol"),
    ]);
    assert_eq!(p._code, "000002");
    assert_eq!(p._symbol, "a b");
    walk(&mut p, &mut t, &[("start", "Symbol"), ("text", ""), ("end", "Symbol")]);
    assert_eq!(p._symbol, "");
}

#[test]
fn database_rows() {
    let mut t = StockTable::new();
    apply_issue_row(&mut t, "000001", 40000, 1991, 4, 3);
    let s = t.get("000001").unwrap();
    assert_eq!(s._first_date, 19910403);
    assert_eq!(s._first_px, 40000);
    apply_quote_row(&mut t, "000001", "PAYH", "19405918198", Some("x"), Some(1500), None);
    let s = t.get("000001").unwrap();
    assert_eq!(s._stock_name, "PAYH");
    assert_eq!(s._total_shares, 19405918198);
    assert_eq!(s._nonstrict_shares, 0);
    assert_eq!(s._pe_rate, 1500);
    assert_eq!(s._dynamic_pe, 0);
    assert_eq!(s._first_date, 19910403);
    assert_eq!(t.len(), 1);
}

#[test]
fn table_entries() {
    let mut t = StockTable::new();
    assert!(t.find("a").is_none());
    t.entry("a".to_string())._last_px = 5;
    t.entry("b".to_string())._last_px = 6;
    t.entry("a".to_string())._open_px = 7;
    assert_eq!(t.len(), 2);
    assert_eq!(t.find("b"), Some(1));
    assert_eq!(t.code_at(0), "a");
    assert_eq!(t.record_at(0)._last_px, 5);
    assert_eq!(t.record_at(0)._open_px, 7);
    assert!(t.get("c").is_none());
    let d = StockRecord::default();
    assert_eq!(d._stock_type, 0);
}

#[test]
fn published_frames() {
    assert_eq!(publish_frame("x3", b"hello"), b"x3hello".to_vec());
    assert_eq!(publish_frame("", b""), Vec::<u8>::new());
    assert!(Stock::from(b"anything").is_none());
}

#[test]
fn storage_keys_and_values() {
    assert_eq!(bytes_to_u32(&[0, 0, 1, 0]), 256);
    assert_eq!(bytes_to_u32(&[1, 2, 3]), 0);
    assert_eq!(u32_to_bytes(0x01020304), [1, 2, 3, 4]);
    for v in [0u32, 1, 255, 65536, u32::MAX] {
        assert_eq!(bytes_to_u32(&u32_to_bytes(v)), v);
    }
    assert_eq!(to_bytes(&0x01020304), 0x01020304u32.to_ne_bytes());
    let mut k = KLine::default();
    k._close_price = 7;
    let bytes = k.as_bytes();
    assert_eq!(bytes.len(), 40);
    assert_eq!(&bytes[28..32], &7u32.to_ne_bytes());
    let u = line_no_key(2, &"000333".to_string());
    let ub = u.as_bytes();
    assert_eq!(ub.len(), 14);
    assert_eq!(&ub[0..4], &2u32.to_ne_bytes());
    assert_eq!(&ub[4..10], b"000333");
    let d = Uri::default();
    assert_eq!(d.as_bytes().len(), 8);
}

const STATIC_FILE: &str = "<?xml version=\"1.0\" encoding=\"UTF-8\"?>
<SecurityList>
  <Security>
    <SecurityID> 000001 </SecurityID>
    <Symbol>PAYH</Symbol>
    <PrevClosePx>10.5</PrevClosePx>
    <SecurityStatus><Status>1</Status></SecurityStatus>
  </Security>
  <!-- a comment -->
  <Security>
    <SecurityID>000002</SecurityID>
    <Symbol>WK A</Symbol>
    <PrevClosePx>20.25</PrevClosePx>
  </Security>
</SecurityList>";

#[test]
fn static_file_securities_of_a_document() {
    let v = static_file_securities(STATIC_FILE.as_bytes()).unwrap();
    assert_eq!(
        v,
        vec![
            ("000001".to_string(), "PAYH".to_string(), "10.5".to_string(), 1),
            ("000002".to_string(), "WK A".to_string(), "20.25".to_string(), 0),
        ]
    );
}

#[test]
fn static_file_stops_at_a_parse_error() {
    let doc = "<SecurityList><Security><SecurityID>000003</SecurityID></Security><Security><Symbol>x</Sym";
    let v = static_file_securities(doc.as_bytes()).unwrap();
    assert_eq!(v, vec![("000003".to_string(), "".to_string(), "".to_string(), 0)]);
    assert_eq!(static_file_securities(b"").unwrap(), vec![]);
}

#[test]
fn gathering_securities_from_events() {
    let ev: Vec<(u8, String)> = vec![
        (0, "SecurityList".into()),
        (0, "Security".into()),
        (0, "SecurityID".into()),
        (1, " 000009\n".into()),
        (2, "SecurityID".into()),
        (3, "".into()),
        (0, "SecurityStatus".into()),
        (1, "1".into()),
        (2, "SecurityStatus".into()),
        (2, "Security".into()),
        (2, "Security".into()),
    ];
    assert_eq!(gather_securities(&ev), vec![("000009".to_string(), "".to_string(), "".to_string(), 1)]);
}

#[test]
fn applying_a_security() {
    let mut t = StockTable::new();
    t.entry("000001".to_string())._last_px = 5;
    apply_security(&mut t, "000001", "PAYH", 10500, 1);
    apply_security(&mut t, "000002", "WK", 20250, 0);
    let s = t.get("000001").unwrap();
    assert_eq!((s._stock_name.as_str(), s._pre_close_px, s._trade_status, s._last_px), ("PAYH", 10500, 9, 5));
    let s = t.get("000002").unwrap();
    assert_eq!((s._stock_code.as_str(), s._pre_close_px, s._trade_status), ("000002", 20250, 0));
}
