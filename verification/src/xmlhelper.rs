use vstd::prelude::*;
use vstd::utf8::*;
use crate::t2sdk::{stock_wf, StockModel, StockRecord};
use crate::table::{lookup_or_default, table_wf, upsert, upsert_then_lookup, StockTable, TableModel};
use crate::utils::{parse_u32, parsed_u32, push_str, str_eq, trim_owned, trimmed};
use xml::reader::{EventReader, XmlEvent};

verus! {

/// `n` copies of the four-space indentation unit.
pub open spec fn indentation(n: nat) -> Seq<char>
    decreases n,
{
    if n == 0 {
        seq![]
    } else {
        indentation((n - 1) as nat) + "    "@
    }
}

/// Indentation of `size` levels, four spaces each.
pub fn indent(size: usize) -> (r: String)
    ensures
        r@ == indentation(size as nat),
{
    let mut r = String::new();
    let mut i: usize = 0;
    while i < size
        invariant
            i <= size,
            r@ == indentation(i as nat),
        decreases size - i,
    {
        push_str(&mut r, "    ");
        i = i + 1;
    }
    r
}

/// State of a walk through the elements of a static security file: element depth, the
/// element name last opened at depth 3 or 4, and the fields gathered for the current security
/// (code, symbol, previous close text and status).
pub struct StaticFileParser {
    pub _depth: i32,
    pub _parent_name: String,
    pub _code: String,
    pub _symbol: String,
    pub _pre_close_text: String,
    pub _stock_status: u32,
}

/// Mathematical form of the walk state.
pub struct ParserModel {
    pub depth: i32,
    pub parent: Seq<char>,
    pub code: Seq<char>,
    pub symbol: Seq<char>,
    pub pre_close: Seq<char>,
    pub status: u32,
}

impl View for StaticFileParser {
    type V = ParserModel;

    open spec fn view(&self) -> ParserModel {
        ParserModel {
            depth: self._depth,
            parent: self._parent_name@,
            code: self._code@,
            symbol: self._symbol@,
            pre_close: self._pre_close_text@,
            status: self._stock_status,
        }
    }
}

/// Effect of an opening element: one level deeper; at depth 3 or 4 its name is remembered.
pub open spec fn start_element_step(p: ParserModel, name: Seq<char>) -> ParserModel {
    let d = (p.depth + 1) as i32;
    if d == 3 || d == 4 {
        ParserModel { depth: d, parent: name, ..p }
    } else {
        ParserModel { depth: d, ..p }
    }
}

/// Effect of character data: at depth 3 under `SecurityID` or `Symbol` the trimmed text is the
/// code or the symbol, under `PrevClosePx` the text is the previous close, under
/// `SecurityStatus` (or at depth 4 under `Status`) its number, 0 if not a number, is the status.
pub open spec fn text_step(p: ParserModel, text: Seq<char>) -> ParserModel {
    let status = match parsed_u32(encode_utf8(text)) {
        Some(v) => v,
        None => 0u32,
    };
    if p.depth == 3 {
        if p.parent == "SecurityID"@ {
            ParserModel { code: trimmed(text), ..p }
        } else if p.parent == "Symbol"@ {
            ParserModel { symbol: trimmed(text), ..p }
        } else if p.parent == "PrevClosePx"@ {
            ParserModel { pre_close: text, ..p }
        } else if p.parent == "SecurityStatus"@ {
            ParserModel { status: status, ..p }
        } else {
            p
        }
    } else if p.depth == 4 {
        if p.parent == "Status"@ {
            ParserModel { status: status, ..p }
        } else {
            p
        }
    } else {
        p
    }
}

/// The record of a finished security: code, symbol and previous close (thousandths) set; a
/// status of 1 (suspended) marks the trading status 9.
pub open spec fn security_record(s: StockModel, p: ParserModel, pre_close_milli: u32) -> StockModel {
    security_fields(s, p.code, p.symbol, pre_close_milli, p.status)
}

/// A record given the code, symbol, previous close (thousandths) and status of a security
/// from the static file; a status of 1 (suspended) marks the trading status 9.
pub open spec fn security_fields(s: StockModel, code: Seq<char>, symbol: Seq<char>, pre_close_milli: u32, status: u32) -> StockModel {
    let s1 = StockModel { stock_code: code, stock_name: symbol, pre_close_px: pre_close_milli, ..s };
    if status == 1 {
        StockModel { trade_status: 9, ..s1 }
    } else {
        s1
    }
}

/// Whether a closing element ends a security: back at depth 1, the element is `Security`.
pub open spec fn ends_security(p: ParserModel, name: Seq<char>) -> bool {
    p.depth - 1 == 1 && name == "Security"@
}

/// Effect of a closing element on the walk state: one level up; a finished security clears
/// the gathered fields.
pub open spec fn end_element_step(p: ParserModel, name: Seq<char>) -> ParserModel {
    let d = (p.depth - 1) as i32;
    if ends_security(p, name) {
        ParserModel { depth: d, code: seq![], symbol: seq![], pre_close: seq![], status: 0, ..p }
    } else {
        ParserModel { depth: d, ..p }
    }
}

/// Effect of a closing element on the stock table: a finished security stores its record.
pub open spec fn end_element_table(t: TableModel, p: ParserModel, name: Seq<char>, pre_close_milli: u32) -> TableModel {
    if ends_security(p, name) {
        upsert(t, p.code, security_record(lookup_or_default(t, p.code), p, pre_close_milli))
    } else {
        t
    }
}

impl StaticFileParser {
    /// The state before the first element.
    pub fn new() -> (p: StaticFileParser)
        ensures
            p@ == (ParserModel { depth: 0, parent: seq![], code: seq![], symbol: seq![], pre_close: seq![], status: 0 }),
    {
        StaticFileParser {
            _depth: 0,
            _parent_name: String::new(),
            _code: String::new(),
            _symbol: String::new(),
            _pre_close_text: String::new(),
            _stock_status: 0,
        }
    }

    /// An element `name` opens.
    pub fn start_element(&mut self, name: String)
        requires
            old(self)._depth < i32::MAX,
        ensures
            final(self)@ == start_element_step(old(self)@, name@),
    {
        self._depth = self._depth + 1;
        if self._depth == 3 || self._depth == 4 {
            self._parent_name = name;
        }
    }

    /// Character data `text` arrives.
    pub fn characters(&mut self, text: &str)
        ensures
            final(self)@ == text_step(old(self)@, text@),
    {
        let parent = self._parent_name.as_str();
        if self._depth == 3 {
            if str_eq(parent, "SecurityID") {
                self._code = trim_owned(text);
            } else if str_eq(parent, "Symbol") {
                self._symbol = trim_owned(text);
            } else if str_eq(parent, "PrevClosePx") {
                self._pre_close_text = text.to_owned();
            } else if str_eq(parent, "SecurityStatus") {
                self._stock_status = match parse_u32(text) {
                    Some(v) => v,
                    None => 0,
                };
            }
        } else if self._depth == 4 {
            if str_eq(parent, "Status") {
                self._stock_status = match parse_u32(text) {
                    Some(v) => v,
                    None => 0,
                };
            }
        }
    }

    /// An element `name` closes; gives the code, symbol, previous close text and status of the
    /// security it finishes, if it finishes one.
    pub fn close_element(&mut self, name: &str) -> (r: Option<(String, String, String, u32)>)
        requires
            old(self)._depth > i32::MIN,
        ensures
            final(self)@ == end_element_step(old(self)@, name@),
            r is Some <==> ends_security(old(self)@, name@),
            r matches Some(t) ==> t.0@ == old(self)@.code && t.1@ == old(self)@.symbol && t.2@
                == old(self)@.pre_close && t.3 == old(self)@.status,
    {
        self._depth = self._depth - 1;
        if self._depth == 1 && str_eq(name, "Security") {
            let t = (self._code.clone(), self._symbol.clone(), self._pre_close_text.clone(), self._stock_status);
            self._code = String::new();
            self._symbol = String::new();
            self._pre_close_text = String::new();
            self._stock_status = 0;
            Some(t)
        } else {
            None
        }
    }

    /// An element `name` closes; a finished security is stored in `stocks` with the previous
    /// close `pre_close_milli` (thousandths, from the gathered text).
    pub fn end_element(&mut self, name: &str, stocks: &mut StockTable, pre_close_milli: u32)
        requires
            old(self)._depth > i32::MIN,
            table_wf(old(stocks)@),
        ensures
            final(self)@ == end_element_step(old(self)@, name@),
            final(stocks)@ == end_element_table(old(stocks)@, old(self)@, name@, pre_close_milli),
            table_wf(final(stocks)@),
    {
        match self.close_element(name) {
            Some(t) => {
                apply_security(stocks, t.0.as_str(), t.1.as_str(), pre_close_milli, t.3);
            },
            None => {},
        }
    }
}

/// Stores a security of a static file in `stocks`: code, symbol, previous close in thousandths
/// and status (1 marks the trading status 9).
pub fn apply_security(stocks: &mut StockTable, code: &str, symbol: &str, pre_close_milli: u32, status: u32)
    requires
        table_wf(old(stocks)@),
    ensures
        table_wf(final(stocks)@),
        final(stocks)@ == upsert(
            old(stocks)@,
            code@,
            security_fields(lookup_or_default(old(stocks)@, code@), code@, symbol@, pre_close_milli, status),
        ),
{
    let ghost before = stocks@;
    let value = stocks.entry(code.to_owned());
    value._stock_code = code.to_owned();
    value._stock_name = symbol.to_owned();
    value._pre_close_px = pre_close_milli;
    if status == 1 {
        value._trade_status = 9;
    }
    proof {
        upsert_then_lookup(before, code@, final(value)@, code@);
    }
}

/// Events of an XML document, in order, up to its end or its first parse error. Each is a kind
/// and a text: 0 an element opens (its local name), 1 character data (the text), 2 an element
/// closes (its local name), 3 any other event (declaration, comment, CDATA, white space; no text).
pub uninterp spec fn xml_events(doc: Seq<u8>) -> Seq<(u8, Seq<char>)>;

/// Events with their texts as character sequences.
pub open spec fn events_view(ev: Seq<(u8, String)>) -> Seq<(u8, Seq<char>)> {
    ev.map_values(|e: (u8, String)| (e.0, e.1@))
}

/// The events that `xml::reader::EventReader` reads from `doc`, each told apart by its variant.
/// Claimed: the outcome is `xml_events(doc)`, a function of the bytes alone; what the events are
/// takes the XML specification to say, so it is left to the name.
#[verifier::external_body]
fn read_xml_events(doc: &[u8]) -> (r: Vec<(u8, String)>)
    ensures
        events_view(r@) == xml_events(doc@),
{
    let mut r = Vec::new();
    for e in EventReader::new(doc) {
        let ev = match e {
            Ok(XmlEvent::StartElement { name, .. }) => (0, name.local_name),
            Ok(XmlEvent::Characters(text)) => (1, text),
            Ok(XmlEvent::EndElement { name }) => (2, name.local_name),
            Ok(_) => (3, String::new()),
            Err(_) => break,
        };
        r.push(ev);
    }
    r
}

/// A gathered security: code, symbol, previous close text and status.
pub open spec fn securities_view(v: Seq<(String, String, String, u32)>) -> Seq<(Seq<char>, Seq<char>, Seq<char>, u32)> {
    v.map_values(|t: (String, String, String, u32)| (t.0@, t.1@, t.2@, t.3))
}

/// The walk state before the first event.
pub open spec fn initial_walk() -> ParserModel {
    ParserModel { depth: 0, parent: seq![], code: seq![], symbol: seq![], pre_close: seq![], status: 0 }
}

/// Walk state after the events `ev`, and the securities they completed, in order: each
/// security's code, symbol, previous close text and status when its `Security` element closes.
pub open spec fn walk_events(ev: Seq<(u8, Seq<char>)>) -> (ParserModel, Seq<(Seq<char>, Seq<char>, Seq<char>, u32)>)
    decreases ev.len(),
{
    if ev.len() == 0 {
        (initial_walk(), seq![])
    } else {
        let w = walk_events(ev.drop_last());
        let p = w.0;
        let e = ev.last();
        if e.0 == 0 {
            (start_element_step(p, e.1), w.1)
        } else if e.0 == 1 {
            (text_step(p, e.1), w.1)
        } else if e.0 == 2 {
            (
                end_element_step(p, e.1),
                if ends_security(p, e.1) { w.1.push((p.code, p.symbol, p.pre_close, p.status)) } else { w.1 },
            )
        } else {
            w
        }
    }
}

/// The securities a static file's events complete, in document order.
pub open spec fn securities_of(ev: Seq<(u8, Seq<char>)>) -> Seq<(Seq<char>, Seq<char>, Seq<char>, u32)> {
    walk_events(ev).1
}

/// After `n` events the element depth lies within `-n..=n`.
proof fn lemma_walk_depth(ev: Seq<(u8, Seq<char>)>)
    requires
        ev.len() < 0x8000_0000,
    ensures
        -(ev.len() as int) <= walk_events(ev).0.depth <= ev.len(),
    decreases ev.len(),
{
    if ev.len() > 0 {
        lemma_walk_depth(ev.drop_last());
    }
}

/// The securities completed by the events `ev` (element opens, texts and closes, as
/// `read_xml_events` gives them), walked with `StaticFileParser`.
pub fn gather_securities(ev: &[(u8, String)]) -> (r: Vec<(String, String, String, u32)>)
    requires
        ev@.len() < 0x8000_0000,
    ensures
        securities_view(r@) == securities_of(events_view(ev@)),
{
    let ghost evs = events_view(ev@);
    let mut p = StaticFileParser::new();
    let mut out: Vec<(String, String, String, u32)> = Vec::new();
    let mut i: usize = 0;
    assert(evs.take(0) =~= Seq::<(u8, Seq<char>)>::empty());
    assert(securities_view(out@) =~= Seq::<(Seq<char>, Seq<char>, Seq<char>, u32)>::empty());
    while i < ev.len()
        invariant
            i <= ev@.len(),
            ev@.len() < 0x8000_0000,
            evs == events_view(ev@),
            p@ == walk_events(evs.take(i as int)).0,
            securities_view(out@) == walk_events(evs.take(i as int)).1,
        decreases ev@.len() - i,
    {
        proof {
            lemma_walk_depth(evs.take(i as int));
            assert(evs.take(i as int + 1).drop_last() =~= evs.take(i as int));
            assert(evs.take(i as int + 1).last() == (ev@[i as int].0, ev@[i as int].1@));
        }
        let e = &ev[i];
        if e.0 == 0 {
            p.start_element(e.1.clone());
        } else if e.0 == 1 {
            p.characters(e.1.as_str());
        } else if e.0 == 2 {
            let ghost before = out@;
            match p.close_element(e.1.as_str()) {
                Some(t) => {
                    out.push(t);
                    assert(securities_view(out@) =~= securities_view(before).push((t.0@, t.1@, t.2@, t.3)));
                },
                None => {},
            }
        }
        i = i + 1;
    }
    assert(evs.take(i as int) =~= evs);
    out
}

/// The securities of a static security file `doc`, in document order: for each completed
/// `Security` element its code, symbol, previous close text and status. `None` when the
/// document has more events than the element depth can count.
pub fn static_file_securities(doc: &[u8]) -> (r: Option<Vec<(String, String, String, u32)>>)
    ensures
        r is Some <==> xml_events(doc@).len() < 0x8000_0000,
        r matches Some(v) ==> securities_view(v@) == securities_of(xml_events(doc@)),
{
    let ev = read_xml_events(doc);
    if ev.len() < 0x8000_0000 {
        Some(gather_securities(ev.as_slice()))
    } else {
        None
    }
}

} // verus!
