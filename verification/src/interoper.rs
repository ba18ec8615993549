use vstd::prelude::*;

verus! {

/// Packet type of a request.
pub const REQUEST: i32 = 0;

/// Packet type of a response.
pub const RESPONSE: i32 = 1;

/// One value of a T2 message row.
pub enum T2Value {
    Char(u8),
    Int(i64),
    Str(Vec<u8>),
}

/// Mathematical form of a row value.
pub enum T2Item {
    Char(u8),
    Int(i64),
    Str(Seq<u8>),
}

impl View for T2Value {
    type V = T2Item;

    open spec fn view(&self) -> T2Item {
        match self {
            T2Value::Char(c) => T2Item::Char(*c),
            T2Value::Int(i) => T2Item::Int(*i),
            T2Value::Str(s) => T2Item::Str(s@),
        }
    }
}

/// Mathematical form of a T2 message: header, field names and one row of values.
pub struct T2Packet {
    pub packet_type: i32,
    pub function_no: i32,
    pub fields: Seq<Seq<char>>,
    pub values: Seq<T2Item>,
}

/// A T2 message being packed: packet type, function number, field names and one row.
pub struct T2Message {
    pub _packet_type: i32,
    pub _function_no: i32,
    pub _fields: Vec<&'static str>,
    pub _values: Vec<T2Value>,
}

impl View for T2Message {
    type V = T2Packet;

    open spec fn view(&self) -> T2Packet {
        T2Packet {
            packet_type: self._packet_type,
            function_no: self._function_no,
            fields: self._fields@.map_values(|f: &'static str| f@),
            values: self._values@.map_values(|v: T2Value| v@),
        }
    }
}

impl T2Message {
    /// An empty message.
    pub fn new() -> (m: T2Message)
        ensures
            m@ == (T2Packet { packet_type: 0, function_no: 0, fields: seq![], values: seq![] }),
    {
        let m = T2Message { _packet_type: 0, _function_no: 0, _fields: Vec::new(), _values: Vec::new() };
        assert(m@.fields =~= seq![]);
        assert(m@.values =~= seq![]);
        m
    }

    /// Sets the packet type (`REQUEST` or `RESPONSE`).
    pub fn set_packet_type(&mut self, t: i32)
        ensures
            final(self)@ == (T2Packet { packet_type: t, ..old(self)@ }),
    {
        self._packet_type = t;
    }

    /// Sets the function number.
    pub fn set_function_no(&mut self, func: i32)
        ensures
            final(self)@ == (T2Packet { function_no: func, ..old(self)@ }),
    {
        self._function_no = func;
    }

    /// Adds a field name.
    pub fn add_field(&mut self, name: &'static str)
        ensures
            final(self)@ == (T2Packet { fields: old(self)@.fields.push(name@), ..old(self)@ }),
    {
        self._fields.push(name);
        assert(final(self)@.fields =~= old(self)@.fields.push(name@));
    }

    /// Adds a value to the row.
    pub fn add_value(&mut self, v: T2Value)
        ensures
            final(self)@ == (T2Packet { values: old(self)@.values.push(v@), ..old(self)@ }),
    {
        self._values.push(v);
        assert(final(self)@.values =~= old(self)@.values.push(v@));
    }
}

/// Mathematical form of a T2 context: the messages sent so far and the last market
/// date, time and status that were announced.
pub struct T2State {
    pub sent: Seq<T2Packet>,
    pub date: u32,
    pub time: u32,
    pub market_status: u32,
}

/// Connection to the T2 quote bus: the queue of packed messages waiting to be sent, and the
/// last market date, time and status announced (so that repeats are not sent again).
pub struct T2Context {
    pub _outbox: Vec<T2Message>,
    pub _date: u32,
    pub _time: u32,
    pub _market_status: u32,
}

impl View for T2Context {
    type V = T2State;

    open spec fn view(&self) -> T2State {
        T2State {
            sent: self._outbox@.map_values(|m: T2Message| m@),
            date: self._date,
            time: self._time,
            market_status: self._market_status,
        }
    }
}

impl T2Context {
    /// A context that has sent nothing and announced nothing.
    pub fn new() -> (c: T2Context)
        ensures
            c@ == (T2State { sent: seq![], date: 0, time: 0, market_status: 0 }),
    {
        let c = T2Context { _outbox: Vec::new(), _date: 0, _time: 0, _market_status: 0 };
        assert(c@.sent =~= seq![]);
        c
    }

    /// Queues a packed message for sending.
    pub fn send_message(&mut self, msg: T2Message)
        ensures
            final(self)@ == (T2State { sent: old(self)@.sent.push(msg@), ..old(self)@ }),
    {
        self._outbox.push(msg);
        assert(final(self)@.sent =~= old(self)@.sent.push(msg@));
    }

    /// Hands over the queued messages, leaving the queue empty.
    pub fn take_outbox(&mut self) -> (r: Vec<T2Message>)
        ensures
            r@.map_values(|m: T2Message| m@) == old(self)@.sent,
            final(self)@ == (T2State { sent: seq![], ..old(self)@ }),
    {
        let mut out: Vec<T2Message> = Vec::new();
        std::mem::swap(&mut out, &mut self._outbox);
        assert(final(self)@.sent =~= seq![]);
        out
    }
}

} // verus!
