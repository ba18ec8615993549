use vstd::prelude::*;

verus! {

/// One quote record of a DBF quote file, located by its byte offset in the file.
/// `_stock_type` is 1 stock, 2 index, 3 fund, 4 bond.
pub struct Record {
    pub _offset: u32,
    pub _stock_code: String,
    pub _stock_type: u32,
    pub _stock_name: String,
    pub _last_px: u32,
    pub _trade_amount: u64,
    pub _trade_balance: u64,
    pub _open_px: u32,
    pub _close_px: u32,
    pub _pre_close_px: u32,
    pub _high_px: u32,
    pub _low_px: u32,
    pub _date: u32,
    pub _time: u32,
    pub _sale_pxs: [u32; 5],
    pub _sale_amounts: [u32; 5],
    pub _buy_pxs: [u32; 5],
    pub _buy_amounts: [u32; 5],
    pub _market_value: u64,
    pub _pe_rate: u32,
    pub _dynamic_pe: u32,
    pub _first_date: u32,
    pub _first_px: u32,
}

/// Every quote field of `r` is empty or zero.
pub open spec fn record_is_blank(r: &Record) -> bool {
    &&& r._stock_code@ == Seq::<char>::empty()
    &&& r._stock_name@ == Seq::<char>::empty()
    &&& r._stock_type == 0
    &&& r._last_px == 0
    &&& r._trade_amount == 0
    &&& r._trade_balance == 0
    &&& r._open_px == 0
    &&& r._close_px == 0
    &&& r._pre_close_px == 0
    &&& r._high_px == 0
    &&& r._low_px == 0
    &&& r._date == 0
    &&& r._time == 0
    &&& r._sale_pxs@ == seq![0u32, 0, 0, 0, 0]
    &&& r._sale_amounts@ == seq![0u32, 0, 0, 0, 0]
    &&& r._buy_pxs@ == seq![0u32, 0, 0, 0, 0]
    &&& r._buy_amounts@ == seq![0u32, 0, 0, 0, 0]
    &&& r._market_value == 0
    &&& r._pe_rate == 0
    &&& r._dynamic_pe == 0
    &&& r._first_date == 0
    &&& r._first_px == 0
}

impl Record {
    /// A blank record at byte offset `offset`.
    pub fn new(offset: u32) -> (r: Record)
        ensures
            r._offset == offset,
            record_is_blank(&r),
    {
        let r = Record {
            _offset: offset,
            _stock_code: String::new(),
            _stock_type: 0,
            _stock_name: String::new(),
            _last_px: 0,
            _trade_amount: 0,
            _trade_balance: 0,
            _open_px: 0,
            _close_px: 0,
            _pre_close_px: 0,
            _high_px: 0,
            _low_px: 0,
            _date: 0,
            _time: 0,
            _sale_pxs: [0; 5],
            _sale_amounts: [0; 5],
            _buy_pxs: [0; 5],
            _buy_amounts: [0; 5],
            _market_value: 0,
            _pe_rate: 0,
            _dynamic_pe: 0,
            _first_date: 0,
            _first_px: 0,
        };
        assert(r._sale_pxs@ =~= seq![0u32, 0, 0, 0, 0]);
        assert(r._sale_amounts@ =~= seq![0u32, 0, 0, 0, 0]);
        assert(r._buy_pxs@ =~= seq![0u32, 0, 0, 0, 0]);
        assert(r._buy_amounts@ =~= seq![0u32, 0, 0, 0, 0]);
        r
    }

    /// Writing records back to a file is not done; this does nothing.
    pub fn sync_to_file(_file: &String) {
    }
}

/// Size in bytes of a DBF file header.
pub const DBF_HEAD_SIZE: usize = 32;

/// Size in bytes of a DBF column descriptor.
pub const DBF_COLUMN_SIZE: usize = 32;

/// Little-endian value of the two bytes at `off`.
pub open spec fn le_u16_at(b: Seq<u8>, off: int) -> u16 {
    (b[off] as int + b[off + 1] as int * 0x100) as u16
}

/// Little-endian two's-complement value of the four bytes at `off`.
pub open spec fn le_i32_at(b: Seq<u8>, off: int) -> i32 {
    (b[off] as int + b[off + 1] as int * 0x100 + b[off + 2] as int * 0x10000 + b[off + 3] as int
        * 0x1000000) as i32
}

/// Header of a DBF file: version flag, date of last update, record count, offset of the
/// first record and record length.
pub struct DbfHead {
    pub _flag: u8,
    pub _year: u8,
    pub _month: u8,
    pub _day: u8,
    pub _record_count: i32,
    pub _offset: u16,
    pub _record_len: u16,
    pub _reserved: [u8; 20],
}

impl DbfHead {
    /// The header of the quote file: version 3, 1153-byte header area, 352-byte records.
    pub fn new() -> (h: DbfHead)
        ensures
            h._flag == 3,
            h._year == 0 && h._month == 0 && h._day == 0,
            h._record_count == 0,
            h._offset == 1153,
            h._record_len == 352,
            h._reserved@ == Seq::new(20, |i: int| 0u8),
    {
        let h = DbfHead {
            _flag: 3,
            _year: 0,
            _month: 0,
            _day: 0,
            _record_count: 0,
            _offset: 1153,
            _record_len: 352,
            _reserved: [0; 20],
        };
        assert(h._reserved@ =~= Seq::new(20, |i: int| 0u8));
        h
    }

    /// Number of column descriptors between the header and the first record.
    pub fn get_field_number(&self) -> (n: usize)
        requires
            self._offset >= 32,
        ensures
            n == (self._offset - 32) / 32,
    {
        (self._offset as usize - DBF_HEAD_SIZE) / DBF_COLUMN_SIZE
    }

    /// Decodes the 32 header bytes of a DBF file (numbers little-endian).
    pub fn from_bytes(buf: &[u8; 32]) -> (h: DbfHead)
        ensures
            h._flag == buf@[0],
            h._year == buf@[1],
            h._month == buf@[2],
            h._day == buf@[3],
            h._record_count == le_i32_at(buf@, 4),
            h._offset == le_u16_at(buf@, 8),
            h._record_len == le_u16_at(buf@, 10),
            h._reserved@ == buf@.subrange(12, 32),
    {
        let count: u32 = buf[4] as u32 + buf[5] as u32 * 0x100 + buf[6] as u32 * 0x10000 + buf[7] as u32 * 0x1000000;
        let mut reserved = [0u8; 20];
        let mut i: usize = 0;
        while i < 20
            invariant
                i <= 20,
                forall|j: int| 0 <= j < i ==> reserved@[j] == buf@[12 + j],
            decreases 20 - i,
        {
            reserved[i] = buf[12 + i];
            i = i + 1;
        }
        assert(reserved@ =~= buf@.subrange(12, 32));
        DbfHead {
            _flag: buf[0],
            _year: buf[1],
            _month: buf[2],
            _day: buf[3],
            _record_count: count as i32,
            _offset: buf[8] as u16 + buf[9] as u16 * 0x100,
            _record_len: buf[10] as u16 + buf[11] as u16 * 0x100,
            _reserved: reserved,
        }
    }
}

} // verus!
