use vstd::prelude::*;
use vstd::string::*;

use crate::models::{BitcoinData, SolanaData};
use crate::text::{decimal, to_decimal};

verus! {

/// Largest number of connections that a database client keeps open.
pub const MAX_CONNECTIONS: u32 = 5;

/// The error of every database operation: a message for the operator.
#[derive(Debug, Clone, PartialEq, Eq)]
pub struct MyError(pub String);

/// A value bound to one placeholder of an insert statement.
#[derive(Debug, PartialEq, Eq)]
pub enum SqlValue {
    /// A 64-bit signed integer column.
    Integer(i64),
    /// A text column, bound as it stands.
    Text(String),
    /// A real column given by its decimal text: the driver binds the number
    /// that the text spells, or `0.0` where it spells none.
    Real(String),
    /// A boolean column.
    Boolean(bool),
}

/// An insert statement for a non-empty batch: the head of the statement
/// (table and columns) and one row of bound values per record, in order.
pub struct BulkStatement {
    pub head: String,
    pub rows: Vec<Vec<SqlValue>>,
}

/// The signed 64-bit value that an unsigned 64-bit identifier is stored as:
/// the same number below 2^63, wrapped into the negative range above it.
pub open spec fn sql_integer(x: u64) -> i64 {
    (if x <= i64::MAX { x as int } else { x - 0x1_0000_0000_0000_0000int }) as i64
}

/// Converts an unsigned identifier into the signed integer that the
/// database column holds (two's-complement reinterpretation).
pub fn to_sql_integer(x: u64) -> (r: i64)
    ensures
        r == sql_integer(x),
        r as int == (if x <= i64::MAX { x as int } else { x - 0x1_0000_0000_0000_0000int }),
{
    let r = x as i64;
    assert(r as int == (if x <= 0x7fff_ffff_ffff_ffffu64 { x as int } else { x - 0x1_0000_0000_0000_0000int }))
        by (bit_vector)
        requires r == x as i64;
    r
}

/// A record type that can be written to its table in bulk.
pub trait BulkInsertable: Sized {
    /// The text of the statement up to its `VALUES` list.
    spec fn spec_insert_head() -> Seq<char>;

    /// The values bound for one record, in column order.
    spec fn spec_row(&self) -> Seq<SqlValue>;

    /// The text that opens the message of a failed insert.
    spec fn spec_failure_prefix() -> Seq<char>;

    fn insert_head() -> (head: &'static str)
        ensures
            head@ == Self::spec_insert_head(),
    ;

    fn row(&self) -> (row: Vec<SqlValue>)
        ensures
            row@ == self.spec_row(),
    ;

    fn failure_prefix() -> (prefix: &'static str)
        ensures
            prefix@ == Self::spec_failure_prefix(),
    ;

    /// What a batch of these records is called in the report of a write.
    spec fn spec_records_noun() -> Seq<char>;

    fn records_noun() -> (noun: &'static str)
        ensures
            noun@ == Self::spec_records_noun(),
    ;
}

impl BulkInsertable for BitcoinData {
    open spec fn spec_insert_head() -> Seq<char> {
        "INSERT OR IGNORE INTO Bitcoin_Data (agg_trade_id, event_type, event_time, symbol, price, quantity, is_buyer_market_maker) "@
    }

    open spec fn spec_row(&self) -> Seq<SqlValue> {
        seq![
            SqlValue::Integer(sql_integer(self.agg_trade_id)),
            SqlValue::Text(self.event_type),
            SqlValue::Integer(sql_integer(self.event_time)),
            SqlValue::Text(self.symbol),
            SqlValue::Real(self.price),
            SqlValue::Real(self.quantity),
            SqlValue::Boolean(self.is_buyer_market_maker),
        ]
    }

    open spec fn spec_failure_prefix() -> Seq<char> {
        "Bitcoin SQLite bulk insert failed: "@
    }

    fn insert_head() -> (head: &'static str) {
        "INSERT OR IGNORE INTO Bitcoin_Data (agg_trade_id, event_type, event_time, symbol, price, quantity, is_buyer_market_maker) "
    }

    fn row(&self) -> (row: Vec<SqlValue>) {
        let mut row: Vec<SqlValue> = Vec::new();
        row.push(SqlValue::Integer(to_sql_integer(self.agg_trade_id)));
        row.push(SqlValue::Text(self.event_type.clone()));
        row.push(SqlValue::Integer(to_sql_integer(self.event_time)));
        row.push(SqlValue::Text(self.symbol.clone()));
        row.push(SqlValue::Real(self.price.clone()));
        row.push(SqlValue::Real(self.quantity.clone()));
        row.push(SqlValue::Boolean(self.is_buyer_market_maker));
        row
    }

    fn failure_prefix() -> (prefix: &'static str) {
        "Bitcoin SQLite bulk insert failed: "
    }

    open spec fn spec_records_noun() -> Seq<char> {
        "Bitcoin trades"@
    }

    fn records_noun() -> (noun: &'static str) {
        "Bitcoin trades"
    }
}

impl BulkInsertable for SolanaData {
    open spec fn spec_insert_head() -> Seq<char> {
        "INSERT OR IGNORE INTO Solana_Data (agg_trade_id, symbol, bid_price, bid_quantity, ask_price, ask_quantity) "@
    }

    open spec fn spec_row(&self) -> Seq<SqlValue> {
        seq![
            SqlValue::Integer(sql_integer(self.agg_trade_id)),
            SqlValue::Text(self.symbol),
            SqlValue::Real(self.bid_price),
            SqlValue::Real(self.bid_quantity),
            SqlValue::Real(self.ask_price),
            SqlValue::Real(self.ask_quantity),
        ]
    }

    open spec fn spec_failure_prefix() -> Seq<char> {
        "Solana SQLite bulk insert failed: "@
    }

    fn insert_head() -> (head: &'static str) {
        "INSERT OR IGNORE INTO Solana_Data (agg_trade_id, symbol, bid_price, bid_quantity, ask_price, ask_quantity) "
    }

    fn row(&self) -> (row: Vec<SqlValue>) {
        let mut row: Vec<SqlValue> = Vec::new();
        row.push(SqlValue::Integer(to_sql_integer(self.agg_trade_id)));
        row.push(SqlValue::Text(self.symbol.clone()));
        row.push(SqlValue::Real(self.bid_price.clone()));
        row.push(SqlValue::Real(self.bid_quantity.clone()));
        row.push(SqlValue::Real(self.ask_price.clone()));
        row.push(SqlValue::Real(self.ask_quantity.clone()));
        row
    }

    fn failure_prefix() -> (prefix: &'static str) {
        "Solana SQLite bulk insert failed: "
    }

    open spec fn spec_records_noun() -> Seq<char> {
        "Solana updates"@
    }

    fn records_noun() -> (noun: &'static str) {
        "Solana updates"
    }
}

/// The statement that writes `batch` to its table, or `None` for an empty
/// batch, which needs no statement at all.
pub fn bulk_statement<T: BulkInsertable>(batch: &[T]) -> (stmt: Option<BulkStatement>)
    ensures
        stmt is None <==> batch@.len() == 0,
        stmt matches Some(s) ==> {
            &&& s.head@ == T::spec_insert_head()
            &&& s.rows@.len() == batch@.len()
            &&& forall|i: int| 0 <= i < batch@.len() ==> #[trigger] s.rows@[i]@ == batch@[i].spec_row()
        },
{
    if batch.len() == 0 {
        return None;
    }
    let mut rows: Vec<Vec<SqlValue>> = Vec::new();
    let mut i: usize = 0;
    while i < batch.len()
        invariant
            i <= batch@.len(),
            rows@.len() == i,
            forall|j: int| 0 <= j < i ==> #[trigger] rows@[j]@ == batch@[j].spec_row(),
        decreases batch@.len() - i,
    {
        rows.push(batch[i].row());
        i = i + 1;
    }
    Some(BulkStatement { head: String::from_str(T::insert_head()), rows })
}

impl MyError {
    /// The message shown for this error.
    pub fn describe(&self) -> (text: String)
        ensures
            text@ == "Database Error: "@ + self.0@,
    {
        let mut text = String::from_str("Database Error: ");
        text.append(self.0.as_str());
        text
    }

    /// The error of a connection that could not be opened, with the
    /// driver's own account of why.
    pub fn connect_failed(detail: &str) -> (e: MyError)
        ensures
            e.0@ == "Failed to connect to SQLite: "@ + detail@,
    {
        let mut text = String::from_str("Failed to connect to SQLite: ");
        text.append(detail);
        MyError(text)
    }
}

/// The error of a bulk insert of `T` records that the database refused,
/// with the driver's own account of why.
pub fn insert_failure<T: BulkInsertable>(detail: &str) -> (e: MyError)
    ensures
        e.0@ == T::spec_failure_prefix() + detail@,
{
    let mut text = String::from_str(T::failure_prefix());
    text.append(detail);
    MyError(text)
}

/// The line that reports a successful bulk insert of `count` `T` records.
pub fn insert_success_line<T: BulkInsertable>(count: usize) -> (line: String)
    ensures
        line@ == "Successfully bulk inserted "@ + decimal(count as nat) + " "@ + T::spec_records_noun()
            + " to SQLite."@,
{
    let mut line = String::from_str("Successfully bulk inserted ");
    let n = to_decimal(count as u64);
    line.append(n.as_str());
    line.append(" ");
    line.append(T::records_noun());
    line.append(" to SQLite.");
    line
}

/// The signed value stored for an unsigned identifier: the identifier
/// itself below 2^63, the identifier less 2^64 above.
pub open spec fn stored_id(x: u64) -> int {
    if x <= 0x7fff_ffff_ffff_ffffu64 { x as int } else { x as int - 0x1_0000_0000_0000_0000int }
}

/// Identifiers are stored as the same number below 2^63 and wrapped into
/// the negative range above it, so distinct identifiers are stored as
/// distinct values.
pub proof fn lemma_ids_are_stored_faithfully(a: u64, b: u64)
    ensures
        sql_integer(a) as int == stored_id(a),
        a != b ==> sql_integer(a) != sql_integer(b),
{
}

/// A Bitcoin trade binds, in column order, its id, event type, event time,
/// symbol, price, quantity and side, each from its own field.
pub proof fn lemma_bitcoin_row_columns(t: BitcoinData)
    ensures
        t.spec_row().len() == 7,
        t.spec_row()[0] matches SqlValue::Integer(v) && v as int == stored_id(t.agg_trade_id),
        t.spec_row()[1] == SqlValue::Text(t.event_type),
        t.spec_row()[2] matches SqlValue::Integer(v) && v as int == stored_id(t.event_time),
        t.spec_row()[3] == SqlValue::Text(t.symbol),
        t.spec_row()[4] == SqlValue::Real(t.price),
        t.spec_row()[5] == SqlValue::Real(t.quantity),
        t.spec_row()[6] == SqlValue::Boolean(t.is_buyer_market_maker),
{
}

/// A Solana update binds, in column order, its id, symbol, bid price, bid
/// quantity, ask price and ask quantity, each from its own field.
pub proof fn lemma_solana_row_columns(u: SolanaData)
    ensures
        u.spec_row().len() == 6,
        u.spec_row()[0] matches SqlValue::Integer(v) && v as int == stored_id(u.agg_trade_id),
        u.spec_row()[1] == SqlValue::Text(u.symbol),
        u.spec_row()[2] == SqlValue::Real(u.bid_price),
        u.spec_row()[3] == SqlValue::Real(u.bid_quantity),
        u.spec_row()[4] == SqlValue::Real(u.ask_price),
        u.spec_row()[5] == SqlValue::Real(u.ask_quantity),
{
}

/// Two records whose rows agree agree in every field: no field is lost on
/// the way to the database.
pub proof fn lemma_rows_tell_records_apart(a: BitcoinData, b: BitcoinData, c: SolanaData, d: SolanaData)
    ensures
        a.spec_row() == b.spec_row() ==> a == b,
        c.spec_row() == d.spec_row() ==> c == d,
{
    if a.spec_row() == b.spec_row() {
        assert(a.spec_row()[0] == b.spec_row()[0]);
        assert(a.spec_row()[1] == b.spec_row()[1]);
        assert(a.spec_row()[2] == b.spec_row()[2]);
        assert(a.spec_row()[3] == b.spec_row()[3]);
        assert(a.spec_row()[4] == b.spec_row()[4]);
        assert(a.spec_row()[5] == b.spec_row()[5]);
        assert(a.spec_row()[6] == b.spec_row()[6]);
    }
    if c.spec_row() == d.spec_row() {
        assert(c.spec_row()[0] == d.spec_row()[0]);
        assert(c.spec_row()[1] == d.spec_row()[1]);
        assert(c.spec_row()[2] == d.spec_row()[2]);
        assert(c.spec_row()[3] == d.spec_row()[3]);
        assert(c.spec_row()[4] == d.spec_row()[4]);
        assert(c.spec_row()[5] == d.spec_row()[5]);
    }
}

/// Each record type writes to its own table, names its columns in the
/// order its row binds them, ignores rows whose id is already stored, and
/// names itself in its messages; a database client keeps at most five connections.
pub proof fn lemma_statement_texts()
    ensures
        BitcoinData::spec_insert_head()
            == "INSERT OR IGNORE INTO Bitcoin_Data (agg_trade_id, event_type, event_time, symbol, price, quantity, is_buyer_market_maker) "@,
        SolanaData::spec_insert_head()
            == "INSERT OR IGNORE INTO Solana_Data (agg_trade_id, symbol, bid_price, bid_quantity, ask_price, ask_quantity) "@,
        BitcoinData::spec_failure_prefix() == "Bitcoin SQLite bulk insert failed: "@,
        SolanaData::spec_failure_prefix() == "Solana SQLite bulk insert failed: "@,
        BitcoinData::spec_records_noun() == "Bitcoin trades"@,
        SolanaData::spec_records_noun() == "Solana updates"@,
        MAX_CONNECTIONS == 5,
{
}

} // verus!
