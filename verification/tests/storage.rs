use data_inject::database::{
    bulk_statement, insert_failure, to_sql_integer, BulkInsertable, MyError, SqlValue, MAX_CONNECTIONS,
};
use data_inject::database::insert_success_line;
use data_inject::endpoint::stream_url;
use data_inject::text::to_decimal;
use data_inject::models::{BitcoinData, SolanaData};

fn trade(id: u64) -> BitcoinData {
    BitcoinData {
        event_type: "aggTrade".to_string(),
        event_time: 1_700_000_000_123,
        symbol: "BTCUSDT".to_string(),
        agg_trade_id: id,
        price: "64250.10".to_string(),
        quantity: "0.015".to_string(),
        is_buyer_market_maker: true,
    }
}

fn quote(id: u64) -> SolanaData {
    SolanaData {
        agg_trade_id: id,
        symbol: "SOLUSDT".to_string(),
        bid_price: "145.21".to_string(),
        bid_quantity: "12.5".to_string(),
        ask_price: "145.22".to_string(),
        ask_quantity: "3.1".to_string(),
    }
}

#[test]
fn sql_integer_keeps_small_ids_and_wraps_large_ones() {
    assert_eq!(to_sql_integer(0), 0);
    assert_eq!(to_sql_integer(42), 42);
    assert_eq!(to_sql_integer(i64::MAX as u64), i64::MAX);
    assert_eq!(to_sql_integer(1u64 << 63), i64::MIN);
    assert_eq!(to_sql_integer(u64::MAX), -1);
}

#[test]
fn bitcoin_row_binds_every_column_in_order() {
    let row = trade(7).row();
    assert_eq!(
        row,
        vec![
            SqlValue::Integer(7),
            SqlValue::Text("aggTrade".to_string()),
            SqlValue::Integer(1_700_000_000_123),
            SqlValue::Text("BTCUSDT".to_string()),
            SqlValue::Real("64250.10".to_string()),
            SqlValue::Real("0.015".to_string()),
            SqlValue::Boolean(true),
        ]
    );
}

#[test]
fn solana_row_binds_every_column_in_order() {
    let row = quote(u64::MAX).row();
    assert_eq!(
        row,
        vec![
            SqlValue::Integer(-1),
            SqlValue::Text("SOLUSDT".to_string()),
            SqlValue::Real("145.21".to_string()),
            SqlValue::Real("12.5".to_string()),
            SqlValue::Real("145.22".to_string()),
            SqlValue::Real("3.1".to_string()),
        ]
    );
}

#[test]
fn empty_batch_needs_no_statement() {
    let none: Vec<BitcoinData> = Vec::new();
    assert!(bulk_statement(&none).is_none());
    let none: Vec<SolanaData> = Vec::new();
    assert!(bulk_statement(&none).is_none());
}

#[test]
fn bitcoin_statement_has_one_row_per_record() {
    let batch = vec![trade(1), trade(2), trade(3)];
    let stmt = bulk_statement(&batch).expect("a non-empty batch has a statement");
    assert_eq!(
        stmt.head,
        "INSERT OR IGNORE INTO Bitcoin_Data (agg_trade_id, event_type, event_time, symbol, price, quantity, is_buyer_market_maker) "
    );
    assert_eq!(stmt.rows.len(), 3);
    for (i, row) in stmt.rows.iter().enumerate() {
        assert_eq!(row, &batch[i].row());
        assert_eq!(row[0], SqlValue::Integer(i as i64 + 1));
    }
}

#[test]
fn solana_statement_has_one_row_per_record() {
    let batch = vec![quote(10), quote(11)];
    let stmt = bulk_statement(&batch).expect("a non-empty batch has a statement");
    assert_eq!(
        stmt.head,
        "INSERT OR IGNORE INTO Solana_Data (agg_trade_id, symbol, bid_price, bid_quantity, ask_price, ask_quantity) "
    );
    assert_eq!(stmt.rows, vec![batch[0].row(), batch[1].row()]);
}

#[test]
fn failure_messages_name_the_stream_and_the_cause() {
    let e = insert_failure::<BitcoinData>("database is locked");
    assert_eq!(e, MyError("Bitcoin SQLite bulk insert failed: database is locked".to_string()));
    let e = insert_failure::<SolanaData>("disk I/O error");
    assert_eq!(e.0, "Solana SQLite bulk insert failed: disk I/O error");
    assert_eq!(BitcoinData::failure_prefix(), "Bitcoin SQLite bulk insert failed: ");
    assert_eq!(SolanaData::failure_prefix(), "Solana SQLite bulk insert failed: ");
}

#[test]
fn connect_failure_and_description() {
    let e = MyError::connect_failed("unable to open database file");
    assert_eq!(e.0, "Failed to connect to SQLite: unable to open database file");
    assert_eq!(e.describe(), "Database Error: Failed to connect to SQLite: unable to open database file");
    assert_eq!(MyError(String::new()).describe(), "Database Error: ");
    assert_eq!(MAX_CONNECTIONS, 5);
}

#[test]
fn stream_url_joins_host_port_and_path() {
    assert_eq!(
        stream_url("stream.binance.com", "9443", "/ws/btcusdt@aggTrade"),
        "wss://stream.binance.com:9443/ws/btcusdt@aggTrade"
    );
    assert_eq!(stream_url("", "", ""), "wss://:");
}

#[test]
fn success_lines_count_the_records() {
    assert_eq!(
        insert_success_line::<BitcoinData>(50),
        "Successfully bulk inserted 50 Bitcoin trades to SQLite."
    );
    assert_eq!(
        insert_success_line::<SolanaData>(7),
        "Successfully bulk inserted 7 Solana updates to SQLite."
    );
}

#[test]
fn decimal_notation() {
    assert_eq!(to_decimal(0), "0");
    assert_eq!(to_decimal(9), "9");
    assert_eq!(to_decimal(10), "10");
    assert_eq!(to_decimal(1_234_567_890), "1234567890");
    assert_eq!(to_decimal(u64::MAX), "18446744073709551615");
}
