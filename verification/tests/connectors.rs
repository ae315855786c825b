use tickflow::alpaca::{AlpacaRecordKind, partition_records};
use tickflow::polymarket::{
    CursorAction, PolymarketClient, PolymarketGammaClient, chunk_rows, dedup_keep_last,
    next_cursor_action, next_page_offset,
};
use tickflow::websocket::{StreamAction, StreamFrame, stream_step};
use tickflow::yahoo::parse_symbols;

#[test]
fn polymarket_clients_are_constructible() {
    let _clob = PolymarketClient::new("not-a-real-key".to_string(), 250);
    let _gamma = PolymarketGammaClient::new(250, "2025-12-13".to_string());
}

#[test]
fn offset_pagination_stops_on_a_short_page() {
    assert_eq!(next_page_offset(0, 500, 500), Some(500));
    assert_eq!(next_page_offset(500, 500, 500), Some(1000));
    assert_eq!(next_page_offset(1000, 499, 500), None);
    assert_eq!(next_page_offset(0, 0, 500), None);
}

#[test]
fn cursor_pagination_stops_on_a_missing_or_empty_cursor() {
    assert!(matches!(next_cursor_action(None), CursorAction::Stop));
    assert!(matches!(
        next_cursor_action(Some(String::new())),
        CursorAction::Stop
    ));
    match next_cursor_action(Some("NTAw".to_string())) {
        CursorAction::Next(c) => assert_eq!(c, "NTAw"),
        CursorAction::Stop => panic!("a nonempty cursor names the next page"),
    }
}

#[test]
fn dedup_keeps_the_last_row_of_each_key() {
    let rows = vec![
        ("a".to_string(), 1),
        ("b".to_string(), 2),
        ("a".to_string(), 3),
        ("c".to_string(), 4),
        ("b".to_string(), 5),
    ];
    let deduped = dedup_keep_last(rows);
    assert_eq!(
        deduped,
        vec![
            ("a".to_string(), 3),
            ("c".to_string(), 4),
            ("b".to_string(), 5),
        ]
    );
}

#[test]
fn dedup_keeps_unique_keys_untouched() {
    let rows = vec![("x".to_string(), 1), ("y".to_string(), 2)];
    assert_eq!(dedup_keep_last(rows.clone()), rows);
    assert_eq!(dedup_keep_last(Vec::<(String, u8)>::new()), Vec::new());
}

#[test]
fn chunking_splits_rows_without_losing_or_reordering_any() {
    let rows: Vec<u32> = (0..7).collect();
    let chunks = chunk_rows(rows.clone(), 3);
    assert_eq!(chunks, vec![vec![0, 1, 2], vec![3, 4, 5], vec![6]]);

    let chunks = chunk_rows(rows.clone(), 7);
    assert_eq!(chunks, vec![rows.clone()]);

    let chunks = chunk_rows(Vec::<u32>::new(), 100);
    assert_eq!(chunks.len(), 0);
}

#[test]
fn stream_policy_handles_every_frame_kind() {
    match stream_step(StreamFrame::Text("{\"T\":\"b\"}".to_string())) {
        StreamAction::Deliver(t) => assert_eq!(t, "{\"T\":\"b\"}"),
        _ => panic!("text frames are delivered"),
    }
    match stream_step(StreamFrame::Ping(vec![1, 2, 3])) {
        StreamAction::AnswerPing(d) => assert_eq!(d, vec![1, 2, 3]),
        _ => panic!("pings are answered"),
    }
    assert!(matches!(stream_step(StreamFrame::Binary), StreamAction::Ignore));
    assert!(matches!(stream_step(StreamFrame::Pong), StreamAction::Ignore));
    assert!(matches!(stream_step(StreamFrame::Raw), StreamAction::Ignore));
    assert!(matches!(stream_step(StreamFrame::Close), StreamAction::Stop));
    assert!(matches!(
        stream_step(StreamFrame::TransportError),
        StreamAction::Stop
    ));
}

fn symbols(content: &[u8]) -> Vec<String> {
    parse_symbols(content)
        .into_iter()
        .map(|v| String::from_utf8(v).unwrap())
        .collect()
}

#[test]
fn parse_symbols_reads_the_first_column() {
    let content = b"Symbol,Name\nAAPL,Apple Inc.\nTSLA,Tesla Inc.\n";
    assert_eq!(symbols(content), vec!["AAPL", "TSLA"]);
}

#[test]
fn parse_symbols_skips_blanks_and_trims_fields() {
    let content = b"symbol\n  MSFT , Microsoft\n\n   \nGOOG\n  ,no symbol\n";
    assert_eq!(symbols(content), vec!["MSFT", "GOOG"]);
}

#[test]
fn parse_symbols_only_treats_the_first_line_as_header() {
    let content = b"AAPL\nSYMBOLIC\n";
    assert_eq!(symbols(content), vec!["AAPL", "SYMBOLIC"]);

    let header_like_later = b"IBM\nsymbol,Name\n";
    assert_eq!(symbols(header_like_later), vec!["IBM", "symbol"]);
}

#[test]
fn parse_symbols_handles_carriage_returns_and_no_trailing_newline() {
    let content = b"Symbol,Name\r\nNVDA,NVIDIA\r\nAMD,AMD";
    assert_eq!(symbols(content), vec!["NVDA", "AMD"]);

    assert_eq!(symbols(b""), Vec::<String>::new());
}

#[test]
fn partition_splits_a_mixed_batch_by_kind_in_order() {
    let tagged = vec![
        (AlpacaRecordKind::Quote, "q1"),
        (AlpacaRecordKind::Bar, "b1"),
        (AlpacaRecordKind::Control, "status"),
        (AlpacaRecordKind::Trade, "t1"),
        (AlpacaRecordKind::Bar, "b2"),
        (AlpacaRecordKind::Quote, "q2"),
    ];
    let (bars, quotes, trades) = partition_records(tagged);
    assert_eq!(bars, vec!["b1", "b2"]);
    assert_eq!(quotes, vec!["q1", "q2"]);
    assert_eq!(trades, vec!["t1"]);
}
