use atb::connection::{
    build_raw, connection_page_flags, connection_window, page_from_rows, try_build_raw,
    ColumnOpts, ConnectionError, ConnectionRow, CursorEdge, IndexFilter,
};
use atb::pagination::{finalize_page_info, validate_connection, Cursor, PageInfo, PaginationError};
use atb::relay::{decode_cursor, encode_cursor, try_decode_cursor, CursorError};

fn item(n: i64) -> CursorEdge<i64> {
    CursorEdge { node: n, cursor: format!("c{n}") }
}

#[test]
fn connection_arguments_are_validated() {
    let c = 1u8;
    assert_eq!(validate_connection::<u8>(None, None, Some(10), None, None), Ok((true, 10)));
    assert_eq!(validate_connection::<u8>(None, None, None, Some(7), None), Ok((false, 7)));
    assert_eq!(validate_connection::<u8>(None, None, Some(1), Some(1), None), Err(PaginationError::FirstAndLast));
    assert_eq!(validate_connection::<u8>(None, None, Some(-1), None, None), Err(PaginationError::FirstNegative));
    assert_eq!(validate_connection::<u8>(None, None, Some(201), None, None), Err(PaginationError::FirstTooLarge(200)));
    assert_eq!(validate_connection::<u8>(None, None, Some(11), None, Some(10)), Err(PaginationError::FirstTooLarge(10)));
    assert_eq!(validate_connection::<u8>(None, None, None, Some(-3), None), Err(PaginationError::LastNegative));
    assert_eq!(validate_connection::<u8>(None, None, None, Some(300), None), Err(PaginationError::LastTooLarge(200)));
    assert_eq!(validate_connection::<u8>(None, None, None, None, None), Err(PaginationError::InvalidParameters));
    assert_eq!(validate_connection(None, Some(&c), Some(5), None, None), Err(PaginationError::InvalidParameters));
    assert_eq!(validate_connection(Some(&c), None, None, Some(5), None), Err(PaginationError::InvalidParameters));
    assert_eq!(validate_connection(Some(&c), None, Some(5), None, None), Ok((true, 5)));
}

#[test]
fn forward_page_is_trimmed() {
    let mut data = vec![item(1), item(2), item(3)];
    let info: PageInfo = finalize_page_info(&mut data, 2, true, true, false);
    assert_eq!(data.iter().map(|i| i.node).collect::<Vec<_>>(), vec![1, 2]);
    assert!(info.has_previous_page);
    assert!(info.has_next_page);
    assert_eq!(info.start_cursor.as_deref(), Some("c1"));
    assert_eq!(info.end_cursor.as_deref(), Some("c2"));
}

#[test]
fn backward_page_is_reversed() {
    let mut data = vec![item(9), item(8)];
    let info = finalize_page_info(&mut data, 5, false, false, true);
    assert_eq!(data.iter().map(|i| i.node).collect::<Vec<_>>(), vec![8, 9]);
    assert!(!info.has_previous_page);
    assert!(info.has_next_page);
    assert_eq!(info.start_cursor.as_deref(), Some("c8"));
    assert_eq!(info.end_cursor.as_deref(), Some("c9"));
}

#[test]
fn trimmed_backward_page_takes_its_cursors_from_the_ends() {
    let mut data = vec![item(3), item(2), item(1)];
    let info = finalize_page_info(&mut data, 2, false, false, true);
    assert_eq!(data.iter().map(|i| i.node).collect::<Vec<_>>(), vec![2, 3]);
    assert_eq!(
        info,
        PageInfo {
            has_previous_page: true,
            has_next_page: true,
            start_cursor: Some("c2".to_owned()),
            end_cursor: Some("c3".to_owned()),
        }
    );
}

#[test]
fn an_edge_names_its_cursor() {
    assert_eq!(item(4).cursor(), "c4");
}

#[test]
fn empty_page_has_no_cursors() {
    let mut data: Vec<CursorEdge<i64>> = vec![];
    let info = finalize_page_info(&mut data, 5, true, false, false);
    assert!(info.start_cursor.is_none() && info.end_cursor.is_none());
}

#[test]
fn cursor_round_trip() {
    let mut buf = Vec::new();
    let cursor = encode_cursor(&mut buf, 42, b"users").unwrap();
    assert_eq!(buf, [0, 0, 0, 0, 0, 0, 0, 42, b'u', b's', b'e', b'r', b's']);
    assert_eq!(cursor, "AAAAAAAAACp1c2Vycw==");
    assert_eq!(decode_cursor(cursor.clone().into_bytes(), b"users").unwrap(), 42);
    assert!(matches!(decode_cursor(cursor.into_bytes(), b"posts"), Err(CursorError::IdentityMismatch)));
}

#[test]
fn negative_index_round_trips() {
    let mut buf = Vec::new();
    let cursor = encode_cursor(&mut buf, -5, b"t").unwrap();
    assert_eq!(decode_cursor(cursor.into_bytes(), b"t").unwrap(), -5);
}

#[test]
fn cursor_errors() {
    assert!(matches!(decode_cursor(b"short".to_vec(), b"t"), Err(CursorError::InvalidLength)));
    assert!(matches!(decode_cursor(b"!!!!!!!!!!!!".to_vec(), b"t"), Err(CursorError::Base64Decode(_))));
    // Twelve characters that decode to seven bytes: too short for an index.
    assert!(try_decode_cursor(b"AAAAAAAAAA==".to_vec(), b"t").is_none());
    assert!(matches!(try_decode_cursor(b"AAAAAAAA=".to_vec(), b"t"), Some(Err(CursorError::Base64Decode(_)))));
    assert!(matches!(try_decode_cursor(b"AAAAAAAAAAA=".to_vec(), b""), Some(Ok(0))));
}

#[test]
fn window_of_a_page_request() {
    assert!(matches!(connection_window(Some(10), None), Ok((11, true))));
    assert!(matches!(connection_window(None, Some(3)), Ok((4, false))));
    assert!(matches!(connection_window(None, None), Ok((5, true))));
    assert!(matches!(connection_window(Some(1), Some(1)), Err(ConnectionError::InvalidQuery)));
}

#[test]
fn page_flags() {
    assert_eq!(connection_page_flags(11, 11, true, Some(true)), (true, true, true));
    assert_eq!(connection_page_flags(3, 11, true, None), (false, false, false));
    assert_eq!(connection_page_flags(11, 11, false, Some(false)), (true, true, false));
}

fn cursor_for(index: i64, table: &[u8]) -> String {
    let mut buf = Vec::new();
    encode_cursor(&mut buf, index, table).unwrap()
}

#[test]
fn query_plan_forward_from_a_cursor() {
    let after = cursor_for(7, b"users");
    let meta = build_raw("users", Some(2), Some(after), None, None, ColumnOpts::All).unwrap();
    assert_eq!(meta.fetch_count, 3);
    assert!(meta.ascending);
    assert!(meta.parse_previous);
    assert!(meta.columns.is_none());
    assert_eq!(meta.cursor_filters, Some((IndexFilter::LessThan(7), IndexFilter::GreaterThan(7))));
}

#[test]
fn query_plan_backward_with_columns() {
    let cols = vec!["id".to_owned(), "name".to_owned()];
    let before = cursor_for(9, b"users");
    let meta = build_raw("users", None, None, Some(4), Some(before), ColumnOpts::Custom(&cols)).unwrap();
    assert_eq!(meta.fetch_count, 5);
    assert!(!meta.ascending);
    assert_eq!(meta.columns.unwrap().len(), 2);
    assert_eq!(meta.cursor_filters, Some((IndexFilter::GreaterThan(9), IndexFilter::LessThan(9))));
}

#[test]
fn query_plan_defaults_and_errors() {
    let meta = build_raw("users", None, Some(cursor_for(1, b"users")), None, None, ColumnOpts::All).unwrap();
    assert_eq!(meta.fetch_count, 5);
    assert!(meta.ascending && !meta.parse_previous && meta.cursor_filters.is_none());
    assert!(matches!(build_raw("users", Some(1), None, Some(1), None, ColumnOpts::All), Err(ConnectionError::InvalidQuery)));
    let empty: Vec<String> = vec![];
    assert!(matches!(build_raw("users", Some(1), None, None, None, ColumnOpts::Custom(&empty)), Err(ConnectionError::InvalidColumnOpts)));
    assert!(matches!(
        build_raw("users", Some(1), Some(cursor_for(1, b"posts")), None, None, ColumnOpts::All),
        Err(ConnectionError::Cursor(CursorError::IdentityMismatch))
    ));
    assert!(matches!(
        build_raw("users", Some(1), Some("abc".to_owned()), None, None, ColumnOpts::All),
        Err(ConnectionError::Cursor(CursorError::InvalidLength))
    ));
    assert!(try_build_raw("users", Some(1), Some("AAAAAAAAAA==".to_owned()), None, None, ColumnOpts::All).is_none());
    assert!(try_build_raw("users", Some(1), None, None, None, ColumnOpts::All).is_some());
}

fn rows(indices: &[i64], previous: i64) -> Vec<ConnectionRow<String>> {
    indices
        .iter()
        .map(|i| ConnectionRow { item: format!("n{i}"), index: *i, previous_count: previous })
        .collect()
}

#[test]
fn forward_page_from_rows() {
    let meta = build_raw("users", Some(2), Some(cursor_for(1, b"users")), None, None, ColumnOpts::All).unwrap();
    let (edges, info) = page_from_rows(rows(&[2, 3, 4], 1), &meta, "users");
    assert_eq!(edges.iter().map(|e| e.node.as_str()).collect::<Vec<_>>(), vec!["n2", "n3"]);
    assert_eq!(edges[0].cursor, cursor_for(2, b"users"));
    assert!(info.has_previous_page);
    assert!(info.has_next_page);
    assert_eq!(info.start_cursor, Some(cursor_for(2, b"users")));
    assert_eq!(info.end_cursor, Some(cursor_for(3, b"users")));
}

#[test]
fn backward_page_from_rows() {
    let meta = build_raw("users", None, None, Some(2), Some(cursor_for(9, b"users")), ColumnOpts::All).unwrap();
    let (edges, info) = page_from_rows(rows(&[8, 7], 0), &meta, "users");
    assert_eq!(edges.iter().map(|e| e.node.as_str()).collect::<Vec<_>>(), vec!["n7", "n8"]);
    assert!(!info.has_previous_page);
    assert!(!info.has_next_page);
}

#[test]
fn empty_page_from_rows() {
    let meta = build_raw("users", Some(2), None, None, None, ColumnOpts::All).unwrap();
    let (edges, info) = page_from_rows(rows(&[], 0), &meta, "users");
    assert!(edges.is_empty());
    assert!(info.start_cursor.is_none() && info.end_cursor.is_none());
    assert!(!info.has_previous_page && !info.has_next_page);
}

#[test]
fn paging_on_from_an_end_cursor() {
    let meta = build_raw("users", Some(2), None, None, None, ColumnOpts::All).unwrap();
    let (_, info) = page_from_rows(rows(&[1, 2, 3], 0), &meta, "users");
    let next = build_raw("users", Some(2), info.end_cursor, None, None, ColumnOpts::All).unwrap();
    assert_eq!(next.cursor_filters, Some((IndexFilter::LessThan(2), IndexFilter::GreaterThan(2))));
    let previous = build_raw("users", None, None, Some(2), info.start_cursor, ColumnOpts::All).unwrap();
    assert_eq!(previous.cursor_filters, Some((IndexFilter::GreaterThan(1), IndexFilter::LessThan(1))));
}

#[test]
fn it_can_encode_cursor() {
    let mut buf = Vec::new();
    let cursor = encode_cursor(&mut buf, 1, b"users").unwrap();
    assert_eq!(cursor, "AAAAAAAAAAF1c2Vycw==");
}

#[test]
fn it_can_decode_cursor() {
    assert_eq!(decode_cursor(b"AAAAAAAAAAF1c2Vycw==".to_vec(), b"users").unwrap(), 1);
}

#[test]
fn pagination_error_messages() {
    assert_eq!(PaginationError::FirstAndLast.message(), "The \"first\" and \"last\" parameters cannot exist at the same time");
    assert_eq!(PaginationError::FirstNegative.message(), "The \"first\" parameter must be a non-negative number");
    assert_eq!(PaginationError::FirstTooLarge(200).message(), "The \"first\" parameter must be at most 200");
    assert_eq!(PaginationError::LastNegative.message(), "The \"last\" parameter must be a non-negative number");
    assert_eq!(PaginationError::LastTooLarge(7).message(), "The \"last\" parameter must be at most 7");
    assert_eq!(PaginationError::InvalidParameters.message(), "Invalid pagination parameters");
}

#[test]
fn cursor_and_connection_error_messages() {
    assert_eq!(CursorError::InvalidLength.message(), "Cursor has invalid length");
    assert_eq!(CursorError::IdentityMismatch.message(), "Decoded cursor identity mismatch");
    assert_eq!(ConnectionError::InvalidQuery.message(), "Invalid connections query");
    assert_eq!(ConnectionError::InvalidColumnOpts.message(), "Custom column options cannot be empty");
    assert_eq!(
        ConnectionError::Cursor(CursorError::InvalidLength).message(),
        "Connection spec cursor error: Cursor has invalid length"
    );
}
