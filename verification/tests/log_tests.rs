use walletnode::errors::NodeError;
use walletnode::log_cache::{LogBuffer, LOG_CAPACITY};

fn filled(n: usize) -> LogBuffer {
    let mut buf = LogBuffer::new();
    for i in 0..n {
        buf.add_to_cache(format!("line{}", i));
    }
    buf
}

#[test]
fn test_pagination_of_25_lines() {
    let buf = filled(25);

    let (page1, total) = buf.get_logs(1, 10).unwrap();
    assert_eq!(total, 25);
    let expected1: Vec<String> = (0..10).map(|i| format!("line{}", i)).collect();
    assert_eq!(page1, expected1);

    let (page3, total) = buf.get_logs(3, 10).unwrap();
    assert_eq!(total, 25);
    let expected3: Vec<String> = (20..25).map(|i| format!("line{}", i)).collect();
    assert_eq!(page3, expected3);

    let (page4, total) = buf.get_logs(4, 10).unwrap();
    assert_eq!(total, 25);
    assert!(page4.is_empty());
}

#[test]
fn test_eviction_keeps_most_recent_in_order() {
    let buf = filled(LOG_CAPACITY + 3);
    assert_eq!(buf.len(), LOG_CAPACITY);
    let (first_page, total) = buf.get_logs(1, 5).unwrap();
    assert_eq!(total as usize, LOG_CAPACITY);
    // The three oldest lines were evicted, order kept.
    assert_eq!(first_page[0], "line3");
    assert_eq!(first_page[1], "line4");
    let (last_page, _) = buf.get_logs(LOG_CAPACITY as u32, 1).unwrap();
    assert_eq!(last_page, vec![format!("line{}", LOG_CAPACITY + 2)]);
}

#[test]
fn test_zero_page_or_size_is_invalid() {
    let buf = filled(3);
    assert_eq!(buf.get_logs(0, 10).unwrap_err(), NodeError::InvalidPageRequest);
    assert_eq!(buf.get_logs(1, 0).unwrap_err(), NodeError::InvalidPageRequest);
    assert_eq!(buf.get_logs(0, 0).unwrap_err(), NodeError::InvalidPageRequest);
}

#[test]
fn test_empty_buffer_pages_are_empty() {
    let buf = LogBuffer::new();
    let (lines, total) = buf.get_logs(1, 10).unwrap();
    assert_eq!(total, 0);
    assert!(lines.is_empty());
}

#[test]
fn test_get_node_logs_response() {
    let buf = filled(12);
    let resp = buf.get_node_logs(2, 10).unwrap();
    assert_eq!(resp.total, 12);
    assert_eq!(resp.logs, vec!["line10".to_string(), "line11".to_string()]);
    assert_eq!(buf.get_node_logs(0, 10).unwrap_err(), NodeError::InvalidPageRequest);
}

#[test]
fn test_all_lines_snapshot() {
    let buf = filled(4);
    let lines = buf.all_lines();
    assert_eq!(lines.len(), 4);
    assert_eq!(lines[0], "line0");
    assert_eq!(lines[3], "line3");
}

#[test]
fn test_huge_page_request_stays_in_bounds() {
    let buf = filled(10);
    // A page number and size whose product overflows 32 bits must still
    // answer an empty page with the right total.
    let (lines, total) = buf.get_logs(u32::MAX, u32::MAX).unwrap();
    assert_eq!(total, 10);
    assert!(lines.is_empty());
}
