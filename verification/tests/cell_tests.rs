use rust_in_space::cell::{FetchCell, FetchError, Phase};

#[test]
fn new_cell_is_pending() {
    let cell: FetchCell<String> = FetchCell::new();
    assert_eq!(cell.phase(), Phase::Pending);
    assert!(cell.data.is_none());
    assert!(cell.errors.is_empty());
    assert_eq!(cell.next_token, 0);
    assert!(cell.current.is_none());
}

#[test]
fn request_issues_increasing_tokens() {
    let mut cell: FetchCell<String> = FetchCell::new();
    let t0 = cell.request();
    assert_eq!(t0, 0);
    assert_eq!(cell.phase(), Phase::Pending);
    let t1 = cell.request();
    assert_eq!(t1, 1);
    assert_eq!(cell.current, Some(1));
    assert_eq!(cell.next_token, 2);
}

#[test]
fn resolve_ok_moves_to_ready() {
    let mut cell: FetchCell<String> = FetchCell::new();
    let t = cell.request();
    cell.resolve(t, Ok(vec!["a".to_string(), "b".to_string()]));
    assert_eq!(cell.phase(), Phase::Ready);
    assert_eq!(cell.data, Some(vec!["a".to_string(), "b".to_string()]));
    assert!(cell.errors.is_empty());
}

#[test]
fn resolve_err_gives_exactly_one_error_and_keeps_data() {
    let mut cell: FetchCell<String> = FetchCell::new();
    let t = cell.request();
    cell.resolve(t, Ok(vec!["kept".to_string()]));
    let t2 = cell.request();
    cell.resolve(t2, Err(FetchError::Transport("http status 500".to_string())));
    assert_eq!(cell.phase(), Phase::Failed);
    assert_eq!(cell.errors, vec!["http status 500".to_string()]);
    assert_eq!(cell.data, Some(vec!["kept".to_string()]));
}

#[test]
fn stale_token_is_discarded() {
    let mut cell: FetchCell<String> = FetchCell::new();
    let t_old = cell.request();
    let t_new = cell.request();
    cell.resolve(t_new, Ok(vec!["new".to_string()]));
    let snapshot = cell.data.clone();
    cell.resolve(t_old, Ok(vec!["old".to_string()]));
    assert_eq!(cell.data, snapshot);
    assert_eq!(cell.phase(), Phase::Ready);
    assert_eq!(cell.data, Some(vec!["new".to_string()]));
}

#[test]
fn reject_shows_exactly_the_message() {
    let mut cell: FetchCell<String> = FetchCell::new();
    cell.reject("no good".to_string());
    assert_eq!(cell.phase(), Phase::Failed);
    assert_eq!(cell.errors, vec!["no good".to_string()]);
    assert!(cell.data.is_none());
}

#[test]
fn transport_error_message_is_carried() {
    let e = FetchError::Transport("connection refused".to_string());
    assert_eq!(e.message(), "connection refused".to_string());
}

#[test]
fn decode_error_message_is_carried() {
    let e = FetchError::Decode("missing field results".to_string());
    assert_eq!(e.message(), "missing field results".to_string());
}
