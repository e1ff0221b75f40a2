use rust_class_web::errors::ErrorKind;
use rust_class_web::utils::extract_path_param;
use rust_class_web::utils::serde_timestamp::{deserialize, serialize, FORMAT};

#[test]
fn path_param_is_handed_on() {
    assert_eq!(extract_path_param(Some(7u32), "id").unwrap(), 7);
    assert_eq!(extract_path_param(Some("x".to_string()), "id").unwrap(), "x");
}

#[test]
fn missing_path_param_is_a_bad_request() {
    let e = extract_path_param::<String>(None, "用户ID").unwrap_err();
    assert_eq!(e.kind(), ErrorKind::BadRequest);
    assert_eq!(e.status_code(), 400);
    assert_eq!(e.message(), "无效的用户ID");
}

#[test]
fn instants_are_written_in_utc() {
    assert_eq!(FORMAT, "%Y-%m-%d %H:%M:%S");
    assert_eq!(serialize(0).unwrap(), "1970-01-01 00:00:00");
    assert_eq!(serialize(1_700_000_000).unwrap(), "2023-11-14 22:13:20");
    assert_eq!(serialize(-1).unwrap(), "1969-12-31 23:59:59");
    assert_eq!(serialize(i64::MAX), None);
}

#[test]
fn instants_are_read_back() {
    assert_eq!(deserialize("1970-01-01 00:00:00"), Ok(0));
    assert_eq!(deserialize("2023-11-14 22:13:20"), Ok(1_700_000_000));
    for seconds in [0i64, 1, 86_399, 951_782_400, 1_700_000_000, 4_102_444_800] {
        assert_eq!(deserialize(&serialize(seconds).unwrap()), Ok(seconds));
    }
}

#[test]
fn what_is_no_instant_is_refused() {
    assert!(deserialize("").is_err());
    assert!(deserialize("2023-11-14").is_err());
    assert!(deserialize("2023-13-01 00:00:00").is_err());
    assert!(deserialize("2023-11-14T22:13:20Z").is_err());
    assert_eq!(deserialize("yesterday").unwrap_err(), "input contains invalid characters");
}
