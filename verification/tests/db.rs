use harbr::db::DbType;

#[test]
fn only_sqlite_urls_have_a_database_type() {
    assert_eq!(DbType::from_url("sqlite://harbr.db"), Some(DbType::SQLite));
    assert_eq!(DbType::from_url("sqlite::memory:"), Some(DbType::SQLite));
    assert_eq!(DbType::from_url("sqlite"), Some(DbType::SQLite));
    assert_eq!(DbType::from_url("mysql://localhost/harbr"), None);
    assert_eq!(DbType::from_url("sqlit"), None);
    assert_eq!(DbType::from_url(""), None);
    assert_eq!(DbType::from_url("SQLITE://x"), None);
    assert_eq!(DbType::from_url(" sqlite://x"), None);
}

#[test]
fn a_placeholder_is_a_dollar_and_the_number() {
    assert_eq!(DbType::SQLite.placeholder(1), "$1");
    assert_eq!(DbType::SQLite.placeholder(0), "$0");
    assert_eq!(DbType::SQLite.placeholder(12), "$12");
    assert_eq!(DbType::SQLite.placeholder(1005), "$1005");
}

#[test]
fn the_clock_is_read_with_datetime() {
    assert_eq!(DbType::SQLite.datetime_now(), "DATETIME('now')");
}

#[test]
fn a_pattern_is_matched_with_regard_to_case() {
    assert_eq!(DbType::SQLite.like_escape("%demo%"), "LIKE '%demo%' COLLATE BINARY");
    assert_eq!(DbType::SQLite.like_escape(""), "LIKE '' COLLATE BINARY");
}
