use garmin_run_tracker::db::{
    find_file_by_uuid_query, found_file, new_file_info_query, QueryStringBuilder,
};
use garmin_run_tracker::{Error, FileInfo};

#[test]
fn bare_query() {
    assert_eq!(QueryStringBuilder::new("select 1").to_string(), "select 1");
}

#[test]
fn predicates_are_joined_with_and() {
    let mut query = QueryStringBuilder::new("select a from t");
    query.and_where("a > ?");
    assert_eq!(query.to_string(), "select a from t where a > ?");
    query.and_where("b is null").and_where("c = 1");
    assert_eq!(query.to_string(), "select a from t where a > ? and b is null and c = 1");
}

#[test]
fn orderings_are_joined_with_commas() {
    let mut query = QueryStringBuilder::new("select a from t");
    query.order_by("a asc");
    assert_eq!(query.to_string(), "select a from t order by a asc");
    query.order_by("b desc");
    assert_eq!(query.to_string(), "select a from t order by a asc, b desc");
}

#[test]
fn limit_is_rendered_in_decimal() {
    let mut query = QueryStringBuilder::new("select a from t");
    query.limit(0);
    assert_eq!(query.to_string(), "select a from t limit 0");
    query.limit(10);
    assert_eq!(query.to_string(), "select a from t limit 10");
    query.limit(1234567890);
    assert_eq!(query.to_string(), "select a from t limit 1234567890");
    query.limit(usize::MAX);
    assert_eq!(query.to_string(), format!("select a from t limit {}", usize::MAX));
}

#[test]
fn parts_come_in_fixed_order() {
    let mut query = QueryStringBuilder::new("select a from t");
    query.limit(5).order_by("a").and_where("b = ?").order_by("c desc").and_where("d");
    assert_eq!(
        query.to_string(),
        "select a from t where b = ? and d order by a, c desc limit 5"
    );
}

#[test]
fn fragments_are_not_escaped() {
    let mut query = QueryStringBuilder::new("select 'x'");
    query.and_where("name = 'o''brien'");
    assert_eq!(query.to_string(), "select 'x' where name = 'o''brien'");
}

#[test]
fn file_info_queries() {
    assert_eq!(
        new_file_info_query().to_string(),
        "select id, device_manufacturer, device_product, device_serial_number, time_created, uuid from files"
    );
    assert_eq!(
        find_file_by_uuid_query().to_string(),
        "select id, device_manufacturer, device_product, device_serial_number, time_created, uuid from files where uuid = ?"
    );
}

#[test]
fn outcome_of_a_lookup() {
    let info = FileInfo::new(Some(3), "m".to_string(), "p".to_string(), 1, 2, "abc".to_string());
    assert_eq!(found_file("abc", Some(info.clone())).unwrap(), info);
    match found_file("abc", None) {
        Err(Error::FileDoesNotExistError(uuid)) => assert_eq!(uuid, "abc"),
        other => panic!("unexpected {:?}", other),
    }
}
