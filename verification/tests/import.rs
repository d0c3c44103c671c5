use garmin_run_tracker::fit::{decoded, messages_of, Field, FieldValue, Message, MessageKind};
use garmin_run_tracker::import::{
    bind, bound_fields, import_messages, insert_statement, is_known, stage_messages, to_sql,
    ImportPlan, Insert, SqlParam, Table,
};
use garmin_run_tracker::{generate_uuid, import_fit_data, Error, FileInfo};

fn crc16(data: &[u8]) -> u16 {
    let table: [u16; 16] = [
        0x0000, 0xCC01, 0xD801, 0x1400, 0xF001, 0x3C00, 0x2800, 0xE401, 0xA001, 0x6C00, 0x7800,
        0xB401, 0x5000, 0x9C01, 0x8801, 0x4400,
    ];
    let mut crc: u16 = 0;
    for byte in data {
        for nibble in [byte & 0x0f, byte >> 4] {
            let tmp = table[(crc & 0x0f) as usize];
            crc = ((crc >> 4) & 0x0fff) ^ tmp ^ table[nibble as usize];
        }
    }
    crc
}

fn fit_file(messages: &[u8]) -> Vec<u8> {
    let mut file = vec![12u8, 0x10, 0x64, 0x00];
    file.extend_from_slice(&(messages.len() as u32).to_le_bytes());
    file.extend_from_slice(b".FIT");
    file.extend_from_slice(messages);
    let crc = crc16(&file);
    file.extend_from_slice(&crc.to_le_bytes());
    file
}

fn sample_messages() -> Vec<u8> {
    let mut body = Vec::new();
    // definition of local message 0: file_id
    body.extend_from_slice(&[0x40, 0, 0, 0, 0, 5]);
    body.extend_from_slice(&[0, 1, 0x00, 1, 2, 0x84, 2, 2, 0x84, 3, 4, 0x8c, 4, 4, 0x86]);
    // file_id
    body.push(0x00);
    body.push(4);
    body.extend_from_slice(&1u16.to_le_bytes());
    body.extend_from_slice(&1551u16.to_le_bytes());
    body.extend_from_slice(&0x1234_5678u32.to_le_bytes());
    body.extend_from_slice(&1_000_000_000u32.to_le_bytes());
    // definition of local message 1: record
    body.extend_from_slice(&[0x41, 0, 0, 20, 0, 4]);
    body.extend_from_slice(&[253, 4, 0x86, 0, 4, 0x85, 1, 4, 0x85, 3, 1, 0x02]);
    for i in 0..2u32 {
        body.push(0x01);
        body.extend_from_slice(&(1_000_000_010u32 + i).to_le_bytes());
        body.extend_from_slice(&(459322891i32 + i as i32).to_le_bytes());
        body.extend_from_slice(&(-1434041858i32).to_le_bytes());
        body.push(140 + i as u8);
    }
    // definition of local message 2: lap
    body.extend_from_slice(&[0x42, 0, 0, 19, 0, 4]);
    body.extend_from_slice(&[253, 4, 0x86, 2, 4, 0x86, 3, 4, 0x85, 11, 2, 0x84]);
    body.push(0x02);
    body.extend_from_slice(&1_000_000_100u32.to_le_bytes());
    body.extend_from_slice(&1_000_000_010u32.to_le_bytes());
    body.extend_from_slice(&459322891i32.to_le_bytes());
    body.extend_from_slice(&321u16.to_le_bytes());
    body
}

fn decode(data: &[u8]) -> Result<Vec<Message>, Error> {
    decoded(fitparser::from_bytes(data))
}

fn integer(name: &str, value: i64) -> Field {
    Field::new(name, FieldValue::Integer(value), &value.to_string())
}

fn text(name: &str, value: &str) -> Field {
    Field::new(name, FieldValue::Text(value.to_string()), value)
}

fn message(kind: MessageKind, fields: Vec<Field>) -> Message {
    let mut message = Message::new(kind);
    for field in fields {
        message.push(field);
    }
    message
}

fn file_id(serial: i64) -> Message {
    message(
        MessageKind::FileId,
        vec![
            text("type", "activity"),
            text("manufacturer", "garmin"),
            text("garmin_product", "fr620"),
            integer("serial_number", serial),
            Field::new("time_created", FieldValue::Timestamp(1_600_000_000), "2020-09-13"),
        ],
    )
}

fn record(lat: i64, timestamp: i64) -> Message {
    message(
        MessageKind::Record,
        vec![
            integer("position_lat", lat),
            integer("position_long", -lat),
            Field::new("enhanced_speed", FieldValue::Double(2.5f64.to_bits()), "2.5"),
            Field::new("timestamp", FieldValue::Timestamp(timestamp), "t"),
        ],
    )
}

fn lap(start: i64) -> Message {
    message(
        MessageKind::Lap,
        vec![
            integer("start_position_lat", start),
            integer("total_calories", 321),
            Field::new("start_time", FieldValue::Timestamp(start), "t"),
        ],
    )
}

fn tables(plan: &ImportPlan) -> Vec<Table> {
    plan.inserts.iter().map(|insert| insert.table).collect()
}

#[test]
fn lookup_finds_the_last_field_of_a_name() {
    let m = message(MessageKind::Other, vec![integer("a", 1), integer("b", 2), integer("a", 3)]);
    assert_eq!(m.get("a").unwrap().value, FieldValue::Integer(3));
    assert_eq!(m.get("b").unwrap().value, FieldValue::Integer(2));
    assert!(m.get("c").is_none());
    assert!(Message::new(MessageKind::Lap).get("a").is_none());
}

#[test]
fn to_sql_maps_each_kind_of_value() {
    assert_eq!(to_sql(&FieldValue::Timestamp(5)).unwrap(), SqlParam::Timestamp(5));
    assert_eq!(to_sql(&FieldValue::Integer(-7)).unwrap(), SqlParam::Integer(-7));
    assert_eq!(to_sql(&FieldValue::Single(9)).unwrap(), SqlParam::Single(9));
    assert_eq!(to_sql(&FieldValue::Double(11)).unwrap(), SqlParam::Double(11));
    assert_eq!(
        to_sql(&FieldValue::Text("abc".to_string())).unwrap(),
        SqlParam::Text("abc".to_string())
    );
    assert_eq!(to_sql(&FieldValue::Invalid).unwrap(), SqlParam::Null);
    assert!(matches!(to_sql(&FieldValue::Array), Err(Error::ArrayConversionError)));
}

#[test]
fn bound_fields_follow_the_columns() {
    assert_eq!(
        bound_fields(Table::Files),
        vec!["type", "manufacturer", "garmin_product", "serial_number", "time_created"]
    );
    assert_eq!(
        bound_fields(Table::Records),
        vec!["position_lat", "position_long", "enhanced_speed", "distance", "heart_rate", "timestamp"]
    );
    assert_eq!(bound_fields(Table::Laps).len(), 10);
    assert_eq!(bound_fields(Table::Laps)[4], "enhanced_avg_speed");
    assert_eq!(bound_fields(Table::Laps)[9], "timestamp");
    assert!(insert_statement(Table::Files).starts_with("insert into files ("));
    assert!(insert_statement(Table::Laps).ends_with("?11)"));
    assert!(insert_statement(Table::Records).ends_with("?7)"));
}

#[test]
fn bind_gives_null_for_missing_fields() {
    let values = bind(&record(10, 20), &bound_fields(Table::Records)).unwrap();
    assert_eq!(
        values,
        vec![
            SqlParam::Integer(10),
            SqlParam::Integer(-10),
            SqlParam::Double(2.5f64.to_bits()),
            SqlParam::Null,
            SqlParam::Null,
            SqlParam::Timestamp(20),
        ]
    );
}

#[test]
fn bind_refuses_arrays() {
    let m = message(
        MessageKind::Record,
        vec![integer("position_lat", 1), Field::new("distance", FieldValue::Array, "[1, 2]")],
    );
    assert!(matches!(
        bind(&m, &bound_fields(Table::Records)),
        Err(Error::ArrayConversionError)
    ));
    // an array in a field that is not bound does no harm
    let m = message(MessageKind::Record, vec![Field::new("other", FieldValue::Array, "[]")]);
    assert!(bind(&m, &bound_fields(Table::Records)).is_ok());
}

#[test]
fn staging_a_simple_file() {
    let messages = vec![file_id(77), record(1, 100), lap(5), record(2, 101)];
    let plan = stage_messages("some-uuid", &messages).unwrap();
    assert_eq!(tables(&plan), vec![Table::Files, Table::Records, Table::Laps, Table::Records]);
    assert_eq!(
        plan.inserts[0].values,
        vec![
            SqlParam::Text("activity".to_string()),
            SqlParam::Text("garmin".to_string()),
            SqlParam::Text("fr620".to_string()),
            SqlParam::Integer(77),
            SqlParam::Timestamp(1_600_000_000),
            SqlParam::Text("some-uuid".to_string()),
        ]
    );
    assert_eq!(plan.inserts[2].values.len(), 10);
    assert_eq!(plan.inserts[2].values[0], SqlParam::Integer(5));
    assert_eq!(plan.inserts[2].values[6], SqlParam::Integer(321));
    assert_eq!(plan.inserts[2].values[8], SqlParam::Timestamp(5));
    assert_eq!(plan.inserts[2].values[9], SqlParam::Null);
    assert_eq!(plan.file_info.id(), None);
    assert_eq!(plan.file_info.manufacturer(), "garmin");
    assert_eq!(plan.file_info.product(), "fr620");
    assert_eq!(plan.file_info.serial_number(), 77);
    assert_eq!(plan.file_info.timestamp(), 1_600_000_000);
    assert_eq!(plan.file_info.uuid(), "some-uuid");
}

#[test]
fn rows_keep_the_order_of_their_messages() {
    let mut messages = vec![file_id(1)];
    for i in 0..50 {
        messages.push(record(i, 1000 + i));
        if i % 10 == 9 {
            messages.push(lap(i));
        }
        messages.push(Message::new(MessageKind::Other));
    }
    let plan = stage_messages("u", &messages).unwrap();
    let records: Vec<&Insert> =
        plan.inserts.iter().filter(|insert| insert.table == Table::Records).collect();
    let laps: Vec<&Insert> =
        plan.inserts.iter().filter(|insert| insert.table == Table::Laps).collect();
    assert_eq!(records.len(), 50);
    assert_eq!(laps.len(), 5);
    for (i, insert) in records.iter().enumerate() {
        assert_eq!(insert.values[0], SqlParam::Integer(i as i64));
        assert_eq!(insert.values[5], SqlParam::Timestamp(1000 + i as i64));
    }
    for (i, insert) in laps.iter().enumerate() {
        assert_eq!(insert.values[0], SqlParam::Integer(10 * i as i64 + 9));
    }
    assert_eq!(plan.inserts.len(), 56);
    assert_eq!(plan.inserts[0].table, Table::Files);
}

#[test]
fn messages_before_the_file_identification_are_passed_over() {
    let messages = vec![record(1, 100), lap(2), file_id(5), record(3, 101)];
    let plan = stage_messages("u", &messages).unwrap();
    assert_eq!(tables(&plan), vec![Table::Files, Table::Records]);
    assert_eq!(plan.inserts[1].values[0], SqlParam::Integer(3));
}

#[test]
fn other_kinds_are_ignored() {
    let other = message(MessageKind::Other, vec![Field::new("x", FieldValue::Array, "[]")]);
    let plan = stage_messages("u", &vec![other.clone(), file_id(5), other]).unwrap();
    assert_eq!(tables(&plan), vec![Table::Files]);
}

#[test]
fn a_chained_file_describes_its_last_part() {
    let messages = vec![file_id(1), record(1, 100), file_id(2), record(2, 200)];
    let plan = stage_messages("u", &messages).unwrap();
    assert_eq!(tables(&plan), vec![Table::Files, Table::Records, Table::Files, Table::Records]);
    assert_eq!(plan.file_info.serial_number(), 2);
}

#[test]
fn missing_file_identification() {
    match stage_messages("the-uuid", &vec![record(1, 100), lap(1)]) {
        Err(Error::FileIdMessageNotFound(uuid)) => assert_eq!(uuid, "the-uuid"),
        other => panic!("unexpected {:?}", other),
    }
    assert!(matches!(stage_messages("u", &vec![]), Err(Error::FileIdMessageNotFound(_))));
}

#[test]
fn failure_after_rows_were_staged_leaves_no_plan() {
    let broken = message(
        MessageKind::Record,
        vec![Field::new("position_lat", FieldValue::Array, "[1]")],
    );
    let messages = vec![file_id(1), record(1, 100), record(2, 101), broken, record(3, 102)];
    assert!(matches!(stage_messages("u", &messages), Err(Error::ArrayConversionError)));
}

#[test]
fn file_identification_defaults() {
    let plan = stage_messages("u", &vec![Message::new(MessageKind::FileId)]).unwrap();
    assert_eq!(plan.file_info.manufacturer(), "");
    assert_eq!(plan.file_info.product(), "");
    assert_eq!(plan.file_info.serial_number(), u32::MAX);
    assert_eq!(plan.file_info.timestamp(), 0);
    assert_eq!(
        plan.inserts[0].values,
        vec![
            SqlParam::Null,
            SqlParam::Null,
            SqlParam::Null,
            SqlParam::Null,
            SqlParam::Null,
            SqlParam::Text("u".to_string()),
        ]
    );
}

#[test]
fn serial_number_keeps_the_low_32_bits() {
    let plan = stage_messages("u", &vec![file_id(0x1_2345_6789)]).unwrap();
    assert_eq!(plan.file_info.serial_number(), 0x2345_6789);
    let m = message(
        MessageKind::FileId,
        vec![Field::new("serial_number", FieldValue::Timestamp(42), "t")],
    );
    assert_eq!(stage_messages("u", &vec![m]).unwrap().file_info.serial_number(), 42);
}

#[test]
fn serial_number_of_the_wrong_type() {
    let m = message(MessageKind::FileId, vec![text("serial_number", "abc")]);
    match stage_messages("u", &vec![m]) {
        Err(error @ Error::FitParser(_)) => {
            assert_eq!(error.message(), "value error: cannot convert abc into an i64")
        }
        other => panic!("unexpected {:?}", other),
    }
    let m = message(
        MessageKind::FileId,
        vec![Field::new("serial_number", FieldValue::Invalid, "")],
    );
    match stage_messages("u", &vec![m]) {
        Err(error @ Error::FitParser(_)) => assert_eq!(
            error.message(),
            "value error: cannot convert an invalid value into an i64"
        ),
        other => panic!("unexpected {:?}", other),
    }
}

#[test]
fn creation_time_that_is_no_timestamp_counts_as_the_epoch() {
    let m = message(MessageKind::FileId, vec![integer("time_created", 99)]);
    assert_eq!(stage_messages("u", &vec![m]).unwrap().file_info.timestamp(), 0);
}

#[test]
fn known_fingerprints() {
    let known = vec!["a".to_string(), "b".to_string()];
    assert!(is_known("a", &known));
    assert!(is_known("b", &known));
    assert!(!is_known("c", &known));
    assert!(!is_known("a", &vec![]));
}

#[test]
fn import_refuses_a_known_fingerprint() {
    let known = vec!["x".to_string(), "u".to_string()];
    match import_messages("u", &known, &vec![file_id(1)]) {
        Err(Error::DuplicateFileError(uuid)) => assert_eq!(uuid, "u"),
        other => panic!("unexpected {:?}", other),
    }
    assert!(import_messages("v", &known, &vec![file_id(1)]).is_ok());
}

#[test]
fn importing_the_same_bytes_twice() {
    let file = fit_file(&sample_messages());
    let mut known: Vec<String> = Vec::new();
    let mut stored: Vec<Insert> = Vec::new();
    let plan = import_fit_data(&file, &known, decode).unwrap();
    known.push(plan.file_info.uuid().to_string());
    stored.extend(plan.inserts);
    let rows = stored.len();
    match import_fit_data(&file, &known, decode) {
        Err(Error::DuplicateFileError(uuid)) => assert_eq!(uuid, generate_uuid(&file)),
        other => panic!("unexpected {:?}", other),
    }
    assert_eq!(stored.len(), rows);
    assert_eq!(rows, 4);
}

#[test]
fn import_of_a_decoded_file() {
    let file = fit_file(&sample_messages());
    let plan = import_fit_data(&file, &vec![], decode).unwrap();
    assert_eq!(tables(&plan), vec![Table::Files, Table::Records, Table::Records, Table::Laps]);
    assert_eq!(plan.file_info.uuid(), generate_uuid(&file));
    assert_eq!(plan.file_info.manufacturer(), "garmin");
    assert_eq!(plan.file_info.product(), "fenix");
    assert_eq!(plan.file_info.serial_number(), 0x1234_5678);
    assert_eq!(plan.file_info.timestamp(), 1_631_065_600);
    assert_eq!(plan.file_info.id(), None);
    assert_eq!(
        plan.inserts[0].values,
        vec![
            SqlParam::Text("activity".to_string()),
            SqlParam::Text("garmin".to_string()),
            SqlParam::Text("fenix".to_string()),
            SqlParam::Integer(0x1234_5678),
            SqlParam::Timestamp(1_631_065_600),
            SqlParam::Text(generate_uuid(&file)),
        ]
    );
    assert_eq!(
        plan.inserts[2].values,
        vec![
            SqlParam::Integer(459322892),
            SqlParam::Integer(-1434041858),
            SqlParam::Null,
            SqlParam::Null,
            SqlParam::Integer(141),
            SqlParam::Timestamp(1_631_065_611),
        ]
    );
    assert_eq!(plan.inserts[3].values[0], SqlParam::Integer(459322891));
    assert_eq!(plan.inserts[3].values[6], SqlParam::Integer(321));
    assert_eq!(plan.inserts[3].values[8], SqlParam::Timestamp(1_631_065_610));
    assert_eq!(plan.inserts[3].values[9], SqlParam::Timestamp(1_631_065_700));
}

#[test]
fn decoding_copies_records_into_messages() {
    let messages = decode(&fit_file(&sample_messages())).unwrap();
    assert_eq!(messages.len(), 4);
    assert_eq!(messages[0].kind, MessageKind::FileId);
    assert_eq!(messages[1].kind, MessageKind::Record);
    assert_eq!(messages[2].kind, MessageKind::Record);
    assert_eq!(messages[3].kind, MessageKind::Lap);
    let names: Vec<&str> = messages[0].fields.iter().map(|f| f.name.as_str()).collect();
    assert_eq!(names, vec!["type", "manufacturer", "garmin_product", "serial_number", "time_created"]);
    assert_eq!(messages[0].fields[1].value, FieldValue::Text("garmin".to_string()));
    assert_eq!(messages[0].fields[1].text, "garmin");
    assert_eq!(messages[0].fields[3].value, FieldValue::Integer(305419896));
    assert_eq!(messages[0].fields[3].text, "305419896");
    assert_eq!(messages[0].fields[4].value, FieldValue::Timestamp(1_631_065_600));
    assert_eq!(messages[1].get("position_long").unwrap().value, FieldValue::Integer(-1434041858));
}

#[test]
fn decoding_other_kinds() {
    // a device_info message (global number 23) with one field
    let mut body = vec![0x40, 0, 0, 23, 0, 1, 3, 4, 0x8c];
    body.push(0x00);
    body.extend_from_slice(&99u32.to_le_bytes());
    let messages = decode(&fit_file(&body)).unwrap();
    assert_eq!(messages.len(), 1);
    assert_eq!(messages[0].kind, MessageKind::Other);
    match import_fit_data(&fit_file(&body), &vec![], decode) {
        Err(Error::FileIdMessageNotFound(uuid)) => assert_eq!(uuid, generate_uuid(&fit_file(&body))),
        other => panic!("unexpected {:?}", other),
    }
}

#[test]
fn decoding_failures_are_passed_on() {
    assert!(matches!(decode(b"garbage"), Err(Error::FitParser(_))));
    let mut file = fit_file(&sample_messages());
    let last = file.len() - 1;
    file[last] ^= 0xff;
    assert!(matches!(decode(&file), Err(Error::FitParser(_))));
    assert!(matches!(import_fit_data(&file, &vec![], decode), Err(Error::FitParser(_))));
    // a known fingerprint is refused before the bytes are decoded
    assert!(matches!(
        import_fit_data(b"garbage", &vec![generate_uuid(b"garbage")], decode),
        Err(Error::DuplicateFileError(_))
    ));
}

#[test]
fn the_decoder_is_not_called_for_a_known_file() {
    let file = fit_file(&sample_messages());
    let known = vec![generate_uuid(&file)];
    let mut calls = 0;
    let result = import_fit_data(&file, &known, |bytes| {
        calls += 1;
        decode(bytes)
    });
    assert!(matches!(result, Err(Error::DuplicateFileError(_))));
    assert_eq!(calls, 0);
    let result = import_fit_data(&file, &vec![], |bytes| {
        calls += 1;
        assert_eq!(bytes, &file[..]);
        decode(bytes)
    });
    assert!(result.is_ok());
    assert_eq!(calls, 1);
}

#[test]
fn the_failure_of_the_decoder_is_passed_on_unchanged() {
    let result = import_fit_data(b"x", &vec![], |_| Err(Error::Other("no decoder".to_string())));
    match result {
        Err(Error::Other(message)) => assert_eq!(message, "no decoder"),
        other => panic!("unexpected {:?}", other),
    }
}

#[test]
fn records_become_messages_one_for_one() {
    let records = fitparser::from_bytes(&fit_file(&sample_messages())).unwrap();
    let messages = messages_of(&records);
    assert_eq!(messages.len(), records.len());
    for (message, record) in messages.iter().zip(&records) {
        assert_eq!(message.fields.len(), record.fields().len());
        for (field, source) in message.fields.iter().zip(record.fields()) {
            assert_eq!(field.name, source.name());
            assert_eq!(field.text, source.value().to_string());
        }
    }
    assert!(messages_of(&[]).is_empty());
}

#[test]
fn import_of_empty_content() {
    assert!(matches!(import_fit_data(&[], &vec![], decode), Err(Error::FileIdMessageNotFound(_))));
}

#[test]
fn file_info_once_persisted() {
    let info = FileInfo::new(None, "m".to_string(), "p".to_string(), 1, 2, "u".to_string());
    assert_eq!(info.id(), None);
    let info = info.persisted(17);
    assert_eq!(info.id(), Some(17));
    assert_eq!(info.manufacturer(), "m");
    assert_eq!(info.product(), "p");
    assert_eq!(info.serial_number(), 1);
    assert_eq!(info.timestamp(), 2);
    assert_eq!(info.uuid(), "u");
    assert_eq!(info.persisted(0x1_0000_0005).id(), Some(5));
}
