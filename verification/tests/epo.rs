use garmin_run_tracker::epo::{
    epo_age, strip_leading_bytes, validate_epo_data, EpoAge, EpoPeriod,
};
use garmin_run_tracker::Error;

fn other(error: Error) -> String {
    match error {
        Error::Other(message) => message,
        other => panic!("unexpected {:?}", other),
    }
}

#[test]
fn strip_removes_the_filler_of_each_set() {
    let mut data = Vec::new();
    for set in 0..28u32 {
        data.extend_from_slice(&[10, 128, 192]);
        for i in 0..2304u32 {
            data.push(((set * 7 + i) % 251) as u8);
        }
    }
    let fixed = strip_leading_bytes(data).unwrap();
    assert_eq!(fixed.len(), 28 * 2304);
    for set in 0..28u32 {
        for i in [0u32, 1, 2, 3, 1000, 2303] {
            assert_eq!(fixed[(set * 2304 + i) as usize], ((set * 7 + i) % 251) as u8);
        }
    }
}

#[test]
fn strip_refuses_other_lengths() {
    assert_eq!(
        other(strip_leading_bytes(vec![]).unwrap_err()),
        "EPO data has unexpected length of 0 bytes instead of 64596"
    );
    assert_eq!(
        other(strip_leading_bytes(vec![0; 64595]).unwrap_err()),
        "EPO data has unexpected length of 64595 bytes instead of 64596"
    );
    assert_eq!(
        other(strip_leading_bytes(vec![0; 64597]).unwrap_err()),
        "EPO data has unexpected length of 64597 bytes instead of 64596"
    );
}

fn satellite(hours: u32, fill: u8) -> Vec<u8> {
    let mut record = vec![hours as u8, (hours >> 8) as u8, (hours >> 16) as u8];
    record.resize(71, fill);
    let checksum = record.iter().fold(0, |xor, byte| xor ^ byte);
    record.push(checksum);
    record
}

#[test]
fn valid_data_reports_its_period() {
    let mut data = Vec::new();
    for hours in [400_000u32, 400_006, 399_994, 400_012] {
        data.extend(satellite(hours, hours as u8));
    }
    assert_eq!(
        validate_epo_data(&data, 400_003).unwrap(),
        EpoPeriod { start: 399_994, end: 400_012 }
    );
    // the period never starts after the hour of the check
    assert_eq!(
        validate_epo_data(&data, 100).unwrap(),
        EpoPeriod { start: 100, end: 400_012 }
    );
    assert_eq!(validate_epo_data(&[], 55).unwrap(), EpoPeriod { start: 55, end: 0 });
}

#[test]
fn time_stamp_uses_three_bytes_lowest_first() {
    let data = satellite(0x01_02_03, 0);
    assert_eq!(data[0], 3);
    assert_eq!(data[2], 1);
    assert_eq!(
        validate_epo_data(&data, 0x7fff_ffff).unwrap(),
        EpoPeriod { start: 0x01_02_03, end: 0x01_02_03 }
    );
}

#[test]
fn first_wrong_checksum_is_reported() {
    let mut data = Vec::new();
    for hours in 0..5u32 {
        data.extend(satellite(hours, 9));
    }
    data[72 * 3 + 10] ^= 1;
    data[72 * 4 + 71] ^= 0x80;
    assert_eq!(
        other(validate_epo_data(&data, 0).unwrap_err()),
        "Checksum error in EPO data at offset 216"
    );
    data[5] ^= 4;
    assert_eq!(
        other(validate_epo_data(&data, 0).unwrap_err()),
        "Checksum error in EPO data at offset 0"
    );
}

#[test]
fn age_of_a_time_stamp() {
    assert_eq!(epo_age(1000, 1000), EpoAge::Current);
    assert_eq!(epo_age(1000 + 192, 1000), EpoAge::Current);
    assert_eq!(epo_age(1000 + 193, 1000), EpoAge::TooFarAhead);
    assert_eq!(epo_age(1000 - 24, 1000), EpoAge::Current);
    assert_eq!(epo_age(1000 - 25, 1000), EpoAge::TooOld);
}
