use garmin_run_tracker::gps::{
    encode, encode_coordinates, encode_points, semicircles_to_e5, Location,
};

#[test]
fn encode_reference_values() {
    assert_eq!(encode(3850000, 0).unwrap(), "_p~iF");
    assert_eq!(encode(-12020000, 0).unwrap(), "~ps|U");
    assert_eq!(encode(4070000, 3850000).unwrap(), "_ulL");
    assert_eq!(encode(-12095000, -12020000).unwrap(), "nnqC");
}

#[test]
fn encode_small_deltas() {
    assert_eq!(encode(0, 0).unwrap(), "?");
    assert_eq!(encode(-1, 0).unwrap(), "@");
    assert_eq!(encode(1, 0).unwrap(), "A");
    assert_eq!(encode(16, 0).unwrap(), "_@");
}

#[test]
fn encode_limits_of_the_encodable_range() {
    assert_eq!(encode(0x3fff_ffff, 0).unwrap(), "}~~~~~@");
    assert_eq!(encode(-0x4000_0000, 0).unwrap(), "~~~~~~@");
    assert_eq!(encode(0x4000_0000, 0).unwrap_err(), "Couldn't convert character");
    assert_eq!(encode(-0x4000_0001, 0).unwrap_err(), "Couldn't convert character");
    assert_eq!(encode(i32::MAX, i32::MIN).unwrap_err(), "Couldn't convert character");
    assert_eq!(encode(i32::MIN, i32::MAX).unwrap_err(), "Couldn't convert character");
}

#[test]
fn polyline_of_two_points() {
    let points = [(3850000, -12020000), (4070000, -12095000)];
    assert_eq!(encode_points(&points).unwrap(), "_p~iF~ps|U_ulLnnqC");
}

#[test]
fn polyline_reference_vector() {
    let points = [(3850000, -12020000), (4070000, -12095000), (4325200, -12645300)];
    assert_eq!(encode_points(&points).unwrap(), "_p~iF~ps|U_ulLnnqC_mqNvxq`@");
}

#[test]
fn polyline_is_order_sensitive() {
    let forward = [(3850000, -12020000), (4070000, -12095000)];
    let backward = [(4070000, -12095000), (3850000, -12020000)];
    assert_ne!(encode_points(&forward).unwrap(), encode_points(&backward).unwrap());
}

#[test]
fn polyline_of_nothing_is_empty() {
    assert_eq!(encode_points(&[]).unwrap(), "");
    assert_eq!(encode_coordinates(&[]).unwrap(), "");
}

#[test]
fn polyline_fails_on_a_delta_out_of_range() {
    let points = [(0, 0), (0x4000_0000, 0)];
    assert_eq!(encode_points(&points).unwrap_err(), "Couldn't convert character");
}

#[test]
fn coordinate_conversion() {
    assert_eq!(semicircles_to_e5(0), 0);
    assert_eq!(semicircles_to_e5(i32::MAX), 18_000_000);
    assert_eq!(semicircles_to_e5(i32::MIN), -18_000_000);
    assert_eq!(semicircles_to_e5(i32::MIN) as f64 / 100_000.0, -180.0);
    assert_eq!(semicircles_to_e5(i32::MAX) as f64 / 100_000.0, 180.0);
    assert_eq!(semicircles_to_e5(0) as f64 / 100_000.0, 0.0);
    assert_eq!(semicircles_to_e5(1 << 30), 9_000_000);
    assert_eq!(semicircles_to_e5(-(1 << 30)), -9_000_000);
}

#[test]
fn coordinate_conversion_rounds_to_nearest() {
    assert_eq!(semicircles_to_e5(459312551), 3849913);
    assert_eq!(semicircles_to_e5(-1434567890), -12024409);
    assert_eq!(semicircles_to_e5(1), 0);
    assert_eq!(semicircles_to_e5(-1), 0);
    // 60 semicircles are 0.503 units, 59 are 0.495
    assert_eq!(semicircles_to_e5(60), 1);
    assert_eq!(semicircles_to_e5(59), 0);
    assert_eq!(semicircles_to_e5(-60), -1);
    assert_eq!(semicircles_to_e5(-59), 0);
}

#[test]
fn location_from_fit_coordinates() {
    let location = Location::from_fit_coordinates(459322891, -1434041858);
    assert_eq!(location.latitude_semicircles(), 459322891);
    assert_eq!(location.longitude_semicircles(), -1434041858);
    assert_eq!(location.latitude(), 3850000);
    assert_eq!(location.longitude(), -12020000);
    assert_eq!(location.elevation(), None);
}

#[test]
fn location_set_elevation() {
    let mut location = Location::from_fit_coordinates(10, 20);
    location.set_elevation(Some(123.5f32.to_bits()));
    assert_eq!(location.elevation().map(f32::from_bits), Some(123.5));
    assert_eq!(location.latitude_semicircles(), 10);
    assert_eq!(location.longitude_semicircles(), 20);
    location.set_elevation(None);
    assert_eq!(location.elevation(), None);
}

#[test]
fn encode_coordinates_of_locations() {
    let trace = [
        Location::from_fit_coordinates(459322891, -1434041858),
        Location::from_fit_coordinates(485569914, -1442989707),
    ];
    assert_eq!(encode_coordinates(&trace).unwrap(), "_p~iF~ps|U_ulLnnqC");
}

// A decoder for the polyline format, to read encoded text back.
fn read_polyline(text: &str) -> Vec<(i64, i64)> {
    let mut values = Vec::new();
    let mut value: i64 = 0;
    let mut shift = 0;
    for c in text.chars() {
        let chunk = c as i64 - 63;
        value |= (chunk & 0x1f) << shift;
        shift += 5;
        if chunk < 0x20 {
            values.push(if value & 1 == 1 { !(value >> 1) } else { value >> 1 });
            value = 0;
            shift = 0;
        }
    }
    let mut points = Vec::new();
    let mut previous = (0, 0);
    for pair in values.chunks(2) {
        previous = (previous.0 + pair[0], previous.1 + pair[1]);
        points.push(previous);
    }
    points
}

#[test]
fn polyline_round_trip() {
    let sequences: Vec<Vec<(i32, i32)>> = vec![
        vec![],
        vec![(0, 0)],
        vec![(3850000, -12020000), (4070000, -12095000)],
        vec![(3850000, -12020000), (4070000, -12095000), (4325200, -12645300)],
        vec![(9_000_000, 18_000_000), (-9_000_000, -18_000_000), (9_000_000, 18_000_000)],
        vec![(1, -1), (1, -1), (0, 0), (31, 32), (-32, -33), (1023, 1024)],
    ];
    for points in sequences {
        let text = encode_points(&points).unwrap();
        let expected: Vec<(i64, i64)> =
            points.iter().map(|p| (p.0 as i64, p.1 as i64)).collect();
        assert_eq!(read_polyline(&text), expected);
    }
}

#[test]
fn polyline_reference_vector_reads_back() {
    assert_eq!(
        read_polyline("_p~iF~ps|U_ulLnnqC_mqNvxq`@"),
        vec![(3850000, -12020000), (4070000, -12095000), (4325200, -12645300)]
    );
    assert_eq!(
        read_polyline("_p~iF~ps|U_ulLnnqC"),
        vec![(3850000, -12020000), (4070000, -12095000)]
    );
}
