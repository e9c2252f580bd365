use location_history::codec::{MacAddr, Timestamp};
use location_history::error::{DecodeError, FormatError};
use location_history::protocol::{LngLat, LocationEntry};
use location_history::tokens::{ActivityType, DeviceDesignation, Source, TokenSet};
use location_history::{read_entries, read_json_entries, JsonBytes, Sink};

fn collect(text: &str) -> (Vec<LocationEntry>, Result<(), DecodeError>) {
    let mut seen = Vec::new();
    let (result, _sink) = read_json_entries(text.as_bytes(), |entry| seen.push(entry));
    (seen, result)
}

fn minimal(tag: i32) -> String {
    format!(
        "{{\"timestamp\":\"2022-01-12T17:18:24.190Z\",\"latitudeE7\":593293000,\
         \"longitudeE7\":180686000,\"accuracy\":13,\"source\":\"WIFI\",\"deviceTag\":{}}}",
        tag
    )
}

fn document(records: &[String]) -> String {
    format!("{{\"locations\":[{}]}}", records.join(","))
}

#[test]
fn every_record_reaches_the_sink_once_and_in_order() {
    let records: Vec<String> = (0..50).map(minimal).collect();
    let (seen, result) = collect(&document(&records));
    assert!(result.is_ok());
    assert_eq!(seen.len(), 50);
    for (i, entry) in seen.iter().enumerate() {
        assert_eq!(entry.device_tag, i as i32);
    }
}

#[test]
fn empty_array_never_calls_the_sink() {
    let (seen, result) = collect("{\"locations\": []}");
    assert!(result.is_ok());
    assert!(seen.is_empty());
}

#[test]
fn empty_envelope_is_a_success() {
    let (seen, result) = collect(" { } ");
    assert!(result.is_ok());
    assert!(seen.is_empty());
}

#[test]
fn whitespace_between_tokens_is_skipped() {
    let text = " {\r\n\t\"locations\" : [ {\"timestamp\" : \"2022-01-12T17:18:24.190Z\" ,\n \
                \"latitudeE7\": 1, \"longitudeE7\" :2 , \"accuracy\":3, \"source\": \"GPS\", \
                \"deviceTag\": 4 } ] } ";
    let (seen, result) = collect(text);
    assert!(result.is_ok());
    assert_eq!(seen.len(), 1);
    assert_eq!(seen[0].source, Source::Gps);
}

#[test]
fn second_locations_field_is_a_duplicate() {
    let text = format!(
        "{{\"locations\":[{},{}],\"locations\":[{}]}}",
        minimal(1),
        minimal(2),
        minimal(3)
    );
    let (seen, result) = collect(&text);
    assert_eq!(seen.len(), 2);
    assert_eq!(seen[1].device_tag, 2);
    match result {
        Err(DecodeError::DuplicateField { name }) => assert_eq!(name, "locations"),
        other => panic!("expected a duplicate field, got {:?}", other),
    }
}

#[test]
fn other_envelope_fields_are_read_past() {
    let text = format!(
        "{{\"version\":{{\"a\":[1,2,{{\"b\":null}}]}},\"locations\":[{}],\"note\":\"x\"}}",
        minimal(7)
    );
    let (seen, result) = collect(&text);
    assert!(result.is_ok());
    assert_eq!(seen.len(), 1);
    assert_eq!(seen[0].device_tag, 7);
}

#[test]
fn what_follows_the_envelope_is_not_read() {
    let text = format!("{{\"locations\":[{}]}} trailing", minimal(1));
    let (seen, result) = collect(&text);
    assert!(result.is_ok());
    assert_eq!(seen.len(), 1);
}

#[test]
fn malformed_input_is_a_syntax_error() {
    let (seen, result) = collect("[1, 2]");
    assert!(seen.is_empty());
    match result {
        Err(DecodeError::Syntax { offset, cause }) => {
            assert_eq!(offset, 0);
            assert!(cause.is_none());
        },
        other => panic!("expected a syntax error, got {:?}", other),
    }
    let (_, result) = collect("{\"locations\": [{\"timestamp\": tru}]}");
    match result {
        Err(DecodeError::Syntax { cause, .. }) => assert!(cause.is_some()),
        other => panic!("expected a syntax error, got {:?}", other),
    }
}

#[test]
fn error_after_a_record_keeps_the_record() {
    let text = format!("{{\"locations\":[{} {}]}}", minimal(1), minimal(2));
    let (seen, result) = collect(&text);
    assert_eq!(seen.len(), 1);
    assert!(matches!(result, Err(DecodeError::Syntax { .. })));
}

#[test]
fn trailing_comma_is_rejected() {
    let text = format!("{{\"locations\":[{},]}}", minimal(1));
    let (seen, result) = collect(&text);
    assert_eq!(seen.len(), 1);
    assert!(matches!(result, Err(DecodeError::Syntax { .. })));
}

#[test]
fn fixed_point_coordinates() {
    let text = "{\"locations\":[{\"timestamp\":\"2022-01-12T17:18:24.190Z\",\
                \"latitudeE7\":593293000,\"longitudeE7\":-700000000,\"accuracy\":13,\
                \"source\":\"CELL\",\"deviceTag\":-5}]}";
    let (seen, result) = collect(text);
    assert!(result.is_ok());
    let entry = &seen[0];
    assert_eq!(entry.location.latitude_e7, 593293000);
    assert_eq!(entry.location.longitude_e7, -700000000);
    let point = entry.lnglat();
    let lat = point.lat() as f32 / 10_000_000.0;
    let lng = point.lng() as f32 / 10_000_000.0;
    assert!((lat - 59.3293).abs() < 1e-4);
    assert_eq!(lng, -70.0);
    assert_eq!(entry.device_tag, -5);
    assert_eq!(entry.source, Source::Cell);
}

#[test]
fn coordinate_out_of_range_is_a_format_error() {
    let text = "{\"locations\":[{\"latitudeE7\":3000000000}]}";
    let (seen, result) = collect(text);
    assert!(seen.is_empty());
    match result {
        Err(DecodeError::Format { field, reason }) => {
            assert_eq!(field, "latitudeE7");
            assert_eq!(reason, FormatError::IntegerRange);
        },
        other => panic!("expected a format error, got {:?}", other),
    }
}

#[test]
fn timestamps_are_instants_with_offset() {
    let utc = Timestamp::parse("2022-01-12T17:18:24.190Z").unwrap();
    assert_eq!(utc.unix_seconds, 1642007904);
    assert_eq!(utc.nanosecond, 190_000_000);
    assert_eq!(utc.offset_seconds, 0);
    let east = Timestamp::parse("2013-05-01T10:00:00+02:00").unwrap();
    assert_eq!(east.unix_seconds, 1367395200);
    assert_eq!(east.nanosecond, 0);
    assert_eq!(east.offset_seconds, 7200);
    assert_eq!(Timestamp::parse("yesterday"), Err(FormatError::DateTime));
    assert_eq!(Timestamp::parse("2022-01-12 17:18:24"), Err(FormatError::DateTime));
}

#[test]
fn record_timestamp_is_the_fix_timestamp() {
    let (seen, _) = collect(&document(&[minimal(1)]));
    let stamp = seen[0].timestamp();
    assert_eq!(stamp, Timestamp::from_parts(1642007904, 190_000_000, 0));
}

#[test]
fn bad_timestamp_names_its_field() {
    let text = "{\"locations\":[{\"timestamp\":\"noon\"}]}";
    let (_, result) = collect(text);
    match result {
        Err(DecodeError::Format { field, reason }) => {
            assert_eq!(field, "timestamp");
            assert_eq!(reason, FormatError::DateTime);
        },
        other => panic!("expected a format error, got {:?}", other),
    }
}

#[test]
fn hardware_address_from_decimal() {
    let mac = MacAddr::from_decimal("281474976710655").unwrap();
    assert_eq!(mac, MacAddr::new(0xff, 0xff, 0xff, 0xff, 0xff, 0xff));
    assert_eq!(mac.0, [0xff; 6]);
    let mac = MacAddr::from_decimal("1108152157446").unwrap();
    assert_eq!(mac.0, [0x01, 0x02, 0x03, 0x04, 0x05, 0x06]);
    assert_eq!(MacAddr::from_decimal("+0").unwrap().0, [0; 6]);
    assert_eq!(MacAddr::from_decimal("0000000000000000000000255").unwrap().0, [0, 0, 0, 0, 0, 255]);
}

#[test]
fn hardware_address_beyond_48_bits() {
    assert_eq!(MacAddr::from_decimal("18446744073709551615"), Err(FormatError::AddressRange));
    assert_eq!(MacAddr::from_decimal("281474976710656"), Err(FormatError::AddressRange));
    assert_eq!(MacAddr::from_value(1 << 48), Err(FormatError::AddressRange));
    assert_eq!(MacAddr::from_value((1 << 48) - 1).unwrap().0, [0xff; 6]);
}

#[test]
fn hardware_address_that_is_no_number() {
    for text in ["", "+", "-1", "12a", " 12", "18446744073709551616", "٣"] {
        assert_eq!(MacAddr::from_decimal(text), Err(FormatError::AddressDigits), "{:?}", text);
    }
}

#[test]
fn addresses_order_as_byte_sequences() {
    let low = MacAddr::new(0, 0, 0, 0, 1, 0);
    let high = MacAddr::new(0, 0, 0, 1, 0, 0);
    assert!(low < high);
    assert_eq!(low, MacAddr::from_value(256).unwrap());
}

#[test]
fn enumerated_tokens_are_exact() {
    assert_eq!(ActivityType::from_token("ON_BICYCLE"), Some(ActivityType::OnBicycle));
    assert_eq!(ActivityType::from_token("BICYCLE"), None);
    assert_eq!(ActivityType::from_token("on_bicycle"), None);
    assert_eq!(Source::from_token("GPS"), Some(Source::Gps));
    assert_eq!(Source::from_token("Gps"), None);
    assert_eq!(DeviceDesignation::from_token("PRIMARY"), Some(DeviceDesignation::Primary));
    assert_eq!(ActivityType::InTwoWheelerVehicle.token(), "IN_TWO_WHEELER_VEHICLE");
    assert!(TokenSet::ActivityType.contains("IN_RAIL_VEHICLE"));
    assert!(!TokenSet::Source.contains("IN_RAIL_VEHICLE"));
}

#[test]
fn unknown_activity_names_field_and_token() {
    let text = "{\"locations\":[{\"activity\":[{\"activity\":[{\"type\":\"BICYCLE\",\
                \"confidence\":50}],\"timestamp\":\"2022-01-12T17:18:24.190Z\"}]}]}";
    let (seen, result) = collect(text);
    assert!(seen.is_empty());
    match result {
        Err(DecodeError::UnknownVariant { set, token }) => {
            assert_eq!(set, TokenSet::ActivityType);
            assert_eq!(set.field(), "type");
            assert_eq!(token, "BICYCLE");
        },
        other => panic!("expected an unknown variant, got {:?}", other),
    }
}

#[test]
fn access_point_rejects_an_extra_field() {
    let text = "{\"locations\":[{\"activeWifiScan\":{\"accessPoints\":[{\"mac\":\"1\",\
                \"strength\":-40,\"frequencyMhz\":2412,\"vendor\":\"x\"}]}}]}";
    let (seen, result) = collect(text);
    assert!(seen.is_empty());
    match result {
        Err(DecodeError::UnknownField { key }) => assert_eq!(key, "vendor"),
        other => panic!("expected an unknown field, got {:?}", other),
    }
}

#[test]
fn location_metadata_rejects_an_extra_field() {
    let text = "{\"locations\":[{\"locationMetadata\":[{\"timestamp\":\
                \"2022-01-12T17:18:24.190Z\",\"extra\":1}]}]}";
    let (_, result) = collect(text);
    match result {
        Err(DecodeError::UnknownField { key }) => assert_eq!(key, "extra"),
        other => panic!("expected an unknown field, got {:?}", other),
    }
}

#[test]
fn record_rejects_an_extra_field() {
    let text = "{\"locations\":[{\"speed\":1}]}";
    let (_, result) = collect(text);
    match result {
        Err(DecodeError::UnknownField { key }) => assert_eq!(key, "speed"),
        other => panic!("expected an unknown field, got {:?}", other),
    }
}

#[test]
fn wifi_scan_reads_past_an_extra_field() {
    let text = "{\"locations\":[{\"timestamp\":\"2022-01-12T17:18:24.190Z\",\"latitudeE7\":1,\
                \"longitudeE7\":2,\"accuracy\":3,\"source\":\"GPS\",\"deviceTag\":4,\
                \"activeWifiScan\":{\"scanned\":[1,2],\"accessPoints\":null}}]}";
    let (seen, result) = collect(text);
    assert!(result.is_ok());
    let scan = seen[0].active_wifi_scan.as_ref().unwrap();
    assert!(scan.access_points.is_none());
}

#[test]
fn missing_required_field_is_named() {
    let text = "{\"locations\":[{\"timestamp\":\"2022-01-12T17:18:24.190Z\",\"latitudeE7\":1,\
                \"longitudeE7\":2,\"source\":\"GPS\",\"deviceTag\":4}]}";
    let (seen, result) = collect(text);
    assert!(seen.is_empty());
    match result {
        Err(DecodeError::MissingField { name }) => assert_eq!(name, "accuracy"),
        other => panic!("expected a missing field, got {:?}", other),
    }
    let (_, result) = collect("{\"locations\":[{}]}");
    match result {
        Err(DecodeError::MissingField { name }) => assert_eq!(name, "source"),
        other => panic!("expected a missing field, got {:?}", other),
    }
}

#[test]
fn repeated_record_field_is_a_duplicate() {
    let text = "{\"locations\":[{\"accuracy\":1,\"accuracy\":2}]}";
    let (_, result) = collect(text);
    match result {
        Err(DecodeError::DuplicateField { name }) => assert_eq!(name, "accuracy"),
        other => panic!("expected a duplicate field, got {:?}", other),
    }
}

#[test]
fn full_record() {
    let text = "{\"locations\":[{\
        \"timestamp\":\"2022-01-12T17:18:24.190Z\",\"latitudeE7\":593293000,\
        \"longitudeE7\":180686000,\"accuracy\":13,\"velocity\":3,\"heading\":270,\
        \"source\":\"UNKNOWN\",\"deviceTag\":-1234,\"altitude\":-12,\"verticalAccuracy\":2,\
        \"activity\":[{\"activity\":[{\"type\":\"STILL\",\"confidence\":90},\
        {\"type\":\"IN_VEHICLE\",\"confidence\":10}],\"timestamp\":\"2022-01-12T17:18:20Z\"}],\
        \"deviceDesignation\":\"PRIMARY\",\
        \"activeWifiScan\":{\"accessPoints\":[{\"mac\":\"1108152157446\",\"strength\":-70,\
        \"frequencyMhz\":5180,\"isConnected\":true},{\"mac\":\"255\",\"strength\":-90,\
        \"frequencyMhz\":2412}]},\
        \"platformType\":\"ANDROID\",\"osLevel\":30,\
        \"serverTimestamp\":\"2022-01-12T17:18:25Z\",\"deviceTimestamp\":null,\
        \"batteryCharging\":false,\"formFactor\":\"PHONE\",\
        \"locationMetadata\":[{\"wifiScan\":{\"accessPoints\":[]},\
        \"timestamp\":\"2022-01-12T17:18:24Z\"}],\
        \"inferredLocation\":[{\"timestamp\":\"2022-01-12T17:18:24Z\",\"latitudeE7\":1,\
        \"longitudeE7\":2,\"accuracy\":100}],\
        \"placeId\":\"ChIJ\\u0041b\"}]}";
    let (seen, result) = collect(text);
    assert!(result.is_ok(), "{:?}", result);
    let entry = &seen[0];
    assert_eq!(entry.velocity, Some(3));
    assert_eq!(entry.heading, Some(270));
    assert_eq!(entry.source, Source::Unknown);
    assert_eq!(entry.device_tag, -1234);
    assert_eq!(entry.altitude, Some(-12));
    assert_eq!(entry.vertical_accuracy, Some(2));
    let activity = entry.activity.as_ref().unwrap();
    assert_eq!(activity.len(), 1);
    assert_eq!(activity[0].activity.len(), 2);
    assert_eq!(activity[0].activity[0].typ, ActivityType::Still);
    assert_eq!(activity[0].activity[0].confidence, 90);
    assert_eq!(activity[0].activity[1].typ, ActivityType::InVehicle);
    assert_eq!(activity[0].timestamp.unix_seconds, 1642007900);
    assert_eq!(entry.device_designation, Some(DeviceDesignation::Primary));
    let points = entry.active_wifi_scan.as_ref().unwrap().access_points.as_ref().unwrap();
    assert_eq!(points.len(), 2);
    assert_eq!(points[0].mac.0, [1, 2, 3, 4, 5, 6]);
    assert_eq!(points[0].strength, -70);
    assert_eq!(points[0].frequency_mhz, 5180);
    assert!(points[0].is_connected);
    assert!(!points[1].is_connected);
    assert!(entry.platform_type.is_some());
    assert_eq!(entry.os_level, Some(30));
    assert_eq!(entry.server_timestamp.unwrap().unix_seconds, 1642007905);
    assert!(entry.device_timestamp.is_none());
    assert_eq!(entry.battery_charging, Some(false));
    assert!(entry.form_factor.is_some());
    let metadata = entry.location_metadata.as_ref().unwrap();
    assert_eq!(metadata.len(), 1);
    assert!(metadata[0].wifi_scan.as_ref().unwrap().access_points.as_ref().unwrap().is_empty());
    assert!(metadata[0].active_wifi_scan.is_none());
    let inferred = entry.inferred_location.as_ref().unwrap();
    assert_eq!(inferred[0].accuracy, 100);
    assert_eq!(entry.place_id.as_deref(), Some("ChIJAb"));
}

#[test]
fn confidence_is_an_unsigned_byte() {
    let text = "{\"locations\":[{\"activity\":[{\"activity\":[{\"type\":\"STILL\",\
                \"confidence\":256}],\"timestamp\":\"2022-01-12T17:18:24.190Z\"}]}]}";
    let (_, result) = collect(text);
    match result {
        Err(DecodeError::Format { field, reason }) => {
            assert_eq!(field, "confidence");
            assert_eq!(reason, FormatError::IntegerRange);
        },
        other => panic!("expected a format error, got {:?}", other),
    }
}

#[test]
fn address_in_a_record_is_checked() {
    let text = "{\"locations\":[{\"activeWifiScan\":{\"accessPoints\":[{\"mac\":\
                \"18446744073709551615\"}]}}]}";
    let (_, result) = collect(text);
    match result {
        Err(DecodeError::Format { field, reason }) => {
            assert_eq!(field, "mac");
            assert_eq!(reason, FormatError::AddressRange);
        },
        other => panic!("expected a format error, got {:?}", other),
    }
}

#[test]
fn sink_keeps_what_it_was_given_across_documents() {
    let mut count = 0usize;
    {
        let mut sink = Sink::new(|_entry: LocationEntry| count += 1);
        let first = document(&[minimal(1), minimal(2)]);
        let second = document(&[minimal(3)]);
        assert!(read_entries(&JsonBytes::new(first.as_bytes()), &mut sink).is_ok());
        assert!(read_entries(&JsonBytes::new(second.as_bytes()), &mut sink).is_ok());
    }
    assert_eq!(count, 3);
}

#[test]
fn many_records_stream_through() {
    let record = minimal(9);
    let mut text = String::with_capacity(record.len() * 200_000 + 32);
    text.push_str("{\"locations\":[");
    for i in 0..200_000 {
        if i > 0 {
            text.push(',');
        }
        text.push_str(&record);
    }
    text.push_str("]}");
    let mut count = 0u32;
    let (result, _sink) = read_json_entries(text.as_bytes(), |_entry| count += 1);
    assert!(result.is_ok());
    assert_eq!(count, 200_000);
}

#[test]
fn address_that_is_no_number_in_a_record() {
    let text = "{\"locations\":[{\"activeWifiScan\":{\"accessPoints\":[{\"mac\":\
                \"aa:bb:cc:dd:ee:ff\"}]}}]}";
    let (_, result) = collect(text);
    match result {
        Err(DecodeError::Format { field, reason }) => {
            assert_eq!(field, "mac");
            assert_eq!(reason, FormatError::AddressDigits);
        },
        other => panic!("expected a format error, got {:?}", other),
    }
}

#[test]
fn second_of_day_is_local() {
    assert_eq!(Timestamp::from_parts(0, 0, 0).second_of_day(), 0);
    assert_eq!(Timestamp::from_parts(1642007904, 190_000_000, 0).second_of_day(), 62304);
    assert_eq!(Timestamp::from_parts(1367395200, 0, 7200).second_of_day(), 36000);
    assert_eq!(Timestamp::from_parts(-1, 0, 0).second_of_day(), 86399);
    assert_eq!(Timestamp::from_parts(0, 0, -3600).second_of_day(), 82800);
    assert_eq!(Timestamp::from_parts(i64::MIN, 0, i32::MIN).second_of_day() < 86400, true);
}

#[test]
fn protocol_module_names_every_type() {
    assert_eq!(location_history::protocol::MacAddr::new(1, 2, 3, 4, 5, 6).0[5], 6);
    assert_eq!(
        location_history::protocol::Source::from_token("WIFI"),
        Some(location_history::protocol::Source::Wifi)
    );
}

#[test]
fn null_where_a_value_is_required() {
    let (_, result) = collect("{\"locations\":[{\"accuracy\":null}]}");
    assert!(matches!(result, Err(DecodeError::Syntax { cause: Some(_), .. })));
    let (_, result) = collect("{\"locations\":null}");
    assert!(matches!(result, Err(DecodeError::Syntax { cause: None, .. })));
    let (_, result) = collect("{\"locations\":[{\"velocity\":nul}]}");
    assert!(matches!(result, Err(DecodeError::Syntax { cause: None, .. })));
}

#[test]
fn point_from_a_pair() {
    let point = LngLat::from((180686000, 593293000));
    assert_eq!(point.lng(), 180686000);
    assert_eq!(point.lat(), 593293000);
    assert_eq!(point, LngLat(180686000, 593293000));
}

#[test]
fn booleans_are_the_two_words() {
    let record = |flag: &str| {
        format!(
            "{{\"locations\":[{{\"timestamp\":\"2022-01-12T17:18:24.190Z\",\"latitudeE7\":1,\
             \"longitudeE7\":2,\"accuracy\":3,\"source\":\"GPS\",\"deviceTag\":4,\
             \"batteryCharging\":{}}}]}}",
            flag
        )
    };
    let (seen, result) = collect(&record("true"));
    assert!(result.is_ok());
    assert_eq!(seen[0].battery_charging, Some(true));
    let (seen, _) = collect(&record("false "));
    assert_eq!(seen[0].battery_charging, Some(false));
    let (seen, _) = collect(&record("null"));
    assert_eq!(seen[0].battery_charging, None);
    for bad in ["True", "tru", "fals", "1", "\"true\"", "truefalse", "falsey"] {
        let (seen, result) = collect(&record(bad));
        assert!(seen.is_empty(), "{}", bad);
        assert!(matches!(result, Err(DecodeError::Syntax { .. })), "{}", bad);
    }
}

#[test]
fn records_arrive_in_the_order_of_the_array() {
    let (seen, result) = collect(&document(&[minimal(3), minimal(1), minimal(2)]));
    assert!(result.is_ok());
    let tags: Vec<i32> = seen.iter().map(|entry| entry.device_tag).collect();
    assert_eq!(tags, vec![3, 1, 2]);
}

#[test]
fn key_of_the_array_is_case_sensitive() {
    let text = format!("{{\"Locations\":[{}]}}", minimal(1));
    let (seen, result) = collect(&text);
    assert!(result.is_ok());
    assert!(seen.is_empty());
}

#[test]
fn two_empty_arrays_are_a_duplicate() {
    let (seen, result) = collect("{\"locations\":[],\"locations\":[]}");
    assert!(seen.is_empty());
    assert!(matches!(result, Err(DecodeError::DuplicateField { name: "locations" })));
}

#[test]
fn error_in_a_later_record_keeps_the_earlier_ones() {
    let bad = "{\"timestamp\":\"2020-01-01T00:00:00Z\",\"latitudeE7\":0,\"longitudeE7\":0,\
               \"accuracy\":1,\"source\":\"GPS\",\"deviceTag\":2,\"locationMetadata\":\
               [{\"timestamp\":\"2020-01-01T00:00:00Z\",\"bogus\":0}]}";
    let text = document(&[minimal(1), bad.to_string(), minimal(3)]);
    let (seen, result) = collect(&text);
    let tags: Vec<i32> = seen.iter().map(|entry| entry.device_tag).collect();
    assert_eq!(tags, vec![1]);
    match result {
        Err(DecodeError::UnknownField { key }) => assert_eq!(key, "bogus"),
        other => panic!("expected an unknown field, got {:?}", other),
    }
}

#[test]
fn cause_is_there_where_the_json_reader_rejected() {
    // The structure is the library's to read: no cause.
    let (seen, result) = collect("{\"locations\":[}");
    assert!(seen.is_empty());
    assert!(matches!(result, Err(DecodeError::Syntax { offset: 14, cause: None })));
    let (_, result) = collect("{\"locations\":[{\"isConnected\" 1}]}");
    assert!(matches!(result, Err(DecodeError::Syntax { cause: None, .. })));
    // Numbers, strings and skipped values are the JSON reader's: its error comes along.
    let (_, result) = collect("{\"locations\":[{\"accuracy\":1.5}]}");
    assert!(matches!(result, Err(DecodeError::Syntax { offset: 26, cause: Some(_) })));
    let (_, result) = collect("{\"locations\":[{\"placeId\":\"\\q\"}]}");
    assert!(matches!(result, Err(DecodeError::Syntax { cause: Some(_), .. })));
    let (_, result) = collect("{\"other\":[1,,2]}");
    assert!(matches!(result, Err(DecodeError::Syntax { offset: 9, cause: Some(_) })));
    let (_, result) = collect("{\"other\":");
    assert!(matches!(result, Err(DecodeError::Syntax { offset: 9, cause: None })));
}

#[test]
fn known_activity_reaches_the_sink() {
    let text = "{\"locations\":[{\"timestamp\":\"2020-01-01T00:00:00Z\",\"latitudeE7\":0,\
                \"longitudeE7\":0,\"accuracy\":1,\"source\":\"GPS\",\"deviceTag\":1,\
                \"activity\":[{\"activity\":[{\"type\":\"ON_BICYCLE\",\"confidence\":50}],\
                \"timestamp\":\"2020-01-01T00:00:00Z\"}]}]}";
    let (seen, result) = collect(text);
    assert!(result.is_ok());
    assert_eq!(seen.len(), 1);
    let samples = seen[0].activity.as_ref().unwrap();
    assert_eq!(samples.len(), 1);
    assert_eq!(samples[0].activity.len(), 1);
    assert_eq!(samples[0].activity[0].typ, ActivityType::OnBicycle);
    assert_eq!(samples[0].activity[0].confidence, 50);
    assert!(TokenSet::ActivityType.contains("ON_BICYCLE"));
    assert!(!TokenSet::ActivityType.contains("BICYCLE"));
}
