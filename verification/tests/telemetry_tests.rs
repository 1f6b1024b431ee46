use smart_hot_water_tank::ingest::entry_at;
use smart_hot_water_tank::ingest::CreateEntry;
use smart_hot_water_tank::reading::TemperatureReading;
use smart_hot_water_tank::telemetry::upload_request;
use smart_hot_water_tank::telemetry::upload_result;
use smart_hot_water_tank::telemetry::TelemetrySample;
use smart_hot_water_tank::telemetry::TransportError;
use smart_hot_water_tank::telemetry::TransportOutcome;

fn temp_in(body: &str) -> i64 {
    let value: serde_json::Value = serde_json::from_str(body).unwrap();
    let object = value.as_object().unwrap();
    assert_eq!(object.len(), 1);
    object.get("temp").unwrap().as_i64().unwrap()
}

#[test]
fn stored_2300_is_sent_and_persisted_as_23() {
    let sample = TelemetrySample::from_reading(TemperatureReading::from_centi(2300));
    assert_eq!(sample, TelemetrySample { temp: 23 });
    let body = sample.payload();
    assert_eq!(body, "{\"temp\": 23}");
    let received = temp_in(&body);
    assert_eq!(received, 23);
    let entry = entry_at(CreateEntry { temp: received as i32 }, 1_700_000_000_000);
    assert_eq!(entry.temp, 23);
}

#[test]
fn sample_is_in_whole_degrees() {
    assert_eq!(TelemetrySample::from_reading(TemperatureReading::from_centi(2399)).temp, 23);
    assert_eq!(TelemetrySample::from_reading(TemperatureReading::from_centi(99)).temp, 0);
    assert_eq!(TelemetrySample::from_reading(TemperatureReading::from_centi(-525)).temp, -5);
    assert_eq!(TelemetrySample::from_reading(TemperatureReading::from_centi(180000)).temp, 1800);
    assert_eq!(TelemetrySample::from_reading(TemperatureReading::unavailable()).temp, -250);
}

#[test]
fn payload_is_the_json_object_with_one_integer() {
    assert_eq!(TelemetrySample { temp: 0 }.payload(), "{\"temp\": 0}");
    assert_eq!(TelemetrySample { temp: 21 }.payload(), "{\"temp\": 21}");
    assert_eq!(TelemetrySample { temp: -5 }.payload(), "{\"temp\": -5}");
    assert_eq!(TelemetrySample { temp: 1800 }.payload(), "{\"temp\": 1800}");
    assert_eq!(TelemetrySample { temp: i32::MIN }.payload(), "{\"temp\": -2147483648}");
    assert_eq!(TelemetrySample { temp: i32::MAX }.payload(), "{\"temp\": 2147483647}");
}

#[test]
fn payload_reads_back_as_the_sample() {
    let temps: Vec<i32> = vec![0, 1, -1, 23, -250, 1800, i32::MIN, i32::MAX];
    for temp in temps {
        assert_eq!(temp_in(&TelemetrySample { temp }.payload()), temp as i64);
    }
}

#[test]
fn request_goes_to_the_create_operation_with_its_length_stated() {
    let request = upload_request("http://tank.example:3000", TelemetrySample { temp: 23 });
    assert_eq!(request.url, "http://tank.example:3000/create");
    assert_eq!(request.content_type, "application/json");
    assert_eq!(request.body, "{\"temp\": 23}");
    assert_eq!(request.content_length, "12");
    assert_eq!(request.content_length, format!("{}", request.body.as_bytes().len()));
}

#[test]
fn request_length_follows_the_body() {
    let temps: Vec<i32> = vec![0, -5, 100, -2147483648];
    for temp in temps {
        let request = upload_request("", TelemetrySample { temp });
        assert_eq!(request.url, "/create");
        assert_eq!(request.content_length, format!("{}", request.body.len()));
    }
    assert_eq!(upload_request("", TelemetrySample { temp: i32::MIN }).content_length, "21");
}

#[test]
fn success_is_a_status_between_200_and_299() {
    assert_eq!(upload_result(TransportOutcome::Responded(200)), Ok(()));
    assert_eq!(upload_result(TransportOutcome::Responded(204)), Ok(()));
    assert_eq!(upload_result(TransportOutcome::Responded(299)), Ok(()));
}

#[test]
fn other_statuses_are_failures() {
    assert_eq!(upload_result(TransportOutcome::Responded(199)), Err(TransportError::Status(199)));
    assert_eq!(upload_result(TransportOutcome::Responded(300)), Err(TransportError::Status(300)));
    assert_eq!(upload_result(TransportOutcome::Responded(404)), Err(TransportError::Status(404)));
    assert_eq!(upload_result(TransportOutcome::Responded(500)), Err(TransportError::Status(500)));
    assert_eq!(upload_result(TransportOutcome::Responded(0)), Err(TransportError::Status(0)));
}

#[test]
fn timeout_and_refusal_are_failures() {
    assert_eq!(upload_result(TransportOutcome::TimedOut), Err(TransportError::Timeout));
    assert_eq!(upload_result(TransportOutcome::Refused), Err(TransportError::Refused));
}
