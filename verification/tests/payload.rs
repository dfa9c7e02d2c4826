use swirl::job::BackgroundJob;

fn round_trip(payload: serde_json::Value) -> serde_json::Value {
    let text = serde_json::to_string(&payload).unwrap();
    serde_json::from_str(&text).unwrap()
}

#[test]
fn payload_survives_serialization() {
    let mut record = serde_json::Map::new();
    record.insert("to".to_string(), serde_json::Value::String("someone@example.com".to_string()));
    record.insert("attempts".to_string(), serde_json::Value::from(3));
    record.insert("urgent".to_string(), serde_json::Value::Bool(true));
    record.insert("tags".to_string(), serde_json::Value::Array(vec![serde_json::Value::Null]));
    let payload = serde_json::Value::Object(record);
    assert_eq!(round_trip(payload.clone()), payload);
    assert_eq!(round_trip(serde_json::Value::Null), serde_json::Value::Null);
}

#[test]
fn typed_payload_survives_serialization() {
    let payload = ("a".to_string(), 7u32, vec![1i64, -2]);
    let stored = serde_json::to_value(&payload).unwrap();
    let loaded: (String, u32, Vec<i64>) = serde_json::from_value(stored).unwrap();
    assert_eq!(loaded, payload);
}

#[test]
fn job_carries_its_payload_unchanged() {
    let data = serde_json::Value::String("b".to_string());
    let job = BackgroundJob { id: 4, job_type: "check_arg_equal_to_env".to_string(), data: data.clone() };
    assert_eq!(job.id, 4);
    assert_eq!(job.job_type, "check_arg_equal_to_env");
    assert_eq!(job.data, data);
}
