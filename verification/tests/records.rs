use week5_async_stream_proc::store::RecordStore;
use week5_async_stream_proc::{AsyncPaymentProcessor, PaymentsData};

const JSON1: &str = r#"{"date":"2025-01-01","amount":100.0,"method":"credit","is_successful":true}"#;
const JSON2: &str = r#"{"date":"2025-01-02","amount":50.0,"method":"debit","is_successful":true}"#;
const JSON3: &str = r#"{"date":"2025-01-03","amount":75.0,"method":"credit","is_successful":false}"#;

fn extract_amount(json: &str) -> f64 {
    let record: serde_json::Value = serde_json::from_str(json).unwrap();
    record["amount"].as_f64().unwrap()
}

#[test]
fn store_scenario_advance_transform_advance_advance() {
    let mut store = RecordStore::new(vec![JSON1.to_string(), JSON2.to_string(), JSON3.to_string()]);

    assert_eq!(store.advance(), Some(JSON1));
    assert_eq!(store.transform(extract_amount), Some(50.0));
    assert_eq!(store.advance(), Some(JSON3));
    assert_eq!(store.advance(), None);
}

#[test]
fn empty_store_transform_then_advance() {
    let mut store = RecordStore::new(Vec::new());
    assert_eq!(store.transform(extract_amount), None);
    assert_eq!(store.advance(), None);
}

#[test]
fn csv_rows_through_the_store() {
    let mut store = RecordStore::new(vec![
        "2025-01-01,100.0,credit,true".to_string(),
        "2025-01-02,150.0,debit,false".to_string(),
    ]);
    assert_eq!(store.advance(), Some("2025-01-01,100.0,credit,true"));
    let amount = store.transform(|row: &str| {
        let fields: Vec<&str> = row.split(',').collect();
        fields[1].trim_matches('"').parse::<f64>().unwrap()
    });
    assert_eq!(amount, Some(150.0));
}

#[test]
fn each_sample_amount_is_extracted() {
    let mut processor =
        PaymentsData::new(vec![JSON1.to_string(), JSON2.to_string(), JSON3.to_string()]);
    assert_eq!(processor.process(extract_amount), Some(100.0));
    assert_eq!(processor.process(extract_amount), Some(50.0));
    assert_eq!(processor.process(extract_amount), Some(75.0));
    assert_eq!(processor.process(extract_amount), None);
}

#[test]
fn json_record_survives_decoding_and_encoding() {
    for json in [JSON1, JSON2, JSON3] {
        let decoded: serde_json::Value = serde_json::from_str(json).unwrap();
        let encoded = serde_json::to_string(&decoded).unwrap();
        let again: serde_json::Value = serde_json::from_str(&encoded).unwrap();

        assert_eq!(again["date"].as_str(), decoded["date"].as_str());
        assert_eq!(again["amount"].as_f64(), decoded["amount"].as_f64());
        assert_eq!(again["method"].as_str(), decoded["method"].as_str());
        assert_eq!(again["is_successful"].as_bool(), decoded["is_successful"].as_bool());
        assert_eq!(again, decoded);
    }
}

#[test]
fn malformed_record_reaches_the_function_unchanged() {
    let mut processor = PaymentsData::new(vec!["not json".to_string(), JSON1.to_string()]);
    let failed = processor.process(|json: &str| serde_json::from_str::<serde_json::Value>(json).is_err());
    assert_eq!(failed, Some(true));
    assert_eq!(processor.next_payment(), Some(JSON1));
}
