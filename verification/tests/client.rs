use gemini_client::Date;
use gemini_client::Error;
use gemini_client::GeminiClient;
use gemini_client::JsonValue;

fn today() -> Date {
    Date { year: 2024, month: 3, day: 7 }
}

fn reply_body(text: &str) -> String {
    let mut body = String::from("{\"candidates\":[{\"content\":{\"parts\":[{\"text\":\"");
    body.push_str(text);
    body.push_str("\"}]}}]}");
    body
}

#[test]
fn loader_reports_missing_variable_with_key_name() {
    let r = GeminiClient::api_key("GEMINI_API_KEY", true, None);
    match r {
        Err(Error::VariableNotFound(k)) => assert_eq!(k, "GEMINI_API_KEY"),
        _ => panic!("expected the named-variable-missing condition"),
    }
}

#[test]
fn loader_reports_missing_source() {
    let r = GeminiClient::api_key("GEMINI_API_KEY", false, Some(String::from("ignored")));
    assert!(matches!(r, Err(Error::DotEnvNotFound)));
}

#[test]
fn loader_returns_the_resolved_value() {
    let r = GeminiClient::api_key("GEMINI_API_KEY", true, Some(String::from("SECRET-REDACTED")));
    match r {
        Ok(v) => assert_eq!(v, "SECRET-REDACTED"),
        _ => panic!("expected the resolved value"),
    }
}

#[test]
fn construction_with_absent_store_is_empty_and_zero() {
    let c = GeminiClient::new(String::from("k"), today(), None).unwrap();
    assert_eq!(c.todays_request_count, 0);
    assert!(c.daily_request_count.entries.is_empty());
    assert_eq!(c.today, "2024-3-7");
    assert_eq!(c.api_key, "k");
    assert_eq!(
        c.url,
        "https://generativelanguage.googleapis.com/v1beta/models/gemini-2.0-flash:generateContent"
    );
}

#[test]
fn construction_with_unreadable_store_is_empty() {
    let c = GeminiClient::new(String::from("k"), today(), Some("not json at all")).unwrap();
    assert_eq!(c.todays_request_count, 0);
    assert!(c.daily_request_count.entries.is_empty());
}

#[test]
fn construction_with_non_object_store_is_empty() {
    let c = GeminiClient::new(String::from("k"), today(), Some("[1, 2, 3]")).unwrap();
    assert!(c.daily_request_count.entries.is_empty());
}

#[test]
fn construction_rejects_negative_count() {
    let r = GeminiClient::new(String::from("k"), today(), Some("{\"2024-3-7\": -1}"));
    assert!(matches!(r, Err(Error::ParseError)));
}

#[test]
fn construction_rejects_fractional_count() {
    let r = GeminiClient::new(String::from("k"), today(), Some("{\"2024-3-7\": 1.5}"));
    assert!(matches!(r, Err(Error::ParseError)));
}

#[test]
fn construction_rejects_non_number_count() {
    let r = GeminiClient::new(String::from("k"), today(), Some("{\"2024-3-7\": \"three\"}"));
    assert!(matches!(r, Err(Error::ParseError)));
}

#[test]
fn construction_caches_todays_count() {
    let c = GeminiClient::new(String::from("k"), today(), Some("{\"2024-3-7\": 3}")).unwrap();
    assert_eq!(c.todays_request_count, 3);
    let v = c.daily_request_count.get(&String::from("2024-3-7"));
    assert_eq!(v, Some(3));
}

#[test]
fn request_increments_and_persists_leaving_other_days_alone() {
    let mut c = GeminiClient::new(
        String::from("k"),
        today(),
        Some("{\"2024-3-7\": 3, \"2020-1-1\": 7}"),
    )
    .unwrap();
    let effect = c.request(&reply_body("hi")).unwrap();
    match effect.reply {
        Ok(text) => assert_eq!(text, "hi"),
        _ => panic!("expected the extracted reply"),
    }
    assert_eq!(c.todays_request_count, 4);
    assert_eq!(c.daily_request_count.get(&String::from("2024-3-7")), Some(4));
    assert_eq!(c.daily_request_count.get(&String::from("2020-1-1")), Some(7));
    let persisted: serde_json::Value = serde_json::from_str(&effect.store_text).unwrap();
    assert_eq!(persisted["2024-3-7"].as_u64(), Some(4));
    assert_eq!(persisted["2020-1-1"].as_u64(), Some(7));
    assert_eq!(persisted.as_object().unwrap().len(), 2);
}

#[test]
fn request_with_missing_path_still_counts() {
    let mut c = GeminiClient::new(String::from("k"), today(), None).unwrap();
    let effect = c.request("{\"candidates\": []}").unwrap();
    assert!(matches!(effect.reply, Err(Error::ParseError)));
    assert_eq!(c.todays_request_count, 1);
    let persisted: serde_json::Value = serde_json::from_str(&effect.store_text).unwrap();
    assert_eq!(persisted["2024-3-7"].as_u64(), Some(1));
}

#[test]
fn request_with_unparsable_body_changes_nothing() {
    let mut c = GeminiClient::new(String::from("k"), today(), Some("{\"2024-3-7\": 3}")).unwrap();
    let r = c.request("halfway {\"candidates\"");
    assert!(matches!(r, Err(Error::ConnectionError)));
    assert_eq!(c.todays_request_count, 3);
    assert_eq!(c.daily_request_count.get(&String::from("2024-3-7")), Some(3));
}

#[test]
fn store_text_round_trips_to_an_equal_mapping() {
    let mut c = GeminiClient::new(
        String::from("k"),
        today(),
        Some("{\"2024-3-7\": 3, \"2020-1-1\": 7, \"1999-12-31\": 11}"),
    )
    .unwrap();
    let effect = c.request(&reply_body("hello")).unwrap();
    let reloaded = GeminiClient::new(String::from("k"), today(), Some(&effect.store_text)).unwrap();
    let mut before: Vec<(String, u64)> = c.daily_request_count.entries.clone();
    let mut after: Vec<(String, u64)> = reloaded.daily_request_count.entries.clone();
    before.sort();
    after.sort();
    assert_eq!(before, after);
    assert_eq!(reloaded.todays_request_count, 4);
}

#[test]
fn store_doc_round_trips_through_from_doc() {
    let c = GeminiClient::new(
        String::from("k"),
        today(),
        Some("{\"2024-3-7\": 3, \"2020-1-1\": 7}"),
    )
    .unwrap();
    let doc = c.daily_request_count.to_doc();
    let reloaded = gemini_client::CounterStore::from_doc(&doc).unwrap();
    assert_eq!(reloaded.entries, c.daily_request_count.entries);
}

#[test]
fn payload_text_is_the_fixed_document() {
    let (doc, text) = GeminiClient::request_body();
    assert_eq!(
        text,
        "{\"contents\":[{\"parts\":[{\"text\":\"自己紹介をしてください。\"}]}]}"
    );
    match doc {
        JsonValue::Obj(fields) => {
            assert_eq!(fields.len(), 1);
            assert_eq!(fields[0].0, "contents");
        },
        _ => panic!("expected an object payload"),
    }
}

#[test]
fn extract_reply_finds_the_text() {
    let part = JsonValue::Obj(vec![(String::from("text"), JsonValue::Str(String::from("hello")))]);
    let content = JsonValue::Obj(vec![(String::from("parts"), JsonValue::Arr(vec![part]))]);
    let candidate = JsonValue::Obj(vec![(String::from("content"), content)]);
    let doc = JsonValue::Obj(vec![(String::from("candidates"), JsonValue::Arr(vec![candidate]))]);
    match GeminiClient::extract_reply(&doc) {
        Ok(text) => assert_eq!(text, "hello"),
        _ => panic!("expected the extracted text"),
    }
}

#[test]
fn extract_reply_rejects_a_non_string_text() {
    let part = JsonValue::Obj(vec![(String::from("text"), JsonValue::Num(5))]);
    let content = JsonValue::Obj(vec![(String::from("parts"), JsonValue::Arr(vec![part]))]);
    let candidate = JsonValue::Obj(vec![(String::from("content"), content)]);
    let doc = JsonValue::Obj(vec![(String::from("candidates"), JsonValue::Arr(vec![candidate]))]);
    assert!(matches!(GeminiClient::extract_reply(&doc), Err(Error::ParseError)));
}

#[test]
fn extract_reply_rejects_a_missing_path() {
    let doc = JsonValue::Obj(vec![(String::from("answers"), JsonValue::Null)]);
    assert!(matches!(GeminiClient::extract_reply(&doc), Err(Error::ParseError)));
}
