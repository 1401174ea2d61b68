use leads_backend::json::JsonValue;
use leads_backend::normalize::{extract, normalize, NormalizeError, Platform};

fn s(x: &str) -> String {
    x.to_string()
}

fn google_payload(name: JsonValue) -> JsonValue {
    JsonValue::Object(vec![(s("user_column_data"), JsonValue::Array(vec![JsonValue::Object(vec![(s("string_value"), name)])]))])
}

#[test]
fn platform_ids_are_looked_up() {
    assert_eq!(Platform::from_id("google"), Some(Platform::Google));
    assert_eq!(Platform::from_id("meta"), Some(Platform::Meta));
    assert_eq!(Platform::from_id("tiktok"), Some(Platform::TikTok));
    assert_eq!(Platform::from_id("Google"), None);
    assert_eq!(Platform::from_id(""), None);
}

#[test]
fn google_name_is_extracted() {
    let l = normalize("google", &google_payload(JsonValue::Str(s("Jane Doe")))).unwrap();
    assert_eq!(l.name, "Jane Doe");
    assert_eq!(l.email, "Not Provided");
    assert_eq!(l.phone, "N/A");
    assert_eq!(l.interest, "Life Insurance");
}

#[test]
fn google_missing_fields_give_placeholder() {
    let cases = vec![
        JsonValue::Null,
        JsonValue::Object(vec![]),
        JsonValue::Object(vec![(s("user_column_data"), JsonValue::Array(vec![]))]),
        JsonValue::Object(vec![(s("user_column_data"), JsonValue::Str(s("x")))]),
        JsonValue::Object(vec![(s("user_column_data"), JsonValue::Array(vec![JsonValue::Object(vec![])]))]),
        google_payload(JsonValue::Number(s("42"))),
        google_payload(JsonValue::Null),
    ];
    for p in cases {
        let l = normalize("google", &p).unwrap();
        assert_eq!(l.name, "Google Lead");
        assert_eq!(l.email, "Not Provided");
    }
}

#[test]
fn google_first_member_wins() {
    let p = JsonValue::Object(vec![
        (s("other"), JsonValue::Bool(true)),
        (s("user_column_data"), JsonValue::Array(vec![JsonValue::Object(vec![(s("string_value"), JsonValue::Str(s("First")))]), JsonValue::Object(vec![(s("string_value"), JsonValue::Str(s("Second")))])])),
    ]);
    assert_eq!(normalize("google", &p).unwrap().name, "First");
}

#[test]
fn meta_and_tiktok_give_placeholders() {
    let m = normalize("meta", &google_payload(JsonValue::Str(s("Jane")))).unwrap();
    assert_eq!((m.name.as_str(), m.email.as_str(), m.phone.as_str(), m.interest.as_str()), ("Meta Lead", "Not Provided", "N/A", "Business Insurance"));
    let t = extract(Platform::TikTok, &JsonValue::Null);
    assert_eq!((t.name.as_str(), t.email.as_str(), t.phone.as_str(), t.interest.as_str()), ("TikTok Lead", "Not Provided", "N/A", "IUL"));
}

#[test]
fn unknown_platform_is_unsupported() {
    assert_eq!(normalize("linkedin", &JsonValue::Null).unwrap_err(), NormalizeError::UnsupportedPlatform);
}

#[test]
fn json_accessors() {
    let p = google_payload(JsonValue::Str(s("Jane")));
    assert!(p.get("missing").is_none());
    assert!(JsonValue::Null.get("x").is_none());
    assert_eq!(p.get("user_column_data").unwrap().at(0).get("string_value").unwrap().as_str(), Some("Jane"));
    assert!(matches!(p.get("user_column_data").unwrap().at(1), JsonValue::Null));
    assert!(matches!(JsonValue::Bool(true).at(0), JsonValue::Null));
    assert_eq!(JsonValue::Number(s("1")).as_str(), None);
}
