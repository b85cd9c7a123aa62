use secure_vault::json::Member;
use secure_vault::record::{
    find, optional_text, required_text, same_text, Field, Flaw, SchemaError, SecretRecord,
    SecureApiConfig, SecureSttConfig,
};
use secure_vault::slot::Slot;

fn api(provider: &str, api_key: &str, base_url: Option<&str>) -> SecretRecord {
    SecretRecord::Api(SecureApiConfig {
        provider: provider.to_string(),
        api_key: api_key.to_string(),
        base_url: base_url.map(|text| text.to_string()),
    })
}

fn stt(provider: &str, api_key: &str, language: Option<&str>, model: Option<&str>) -> SecretRecord {
    SecretRecord::Stt(SecureSttConfig {
        provider: provider.to_string(),
        api_key: api_key.to_string(),
        language: language.map(|text| text.to_string()),
        model: model.map(|text| text.to_string()),
    })
}

fn text(value: &str) -> Member {
    Member::Text(value.to_string())
}

fn member(key: &str, value: Member) -> (String, Member) {
    (key.to_string(), value)
}

fn pair(key: &str, value: &str) -> (String, String) {
    (key.to_string(), value.to_string())
}

#[test]
fn field_names_are_the_stored_keys() {
    assert_eq!(Field::Provider.name(), "provider");
    assert_eq!(Field::ApiKey.name(), "api_key");
    assert_eq!(Field::BaseUrl.name(), "base_url");
    assert_eq!(Field::Language.name(), "language");
    assert_eq!(Field::Model.name(), "model");
}

#[test]
fn record_kinds_belong_to_their_slots() {
    assert_eq!(api("openai", "sk-abc", None).slot(), Slot::ApiConfig);
    assert_eq!(stt("whisper", "k", None, None).slot(), Slot::SttConfig);
}

#[test]
fn members_hold_required_fields_then_present_optional_fields() {
    assert_eq!(
        api("openai", "sk-abc", None).members(),
        vec![pair("provider", "openai"), pair("api_key", "sk-abc")]
    );
    assert_eq!(
        api("openai", "sk-abc", Some("https://example.test/v1")).members(),
        vec![
            pair("provider", "openai"),
            pair("api_key", "sk-abc"),
            pair("base_url", "https://example.test/v1"),
        ]
    );
    assert_eq!(
        stt("whisper", "k", None, Some("large-v3")).members(),
        vec![pair("provider", "whisper"), pair("api_key", "k"), pair("model", "large-v3")]
    );
    assert_eq!(
        stt("whisper", "k", Some("de"), Some("large-v3")).members(),
        vec![
            pair("provider", "whisper"),
            pair("api_key", "k"),
            pair("language", "de"),
            pair("model", "large-v3"),
        ]
    );
}

#[test]
fn serialize_writes_a_compact_object_in_field_order() {
    assert_eq!(
        api("openai", "sk-abc", None).serialize(),
        Ok("{\"provider\":\"openai\",\"api_key\":\"sk-abc\"}".to_string())
    );
    assert_eq!(
        api("openai", "sk-abc", Some("https://example.test/v1")).serialize(),
        Ok(
            "{\"provider\":\"openai\",\"api_key\":\"sk-abc\",\"base_url\":\"https://example.test/v1\"}"
                .to_string()
        )
    );
    assert_eq!(
        stt("whisper", "k", Some("de"), None).serialize(),
        Ok("{\"provider\":\"whisper\",\"api_key\":\"k\",\"language\":\"de\"}".to_string())
    );
}

#[test]
fn serialize_omits_absent_optional_fields() {
    let written = api("openai", "sk-abc", None).serialize().unwrap();
    assert!(!written.contains("base_url"));
    assert!(!written.contains("null"));
    let value: serde_json::Value = serde_json::from_str(&written).unwrap();
    let object = value.as_object().unwrap();
    assert_eq!(object.len(), 2);
    assert!(object.get("base_url").is_none());

    let written = stt("whisper", "k", None, None).serialize().unwrap();
    assert!(!written.contains("language"));
    assert!(!written.contains("model"));
    assert!(!written.contains("null"));
}

#[test]
fn serialize_is_deterministic() {
    let record = api("openai", "sk-abc", Some("https://example.test"));
    assert_eq!(record.serialize(), record.serialize());
}

#[test]
fn serialize_escapes_what_json_must_escape() {
    assert_eq!(
        api("a\"b", "c\\d\ne", None).serialize(),
        Ok("{\"provider\":\"a\\\"b\",\"api_key\":\"c\\\\d\\ne\"}".to_string())
    );
}

#[test]
fn deserialize_reads_back_what_serialize_wrote() {
    let records = vec![
        api("openai", "sk-abc", None),
        api("openai", "sk-abc", Some("https://example.test/v1")),
        api("", "", Some("")),
        api("a\"b\\c", "line\nbreak\ttab\u{0}", Some("\u{1F511} \u{43A}\u{43B}\u{44E}\u{447}")),
        stt("whisper", "k", None, None),
        stt("whisper", "k", Some("de"), None),
        stt("whisper", "k", None, Some("large-v3")),
        stt("whisper", "k", Some("de"), Some("large-v3")),
    ];
    for record in records {
        let written = record.serialize().unwrap();
        assert_eq!(SecretRecord::deserialize(record.slot(), &written), Ok(record));
    }
}

#[test]
fn deserialize_keeps_present_and_absent_apart() {
    let empty = api("openai", "sk-abc", Some(""));
    let absent = api("openai", "sk-abc", None);
    let read_empty = SecretRecord::deserialize(Slot::ApiConfig, &empty.serialize().unwrap());
    let read_absent = SecretRecord::deserialize(Slot::ApiConfig, &absent.serialize().unwrap());
    assert_eq!(read_empty, Ok(empty));
    assert_eq!(read_absent, Ok(absent));
    assert_ne!(read_empty, read_absent);
}

#[test]
fn deserialize_reads_members_in_any_order_and_passes_over_unknown_ones() {
    let stored = " { \"later\" : [1, {\"x\": null}], \"api_key\" : \"sk-abc\", \"base_url\" : \"u\", \"provider\" : \"openai\", \"n\": 1.5e3, \"flag\": true } ";
    assert_eq!(
        SecretRecord::deserialize(Slot::ApiConfig, stored),
        Ok(api("openai", "sk-abc", Some("u")))
    );
}

#[test]
fn deserialize_takes_the_last_of_a_key_written_twice() {
    assert_eq!(
        SecretRecord::deserialize(
            Slot::ApiConfig,
            "{\"provider\":\"first\",\"api_key\":\"sk-abc\",\"provider\":\"second\"}"
        ),
        Ok(api("second", "sk-abc", None))
    );
}

#[test]
fn deserialize_reads_null_in_an_optional_field_as_absent() {
    assert_eq!(
        SecretRecord::deserialize(
            Slot::ApiConfig,
            "{\"provider\":\"openai\",\"api_key\":\"sk-abc\",\"base_url\":null}"
        ),
        Ok(api("openai", "sk-abc", None))
    );
    assert_eq!(
        SecretRecord::deserialize(
            Slot::SttConfig,
            "{\"provider\":\"whisper\",\"api_key\":\"k\",\"language\":null,\"model\":\"m\"}"
        ),
        Ok(stt("whisper", "k", None, Some("m")))
    );
}

#[test]
fn deserialize_reads_each_slot_by_its_own_schema() {
    let stored = "{\"provider\":\"p\",\"api_key\":\"k\",\"base_url\":\"u\",\"language\":\"de\"}";
    assert_eq!(SecretRecord::deserialize(Slot::ApiConfig, stored), Ok(api("p", "k", Some("u"))));
    assert_eq!(
        SecretRecord::deserialize(Slot::SttConfig, stored),
        Ok(stt("p", "k", Some("de"), None))
    );
}

#[test]
fn deserialize_rejects_text_that_is_not_an_object() {
    let unreadable = Err(SchemaError::Malformed(Flaw::Unreadable));
    for stored in [
        "",
        "not json",
        "{",
        "{\"provider\":\"openai\",\"api_key\":\"sk-abc\"",
        "{\"provider\":\"openai\",\"api_key\":\"sk-abc\"} trailing",
        "{\"provider\":\"openai\",\"api_key\":\"sk-abc\",}",
        "{'provider':'openai','api_key':'sk-abc'}",
        "null",
        "true",
        "42",
        "\"openai\"",
        "[\"openai\",\"sk-abc\",null]",
    ] {
        assert_eq!(SecretRecord::deserialize(Slot::ApiConfig, stored), unreadable);
        assert_eq!(SecretRecord::deserialize(Slot::SttConfig, stored), unreadable);
    }
}

#[test]
fn deserialize_reports_a_missing_required_field() {
    assert_eq!(
        SecretRecord::deserialize(Slot::ApiConfig, "{}"),
        Err(SchemaError::Malformed(Flaw::Missing(Field::Provider)))
    );
    assert_eq!(
        SecretRecord::deserialize(Slot::ApiConfig, "{\"api_key\":\"sk-abc\"}"),
        Err(SchemaError::Malformed(Flaw::Missing(Field::Provider)))
    );
    assert_eq!(
        SecretRecord::deserialize(Slot::ApiConfig, "{\"provider\":\"openai\"}"),
        Err(SchemaError::Malformed(Flaw::Missing(Field::ApiKey)))
    );
    assert_eq!(
        SecretRecord::deserialize(Slot::SttConfig, "{\"provider\":\"whisper\",\"model\":\"m\"}"),
        Err(SchemaError::Malformed(Flaw::Missing(Field::ApiKey)))
    );
}

#[test]
fn deserialize_reports_a_field_of_the_wrong_type() {
    assert_eq!(
        SecretRecord::deserialize(Slot::ApiConfig, "{\"provider\":7,\"api_key\":\"sk-abc\"}"),
        Err(SchemaError::Malformed(Flaw::Mistyped(Field::Provider)))
    );
    assert_eq!(
        SecretRecord::deserialize(Slot::ApiConfig, "{\"provider\":null,\"api_key\":\"sk-abc\"}"),
        Err(SchemaError::Malformed(Flaw::Mistyped(Field::Provider)))
    );
    assert_eq!(
        SecretRecord::deserialize(Slot::ApiConfig, "{\"provider\":\"openai\",\"api_key\":[\"sk-abc\"]}"),
        Err(SchemaError::Malformed(Flaw::Mistyped(Field::ApiKey)))
    );
    assert_eq!(
        SecretRecord::deserialize(
            Slot::ApiConfig,
            "{\"provider\":\"openai\",\"api_key\":\"sk-abc\",\"base_url\":false}"
        ),
        Err(SchemaError::Malformed(Flaw::Mistyped(Field::BaseUrl)))
    );
    assert_eq!(
        SecretRecord::deserialize(
            Slot::SttConfig,
            "{\"provider\":\"whisper\",\"api_key\":\"k\",\"language\":{},\"model\":3}"
        ),
        Err(SchemaError::Malformed(Flaw::Mistyped(Field::Language)))
    );
    assert_eq!(
        SecretRecord::deserialize(
            Slot::SttConfig,
            "{\"provider\":\"whisper\",\"api_key\":\"k\",\"model\":3}"
        ),
        Err(SchemaError::Malformed(Flaw::Mistyped(Field::Model)))
    );
}

#[test]
fn deserialize_reports_the_first_flaw_in_field_order() {
    assert_eq!(
        SecretRecord::deserialize(Slot::ApiConfig, "{\"base_url\":1,\"api_key\":2}"),
        Err(SchemaError::Malformed(Flaw::Missing(Field::Provider)))
    );
    assert_eq!(
        SecretRecord::deserialize(Slot::ApiConfig, "{\"base_url\":1,\"api_key\":2,\"provider\":\"p\"}"),
        Err(SchemaError::Malformed(Flaw::Mistyped(Field::ApiKey)))
    );
}

#[test]
fn find_gives_the_first_member_under_the_key() {
    let members = vec![
        member("other", Member::Number),
        member("api_key", text("first")),
        member("api_key", text("second")),
        member("base_url", Member::Null),
    ];
    assert_eq!(find(&members, Field::ApiKey), Some(&text("first")));
    assert_eq!(find(&members, Field::BaseUrl), Some(&Member::Null));
    assert_eq!(find(&members, Field::Provider), None);
    assert_eq!(find(&Vec::new(), Field::Provider), None);
}

#[test]
fn required_text_wants_a_text() {
    let members = vec![
        member("provider", text("openai")),
        member("api_key", Member::Null),
        member("base_url", Member::Flag(true)),
    ];
    assert_eq!(required_text(&members, Field::Provider), Ok("openai".to_string()));
    assert_eq!(
        required_text(&members, Field::ApiKey),
        Err(SchemaError::Malformed(Flaw::Mistyped(Field::ApiKey)))
    );
    assert_eq!(
        required_text(&members, Field::BaseUrl),
        Err(SchemaError::Malformed(Flaw::Mistyped(Field::BaseUrl)))
    );
    assert_eq!(
        required_text(&members, Field::Model),
        Err(SchemaError::Malformed(Flaw::Missing(Field::Model)))
    );
}

#[test]
fn optional_text_takes_absence_and_null_alike() {
    let members = vec![
        member("base_url", text("u")),
        member("language", Member::Null),
        member("provider", Member::Object),
        member("api_key", Member::List),
    ];
    assert_eq!(optional_text(&members, Field::BaseUrl), Ok(Some("u".to_string())));
    assert_eq!(optional_text(&members, Field::Language), Ok(None));
    assert_eq!(optional_text(&members, Field::Model), Ok(None));
    assert_eq!(
        optional_text(&members, Field::Provider),
        Err(SchemaError::Malformed(Flaw::Mistyped(Field::Provider)))
    );
    assert_eq!(
        optional_text(&members, Field::ApiKey),
        Err(SchemaError::Malformed(Flaw::Mistyped(Field::ApiKey)))
    );
}

#[test]
fn decode_builds_the_record_of_the_slot() {
    let members = vec![
        member("model", text("m")),
        member("provider", text("p")),
        member("base_url", text("u")),
        member("api_key", text("k")),
    ];
    assert_eq!(SecretRecord::decode(Slot::ApiConfig, &members), Ok(api("p", "k", Some("u"))));
    assert_eq!(SecretRecord::decode(Slot::SttConfig, &members), Ok(stt("p", "k", None, Some("m"))));
    assert_eq!(
        SecretRecord::decode(Slot::ApiConfig, &Vec::new()),
        Err(SchemaError::Malformed(Flaw::Missing(Field::Provider)))
    );
}

#[test]
fn decode_reads_back_the_members_of_a_record() {
    for record in [
        api("openai", "sk-abc", None),
        api("openai", "sk-abc", Some("u")),
        stt("whisper", "k", Some("de"), None),
        stt("whisper", "k", Some("de"), Some("m")),
    ] {
        let members: Vec<(String, Member)> = record
            .members()
            .into_iter()
            .map(|(key, value)| (key, Member::Text(value)))
            .collect();
        assert_eq!(SecretRecord::decode(record.slot(), &members), Ok(record));
    }
}

#[test]
fn records_are_equal_field_by_field() {
    assert_eq!(api("p", "k", None), api("p", "k", None));
    assert_ne!(api("p", "k", None), api("p", "k", Some("")));
    assert_ne!(api("p", "k", Some("u")), api("p", "k", Some("v")));
    assert_ne!(api("p", "k", None), api("q", "k", None));
    assert_ne!(api("p", "k", None), api("p", "l", None));
    assert_ne!(api("p", "k", None), stt("p", "k", None, None));
    assert_eq!(stt("p", "k", Some("de"), Some("m")), stt("p", "k", Some("de"), Some("m")));
    assert_ne!(stt("p", "k", Some("de"), Some("m")), stt("p", "k", Some("de"), None));
    assert_ne!(stt("p", "k", Some("de"), Some("m")), stt("p", "k", Some("en"), Some("m")));
}

#[test]
fn same_text_compares_optional_texts() {
    assert!(same_text(&None, &None));
    assert!(same_text(&Some("a".to_string()), &Some("a".to_string())));
    assert!(!same_text(&Some("a".to_string()), &Some("b".to_string())));
    assert!(!same_text(&Some(String::new()), &None));
    assert!(!same_text(&None, &Some(String::new())));
}

#[test]
fn schema_errors_have_messages_without_stored_text() {
    assert_eq!(
        SchemaError::Malformed(Flaw::Unreadable).message(),
        "stored value is not a JSON object"
    );
    assert_eq!(
        SchemaError::Malformed(Flaw::Missing(Field::Provider)).message(),
        "stored value has no field `provider`"
    );
    assert_eq!(
        SchemaError::Malformed(Flaw::Mistyped(Field::BaseUrl)).message(),
        "stored value holds no text in field `base_url`"
    );
    assert_eq!(SchemaError::Unwritable.message(), "record cannot be written as JSON");
}
