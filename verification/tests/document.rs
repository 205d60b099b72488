use akane::document::{patch_audio_query, AudioQuery, NotAnObject, SPEED_SCALE, SPEED_SCALE_MEMBER};

#[test]
fn the_speed_is_the_fixed_one() {
    assert_eq!(SPEED_SCALE_MEMBER, "speedScale");
    assert_eq!(SPEED_SCALE, "1.3");
}

#[test]
fn speed_is_overridden_and_the_rest_is_kept() {
    let query = "{\"speedScale\":1.0,\"pitchScale\":0.0,\"kana\":\"\u{30cf}\u{30a4}\"}";
    assert_eq!(
        patch_audio_query(query),
        Ok("{\"kana\":\"\u{30cf}\u{30a4}\",\"pitchScale\":0.0,\"speedScale\":\"1.3\"}".to_string())
    );
}

#[test]
fn speed_is_added_where_it_was_missing() {
    assert_eq!(patch_audio_query("{}"), Ok("{\"speedScale\":\"1.3\"}".to_string()));
    assert_eq!(
        patch_audio_query(" { \"volumeScale\" : 1 } "),
        Ok("{\"speedScale\":\"1.3\",\"volumeScale\":1}".to_string())
    );
}

#[test]
fn speed_is_overridden_whatever_it_was() {
    for old in ["1.0", "\"1.3\"", "null", "[1,2]", "{\"nested\":true}", "-7e3"] {
        let query = format!("{{\"speedScale\":{}}}", old);
        assert_eq!(patch_audio_query(&query), Ok("{\"speedScale\":\"1.3\"}".to_string()));
    }
}

#[test]
fn nested_members_are_left_alone() {
    let query = "{\"accent_phrases\":[{\"moras\":[{\"text\":\"a\",\"speedScale\":2}]}],\"speedScale\":1}";
    assert_eq!(
        patch_audio_query(query),
        Ok("{\"accent_phrases\":[{\"moras\":[{\"speedScale\":2,\"text\":\"a\"}]}],\"speedScale\":\"1.3\"}"
            .to_string())
    );
}

#[test]
fn what_is_no_object_is_refused() {
    for text in ["", "null", "[]", "1", "\"speedScale\"", "true", "{", "{\"a\":1} x", "{'a':1}"] {
        assert_eq!(patch_audio_query(text), Err(NotAnObject), "{:?}", text);
    }
}

#[test]
fn document_is_parsed_patched_and_rendered() {
    let document = AudioQuery::parse("{\"b\":2,\"a\":1}").unwrap();
    assert_eq!(document.render(), "{\"a\":1,\"b\":2}");
    let document = AudioQuery::parse("{\"b\":2,\"a\":1}").unwrap();
    assert_eq!(document.with_speed_scale().render(), "{\"a\":1,\"b\":2,\"speedScale\":\"1.3\"}");
    assert!(AudioQuery::parse("[1]").is_err());
}

#[test]
fn patching_twice_changes_nothing_more() {
    let once = patch_audio_query("{\"speedScale\":1.0,\"a\":[]}").unwrap();
    assert_eq!(patch_audio_query(&once), Ok(once.clone()));
}

#[test]
fn a_name_that_occurs_twice_keeps_its_last_value() {
    assert_eq!(
        patch_audio_query("{\"a\":1,\"a\":2}"),
        Ok("{\"a\":2,\"speedScale\":\"1.3\"}".to_string())
    );
}

#[test]
fn patched_document_agrees_with_the_json_library() {
    let query = "{\"speedScale\":1.0,\"outputStereo\":false,\"kana\":\"q\\\"uote\"}";
    let patched = patch_audio_query(query).unwrap();
    let before: serde_json::Value = serde_json::from_str(query).unwrap();
    let after: serde_json::Value = serde_json::from_str(&patched).unwrap();
    let before = before.as_object().unwrap();
    let after = after.as_object().unwrap();
    assert_eq!(after.get("speedScale"), Some(&serde_json::Value::String("1.3".to_string())));
    assert_eq!(after.len(), before.len());
    for (name, value) in before {
        if name != "speedScale" {
            assert_eq!(after.get(name), Some(value));
        }
    }
}
