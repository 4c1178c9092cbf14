use rest_bridge::headers::HeaderMarshaller;
use rest_bridge::headers::HeaderSet;
use rest_bridge::headers::MarshalError;

fn pairs_of(hs: &HeaderSet) -> Vec<(String, String)> {
    let mut out = Vec::new();
    let mut i = 0;
    while i < hs.len() {
        out.push((hs.name_at(i).clone(), hs.value_at(i).clone()));
        i += 1;
    }
    out
}

#[test]
fn empty_object_gives_empty_header_set() {
    let hs = HeaderMarshaller::decode("{}").unwrap();
    assert_eq!(hs.len(), 0);
    let hs = HeaderMarshaller::decode("  { \t\r\n }  ").unwrap();
    assert_eq!(hs.len(), 0);
}

#[test]
fn single_pair_is_decoded() {
    let hs = HeaderMarshaller::decode("{\"Authorization\":\"Basic abc\"}").unwrap();
    assert_eq!(pairs_of(&hs), vec![("Authorization".to_string(), "Basic abc".to_string())]);
}

#[test]
fn pairs_keep_document_order() {
    let hs = HeaderMarshaller::decode(
        " { \"B\" : \"2\" , \"A\" : \"1\" , \"C\" : \"3\" } ",
    )
    .unwrap();
    assert_eq!(
        pairs_of(&hs),
        vec![
            ("B".to_string(), "2".to_string()),
            ("A".to_string(), "1".to_string()),
            ("C".to_string(), "3".to_string()),
        ]
    );
}

#[test]
fn duplicate_names_are_all_kept_in_order() {
    let hs = HeaderMarshaller::decode("{\"A\":\"1\",\"A\":\"2\"}").unwrap();
    assert_eq!(
        pairs_of(&hs),
        vec![("A".to_string(), "1".to_string()), ("A".to_string(), "2".to_string())]
    );
}

#[test]
fn escapes_are_decoded() {
    let hs = HeaderMarshaller::decode(
        "{\"X-Esc\":\"a\\tb \\\"q\\\" back\\\\slash \\/ \\u0041\"}",
    )
    .unwrap();
    assert_eq!(pairs_of(&hs), vec![("X-Esc".to_string(), "a\tb \"q\" back\\slash / A".to_string())]);
}

#[test]
fn surrogate_pair_escape_is_decoded() {
    let hs = HeaderMarshaller::decode("{\"X\":\"\\uD834\\uDD1E\"}").unwrap();
    assert_eq!(pairs_of(&hs), vec![("X".to_string(), "\u{1D11E}".to_string())]);
}

#[test]
fn escaped_name_characters_are_decoded() {
    let hs = HeaderMarshaller::decode("{\"\\u0058-a\":\"v\"}").unwrap();
    assert_eq!(pairs_of(&hs), vec![("X-a".to_string(), "v".to_string())]);
}

#[test]
fn empty_value_is_legal() {
    let hs = HeaderMarshaller::decode("{\"X\":\"\"}").unwrap();
    assert_eq!(pairs_of(&hs), vec![("X".to_string(), "".to_string())]);
}

#[test]
fn non_string_values_are_refused() {
    let bad = [
        "{\"X\":1}",
        "{\"X\":true}",
        "{\"X\":null}",
        "{\"X\":[\"a\"]}",
        "{\"X\":{\"y\":\"z\"}}",
        "{\"A\":\"ok\",\"X\":1}",
    ];
    for b in bad {
        assert_eq!(HeaderMarshaller::decode(b).unwrap_err(), MarshalError::NotStringObject);
    }
}

#[test]
fn malformed_json_is_refused() {
    let bad = [
        "",
        "   ",
        "{",
        "}",
        "[]",
        "\"a\"",
        "{\"a\"}",
        "{\"a\":}",
        "{\"a\":\"b\"",
        "{\"a\":\"b\",}",
        "{,}",
        "{\"a\" \"b\"}",
        "{\"a\":\"b\"} x",
        "{\"a\":\"b\nc\"}",
        "{\"a\":\"b\\qc\"}",
        "{\"a\":\"\\uD800\"}",
        "{\"a\":\"\\uDD1E\"}",
        "{\"a\":\"\\u12\"}",
        "{'a':'b'}",
    ];
    for b in bad {
        assert_eq!(HeaderMarshaller::decode(b).unwrap_err(), MarshalError::NotStringObject);
    }
}

#[test]
fn illegal_header_names_are_refused() {
    let bad = ["{\"\":\"v\"}", "{\"a b\":\"v\"}", "{\"a:b\":\"v\"}", "{\"a\\u0000b\":\"v\"}"];
    for b in bad {
        assert_eq!(HeaderMarshaller::decode(b).unwrap_err(), MarshalError::InvalidHeaderName);
    }
}

#[test]
fn illegal_header_values_are_refused() {
    let bad = ["{\"X\":\"\\u0000\"}", "{\"X\":\"a\\nb\"}", "{\"X\":\"\\u007F\"}"];
    for b in bad {
        assert_eq!(HeaderMarshaller::decode(b).unwrap_err(), MarshalError::InvalidHeaderValue);
    }
}

#[test]
fn name_violations_are_reported_before_value_violations() {
    assert_eq!(
        HeaderMarshaller::decode("{\"A\":\"\\u0000\",\"a b\":\"v\"}").unwrap_err(),
        MarshalError::InvalidHeaderName
    );
}

#[test]
fn error_messages_describe_the_failure() {
    assert_eq!(
        MarshalError::NotStringObject.message(),
        "headers must be a JSON object with string values"
    );
    assert_eq!(MarshalError::InvalidHeaderName.message(), "header name is not a legal token");
    assert_eq!(
        MarshalError::InvalidHeaderValue.message(),
        "header value holds an illegal character"
    );
}

#[test]
fn agrees_with_serde_json_on_accepted_inputs() {
    let inputs = [
        "{}",
        "{\"Authorization\":\"Basic abc\"}",
        " { \"B\" : \"2\" , \"A\" : \"1\" } ",
        "{\"X-Esc\":\"a\\tb \\u0041 \\uD834\\uDD1E\"}",
    ];
    for input in inputs {
        let hs = HeaderMarshaller::decode(input).unwrap();
        let v: serde_json::Value = serde_json::from_str(input).unwrap();
        let obj = v.as_object().unwrap();
        assert_eq!(hs.len(), obj.len());
        for (name, value) in pairs_of(&hs) {
            assert_eq!(obj.get(&name).unwrap().as_str().unwrap(), value);
        }
    }
}

#[test]
fn agrees_with_serde_json_on_malformed_inputs() {
    let bad = ["", "{", "{\"a\":}", "{\"a\":\"b\",}", "{\"a\":\"\\uD800\"}", "{'a':'b'}"];
    for b in bad {
        assert_eq!(HeaderMarshaller::decode(b).unwrap_err(), MarshalError::NotStringObject);
        assert!(serde_json::from_str::<serde_json::Value>(b).is_err());
    }
}
