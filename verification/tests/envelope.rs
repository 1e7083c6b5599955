use bee_agent::envelope::Envelope;

fn lines(items: &[&str]) -> Vec<String> {
    items.iter().map(|s| s.to_string()).collect()
}

#[test]
fn empty_envelope_has_no_lines() {
    assert_eq!(Envelope::empty().data, Vec::<String>::new());
    assert_eq!(Envelope::empty().to_json(), "{\"data\":[]}");
}

#[test]
fn new_keeps_the_lines_in_order() {
    let envelope = Envelope::new(lines(&["b", "a", "b"]));
    assert_eq!(envelope.data, lines(&["b", "a", "b"]));
}

#[test]
fn to_json_writes_an_object_with_the_data_array() {
    let envelope = Envelope::new(lines(&["one", "two"]));
    assert_eq!(envelope.to_json(), "{\"data\":[\"one\",\"two\"]}");
}

#[test]
fn to_json_escapes_what_json_must() {
    let envelope = Envelope::new(lines(&["say \"hi\"", "a\\b", "tab\there", "cr\r", "\u{1}"]));
    assert_eq!(
        envelope.to_json(),
        "{\"data\":[\"say \\\"hi\\\"\",\"a\\\\b\",\"tab\\there\",\"cr\\r\",\"\\u0001\"]}"
    );
}

#[test]
fn to_json_keeps_characters_outside_ascii() {
    let envelope = Envelope::new(lines(&["名称: 节点"]));
    assert_eq!(envelope.to_json(), "{\"data\":[\"名称: 节点\"]}");
}

#[test]
fn to_json_keeps_empty_lines() {
    let envelope = Envelope::new(lines(&["", ""]));
    assert_eq!(envelope.to_json(), "{\"data\":[\"\",\"\"]}");
}

#[test]
fn to_json_reads_back_as_the_same_lines() {
    let data = lines(&["plain", "with \"quotes\"", "back\\slash", "名称", "", "a\u{7f}b\u{0}c"]);
    let text = Envelope::new(data.clone()).to_json();
    let value: serde_json::Value = serde_json::from_str(&text).unwrap();
    let object = value.as_object().unwrap();
    assert_eq!(object.len(), 1);
    let array = object.get("data").unwrap().as_array().unwrap();
    let read: Vec<String> = array.iter().map(|v| v.as_str().unwrap().to_string()).collect();
    assert_eq!(read, data);
}
