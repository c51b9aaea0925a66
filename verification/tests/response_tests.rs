use vk_bot_context::response::Response;

#[test]
fn new_response_is_empty() {
    let r = Response::new();
    assert_eq!(r.message().as_str(), "");
    assert!(r.attachments().is_empty());
    assert!(r.keyboard().is_none());
}

#[test]
fn set_and_append_message() {
    let mut r = Response::new();
    r.set_message("Hello".to_string());
    assert_eq!(r.message().as_str(), "Hello");
    r.append_message(", world");
    assert_eq!(r.message().as_str(), "Hello, world");
    r.set_message("again".to_string());
    assert_eq!(r.message().as_str(), "again");
}

#[test]
fn attachments_keep_insertion_order() {
    let mut r = Response::new();
    r.add_attachment("photo1_1".to_string());
    r.add_attachment("doc2_2".to_string());
    assert_eq!(
        r.attachments().clone(),
        vec!["photo1_1".to_string(), "doc2_2".to_string()]
    );
}

#[test]
fn keyboard_set_and_read() {
    let mut r = Response::new();
    assert!(r.keyboard().is_none());
    let mut map = serde_json::Map::new();
    map.insert("one_time".to_string(), serde_json::Value::Bool(true));
    r.set_keyboard(serde_json::Value::Object(map));
    let k = r.keyboard().unwrap();
    assert_eq!(k.get("one_time"), Some(&serde_json::Value::Bool(true)));
}
