use vk_bot_context::params::{build_send_params, Params};

fn pairs(p: &Params) -> Vec<(String, String)> {
    let mut out: Vec<(String, String)> = Vec::new();
    let mut i: usize = 0;
    while i < p.len() {
        out.push((p.key_at(i).clone(), p.value_at(i).clone()));
        i += 1;
    }
    out
}

fn keys(p: &Params) -> Vec<String> {
    pairs(p).into_iter().map(|(k, _)| k).collect()
}

fn value_of(p: &Params, key: &str) -> Option<String> {
    pairs(p).into_iter().find(|(k, _)| k == key).map(|(_, v)| v)
}

#[test]
fn empty_response_has_only_peer_and_random() {
    let p = build_send_params(42, &String::new(), &Vec::new(), None, 17);
    assert_eq!(keys(&p), vec!["peer_id".to_string(), "random_id".to_string()]);
    assert_eq!(value_of(&p, "peer_id").unwrap(), "42");
    assert_eq!(value_of(&p, "random_id").unwrap(), "17");
    assert_eq!(value_of(&p, "message"), None);
    assert_eq!(value_of(&p, "attachment"), None);
    assert_eq!(value_of(&p, "keyboard"), None);
}

#[test]
fn message_included_only_when_non_empty() {
    let p = build_send_params(1, &"hello".to_string(), &Vec::new(), None, 2);
    assert_eq!(
        keys(&p),
        vec!["peer_id".to_string(), "message".to_string(), "random_id".to_string()]
    );
    assert_eq!(value_of(&p, "message").unwrap(), "hello");
}

#[test]
fn single_attachment_has_no_commas() {
    let attachments = vec!["photo10_20".to_string()];
    let p = build_send_params(1, &String::new(), &attachments, None, 2);
    assert_eq!(value_of(&p, "attachment").unwrap(), "photo10_20");
}

#[test]
fn two_attachments_join_with_one_comma() {
    let attachments = vec!["A".to_string(), "B".to_string()];
    let p = build_send_params(1, &String::new(), &attachments, None, 2);
    assert_eq!(value_of(&p, "attachment").unwrap(), "A,B");
}

#[test]
fn three_attachments_keep_order() {
    let attachments = vec!["a1".to_string(), "b2".to_string(), "c3".to_string()];
    let p = build_send_params(1, &String::new(), &attachments, None, 2);
    assert_eq!(value_of(&p, "attachment").unwrap(), "a1,b2,c3");
}

#[test]
fn keyboard_passed_through_verbatim() {
    let p = build_send_params(
        1,
        &String::new(),
        &Vec::new(),
        Some("{\"buttons\":[]}".to_string()),
        2,
    );
    assert_eq!(value_of(&p, "keyboard").unwrap(), "{\"buttons\":[]}");
}

#[test]
fn full_parameter_order_is_fixed() {
    let attachments = vec!["doc1_1".to_string()];
    let p = build_send_params(
        -5,
        &"text".to_string(),
        &attachments,
        Some("{}".to_string()),
        -3,
    );
    assert_eq!(
        pairs(&p),
        vec![
            ("peer_id".to_string(), "-5".to_string()),
            ("message".to_string(), "text".to_string()),
            ("attachment".to_string(), "doc1_1".to_string()),
            ("keyboard".to_string(), "{}".to_string()),
            ("random_id".to_string(), "-3".to_string()),
        ]
    );
}

#[test]
fn params_insert_keeps_order() {
    let mut p = Params::new();
    assert_eq!(p.len(), 0);
    p.insert("k1".to_string(), "v1".to_string());
    p.insert("k2".to_string(), "v2".to_string());
    assert_eq!(p.len(), 2);
    assert_eq!(p.key_at(0).as_str(), "k1");
    assert_eq!(p.value_at(1).as_str(), "v2");
}
