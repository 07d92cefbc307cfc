use rspc_actix::query::{find_input, query_input};

#[test]
fn query_input_takes_first_input_parameter() {
    assert_eq!(query_input(Some("a=1&input=%7B%7D&input=2")), Some("{}".to_string()));
}

#[test]
fn query_input_decodes_plus_as_space() {
    assert_eq!(query_input(Some("input=%22a+b%22")), Some("\"a b\"".to_string()));
}

#[test]
fn query_input_without_parameter_is_none() {
    assert_eq!(query_input(Some("x=1&inputs=2")), None);
    assert_eq!(query_input(Some("")), None);
    assert_eq!(query_input(None), None);
}

#[test]
fn query_input_of_parameter_without_value_is_empty() {
    assert_eq!(query_input(Some("input")), Some(String::new()));
}

#[test]
fn find_input_returns_first_match() {
    let pairs = vec![
        ("x".to_string(), "1".to_string()),
        ("input".to_string(), "first".to_string()),
        ("input".to_string(), "second".to_string()),
    ];
    assert_eq!(find_input(&pairs), Some("first".to_string()));
}

#[test]
fn find_input_on_no_match_is_none() {
    let pairs = vec![("Input".to_string(), "1".to_string())];
    assert_eq!(find_input(&pairs), None);
    assert_eq!(find_input(&Vec::new()), None);
}
