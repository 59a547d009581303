use script_exec::{label_list, label_map, label_map_of, parse_label_pair, parse_title_path_pair, Script};

fn owned(a: &str, b: &str) -> (String, String) {
    (a.to_string(), b.to_string())
}

#[test]
fn title_path_pair_splits_at_equals() {
    assert_eq!(parse_title_path_pair("disk=/usr/lib/check/disk.sh"), Ok(owned("disk", "/usr/lib/check/disk.sh")));
}

#[test]
fn title_path_pair_allows_empty_parts() {
    assert_eq!(parse_title_path_pair("=x"), Ok(owned("", "x")));
    assert_eq!(parse_title_path_pair("x="), Ok(owned("x", "")));
}

#[test]
fn title_path_pair_without_equals_is_rejected() {
    assert_eq!(
        parse_title_path_pair("/bin/true"),
        Err("Each pair must be in the format 'title=path'".to_string())
    );
}

#[test]
fn title_path_pair_with_two_equals_is_rejected() {
    assert!(parse_title_path_pair("a=b=c").is_err());
}

#[test]
fn title_path_pair_keeps_unicode() {
    assert_eq!(parse_title_path_pair("prüfung=/tmp/ä.sh"), Ok(owned("prüfung", "/tmp/ä.sh")));
}

#[test]
fn label_pair_splits_at_colon() {
    assert_eq!(parse_label_pair("host:alpha"), Ok(owned("host", "alpha")));
}

#[test]
fn label_pair_errors() {
    let msg = "Key-value pair must be in the format 'key:value'".to_string();
    assert_eq!(parse_label_pair("hostalpha"), Err(msg.clone()));
    assert_eq!(parse_label_pair("a:b:c"), Err(msg));
}

#[test]
fn script_title_is_file_stem() {
    let s = Script::new("/usr/lib/check/disk.sh".to_string());
    assert_eq!(s.title, "disk");
    assert_eq!(s.path, "/usr/lib/check/disk.sh");
}

#[test]
fn script_title_falls_back_to_path() {
    let s = Script::new("".to_string());
    assert_eq!(s.title, "");
    let t = Script::with_stem("/x/y".to_string(), None);
    assert_eq!(t.title, "/x/y");
    let u = Script::with_stem("/x/y.sh".to_string(), Some("y".to_string()));
    assert_eq!(u.title, "y");
}

#[test]
fn labels_keep_first_position_and_last_value() {
    let pairs = vec![owned("b", "1"), owned("a", "2"), owned("b", "3")];
    let m = label_map(&pairs);
    assert_eq!(label_list(&m), vec![owned("b", "3"), owned("a", "2")]);
}

#[test]
fn labels_absent_are_empty() {
    assert!(label_list(&label_map_of(&None)).is_empty());
    let m = label_map_of(&Some(vec![owned("env", "prod")]));
    assert_eq!(label_list(&m), vec![owned("env", "prod")]);
}
