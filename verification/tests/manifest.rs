use mascot_nanai::manifest::parse_descript;

#[test]
fn recognized_keys_are_parsed() {
    let (description, craftman, version) =
        parse_descript("name,Nanai\r\ncraftman,Somebody\r\nversion,1.0\r\n");
    assert_eq!(description, Some("Nanai".to_string()));
    assert_eq!(craftman, Some("Somebody".to_string()));
    assert_eq!(version, Some("1.0".to_string()));
}

#[test]
fn key_order_does_not_matter() {
    let a = parse_descript("name,A\r\ncraftman,B\r\nversion,1.0\r\n");
    let b = parse_descript("version,1.0\r\nname,A\r\ncraftman,B\r\n");
    assert_eq!(a, b);
}

#[test]
fn duplicate_key_last_occurrence_wins() {
    let (description, _, _) = parse_descript("name,First\r\nname,Second\r\n");
    assert_eq!(description, Some("Second".to_string()));
}

#[test]
fn keys_and_values_are_trimmed() {
    let (description, craftman, _) = parse_descript("  name , Spaced Value  \ncraftman,\tTab\t\n");
    assert_eq!(description, Some("Spaced Value".to_string()));
    assert_eq!(craftman, Some("Tab".to_string()));
}

#[test]
fn lines_without_comma_are_ignored() {
    let (description, craftman, version) = parse_descript("just a line\nname=equals\n");
    assert_eq!(description, None);
    assert_eq!(craftman, None);
    assert_eq!(version, None);
}

#[test]
fn unrecognized_keys_are_ignored() {
    let (description, craftman, version) = parse_descript("shiori,yaya.dll\nname,X\n");
    assert_eq!(description, Some("X".to_string()));
    assert_eq!(craftman, None);
    assert_eq!(version, None);
}

#[test]
fn value_keeps_later_commas() {
    let (description, _, _) = parse_descript("name,a,b,c\n");
    assert_eq!(description, Some("a,b,c".to_string()));
}

#[test]
fn empty_manifest_has_no_fields() {
    let (description, craftman, version) = parse_descript("");
    assert_eq!(description, None);
    assert_eq!(craftman, None);
    assert_eq!(version, None);
}

#[test]
fn plain_newlines_work_like_crlf() {
    let a = parse_descript("name,A\ncraftman,B\n");
    let b = parse_descript("name,A\r\ncraftman,B\r\n");
    assert_eq!(a, b);
}
