use mold2d::KeyboardMappings;

#[test]
fn parse_basic() {
    let s = "10 hello 11 world";
    let mappings = KeyboardMappings::new(s);

    assert_eq!(*mappings.get_action(10).unwrap(), "hello".to_owned());
    assert_eq!(*mappings.get_action(11).unwrap(), "world".to_owned());
}

#[test]
fn parse_newlines() {
    let s = "10 hello\n \n 11 world\n";
    let mappings = KeyboardMappings::new(s);

    assert_eq!(*mappings.get_action(10).unwrap(), "hello".to_owned());
    assert_eq!(*mappings.get_action(11).unwrap(), "world".to_owned());
}

#[test]
fn parse_unbalanced() {
    // should drop unbalanced tokens
    let s = "10 hello 11 world 12";

    let mappings = KeyboardMappings::new(s);
    assert_eq!(*mappings.get_action(10).unwrap(), "hello".to_owned());
    assert_eq!(*mappings.get_action(11).unwrap(), "world".to_owned());
    assert_eq!(mappings.get_action(12), None);
}

#[test]
fn parse_signed_keycodes() {
    let s = "-5 back +7 forth";
    let mappings = KeyboardMappings::new(s);
    assert_eq!(*mappings.get_action(-5).unwrap(), "back".to_owned());
    assert_eq!(*mappings.get_action(7).unwrap(), "forth".to_owned());
}

#[test]
fn parse_later_mapping_wins() {
    let s = "10 first 10 second";
    let mappings = KeyboardMappings::new(s);
    assert_eq!(*mappings.get_action(10).unwrap(), "second".to_owned());
}

#[test]
fn parse_defaults_shape() {
    // The same shape as the usual defaults file: trailing spaces and
    // large keycodes.
    let s = "27 ESC \n13 ENTER \n32 SPACE\n1073741906 UP \n";
    let mappings = KeyboardMappings::new(s);
    assert_eq!(*mappings.get_action(27).unwrap(), "ESC".to_owned());
    assert_eq!(*mappings.get_action(1073741906).unwrap(), "UP".to_owned());
    assert_eq!(mappings.get_action(99), None);
}
