use videoroom::util::{get_env, get_env_or};

#[test]
fn absent_setting_has_no_value() {
    assert_eq!(get_env::<u16>(None), None);
}

#[test]
fn understood_setting_has_its_value() {
    assert_eq!(get_env(Some(Ok(8080u16))), Some(8080));
}

#[test]
fn default_stands_in_for_absent_or_garbled_setting() {
    assert_eq!(get_env_or(None, 3000u16), 3000);
    assert_eq!(get_env_or(Some(Err("invalid digit".to_string())), 3000u16), 3000);
    assert_eq!(get_env_or(Some(Ok(8080u16)), 3000), 8080);
}
