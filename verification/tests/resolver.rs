use clipsaver::errors::Error;
use clipsaver::resolve::choose_directory;
use clipsaver::resolve::get_save_directory;

#[test]
fn cli_override_wins_over_config_override() {
    let cli = Some(String::from("/tmp/a"));
    let config = Some(String::from("/tmp/b"));
    let r = get_save_directory(&cli, &config).unwrap();
    assert_eq!(r, "/tmp/a");
}

#[test]
fn config_override_wins_when_no_cli_override() {
    let config = Some(String::from("/tmp/b"));
    let r = get_save_directory(&None, &config).unwrap();
    assert_eq!(r, "/tmp/b");
}

#[test]
fn no_overrides_yield_current_working_directory() {
    let r = get_save_directory(&None, &None).unwrap();
    assert_eq!(r, ".");
}

#[test]
fn precedence_is_first_match_wins() {
    let cli = Some(String::from("/tmp/a"));
    let config = Some(String::from("/tmp/b"));
    assert_eq!(choose_directory(&cli, &config), "/tmp/a");
    assert_eq!(choose_directory(&cli, &None), "/tmp/a");
    assert_eq!(choose_directory(&None, &config), "/tmp/b");
    assert_eq!(choose_directory(&None, &None), ".");
}

#[test]
fn tilde_override_expands_to_home() {
    let cli = Some(String::from("~/shots"));
    let r = get_save_directory(&cli, &None).unwrap();
    let home = dirs::home_dir().unwrap();
    let expected = format!("{}/shots", home.to_str().unwrap());
    assert_eq!(r, expected);
    assert!(r.starts_with('/'));
}

#[test]
fn unresolvable_variable_reference_is_a_fatal_expansion_error() {
    let cli = Some(String::from("$CLIPSAVER_SURELY_UNSET_VARIABLE_XYZZY/shots"));
    let r = get_save_directory(&cli, &None);
    assert_eq!(r.unwrap_err(), Error::PathExpansionError);
}
