use mkdbupgrade::run::{output_filename, overwrite_allowed, resolve_version};

#[test]
fn filename_without_prefix() {
    let name = output_filename(&None, &String::from("3.2.1"), &String::from("3.3.0"));
    assert_eq!(name, String::from("3.2.1-3.3.0-upgrade-db.sql"));
}

#[test]
fn filename_with_prefix() {
    let prefix = Some(String::from("site-"));
    let name = output_filename(&prefix, &String::from("3.2.1"), &String::from("3.3.0"));
    assert_eq!(name, String::from("site-3.2.1-3.3.0-upgrade-db.sql"));
}

#[test]
fn explicit_version_wins_over_derived() {
    let r = resolve_version(Some(String::from("9.9.9")), Some(String::from("3.3.0")));
    assert_eq!(r, Some(String::from("9.9.9")));
}

#[test]
fn derived_version_fills_in_for_missing_explicit() {
    let r = resolve_version(None, Some(String::from("3.3.0")));
    assert_eq!(r, Some(String::from("3.3.0")));
}

#[test]
fn no_version_at_all_is_reported() {
    assert_eq!(resolve_version(None, None), None);
}

#[test]
fn existing_output_without_clobber_is_refused() {
    assert!(!overwrite_allowed(true, false));
}

#[test]
fn existing_output_with_clobber_is_allowed() {
    assert!(overwrite_allowed(true, true));
}

#[test]
fn fresh_output_is_allowed() {
    assert!(overwrite_allowed(false, false));
}
