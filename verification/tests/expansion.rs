use tilde_expand::expand_with;
use tilde_expand::expandable_name;
use tilde_expand::resolve_home;
use tilde_expand::tilde_expand;
use tilde_expand::LookupError;

/// What the library's resolver relies on, done directly: the home
/// directory of the named account, or nothing when the lookup fails in
/// any way.
fn os_home_by_name(name: &str) -> Option<Vec<u8>> {
    match nix::unistd::User::from_name(name) {
        Ok(Some(user)) => Some(user.dir.into_os_string().into_encoded_bytes()),
        _ => None,
    }
}

/// The home directory of the calling process's own user, or nothing when
/// the lookup fails in any way.
fn os_home_current() -> Option<Vec<u8>> {
    match nix::unistd::User::from_uid(nix::unistd::getuid()) {
        Ok(Some(user)) => Some(user.dir.into_os_string().into_encoded_bytes()),
        _ => None,
    }
}

#[test]
fn identity_without_leading_tilde() {
    assert_eq!(tilde_expand(b"noexpand~/test"), b"noexpand~/test".to_vec());
    assert_eq!(tilde_expand(b"/plain/path"), b"/plain/path".to_vec());
    assert_eq!(tilde_expand(b"rel/path"), b"rel/path".to_vec());
    assert_eq!(tilde_expand(b""), b"".to_vec());
}

#[test]
fn identity_preserves_non_text_bytes() {
    let input: Vec<u8> = vec![0x80, 0x00, 0xff, 0x2f, 0x7e];
    assert_eq!(tilde_expand(&input), input);
}

#[test]
fn identity_with_multiple_tildes_before_slash() {
    assert_eq!(tilde_expand(b"~~/noexpand-test"), b"~~/noexpand-test".to_vec());
    assert_eq!(tilde_expand(b"~a~b/x"), b"~a~b/x".to_vec());
    assert_eq!(tilde_expand(b"~~"), b"~~".to_vec());
}

#[test]
fn expands_current_user_home() {
    let mut expected = os_home_current().unwrap_or_default();
    expected.extend_from_slice(b"/user-test");
    assert_eq!(tilde_expand(b"~/user-test"), expected);
}

#[test]
fn expands_bare_tilde_to_current_user_home() {
    let expected = os_home_current().unwrap_or_default();
    assert_eq!(tilde_expand(b"~"), expected);
}

#[test]
fn expands_named_user_home() {
    let mut expected = os_home_by_name("root").unwrap_or_default();
    expected.extend_from_slice(b"/root-test");
    assert_eq!(tilde_expand(b"~root/root-test"), expected);
}

#[test]
fn expands_when_remainder_holds_a_tilde() {
    let mut expected = os_home_by_name("root").unwrap_or_default();
    expected.extend_from_slice(b"/root~test");
    assert_eq!(tilde_expand(b"~root/root~test"), expected);
}

#[test]
fn unknown_user_segment_is_dropped() {
    assert_eq!(tilde_expand(b"~zz_no_such_user_zz/x"), b"/x".to_vec());
    assert_eq!(tilde_expand(b"~zz_no_such_user_zz"), b"".to_vec());
}

#[test]
fn nul_in_name_drops_the_segment() {
    assert_eq!(tilde_expand(b"~a\0b/x"), b"/x".to_vec());
}

#[test]
fn non_utf8_name_drops_the_segment() {
    let input: Vec<u8> = vec![0x7e, 0xff, 0xfe, 0x2f, 0x78];
    assert_eq!(tilde_expand(&input), b"/x".to_vec());
}

#[test]
fn resolver_refuses_malformed_names() {
    assert_eq!(resolve_home(b"a\0b"), Err(LookupError::InvalidName));
    let non_utf8: Vec<u8> = vec![0xff, 0xfe];
    assert_eq!(resolve_home(&non_utf8), Err(LookupError::InvalidName));
}

#[test]
fn resolver_reports_unknown_names() {
    assert_eq!(resolve_home(b"zz_no_such_user_zz"), Err(LookupError::NotFound));
}

#[test]
fn resolver_matches_account_database_by_name() {
    match nix::unistd::User::from_name("root") {
        Ok(Some(user)) => assert_eq!(
            resolve_home(b"root"),
            Ok(user.dir.into_os_string().into_encoded_bytes())
        ),
        Ok(None) => assert_eq!(resolve_home(b"root"), Err(LookupError::NotFound)),
        Err(e) => assert_eq!(resolve_home(b"root"), Err(LookupError::LookupFailed(e as i32))),
    }
}

#[test]
fn resolver_resolves_empty_name_as_current_user() {
    match nix::unistd::User::from_uid(nix::unistd::getuid()) {
        Ok(Some(user)) => assert_eq!(
            resolve_home(b""),
            Ok(user.dir.into_os_string().into_encoded_bytes())
        ),
        Ok(None) => assert_eq!(resolve_home(b""), Err(LookupError::NotFound)),
        Err(e) => assert_eq!(resolve_home(b""), Err(LookupError::LookupFailed(e as i32))),
    }
}

#[test]
fn assembles_resolved_home_with_remainder() {
    assert_eq!(expand_with(b"~u/x", Some(b"/home/u".to_vec())), b"/home/u/x".to_vec());
    assert_eq!(expand_with(b"~u/x", None), b"/x".to_vec());
    assert_eq!(expand_with(b"~", Some(b"/h".to_vec())), b"/h".to_vec());
    assert_eq!(expand_with(b"~", None), b"".to_vec());
}

#[test]
fn assembly_ignores_the_outcome_on_ineligible_input() {
    assert_eq!(expand_with(b"plain", Some(b"/h".to_vec())), b"plain".to_vec());
    assert_eq!(expand_with(b"~~/x", Some(b"/h".to_vec())), b"~~/x".to_vec());
}

#[test]
fn expansion_applies_again_on_a_result_with_a_tilde() {
    let once = expand_with(b"~alpha/x", Some(b"~beta".to_vec()));
    assert_eq!(once, b"~beta/x".to_vec());
    let twice = expand_with(&once, Some(b"/home/beta".to_vec()));
    assert_eq!(twice, b"/home/beta/x".to_vec());
    assert_ne!(twice, once);
}

#[test]
fn candidate_name_extraction() {
    assert_eq!(expandable_name(b"~root/x"), Some(b"root".to_vec()));
    assert_eq!(expandable_name(b"~/x"), Some(b"".to_vec()));
    assert_eq!(expandable_name(b"~abc"), Some(b"abc".to_vec()));
    assert_eq!(expandable_name(b"abc"), None);
    assert_eq!(expandable_name(b""), None);
    assert_eq!(expandable_name(b"~~x/y"), None);
}
