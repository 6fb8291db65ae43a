use deploy::digest::{local_digest, to_hex_lower};
use deploy::strutil::{char_to_string, clone_strings, replace_char_str, split_on_char};
use deploy::ui_state::{
    convert_target_state_to_str, u64_to_string, TargetState, UIScreen, UIStore, UITargetState,
};

#[test]
fn sha1_digest_of_empty_input() {
    // The well-known SHA-1 digest of the empty byte string.
    assert_eq!(local_digest(&[]), "da39a3ee5e6b4b0d3255bfef95601890afd80709");
}

#[test]
fn sha1_digest_of_abc() {
    // The well-known SHA-1 digest of "abc"; fails if the digest step
    // handed its input back unchanged.
    assert_eq!(local_digest(b"abc"), "a9993e364706816aba3e25717850c26c9cd0d89d");
}

#[test]
fn hex_rendering_is_lowercase_two_digits_per_byte() {
    assert_eq!(to_hex_lower(&vec![0x00u8, 0xff, 0x1a]), "00ff1a");
    assert_eq!(to_hex_lower(&vec![]), "");
}

#[test]
fn split_keeps_empty_segments() {
    let parts = split_on_char("a:b:c", ':');
    assert_eq!(parts, vec!["a", "b", "c"]);
    assert_eq!(split_on_char("", ':'), vec![""]);
    assert_eq!(split_on_char("a::b", ':'), vec!["a", "", "b"]);
    assert_eq!(split_on_char("x:", ':'), vec!["x", ""]);
    assert_eq!(split_on_char("no-sep", ':'), vec!["no-sep"]);
}

#[test]
fn split_on_newlines() {
    let parts = split_on_char("one\ntwo\n", '\n');
    assert_eq!(parts, vec!["one", "two", ""]);
}

#[test]
fn replace_backslashes() {
    assert_eq!(replace_char_str("a\\b\\c", '\\', '/'), "a/b/c");
    assert_eq!(replace_char_str("plain", '\\', '/'), "plain");
    assert_eq!(replace_char_str("", '\\', '/'), "");
}

#[test]
fn char_to_string_single_char() {
    assert_eq!(char_to_string('x'), "x");
    assert_eq!(char_to_string('/'), "/");
}

#[test]
fn clone_strings_copies_values() {
    let v = vec!["a".to_string(), "b".to_string()];
    assert_eq!(clone_strings(&v), v);
}

#[test]
fn decimal_rendering() {
    assert_eq!(u64_to_string(0), "0");
    assert_eq!(u64_to_string(7), "7");
    assert_eq!(u64_to_string(42), "42");
    assert_eq!(u64_to_string(1234567890), "1234567890");
    assert_eq!(u64_to_string(u64::MAX), "18446744073709551615");
}

#[test]
fn target_state_lines() {
    let line = |st, pkg: &str, pos, len| {
        convert_target_state_to_str(st, pkg.to_string(), pos, len).unwrap()
    };
    assert_eq!(line(UITargetState::TARGET_START, "", 0, 0), "[1/5] starting deployment");
    assert_eq!(
        line(UITargetState::TARGET_CHECKSUM, "web", 0, 0),
        "[2/5] computing checksum web"
    );
    assert_eq!(
        line(UITargetState::TARGET_UPLOADING, "web", 5, 10),
        "[3/5] uploading web (5/10)"
    );
    assert_eq!(
        line(UITargetState::TARGET_NO_CHANGES, "web", 0, 0),
        "[3/5] no changes for web"
    );
    assert_eq!(line(UITargetState::TARGET_FINISHING, "", 0, 0), "[4/5] finishing deployment");
    assert_eq!(line(UITargetState::TARGET_FINISHED, "", 0, 0), "[5/5] finished");
}

#[test]
fn update_target_touches_only_the_named_slot() {
    let mut store = UIStore::new();
    for i in 0..2u32 {
        store.set_deployment_target(i, TargetState {
            state: UITargetState::TARGET_START,
            name: format!("t{}", i),
            upload_package: "none".to_string(),
            upload_pos: 0,
            upload_len: 0,
        });
    }
    store.update_target(0, UITargetState::TARGET_UPLOADING, Some("web".to_string()), Some((5, 10)));
    let slot0 = store.deployment_targets.get(&0).unwrap();
    assert!(matches!(slot0.state, UITargetState::TARGET_UPLOADING));
    assert_eq!(slot0.upload_package, "web");
    assert_eq!(slot0.upload_pos, 5);
    assert_eq!(slot0.upload_len, 10);
    assert_eq!(slot0.name, "t0");
    let slot1 = store.deployment_targets.get(&1).unwrap();
    assert!(matches!(slot1.state, UITargetState::TARGET_START));
    assert_eq!(slot1.upload_package, "none");
    // Progress-only update keeps the package name.
    store.update_target(0, UITargetState::TARGET_UPLOADING, None, Some((10, 10)));
    assert_eq!(store.deployment_targets.get(&0).unwrap().upload_package, "web");
    // An index with no slot stays absent.
    store.update_target(9, UITargetState::TARGET_FINISHED, None, None);
    assert!(store.deployment_targets.get(&9).is_none());
}

#[test]
fn store_setters_and_finalize() {
    let mut store = UIStore::new();
    assert!(matches!(store.screen, UIScreen::CONFIG));
    store
        .set_targets_count(3)
        .set_packages_count(2)
        .set_deployed_count(0)
        .set_exit_on_finish(true);
    store.set_screen(UIScreen::TARGET_START);
    assert_eq!(store.targets_count, 3);
    assert_eq!(store.packages_count, 2);
    assert!(store.exit_on_finish);
    assert!(matches!(store.screen, UIScreen::TARGET_START));
    let copy = store.finalize();
    assert_eq!(copy.targets_count, 3);
    assert!(copy.deployment_targets.is_empty());
}
