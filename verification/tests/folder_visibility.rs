use packs::folder_visibility::folder_visible;
use packs::pack::{CheckerSetting, Pack};

fn assert_folder_visibility(
    from_pack_path: &str,
    to_pack_path: &str,
    to_pack_enforce_folder_visibility: Option<CheckerSetting>,
    expected: bool,
) {
    let from_pack = Pack {
        name: from_pack_path.to_string(),
        relative_path: from_pack_path.to_string(),
        ..Pack::default()
    };
    if from_pack_path == to_pack_path {
        assert_eq!(expected, folder_visible(&from_pack, &from_pack));
        return;
    }
    let to_pack = Pack {
        name: to_pack_path.to_string(),
        relative_path: to_pack_path.to_string(),
        enforce_folder_visibility: to_pack_enforce_folder_visibility,
    };

    assert_eq!(expected, folder_visible(&from_pack, &to_pack));
}

#[test]
fn test_folder_visibility_when_different_parent_invisible() {
    assert_folder_visibility(
        "packs/bars/bar",
        "packs/foos/foo",
        Some(CheckerSetting::True),
        false,
    );
}

#[test]
fn test_folder_visibility_when_not_enforced() {
    assert_folder_visibility(
        "packs/bar",
        "packs/foos/zoo",
        Some(CheckerSetting::False),
        true,
    );
}

#[test]
fn test_folder_visibility_when_siblings() {
    assert_folder_visibility("packs/bar", "packs/foos", Some(CheckerSetting::True), true);
}

#[test]
fn test_folder_visibility_when_same() {
    assert_folder_visibility("packs/bar", "packs/bar", Some(CheckerSetting::True), true);
}

#[test]
fn test_folder_visibility_when_descendant() {
    assert_folder_visibility(
        "packs/foo",
        "packs/foo/bar",
        Some(CheckerSetting::True),
        true,
    );
}

#[test]
fn test_folder_visibility_when_parent_invisible() {
    assert_folder_visibility(
        "packs/foo/bar",
        "packs/foo",
        Some(CheckerSetting::True),
        false,
    );
}

#[test]
fn test_folder_visibility_when_invisible() {
    assert_folder_visibility("packs/baz", "packs/foos/foo", Some(CheckerSetting::True), false);
}

#[test]
fn test_folder_visibility_when_from_is_root() {
    assert_folder_visibility(".", "packs/foos/foo", Some(CheckerSetting::True), true);
}

#[test]
fn folder_visibility_when_setting_absent() {
    // An absent setting is read as `False`: the rule is not enforced.
    assert_folder_visibility("packs/baz", "packs/foos/foo", None, true);
}

#[test]
fn folder_visibility_when_strict_behaves_like_true() {
    assert_folder_visibility("packs/baz", "packs/foos/foo", Some(CheckerSetting::Strict), false);
    assert_folder_visibility("packs/bar", "packs/foos", Some(CheckerSetting::Strict), true);
}

#[test]
fn folder_visibility_prefix_is_literal() {
    // The nesting test is a literal string-prefix test on the paths, so a
    // pack whose path merely extends another's final segment counts as
    // nested under it.
    assert_folder_visibility("packs/foo", "packs/foo2/bar", Some(CheckerSetting::True), true);
}
