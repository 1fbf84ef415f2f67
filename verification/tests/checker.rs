use packs::checker::{
    CheckerInterface, Configuration, Reference, SourceLocation, ViolationIdentifier,
};
use packs::folder_visibility::Checker;
use packs::pack::{CheckerSetting, Pack, PackSet};

fn pack(path: &str, setting: Option<CheckerSetting>) -> Pack {
    Pack {
        name: path.to_string(),
        relative_path: path.to_string(),
        enforce_folder_visibility: setting,
    }
}

fn configuration(packs: Vec<Pack>) -> Configuration {
    Configuration { pack_set: PackSet { packs } }
}

fn reference(from_file: &str, to_file: Option<&str>) -> Reference {
    Reference {
        constant_name: "::Foo".to_string(),
        relative_referencing_file: from_file.to_string(),
        relative_defining_file: to_file.map(|f| f.to_string()),
        source_location: SourceLocation { line: 12, column: 5 },
    }
}

#[test]
fn check_records_a_violation_with_message_and_identity() {
    let configuration = configuration(vec![
        pack(".", None),
        pack("packs/bar", None),
        pack("packs/foos/foo", Some(CheckerSetting::True)),
    ]);
    let reference = reference(
        "packs/bar/app/services/bar.rb",
        Some("packs/foos/foo/app/services/foo.rb"),
    );

    let violation = Checker {}
        .check(&reference, &configuration)
        .expect("a hidden pack must be reported");

    assert_eq!(
        "packs/bar/app/services/bar.rb:12:5\nFolder Visibility violation: `::Foo` belongs to `packs/foos/foo`, which is not visible to `packs/bar` as it is not a sibling pack or parent pack.",
        violation.message
    );
    assert_eq!(
        ViolationIdentifier {
            violation_type: "folder_visibility".to_string(),
            file: "packs/bar/app/services/bar.rb".to_string(),
            constant_name: "::Foo".to_string(),
            referencing_pack_name: "packs/bar".to_string(),
            defining_pack_name: "packs/foos/foo".to_string(),
        },
        violation.identifier
    );
}

#[test]
fn check_allows_a_visible_pack() {
    let configuration = configuration(vec![
        pack(".", None),
        pack("packs/bar", None),
        pack("packs/foos", Some(CheckerSetting::True)),
    ]);
    // Siblings: both live directly under `packs`.
    let reference = reference("packs/bar/app/bar.rb", Some("packs/foos/app/foos.rb"));

    assert!(Checker {}.check(&reference, &configuration).is_none());
}

#[test]
fn check_skips_an_unresolved_defining_file() {
    let configuration = configuration(vec![pack(".", None), pack("packs/bar", None)]);
    let reference = reference("packs/bar/app/bar.rb", None);

    assert!(Checker {}.check(&reference, &configuration).is_none());
}

#[test]
fn check_skips_when_no_pack_owns_the_defining_file() {
    // No root pack: the defining file resolves to no pack at all.
    let configuration = configuration(vec![
        pack("packs/bar", None),
        pack("packs/foos/foo", Some(CheckerSetting::True)),
    ]);
    let reference = reference("packs/bar/app/bar.rb", Some("vendor/elsewhere.rb"));

    assert!(Checker {}.check(&reference, &configuration).is_none());
}

#[test]
fn check_resolves_files_to_their_most_specific_pack() {
    let configuration = configuration(vec![
        pack(".", None),
        pack("packs/foos", None),
        pack("packs/foos/foo", Some(CheckerSetting::True)),
    ]);
    // The defining file belongs to the nested pack, not to `packs/foos`,
    // and the referencing file falls back to the root pack — which sees
    // everything.
    let reference = reference("app/services/top.rb", Some("packs/foos/foo/app/foo.rb"));

    assert!(Checker {}.check(&reference, &configuration).is_none());
}

#[test]
fn strictness_follows_the_referencing_pack() {
    let strict = configuration(vec![
        pack(".", None),
        pack("packs/bar", Some(CheckerSetting::Strict)),
        pack("packs/foos/foo", Some(CheckerSetting::True)),
    ]);
    let lenient = configuration(vec![
        pack(".", None),
        pack("packs/bar", Some(CheckerSetting::True)),
        pack("packs/foos/foo", Some(CheckerSetting::Strict)),
    ]);
    let identifier = ViolationIdentifier {
        violation_type: "folder_visibility".to_string(),
        file: "packs/bar/app/services/bar.rb".to_string(),
        constant_name: "::Foo".to_string(),
        referencing_pack_name: "packs/bar".to_string(),
        defining_pack_name: "packs/foos/foo".to_string(),
    };

    assert!(Checker {}.is_strict_mode_violation(&identifier, &strict));
    // The defining pack's strictness does not make the finding strict.
    assert!(!Checker {}.is_strict_mode_violation(&identifier, &lenient));
}

#[test]
fn violation_type_is_the_rule_tag() {
    assert_eq!("folder_visibility", Checker {}.violation_type());
}
