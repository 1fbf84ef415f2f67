//! The folder-visibility rule.
//!
//! A defining pack is visible to a referencing pack when the rule is
//! disabled for the defining pack, when the referencing pack is the project
//! root, when the two packs are filesystem siblings, or when the defining
//! pack's path extends the referencing pack's path.  Every other pair is a
//! violation at the check site.

use vstd::prelude::*;

use crate::checker::{
    CheckerInterface, Configuration, ConfigurationView, Reference, ReferenceView, Violation,
    ViolationIdentifier, ViolationIdentifierView, ViolationView, get_referencing_pack,
};
use crate::decimal::{decimal_str, usize_to_string};
use crate::pack::{CheckerSetting, Pack, PackView, effective_setting, owner_of};
use crate::paths::{is_prefix_of, parent_of, parent_str, starts_with_str, str_eq};

verus! {

/// The visibility verdict for a referencing pack `from` and a defining pack
/// `to`, short-circuiting on the first matching rule:
/// disabled target, root referencer, shared parent, or `to` nested under
/// `from` (a literal path-prefix test).
pub open spec fn folder_visible_spec(from: PackView, to: PackView) -> bool {
    ||| effective_setting(to.enforce_folder_visibility) is False
    ||| from.relative_path == "."@
    ||| parent_of(from.relative_path) == parent_of(to.relative_path)
    ||| is_prefix_of(from.relative_path, to.relative_path)
}

/// Whether `to_pack`'s contents may be used from `from_pack` under the
/// folder-visibility rule.
pub fn folder_visible(from_pack: &Pack, to_pack: &Pack) -> (r: bool)
    ensures
        r == folder_visible_spec(from_pack@, to_pack@),
{
    if to_pack.enforce_folder_visibility().is_false() {
        return true;
    }
    if str_eq(from_pack.relative_path.as_str(), ".") {
        return true;
    }
    let from_parent = parent_str(from_pack.relative_path.as_str());
    let to_parent = parent_str(to_pack.relative_path.as_str());
    if str_eq(from_parent, to_parent) {
        return true;
    }
    starts_with_str(to_pack.relative_path.as_str(), from_pack.relative_path.as_str())
}

/// A pack is always visible to itself, whatever its own setting says: two
/// equal paths share their parent.
pub proof fn lemma_visible_to_self(p: PackView)
    ensures
        folder_visible_spec(p, p),
{
}

/// A defining pack whose folder-visibility setting is `False` (or absent)
/// is visible to every pack.
pub proof fn lemma_visible_when_not_enforced(from: PackView, to: PackView)
    requires
        effective_setting(to.enforce_folder_visibility) is False,
    ensures
        folder_visible_spec(from, to),
{
}

/// The root pack sees every pack.
pub proof fn lemma_root_sees_all(from: PackView, to: PackView)
    requires
        from.relative_path == "."@,
    ensures
        folder_visible_spec(from, to),
{
}

/// Sibling packs — packs sharing an identical parent path — are visible to
/// each other.
pub proof fn lemma_siblings_visible(from: PackView, to: PackView)
    requires
        parent_of(from.relative_path) == parent_of(to.relative_path),
    ensures
        folder_visible_spec(from, to),
        folder_visible_spec(to, from),
{
}

/// A defining pack whose path has the referencing pack's path as a literal
/// prefix is visible to it.
pub proof fn lemma_descendant_visible(from: PackView, to: PackView)
    requires
        is_prefix_of(from.relative_path, to.relative_path),
    ensures
        folder_visible_spec(from, to),
{
}

/// Any other pair is invisible: with the rule enforced on the defining
/// pack, a non-root referencer, different parents and no prefix
/// relationship, the verdict is negative.
pub proof fn lemma_otherwise_invisible(from: PackView, to: PackView)
    requires
        !(effective_setting(to.enforce_folder_visibility) is False),
        from.relative_path != "."@,
        parent_of(from.relative_path) != parent_of(to.relative_path),
        !is_prefix_of(from.relative_path, to.relative_path),
    ensures
        !folder_visible_spec(from, to),
{
}

/// The folder-visibility rule's checker.
pub struct Checker {}

/// The message recorded for a folder-visibility violation: the use site,
/// then which pack the symbol belongs to and which pack may not see it.
pub open spec fn violation_message(
    file: Seq<char>,
    line: nat,
    column: nat,
    constant_name: Seq<char>,
    defining_pack_name: Seq<char>,
    referencing_pack_name: Seq<char>,
) -> Seq<char> {
    file + ":"@ + decimal_str(line) + ":"@ + decimal_str(column)
        + "\nFolder Visibility violation: `"@ + constant_name + "` belongs to `"@
        + defining_pack_name + "`, which is not visible to `"@ + referencing_pack_name
        + "` as it is not a sibling pack or parent pack."@
}

/// The violation the folder-visibility rule records for `reference`:
/// nothing when the defining file is unknown, when either pack cannot be
/// resolved, or when the defining pack is visible; otherwise exactly one
/// violation carrying the message and identity built from the two packs.
pub open spec fn folder_visibility_check(
    reference: ReferenceView,
    configuration: ConfigurationView,
) -> Option<ViolationView> {
    match reference.relative_defining_file {
        None => None,
        Some(defining_file) => match owner_of(configuration.pack_set, defining_file) {
            None => None,
            Some(defining_pack) => match owner_of(
                configuration.pack_set,
                reference.relative_referencing_file,
            ) {
                None => None,
                Some(referencing_pack) => if folder_visible_spec(referencing_pack, defining_pack) {
                    None
                } else {
                    Some(
                        ViolationView {
                            message: violation_message(
                                reference.relative_referencing_file,
                                reference.source_location.line as nat,
                                reference.source_location.column as nat,
                                reference.constant_name,
                                defining_pack.name,
                                referencing_pack.name,
                            ),
                            identifier: ViolationIdentifierView {
                                violation_type: "folder_visibility"@,
                                file: reference.relative_referencing_file,
                                constant_name: reference.constant_name,
                                referencing_pack_name: referencing_pack.name,
                                defining_pack_name: defining_pack.name,
                            },
                        },
                    )
                },
            },
        },
    }
}

impl CheckerInterface for Checker {
    open spec fn violation_type_spec(&self) -> Seq<char> {
        "folder_visibility"@
    }

    open spec fn check_spec(
        &self,
        reference: ReferenceView,
        configuration: ConfigurationView,
    ) -> Option<ViolationView> {
        folder_visibility_check(reference, configuration)
    }

    open spec fn is_strict_spec(
        &self,
        violation: ViolationIdentifierView,
        configuration: ConfigurationView,
    ) -> bool {
        match owner_of(configuration.pack_set, violation.file) {
            Some(p) => effective_setting(p.enforce_folder_visibility) is Strict,
            None => false,
        }
    }

    fn check(&self, reference: &Reference, configuration: &Configuration) -> (r: Option<Violation>)
    {
        let pack_set = &configuration.pack_set;
        let referencing_pack_option = reference.referencing_pack(pack_set);
        if reference.relative_defining_file.is_none() {
            return None;
        }
        let defining_pack = match reference.defining_pack(pack_set) {
            Some(p) => p,
            None => {
                return None;
            },
        };
        let referencing_pack = match referencing_pack_option {
            Some(p) => p,
            None => {
                return None;
            },
        };
        if !folder_visible(referencing_pack, defining_pack) {
            let mut message = reference.relative_referencing_file.clone();
            message.append(":");
            message.append(usize_to_string(reference.source_location.line).as_str());
            message.append(":");
            message.append(usize_to_string(reference.source_location.column).as_str());
            message.append("\nFolder Visibility violation: `");
            message.append(reference.constant_name.as_str());
            message.append("` belongs to `");
            message.append(defining_pack.name.as_str());
            message.append("`, which is not visible to `");
            message.append(referencing_pack.name.as_str());
            message.append("` as it is not a sibling pack or parent pack.");
            let identifier = ViolationIdentifier {
                violation_type: self.violation_type(),
                file: reference.relative_referencing_file.clone(),
                constant_name: reference.constant_name.clone(),
                referencing_pack_name: referencing_pack.name.clone(),
                defining_pack_name: defining_pack.name.clone(),
            };
            let violation = Violation { message, identifier };
            proof {
                let expected = folder_visibility_check(reference@, configuration@)->Some_0;
                assert(violation@.message =~= expected.message);
                assert(violation@.identifier =~= expected.identifier);
                assert(violation@ =~= expected);
            }
            Some(violation)
        } else {
            None
        }
    }

    fn is_strict_mode_violation(
        &self,
        violation: &ViolationIdentifier,
        configuration: &Configuration,
    ) -> (r: bool) {
        let referencing_pack = get_referencing_pack(violation, &configuration.pack_set);
        match referencing_pack {
            Some(p) => p.enforce_folder_visibility().is_strict(),
            None => false,
        }
    }

    fn violation_type(&self) -> (r: String) {
        String::from_str("folder_visibility")
    }
}

} // verus!
