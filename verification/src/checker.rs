//! The checker framework.
//!
//! A rule checker judges one resolved [`Reference`] against the configured
//! pack set and produces at most one [`Violation`].  A reference whose
//! defining file or defining pack is unknown is excluded from checking by
//! design: the symbol may live outside the analyzed codebase.  Whether a
//! recorded violation is a hard failure is the *referencing* pack's own
//! setting, re-resolved from the violation's identifier.

use vstd::prelude::*;

use crate::pack::{Pack, PackSet, PackView, owner_of};

verus! {

/// A use site, as the 1-based line and column parsing reported for it.
#[derive(Clone, Copy, Debug, Default, PartialEq, Eq, Structural)]
pub struct SourceLocation {
    pub line: usize,
    pub column: usize,
}

/// Mathematical image of a [`Reference`].
#[verifier::ext_equal]
pub ghost struct ReferenceView {
    pub constant_name: Seq<char>,
    pub relative_referencing_file: Seq<char>,
    pub relative_defining_file: Option<Seq<char>>,
    pub source_location: SourceLocation,
}

/// One resolved use of a symbol: which file used it, where, and which file
/// defines it — absent when the symbol could not be resolved to any known
/// file.  The owning packs are looked up against the current pack set, not
/// stored.
#[derive(Debug)]
pub struct Reference {
    pub constant_name: String,
    pub relative_referencing_file: String,
    pub relative_defining_file: Option<String>,
    pub source_location: SourceLocation,
}

impl View for Reference {
    type V = ReferenceView;

    open spec fn view(&self) -> ReferenceView {
        ReferenceView {
            constant_name: self.constant_name@,
            relative_referencing_file: self.relative_referencing_file@,
            relative_defining_file: match self.relative_defining_file {
                Some(f) => Some(f@),
                None => None,
            },
            source_location: self.source_location,
        }
    }
}

/// The defining pack a reference resolves to, when its defining file is
/// known and some pack owns that file.
pub open spec fn defining_pack_spec(reference: ReferenceView, packs: Seq<PackView>) -> Option<
    PackView,
> {
    match reference.relative_defining_file {
        Some(file) => owner_of(packs, file),
        None => None,
    }
}

impl Reference {
    /// The pack owning the referencing file.
    pub fn referencing_pack<'a>(&self, pack_set: &'a PackSet) -> (r: Option<&'a Pack>)
        ensures
            match r {
                Some(p) => owner_of(pack_set@, self.relative_referencing_file@) == Some(p@),
                None => owner_of(pack_set@, self.relative_referencing_file@) is None,
            },
    {
        pack_set.for_file(self.relative_referencing_file.as_str())
    }

    /// The pack owning the defining file, when that file is known.
    pub fn defining_pack<'a>(&self, pack_set: &'a PackSet) -> (r: Option<&'a Pack>)
        ensures
            match r {
                Some(p) => defining_pack_spec(self@, pack_set@) == Some(p@),
                None => defining_pack_spec(self@, pack_set@) is None,
            },
    {
        match &self.relative_defining_file {
            Some(file) => pack_set.for_file(file.as_str()),
            None => None,
        }
    }
}

/// Mathematical image of a [`ViolationIdentifier`].
#[verifier::ext_equal]
pub ghost struct ViolationIdentifierView {
    pub violation_type: Seq<char>,
    pub file: Seq<char>,
    pub constant_name: Seq<char>,
    pub referencing_pack_name: Seq<char>,
    pub defining_pack_name: Seq<char>,
}

/// The stable identity of a finding, used for suppression and
/// allow-listing: two violations with equal identifiers are the same
/// finding across runs.
#[derive(Debug, PartialEq, Eq)]
pub struct ViolationIdentifier {
    pub violation_type: String,
    pub file: String,
    pub constant_name: String,
    pub referencing_pack_name: String,
    pub defining_pack_name: String,
}

impl View for ViolationIdentifier {
    type V = ViolationIdentifierView;

    open spec fn view(&self) -> ViolationIdentifierView {
        ViolationIdentifierView {
            violation_type: self.violation_type@,
            file: self.file@,
            constant_name: self.constant_name@,
            referencing_pack_name: self.referencing_pack_name@,
            defining_pack_name: self.defining_pack_name@,
        }
    }
}

impl Clone for ViolationIdentifier {
    fn clone(&self) -> (res: Self)
        ensures
            res@ == self@,
    {
        ViolationIdentifier {
            violation_type: self.violation_type.clone(),
            file: self.file.clone(),
            constant_name: self.constant_name.clone(),
            referencing_pack_name: self.referencing_pack_name.clone(),
            defining_pack_name: self.defining_pack_name.clone(),
        }
    }
}

/// Mathematical image of a [`Violation`].
#[verifier::ext_equal]
pub ghost struct ViolationView {
    pub message: Seq<char>,
    pub identifier: ViolationIdentifierView,
}

/// A recorded boundary-rule failure: a human-readable message and the
/// stable identity of the finding.
#[derive(Debug, PartialEq, Eq)]
pub struct Violation {
    pub message: String,
    pub identifier: ViolationIdentifier,
}

impl View for Violation {
    type V = ViolationView;

    open spec fn view(&self) -> ViolationView {
        ViolationView { message: self.message@, identifier: self.identifier@ }
    }
}

/// Mathematical image of a [`Configuration`].
#[verifier::ext_equal]
pub ghost struct ConfigurationView {
    pub pack_set: Seq<PackView>,
}

/// The immutable snapshot a checking pass runs against.
pub struct Configuration {
    pub pack_set: PackSet,
}

impl View for Configuration {
    type V = ConfigurationView;

    open spec fn view(&self) -> ConfigurationView {
        ConfigurationView { pack_set: self.pack_set@ }
    }
}

/// Re-resolves the pack a violation was recorded against, from the
/// violation's own file.
pub fn get_referencing_pack<'a>(violation: &ViolationIdentifier, pack_set: &'a PackSet) -> (r:
    Option<&'a Pack>)
    ensures
        match r {
            Some(p) => owner_of(pack_set@, violation.file@) == Some(p@),
            None => owner_of(pack_set@, violation.file@) is None,
        },
{
    pack_set.for_file(violation.file.as_str())
}

/// The contract every rule checker implements.  Each rule pins its own
/// verdict down as a specification: `check` returns exactly the violation
/// the rule's `check_spec` names, or nothing where the rule allows the
/// access or a pack cannot be resolved, and strictness re-resolves the
/// referencing pack from the identifier alone.
pub trait CheckerInterface: Sized {
    /// The rule's stable machine-readable tag.
    spec fn violation_type_spec(&self) -> Seq<char>;

    /// The violation this rule records for a reference, if any.
    spec fn check_spec(&self, reference: ReferenceView, configuration: ConfigurationView) -> Option<
        ViolationView,
    >;

    /// Whether the rule treats a recorded violation as a hard failure.
    spec fn is_strict_spec(
        &self,
        violation: ViolationIdentifierView,
        configuration: ConfigurationView,
    ) -> bool;

    /// Judges one reference against the configuration.
    fn check(&self, reference: &Reference, configuration: &Configuration) -> (r: Option<Violation>)
        ensures
            match r {
                Some(v) => self.check_spec(reference@, configuration@) == Some(v@),
                None => self.check_spec(reference@, configuration@) is None,
            },
    ;

    /// Whether the referencing pack named by `violation` enforces this rule
    /// strictly.
    fn is_strict_mode_violation(
        &self,
        violation: &ViolationIdentifier,
        configuration: &Configuration,
    ) -> (r: bool)
        ensures
            r == self.is_strict_spec(violation@, configuration@),
    ;

    /// The rule's stable machine-readable tag.
    fn violation_type(&self) -> (r: String)
        ensures
            r@ == self.violation_type_spec(),
    ;
}

} // verus!
