//! The package ("pack") model.
//!
//! A pack is a node in the package hierarchy, keyed by its relative path;
//! the pack whose path is `"."` is the implicit root.  Each pack carries an
//! optional tri-state setting per enforceable rule; an absent setting is
//! treated as the rule being disabled.

use vstd::prelude::*;

use crate::paths::{is_prefix_of, starts_with_str, str_eq};

verus! {

/// Tri-state enforcement setting for a rule on a pack: disabled, enforced
/// at warning level, or enforced as a hard failure.
#[derive(Clone, Copy, Debug, PartialEq, Eq, Structural)]
pub enum CheckerSetting {
    False,
    True,
    Strict,
}

impl CheckerSetting {
    pub fn is_false(&self) -> (r: bool)
        ensures
            r == (*self is False),
    {
        matches!(self, CheckerSetting::False)
    }

    pub fn is_strict(&self) -> (r: bool)
        ensures
            r == (*self is Strict),
    {
        matches!(self, CheckerSetting::Strict)
    }
}

/// The setting a pack's optional configuration amounts to: an absent
/// setting is the same as an explicit `False`.
pub open spec fn effective_setting(setting: Option<CheckerSetting>) -> CheckerSetting {
    match setting {
        Some(s) => s,
        None => CheckerSetting::False,
    }
}

/// Mathematical image of a [`Pack`].
#[verifier::ext_equal]
pub ghost struct PackView {
    pub name: Seq<char>,
    pub relative_path: Seq<char>,
    pub enforce_folder_visibility: Option<CheckerSetting>,
}

/// A package boundary: a named node keyed by its relative filesystem path,
/// with per-rule enforcement settings.
#[derive(Debug)]
pub struct Pack {
    pub name: String,
    pub relative_path: String,
    pub enforce_folder_visibility: Option<CheckerSetting>,
}

impl View for Pack {
    type V = PackView;

    open spec fn view(&self) -> PackView {
        PackView {
            name: self.name@,
            relative_path: self.relative_path@,
            enforce_folder_visibility: self.enforce_folder_visibility,
        }
    }
}

impl Pack {
    /// The folder-visibility setting this pack is governed by, with absence
    /// read as `False`.
    pub fn enforce_folder_visibility(&self) -> (r: CheckerSetting)
        ensures
            r == effective_setting(self@.enforce_folder_visibility),
    {
        match self.enforce_folder_visibility {
            Some(s) => s,
            None => CheckerSetting::False,
        }
    }
}

impl Clone for Pack {
    fn clone(&self) -> (res: Pack)
        ensures
            res@ == self@,
    {
        Pack {
            name: self.name.clone(),
            relative_path: self.relative_path.clone(),
            enforce_folder_visibility: self.enforce_folder_visibility,
        }
    }
}

impl Default for Pack {
    /// An unnamed root-less pack with no rule enforced.
    fn default() -> (d: Pack)
        ensures
            d@.name == Seq::<char>::empty(),
            d@.relative_path == Seq::<char>::empty(),
            d@.enforce_folder_visibility is None,
    {
        Pack { name: String::new(), relative_path: String::new(), enforce_folder_visibility: None }
    }
}

/// Whether the file at `file` lies inside `p`: the root pack holds every
/// file, any other pack holds the files its path is a literal prefix of.
pub open spec fn owns(p: PackView, file: Seq<char>) -> bool {
    p.relative_path == "."@ || is_prefix_of(p.relative_path, file)
}

/// How specific a pack's claim on a file is: the root pack is the weakest
/// claimant, every other pack claims with the length of its path.
pub open spec fn match_strength(p: PackView) -> int {
    if p.relative_path == "."@ {
        0
    } else {
        p.relative_path.len() as int
    }
}

/// The owner of `file` among `packs[i..]`: the pack with the strongest
/// claim, earlier packs winning ties.
pub open spec fn owner_of_suffix(packs: Seq<PackView>, file: Seq<char>, i: int) -> Option<
    PackView,
>
    decreases packs.len() - i,
{
    if !(0 <= i < packs.len()) {
        None
    } else {
        let rest = owner_of_suffix(packs, file, i + 1);
        if !owns(packs[i], file) {
            rest
        } else {
            match rest {
                None => Some(packs[i]),
                Some(best) => if match_strength(best) > match_strength(packs[i]) {
                    Some(best)
                } else {
                    Some(packs[i])
                },
            }
        }
    }
}

/// The pack owning `file`: the owning pack whose path claims the file most
/// specifically, or `None` when no pack in the set holds the file.
pub open spec fn owner_of(packs: Seq<PackView>, file: Seq<char>) -> Option<PackView> {
    owner_of_suffix(packs, file, 0)
}

/// The configured collection of packs; the hierarchy is derived from path
/// prefixes, not stored.
pub struct PackSet {
    pub packs: Vec<Pack>,
}

impl View for PackSet {
    type V = Seq<PackView>;

    open spec fn view(&self) -> Seq<PackView> {
        self.packs@.map_values(|p: Pack| p@)
    }
}

fn match_strength_exec(p: &Pack) -> (n: usize)
    ensures
        n as int == match_strength(p@),
{
    if str_eq(p.relative_path.as_str(), ".") {
        0
    } else {
        p.relative_path.unicode_len()
    }
}

impl PackSet {
    /// Looks up the pack owning `file`, if any.
    pub fn for_file<'a>(&'a self, file: &str) -> (r: Option<&'a Pack>)
        ensures
            match r {
                Some(p) => owner_of(self@, file@) == Some(p@),
                None => owner_of(self@, file@) is None,
            },
    {
        let mut best: Option<usize> = None;
        let mut i = self.packs.len();
        while i > 0
            invariant
                i <= self.packs@.len(),
                self@.len() == self.packs@.len(),
                match best {
                    Some(b) => b < self.packs@.len() && owner_of_suffix(self@, file@, i as int)
                        == Some(self@[b as int]),
                    None => owner_of_suffix(self@, file@, i as int) is None,
                },
            decreases i,
        {
            i = i - 1;
            let p = &self.packs[i];
            let p_owns = str_eq(p.relative_path.as_str(), ".") || starts_with_str(
                file,
                p.relative_path.as_str(),
            );
            if p_owns {
                match best {
                    None => {
                        best = Some(i);
                    },
                    Some(b) => {
                        if !(match_strength_exec(&self.packs[b]) > match_strength_exec(p)) {
                            best = Some(i);
                        }
                    },
                }
            }
        }
        match best {
            Some(b) => Some(&self.packs[b]),
            None => None,
        }
    }
}

} // verus!
