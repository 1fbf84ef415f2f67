//! Classification of candidate paths into supported language families.
//!
//! Classification is by the path's file name: the usual extensions of
//! Ruby-like source files, the extensionless convention files, and the
//! extension of embedded-template files.  Everything else is unsupported,
//! and parsing of it is skipped rather than failed.

use vstd::prelude::*;

use crate::paths::{file_name_of, file_name_str, last_index_of, last_index_of_char, str_eq};

verus! {

/// A language family the pipeline knows how to parse.
#[derive(Clone, Copy, Debug, PartialEq, Eq, Structural)]
pub enum SupportedFileType {
    Ruby,
    Erb,
}

/// The extension of a file name: what follows the last `.`, absent when the
/// name has no `.` past its first character.
pub open spec fn extension_of(name: Seq<char>) -> Option<Seq<char>> {
    match last_index_of(name, '.') {
        Some(i) => if i > 0 {
            Some(name.subrange(i + 1, name.len() as int))
        } else {
            None
        },
        None => None,
    }
}

/// The family a path classifies into, if any: `rb`, `rake` and `gemspec`
/// extensions and the `Gemfile` and `Rakefile` convention names are
/// Ruby-like; the `erb` extension is an embedded template.
pub open spec fn file_type_spec(path: Seq<char>) -> Option<SupportedFileType> {
    let name = file_name_of(path);
    match extension_of(name) {
        Some(ext) => if ext == "rb"@ || ext == "rake"@ || ext == "gemspec"@ {
            Some(SupportedFileType::Ruby)
        } else if ext == "erb"@ {
            Some(SupportedFileType::Erb)
        } else {
            None
        },
        None => if name == "Gemfile"@ || name == "Rakefile"@ {
            Some(SupportedFileType::Ruby)
        } else {
            None
        },
    }
}

/// Classifies `path` into a supported family, or `None` for a file the
/// pipeline does not parse.
pub fn get_file_type(path: &str) -> (r: Option<SupportedFileType>)
    ensures
        r == file_type_spec(path@),
{
    let name = file_name_str(path);
    proof {
        crate::paths::lemma_last_index_of_in_bounds(name@, '.');
    }
    let n = name.unicode_len();
    let ext: Option<&str> = match last_index_of_char(name, '.') {
        Some(i) => {
            if i > 0 {
                assert(i < n);
                Some(name.substring_char(i + 1, n))
            } else {
                None
            }
        },
        None => None,
    };
    match ext {
        Some(e) => {
            if str_eq(e, "rb") || str_eq(e, "rake") || str_eq(e, "gemspec") {
                Some(SupportedFileType::Ruby)
            } else if str_eq(e, "erb") {
                Some(SupportedFileType::Erb)
            } else {
                None
            }
        },
        None => {
            if str_eq(name, "Gemfile") || str_eq(name, "Rakefile") {
                Some(SupportedFileType::Ruby)
            } else {
                None
            }
        },
    }
}

} // verus!
