//! Fact records produced by parsing, and the per-file processing entry
//! points.
//!
//! A source file is turned into a [`ProcessedFile`]: the unresolved
//! references and symbol definitions found in it, each with its source
//! location.  The grammar walks that extract real facts for the supported
//! language families are collaborators outside this crate; they are reached
//! through the [`Parser`] contract, which promises only the documented
//! output shape — one fact set per file, keyed by the file's path.

use vstd::prelude::*;

use crate::caching::{Cache, CacheResult};
use crate::file_utils::{SupportedFileType, get_file_type, file_type_spec};

verus! {

/// A byte-span of source text, as rows and columns.
#[derive(Clone, Copy, Debug, Default, PartialEq, Eq, Structural)]
pub struct Range {
    pub start_row: usize,
    pub start_col: usize,
    pub end_row: usize,
    pub end_col: usize,
}

/// Mathematical image of an [`UnresolvedReference`].
#[verifier::ext_equal]
pub ghost struct UnresolvedReferenceView {
    pub name: Seq<char>,
    pub namespace_path: Seq<Seq<char>>,
    pub location: Range,
}

/// Symbol `name`, seen inside the nested namespaces `namespace_path` at
/// `location`, before its defining pack is known.
#[derive(Debug, PartialEq, Eq)]
pub struct UnresolvedReference {
    pub name: String,
    pub namespace_path: Vec<String>,
    pub location: Range,
}

impl View for UnresolvedReference {
    type V = UnresolvedReferenceView;

    open spec fn view(&self) -> UnresolvedReferenceView {
        UnresolvedReferenceView {
            name: self.name@,
            namespace_path: self.namespace_path@.map_values(|s: String| s@),
            location: self.location,
        }
    }
}

impl Clone for UnresolvedReference {
    fn clone(&self) -> (res: Self)
        ensures
            res@ == self@,
    {
        let namespace_path = self.namespace_path.clone();
        proof {
            assert(namespace_path@.map_values(|s: String| s@) =~= self.namespace_path@.map_values(
                |s: String| s@,
            ));
        }
        UnresolvedReference {
            name: self.name.clone(),
            namespace_path,
            location: self.location,
        }
    }
}

/// Mathematical image of a [`ParsedDefinition`].
#[verifier::ext_equal]
pub ghost struct ParsedDefinitionView {
    pub fully_qualified_name: Seq<char>,
    pub location: Range,
}

/// A symbol's declaration site.
#[derive(Debug, PartialEq, Eq)]
pub struct ParsedDefinition {
    pub fully_qualified_name: String,
    pub location: Range,
}

impl View for ParsedDefinition {
    type V = ParsedDefinitionView;

    open spec fn view(&self) -> ParsedDefinitionView {
        ParsedDefinitionView {
            fully_qualified_name: self.fully_qualified_name@,
            location: self.location,
        }
    }
}

impl Clone for ParsedDefinition {
    fn clone(&self) -> (res: Self)
        ensures
            res@ == self@,
    {
        ParsedDefinition {
            fully_qualified_name: self.fully_qualified_name.clone(),
            location: self.location,
        }
    }
}

/// Mathematical image of a [`ProcessedFile`].
#[verifier::ext_equal]
pub ghost struct ProcessedFileView {
    pub absolute_path: Seq<char>,
    pub unresolved_references: Seq<UnresolvedReferenceView>,
    pub definitions: Seq<ParsedDefinitionView>,
}

/// Everything parsing extracted from one source file; the unit the cache
/// stores and the pipeline returns.
#[derive(Debug, PartialEq, Eq)]
pub struct ProcessedFile {
    pub absolute_path: String,
    pub unresolved_references: Vec<UnresolvedReference>,
    pub definitions: Vec<ParsedDefinition>,
}

impl View for ProcessedFile {
    type V = ProcessedFileView;

    open spec fn view(&self) -> ProcessedFileView {
        ProcessedFileView {
            absolute_path: self.absolute_path@,
            unresolved_references: self.unresolved_references@.map_values(
                |r: UnresolvedReference| r@,
            ),
            definitions: self.definitions@.map_values(|d: ParsedDefinition| d@),
        }
    }
}

/// The fact set of a file nothing was extracted from.
pub open spec fn empty_processed_file(path: Seq<char>) -> ProcessedFileView {
    ProcessedFileView {
        absolute_path: path,
        unresolved_references: Seq::empty(),
        definitions: Seq::empty(),
    }
}

impl ProcessedFile {
    /// A file with no recorded facts.
    pub fn with_no_facts(path: &String) -> (r: ProcessedFile)
        ensures
            r@ == empty_processed_file(path@),
    {
        let r = ProcessedFile {
            absolute_path: path.clone(),
            unresolved_references: Vec::new(),
            definitions: Vec::new(),
        };
        proof {
            assert(r@ =~= empty_processed_file(path@));
        }
        r
    }
}

impl Clone for ProcessedFile {
    fn clone(&self) -> (res: Self)
        ensures
            res@ == self@,
    {
        let unresolved_references = clone_references(&self.unresolved_references);
        let definitions = clone_definitions(&self.definitions);
        let res = ProcessedFile {
            absolute_path: self.absolute_path.clone(),
            unresolved_references,
            definitions,
        };
        proof {
            assert(res@ =~= self@);
        }
        res
    }
}

/// Copies a reference list, fact for fact.
fn clone_references(v: &Vec<UnresolvedReference>) -> (r: Vec<UnresolvedReference>)
    ensures
        r@.map_values(|u: UnresolvedReference| u@) == v@.map_values(|u: UnresolvedReference| u@),
{
    let mut r: Vec<UnresolvedReference> = Vec::new();
    let mut i: usize = 0;
    while i < v.len()
        invariant
            i <= v@.len(),
            r@.len() == i,
            forall|j: int| 0 <= j < i ==> r@[j]@ == v@[j]@,
        decreases v@.len() - i,
    {
        r.push(v[i].clone());
        i = i + 1;
    }
    proof {
        assert(r@.map_values(|u: UnresolvedReference| u@) =~= v@.map_values(
            |u: UnresolvedReference| u@,
        ));
    }
    r
}

/// Copies a definition list, fact for fact.
fn clone_definitions(v: &Vec<ParsedDefinition>) -> (r: Vec<ParsedDefinition>)
    ensures
        r@.map_values(|d: ParsedDefinition| d@) == v@.map_values(|d: ParsedDefinition| d@),
{
    let mut r: Vec<ParsedDefinition> = Vec::new();
    let mut i: usize = 0;
    while i < v.len()
        invariant
            i <= v@.len(),
            r@.len() == i,
            forall|j: int| 0 <= j < i ==> r@[j]@ == v@[j]@,
        decreases v@.len() - i,
    {
        r.push(v[i].clone());
        i = i + 1;
    }
    proof {
        assert(r@.map_values(|d: ParsedDefinition| d@) =~= v@.map_values(
            |d: ParsedDefinition| d@,
        ));
    }
    r
}

/// The parsing strategies: one standard and one experimental walk per
/// supported family, each a pure function from the file's path to its fact
/// set.  The grammar walks themselves are collaborators outside this crate;
/// this contract holds them to their documented output shape — one fact set
/// per file, carrying that file's path.
pub trait Parser {
    /// The fact set the strategy for `file_type` extracts from the file at
    /// `path`.
    spec fn parse_result(
        &self,
        file_type: SupportedFileType,
        experimental: bool,
        path: Seq<char>,
    ) -> ProcessedFileView;

    /// The standard Ruby walk.
    fn process_from_ruby_path(&self, path: &String) -> (r: ProcessedFile)
        ensures
            r@ == self.parse_result(SupportedFileType::Ruby, false, path@),
            r@.absolute_path == path@,
    ;

    /// The experimental Ruby walk.
    fn process_from_ruby_path_experimental(&self, path: &String) -> (r: ProcessedFile)
        ensures
            r@ == self.parse_result(SupportedFileType::Ruby, true, path@),
            r@.absolute_path == path@,
    ;

    /// The standard embedded-template walk.
    fn process_from_erb_path(&self, path: &String) -> (r: ProcessedFile)
        ensures
            r@ == self.parse_result(SupportedFileType::Erb, false, path@),
            r@.absolute_path == path@,
    ;

    /// The experimental embedded-template walk.
    fn process_from_erb_path_experimental(&self, path: &String) -> (r: ProcessedFile)
        ensures
            r@ == self.parse_result(SupportedFileType::Erb, true, path@),
            r@.absolute_path == path@,
    ;
}

/// A parser whose strategies return fixed fact lists — one per family and
/// strategy — under the processed file's own path.  With all four lists
/// empty it is the degenerate parser that records nothing.
pub struct StaticParser {
    pub ruby_references: Vec<UnresolvedReference>,
    pub ruby_experimental_references: Vec<UnresolvedReference>,
    pub erb_references: Vec<UnresolvedReference>,
    pub erb_experimental_references: Vec<UnresolvedReference>,
}

impl StaticParser {
    /// The parser that extracts no facts from any file.
    pub fn with_no_facts() -> (r: StaticParser)
        ensures
            forall|t: SupportedFileType, e: bool, path: Seq<char>|
                r.parse_result(t, e, path) == empty_processed_file(path),
    {
        let r = StaticParser {
            ruby_references: Vec::new(),
            ruby_experimental_references: Vec::new(),
            erb_references: Vec::new(),
            erb_experimental_references: Vec::new(),
        };
        proof {
            assert forall|t: SupportedFileType, e: bool, path: Seq<char>|
                r.parse_result(t, e, path) == empty_processed_file(path) by {
                assert(r.parse_result(t, e, path) =~= empty_processed_file(path));
            }
        }
        r
    }

    fn emit(&self, references: &Vec<UnresolvedReference>, path: &String) -> (r: ProcessedFile)
        ensures
            r@ == (ProcessedFileView {
                absolute_path: path@,
                unresolved_references: references@.map_values(|u: UnresolvedReference| u@),
                definitions: Seq::empty(),
            }),
    {
        let r = ProcessedFile {
            absolute_path: path.clone(),
            unresolved_references: clone_references(references),
            definitions: Vec::new(),
        };
        proof {
            assert(r@.definitions =~= Seq::<ParsedDefinitionView>::empty());
            assert(r@ =~= ProcessedFileView {
                absolute_path: path@,
                unresolved_references: references@.map_values(|u: UnresolvedReference| u@),
                definitions: Seq::empty(),
            });
        }
        r
    }
}

impl Parser for StaticParser {
    open spec fn parse_result(
        &self,
        file_type: SupportedFileType,
        experimental: bool,
        path: Seq<char>,
    ) -> ProcessedFileView {
        let references = match (file_type, experimental) {
            (SupportedFileType::Ruby, false) => self.ruby_references@,
            (SupportedFileType::Ruby, true) => self.ruby_experimental_references@,
            (SupportedFileType::Erb, false) => self.erb_references@,
            (SupportedFileType::Erb, true) => self.erb_experimental_references@,
        };
        ProcessedFileView {
            absolute_path: path,
            unresolved_references: references.map_values(|u: UnresolvedReference| u@),
            definitions: Seq::empty(),
        }
    }

    fn process_from_ruby_path(&self, path: &String) -> (r: ProcessedFile) {
        self.emit(&self.ruby_references, path)
    }

    fn process_from_ruby_path_experimental(&self, path: &String) -> (r: ProcessedFile) {
        self.emit(&self.ruby_experimental_references, path)
    }

    fn process_from_erb_path(&self, path: &String) -> (r: ProcessedFile) {
        self.emit(&self.erb_references, path)
    }

    fn process_from_erb_path_experimental(&self, path: &String) -> (r: ProcessedFile) {
        self.emit(&self.erb_experimental_references, path)
    }
}

/// What processing one file yields: the fact set of the strategy its family
/// dispatches to, or the empty fact set for an unsupported file.
pub open spec fn process_file_spec<P: Parser>(
    parser: &P,
    path: Seq<char>,
    experimental_parser: bool,
) -> ProcessedFileView {
    match file_type_spec(path) {
        Some(file_type) => parser.parse_result(file_type, experimental_parser, path),
        None => empty_processed_file(path),
    }
}

/// Classifies `path` and dispatches it to exactly one of the two parsing
/// strategies for its family; an unsupported file yields an empty fact set
/// rather than an error.
pub fn process_file<P: Parser>(parser: &P, path: &String, experimental_parser: bool) -> (r:
    ProcessedFile)
    ensures
        r@ == process_file_spec(parser, path@, experimental_parser),
        r@.absolute_path == path@,
{
    let file_type_option = get_file_type(path.as_str());
    if let Some(file_type) = file_type_option {
        match file_type {
            SupportedFileType::Ruby => {
                if experimental_parser {
                    parser.process_from_ruby_path_experimental(path)
                } else {
                    parser.process_from_ruby_path(path)
                }
            },
            SupportedFileType::Erb => {
                if experimental_parser {
                    parser.process_from_erb_path_experimental(path)
                } else {
                    parser.process_from_erb_path(path)
                }
            },
        }
    } else {
        ProcessedFile::with_no_facts(path)
    }
}

/// Every stored fact set carries the path it is keyed by.
pub open spec fn keyed_by_path(contents: Map<Seq<char>, ProcessedFileView>) -> bool {
    forall|k: Seq<char>|
        contents.dom().contains(k) ==> (#[trigger] contents[k]).absolute_path == k
}

/// Resolves each path through the cache, falling back to
/// [`process_file`] on a miss and writing the result back.  The result
/// holds exactly one fact set per input path, in input order: the cache's
/// stored facts for a hit, the freshly parsed ones for a miss; afterwards
/// the cache holds every input path's facts.
pub fn process_files_with_cache<C: Cache, P: Parser>(
    absolute_root: &String,
    paths: &Vec<String>,
    cache: &mut C,
    parser: &P,
    experimental_parser: bool,
) -> (r: Vec<ProcessedFile>)
    requires
        old(cache).wf(),
        keyed_by_path(old(cache).contents()),
        forall|i: int, j: int| 0 <= i < j < paths@.len() ==> paths@[i]@ != paths@[j]@,
    ensures
        final(cache).wf(),
        keyed_by_path(final(cache).contents()),
        r@.len() == paths@.len(),
        forall|i: int| 0 <= i < r@.len() ==> (#[trigger] r@[i])@.absolute_path == paths@[i]@,
        forall|i: int|
            0 <= i < r@.len() ==> ((#[trigger] r@[i])@ == process_file_spec(
                parser,
                paths@[i]@,
                experimental_parser,
            ) || (old(cache).contents().contains_key(paths@[i]@) && r@[i]@ == old(
                cache,
            ).contents()[paths@[i]@])),
        forall|i: int|
            0 <= i < paths@.len() ==> (final(cache).contents().contains_key(#[trigger] paths@[i]@)
                && final(cache).contents()[paths@[i]@] == r@[i]@),
{
    let ghost orig = old(cache).contents();
    let mut r: Vec<ProcessedFile> = Vec::new();
    let mut i: usize = 0;
    while i < paths.len()
        invariant
            i <= paths@.len(),
            r@.len() == i,
            cache.wf(),
            keyed_by_path(cache.contents()),
            forall|a: int, b: int| 0 <= a < b < paths@.len() ==> paths@[a]@ != paths@[b]@,
            forall|j: int|
                i <= j < paths@.len() ==> (cache.contents().contains_key(paths@[j]@) == orig.contains_key(
                    paths@[j]@,
                ) && (orig.contains_key(paths@[j]@) ==> cache.contents()[paths@[j]@] == orig[paths@[j]@])),
            forall|j: int| 0 <= j < i ==> (#[trigger] r@[j])@.absolute_path == paths@[j]@,
            forall|j: int|
                0 <= j < i ==> ((#[trigger] r@[j])@ == process_file_spec(
                    parser,
                    paths@[j]@,
                    experimental_parser,
                ) || (orig.contains_key(paths@[j]@) && r@[j]@ == orig[paths@[j]@])),
            forall|j: int|
                0 <= j < i ==> (cache.contents().contains_key(#[trigger] paths@[j]@)
                    && cache.contents()[paths@[j]@] == r@[j]@),
        decreases paths@.len() - i,
    {
        let absolute_path = &paths[i];
        match cache.get(absolute_root, absolute_path) {
            CacheResult::Processed(processed_file) => {
                r.push(processed_file);
            },
            CacheResult::Miss(empty_cache_entry) => {
                let processed_file = process_file(parser, absolute_path, experimental_parser);
                cache.write(&empty_cache_entry, &processed_file);
                r.push(processed_file);
            },
        }
        i = i + 1;
    }
    r
}

} // verus!
