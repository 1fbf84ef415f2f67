use packs::file_utils::{get_file_type, SupportedFileType};
use packs::parsing::{process_file, Parser, ProcessedFile, Range, StaticParser, UnresolvedReference};

fn assert_is_ruby(filename: &str) {
    assert_eq!(
        SupportedFileType::Ruby,
        get_file_type(filename).expect("Should be supported")
    )
}

fn assert_is_erb(filename: &str) {
    assert_eq!(
        SupportedFileType::Erb,
        get_file_type(filename).expect("Should be supported")
    )
}

#[test]
fn identifies_ruby_files() {
    assert_is_ruby("foo.rb");
    assert_is_ruby("foo.rake");
    assert_is_ruby("Gemfile");
    assert_is_ruby("my_gem.gemspec");
}

#[test]
fn identifies_erb_files() {
    assert_is_erb("foo.erb");
}

#[test]
fn identifies_files_with_directories() {
    assert_is_ruby("app/models/user.rb");
    assert_is_ruby("packs/foo/Gemfile");
    assert_is_erb("app/views/user.html.erb");
}

#[test]
fn leaves_other_files_unclassified() {
    assert_eq!(None, get_file_type("README.md"));
    assert_eq!(None, get_file_type("Makefile"));
    assert_eq!(None, get_file_type(".gemspec"));
}

fn reference(name: &str) -> UnresolvedReference {
    UnresolvedReference {
        name: name.to_string(),
        namespace_path: vec!["Foo".to_string()],
        location: Range { start_row: 1, start_col: 2, end_row: 3, end_col: 4 },
    }
}

fn labelled_parser() -> StaticParser {
    StaticParser {
        ruby_references: vec![reference("RubyStandard")],
        ruby_experimental_references: vec![reference("RubyExperimental")],
        erb_references: vec![reference("ErbStandard")],
        erb_experimental_references: vec![reference("ErbExperimental")],
    }
}

fn processed(parser: &StaticParser, path: &str, experimental: bool) -> ProcessedFile {
    process_file(parser, &path.to_string(), experimental)
}

#[test]
fn process_file_dispatches_on_family_and_strategy() {
    let parser = labelled_parser();

    let ruby = processed(&parser, "packs/foo/app/user.rb", false);
    assert_eq!("packs/foo/app/user.rb", ruby.absolute_path);
    assert_eq!(1, ruby.unresolved_references.len());
    assert_eq!("RubyStandard", ruby.unresolved_references[0].name);

    let ruby_experimental = processed(&parser, "packs/foo/app/user.rb", true);
    assert_eq!("RubyExperimental", ruby_experimental.unresolved_references[0].name);

    let erb = processed(&parser, "app/views/user.html.erb", false);
    assert_eq!("ErbStandard", erb.unresolved_references[0].name);

    let erb_experimental = processed(&parser, "app/views/user.html.erb", true);
    assert_eq!("ErbExperimental", erb_experimental.unresolved_references[0].name);
}

#[test]
fn process_file_yields_no_facts_for_unsupported_files() {
    let parser = labelled_parser();
    let other = processed(&parser, "docs/guide.md", false);
    assert_eq!("docs/guide.md", other.absolute_path);
    assert!(other.unresolved_references.is_empty());
    assert!(other.definitions.is_empty());
}

#[test]
fn process_file_with_factless_parser_yields_empty_facts() {
    let parser = StaticParser::with_no_facts();
    let ruby = processed(&parser, "user.rb", false);
    assert_eq!("user.rb", ruby.absolute_path);
    assert!(ruby.unresolved_references.is_empty());
    assert!(ruby.definitions.is_empty());
}

#[test]
fn parser_strategies_carry_the_queried_path() {
    let parser = labelled_parser();
    let file = parser.process_from_erb_path_experimental(&"a/b.erb".to_string());
    assert_eq!("a/b.erb", file.absolute_path);
    assert_eq!("ErbExperimental", file.unresolved_references[0].name);
}
