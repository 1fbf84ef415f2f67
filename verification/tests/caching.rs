use packs::caching::{Cache, CacheResult, MemoryCache};
use packs::parsing::{ParsedDefinition, ProcessedFile, Range, UnresolvedReference};

fn sample_file(path: &str) -> ProcessedFile {
    ProcessedFile {
        absolute_path: path.to_string(),
        unresolved_references: vec![UnresolvedReference {
            name: "Foo::Bar".to_string(),
            namespace_path: vec!["Foo".to_string(), "Bar".to_string()],
            location: Range { start_row: 3, start_col: 7, end_row: 3, end_col: 15 },
        }],
        definitions: vec![ParsedDefinition {
            fully_qualified_name: "Foo".to_string(),
            location: Range { start_row: 1, start_col: 0, end_row: 1, end_col: 3 },
        }],
    }
}

fn miss_entry(cache: &MemoryCache, root: &str, path: &str) -> packs::caching::CacheEntry {
    match cache.get(&root.to_string(), &path.to_string()) {
        CacheResult::Miss(entry) => entry,
        CacheResult::Processed(_) => panic!("expected a miss"),
    }
}

#[test]
fn cache_round_trip_returns_the_written_facts() {
    let root = ".";
    let path = "packs/foo/app/foo.rb";
    let mut cache = MemoryCache::new();

    let entry = miss_entry(&cache, root, path);
    let file = sample_file(path);
    cache.write(&entry, &file);

    match cache.get(&root.to_string(), &path.to_string()) {
        CacheResult::Processed(stored) => assert_eq!(file, stored),
        CacheResult::Miss(_) => panic!("expected a hit after the write"),
    }
}

#[test]
fn cache_write_is_idempotent() {
    let root = ".";
    let path = "packs/foo/app/foo.rb";
    let mut cache = MemoryCache::new();

    let entry = miss_entry(&cache, root, path);
    let file = sample_file(path);
    cache.write(&entry, &file);
    cache.write(&entry, &file);

    match cache.get(&root.to_string(), &path.to_string()) {
        CacheResult::Processed(stored) => assert_eq!(file, stored),
        CacheResult::Miss(_) => panic!("expected a hit after the writes"),
    }
}

#[test]
fn cache_keeps_distinct_keys_apart() {
    let root = ".";
    let mut cache = MemoryCache::new();

    let entry_a = miss_entry(&cache, root, "a.rb");
    cache.write(&entry_a, &sample_file("a.rb"));
    let entry_b = miss_entry(&cache, root, "b.rb");
    cache.write(&entry_b, &sample_file("b.rb"));

    match cache.get(&root.to_string(), &"a.rb".to_string()) {
        CacheResult::Processed(stored) => assert_eq!("a.rb", stored.absolute_path),
        CacheResult::Miss(_) => panic!("expected a hit for a.rb"),
    }
    match cache.get(&root.to_string(), &"b.rb".to_string()) {
        CacheResult::Processed(stored) => assert_eq!("b.rb", stored.absolute_path),
        CacheResult::Miss(_) => panic!("expected a hit for b.rb"),
    }
    assert!(matches!(
        cache.get(&root.to_string(), &"c.rb".to_string()),
        CacheResult::Miss(_)
    ));
}
