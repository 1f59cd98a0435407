use http_file_server::listing::{directory_listing, parent_entry, sort_entries, RawEntry};
use http_file_server::resolve::candidate_path;

fn raw(name: &str, is_dir: bool, size: Option<u64>) -> RawEntry {
    RawEntry { name: name.to_string(), is_dir, size }
}

#[test]
fn directories_sort_strictly_before_files() {
    let sorted = sort_entries(vec![
        raw("zeta.txt", false, Some(10)),
        raw("beta", true, None),
        raw("alpha.txt", false, Some(3)),
        raw("gamma", true, None),
    ]);
    let names: Vec<&str> = sorted.iter().map(|e| e.name.as_str()).collect();
    assert_eq!(names, vec!["beta", "gamma", "alpha.txt", "zeta.txt"]);
    assert!(sorted[0].is_dir && sorted[1].is_dir);
    assert!(!sorted[2].is_dir && !sorted[3].is_dir);
}

#[test]
fn sorting_keeps_every_entry() {
    let sorted = sort_entries(vec![
        raw("b", false, Some(2)),
        raw("a", false, Some(1)),
        raw("a", true, None),
    ]);
    assert_eq!(sorted.len(), 3);
    assert!(sorted[0].is_dir);
    assert_eq!(sorted[0].name, "a");
    assert_eq!(sorted[1].name, "a");
    assert_eq!(sorted[1].size, Some(1));
    assert_eq!(sorted[2].name, "b");
}

#[test]
fn listing_at_the_root_has_no_parent_entry() {
    let l = directory_listing("", vec![raw("a.txt", false, Some(1))], false);
    assert_eq!(l.len(), 1);
    assert_eq!(l[0].name, "a.txt");
    assert_eq!(l[0].url, "/a%2Etxt");
}

#[test]
fn listing_below_the_root_starts_with_the_parent() {
    let l = directory_listing(
        "docs/guides",
        vec![raw("intro.md", false, Some(5)), raw("img", true, None)],
        true,
    );
    assert_eq!(l.len(), 3);
    assert_eq!(l[0].name, "..");
    assert!(l[0].is_dir);
    assert_eq!(l[0].size, None);
    assert_eq!(l[0].url, "/docs");
    // Directories first, then files, each path percent-encoded whole.
    assert_eq!(l[1].name, "img");
    assert_eq!(l[1].url, "/docs%2Fguides%2Fimg");
    assert_eq!(l[2].name, "intro.md");
    assert_eq!(l[2].url, "/docs%2Fguides%2Fintro%2Emd");
}

#[test]
fn entry_paths_encode_spaces_and_punctuation() {
    let l = directory_listing("", vec![raw("my file.txt", false, Some(1))], false);
    assert_eq!(l[0].url, "/my%20file%2Etxt");
}

#[test]
fn trailing_separators_in_the_current_path_are_trimmed() {
    let l = directory_listing("docs/", vec![raw("x", false, Some(1))], false);
    assert_eq!(l[0].url, "/docs%2Fx");
}

#[test]
fn listing_urls_decode_back_to_the_entry_path() {
    let l = directory_listing("docs", vec![raw("my file.txt", false, Some(1))], false);
    assert_eq!(l[0].url, "/docs%2Fmy%20file%2Etxt");
    // Decoding the URL (after its leading separator) recovers the entry
    // path, so every listed link resolves to the entry it names.
    let decoded = candidate_path("", &l[0].url[1..]).unwrap();
    assert_eq!(decoded, "/docs/my file.txt");
}

#[test]
fn parent_of_a_single_component_is_the_root() {
    let p = parent_entry("docs");
    assert_eq!(p.name, "..");
    assert_eq!(p.url, "/");
    let p = parent_entry("");
    assert_eq!(p.url, "/");
}

#[test]
fn parent_drops_the_last_component() {
    assert_eq!(parent_entry("a/b/c").url, "/a/b");
    assert_eq!(parent_entry("a/b/").url, "/a");
}
