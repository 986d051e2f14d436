use ephemtext::names::split_name;
use std::path::Path;

fn parts(name: &str) -> (String, Option<String>) {
    split_name(name)
}

#[test]
fn split_plain_name() {
    assert_eq!(parts("notes.txt"), ("notes".to_string(), Some("txt".to_string())));
}

#[test]
fn split_name_without_dot() {
    assert_eq!(parts("README"), ("README".to_string(), None));
}

#[test]
fn split_name_with_leading_dot_only() {
    assert_eq!(parts(".bashrc"), (".bashrc".to_string(), None));
}

#[test]
fn split_name_with_leading_dot_and_extension() {
    assert_eq!(parts(".config.json"), (".config".to_string(), Some("json".to_string())));
}

#[test]
fn split_name_with_several_dots() {
    assert_eq!(parts("archive.tar.gz"), ("archive.tar".to_string(), Some("gz".to_string())));
}

#[test]
fn split_name_with_trailing_dot() {
    assert_eq!(parts("draft."), ("draft".to_string(), Some(String::new())));
}

#[test]
fn split_empty_name() {
    assert_eq!(parts(""), (String::new(), None));
}

#[test]
fn split_single_dot() {
    assert_eq!(parts("."), (".".to_string(), None));
}

#[test]
fn split_three_dots() {
    assert_eq!(parts("..."), ("..".to_string(), Some(String::new())));
}

#[test]
fn split_name_beyond_ascii() {
    assert_eq!(parts("résumé.données"), ("résumé".to_string(), Some("données".to_string())));
    assert_eq!(parts("日本語.txt"), ("日本語".to_string(), Some("txt".to_string())));
}

#[test]
fn split_keeps_spaces_and_parentheses() {
    assert_eq!(parts("notes (1).txt"), ("notes (1)".to_string(), Some("txt".to_string())));
}

#[test]
fn split_agrees_with_the_standard_library() {
    let samples = [
        "notes.txt", "README", ".bashrc", ".config.json", "archive.tar.gz", "draft.", "...",
        "a.b", "a..b", ".a.", "x", "résumé.données", "notes (1).txt", "with space.md",
    ];
    for name in samples {
        let path = Path::new(name);
        let stem = path.file_stem().map(|s| s.to_string_lossy().to_string());
        let extension = path.extension().map(|s| s.to_string_lossy().to_string());
        let (our_stem, our_extension) = split_name(name);
        assert_eq!(Some(our_stem), stem, "stem of {}", name);
        assert_eq!(our_extension, extension, "extension of {}", name);
    }
}

#[test]
fn stem_and_extension_make_up_the_name() {
    let samples = ["notes.txt", "README", ".bashrc", "archive.tar.gz", "draft.", "...", ""];
    for name in samples {
        let (stem, extension) = split_name(name);
        let rebuilt = match extension {
            Some(e) => format!("{}.{}", stem, e),
            None => stem,
        };
        assert_eq!(rebuilt, name);
    }
}
