use oxprint_backend::paths::{extension, file_name, join, parent};
use std::path::Path;

const SAMPLES: [&str; 44] = [
    "", "/", ".", "..", "./", "../", "a", "a/", "a/.", "a/..", "a/b", "a//b", "a/./b", "/a", "/a/b",
    "//a", "/.", "/..", "./a", "./a/b", "././a", ".a", ".a/b", "a.b", "a.b.c", ".bashrc", "foo.",
    "...", "a/b.tar.gz", "static/index.html", "static/app.js", "static/sub/index.html/",
    "static/sub/index.html/.", "data/oxprint.db", "oxprint.db", ":memory:", "///var/x.db",
    "/var/lib/oxprint/db.sqlite", "a/b/../c", "x/..js", "x/.js", "x/a.JS", "x//", "x/./.",
];

fn std_name(p: &str) -> Option<String> {
    Path::new(p).file_name().map(|n| n.to_str().unwrap().to_string())
}

fn std_extension(p: &str) -> Option<String> {
    Path::new(p).extension().map(|n| n.to_str().unwrap().to_string())
}

fn std_parent(p: &str) -> Option<String> {
    Path::new(p).parent().map(|n| n.to_str().unwrap().to_string())
}

#[test]
fn file_name_agrees_with_std_paths() {
    for p in SAMPLES {
        assert_eq!(file_name(p), std_name(p), "file_name of {:?}", p);
    }
}

#[test]
fn extension_agrees_with_std_paths() {
    for p in SAMPLES {
        assert_eq!(extension(p), std_extension(p), "extension of {:?}", p);
    }
}

#[test]
fn parent_agrees_with_std_paths() {
    for p in SAMPLES {
        assert_eq!(parent(p), std_parent(p), "parent of {:?}", p);
    }
}

#[test]
fn join_agrees_with_std_paths() {
    for base in SAMPLES {
        for rel in SAMPLES {
            let expected = Path::new(base).join(rel).to_str().unwrap().to_string();
            assert_eq!(join(base, rel), expected, "join of {:?} and {:?}", base, rel);
        }
    }
}

#[test]
fn file_name_of_plain_paths() {
    assert_eq!(file_name("static/index.html"), Some("index.html".to_string()));
    assert_eq!(file_name("static/"), Some("static".to_string()));
    assert_eq!(file_name("static/.."), None);
    assert_eq!(file_name(""), None);
    assert_eq!(file_name("/"), None);
}

#[test]
fn extension_of_plain_paths() {
    assert_eq!(extension("static/app.js"), Some("js".to_string()));
    assert_eq!(extension("static/archive.tar.gz"), Some("gz".to_string()));
    assert_eq!(extension("static/.hidden"), None);
    assert_eq!(extension("static/README"), None);
    assert_eq!(extension("static/trailing."), Some("".to_string()));
}

#[test]
fn parent_of_plain_paths() {
    assert_eq!(parent("data/oxprint.db"), Some("data".to_string()));
    assert_eq!(parent("oxprint.db"), Some("".to_string()));
    assert_eq!(parent("/oxprint.db"), Some("/".to_string()));
    assert_eq!(parent(""), None);
    assert_eq!(parent("/"), None);
}

#[test]
fn join_of_plain_paths() {
    assert_eq!(join("static", "index.html"), "static/index.html");
    assert_eq!(join("static/", "index.html"), "static/index.html");
    assert_eq!(join("", "index.html"), "index.html");
    assert_eq!(join("static", "/etc/passwd"), "/etc/passwd");
    assert_eq!(join("static", ""), "static/");
}
