use hickory_dns::path::UnixPath;
use hickory_dns::tls::reject_parent_dir_components;

fn path(text: &str) -> UnixPath {
    UnixPath::new(text)
}

#[test]
fn parent_dir_is_found_anywhere() {
    assert!(path("..").has_parent_dir());
    assert!(path("../zones").has_parent_dir());
    assert!(path("zones/../keys").has_parent_dir());
    assert!(path("/var/named/..").has_parent_dir());
    assert!(path("zones/../").has_parent_dir());
}

#[test]
fn dots_that_are_no_parent_dir() {
    assert!(!path("").has_parent_dir());
    assert!(!path("/").has_parent_dir());
    assert!(!path(".").has_parent_dir());
    assert!(!path("...").has_parent_dir());
    assert!(!path("a..b/..c/d..").has_parent_dir());
    assert!(!path("/var/named").has_parent_dir());
}

#[test]
fn extensions() {
    assert!(path("cert.pem").has_extension("pem"));
    assert!(path("/etc/tls/cert.pem").has_extension("pem"));
    assert!(path("cert.tar.pem").has_extension("pem"));
    assert!(path("cert.pem/").has_extension("pem"));
    assert!(path("cert.pem/.").has_extension("pem"));
    assert!(path("cert.").has_extension(""));
    assert!(!path("cert.PEM").has_extension("pem"));
    assert!(!path("pem").has_extension("pem"));
    assert!(!path(".pem").has_extension("pem"));
    assert!(!path("dir.pem/cert").has_extension("pem"));
    assert!(!path("cert.pem/..").has_extension("pem"));
    assert!(!path("").has_extension(""));
}

#[test]
fn extensions_are_those_of_the_standard_library() {
    for text in [
        "", "/", ".", "..", "...", "..a", ".a", ".a.b", "a", "a.", "a.b", "a.b.c", "a/b.c",
        "a.b/c", "a.b/", "a.b//", "a.b/.", "a.b/./.", "a.b/..", "/.b", "//a.b", "./a.b", "a.b/./",
    ] {
        let expected = std::path::Path::new(text).extension();
        for ext in ["", "a", "b", "c"] {
            assert_eq!(
                path(text).has_extension(ext),
                expected.is_some_and(|found| found == ext),
                "{text:?} {ext:?}"
            );
        }
    }
}

#[test]
fn joining() {
    assert_eq!(path("/var/named").join(&path("cert.pem")), path("/var/named/cert.pem"));
    assert_eq!(path("/var/named/").join(&path("cert.pem")), path("/var/named/cert.pem"));
    assert_eq!(path("/var/named").join(&path("/etc/cert.pem")), path("/etc/cert.pem"));
    assert_eq!(path("").join(&path("cert.pem")), path("cert.pem"));
    assert_eq!(path("a").join(&path("")), path("a/"));
}

#[test]
fn joined_path_has_no_parent_dir() {
    let joined = path("/var/named").join(&path("zones/example.com"));
    assert!(!joined.has_parent_dir());
}

#[test]
fn display_of_bytes() {
    assert_eq!(path("/var/named").display(), "/var/named");
    let odd = UnixPath { bytes: vec![b'a', 0xff, b'b'] };
    assert_eq!(odd.display(), "a\u{fffd}b");
}

#[test]
fn rejected_components() {
    assert_eq!(reject_parent_dir_components(&path("/etc/tls/cert.pem"), "tls_cert.path"), Ok(()));
    assert_eq!(
        reject_parent_dir_components(&path("../cert.pem"), "tls_cert.path"),
        Err("tls_cert.path must not contain `..` components: ../cert.pem".to_string())
    );
}
