use cargo_cross::download::{apply_github_proxy, ArchiveFormat};
#[test]
fn test_archive_format_detection() {
    assert_eq!(
        ArchiveFormat::from_url("foo.tar.gz"),
        Some(ArchiveFormat::TarGz)
    );
    assert_eq!(
        ArchiveFormat::from_url("foo.tgz"),
        Some(ArchiveFormat::TarGz)
    );
    assert_eq!(ArchiveFormat::from_url("foo.zip"), Some(ArchiveFormat::Zip));
    assert_eq!(ArchiveFormat::from_url("foo.txt"), None);
    assert_eq!(ArchiveFormat::from_url("foo.tar.xz"), None); // Not supported
}

#[test]
fn test_github_proxy() {
    assert_eq!(
        apply_github_proxy("https://github.com/foo/bar", Some("https://proxy.com/")),
        "https://proxy.com/https://github.com/foo/bar"
    );
    assert_eq!(
        apply_github_proxy("https://other.com/foo", Some("https://proxy.com/")),
        "https://other.com/foo"
    );
    assert_eq!(
        apply_github_proxy("https://github.com/foo/bar", None),
        "https://github.com/foo/bar"
    );
}
