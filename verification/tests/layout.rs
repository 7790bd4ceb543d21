use obs_service_cargo_vendor_home_registry::cli::{archive_file_name, Compression};
use obs_service_cargo_vendor_home_registry::error::{ErrorKind, VendorError};
use obs_service_cargo_vendor_home_registry::layout::{
    cleanup_target, lockfile_relative, manifest_dir, select_setup_workdir, DirEntryInfo,
};
use obs_service_cargo_vendor_home_registry::paths::{has_separator, is_relative_inside, join};

fn dir(p: &str) -> Result<DirEntryInfo, VendorError> {
    Ok(DirEntryInfo { name: p.to_string(), is_dir: true })
}

fn file(p: &str) -> Result<DirEntryInfo, VendorError> {
    Ok(DirEntryInfo { name: p.to_string(), is_dir: false })
}

#[test]
fn archive_name_without_tag() {
    assert_eq!(archive_file_name(&None, Compression::Zst), "registry.tar.zst");
    assert_eq!(archive_file_name(&None, Compression::Gz), "registry.tar.gz");
    assert_eq!(archive_file_name(&None, Compression::Xz), "registry.tar.xz");
    assert_eq!(archive_file_name(&None, Compression::Bz2), "registry.tar.bz");
    assert_eq!(archive_file_name(&None, Compression::Not), "registry.tar");
}

#[test]
fn archive_name_with_tag() {
    let tag = Some("42".to_string());
    assert_eq!(archive_file_name(&tag, Compression::Gz), "registry-42.tar.gz");
}

#[test]
fn archive_name_keeps_a_dotted_tag_whole() {
    let tag = Some("v1.2".to_string());
    assert_eq!(archive_file_name(&tag, Compression::Zst), "registry-v1.2.tar.zst");
    let a = archive_file_name(&Some("v1.0".to_string()), Compression::Gz);
    let b = archive_file_name(&Some("v1.1".to_string()), Compression::Gz);
    assert_eq!(a, "registry-v1.0.tar.gz");
    assert_ne!(a, b);
}

#[test]
fn archive_name_with_empty_tag() {
    assert_eq!(archive_file_name(&Some(String::new()), Compression::Xz), "registry-.tar.xz");
}

#[test]
fn default_compression_is_zst() {
    assert_eq!(Compression::default(), Compression::Zst);
    assert_eq!(Compression::default().extension(), "tar.zst");
}

#[test]
fn join_follows_unix_paths() {
    assert_eq!(join("/h", "Cargo.lock"), "/h/Cargo.lock");
    assert_eq!(join("/h/", "Cargo.lock"), "/h/Cargo.lock");
    assert_eq!(join("", "Cargo.lock"), "Cargo.lock");
    assert_eq!(join("/h", "/abs/Cargo.lock"), "/abs/Cargo.lock");
    assert_eq!(join("/h", ""), "/h/");
}

#[test]
fn relative_inside_paths() {
    assert!(is_relative_inside("rust/pv/Cargo.toml"));
    assert!(is_relative_inside("Cargo.toml"));
    assert!(is_relative_inside("..a/b..c/Cargo.toml"));
    assert!(is_relative_inside(""));
    assert!(is_relative_inside("a/../b/Cargo.toml"));
    assert!(is_relative_inside("d/../d"));
    assert!(is_relative_inside("a/.."));
    assert!(is_relative_inside("./a//b/./../Cargo.toml"));
    assert!(!is_relative_inside("/abs/Cargo.toml"));
    assert!(!is_relative_inside("../Cargo.toml"));
    assert!(!is_relative_inside(".."));
    assert!(!is_relative_inside("a/../../Cargo.toml"));
    assert!(!is_relative_inside("a/b/../../../c"));
    assert!(!is_relative_inside("./.."));
}

#[test]
fn separators_in_text() {
    assert!(has_separator("a/b"));
    assert!(has_separator("/"));
    assert!(!has_separator("v1.0"));
    assert!(!has_separator(""));
}

#[test]
fn lockfile_goes_next_to_its_manifest() {
    assert_eq!(lockfile_relative("rust/pv/Cargo.toml"), "rust/pv/Cargo.lock");
    assert_eq!(lockfile_relative("Cargo.toml"), "Cargo.lock");
    assert_eq!(lockfile_relative("a//Cargo.toml"), "a//Cargo.lock");
}

#[test]
fn manifest_directory_under_a_root() {
    assert_eq!(manifest_dir("/h", "rust/pv/Cargo.toml"), "/h/rust/pv");
    assert_eq!(manifest_dir("/h", "Cargo.toml"), "/h");
    assert_eq!(manifest_dir("/tmp/.cargoX", "rust/utils/Cargo.toml"), "/tmp/.cargoX/rust/utils");
}

#[test]
fn cleanup_targets_in_order() {
    let t: Vec<(String, bool)> = (0..5).map(|i| cleanup_target("/h/.cargo", i)).collect();
    assert_eq!(t[0], ("/h/.cargo/registry/src".to_string(), true));
    assert_eq!(t[1], ("/h/.cargo/bin".to_string(), true));
    assert_eq!(t[2], ("/h/.cargo/.global-cache".to_string(), false));
    assert_eq!(t[3], ("/h/.cargo/.package-cache".to_string(), false));
    assert_eq!(t[4], ("/h/.cargo/.package-cache-mutate".to_string(), false));
}

#[test]
fn many_entries_keep_workdir() {
    let res = select_setup_workdir("/w", vec![dir("a"), file("b")]);
    assert_eq!(res.unwrap(), "/w");
}

#[test]
fn single_directory_is_top_level() {
    let res = select_setup_workdir("/w", vec![dir("proj-1.0")]);
    assert_eq!(res.unwrap(), "/w/proj-1.0");
}

#[test]
fn single_file_is_an_error() {
    let err = select_setup_workdir("/w", vec![file("README")]).unwrap_err();
    assert_eq!(err.kind, ErrorKind::Interrupted);
    assert_eq!(err.message, "No top-level directory found after tarball was extracted");
}

#[test]
fn single_unreadable_entry_passes_its_error() {
    let e = VendorError { kind: ErrorKind::Other, message: "permission denied".to_string() };
    let err = select_setup_workdir("/w", vec![Err(e)]).unwrap_err();
    assert_eq!(err.kind, ErrorKind::Other);
    assert_eq!(err.message, "permission denied");
}

#[test]
fn unreadable_entry_among_many_is_ignored() {
    let e = VendorError { kind: ErrorKind::Other, message: "x".to_string() };
    let res = select_setup_workdir("/w", vec![Err(e), dir("a")]);
    assert_eq!(res.unwrap(), "/w");
}
