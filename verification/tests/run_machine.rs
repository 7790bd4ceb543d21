use obs_service_cargo_vendor_home_registry::cli::{Compression, HomeRegistryArgs};
use obs_service_cargo_vendor_home_registry::error::{ErrorKind, VendorError};
use obs_service_cargo_vendor_home_registry::layout::DirEntryInfo;
use obs_service_cargo_vendor_home_registry::run::{Action, Event, Phase, VendorRun};
use std::collections::HashSet;

fn args(tag: Option<&str>, manifests: &[&str]) -> HomeRegistryArgs {
    HomeRegistryArgs {
        target: "/src/proj*".to_string(),
        compression: Compression::Zst,
        tag: tag.map(|t| t.to_string()),
        outdir: "/out".to_string(),
        manifest_paths: manifests.iter().map(|m| m.to_string()).collect(),
        i_accept_the_risk: vec![],
        update: false,
        custom_root: None,
        no_root_manifest: false,
    }
}

/// A pretend filesystem: the paths that exist, the ones that are files.
struct World {
    existing: HashSet<String>,
    target_is_dir: bool,
    failing_cargo: Option<&'static str>,
    failing_audit: bool,
}

fn describe(a: &Action) -> String {
    match a {
        Action::CreateTempDir { prefix, rand_bytes } => format!("tmp {} {}", prefix, rand_bytes),
        Action::ResolveGlob(p) => format!("glob {}", p),
        Action::InspectTarget(p) => format!("inspect {}", p),
        Action::CopyDir { from, to } => format!("copydir {} {}", from, to),
        Action::Extract { archive, outdir } => format!("extract {} {}", archive, outdir),
        Action::ListDir(p) => format!("ls {}", p),
        Action::RunCargo(c) => format!("cargo {} @{} home={}", c.arguments().join(" "), c.curdir, c.cargo_home),
        Action::IsFile(p) => format!("isfile {}", p),
        Action::Exists(p) => format!("exists {}", p),
        Action::CreateDirAll(p) => format!("mkdir {}", p),
        Action::CopyFile { from, to } => format!("cp {} {}", from, to),
        Action::RemoveDirAll(p) => format!("rmdir {}", p),
        Action::RemoveFile(p) => format!("rm {}", p),
        Action::Audit { lockfiles, accepted } => {
            format!("audit [{}] accept [{}]", lockfiles.join(" "), accepted.join(" "))
        }
        Action::Roast { target, outfile, outdir } => format!("roast {} {} {}", target, outfile, outdir),
        Action::Finish(Ok(())) => "finish ok".to_string(),
        Action::Finish(Err(e)) => format!("finish err {:?} {}", e.kind, e.message),
    }
}

fn answer(world: &World, a: &Action, tmp_count: &mut u32) -> Event {
    match a {
        Action::CreateTempDir { prefix, .. } => {
            *tmp_count += 1;
            Event::Path(format!("/tmp/{}RAND", prefix))
        }
        Action::ResolveGlob(_) => Event::Path("/src/proj-1.0".to_string()),
        Action::InspectTarget(_) => Event::Target {
            is_dir: world.target_is_dir,
            is_file: !world.target_is_dir,
            supported: true,
        },
        Action::ListDir(_) => Event::Listed(vec![Ok(DirEntryInfo {
            name: "proj-1.0".to_string(),
            is_dir: true,
        })]),
        Action::RunCargo(c) => {
            if world.failing_cargo == Some(c.subcommand.as_str()) {
                Event::Exited { success: false, stdout: vec![], stderr: b"error: boom".to_vec() }
            } else {
                Event::Exited { success: true, stdout: b"ok".to_vec(), stderr: vec![] }
            }
        }
        Action::IsFile(p) | Action::Exists(p) => Event::Flag(world.existing.contains(p)),
        Action::Audit { .. } if world.failing_audit => Event::Failed(VendorError {
            kind: ErrorKind::Other,
            message: "vulnerable dependency".to_string(),
        }),
        _ => Event::Done,
    }
}

fn drive(world: &World, a: HomeRegistryArgs) -> (Vec<String>, Vec<String>) {
    let manifests = a.manifest_paths.len();
    let (mut run, mut action) = VendorRun::new(a);
    let mut log = vec![describe(&action)];
    let mut tmp_count = 0;
    let mut steps = 0;
    while !matches!(action, Action::Finish(_)) {
        let event = answer(world, &action, &mut tmp_count);
        assert!(run.accepts_event(&event));
        action = run.step(event);
        log.push(describe(&action));
        steps += 1;
        assert!(steps <= 26 + 9 * manifests);
    }
    assert_eq!(run.phase(), Phase::Finished);
    (log, run.lockfiles().clone())
}

fn world(existing: &[&str]) -> World {
    World {
        existing: existing.iter().map(|s| s.to_string()).collect(),
        target_is_dir: true,
        failing_cargo: None,
        failing_audit: false,
    }
}

const SETUP: &str = "/tmp/.workdirRAND/proj-1.0";
const HOME: &str = "/tmp/.cargoRAND";

#[test]
fn directory_project_without_extra_manifests() {
    let w = world(&["/tmp/.workdirRAND/proj-1.0/Cargo.lock", "/tmp/.cargoRAND/.cargo/registry/src"]);
    let (log, lockfiles) = drive(&w, args(None, &[]));
    let expected = vec![
        "tmp .cargo 12".to_string(),
        "tmp .workdir 12".to_string(),
        "glob /src/proj*".to_string(),
        "inspect /src/proj-1.0".to_string(),
        "copydir /src/proj-1.0 /tmp/.workdirRAND".to_string(),
        "ls /tmp/.workdirRAND".to_string(),
        format!("cargo generate-lockfile @{} home={}/.cargo", SETUP, HOME),
        format!("cargo fetch --locked @{} home={}/.cargo", SETUP, HOME),
        format!("exists {}/Cargo.lock", SETUP),
        format!("mkdir {}", HOME),
        format!("cp {}/Cargo.lock {}/Cargo.lock", SETUP, HOME),
        format!("audit [{}/Cargo.lock] accept []", SETUP),
        format!("exists {}/.cargo/registry/src", HOME),
        format!("rmdir {}/.cargo/registry/src", HOME),
        format!("exists {}/.cargo/bin", HOME),
        format!("exists {}/.cargo/.global-cache", HOME),
        format!("exists {}/.cargo/.package-cache", HOME),
        format!("exists {}/.cargo/.package-cache-mutate", HOME),
        format!("roast {} registry.tar.zst /out", HOME),
        "finish ok".to_string(),
    ];
    assert_eq!(log, expected);
    assert_eq!(lockfiles, vec![format!("{}/Cargo.lock", SETUP)]);
}

#[test]
fn archive_target_is_extracted() {
    let mut w = world(&[]);
    w.target_is_dir = false;
    let (log, lockfiles) = drive(&w, args(Some("7"), &[]));
    assert_eq!(log[4], "extract /src/proj-1.0 /tmp/.workdirRAND");
    assert!(log.contains(&format!("roast {} registry-7.tar.zst /out", HOME)));
    // The project's lockfile is recorded even when it does not exist.
    assert_eq!(lockfiles, vec![format!("{}/Cargo.lock", SETUP)]);
    assert!(!log.iter().any(|l| l.starts_with("cp ")));
}

#[test]
fn extra_manifests_are_fetched_and_their_lockfiles_copied() {
    let w = world(&[
        "/tmp/.workdirRAND/proj-1.0/rust/utils/Cargo.toml",
        "/tmp/.workdirRAND/proj-1.0/rust/utils",
        "/tmp/.workdirRAND/proj-1.0/rust/utils/Cargo.lock",
        "/tmp/.workdirRAND/proj-1.0/rust/pv/Cargo.toml",
        "/tmp/.workdirRAND/proj-1.0/rust/pv",
    ]);
    let (log, lockfiles) = drive(&w, args(None, &["rust/utils/Cargo.toml", "rust/pv/Cargo.toml"]));
    let utils = format!("{}/rust/utils/Cargo.toml", SETUP);
    assert!(log.contains(&format!("isfile {}", utils)));
    assert!(log.contains(&format!(
        "cargo generate-lockfile --manifest-path {} @{} home={}/.cargo",
        utils, SETUP, HOME
    )));
    assert!(log.contains(&format!(
        "cargo fetch --locked --manifest-path {} @{} home={}/.cargo",
        utils, SETUP, HOME
    )));
    assert!(log.contains(&format!("mkdir {}/rust/utils", HOME)));
    assert!(log.contains(&format!("cp {}/rust/utils/Cargo.lock {}/rust/utils/Cargo.lock", SETUP, HOME)));
    assert_eq!(
        lockfiles,
        vec![format!("{}/rust/utils/Cargo.lock", SETUP), format!("{}/Cargo.lock", SETUP)]
    );
    assert_eq!(log.last().unwrap(), "finish ok");
}

#[test]
fn missing_extra_manifest_is_not_found() {
    let w = world(&[]);
    let (log, _) = drive(&w, args(None, &["rust/utils/Cargo.toml"]));
    assert_eq!(log.last().unwrap(), "finish err NotFound Path to manifest is not a file");
}

#[test]
fn failing_cargo_ends_the_run_with_its_stderr() {
    let mut w = world(&[]);
    w.failing_cargo = Some("fetch");
    let (log, _) = drive(&w, args(None, &[]));
    assert_eq!(log.last().unwrap(), "finish err Interrupted error: boom");
    assert!(!log.iter().any(|l| l.starts_with("roast")));
}

#[test]
fn failed_action_ends_the_run_with_its_error() {
    let (mut run, _) = VendorRun::new(args(None, &[]));
    let e = VendorError { kind: ErrorKind::Other, message: "no space".to_string() };
    let action = run.step(Event::Failed(e));
    match action {
        Action::Finish(Err(e)) => {
            assert_eq!(e.kind, ErrorKind::Other);
            assert_eq!(e.message, "no space");
        }
        _ => panic!("expected the run to end"),
    }
    assert_eq!(run.phase(), Phase::Finished);
}

#[test]
fn single_file_in_workdir_ends_the_run() {
    let (mut run, _) = VendorRun::new(args(None, &[]));
    run.step(Event::Path("/h".to_string()));
    run.step(Event::Path("/w".to_string()));
    run.step(Event::Path("/t".to_string()));
    let a = run.step(Event::Target { is_dir: false, is_file: false, supported: false });
    assert!(matches!(a, Action::ListDir(ref p) if p == "/w"));
    let listing = Event::Listed(vec![Ok(DirEntryInfo { name: "f".to_string(), is_dir: false })]);
    match run.step(listing) {
        Action::Finish(Err(e)) => {
            assert_eq!(e.kind, ErrorKind::Interrupted);
            assert_eq!(e.message, "No top-level directory found after tarball was extracted");
        }
        _ => panic!("expected the run to end"),
    }
}

#[test]
fn empty_listing_is_not_accepted() {
    let (mut run, _) = VendorRun::new(args(None, &[]));
    run.step(Event::Path("/h".to_string()));
    run.step(Event::Path("/w".to_string()));
    run.step(Event::Path("/t".to_string()));
    run.step(Event::Target { is_dir: false, is_file: true, supported: false });
    assert!(!run.accepts_event(&Event::Listed(vec![])));
    assert!(run.accepts_event(&Event::Failed(VendorError {
        kind: ErrorKind::Other,
        message: String::new()
    })));
    assert!(!run.accepts_event(&Event::Done));
}

#[test]
fn run_accessors_follow_the_run() {
    let (mut run, _) = VendorRun::new(args(None, &[]));
    assert_eq!(run.phase(), Phase::AwaitHome);
    run.step(Event::Path("/h".to_string()));
    assert_eq!(run.home(), "/h");
    run.step(Event::Path("/w".to_string()));
    run.step(Event::Path("/t".to_string()));
    run.step(Event::Target { is_dir: true, is_file: false, supported: false });
    run.step(Event::Done);
    run.step(Event::Listed(vec![
        Ok(DirEntryInfo { name: "a".to_string(), is_dir: true }),
        Ok(DirEntryInfo { name: "b".to_string(), is_dir: true }),
    ]));
    assert_eq!(run.setup_workdir(), "/w");
    assert_eq!(run.phase(), Phase::AwaitRootGenerate);
}

#[test]
fn dotted_tag_is_kept_in_the_archive_name() {
    let w = world(&[]);
    let (log, _) = drive(&w, args(Some("v1.0"), &[]));
    assert!(log.contains(&format!("roast {} registry-v1.0.tar.zst /out", HOME)));
}

#[test]
fn update_runs_before_each_fetch() {
    let w = world(&["/tmp/.workdirRAND/proj-1.0/rust/pv/Cargo.toml", "/tmp/.workdirRAND/proj-1.0/rust/pv"]);
    let mut a = args(None, &["rust/pv/Cargo.toml"]);
    a.update = true;
    let (log, _) = drive(&w, a);
    let pv = format!("{}/rust/pv/Cargo.toml", SETUP);
    let cargo: Vec<&String> = log.iter().filter(|l| l.starts_with("cargo ")).collect();
    let expected = vec![
        format!("cargo generate-lockfile @{} home={}/.cargo", SETUP, HOME),
        format!("cargo update @{} home={}/.cargo", SETUP, HOME),
        format!("cargo fetch --locked @{} home={}/.cargo", SETUP, HOME),
        format!("cargo generate-lockfile --manifest-path {} @{} home={}/.cargo", pv, SETUP, HOME),
        format!("cargo update --manifest-path {} @{} home={}/.cargo", pv, SETUP, HOME),
        format!("cargo fetch --locked --manifest-path {} @{} home={}/.cargo", pv, SETUP, HOME),
    ];
    assert_eq!(cargo, expected.iter().collect::<Vec<&String>>());
    assert_eq!(log.last().unwrap(), "finish ok");
}

#[test]
fn without_update_no_cargo_update_runs() {
    let w = world(&[]);
    let (log, _) = drive(&w, args(None, &[]));
    assert!(!log.iter().any(|l| l.starts_with("cargo update")));
}

#[test]
fn no_root_manifest_runs_cargo_only_on_the_further_manifests() {
    let w = world(&[
        "/tmp/.workdirRAND/proj-1.0/rust/utils/Cargo.toml",
        "/tmp/.workdirRAND/proj-1.0/rust/utils",
        "/tmp/.workdirRAND/proj-1.0/rust/utils/Cargo.lock",
        "/tmp/.workdirRAND/proj-1.0/rust/pv/Cargo.toml",
        "/tmp/.workdirRAND/proj-1.0/rust/pv",
        "/tmp/.workdirRAND/proj-1.0/rust/pv/Cargo.lock",
    ]);
    let mut a = args(None, &["rust/utils/Cargo.toml", "rust/pv/Cargo.toml"]);
    a.no_root_manifest = true;
    let (log, lockfiles) = drive(&w, a);
    assert!(log.iter().filter(|l| l.starts_with("cargo ")).all(|l| l.contains("--manifest-path")));
    assert_eq!(log.iter().filter(|l| l.starts_with("cargo ")).count(), 4);
    assert!(!log.contains(&format!("exists {}/Cargo.lock", SETUP)));
    assert_eq!(
        lockfiles,
        vec![format!("{}/rust/utils/Cargo.lock", SETUP), format!("{}/rust/pv/Cargo.lock", SETUP)]
    );
    assert!(log.contains(&format!(
        "audit [{}/rust/utils/Cargo.lock {}/rust/pv/Cargo.lock] accept []",
        SETUP, SETUP
    )));
    assert!(log.contains(&format!("cp {}/rust/pv/Cargo.lock {}/rust/pv/Cargo.lock", SETUP, HOME)));
    assert_eq!(log.last().unwrap(), "finish ok");
}

#[test]
fn custom_root_replaces_the_listing() {
    let w = world(&["/tmp/.workdirRAND/sub/dir/Cargo.lock"]);
    let mut a = args(None, &[]);
    a.custom_root = Some("sub/dir".to_string());
    let (log, lockfiles) = drive(&w, a);
    let root = "/tmp/.workdirRAND/sub/dir";
    assert!(!log.iter().any(|l| l.starts_with("ls ")));
    assert_eq!(log[5], format!("cargo generate-lockfile @{} home={}/.cargo", root, HOME));
    assert!(log.contains(&format!("cp {}/Cargo.lock {}/Cargo.lock", root, HOME)));
    assert_eq!(lockfiles, vec![format!("{}/Cargo.lock", root)]);
}

#[test]
fn manifest_outside_the_project_is_refused() {
    for m in ["/etc/Cargo.toml", "../Cargo.toml", "a/../../Cargo.toml", ".."] {
        let (run, action) = VendorRun::new(args(None, &["rust/pv/Cargo.toml", m]));
        assert_eq!(run.phase(), Phase::Finished);
        assert_eq!(
            describe(&action),
            "finish err InvalidInput Path to manifest must be relative to the project's top-level directory"
        );
    }
}

#[test]
fn custom_root_outside_the_project_is_refused() {
    let mut a = args(None, &[]);
    a.custom_root = Some("/srv/proj".to_string());
    let (run, action) = VendorRun::new(a);
    assert_eq!(run.phase(), Phase::Finished);
    assert_eq!(describe(&action), "finish err InvalidInput Custom root must be a relative path inside the project");
}

#[test]
fn accepted_risks_go_to_the_audit() {
    let w = world(&[]);
    let mut a = args(None, &[]);
    a.i_accept_the_risk = vec!["RUSTSEC-2020-0071".to_string()];
    let (log, _) = drive(&w, a);
    assert!(log.contains(&format!("audit [{}/Cargo.lock] accept [RUSTSEC-2020-0071]", SETUP)));
}

#[test]
fn failed_audit_ends_the_run_before_archiving() {
    let mut w = world(&[]);
    w.failing_audit = true;
    let (log, _) = drive(&w, args(None, &[]));
    assert_eq!(log.last().unwrap(), "finish err Other vulnerable dependency");
    assert!(!log.iter().any(|l| l.starts_with("roast") || l.starts_with("rm")));
}

#[test]
fn manifest_that_climbs_back_in_is_handled() {
    let w = world(&[
        "/tmp/.workdirRAND/proj-1.0/a/../b/Cargo.toml",
        "/tmp/.workdirRAND/proj-1.0/a/../b",
        "/tmp/.workdirRAND/proj-1.0/a/../b/Cargo.lock",
    ]);
    let (log, lockfiles) = drive(&w, args(None, &["a/../b/Cargo.toml"]));
    let m = format!("{}/a/../b/Cargo.toml", SETUP);
    assert!(log.contains(&format!("cargo generate-lockfile --manifest-path {} @{} home={}/.cargo", m, SETUP, HOME)));
    assert!(log.contains(&format!("cargo fetch --locked --manifest-path {} @{} home={}/.cargo", m, SETUP, HOME)));
    assert!(log.contains(&format!("mkdir {}/a/../b", HOME)));
    assert!(log.contains(&format!("cp {}/a/../b/Cargo.lock {}/a/../b/Cargo.lock", SETUP, HOME)));
    assert_eq!(lockfiles[0], format!("{}/a/../b/Cargo.lock", SETUP));
    assert_eq!(log.last().unwrap(), "finish ok");
}

#[test]
fn empty_manifest_path_is_not_a_file() {
    let w = world(&[]);
    let (log, _) = drive(&w, args(None, &[""]));
    assert!(log.contains(&format!("cargo fetch --locked @{} home={}/.cargo", SETUP, HOME)));
    assert!(log.contains(&format!("isfile {}/", SETUP)));
    assert_eq!(log.last().unwrap(), "finish err NotFound Path to manifest is not a file");
}

#[test]
fn custom_root_that_climbs_back_in_is_used() {
    let w = world(&[]);
    let mut a = args(None, &[]);
    a.custom_root = Some("d/../d".to_string());
    let (log, _) = drive(&w, a);
    assert_eq!(log[5], format!("cargo generate-lockfile @/tmp/.workdirRAND/d/../d home={}/.cargo", HOME));
    assert_eq!(log.last().unwrap(), "finish ok");
}

#[test]
fn tag_with_a_separator_is_refused() {
    for tag in ["x/", "/..", "a/b"] {
        let (run, action) = VendorRun::new(args(Some(tag), &[]));
        assert_eq!(run.phase(), Phase::Finished);
        assert_eq!(describe(&action), "finish err InvalidInput Tag must not contain a path separator");
    }
}
