use obs_service_cargo_vendor_home_registry::cargo::{
    audit_call, cargo_fetch, cargo_generate_lockfile, cargo_update, command_outcome,
};
use obs_service_cargo_vendor_home_registry::error::ErrorKind;

fn strings(v: &[&str]) -> Vec<String> {
    v.iter().map(|s| s.to_string()).collect()
}

#[test]
fn fetch_without_manifest_is_locked_only() {
    let call = cargo_fetch("/work/proj", "/home/.cargo", "");
    assert_eq!(call.subcommand, "fetch");
    assert_eq!(call.options, strings(&["--locked"]));
    assert_eq!(call.curdir, "/work/proj");
    assert_eq!(call.cargo_home, "/home/.cargo");
}

#[test]
fn fetch_with_manifest_points_at_it() {
    let call = cargo_fetch("/work/proj", "/home/.cargo", "/work/proj/rust/pv/Cargo.toml");
    assert_eq!(
        call.options,
        strings(&["--locked", "--manifest-path", "/work/proj/rust/pv/Cargo.toml"])
    );
}

#[test]
fn generate_lockfile_options() {
    let call = cargo_generate_lockfile("/w", "/h", "");
    assert_eq!(call.subcommand, "generate-lockfile");
    assert!(call.options.is_empty());
    let call = cargo_generate_lockfile("/w", "/h", "a/Cargo.toml");
    assert_eq!(call.options, strings(&["--manifest-path", "a/Cargo.toml"]));
}

#[test]
fn update_options() {
    let call = cargo_update("/w", "/h", "");
    assert_eq!(call.subcommand, "update");
    assert!(call.options.is_empty());
    let call = cargo_update("/w", "/h", "b/Cargo.toml");
    assert_eq!(call.options, strings(&["--manifest-path", "b/Cargo.toml"]));
    assert_eq!(call.cargo_home, "/h");
    assert_eq!(call.curdir, "/w");
}

#[test]
fn arguments_put_subcommand_first() {
    let call = cargo_fetch("/w", "/h", "m/Cargo.toml");
    assert_eq!(
        call.arguments(),
        strings(&["fetch", "--locked", "--manifest-path", "m/Cargo.toml"])
    );
    let call = cargo_generate_lockfile("/w", "/h", "");
    assert_eq!(call.arguments(), strings(&["generate-lockfile"]));
}

#[test]
fn successful_command_gives_its_output() {
    let res = command_outcome(true, b"vendored\n", b"warning: x");
    assert_eq!(res.unwrap(), "vendored\n");
}

#[test]
fn failed_command_gives_its_stderr_as_interrupted() {
    let err = command_outcome(false, b"out", b"error: no matching package").unwrap_err();
    assert_eq!(err.kind, ErrorKind::Interrupted);
    assert_eq!(err.message, "error: no matching package");
}

#[test]
fn invalid_output_bytes_are_replaced() {
    let res = command_outcome(true, &[b'o', b'k', 0xff, b'!'], b"").unwrap();
    assert_eq!(res, "ok\u{FFFD}!");
    let err = command_outcome(false, b"", &[0xc3]).unwrap_err();
    assert_eq!(err.message, "\u{FFFD}");
}

#[test]
fn multibyte_output_is_decoded() {
    let res = command_outcome(true, "📦 ok".as_bytes(), b"").unwrap();
    assert_eq!(res, "📦 ok");
}

#[test]
fn audit_call_names_the_lockfile_and_accepted_risks() {
    let accepted = strings(&["RUSTSEC-2020-0071", "RUSTSEC-2023-0001"]);
    let call = audit_call("/w/p", "/h/.cargo", "/w/p/Cargo.lock", &accepted);
    assert_eq!(call.subcommand, "audit");
    assert_eq!(
        call.options,
        strings(&[
            "--file",
            "/w/p/Cargo.lock",
            "--ignore",
            "RUSTSEC-2020-0071",
            "--ignore",
            "RUSTSEC-2023-0001"
        ])
    );
    assert_eq!(call.curdir, "/w/p");
    assert_eq!(call.cargo_home, "/h/.cargo");
    let plain = audit_call("/w", "/h", "/w/Cargo.lock", &vec![]);
    assert_eq!(plain.arguments(), strings(&["audit", "--file", "/w/Cargo.lock"]));
}

#[test]
fn valid_stderr_is_decoded_whole() {
    let err = command_outcome(false, b"", "échec".as_bytes()).unwrap_err();
    assert_eq!(err.message, "échec");
}
