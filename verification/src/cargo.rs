use vstd::prelude::*;
use vstd::utf8::*;
use crate::error::{ErrorKind, ErrorModel, VendorError};

verus! {

/// One call of cargo: `cargo <subcommand> <options..>` run in `curdir`
/// with `CARGO_HOME` set to `cargo_home`.
pub struct CargoCall {
    pub subcommand: String,
    pub options: Vec<String>,
    pub curdir: String,
    pub cargo_home: String,
}

/// The mathematical value of a [`CargoCall`].
pub ghost struct CargoCallModel {
    pub subcommand: Seq<char>,
    pub options: Seq<Seq<char>>,
    pub curdir: Seq<char>,
    pub cargo_home: Seq<char>,
}

pub open spec fn strings_model(v: Seq<String>) -> Seq<Seq<char>> {
    v.map_values(|s: String| s@)
}

impl View for CargoCall {
    type V = CargoCallModel;

    open spec fn view(&self) -> CargoCallModel {
        CargoCallModel {
            subcommand: self.subcommand@,
            options: strings_model(self.options@),
            curdir: self.curdir@,
            cargo_home: self.cargo_home@,
        }
    }
}

/// The options that point cargo at `manifest`: none for the empty string,
/// else `--manifest-path <manifest>`.
pub open spec fn manifest_options(manifest: Seq<char>) -> Seq<Seq<char>> {
    if manifest.len() == 0 {
        seq![]
    } else {
        seq!["--manifest-path"@, manifest]
    }
}

/// The options of `cargo fetch`: `--locked`, then the manifest's.
pub open spec fn fetch_options_model(manifest: Seq<char>) -> Seq<Seq<char>> {
    seq!["--locked"@] + manifest_options(manifest)
}

/// The call that `cargo_fetch` makes.
pub open spec fn fetch_call(curdir: Seq<char>, cargo_home: Seq<char>, manifest: Seq<char>) -> CargoCallModel {
    CargoCallModel {
        subcommand: "fetch"@,
        options: fetch_options_model(manifest),
        curdir,
        cargo_home,
    }
}

/// The call that `cargo_generate_lockfile` makes.
pub open spec fn generate_lockfile_call(
    curdir: Seq<char>,
    cargo_home: Seq<char>,
    manifest: Seq<char>,
) -> CargoCallModel {
    CargoCallModel {
        subcommand: "generate-lockfile"@,
        options: manifest_options(manifest),
        curdir,
        cargo_home,
    }
}

/// The call that `cargo_update` makes.
pub open spec fn update_call(curdir: Seq<char>, cargo_home: Seq<char>, manifest: Seq<char>) -> CargoCallModel {
    CargoCallModel {
        subcommand: "update"@,
        options: manifest_options(manifest),
        curdir,
        cargo_home,
    }
}

fn push_manifest_options(options: &mut Vec<String>, manifest: &str)
    ensures
        strings_model(final(options)@) == strings_model(old(options)@) + manifest_options(manifest@),
{
    let ghost before = strings_model(options@);
    if !manifest.is_empty() {
        options.push("--manifest-path".to_owned());
        options.push(manifest.to_owned());
        assert(strings_model(options@) =~= before + manifest_options(manifest@));
    } else {
        assert(manifest@.len() == 0);
        assert(strings_model(options@) =~= before + manifest_options(manifest@));
    }
}

/// `cargo fetch --locked`, for `manifest` where it is not empty, run in
/// `curdir` against the cargo home `cargo_home`.
pub fn cargo_fetch(curdir: &str, cargo_home: &str, manifest: &str) -> (call: CargoCall)
    ensures
        call@ == fetch_call(curdir@, cargo_home@, manifest@),
{
    let mut options: Vec<String> = Vec::new();
    options.push("--locked".to_owned());
    assert(strings_model(options@) =~= seq!["--locked"@]);
    push_manifest_options(&mut options, manifest);
    CargoCall {
        subcommand: "fetch".to_owned(),
        options,
        curdir: curdir.to_owned(),
        cargo_home: cargo_home.to_owned(),
    }
}

/// `cargo generate-lockfile`, for `manifest` where it is not empty, run in
/// `curdir` against the cargo home `cargo_home`.
pub fn cargo_generate_lockfile(curdir: &str, cargo_home: &str, manifest: &str) -> (call: CargoCall)
    ensures
        call@ == generate_lockfile_call(curdir@, cargo_home@, manifest@),
{
    let mut options: Vec<String> = Vec::new();
    assert(strings_model(options@) =~= seq![]);
    push_manifest_options(&mut options, manifest);
    assert(strings_model(options@) =~= manifest_options(manifest@));
    CargoCall {
        subcommand: "generate-lockfile".to_owned(),
        options,
        curdir: curdir.to_owned(),
        cargo_home: cargo_home.to_owned(),
    }
}

/// `cargo update`, for `manifest` where it is not empty, run in `curdir`
/// against the cargo home `cargo_home`.
pub fn cargo_update(curdir: &str, cargo_home: &str, manifest: &str) -> (call: CargoCall)
    ensures
        call@ == update_call(curdir@, cargo_home@, manifest@),
{
    let mut options: Vec<String> = Vec::new();
    assert(strings_model(options@) =~= seq![]);
    push_manifest_options(&mut options, manifest);
    assert(strings_model(options@) =~= manifest_options(manifest@));
    CargoCall {
        subcommand: "update".to_owned(),
        options,
        curdir: curdir.to_owned(),
        cargo_home: cargo_home.to_owned(),
    }
}

/// The options that let the advisories `ids` pass an audit, in order:
/// `--ignore <id>` for each.
pub open spec fn ignore_options(ids: Seq<Seq<char>>) -> Seq<Seq<char>>
    decreases ids.len(),
{
    if ids.len() == 0 {
        seq![]
    } else {
        ignore_options(ids.drop_last()) + seq!["--ignore"@, ids.last()]
    }
}

/// The call that `audit_call` makes.
pub open spec fn audit_call_model(
    curdir: Seq<char>,
    cargo_home: Seq<char>,
    lockfile: Seq<char>,
    accepted: Seq<Seq<char>>,
) -> CargoCallModel {
    CargoCallModel {
        subcommand: "audit"@,
        options: seq!["--file"@, lockfile] + ignore_options(accepted),
        curdir,
        cargo_home,
    }
}

/// `cargo audit --file <lockfile>`, letting each advisory of `accepted`
/// pass with `--ignore`, run in `curdir` against the cargo home
/// `cargo_home`.
pub fn audit_call(curdir: &str, cargo_home: &str, lockfile: &str, accepted: &Vec<String>) -> (call:
    CargoCall)
    ensures
        call@ == audit_call_model(curdir@, cargo_home@, lockfile@, strings_model(accepted@)),
{
    let mut options: Vec<String> = Vec::new();
    options.push("--file".to_owned());
    options.push(lockfile.to_owned());
    let ghost ids = strings_model(accepted@);
    assert(strings_model(options@) =~= seq!["--file"@, lockfile@] + ignore_options(
        ids.subrange(0, 0),
    ));
    let mut i: usize = 0;
    while i < accepted.len()
        invariant
            i <= accepted@.len(),
            ids == strings_model(accepted@),
            strings_model(options@) == seq!["--file"@, lockfile@] + ignore_options(
                ids.subrange(0, i as int),
            ),
        decreases accepted@.len() - i,
    {
        let ghost before = options@;
        options.push("--ignore".to_owned());
        options.push(accepted[i].clone());
        assert(ids.subrange(0, i + 1).drop_last() =~= ids.subrange(0, i as int));
        assert(strings_model(options@) =~= strings_model(before) + seq!["--ignore"@, accepted@[i as int]@]);
        i = i + 1;
    }
    assert(ids.subrange(0, i as int) =~= ids);
    CargoCall {
        subcommand: "audit".to_owned(),
        options,
        curdir: curdir.to_owned(),
        cargo_home: cargo_home.to_owned(),
    }
}

impl CargoCall {
    /// The arguments after the program name: the subcommand, then the options.
    pub fn arguments(&self) -> (args: Vec<String>)
        ensures
            strings_model(args@) == seq![self.subcommand@] + strings_model(self.options@),
    {
        let mut args: Vec<String> = Vec::new();
        args.push(self.subcommand.clone());
        let mut i: usize = 0;
        while i < self.options.len()
            invariant
                i <= self.options@.len(),
                strings_model(args@) =~= seq![self.subcommand@] + strings_model(
                    self.options@.subrange(0, i as int),
                ),
            decreases self.options@.len() - i,
        {
            let ghost prev = args@;
            let item = self.options[i].clone();
            args.push(item);
            assert(args@ =~= prev.push(item));
            assert(strings_model(args@) =~= strings_model(prev).push(item@));
            assert(self.options@.subrange(0, i + 1) =~= self.options@.subrange(0, i as int).push(
                self.options@[i as int],
            ));
            assert(strings_model(self.options@.subrange(0, i + 1)) =~= strings_model(
                self.options@.subrange(0, i as int),
            ).push(item@));
            i = i + 1;
        }
        assert(self.options@.subrange(0, i as int) =~= self.options@);
        args
    }
}

/// The text that `String::from_utf8_lossy` makes of `bytes`.
pub uninterp spec fn lossy_text(bytes: Seq<u8>) -> Seq<char>;

/// `String::from_utf8_lossy(bytes)` as an owned string.
///
/// Trusted: std documents that only invalid sequences are replaced, so valid
/// UTF-8 comes back decoded; that is stated, the rest is named `lossy_text`.
#[verifier::external_body]
fn utf8_lossy(bytes: &[u8]) -> (text: String)
    ensures
        text@ == lossy_text(bytes@),
        valid_utf8(bytes@) ==> text@ == decode_utf8(bytes@),
{
    String::from_utf8_lossy(bytes).into_owned()
}

/// What a finished cargo process amounts to: its standard output read as text
/// where it succeeded, else an `Interrupted` error carrying its standard error
/// read as text.
pub open spec fn outcome_model(success: bool, stdout: Seq<u8>, stderr: Seq<u8>) -> Result<
    Seq<char>,
    ErrorModel,
> {
    if success {
        Ok(lossy_text(stdout))
    } else {
        Err(ErrorModel { kind: ErrorKind::Interrupted, message: lossy_text(stderr) })
    }
}

/// Decides what a finished cargo process gives back: its output on success,
/// else the error that carries what it wrote to standard error.
pub fn command_outcome(success: bool, stdout: &[u8], stderr: &[u8]) -> (res: Result<String, VendorError>)
    ensures
        match (res, outcome_model(success, stdout@, stderr@)) {
            (Ok(s), Ok(m)) => s@ == m,
            (Err(e), Err(m)) => e@ == m,
            _ => false,
        },
        success && valid_utf8(stdout@) ==> res is Ok && res->Ok_0@ == decode_utf8(stdout@),
        !success && valid_utf8(stderr@) ==> res is Err && res->Err_0@.message == decode_utf8(
            stderr@,
        ),
{
    if success {
        Ok(utf8_lossy(stdout))
    } else {
        Err(VendorError { kind: ErrorKind::Interrupted, message: utf8_lossy(stderr) })
    }
}

} // verus!
