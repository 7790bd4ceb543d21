use vstd::prelude::*;
use crate::cargo::{
    CargoCall, CargoCallModel, cargo_fetch, cargo_generate_lockfile, cargo_update, command_outcome,
    fetch_call, generate_lockfile_call, update_call, outcome_model, strings_model,
};
use crate::cli::{ArgsModel, HomeRegistryArgs, archive_file_name, archive_name};
use crate::error::{ErrorKind, ErrorModel, VendorError};
use crate::layout::{
    DirEntryInfo, EntryModel, cleanup_count, cleanup_entry, cleanup_target, dir_in, listing_model,
    lock_name, lock_rel, lockfile_relative, manifest_dir, select_setup_workdir, setup_dir,
};
use crate::paths::{has_separator, is_inside_relative, is_relative_inside, join, joined};

verus! {

/// Where a vendoring run stands: which answer it waits for.
#[derive(Clone, Copy, Debug, PartialEq, Eq, Structural)]
pub enum Phase {
    /// The temporary directory that becomes the home registry.
    AwaitHome,
    /// The temporary directory the project is worked on in.
    AwaitWorkdir,
    /// The path the target's glob resolves to.
    AwaitGlob,
    /// Whether the target is a directory, a file, an archive of a known kind.
    AwaitInspect,
    /// The copy or unpacking of the target into the work directory.
    AwaitPopulate,
    /// The listing of the work directory.
    AwaitListing,
    /// `cargo generate-lockfile` for the project.
    AwaitRootGenerate,
    /// `cargo update` for the project.
    AwaitRootUpdate,
    /// `cargo fetch` for the project.
    AwaitRootFetch,
    /// Whether the current further manifest is a file.
    AwaitManifestIsFile,
    /// `cargo generate-lockfile` for the current further manifest.
    AwaitManifestGenerate,
    /// `cargo update` for the current further manifest.
    AwaitManifestUpdate,
    /// `cargo fetch` for the current further manifest.
    AwaitManifestFetch,
    /// Whether the current manifest's directory exists.
    AwaitParentExists,
    /// Whether a lockfile lies next to the current manifest.
    AwaitManifestLockExists,
    /// The directory for the copy of that lockfile.
    AwaitManifestLockDir,
    /// The copy of that lockfile.
    AwaitManifestLockCopy,
    /// Whether the project's own lockfile exists.
    AwaitRootLockExists,
    /// The directory for the copy of the project's lockfile.
    AwaitRootLockDir,
    /// The copy of the project's lockfile.
    AwaitRootLockCopy,
    /// The audit of the recorded lockfiles.
    AwaitAudit,
    /// Whether the current leftover of the cargo home exists.
    AwaitCleanupExists,
    /// The removal of that leftover.
    AwaitCleanupRemove,
    /// The archive of the home registry.
    AwaitArchive,
    /// The run has ended.
    Finished,
}

/// What the filesystem, a process or a helper answered to the last action.
pub enum Event {
    /// A directory was created, or a glob resolved, at this path.
    Path(String),
    /// What the target is.
    Target { is_dir: bool, is_file: bool, supported: bool },
    /// The entries of a directory.
    Listed(Vec<Result<DirEntryInfo, VendorError>>),
    /// A process ended with this status and output.
    Exited { success: bool, stdout: Vec<u8>, stderr: Vec<u8> },
    /// The answer to a yes-or-no question about a path.
    Flag(bool),
    /// The action was carried out.
    Done,
    /// The action failed with this error.
    Failed(VendorError),
}

/// The mathematical value of an [`Event`].
pub ghost enum EventModel {
    Path(Seq<char>),
    Target { is_dir: bool, is_file: bool, supported: bool },
    Listed(Seq<Result<EntryModel, ErrorModel>>),
    Exited { success: bool, stdout: Seq<u8>, stderr: Seq<u8> },
    Flag(bool),
    Done,
    Failed(ErrorModel),
}

impl View for Event {
    type V = EventModel;

    open spec fn view(&self) -> EventModel {
        match self {
            Event::Path(p) => EventModel::Path(p@),
            Event::Target { is_dir, is_file, supported } => EventModel::Target {
                is_dir: *is_dir,
                is_file: *is_file,
                supported: *supported,
            },
            Event::Listed(v) => EventModel::Listed(listing_model(v@)),
            Event::Exited { success, stdout, stderr } => EventModel::Exited {
                success: *success,
                stdout: stdout@,
                stderr: stderr@,
            },
            Event::Flag(b) => EventModel::Flag(*b),
            Event::Done => EventModel::Done,
            Event::Failed(e) => EventModel::Failed(e@),
        }
    }
}

/// What the run asks to be done next.
pub enum Action {
    /// Create a fresh temporary directory whose name starts with `prefix`
    /// and goes on with `rand_bytes` random characters; answer `Path`.
    CreateTempDir { prefix: String, rand_bytes: usize },
    /// Resolve a glob to the last path that matches it; answer `Path`.
    ResolveGlob(String),
    /// Tell whether a path is a directory, a file, an archive of a known
    /// kind; answer `Target`.
    InspectTarget(String),
    /// Copy a directory's contents into another; answer `Done`.
    CopyDir { from: String, to: String },
    /// Unpack an archive into a directory; answer `Done`.
    Extract { archive: String, outdir: String },
    /// List a directory; answer `Listed`.
    ListDir(String),
    /// Run cargo; answer `Exited`, or `Failed` where it cannot start.
    RunCargo(CargoCall),
    /// Tell whether a path is a file; answer `Flag`.
    IsFile(String),
    /// Tell whether a path exists; answer `Flag`.
    Exists(String),
    /// Create a directory and its parents; answer `Done`.
    CreateDirAll(String),
    /// Copy a file; answer `Done`.
    CopyFile { from: String, to: String },
    /// Remove a directory and what it holds; answer `Done`.
    RemoveDirAll(String),
    /// Remove a file; answer `Done`.
    RemoveFile(String),
    /// Audit the lockfiles against known advisories, accepting the risk of
    /// the advisories in `accepted`; answer `Done`, or `Failed` where an
    /// advisory not accepted applies.
    Audit { lockfiles: Vec<String>, accepted: Vec<String> },
    /// Archive the directory `target` as `outfile` in `outdir`,
    /// reproducibly; answer `Done`.
    Roast { target: String, outfile: String, outdir: String },
    /// The run is over, with this result.
    Finish(Result<(), VendorError>),
}

/// The mathematical value of an [`Action`].
pub ghost enum ActionModel {
    CreateTempDir { prefix: Seq<char>, rand_bytes: nat },
    ResolveGlob(Seq<char>),
    InspectTarget(Seq<char>),
    CopyDir { from: Seq<char>, to: Seq<char> },
    Extract { archive: Seq<char>, outdir: Seq<char> },
    ListDir(Seq<char>),
    RunCargo(CargoCallModel),
    IsFile(Seq<char>),
    Exists(Seq<char>),
    CreateDirAll(Seq<char>),
    CopyFile { from: Seq<char>, to: Seq<char> },
    RemoveDirAll(Seq<char>),
    RemoveFile(Seq<char>),
    Audit { lockfiles: Seq<Seq<char>>, accepted: Seq<Seq<char>> },
    Roast { target: Seq<char>, outfile: Seq<char>, outdir: Seq<char> },
    Finish(Result<(), ErrorModel>),
}

impl View for Action {
    type V = ActionModel;

    open spec fn view(&self) -> ActionModel {
        match self {
            Action::CreateTempDir { prefix, rand_bytes } => ActionModel::CreateTempDir {
                prefix: prefix@,
                rand_bytes: *rand_bytes as nat,
            },
            Action::ResolveGlob(p) => ActionModel::ResolveGlob(p@),
            Action::InspectTarget(p) => ActionModel::InspectTarget(p@),
            Action::CopyDir { from, to } => ActionModel::CopyDir { from: from@, to: to@ },
            Action::Extract { archive, outdir } => ActionModel::Extract {
                archive: archive@,
                outdir: outdir@,
            },
            Action::ListDir(p) => ActionModel::ListDir(p@),
            Action::RunCargo(c) => ActionModel::RunCargo(c@),
            Action::IsFile(p) => ActionModel::IsFile(p@),
            Action::Exists(p) => ActionModel::Exists(p@),
            Action::CreateDirAll(p) => ActionModel::CreateDirAll(p@),
            Action::CopyFile { from, to } => ActionModel::CopyFile { from: from@, to: to@ },
            Action::RemoveDirAll(p) => ActionModel::RemoveDirAll(p@),
            Action::RemoveFile(p) => ActionModel::RemoveFile(p@),
            Action::Audit { lockfiles, accepted } => ActionModel::Audit {
                lockfiles: strings_model(lockfiles@),
                accepted: strings_model(accepted@),
            },
            Action::Roast { target, outfile, outdir } => ActionModel::Roast {
                target: target@,
                outfile: outfile@,
                outdir: outdir@,
            },
            Action::Finish(r) => ActionModel::Finish(
                match r {
                    Ok(()) => Ok(()),
                    Err(e) => Err(e@),
                },
            ),
        }
    }
}

/// A vendoring run in progress.
pub struct VendorRun {
    args: HomeRegistryArgs,
    phase: Phase,
    home: String,
    dot_cargo: String,
    workdir: String,
    target: String,
    setup: String,
    manifest_ix: usize,
    manifest: String,
    parent: String,
    rel: String,
    lockfile: String,
    dest: String,
    lockfiles: Vec<String>,
    audited: bool,
    cleanup_ix: usize,
}

/// The mathematical value of a [`VendorRun`].
#[verifier::ext_equal]
pub ghost struct RunModel {
    pub args: ArgsModel,
    pub phase: Phase,
    /// The home registry: the directory that is archived.
    pub home: Seq<char>,
    /// The cargo home inside it.
    pub dot_cargo: Seq<char>,
    /// The directory the project is copied or unpacked into.
    pub workdir: Seq<char>,
    /// The project, as its glob resolved.
    pub target: Seq<char>,
    /// The project's top-level directory.
    pub setup: Seq<char>,
    /// The index of the current further manifest.
    pub manifest_ix: nat,
    /// The current further manifest, joined to the project.
    pub manifest: Seq<char>,
    /// Its directory.
    pub parent: Seq<char>,
    /// The lockfile being looked at, relative to the project.
    pub rel: Seq<char>,
    /// That lockfile in the project.
    pub lockfile: Seq<char>,
    /// Where that lockfile is copied to.
    pub dest: Seq<char>,
    /// The lockfiles found so far.
    pub lockfiles: Seq<Seq<char>>,
    /// Whether the audit of the lockfiles passed.
    pub audited: bool,
    /// The index of the current leftover of the cargo home.
    pub cleanup_ix: nat,
}

impl View for VendorRun {
    type V = RunModel;

    closed spec fn view(&self) -> RunModel {
        RunModel {
            args: self.args@,
            phase: self.phase,
            home: self.home@,
            dot_cargo: self.dot_cargo@,
            workdir: self.workdir@,
            target: self.target@,
            setup: self.setup@,
            manifest_ix: self.manifest_ix as nat,
            manifest: self.manifest@,
            parent: self.parent@,
            rel: self.rel@,
            lockfile: self.lockfile@,
            dest: self.dest@,
            lockfiles: strings_model(self.lockfiles@),
            audited: self.audited,
            cleanup_ix: self.cleanup_ix as nat,
        }
    }
}

/// The number of random characters in the name of a temporary directory.
pub open spec fn rand_len() -> nat {
    12
}

/// The message of a further manifest that is not a file.
pub open spec fn not_a_file_message() -> Seq<char> {
    "Path to manifest is not a file"@
}

/// The message of a further manifest given other than below the project.
pub open spec fn manifest_outside_message() -> Seq<char> {
    "Path to manifest must be relative to the project's top-level directory"@
}

/// The message of a custom root given other than below the project.
pub open spec fn root_outside_message() -> Seq<char> {
    "Custom root must be a relative path inside the project"@
}

/// Every further manifest stays below the project.
pub open spec fn manifests_inside(ms: Seq<Seq<char>>) -> bool {
    forall|i: int| 0 <= i < ms.len() ==> is_inside_relative(#[trigger] ms[i])
}

/// The message of a tag that holds a separator.
pub open spec fn tag_separator_message() -> Seq<char> {
    "Tag must not contain a path separator"@
}

/// Why the arguments are refused before anything is done, if they are: a
/// further manifest or the custom root that is absolute or whose `..`
/// components climb above the project's top-level directory, or a tag with a
/// separator, which would put the archive elsewhere than in the outdir.
pub open spec fn args_error(a: ArgsModel) -> Option<ErrorModel> {
    if !manifests_inside(a.manifest_paths) {
        Some(ErrorModel { kind: ErrorKind::InvalidInput, message: manifest_outside_message() })
    } else if a.custom_root is Some && !is_inside_relative(a.custom_root->0) {
        Some(ErrorModel { kind: ErrorKind::InvalidInput, message: root_outside_message() })
    } else if a.tag is Some && a.tag->0.contains('/') {
        Some(ErrorModel { kind: ErrorKind::InvalidInput, message: tag_separator_message() })
    } else {
        None
    }
}

/// The phases in which the run waits for a further manifest to be handled.
pub open spec fn in_manifest_loop(p: Phase) -> bool {
    ||| p == Phase::AwaitManifestIsFile
    ||| p == Phase::AwaitManifestGenerate
    ||| p == Phase::AwaitManifestUpdate
    ||| p == Phase::AwaitManifestFetch
    ||| p == Phase::AwaitParentExists
    ||| p == Phase::AwaitManifestLockExists
    ||| p == Phase::AwaitManifestLockDir
    ||| p == Phase::AwaitManifestLockCopy
}

/// The phases before the top-level directory is known.
pub open spec fn before_setup(p: Phase) -> bool {
    ||| p == Phase::AwaitHome
    ||| p == Phase::AwaitWorkdir
    ||| p == Phase::AwaitGlob
    ||| p == Phase::AwaitInspect
    ||| p == Phase::AwaitPopulate
    ||| p == Phase::AwaitListing
}

/// The phases of cargo on the top-level manifest.
pub open spec fn at_root_cargo(p: Phase) -> bool {
    ||| p == Phase::AwaitRootGenerate
    ||| p == Phase::AwaitRootUpdate
    ||| p == Phase::AwaitRootFetch
}

/// The phases that handle the project's own lockfile.
pub open spec fn at_root_lockfile(p: Phase) -> bool {
    ||| p == Phase::AwaitRootLockExists
    ||| p == Phase::AwaitRootLockDir
    ||| p == Phase::AwaitRootLockCopy
}

/// The phases after every lockfile is recorded.
pub open spec fn after_lockfiles(p: Phase) -> bool {
    ||| p == Phase::AwaitAudit
    ||| p == Phase::AwaitCleanupExists
    ||| p == Phase::AwaitCleanupRemove
    ||| p == Phase::AwaitArchive
}

/// The phases that copy a lockfile.
pub open spec fn copying_lockfile(p: Phase) -> bool {
    ||| p == Phase::AwaitManifestLockDir
    ||| p == Phase::AwaitManifestLockCopy
    ||| p == Phase::AwaitRootLockDir
    ||| p == Phase::AwaitRootLockCopy
}

impl RunModel {
    /// What holds of every run between its steps.
    pub open spec fn inv(self) -> bool {
        let m = self.args.manifest_paths.len();
        &&& self.manifest_ix <= m
        &&& self.cleanup_ix <= cleanup_count()
        &&& self.phase != Phase::Finished ==> args_error(self.args) is None
        &&& (self.phase != Phase::AwaitHome && self.phase != Phase::Finished) ==> self.dot_cargo
            == joined(self.home, ".cargo"@)
        &&& (!before_setup(self.phase) && self.phase != Phase::Finished
            && self.args.custom_root is Some) ==> self.setup == joined(
            self.workdir,
            self.args.custom_root->0,
        )
        &&& self.phase == Phase::AwaitListing ==> self.args.custom_root is None
        &&& (before_setup(self.phase) || at_root_cargo(self.phase)) ==> self.manifest_ix == 0
            && self.cleanup_ix == 0
        &&& at_root_cargo(self.phase) ==> !self.args.no_root_manifest
        &&& (self.phase == Phase::AwaitRootUpdate || self.phase == Phase::AwaitManifestUpdate)
            ==> self.args.update
        &&& in_manifest_loop(self.phase) ==> {
            &&& self.manifest_ix < m
            &&& self.cleanup_ix == 0
            &&& self.manifest == joined(self.setup, self.args.manifest_paths[self.manifest_ix as int])
        }
        &&& (self.phase == Phase::AwaitManifestLockExists || self.phase
            == Phase::AwaitManifestLockDir || self.phase == Phase::AwaitManifestLockCopy) ==> {
            &&& self.rel == lock_rel(self.args.manifest_paths[self.manifest_ix as int])
            &&& self.lockfile == joined(self.setup, self.rel)
        }
        &&& at_root_lockfile(self.phase) ==> {
            &&& self.manifest_ix == m
            &&& self.cleanup_ix == 0
            &&& !self.args.no_root_manifest
            &&& self.rel == lock_name()
            &&& self.lockfile == joined(self.setup, self.rel)
        }
        &&& copying_lockfile(self.phase) ==> self.dest == joined(self.home, self.rel)
        &&& after_lockfiles(self.phase) ==> {
            &&& self.manifest_ix == m
            &&& !self.args.no_root_manifest ==> self.lockfiles.len() > 0 && self.lockfiles.last()
                == joined(self.setup, lock_name())
        }
        &&& self.phase == Phase::AwaitAudit ==> self.cleanup_ix == 0
        &&& (self.phase == Phase::AwaitCleanupExists || self.phase == Phase::AwaitCleanupRemove
            || self.phase == Phase::AwaitArchive) ==> self.audited
        &&& (self.phase == Phase::AwaitCleanupExists || self.phase == Phase::AwaitCleanupRemove)
            ==> self.cleanup_ix < cleanup_count()
    }

    /// The same run, waiting in `phase`.
    pub open spec fn at(self, phase: Phase) -> RunModel {
        RunModel { phase, ..self }
    }
}

/// Whether `e` is an answer the run can take in `phase`: the kind of answer
/// its last action asks for, a listing never empty.
pub open spec fn accepts(phase: Phase, e: EventModel) -> bool {
    match phase {
        Phase::AwaitHome | Phase::AwaitWorkdir | Phase::AwaitGlob => e is Path || e is Failed,
        Phase::AwaitInspect => e is Target,
        Phase::AwaitListing => (e is Listed && e->Listed_0.len() > 0) || e is Failed,
        Phase::AwaitRootGenerate | Phase::AwaitRootUpdate | Phase::AwaitRootFetch
        | Phase::AwaitManifestGenerate | Phase::AwaitManifestUpdate
        | Phase::AwaitManifestFetch => e is Exited || e is Failed,
        Phase::AwaitManifestIsFile | Phase::AwaitParentExists | Phase::AwaitManifestLockExists
        | Phase::AwaitRootLockExists | Phase::AwaitCleanupExists => e is Flag,
        Phase::AwaitPopulate | Phase::AwaitManifestLockDir | Phase::AwaitManifestLockCopy
        | Phase::AwaitRootLockDir | Phase::AwaitRootLockCopy | Phase::AwaitAudit
        | Phase::AwaitCleanupRemove | Phase::AwaitArchive => e is Done || e is Failed,
        Phase::Finished => false,
    }
}

/// The state of a run that has not done anything yet.
pub open spec fn fresh(args: ArgsModel) -> RunModel {
    RunModel {
        args,
        phase: Phase::AwaitHome,
        home: seq![],
        dot_cargo: seq![],
        workdir: seq![],
        target: seq![],
        setup: seq![],
        manifest_ix: 0,
        manifest: seq![],
        parent: seq![],
        rel: seq![],
        lockfile: seq![],
        dest: seq![],
        lockfiles: seq![],
        audited: false,
        cleanup_ix: 0,
    }
}

/// The run's first step: it refuses arguments that point outside the
/// project, else it asks for the home registry's directory.
pub open spec fn initial(args: ArgsModel) -> (RunModel, ActionModel) {
    match args_error(args) {
        Some(err) => abort(fresh(args), err),
        None => (
            fresh(args),
            ActionModel::CreateTempDir { prefix: ".cargo"@, rand_bytes: rand_len() },
        ),
    }
}

/// The run ends with `e`.
pub open spec fn abort(s: RunModel, e: ErrorModel) -> (RunModel, ActionModel) {
    (s.at(Phase::Finished), ActionModel::Finish(Err(e)))
}

/// Once the top-level directory is known: cargo regenerates its lockfile, or,
/// without a top-level manifest, the further manifests are handled.
pub open spec fn start_root(s: RunModel) -> (RunModel, ActionModel) {
    if s.args.no_root_manifest {
        next_manifest(s)
    } else {
        (
            s.at(Phase::AwaitRootGenerate),
            ActionModel::RunCargo(generate_lockfile_call(s.setup, s.dot_cargo, seq![])),
        )
    }
}

/// Once the project is copied or unpacked: the custom root is the top-level
/// directory where one is given, else the work directory is listed to find
/// it.
pub open spec fn after_population(s: RunModel) -> (RunModel, ActionModel) {
    match s.args.custom_root {
        Some(c) => start_root(RunModel { setup: joined(s.workdir, c), ..s }),
        None => (s.at(Phase::AwaitListing), ActionModel::ListDir(s.workdir)),
    }
}

/// The audit of the lockfiles recorded so far.
pub open spec fn start_audit(s: RunModel) -> (RunModel, ActionModel) {
    (
        s.at(Phase::AwaitAudit),
        ActionModel::Audit { lockfiles: s.lockfiles, accepted: s.args.i_accept_the_risk },
    )
}

/// After the further manifest at `s.manifest_ix`, or once the top-level
/// manifest is fetched: the next further manifest is checked to be a file;
/// when none is left, the project's own lockfile is looked for, or, without
/// a top-level manifest, the lockfiles are audited.
pub open spec fn next_manifest(s: RunModel) -> (RunModel, ActionModel) {
    if s.manifest_ix < s.args.manifest_paths.len() {
        let manifest = joined(s.setup, s.args.manifest_paths[s.manifest_ix as int]);
        (
            RunModel { phase: Phase::AwaitManifestIsFile, manifest, ..s },
            ActionModel::IsFile(manifest),
        )
    } else if s.args.no_root_manifest {
        start_audit(s)
    } else {
        let lockfile = joined(s.setup, lock_name());
        (
            RunModel { phase: Phase::AwaitRootLockExists, rel: lock_name(), lockfile, ..s },
            ActionModel::Exists(lockfile),
        )
    }
}

/// After the leftover at `s.cleanup_ix`, or after the audit: the next
/// leftover is looked for or, when none is left, the home registry is
/// archived under its name.
pub open spec fn next_cleanup(s: RunModel) -> (RunModel, ActionModel) {
    if s.cleanup_ix < cleanup_count() {
        (s.at(Phase::AwaitCleanupExists), ActionModel::Exists(cleanup_entry(s.dot_cargo, s.cleanup_ix).0))
    } else {
        (
            s.at(Phase::AwaitArchive),
            ActionModel::Roast {
                target: s.home,
                outfile: archive_name(s.args.tag, s.args.compression),
                outdir: s.args.outdir,
            },
        )
    }
}

/// After a cargo call that ended as `e`: `then` where it succeeded, else the
/// run ends with the call's error.
pub open spec fn after_cargo(
    s: RunModel,
    e: EventModel,
    then: (RunModel, ActionModel),
) -> (RunModel, ActionModel) {
    match e {
        EventModel::Exited { success, stdout, stderr } => match outcome_model(success, stdout, stderr) {
            Ok(_) => then,
            Err(err) => abort(s, err),
        },
        EventModel::Failed(err) => abort(s, err),
        _ => then,
    }
}

/// After an action answered by `Done` or `Failed`: `then` where it was done,
/// else the run ends with its error.
pub open spec fn after_done(s: RunModel, e: EventModel, then: (RunModel, ActionModel)) -> (
    RunModel,
    ActionModel,
) {
    match e {
        EventModel::Failed(err) => abort(s, err),
        _ => then,
    }
}

/// The current further manifest, relative to the project.
pub open spec fn current_manifest(s: RunModel) -> Seq<char> {
    s.args.manifest_paths[s.manifest_ix as int]
}

/// How a run moves on from `s` when the last action was answered by `e`:
/// the run's new state and its next action.
pub open spec fn next(s: RunModel, e: EventModel) -> (RunModel, ActionModel) {
    match s.phase {
        Phase::AwaitHome => match e {
            EventModel::Path(p) => (
                RunModel {
                    phase: Phase::AwaitWorkdir,
                    home: p,
                    dot_cargo: joined(p, ".cargo"@),
                    ..s
                },
                ActionModel::CreateTempDir { prefix: ".workdir"@, rand_bytes: rand_len() },
            ),
            EventModel::Failed(err) => abort(s, err),
            _ => (s, ActionModel::Finish(Ok(()))),
        },
        Phase::AwaitWorkdir => match e {
            EventModel::Path(p) => (
                RunModel { phase: Phase::AwaitGlob, workdir: p, ..s },
                ActionModel::ResolveGlob(s.args.target),
            ),
            EventModel::Failed(err) => abort(s, err),
            _ => (s, ActionModel::Finish(Ok(()))),
        },
        Phase::AwaitGlob => match e {
            EventModel::Path(p) => (
                RunModel { phase: Phase::AwaitInspect, target: p, ..s },
                ActionModel::InspectTarget(p),
            ),
            EventModel::Failed(err) => abort(s, err),
            _ => (s, ActionModel::Finish(Ok(()))),
        },
        Phase::AwaitInspect => match e {
            EventModel::Target { is_dir, is_file, supported } => if is_dir {
                (
                    s.at(Phase::AwaitPopulate),
                    ActionModel::CopyDir { from: s.target, to: s.workdir },
                )
            } else if is_file && supported {
                (
                    s.at(Phase::AwaitPopulate),
                    ActionModel::Extract { archive: s.target, outdir: s.workdir },
                )
            } else {
                after_population(s)
            },
            _ => (s, ActionModel::Finish(Ok(()))),
        },
        Phase::AwaitPopulate => after_done(s, e, after_population(s)),
        Phase::AwaitListing => match e {
            EventModel::Listed(entries) => match setup_dir(s.workdir, entries) {
                Ok(d) => start_root(RunModel { setup: d, ..s }),
                Err(err) => abort(s, err),
            },
            EventModel::Failed(err) => abort(s, err),
            _ => (s, ActionModel::Finish(Ok(()))),
        },
        Phase::AwaitRootGenerate => after_cargo(
            s,
            e,
            if s.args.update {
                (
                    s.at(Phase::AwaitRootUpdate),
                    ActionModel::RunCargo(update_call(s.setup, s.dot_cargo, seq![])),
                )
            } else {
                (
                    s.at(Phase::AwaitRootFetch),
                    ActionModel::RunCargo(fetch_call(s.setup, s.dot_cargo, seq![])),
                )
            },
        ),
        Phase::AwaitRootUpdate => after_cargo(
            s,
            e,
            (
                s.at(Phase::AwaitRootFetch),
                ActionModel::RunCargo(fetch_call(s.setup, s.dot_cargo, seq![])),
            ),
        ),
        Phase::AwaitRootFetch => after_cargo(s, e, next_manifest(s)),
        Phase::AwaitManifestIsFile => match e {
            EventModel::Flag(true) => (
                s.at(Phase::AwaitManifestGenerate),
                ActionModel::RunCargo(generate_lockfile_call(s.setup, s.dot_cargo, s.manifest)),
            ),
            _ => abort(s, ErrorModel { kind: ErrorKind::NotFound, message: not_a_file_message() }),
        },
        Phase::AwaitManifestGenerate => after_cargo(
            s,
            e,
            if s.args.update {
                (
                    s.at(Phase::AwaitManifestUpdate),
                    ActionModel::RunCargo(update_call(s.setup, s.dot_cargo, s.manifest)),
                )
            } else {
                (
                    s.at(Phase::AwaitManifestFetch),
                    ActionModel::RunCargo(fetch_call(s.setup, s.dot_cargo, s.manifest)),
                )
            },
        ),
        Phase::AwaitManifestUpdate => after_cargo(
            s,
            e,
            (
                s.at(Phase::AwaitManifestFetch),
                ActionModel::RunCargo(fetch_call(s.setup, s.dot_cargo, s.manifest)),
            ),
        ),
        Phase::AwaitManifestFetch => {
            let dir = dir_in(s.setup, current_manifest(s));
            after_cargo(
                s,
                e,
                (
                    RunModel { phase: Phase::AwaitParentExists, parent: dir, ..s },
                    ActionModel::Exists(dir),
                ),
            )
        },
        Phase::AwaitParentExists => match e {
            EventModel::Flag(true) => {
                let rel = lock_rel(current_manifest(s));
                let lockfile = joined(s.setup, rel);
                (
                    RunModel { phase: Phase::AwaitManifestLockExists, rel, lockfile, ..s },
                    ActionModel::Exists(lockfile),
                )
            },
            _ => next_manifest(RunModel { manifest_ix: s.manifest_ix + 1, ..s }),
        },
        Phase::AwaitManifestLockExists => match e {
            EventModel::Flag(true) => (
                RunModel {
                    phase: Phase::AwaitManifestLockDir,
                    dest: joined(s.home, s.rel),
                    ..s
                },
                ActionModel::CreateDirAll(dir_in(s.home, current_manifest(s))),
            ),
            _ => next_manifest(RunModel { manifest_ix: s.manifest_ix + 1, ..s }),
        },
        Phase::AwaitManifestLockDir => after_done(
            s,
            e,
            (
                s.at(Phase::AwaitManifestLockCopy),
                ActionModel::CopyFile { from: s.lockfile, to: s.dest },
            ),
        ),
        Phase::AwaitManifestLockCopy => after_done(
            s,
            e,
            next_manifest(
                RunModel {
                    manifest_ix: s.manifest_ix + 1,
                    lockfiles: s.lockfiles.push(s.lockfile),
                    ..s
                },
            ),
        ),
        Phase::AwaitRootLockExists => match e {
            EventModel::Flag(true) => (
                RunModel { phase: Phase::AwaitRootLockDir, dest: joined(s.home, s.rel), ..s },
                ActionModel::CreateDirAll(s.home),
            ),
            _ => start_audit(RunModel { lockfiles: s.lockfiles.push(s.lockfile), ..s }),
        },
        Phase::AwaitRootLockDir => after_done(
            s,
            e,
            (
                s.at(Phase::AwaitRootLockCopy),
                ActionModel::CopyFile { from: s.lockfile, to: s.dest },
            ),
        ),
        Phase::AwaitRootLockCopy => after_done(
            s,
            e,
            start_audit(RunModel { lockfiles: s.lockfiles.push(s.lockfile), ..s }),
        ),
        Phase::AwaitAudit => after_done(s, e, next_cleanup(RunModel { audited: true, ..s })),
        Phase::AwaitCleanupExists => match e {
            EventModel::Flag(true) => {
                let (path, is_dir) = cleanup_entry(s.dot_cargo, s.cleanup_ix);
                (
                    s.at(Phase::AwaitCleanupRemove),
                    if is_dir {
                        ActionModel::RemoveDirAll(path)
                    } else {
                        ActionModel::RemoveFile(path)
                    },
                )
            },
            _ => next_cleanup(RunModel { cleanup_ix: s.cleanup_ix + 1, ..s }),
        },
        Phase::AwaitCleanupRemove => after_done(
            s,
            e,
            next_cleanup(RunModel { cleanup_ix: s.cleanup_ix + 1, ..s }),
        ),
        Phase::AwaitArchive => after_done(
            s,
            e,
            (s.at(Phase::Finished), ActionModel::Finish(Ok(()))),
        ),
        Phase::Finished => (s, ActionModel::Finish(Ok(()))),
    }
}


/// Whether a cargo call that ended as `e` failed, and with which error.
fn cargo_failure(e: Event) -> (res: Option<VendorError>)
    requires
        e is Exited || e is Failed,
    ensures
        match e@ {
            EventModel::Exited { success, stdout, stderr } => match outcome_model(success, stdout, stderr) {
                Ok(_) => res is None,
                Err(m) => res is Some && res.unwrap()@ == m,
            },
            EventModel::Failed(m) => res is Some && res.unwrap()@ == m,
            _ => false,
        },
{
    match e {
        Event::Exited { success, stdout, stderr } => match command_outcome(
            success,
            stdout.as_slice(),
            stderr.as_slice(),
        ) {
            Ok(_) => None,
            Err(err) => Some(err),
        },
        Event::Failed(err) => Some(err),
        _ => {
            assert(false);
            None
        },
    }
}

/// A copy of a list of strings.
fn copy_strings(v: &Vec<String>) -> (res: Vec<String>)
    ensures
        strings_model(res@) == strings_model(v@),
{
    let mut res: Vec<String> = Vec::new();
    let mut i: usize = 0;
    while i < v.len()
        invariant
            i <= v@.len(),
            strings_model(res@) == strings_model(v@.subrange(0, i as int)),
        decreases v@.len() - i,
    {
        let item = v[i].clone();
        let ghost prev = res@;
        res.push(item);
        assert(res@ =~= prev.push(item));
        assert(strings_model(res@) =~= strings_model(prev).push(item@));
        assert(v@.subrange(0, i + 1) =~= v@.subrange(0, i as int).push(v@[i as int]));
        assert(strings_model(v@.subrange(0, i + 1)) =~= strings_model(v@.subrange(0, i as int)).push(
            item@,
        ));
        i = i + 1;
    }
    assert(v@.subrange(0, i as int) =~= v@);
    res
}

/// Why `args` are refused before the run starts, if they are.
fn check_args(args: &HomeRegistryArgs) -> (res: Option<VendorError>)
    ensures
        match args_error(args@) {
            None => res is None,
            Some(m) => res is Some && res.unwrap()@ == m,
        },
{
    let mut i: usize = 0;
    while i < args.manifest_paths.len()
        invariant
            i <= args.manifest_paths@.len(),
            forall|j: int| 0 <= j < i ==> is_inside_relative(#[trigger] args@.manifest_paths[j]),
        decreases args.manifest_paths@.len() - i,
    {
        if !is_relative_inside(args.manifest_paths[i].as_str()) {
            assert(!is_inside_relative(args@.manifest_paths[i as int]));
            return Some(
                VendorError::new(
                    ErrorKind::InvalidInput,
                    "Path to manifest must be relative to the project's top-level directory",
                ),
            );
        }
        i = i + 1;
    }
    assert(manifests_inside(args@.manifest_paths));
    match &args.custom_root {
        Some(c) => {
            if !is_relative_inside(c.as_str()) {
                return Some(
                    VendorError::new(
                        ErrorKind::InvalidInput,
                        "Custom root must be a relative path inside the project",
                    ),
                );
            }
        },
        None => {},
    }
    match &args.tag {
        Some(t) => {
            if has_separator(t.as_str()) {
                return Some(
                    VendorError::new(ErrorKind::InvalidInput, "Tag must not contain a path separator"),
                );
            }
        },
        None => {},
    }
    None
}

impl VendorRun {
    /// Starts a run for `args`: the run and its first action, which ends the
    /// run where a further manifest or the custom root points outside the
    /// project.
    pub fn new(args: HomeRegistryArgs) -> (res: (VendorRun, Action))
        ensures
            (res.0@, res.1@) == initial(args@),
            res.0@.inv(),
    {
        let err = check_args(&args);
        let mut run = VendorRun {
            args,
            phase: Phase::AwaitHome,
            home: String::new(),
            dot_cargo: String::new(),
            workdir: String::new(),
            target: String::new(),
            setup: String::new(),
            manifest_ix: 0,
            manifest: String::new(),
            parent: String::new(),
            rel: String::new(),
            lockfile: String::new(),
            dest: String::new(),
            lockfiles: Vec::new(),
            audited: false,
            cleanup_ix: 0,
        };
        assert(strings_model(run.lockfiles@) =~= seq![]);
        assert(run@ =~= fresh(run.args@));
        match err {
            Some(e) => {
                run.phase = Phase::Finished;
                (run, Action::Finish(Err(e)))
            },
            None => (run, Action::CreateTempDir { prefix: ".cargo".to_owned(), rand_bytes: 12 }),
        }
    }

    /// Whether the run can take `event` as the answer to its last action.
    pub fn accepts_event(&self, event: &Event) -> (ok: bool)
        ensures
            ok == accepts(self@.phase, event@),
    {
        match self.phase {
            Phase::AwaitHome | Phase::AwaitWorkdir | Phase::AwaitGlob => match event {
                Event::Path(_) | Event::Failed(_) => true,
                _ => false,
            },
            Phase::AwaitInspect => match event {
                Event::Target { .. } => true,
                _ => false,
            },
            Phase::AwaitListing => match event {
                Event::Listed(v) => v.len() > 0,
                Event::Failed(_) => true,
                _ => false,
            },
            Phase::AwaitRootGenerate | Phase::AwaitRootUpdate | Phase::AwaitRootFetch
            | Phase::AwaitManifestGenerate | Phase::AwaitManifestUpdate
            | Phase::AwaitManifestFetch => match event {
                Event::Exited { .. } | Event::Failed(_) => true,
                _ => false,
            },
            Phase::AwaitManifestIsFile | Phase::AwaitParentExists | Phase::AwaitManifestLockExists
            | Phase::AwaitRootLockExists | Phase::AwaitCleanupExists => match event {
                Event::Flag(_) => true,
                _ => false,
            },
            Phase::AwaitPopulate | Phase::AwaitManifestLockDir | Phase::AwaitManifestLockCopy
            | Phase::AwaitRootLockDir | Phase::AwaitRootLockCopy | Phase::AwaitAudit
            | Phase::AwaitCleanupRemove | Phase::AwaitArchive => match event {
                Event::Done | Event::Failed(_) => true,
                _ => false,
            },
            Phase::Finished => false,
        }
    }

    /// The phase the run is in.
    pub fn phase(&self) -> (p: Phase)
        ensures
            p == self@.phase,
    {
        self.phase
    }

    /// The lockfiles the run has found so far, the project's own last.
    pub fn lockfiles(&self) -> (v: &Vec<String>)
        ensures
            strings_model(v@) == self@.lockfiles,
    {
        &self.lockfiles
    }

    /// The home registry the run archives.
    pub fn home(&self) -> (h: &str)
        ensures
            h@ == self@.home,
    {
        self.home.as_str()
    }

    /// The project's top-level directory, once it is known.
    pub fn setup_workdir(&self) -> (d: &str)
        ensures
            d@ == self@.setup,
    {
        self.setup.as_str()
    }

    fn abort_with(&mut self, err: VendorError) -> (a: Action)
        ensures
            (final(self)@, a@) == abort(old(self)@, err@),
    {
        self.phase = Phase::Finished;
        Action::Finish(Err(err))
    }

    fn start_audit_exec(&mut self) -> (a: Action)
        ensures
            (final(self)@, a@) == start_audit(old(self)@),
    {
        let lockfiles = copy_strings(&self.lockfiles);
        let accepted = copy_strings(&self.args.i_accept_the_risk);
        self.phase = Phase::AwaitAudit;
        Action::Audit { lockfiles, accepted }
    }

    fn advance_manifest(&mut self) -> (a: Action)
        requires
            old(self)@.manifest_ix <= old(self)@.args.manifest_paths.len(),
        ensures
            (final(self)@, a@) == next_manifest(old(self)@),
    {
        if self.manifest_ix < self.args.manifest_paths.len() {
            let manifest = join(self.setup.as_str(), self.args.manifest_paths[self.manifest_ix].as_str());
            self.manifest = manifest.clone();
            self.phase = Phase::AwaitManifestIsFile;
            Action::IsFile(manifest)
        } else if self.args.no_root_manifest {
            self.start_audit_exec()
        } else {
            proof {
                reveal_strlit("Cargo.lock");
            }
            let lockfile = join(self.setup.as_str(), "Cargo.lock");
            self.rel = "Cargo.lock".to_owned();
            self.lockfile = lockfile.clone();
            self.phase = Phase::AwaitRootLockExists;
            Action::Exists(lockfile)
        }
    }

    fn start_root_exec(&mut self) -> (a: Action)
        requires
            old(self)@.manifest_ix <= old(self)@.args.manifest_paths.len(),
        ensures
            (final(self)@, a@) == start_root(old(self)@),
    {
        if self.args.no_root_manifest {
            self.advance_manifest()
        } else {
            let call = cargo_generate_lockfile(self.setup.as_str(), self.dot_cargo.as_str(), "");
            proof {
                reveal_strlit("");
            }
            self.phase = Phase::AwaitRootGenerate;
            Action::RunCargo(call)
        }
    }

    fn after_population_exec(&mut self) -> (a: Action)
        requires
            old(self)@.manifest_ix <= old(self)@.args.manifest_paths.len(),
        ensures
            (final(self)@, a@) == after_population(old(self)@),
    {
        let custom = match &self.args.custom_root {
            Some(c) => Some(join(self.workdir.as_str(), c.as_str())),
            None => None,
        };
        match custom {
            Some(setup) => {
                self.setup = setup;
                self.start_root_exec()
            },
            None => {
                self.phase = Phase::AwaitListing;
                Action::ListDir(self.workdir.clone())
            },
        }
    }

    fn advance_cleanup(&mut self) -> (a: Action)
        requires
            old(self)@.cleanup_ix <= cleanup_count(),
        ensures
            (final(self)@, a@) == next_cleanup(old(self)@),
    {
        if self.cleanup_ix < 5 {
            let (path, _) = cleanup_target(self.dot_cargo.as_str(), self.cleanup_ix);
            self.phase = Phase::AwaitCleanupExists;
            Action::Exists(path)
        } else {
            let name = archive_file_name(&self.args.tag, self.args.compression);
            self.phase = Phase::AwaitArchive;
            Action::Roast { target: self.home.clone(), outfile: name, outdir: self.args.outdir.clone() }
        }
    }

    fn record_lockfile(&mut self)
        ensures
            final(self)@ == (RunModel { lockfiles: old(self)@.lockfiles.push(old(self)@.lockfile), ..old(self)@ }),
    {
        let ghost before = self.lockfiles@;
        let lockfile = self.lockfile.clone();
        self.lockfiles.push(lockfile);
        assert(self.lockfiles@ =~= before.push(lockfile));
        assert(strings_model(self.lockfiles@) =~= strings_model(before).push(lockfile@));
    }

    fn next_manifest_ix(&mut self)
        requires
            old(self)@.manifest_ix < old(self)@.args.manifest_paths.len(),
        ensures
            final(self)@ == (RunModel { manifest_ix: old(self)@.manifest_ix + 1, ..old(self)@ }),
    {
        let count = self.args.manifest_paths.len();
        assert(self.manifest_ix < count);
        self.manifest_ix = self.manifest_ix + 1;
    }

    /// Moves the run on with the answer `event` to its last action: the run
    /// takes its next state and gives its next action.
    pub fn step(&mut self, event: Event) -> (action: Action)
        requires
            old(self)@.inv(),
            accepts(old(self)@.phase, event@),
        ensures
            (final(self)@, action@) == next(old(self)@, event@),
            final(self)@.inv(),
    {
        let ghost s0 = self@;
        let ghost e0 = event@;
        let a = match self.phase {
            Phase::AwaitHome => self.on_home(event),
            Phase::AwaitWorkdir => self.on_workdir(event),
            Phase::AwaitGlob => self.on_glob(event),
            Phase::AwaitInspect => self.on_inspect(event),
            Phase::AwaitPopulate => self.on_populate(event),
            Phase::AwaitListing => self.on_listing(event),
            Phase::AwaitRootGenerate => self.on_root_generate(event),
            Phase::AwaitRootUpdate => self.on_root_update(event),
            Phase::AwaitRootFetch => self.on_root_fetch(event),
            Phase::AwaitManifestIsFile => self.on_manifest_is_file(event),
            Phase::AwaitManifestGenerate => self.on_manifest_generate(event),
            Phase::AwaitManifestUpdate => self.on_manifest_update(event),
            Phase::AwaitManifestFetch => self.on_manifest_fetch(event),
            Phase::AwaitParentExists => self.on_parent_exists(event),
            Phase::AwaitManifestLockExists => self.on_manifest_lock_exists(event),
            Phase::AwaitManifestLockDir => self.on_manifest_lock_dir(event),
            Phase::AwaitManifestLockCopy => self.on_manifest_lock_copy(event),
            Phase::AwaitRootLockExists => self.on_root_lock_exists(event),
            Phase::AwaitRootLockDir => self.on_root_lock_dir(event),
            Phase::AwaitRootLockCopy => self.on_root_lock_copy(event),
            Phase::AwaitAudit => self.on_audit(event),
            Phase::AwaitCleanupExists => self.on_cleanup_exists(event),
            Phase::AwaitCleanupRemove => self.on_cleanup_remove(event),
            Phase::AwaitArchive => self.on_archive(event),
            Phase::Finished => {
                assert(false);
                Action::Finish(Ok(()))
            },
        };
        proof {
            crate::laws::next_keeps_inv(s0, e0);
        }
        a
    }
}

impl VendorRun {
    /// The home registry's directory was created.
    fn on_home(&mut self, event: Event) -> (a: Action)
        requires
            old(self)@.phase == Phase::AwaitHome,
            old(self)@.inv(),
            accepts(Phase::AwaitHome, event@),
        ensures
            (final(self)@, a@) == next(old(self)@, event@),
    {
        match event {
            Event::Path(p) => {
                self.dot_cargo = join(p.as_str(), ".cargo");
                self.home = p;
                self.phase = Phase::AwaitWorkdir;
                Action::CreateTempDir { prefix: ".workdir".to_owned(), rand_bytes: 12 }
            },
            Event::Failed(err) => self.abort_with(err),
            _ => {
                assert(false);
                Action::Finish(Ok(()))
            },
        }
    }

    /// The work directory was created.
    fn on_workdir(&mut self, event: Event) -> (a: Action)
        requires
            old(self)@.phase == Phase::AwaitWorkdir,
            old(self)@.inv(),
            accepts(Phase::AwaitWorkdir, event@),
        ensures
            (final(self)@, a@) == next(old(self)@, event@),
    {
        match event {
            Event::Path(p) => {
                self.workdir = p;
                self.phase = Phase::AwaitGlob;
                Action::ResolveGlob(self.args.target.clone())
            },
            Event::Failed(err) => self.abort_with(err),
            _ => {
                assert(false);
                Action::Finish(Ok(()))
            },
        }
    }

    /// The target's glob resolved.
    fn on_glob(&mut self, event: Event) -> (a: Action)
        requires
            old(self)@.phase == Phase::AwaitGlob,
            old(self)@.inv(),
            accepts(Phase::AwaitGlob, event@),
        ensures
            (final(self)@, a@) == next(old(self)@, event@),
    {
        match event {
            Event::Path(p) => {
                self.target = p.clone();
                self.phase = Phase::AwaitInspect;
                Action::InspectTarget(p)
            },
            Event::Failed(err) => self.abort_with(err),
            _ => {
                assert(false);
                Action::Finish(Ok(()))
            },
        }
    }

    /// The target was inspected.
    fn on_inspect(&mut self, event: Event) -> (a: Action)
        requires
            old(self)@.phase == Phase::AwaitInspect,
            old(self)@.inv(),
            accepts(Phase::AwaitInspect, event@),
        ensures
            (final(self)@, a@) == next(old(self)@, event@),
    {
        match event {
            Event::Target { is_dir, is_file, supported } => {
                if is_dir {
                    self.phase = Phase::AwaitPopulate;
                    Action::CopyDir { from: self.target.clone(), to: self.workdir.clone() }
                } else if is_file && supported {
                    self.phase = Phase::AwaitPopulate;
                    Action::Extract { archive: self.target.clone(), outdir: self.workdir.clone() }
                } else {
                    self.after_population_exec()
                }
            },
            _ => {
                assert(false);
                Action::Finish(Ok(()))
            },
        }
    }

    /// The target was copied or unpacked.
    fn on_populate(&mut self, event: Event) -> (a: Action)
        requires
            old(self)@.phase == Phase::AwaitPopulate,
            old(self)@.inv(),
            accepts(Phase::AwaitPopulate, event@),
        ensures
            (final(self)@, a@) == next(old(self)@, event@),
    {
        match event {
            Event::Failed(err) => self.abort_with(err),
            _ => self.after_population_exec(),
        }
    }

    /// The work directory was listed.
    fn on_listing(&mut self, event: Event) -> (a: Action)
        requires
            old(self)@.phase == Phase::AwaitListing,
            old(self)@.inv(),
            accepts(Phase::AwaitListing, event@),
        ensures
            (final(self)@, a@) == next(old(self)@, event@),
    {
        match event {
            Event::Listed(entries) => match select_setup_workdir(self.workdir.as_str(), entries) {
                Ok(d) => {
                    self.setup = d;
                    self.start_root_exec()
                },
                Err(err) => self.abort_with(err),
            },
            Event::Failed(err) => self.abort_with(err),
            _ => {
                assert(false);
                Action::Finish(Ok(()))
            },
        }
    }

    /// The project's lockfile was generated.
    fn on_root_generate(&mut self, event: Event) -> (a: Action)
        requires
            old(self)@.phase == Phase::AwaitRootGenerate,
            old(self)@.inv(),
            accepts(Phase::AwaitRootGenerate, event@),
        ensures
            (final(self)@, a@) == next(old(self)@, event@),
    {
        match cargo_failure(event) {
            Some(err) => self.abort_with(err),
            None => {
                proof {
                    reveal_strlit("");
                }
                if self.args.update {
                    let call = cargo_update(self.setup.as_str(), self.dot_cargo.as_str(), "");
                    self.phase = Phase::AwaitRootUpdate;
                    Action::RunCargo(call)
                } else {
                    let call = cargo_fetch(self.setup.as_str(), self.dot_cargo.as_str(), "");
                    self.phase = Phase::AwaitRootFetch;
                    Action::RunCargo(call)
                }
            },
        }
    }

    /// The project's lockfile was updated.
    fn on_root_update(&mut self, event: Event) -> (a: Action)
        requires
            old(self)@.phase == Phase::AwaitRootUpdate,
            old(self)@.inv(),
            accepts(Phase::AwaitRootUpdate, event@),
        ensures
            (final(self)@, a@) == next(old(self)@, event@),
    {
        match cargo_failure(event) {
            Some(err) => self.abort_with(err),
            None => {
                proof {
                    reveal_strlit("");
                }
                let call = cargo_fetch(self.setup.as_str(), self.dot_cargo.as_str(), "");
                self.phase = Phase::AwaitRootFetch;
                Action::RunCargo(call)
            },
        }
    }

    /// The project's dependencies were fetched.
    fn on_root_fetch(&mut self, event: Event) -> (a: Action)
        requires
            old(self)@.phase == Phase::AwaitRootFetch,
            old(self)@.inv(),
            accepts(Phase::AwaitRootFetch, event@),
        ensures
            (final(self)@, a@) == next(old(self)@, event@),
    {
        match cargo_failure(event) {
            Some(err) => self.abort_with(err),
            None => self.advance_manifest(),
        }
    }

    /// A further manifest was checked to be a file.
    fn on_manifest_is_file(&mut self, event: Event) -> (a: Action)
        requires
            old(self)@.phase == Phase::AwaitManifestIsFile,
            old(self)@.inv(),
            accepts(Phase::AwaitManifestIsFile, event@),
        ensures
            (final(self)@, a@) == next(old(self)@, event@),
    {
        match event {
            Event::Flag(true) => {
                let call = cargo_generate_lockfile(
                    self.setup.as_str(),
                    self.dot_cargo.as_str(),
                    self.manifest.as_str(),
                );
                self.phase = Phase::AwaitManifestGenerate;
                Action::RunCargo(call)
            },
            _ => self.abort_with(VendorError::new(ErrorKind::NotFound, "Path to manifest is not a file")),
        }
    }

    /// A further manifest's lockfile was generated.
    fn on_manifest_generate(&mut self, event: Event) -> (a: Action)
        requires
            old(self)@.phase == Phase::AwaitManifestGenerate,
            old(self)@.inv(),
            accepts(Phase::AwaitManifestGenerate, event@),
        ensures
            (final(self)@, a@) == next(old(self)@, event@),
    {
        match cargo_failure(event) {
            Some(err) => self.abort_with(err),
            None => {
                if self.args.update {
                    let call = cargo_update(
                        self.setup.as_str(),
                        self.dot_cargo.as_str(),
                        self.manifest.as_str(),
                    );
                    self.phase = Phase::AwaitManifestUpdate;
                    Action::RunCargo(call)
                } else {
                    let call = cargo_fetch(
                        self.setup.as_str(),
                        self.dot_cargo.as_str(),
                        self.manifest.as_str(),
                    );
                    self.phase = Phase::AwaitManifestFetch;
                    Action::RunCargo(call)
                }
            },
        }
    }

    /// A further manifest's lockfile was updated.
    fn on_manifest_update(&mut self, event: Event) -> (a: Action)
        requires
            old(self)@.phase == Phase::AwaitManifestUpdate,
            old(self)@.inv(),
            accepts(Phase::AwaitManifestUpdate, event@),
        ensures
            (final(self)@, a@) == next(old(self)@, event@),
    {
        match cargo_failure(event) {
            Some(err) => self.abort_with(err),
            None => {
                let call = cargo_fetch(
                    self.setup.as_str(),
                    self.dot_cargo.as_str(),
                    self.manifest.as_str(),
                );
                self.phase = Phase::AwaitManifestFetch;
                Action::RunCargo(call)
            },
        }
    }

    /// A further manifest's dependencies were fetched.
    fn on_manifest_fetch(&mut self, event: Event) -> (a: Action)
        requires
            old(self)@.phase == Phase::AwaitManifestFetch,
            old(self)@.inv(),
            accepts(Phase::AwaitManifestFetch, event@),
        ensures
            (final(self)@, a@) == next(old(self)@, event@),
    {
        match cargo_failure(event) {
            Some(err) => self.abort_with(err),
            None => {
                let count = self.args.manifest_paths.len();
                assert(self.manifest_ix < count);
                let dir = manifest_dir(self.setup.as_str(), self.args.manifest_paths[self.manifest_ix].as_str());
                self.parent = dir.clone();
                self.phase = Phase::AwaitParentExists;
                Action::Exists(dir)
            },
        }
    }

    /// A further manifest's directory was looked for.
    fn on_parent_exists(&mut self, event: Event) -> (a: Action)
        requires
            old(self)@.phase == Phase::AwaitParentExists,
            old(self)@.inv(),
            accepts(Phase::AwaitParentExists, event@),
        ensures
            (final(self)@, a@) == next(old(self)@, event@),
    {
        match event {
            Event::Flag(true) => {
                let count = self.args.manifest_paths.len();
                assert(self.manifest_ix < count);
                let rel = lockfile_relative(self.args.manifest_paths[self.manifest_ix].as_str());
                let lockfile = join(self.setup.as_str(), rel.as_str());
                self.rel = rel;
                self.lockfile = lockfile.clone();
                self.phase = Phase::AwaitManifestLockExists;
                Action::Exists(lockfile)
            },
            _ => {
                self.next_manifest_ix();
                self.advance_manifest()
            },
        }
    }

    /// A further manifest's lockfile was looked for.
    fn on_manifest_lock_exists(&mut self, event: Event) -> (a: Action)
        requires
            old(self)@.phase == Phase::AwaitManifestLockExists,
            old(self)@.inv(),
            accepts(Phase::AwaitManifestLockExists, event@),
        ensures
            (final(self)@, a@) == next(old(self)@, event@),
    {
        match event {
            Event::Flag(true) => {
                let count = self.args.manifest_paths.len();
                assert(self.manifest_ix < count);
                let dir = manifest_dir(self.home.as_str(), self.args.manifest_paths[self.manifest_ix].as_str());
                self.dest = join(self.home.as_str(), self.rel.as_str());
                self.phase = Phase::AwaitManifestLockDir;
                Action::CreateDirAll(dir)
            },
            _ => {
                self.next_manifest_ix();
                self.advance_manifest()
            },
        }
    }

    /// The directory for a further lockfile was created.
    fn on_manifest_lock_dir(&mut self, event: Event) -> (a: Action)
        requires
            old(self)@.phase == Phase::AwaitManifestLockDir,
            old(self)@.inv(),
            accepts(Phase::AwaitManifestLockDir, event@),
        ensures
            (final(self)@, a@) == next(old(self)@, event@),
    {
        match event {
            Event::Failed(err) => self.abort_with(err),
            _ => {
                self.phase = Phase::AwaitManifestLockCopy;
                Action::CopyFile { from: self.lockfile.clone(), to: self.dest.clone() }
            },
        }
    }

    /// A further lockfile was copied.
    fn on_manifest_lock_copy(&mut self, event: Event) -> (a: Action)
        requires
            old(self)@.phase == Phase::AwaitManifestLockCopy,
            old(self)@.inv(),
            accepts(Phase::AwaitManifestLockCopy, event@),
        ensures
            (final(self)@, a@) == next(old(self)@, event@),
    {
        match event {
            Event::Failed(err) => self.abort_with(err),
            _ => {
                self.record_lockfile();
                self.next_manifest_ix();
                self.advance_manifest()
            },
        }
    }

    /// The project's lockfile was looked for.
    fn on_root_lock_exists(&mut self, event: Event) -> (a: Action)
        requires
            old(self)@.phase == Phase::AwaitRootLockExists,
            old(self)@.inv(),
            accepts(Phase::AwaitRootLockExists, event@),
        ensures
            (final(self)@, a@) == next(old(self)@, event@),
    {
        match event {
            Event::Flag(true) => {
                self.dest = join(self.home.as_str(), self.rel.as_str());
                self.phase = Phase::AwaitRootLockDir;
                Action::CreateDirAll(self.home.clone())
            },
            _ => {
                self.record_lockfile();
                self.start_audit_exec()
            },
        }
    }

    /// The directory for the project's lockfile was created.
    fn on_root_lock_dir(&mut self, event: Event) -> (a: Action)
        requires
            old(self)@.phase == Phase::AwaitRootLockDir,
            old(self)@.inv(),
            accepts(Phase::AwaitRootLockDir, event@),
        ensures
            (final(self)@, a@) == next(old(self)@, event@),
    {
        match event {
            Event::Failed(err) => self.abort_with(err),
            _ => {
                self.phase = Phase::AwaitRootLockCopy;
                Action::CopyFile { from: self.lockfile.clone(), to: self.dest.clone() }
            },
        }
    }

    /// The project's lockfile was copied.
    fn on_root_lock_copy(&mut self, event: Event) -> (a: Action)
        requires
            old(self)@.phase == Phase::AwaitRootLockCopy,
            old(self)@.inv(),
            accepts(Phase::AwaitRootLockCopy, event@),
        ensures
            (final(self)@, a@) == next(old(self)@, event@),
    {
        match event {
            Event::Failed(err) => self.abort_with(err),
            _ => {
                self.record_lockfile();
                self.start_audit_exec()
            },
        }
    }

    /// The lockfiles were audited.
    fn on_audit(&mut self, event: Event) -> (a: Action)
        requires
            old(self)@.phase == Phase::AwaitAudit,
            old(self)@.inv(),
            accepts(Phase::AwaitAudit, event@),
        ensures
            (final(self)@, a@) == next(old(self)@, event@),
    {
        match event {
            Event::Failed(err) => self.abort_with(err),
            _ => {
                self.audited = true;
                self.advance_cleanup()
            },
        }
    }

    /// A leftover of the cargo home was looked for.
    fn on_cleanup_exists(&mut self, event: Event) -> (a: Action)
        requires
            old(self)@.phase == Phase::AwaitCleanupExists,
            old(self)@.inv(),
            accepts(Phase::AwaitCleanupExists, event@),
        ensures
            (final(self)@, a@) == next(old(self)@, event@),
    {
        match event {
            Event::Flag(true) => {
                let (path, is_dir) = cleanup_target(self.dot_cargo.as_str(), self.cleanup_ix);
                self.phase = Phase::AwaitCleanupRemove;
                if is_dir {
                    Action::RemoveDirAll(path)
                } else {
                    Action::RemoveFile(path)
                }
            },
            _ => {
                self.cleanup_ix = self.cleanup_ix + 1;
                self.advance_cleanup()
            },
        }
    }

    /// A leftover of the cargo home was removed.
    fn on_cleanup_remove(&mut self, event: Event) -> (a: Action)
        requires
            old(self)@.phase == Phase::AwaitCleanupRemove,
            old(self)@.inv(),
            accepts(Phase::AwaitCleanupRemove, event@),
        ensures
            (final(self)@, a@) == next(old(self)@, event@),
    {
        match event {
            Event::Failed(err) => self.abort_with(err),
            _ => {
                self.cleanup_ix = self.cleanup_ix + 1;
                self.advance_cleanup()
            },
        }
    }

    /// The home registry was archived.
    fn on_archive(&mut self, event: Event) -> (a: Action)
        requires
            old(self)@.phase == Phase::AwaitArchive,
            old(self)@.inv(),
            accepts(Phase::AwaitArchive, event@),
        ensures
            (final(self)@, a@) == next(old(self)@, event@),
    {
        match event {
            Event::Failed(err) => self.abort_with(err),
            _ => {
                self.phase = Phase::Finished;
                Action::Finish(Ok(()))
            },
        }
    }
}

} // verus!
