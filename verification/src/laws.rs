use vstd::prelude::*;
use crate::cargo::{
    CargoCallModel, audit_call_model, fetch_call, generate_lockfile_call, ignore_options, lossy_text,
    manifest_options, outcome_model, update_call,
};
use crate::cli::{ArgsModel, Compression, archive_name, archive_stem, extension_of};
use crate::error::{ErrorKind, ErrorModel};
use crate::layout::{
    EntryModel, dir_in, setup_dir, cleanup_count, cleanup_entry, dir_of, lemma_lock_name_inside, lemma_lock_rel_inside, lock_name,
    lock_rel,
};
use crate::paths::{
    dir_len, is_below, is_inside_relative, joined, lemma_append_component, lemma_append_name, lemma_dir_len, lemma_dir_len_at,
    depth, lemma_joined_assoc, lemma_name_inside, never_climbs_out, step_of,
};
use crate::run::{
    ActionModel, EventModel, Phase, RunModel, abort, accepts, args_error, before_setup, initial,
    manifest_outside_message, next, not_a_file_message, root_outside_message, tag_separator_message,
};

verus! {

/// Every step keeps what holds of a run between its steps.
pub proof fn next_keeps_inv(s: RunModel, e: EventModel)
    requires
        s.inv(),
        accepts(s.phase, e),
    ensures
        next(s, e).0.inv(),
{
    match s.phase {
        Phase::AwaitHome => {},
        Phase::AwaitWorkdir => {},
        Phase::AwaitGlob => {},
        Phase::AwaitInspect => {},
        Phase::AwaitPopulate => {},
        Phase::AwaitListing => {},
        Phase::AwaitRootGenerate => {},
        Phase::AwaitRootUpdate => {},
        Phase::AwaitRootFetch => {},
        Phase::AwaitManifestIsFile => {},
        Phase::AwaitManifestGenerate => {},
        Phase::AwaitManifestUpdate => {},
        Phase::AwaitManifestFetch => {},
        Phase::AwaitParentExists => {},
        Phase::AwaitManifestLockExists => {},
        Phase::AwaitManifestLockDir => {},
        Phase::AwaitManifestLockCopy => {},
        Phase::AwaitRootLockExists => {},
        Phase::AwaitRootLockDir => {},
        Phase::AwaitRootLockCopy => {},
        Phase::AwaitAudit => {},
        Phase::AwaitCleanupExists => {},
        Phase::AwaitCleanupRemove => {},
        Phase::AwaitArchive => {},
        Phase::Finished => {},
    }
}

/// A run starts in the state that holds between steps: waiting for its home
/// registry, or already finished where its arguments are refused.
pub proof fn initial_inv(args: ArgsModel)
    ensures
        initial(args).0.inv(),
        args_error(args) is None ==> initial(args).0.phase == Phase::AwaitHome,
        args_error(args) is Some ==> initial(args).0.phase == Phase::Finished,
{
}

/// A run refuses its arguments before anything is done, with an
/// `InvalidInput` error, exactly where a further manifest or the custom root
/// is absolute or climbs above the project with `..`, or the tag holds a
/// separator; the manifests are checked first, then the custom root, then
/// the tag.
pub proof fn paths_outside_project_are_refused(args: ArgsModel)
    ensures
        initial(args).0.phase == Phase::Finished <==> ((exists|i: int|
            0 <= i < args.manifest_paths.len() && !is_inside_relative(
                #[trigger] args.manifest_paths[i],
            )) || (args.custom_root is Some && !is_inside_relative(args.custom_root->0)) || (
        args.tag is Some && args.tag->0.contains('/'))),
        (exists|i: int|
            0 <= i < args.manifest_paths.len() && !is_inside_relative(
                #[trigger] args.manifest_paths[i],
            )) ==> initial(args).1 == ActionModel::Finish(
            Err(ErrorModel { kind: ErrorKind::InvalidInput, message: manifest_outside_message() }),
        ),
        (forall|i: int|
            0 <= i < args.manifest_paths.len() ==> is_inside_relative(
                #[trigger] args.manifest_paths[i],
            )) && args.custom_root is Some && !is_inside_relative(args.custom_root->0)
            ==> initial(args).1 == ActionModel::Finish(
            Err(ErrorModel { kind: ErrorKind::InvalidInput, message: root_outside_message() }),
        ),
        (forall|i: int|
            0 <= i < args.manifest_paths.len() ==> is_inside_relative(
                #[trigger] args.manifest_paths[i],
            )) && (args.custom_root is Some ==> is_inside_relative(args.custom_root->0))
            && args.tag is Some && args.tag->0.contains('/') ==> initial(args).1
            == ActionModel::Finish(
            Err(ErrorModel { kind: ErrorKind::InvalidInput, message: tag_separator_message() }),
        ),
{
}

/// The arguments of a run never change.
pub proof fn args_never_change(s: RunModel, e: EventModel)
    ensures
        next(s, e).0.args == s.args,
{
}

/// When an action fails, the run ends at once with that action's error.
pub proof fn failure_ends_run(s: RunModel, err: ErrorModel)
    requires
        s.inv(),
        accepts(s.phase, EventModel::Failed(err)),
    ensures
        next(s, EventModel::Failed(err)) == abort(s, err),
        next(s, EventModel::Failed(err)).0.phase == Phase::Finished,
        next(s, EventModel::Failed(err)).1 == ActionModel::Finish(Err(err)),
{
}

/// When cargo exits unsuccessfully, the run ends at once with an
/// `Interrupted` error that carries what cargo wrote to standard error.
pub proof fn cargo_failure_ends_run(s: RunModel, stdout: Seq<u8>, stderr: Seq<u8>)
    requires
        s.inv(),
        accepts(s.phase, EventModel::Exited { success: false, stdout, stderr }),
    ensures
        next(s, EventModel::Exited { success: false, stdout, stderr }) == abort(
            s,
            ErrorModel { kind: ErrorKind::Interrupted, message: lossy_text(stderr) },
        ),
{
}

/// A further manifest that is not a file ends the run with `NotFound`.
pub proof fn missing_manifest_ends_run(s: RunModel)
    requires
        s.inv(),
        s.phase == Phase::AwaitManifestIsFile,
    ensures
        next(s, EventModel::Flag(false)) == abort(
            s,
            ErrorModel { kind: ErrorKind::NotFound, message: not_a_file_message() },
        ),
{
}

/// Every cargo call of a run works on the project's top-level directory
/// against the run's own cargo home, `.cargo` inside the home registry.
pub proof fn cargo_uses_private_home(s: RunModel, e: EventModel)
    requires
        s.inv(),
        accepts(s.phase, e),
    ensures
        next(s, e).1 is RunCargo ==> {
            &&& next(s, e).1->RunCargo_0.cargo_home == joined(next(s, e).0.home, ".cargo"@)
            &&& next(s, e).1->RunCargo_0.curdir == next(s, e).0.setup
        },
{
}

/// Every lockfile that is copied lands in the home registry, at the same
/// path below it as it has below the project.
pub proof fn lockfiles_land_in_home(s: RunModel, e: EventModel)
    requires
        s.inv(),
        accepts(s.phase, e),
    ensures
        next(s, e).1 is CopyFile ==> exists|r: Seq<char>|
            is_inside_relative(r) && next(s, e).1->CopyFile_from == joined(next(s, e).0.setup, r)
                && next(s, e).1->CopyFile_to == joined(next(s, e).0.home, r),
{
    lemma_step_paths_inside(s, e);
}

/// The paths a step joins below the project or the home registry stay below
/// them.
proof fn lemma_step_paths_inside(s: RunModel, e: EventModel)
    requires
        s.inv(),
        accepts(s.phase, e),
    ensures
        (s.phase == Phase::AwaitManifestLockDir || s.phase == Phase::AwaitRootLockDir)
            ==> is_inside_relative(s.rel),
        s.phase == Phase::AwaitManifestLockExists ==> (dir_of(
            s.args.manifest_paths[s.manifest_ix as int],
        ) matches Some(d) ==> is_inside_relative(d)),
{
    if s.phase == Phase::AwaitManifestLockDir || s.phase == Phase::AwaitManifestLockExists {
        let m = s.args.manifest_paths[s.manifest_ix as int];
        assert(is_inside_relative(m));
        lemma_lock_rel_inside(m);
    }
    if s.phase == Phase::AwaitRootLockDir {
        lemma_lock_name_inside();
    }
}

/// Each leftover of a cargo home lies below it.
proof fn lemma_cleanup_below(dot_cargo: Seq<char>, i: nat)
    requires
        i < cleanup_count(),
    ensures
        is_below(dot_cargo, cleanup_entry(dot_cargo, i).0),
{
    reveal_strlit("registry");
    reveal_strlit("src");
    reveal_strlit("bin");
    reveal_strlit(".global-cache");
    reveal_strlit(".package-cache");
    reveal_strlit(".package-cache-mutate");
    if i == 0 {
        let r = "registry"@;
        let c = "src"@;
        lemma_name_inside(r);
        lemma_name_inside(c);
        lemma_joined_assoc(dot_cargo, r, c);
        assert(joined(r, c) =~= r + seq!['/'] + c);
        lemma_append_name(r, c);
        assert(joined(r, c)[0] == 'r');
        assert(is_inside_relative(joined(r, c)));
    } else if i == 1 {
        lemma_name_inside("bin"@);
    } else if i == 2 {
        lemma_name_inside(".global-cache"@);
    } else if i == 3 {
        lemma_name_inside(".package-cache"@);
    } else {
        lemma_name_inside(".package-cache-mutate"@);
    }
}

/// What a run writes stays in the places it owns: the project is copied or
/// unpacked into the work directory; directories are created, and lockfiles
/// copied, only in the home registry or below it; only what lies below the
/// run's own cargo home is removed; cargo runs against that cargo home; and
/// the archive is written to the outdir asked for.
pub proof fn writes_stay_in_run_dirs(s: RunModel, e: EventModel)
    requires
        s.inv(),
        accepts(s.phase, e),
    ensures
        ({
            let t = next(s, e).0;
            let a = next(s, e).1;
            &&& a is CopyDir ==> a->CopyDir_to == t.workdir
            &&& a is Extract ==> a->Extract_outdir == t.workdir
            &&& a is CreateDirAll ==> a->CreateDirAll_0 == t.home || is_below(
                t.home,
                a->CreateDirAll_0,
            )
            &&& a is CopyFile ==> is_below(t.home, a->CopyFile_to)
            &&& a is RemoveDirAll ==> is_below(joined(t.home, ".cargo"@), a->RemoveDirAll_0)
            &&& a is RemoveFile ==> is_below(joined(t.home, ".cargo"@), a->RemoveFile_0)
            &&& a is RunCargo ==> a->RunCargo_0.cargo_home == joined(t.home, ".cargo"@)
            &&& a is Roast ==> a->Roast_outdir == s.args.outdir
        }),
{
    lemma_step_paths_inside(s, e);
    if s.phase == Phase::AwaitManifestLockExists {
        let m = s.args.manifest_paths[s.manifest_ix as int];
        match dir_of(m) {
            Some(d) => {
                assert(is_inside_relative(d) && joined(s.home, d) == joined(s.home, d));
            },
            None => {},
        }
    }
    if s.phase == Phase::AwaitManifestLockDir || s.phase == Phase::AwaitRootLockDir {
        assert(is_inside_relative(s.rel) && joined(s.home, s.rel) == joined(s.home, s.rel));
    }
    if s.phase == Phase::AwaitCleanupExists {
        lemma_cleanup_below(s.dot_cargo, s.cleanup_ix);
    }
}

/// Every further manifest that is accepted is looked at below the
/// project's top-level directory, and so are its directory and its
/// lockfile: each path a run checks lies at or below that directory, or
/// below the run's own cargo home.
#[verifier::rlimit(40)]
pub proof fn checked_paths_stay_below(s: RunModel, e: EventModel)
    requires
        s.inv(),
        accepts(s.phase, e),
    ensures
        ({
            let t = next(s, e).0;
            let a = next(s, e).1;
            &&& a is IsFile ==> is_below(t.setup, a->IsFile_0)
            &&& a is Exists ==> a->Exists_0 == t.setup || is_below(t.setup, a->Exists_0) || is_below(
                joined(t.home, ".cargo"@),
                a->Exists_0,
            )
        }),
{
    next_keeps_inv(s, e);
    let t = next(s, e).0;
    let a = next(s, e).1;
    lemma_lock_name_inside();
    if a is IsFile {
        let m = s.args.manifest_paths[t.manifest_ix as int];
        assert(is_inside_relative(m) && t.manifest == joined(t.setup, m));
    }
    if t.phase == Phase::AwaitRootLockExists {
        assert(is_inside_relative(lock_name()) && t.lockfile == joined(t.setup, lock_name()));
    }
    if t.phase == Phase::AwaitCleanupExists {
        lemma_cleanup_below(t.dot_cargo, t.cleanup_ix);
    }
    match s.phase {
        Phase::AwaitManifestFetch => {
            let m = s.args.manifest_paths[s.manifest_ix as int];
            assert(is_inside_relative(m));
            lemma_lock_rel_inside(m);
            match dir_of(m) {
                Some(d) => {
                    assert(is_inside_relative(d) && joined(s.setup, d) == joined(s.setup, d));
                },
                None => {},
            }
        },
        Phase::AwaitParentExists => {
            let m = s.args.manifest_paths[s.manifest_ix as int];
            assert(is_inside_relative(m));
            lemma_lock_rel_inside(m);
            let r = lock_rel(m);
            assert(is_inside_relative(r) && joined(s.setup, r) == joined(s.setup, r));
        },
        _ => {},
    }
}

/// The top-level directory found by listing the work directory is the work
/// directory itself or its single entry, the work directory joined with that
/// entry's name; it lies below the work directory wherever that name stays
/// below, as every name a directory listing gives does.
pub proof fn listed_top_level_is_in_workdir(s: RunModel, e: EventModel)
    requires
        s.inv(),
        s.phase == Phase::AwaitListing,
        accepts(s.phase, e),
    ensures
        ({
            let t = next(s, e).0;
            t.phase != Phase::Finished ==> {
                ||| t.setup == s.workdir
                ||| {
                    &&& e is Listed
                    &&& e->Listed_0.len() == 1
                    &&& e->Listed_0[0] is Ok
                    &&& t.setup == joined(s.workdir, e->Listed_0[0]->Ok_0.name)
                    &&& is_inside_relative(e->Listed_0[0]->Ok_0.name) ==> is_below(
                        s.workdir,
                        t.setup,
                    )
                }
            }
        }),
{
    let t = next(s, e).0;
    if t.phase != Phase::Finished && t.setup != s.workdir {
        let entries = e->Listed_0;
        assert(entries.last() == entries[0]);
        let n = entries[0]->Ok_0.name;
        if is_inside_relative(n) {
            assert(is_inside_relative(n) && t.setup == joined(s.workdir, n));
        }
    }
}

/// The archive a run makes is of its home registry, written to the outdir
/// asked for under the name made of the whole tag and the compression, and
/// only once the lockfiles passed their audit; by then, where the project
/// has a top-level manifest, its own lockfile is the last one recorded,
/// whether or not it exists.
pub proof fn archive_is_home_registry(s: RunModel, e: EventModel)
    requires
        s.inv(),
        accepts(s.phase, e),
    ensures
        next(s, e).1 is Roast ==> {
            &&& next(s, e).1->Roast_target == next(s, e).0.home
            &&& next(s, e).1->Roast_outdir == s.args.outdir
            &&& next(s, e).1->Roast_outfile == archive_name(s.args.tag, s.args.compression)
            &&& !next(s, e).1->Roast_outfile.contains('/')
            &&& next(s, e).0.audited
            &&& !s.args.no_root_manifest ==> next(s, e).0.lockfiles.len() > 0 && next(
                s,
                e,
            ).0.lockfiles.last() == joined(next(s, e).0.setup, lock_name())
        },
{
    next_keeps_inv(s, e);
    if next(s, e).1 is Roast {
        lemma_archive_name_is_a_file_name(s.args.tag, s.args.compression);
    }
}

/// An archive's name holds no separator where its tag holds none.
proof fn lemma_archive_name_is_a_file_name(tag: Option<Seq<char>>, c: Compression)
    requires
        tag is Some ==> !tag->0.contains('/'),
    ensures
        !archive_name(tag, c).contains('/'),
{
    reveal_strlit("registry-");
    reveal_strlit("registry");
    reveal_strlit("tar.gz");
    reveal_strlit("tar.xz");
    reveal_strlit("tar.zst");
    reveal_strlit("tar.bz");
    reveal_strlit("tar");
    let stem = archive_stem(tag);
    let ext = extension_of(c);
    assert(forall|i: int| 0 <= i < stem.len() ==> stem[i] != '/') by {
        match tag {
            Some(t) => {
                assert forall|i: int| 0 <= i < stem.len() implies stem[i] != '/' by {
                    if i >= 9 {
                        assert(stem[i] == t[i - 9]);
                    }
                }
            },
            None => {},
        }
    }
    assert(forall|i: int| 0 <= i < ext.len() ==> ext[i] != '/');
    let name = archive_name(tag, c);
    assert forall|i: int| 0 <= i < name.len() implies name[i] != '/' by {
        if i < stem.len() {
            assert(name[i] == stem[i]);
        } else if i > stem.len() {
            assert(name[i] == ext[i - stem.len() - 1]);
        }
    }
}

/// The lockfiles are audited once every manifest is handled: the audit
/// covers every lockfile recorded, the project's own last where it has a
/// top-level manifest, and accepts exactly the risks the arguments accept.
pub proof fn audit_covers_recorded_lockfiles(s: RunModel, e: EventModel)
    requires
        s.inv(),
        accepts(s.phase, e),
    ensures
        next(s, e).1 is Audit ==> {
            &&& next(s, e).1->Audit_lockfiles == next(s, e).0.lockfiles
            &&& next(s, e).1->Audit_accepted == s.args.i_accept_the_risk
            &&& next(s, e).0.manifest_ix == s.args.manifest_paths.len()
            &&& next(s, e).0.phase == Phase::AwaitAudit
            &&& !s.args.no_root_manifest ==> next(s, e).0.lockfiles.len() > 0 && next(
                s,
                e,
            ).0.lockfiles.last() == joined(next(s, e).0.setup, lock_name())
        },
{
    next_keeps_inv(s, e);
}

/// With a custom root the work directory is never listed: the project's
/// top-level directory is the custom root below the work directory.
#[verifier::rlimit(40)]
pub proof fn custom_root_is_top_level(s: RunModel, e: EventModel)
    requires
        s.inv(),
        accepts(s.phase, e),
        s.args.custom_root is Some,
    ensures
        !(next(s, e).1 is ListDir),
        !before_setup(next(s, e).0.phase) && next(s, e).0.phase != Phase::Finished ==> {
            &&& next(s, e).0.setup == joined(next(s, e).0.workdir, s.args.custom_root->0)
            &&& is_below(next(s, e).0.workdir, next(s, e).0.setup)
        },
{
    next_keeps_inv(s, e);
    let t = next(s, e).0;
    if !before_setup(t.phase) && t.phase != Phase::Finished {
        let c = s.args.custom_root->0;
        assert(is_inside_relative(c) && t.setup == joined(t.workdir, c));
    }
}

/// Without a top-level manifest cargo never runs on the top-level directory
/// by itself: every call points cargo at the current further manifest
/// joined to the top-level directory, with `--manifest-path`.
pub proof fn no_root_manifest_names_each_manifest(s: RunModel, e: EventModel)
    requires
        s.inv(),
        accepts(s.phase, e),
        s.args.no_root_manifest,
    ensures
        next(s, e).1 is RunCargo ==> {
            let c = next(s, e).1->RunCargo_0;
            let t = next(s, e).0;
            let p = joined(t.setup, s.args.manifest_paths[t.manifest_ix as int]);
            &&& t.manifest_ix < s.args.manifest_paths.len()
            &&& c.options == manifest_options(p) || c.options == seq!["--locked"@] + manifest_options(p)
            &&& p.len() > 0 ==> c.options.len() >= 2 && c.options.subrange(
                c.options.len() - 2,
                c.options.len() as int,
            ) == seq!["--manifest-path"@, p]
        },
{
    next_keeps_inv(s, e);
    let t = next(s, e).0;
    let a = next(s, e).1;
    if a is RunCargo {
        let m = s.args.manifest_paths[t.manifest_ix as int];
        let p = joined(t.setup, m);
        let c = a->RunCargo_0;
        if p.len() > 0 {
            assert(c.options.subrange(c.options.len() - 2, c.options.len() as int) =~= seq![
                "--manifest-path"@,
                p,
            ]);
        }
    }
}

/// `cargo update` runs only where it is asked for, right after
/// `generate-lockfile` succeeded, on the same manifest.
pub proof fn update_follows_regenerated_lockfile(s: RunModel, e: EventModel)
    requires
        s.inv(),
        accepts(s.phase, e),
    ensures
        next(s, e).1 is RunCargo && next(s, e).1->RunCargo_0.subcommand == "update"@ ==> {
            &&& s.args.update
            &&& s.phase == Phase::AwaitRootGenerate || s.phase == Phase::AwaitManifestGenerate
            &&& e matches EventModel::Exited { success, .. } && success
            &&& next(s, e).1->RunCargo_0 == update_call(
                s.setup,
                s.dot_cargo,
                if s.phase == Phase::AwaitRootGenerate {
                    seq![]
                } else {
                    s.manifest
                },
            )
        },
{
    lemma_subcommands_differ();
}

/// Dependencies are fetched only against a fresh lockfile: right after
/// `cargo update` succeeded where updating is asked for, else right after
/// `generate-lockfile` succeeded, on the same manifest.
pub proof fn fetch_follows_fresh_lockfile(s: RunModel, e: EventModel)
    requires
        s.inv(),
        accepts(s.phase, e),
    ensures
        next(s, e).1 is RunCargo && next(s, e).1->RunCargo_0.subcommand == "fetch"@ ==> {
            &&& s.args.update ==> s.phase == Phase::AwaitRootUpdate || s.phase
                == Phase::AwaitManifestUpdate
            &&& !s.args.update ==> s.phase == Phase::AwaitRootGenerate || s.phase
                == Phase::AwaitManifestGenerate
            &&& e matches EventModel::Exited { success, .. } && success
            &&& next(s, e).1->RunCargo_0 == fetch_call(
                s.setup,
                s.dot_cargo,
                if s.phase == Phase::AwaitRootGenerate || s.phase == Phase::AwaitRootUpdate {
                    seq![]
                } else {
                    s.manifest
                },
            )
        },
{
    lemma_subcommands_differ();
}

/// The three subcommands are told apart by their names.
proof fn lemma_subcommands_differ()
    ensures
        "fetch"@ != "generate-lockfile"@,
        "fetch"@ != "update"@,
        "update"@ != "generate-lockfile"@,
{
    reveal_strlit("fetch");
    reveal_strlit("update");
    reveal_strlit("generate-lockfile");
    assert("fetch"@.len() != "generate-lockfile"@.len());
    assert("fetch"@.len() != "update"@.len());
    assert("update"@.len() != "generate-lockfile"@.len());
}

/// A directory target is copied into the work directory, an archive of a
/// known kind is unpacked into it, and anything else is neither: the run
/// goes on with the work directory as it is.
pub proof fn target_kind_decides_population(s: RunModel, is_dir: bool, is_file: bool, supported: bool)
    requires
        s.inv(),
        s.phase == Phase::AwaitInspect,
    ensures
        ({
            let a = next(s, EventModel::Target { is_dir, is_file, supported }).1;
            &&& is_dir ==> a == ActionModel::CopyDir { from: s.target, to: s.workdir }
            &&& !is_dir && is_file && supported ==> a == ActionModel::Extract {
                archive: s.target,
                outdir: s.workdir,
            }
            &&& !is_dir && !(is_file && supported) && s.args.custom_root is None ==> a
                == ActionModel::ListDir(s.workdir)
        }),
{
}

/// A bound on the answers a run still takes before it ends.
pub open spec fn remaining(s: RunModel) -> nat {
    let m = s.args.manifest_paths.len();
    let top = 17 + 9 * m;
    let loop_top = 17 + 9 * (m - s.manifest_ix) as nat;
    match s.phase {
        Phase::AwaitHome => top + 9,
        Phase::AwaitWorkdir => top + 8,
        Phase::AwaitGlob => top + 7,
        Phase::AwaitInspect => top + 6,
        Phase::AwaitPopulate => top + 5,
        Phase::AwaitListing => top + 4,
        Phase::AwaitRootGenerate => top + 3,
        Phase::AwaitRootUpdate => top + 2,
        Phase::AwaitRootFetch => top + 1,
        Phase::AwaitManifestIsFile => loop_top,
        Phase::AwaitManifestGenerate => (loop_top - 1) as nat,
        Phase::AwaitManifestUpdate => (loop_top - 2) as nat,
        Phase::AwaitManifestFetch => (loop_top - 3) as nat,
        Phase::AwaitParentExists => (loop_top - 4) as nat,
        Phase::AwaitManifestLockExists => (loop_top - 5) as nat,
        Phase::AwaitManifestLockDir => (loop_top - 6) as nat,
        Phase::AwaitManifestLockCopy => (loop_top - 7) as nat,
        Phase::AwaitRootLockExists => 16,
        Phase::AwaitRootLockDir => 15,
        Phase::AwaitRootLockCopy => 14,
        Phase::AwaitAudit => 13,
        Phase::AwaitCleanupExists => (2 + 2 * (cleanup_count() - s.cleanup_ix)) as nat,
        Phase::AwaitCleanupRemove => (1 + 2 * (cleanup_count() - s.cleanup_ix)) as nat,
        Phase::AwaitArchive => 1,
        Phase::Finished => 0,
    }
}

/// Every run ends: each answer brings it closer to its end.
pub proof fn every_step_progresses(s: RunModel, e: EventModel)
    requires
        s.inv(),
        accepts(s.phase, e),
    ensures
        remaining(next(s, e).0) < remaining(s),
        remaining(s) == 0 <==> s.phase == Phase::Finished,
{
}

/// A run whose arguments are accepted starts with at most `26 + 9 * m`
/// answers to go, `m` the number of further manifests; one whose arguments
/// are refused has ended.
pub proof fn run_length_bound(args: ArgsModel)
    ensures
        args_error(args) is None ==> remaining(initial(args).0) == 26 + 9 * args.manifest_paths.len(),
        args_error(args) is Some ==> remaining(initial(args).0) == 0,
{
}

/// The archive's name keeps the whole tag: it is `registry-`, the tag, a dot
/// and the compression's extension, or `registry.` and the extension without
/// a tag.
pub proof fn archive_name_spells_tag_and_extension(tag: Option<Seq<char>>, c: Compression)
    ensures
        ({
            let ext = match c {
                Compression::Gz => "tar.gz"@,
                Compression::Xz => "tar.xz"@,
                Compression::Zst => "tar.zst"@,
                Compression::Bz2 => "tar.bz"@,
                Compression::Not => "tar"@,
            };
            &&& tag is Some ==> archive_name(tag, c) == "registry-"@ + tag->0 + "."@ + ext
            &&& tag is None ==> archive_name(tag, c) == "registry."@ + ext
        }),
{
    reveal_strlit(".");
    reveal_strlit("registry");
    reveal_strlit("registry.");
    assert("registry."@ =~= "registry"@ + seq!['.']);
    assert("."@ =~= seq!['.']);
    match tag {
        Some(t) => {
            assert(archive_name(tag, c) =~= "registry-"@ + t + "."@ + extension_of(c));
        },
        None => {
            assert(archive_name(tag, c) =~= "registry."@ + extension_of(c));
        },
    }
}

/// Different tags name different archives, and a tagged archive never takes
/// the name of the untagged one.
pub proof fn archive_names_tell_tags_apart(t1: Seq<char>, t2: Seq<char>, c: Compression)
    ensures
        t1 != t2 ==> archive_name(Some(t1), c) != archive_name(Some(t2), c),
        archive_name(Some(t1), c) != archive_name(None, c),
        archive_name(Some(t1), c).subrange(9, 9 + t1.len() as int) == t1,
{
    reveal_strlit("registry-");
    reveal_strlit("registry");
    let p = "registry-"@;
    let ext = extension_of(c);
    let n1 = archive_name(Some(t1), c);
    let n2 = archive_name(Some(t2), c);
    assert(n1 =~= p + t1 + seq!['.'] + ext);
    assert(n2 =~= p + t2 + seq!['.'] + ext);
    assert(n1.subrange(9, 9 + t1.len() as int) =~= t1);
    if n1 == n2 {
        assert(t1.len() == t2.len());
        assert(n2.subrange(9, 9 + t2.len() as int) =~= t2);
    }
    assert(n1[8] == '-');
    assert(archive_name(None, c)[8] == '.');
}

/// The top-level directory after copying or unpacking: with more than one
/// entry it is the work directory, whatever the entries; with one it is that
/// entry joined to the work directory where it is a directory, the error of
/// a missing top-level directory where it is a file, and the entry's own
/// error where it could not be read.
pub proof fn top_level_choice(workdir: Seq<char>, entries: Seq<Result<EntryModel, ErrorModel>>)
    requires
        entries.len() > 0,
    ensures
        entries.len() > 1 ==> setup_dir(workdir, entries) == Ok::<Seq<char>, ErrorModel>(workdir),
        entries.len() == 1 ==> match entries[0] {
            Ok(e) => if e.is_dir {
                setup_dir(workdir, entries) == Ok::<Seq<char>, ErrorModel>(joined(workdir, e.name))
            } else {
                setup_dir(workdir, entries) == Err::<Seq<char>, ErrorModel>(
                    ErrorModel {
                        kind: ErrorKind::Interrupted,
                        message: "No top-level directory found after tarball was extracted"@,
                    },
                )
            },
            Err(err) => setup_dir(workdir, entries) == Err::<Seq<char>, ErrorModel>(err),
        },
{
}

/// Where a further manifest's lockfile lies and lands: for a manifest `d/name`
/// (`name` without a separator) its directory below a root is `d` joined to
/// that root, and its lockfile is `d/Cargo.lock`, which lies in that
/// directory; for a bare `name` both are the root's own.
pub proof fn manifest_lockfile_layout(root: Seq<char>, d: Seq<char>, name: Seq<char>)
    requires
        forall|i: int| 0 <= i < name.len() ==> #[trigger] name[i] != '/',
    ensures
        d.len() > 0 ==> dir_in(root, d + "/"@ + name) == joined(root, d),
        d.len() > 0 ==> lock_rel(d + "/"@ + name) == d + "/Cargo.lock"@,
        d.len() > 0 && d[0] != '/' && d.last() != '/' ==> joined(root, lock_rel(d + "/"@ + name)) == joined(
            joined(root, d),
            "Cargo.lock"@,
        ),
        dir_in(root, name) == root,
        lock_rel(name) == "Cargo.lock"@,
{
    reveal_strlit("/");
    reveal_strlit("Cargo.lock");
    reveal_strlit("/Cargo.lock");
    lemma_dir_len_at(name, 0);
    assert(name.subrange(0, 0) =~= seq![]);
    assert(lock_rel(name) =~= "Cargo.lock"@);
    if d.len() > 0 {
        let m = d + "/"@ + name;
        let k: int = d.len() as int + 1;
        assert forall|j: int| k <= j < m.len() implies m[j] != '/' by {
            assert(m[j] == name[j - k]);
        }
        lemma_dir_len_at(m, k);
        assert(m.subrange(0, k - 1) =~= d);
        assert(m.subrange(0, k) =~= d + seq!['/']);
        assert("/Cargo.lock"@ =~= seq!['/'] + "Cargo.lock"@);
        assert(lock_rel(m) =~= d + "/Cargo.lock"@);
        if d[0] != '/' && d.last() != '/' {
            assert("Cargo.lock"@[0] == 'C');
            lemma_joined_assoc(root, d, "Cargo.lock"@);
            assert(joined(d, "Cargo.lock"@) =~= d + "/Cargo.lock"@);
        }
    }
}

/// The project's own lockfile, where it exists, is always copied into the
/// home registry, whatever the further manifests: the home registry is
/// created, `Cargo.lock` of the top-level directory is copied to
/// `Cargo.lock` of the home registry, it is recorded last, and the lockfiles
/// are audited.
pub proof fn existing_root_lockfile_is_copied(s: RunModel)
    requires
        s.inv(),
        s.phase == Phase::AwaitRootLockExists,
    ensures
        ({
            let (t, a) = next(s, EventModel::Flag(true));
            let (u, b) = next(t, EventModel::Done);
            let (v, c) = next(u, EventModel::Done);
            &&& a == ActionModel::CreateDirAll(s.home)
            &&& b == ActionModel::CopyFile {
                from: joined(s.setup, "Cargo.lock"@),
                to: joined(s.home, "Cargo.lock"@),
            }
            &&& c is Audit
            &&& v.lockfiles == s.lockfiles.push(joined(s.setup, "Cargo.lock"@))
        }),
{
}

/// A further manifest's lockfile that exists is copied into the directory
/// the run has just created for it: for a manifest `d/name` that directory
/// is `d` below the home registry and the copy goes from `d/Cargo.lock` below
/// the top-level directory to `d/Cargo.lock` below the home registry; for a
/// bare `name` it is the home registry itself; and the lockfile is then
/// recorded.
pub proof fn existing_manifest_lockfile_is_copied(s: RunModel, d: Seq<char>, name: Seq<char>)
    requires
        s.inv(),
        s.phase == Phase::AwaitParentExists,
        forall|i: int| 0 <= i < name.len() ==> #[trigger] name[i] != '/',
    ensures
        ({
            let m = s.args.manifest_paths[s.manifest_ix as int];
            let (t, a) = next(s, EventModel::Flag(true));
            let (u, b) = next(t, EventModel::Flag(true));
            let (v, c) = next(u, EventModel::Done);
            let (w, _) = next(v, EventModel::Done);
            &&& d.len() > 0 && m == d + "/"@ + name ==> {
                &&& a == ActionModel::Exists(joined(s.setup, d + "/Cargo.lock"@))
                &&& b == ActionModel::CreateDirAll(joined(s.home, d))
                &&& c == ActionModel::CopyFile {
                    from: joined(s.setup, d + "/Cargo.lock"@),
                    to: joined(s.home, d + "/Cargo.lock"@),
                }
            }
            &&& m == name ==> {
                &&& a == ActionModel::Exists(joined(s.setup, "Cargo.lock"@))
                &&& b == ActionModel::CreateDirAll(s.home)
                &&& c == ActionModel::CopyFile {
                    from: joined(s.setup, "Cargo.lock"@),
                    to: joined(s.home, "Cargo.lock"@),
                }
            }
            &&& w.lockfiles == s.lockfiles.push(joined(s.setup, lock_rel(m)))
            &&& w.manifest_ix == s.manifest_ix + 1
        }),
{
    manifest_lockfile_layout(s.home, d, name);
    manifest_lockfile_layout(s.setup, d, name);
}

/// The path of the `i`-th leftover of the cargo home `dot_cargo`, and
/// whether it is removed as a directory.
pub open spec fn leftover(dot_cargo: Seq<char>, i: nat) -> (Seq<char>, bool) {
    if i == 0 {
        (joined(joined(dot_cargo, "registry"@), "src"@), true)
    } else if i == 1 {
        (joined(dot_cargo, "bin"@), true)
    } else if i == 2 {
        (joined(dot_cargo, ".global-cache"@), false)
    } else if i == 3 {
        (joined(dot_cargo, ".package-cache"@), false)
    } else {
        (joined(dot_cargo, ".package-cache-mutate"@), false)
    }
}

/// Every leftover of the cargo home that exists is removed before the
/// archive is made: `registry/src` and `bin` as directories, then
/// `.global-cache`, `.package-cache` and `.package-cache-mutate` as files,
/// each looked for in turn; the audit's success starts with the first, and
/// the archive follows the last.
pub proof fn existing_leftovers_are_removed(s: RunModel)
    requires
        s.inv(),
        s.phase == Phase::AwaitCleanupExists || s.phase == Phase::AwaitAudit,
    ensures
        ({
            let dc = joined(s.home, ".cargo"@);
            let i = s.cleanup_ix;
            let (t, a) = next(s, EventModel::Flag(true));
            let (u, b) = next(s, EventModel::Flag(false));
            let (r, c) = next(t, EventModel::Done);
            s.phase == Phase::AwaitCleanupExists ==> {
                &&& leftover(dc, i).1 ==> a == ActionModel::RemoveDirAll(leftover(dc, i).0)
                &&& !leftover(dc, i).1 ==> a == ActionModel::RemoveFile(leftover(dc, i).0)
                &&& i + 1 < 5 ==> b == ActionModel::Exists(leftover(dc, i + 1).0) && c
                    == ActionModel::Exists(leftover(dc, i + 1).0)
                &&& i + 1 == 5 ==> b is Roast && c is Roast
            }
        }),
        s.phase == Phase::AwaitAudit ==> next(s, EventModel::Done).1 == ActionModel::Exists(
            leftover(joined(s.home, ".cargo"@), 0).0,
        ),
{
}

/// After each successful cargo call the run goes on in order: the top-level
/// manifest's `generate-lockfile` is followed by `update` where asked for,
/// then `fetch --locked`, then the first further manifest is checked;
/// each further manifest goes the same way, with `--manifest-path`, and is
/// followed by a look for its directory.
pub proof fn cargo_success_moves_on(s: RunModel, out: Seq<u8>, err: Seq<u8>)
    requires
        s.inv(),
    ensures
        ({
            let a = next(s, EventModel::Exited { success: true, stdout: out, stderr: err }).1;
            let root_update = update_call(s.setup, s.dot_cargo, seq![]);
            let root_fetch = fetch_call(s.setup, s.dot_cargo, seq![]);
            let m_update = update_call(s.setup, s.dot_cargo, s.manifest);
            let m_fetch = fetch_call(s.setup, s.dot_cargo, s.manifest);
            &&& s.phase == Phase::AwaitRootGenerate && s.args.update ==> a == ActionModel::RunCargo(
                root_update,
            )
            &&& s.phase == Phase::AwaitRootGenerate && !s.args.update ==> a
                == ActionModel::RunCargo(root_fetch)
            &&& s.phase == Phase::AwaitRootUpdate ==> a == ActionModel::RunCargo(root_fetch)
            &&& s.phase == Phase::AwaitRootFetch && s.args.manifest_paths.len() > 0 ==> a
                == ActionModel::IsFile(joined(s.setup, s.args.manifest_paths[0]))
            &&& s.phase == Phase::AwaitManifestGenerate && s.args.update ==> a
                == ActionModel::RunCargo(m_update)
            &&& s.phase == Phase::AwaitManifestGenerate && !s.args.update ==> a
                == ActionModel::RunCargo(m_fetch)
            &&& s.phase == Phase::AwaitManifestUpdate ==> a == ActionModel::RunCargo(m_fetch)
            &&& s.phase == Phase::AwaitManifestFetch ==> a == ActionModel::Exists(
                dir_in(s.setup, s.args.manifest_paths[s.manifest_ix as int]),
            )
            &&& s.phase == Phase::AwaitRootFetch && s.args.manifest_paths.len() == 0 ==> a
                == ActionModel::Exists(joined(s.setup, "Cargo.lock"@))
        }),
        ({
            let a = next(s, EventModel::Flag(true)).1;
            s.phase == Phase::AwaitManifestIsFile ==> a == ActionModel::RunCargo(
                generate_lockfile_call(s.setup, s.dot_cargo, s.manifest),
            )
        }),
{
}

/// How paths are joined on Unix: an absolute path replaces the base; any
/// other is appended after a `/`, which is left out where the base is empty
/// or already ends in one.
pub proof fn join_on_unix(base: Seq<char>, rel: Seq<char>)
    ensures
        rel.len() > 0 && rel[0] == '/' ==> joined(base, rel) == rel,
        !(rel.len() > 0 && rel[0] == '/') && base.len() > 0 && base[base.len() - 1] != '/'
            ==> joined(base, rel) == base + "/"@ + rel,
        !(rel.len() > 0 && rel[0] == '/') && (base.len() == 0 || base[base.len() - 1] == '/')
            ==> joined(base, rel) == base + rel,
{
    reveal_strlit("/");
    assert("/"@ =~= seq!['/']);
}

/// Which relative paths a run accepts for a further manifest or a custom
/// root: never an absolute one, never one that starts by climbing with `..`;
/// always a single name other than `..`; a name appended to an accepted path
/// keeps it accepted; and a climb back out of a name, `a/../b`, is accepted.
pub proof fn accepted_relative_paths(p: Seq<char>, a: Seq<char>, b: Seq<char>)
    requires
        forall|i: int| 0 <= i < a.len() ==> #[trigger] a[i] != '/',
        forall|i: int| 0 <= i < b.len() ==> #[trigger] b[i] != '/',
    ensures
        p.len() > 0 && p[0] == '/' ==> !is_inside_relative(p),
        !is_inside_relative(".."@),
        !is_inside_relative("../"@ + p),
        a != ".."@ ==> is_inside_relative(a),
        p.len() > 0 && is_inside_relative(p) && b != ".."@ ==> is_inside_relative(p + "/"@ + b),
        a.len() > 0 && a != "."@ && a != ".."@ && b != ".."@ ==> is_inside_relative(
            a + "/../"@ + b,
        ),
{
    reveal_strlit("..");
    reveal_strlit(".");
    reveal_strlit("/");
    reveal_strlit("../");
    reveal_strlit("/../");
    let dd = ".."@;
    assert(dd =~= seq!['.', '.']);
    assert(step_of(dd) == -1);
    lemma_dir_len_at(dd, 0);
    assert(!is_inside_relative(dd));
    let q = "../"@ + p;
    assert(q[0] == '.' && q[1] == '.' && q[2] == '/');
    lemma_climbs_out_prefix(q);
    if a != dd {
        assert(step_of(a) >= 0) by {
            if a.len() == 2 && a[0] == '.' && a[1] == '.' {
                assert(a =~= dd);
            }
        }
        lemma_name_inside(a);
    }
    if b != dd {
        assert(step_of(b) >= 0) by {
            if b.len() == 2 && b[0] == '.' && b[1] == '.' {
                assert(b =~= dd);
            }
        }
    }
    if p.len() > 0 && is_inside_relative(p) && b != dd {
        assert(p + "/"@ + b =~= p + seq!['/'] + b);
        lemma_append_name(p, b);
        assert((p + "/"@ + b)[0] == p[0]);
    }
    if a.len() > 0 && a != "."@ && a != dd && b != dd {
        assert(step_of(a) == 1) by {
            if a.len() == 1 && a[0] == '.' {
                assert(a =~= "."@);
            }
            if a.len() == 2 && a[0] == '.' && a[1] == '.' {
                assert(a =~= dd);
            }
        }
        lemma_name_inside(a);
        assert(depth(a) == 1);
        assert forall|i: int| 0 <= i < dd.len() implies #[trigger] dd[i] != '/' by {}
        lemma_append_component(a, dd);
        let ad = a + seq!['/'] + dd;
        lemma_append_name(ad, b);
        assert(a + "/../"@ + b =~= ad + seq!['/'] + b);
        assert((a + "/../"@ + b)[0] == a[0]);
        assert(a[0] != '/');
    }
}

/// A path that starts with `../` climbs out at once.
proof fn lemma_climbs_out_prefix(q: Seq<char>)
    requires
        q.len() >= 3,
        q[0] == '.' && q[1] == '.' && q[2] == '/',
    ensures
        !never_climbs_out(q),
    decreases q.len(),
{
    lemma_dir_len(q);
    let k = dir_len(q) as int;
    assert(k >= 3) by {
        if k < 3 {
            assert(q[2] == '/');
        }
    }
    let r = q.subrange(0, k - 1);
    if k == 3 {
        assert(r =~= seq!['.', '.']);
        lemma_dir_len_at(r, 0);
        assert(step_of(r) == -1);
        assert(!never_climbs_out(r));
    } else {
        assert(r[0] == '.' && r[1] == '.' && r[2] == '/');
        lemma_climbs_out_prefix(r);
    }
    assert(never_climbs_out(q) ==> never_climbs_out(r));
}

/// The cargo calls a run makes, spelled out: `cargo fetch --locked`,
/// `cargo generate-lockfile` and `cargo update`, each with
/// `--manifest-path <manifest>` where a manifest is given, and `cargo audit
/// --file <lockfile>` with `--ignore <id>` for each accepted advisory, in
/// order.
pub proof fn cargo_calls_spelled_out(
    curdir: Seq<char>,
    home: Seq<char>,
    manifest: Seq<char>,
    lockfile: Seq<char>,
    ids: Seq<Seq<char>>,
)
    ensures
        ({
            let mo = if manifest.len() == 0 {
                seq![]
            } else {
                seq!["--manifest-path"@, manifest]
            };
            &&& fetch_call(curdir, home, manifest) == CargoCallModel {
                subcommand: "fetch"@,
                options: seq!["--locked"@] + mo,
                curdir,
                cargo_home: home,
            }
            &&& generate_lockfile_call(curdir, home, manifest) == CargoCallModel {
                subcommand: "generate-lockfile"@,
                options: mo,
                curdir,
                cargo_home: home,
            }
            &&& update_call(curdir, home, manifest) == CargoCallModel {
                subcommand: "update"@,
                options: mo,
                curdir,
                cargo_home: home,
            }
        }),
        ({
            let c = audit_call_model(curdir, home, lockfile, ids);
            &&& c.subcommand == "audit"@
            &&& c.curdir == curdir
            &&& c.cargo_home == home
            &&& c.options.len() == 2 + 2 * ids.len()
            &&& c.options[0] == "--file"@
            &&& c.options[1] == lockfile
            &&& forall|i: int| 0 <= i < ids.len() ==> #[trigger] c.options[2 + 2 * i] == "--ignore"@
            &&& forall|i: int| 0 <= i < ids.len() ==> #[trigger] c.options[3 + 2 * i] == ids[i]
        }),
{
    lemma_ignore_options(ids);
    let c = audit_call_model(curdir, home, lockfile, ids);
    let io = ignore_options(ids);
    assert forall|i: int| 0 <= i < ids.len() implies #[trigger] c.options[2 + 2 * i] == "--ignore"@ by {
        assert(c.options[2 + 2 * i] == io[2 * i]);
    }
    assert forall|i: int| 0 <= i < ids.len() implies #[trigger] c.options[3 + 2 * i] == ids[i] by {
        assert(c.options[3 + 2 * i] == io[2 * i + 1]);
    }
}

/// `--ignore <id>` for each id, in order.
proof fn lemma_ignore_options(ids: Seq<Seq<char>>)
    ensures
        ignore_options(ids).len() == 2 * ids.len(),
        forall|i: int| 0 <= i < ids.len() ==> #[trigger] ignore_options(ids)[2 * i] == "--ignore"@,
        forall|i: int| 0 <= i < ids.len() ==> #[trigger] ignore_options(ids)[2 * i + 1] == ids[i],
    decreases ids.len(),
{
    if ids.len() > 0 {
        let prev = ids.drop_last();
        lemma_ignore_options(prev);
        let o = ignore_options(ids);
        assert(o == ignore_options(prev) + seq!["--ignore"@, ids.last()]);
        assert forall|i: int| 0 <= i < ids.len() implies #[trigger] o[2 * i] == "--ignore"@ by {
            if i < prev.len() {
                assert(o[2 * i] == ignore_options(prev)[2 * i]);
            }
        }
        assert forall|i: int| 0 <= i < ids.len() implies #[trigger] o[2 * i + 1] == ids[i] by {
            if i == prev.len() {
                assert(o[2 * i + 1] == ids.last());
            } else {
                assert(o[2 * i] == ignore_options(prev)[2 * i]);
                assert(o[2 * i + 1] == ignore_options(prev)[2 * i + 1]);
                assert(prev[i] == ids[i]);
            }
        }
    }
}

/// How a run starts: it asks for a temporary home registry named `.cargo`
/// and twelve random characters, then a work directory named `.workdir` and
/// twelve random characters, with the cargo home `.cargo` inside the home
/// registry; then the target's glob is resolved and what it names is
/// inspected.
pub proof fn run_starts_with_its_directories(args: ArgsModel, home: Seq<char>, work: Seq<char>, target: Seq<char>)
    requires
        args_error(args) is None,
    ensures
        ({
            let (s0, a0) = initial(args);
            let (s1, a1) = next(s0, EventModel::Path(home));
            let (s2, a2) = next(s1, EventModel::Path(work));
            let (s3, a3) = next(s2, EventModel::Path(target));
            &&& a0 == ActionModel::CreateTempDir { prefix: ".cargo"@, rand_bytes: 12 }
            &&& a1 == ActionModel::CreateTempDir { prefix: ".workdir"@, rand_bytes: 12 }
            &&& s1.home == home && s1.dot_cargo == joined(home, ".cargo"@)
            &&& a2 == ActionModel::ResolveGlob(args.target)
            &&& s2.workdir == work
            &&& a3 == ActionModel::InspectTarget(target)
        }),
{
}

/// Once the top-level directory is found by listing, cargo regenerates its
/// lockfile; without a top-level manifest the first further manifest is
/// checked instead, and with none the lockfiles are audited.
pub proof fn top_level_found_starts_cargo(s: RunModel, e: EventModel)
    requires
        s.inv(),
        s.phase == Phase::AwaitListing,
        accepts(s.phase, e),
    ensures
        ({
            let (t, a) = next(s, e);
            t.phase != Phase::Finished ==> {
                &&& !s.args.no_root_manifest ==> a == ActionModel::RunCargo(
                    generate_lockfile_call(t.setup, s.dot_cargo, seq![]),
                )
                &&& s.args.no_root_manifest && s.args.manifest_paths.len() > 0 ==> a
                    == ActionModel::IsFile(joined(t.setup, s.args.manifest_paths[0]))
                &&& s.args.no_root_manifest && s.args.manifest_paths.len() == 0 ==> a is Audit
            }
        }),
{
}

/// Where a further manifest's directory or lockfile is missing, nothing is
/// copied or recorded for it and the run goes on with the next manifest.
pub proof fn missing_manifest_lockfile_is_skipped(s: RunModel)
    requires
        s.inv(),
        s.phase == Phase::AwaitParentExists || s.phase == Phase::AwaitManifestLockExists,
    ensures
        ({
            let (t, a) = next(s, EventModel::Flag(false));
            &&& t.lockfiles == s.lockfiles
            &&& t.manifest_ix == s.manifest_ix + 1
            &&& !(a is CopyFile) && !(a is CreateDirAll)
            &&& s.manifest_ix + 1 < s.args.manifest_paths.len() ==> a == ActionModel::IsFile(
                joined(s.setup, s.args.manifest_paths[s.manifest_ix + 1 as int]),
            )
        }),
{
}

/// Where the project's own lockfile is missing it is still recorded, last,
/// and the lockfiles are audited, with nothing copied.
pub proof fn missing_root_lockfile_is_recorded(s: RunModel)
    requires
        s.inv(),
        s.phase == Phase::AwaitRootLockExists,
    ensures
        ({
            let (t, a) = next(s, EventModel::Flag(false));
            &&& t.lockfiles == s.lockfiles.push(joined(s.setup, "Cargo.lock"@))
            &&& a is Audit
        }),
{
}

/// Which answers a run takes: none once it has ended; a failure in every
/// phase but those that only ask a yes-or-no question or what the target
/// is; either answer to a yes-or-no question.
pub proof fn answers_a_run_takes(s: RunModel, err: ErrorModel, b: bool)
    ensures
        s.phase == Phase::Finished ==> !accepts(s.phase, EventModel::Failed(err)) && !accepts(
            s.phase,
            EventModel::Done,
        ),
        s.phase != Phase::Finished && s.phase != Phase::AwaitInspect && s.phase
            != Phase::AwaitManifestIsFile && s.phase != Phase::AwaitParentExists && s.phase
            != Phase::AwaitManifestLockExists && s.phase != Phase::AwaitRootLockExists && s.phase
            != Phase::AwaitCleanupExists ==> accepts(s.phase, EventModel::Failed(err)),
        s.phase == Phase::AwaitManifestIsFile || s.phase == Phase::AwaitParentExists || s.phase
            == Phase::AwaitManifestLockExists || s.phase == Phase::AwaitRootLockExists || s.phase
            == Phase::AwaitCleanupExists ==> accepts(s.phase, EventModel::Flag(b)),
{
}

/// Once the target is copied or unpacked, the work directory is listed to
/// find the top-level directory, or, with a custom root, cargo regenerates
/// the lockfile of the custom root below the work directory at once.
pub proof fn population_leads_to_top_level(s: RunModel)
    requires
        s.inv(),
        s.phase == Phase::AwaitPopulate,
    ensures
        ({
            let (t, a) = next(s, EventModel::Done);
            &&& s.args.custom_root is None ==> a == ActionModel::ListDir(s.workdir)
            &&& s.args.custom_root is Some && !s.args.no_root_manifest ==> a
                == ActionModel::RunCargo(
                generate_lockfile_call(
                    joined(s.workdir, s.args.custom_root->0),
                    joined(s.home, ".cargo"@),
                    seq![],
                ),
            )
        }),
{
}

/// The run ends well once the archive is made.
pub proof fn archive_made_ends_run(s: RunModel)
    requires
        s.inv(),
        s.phase == Phase::AwaitArchive,
    ensures
        next(s, EventModel::Done).1 == ActionModel::Finish(Ok(())),
        next(s, EventModel::Done).0.phase == Phase::Finished,
{
}

/// A finished cargo call gives its standard output read as text where it
/// succeeded, else an `Interrupted` error carrying its standard error read
/// as text.
pub proof fn cargo_outcome_spelled_out(out: Seq<u8>, err: Seq<u8>)
    ensures
        outcome_model(true, out, err) == Ok::<Seq<char>, ErrorModel>(lossy_text(out)),
        outcome_model(false, out, err) == Err::<Seq<char>, ErrorModel>(
            ErrorModel { kind: ErrorKind::Interrupted, message: lossy_text(err) },
        ),
{
}

/// A path never climbs back in once it has climbed out: `name/../..` and
/// anything below it are refused.
pub proof fn climbing_out_is_refused(a: Seq<char>, p: Seq<char>)
    requires
        forall|i: int| 0 <= i < a.len() ==> #[trigger] a[i] != '/',
    ensures
        !is_inside_relative(a + "/../.."@),
        !is_inside_relative(a + "/../../"@ + p),
{
    reveal_strlit("/../..");
    reveal_strlit("/../../");
    let n = a.len() as int;
    let r1 = a + seq!['/', '.', '.'];
    let r = a + "/../.."@;
    assert(r =~= r1 + seq!['/', '.', '.']);
    lemma_dir_len_at(a, 0);
    assert(depth(a) <= 1);
    assert forall|j: int| n + 1 <= j < r1.len() implies r1[j] != '/' by {}
    lemma_dir_len_at(r1, n + 1);
    assert(r1.subrange(0, n) =~= a);
    assert(r1.subrange(n + 1, r1.len() as int) =~= seq!['.', '.']);
    assert(depth(r1) == depth(a) - 1);
    assert forall|j: int| n + 4 <= j < r.len() implies r[j] != '/' by {}
    lemma_dir_len_at(r, n + 4);
    assert(r.subrange(0, n + 3) =~= r1);
    assert(r.subrange(n + 4, r.len() as int) =~= seq!['.', '.']);
    assert(depth(r) == depth(r1) - 1);
    assert(!never_climbs_out(r));
    let q = a + "/../../"@ + p;
    assert(q[n + 6] == '/');
    assert(q.subrange(0, n + 6) =~= r);
    if never_climbs_out(q) {
        lemma_prefix_never_climbs(q, n + 6);
    }
}

/// What never climbs out does not before any of its separators either.
proof fn lemma_prefix_never_climbs(q: Seq<char>, j: int)
    requires
        0 <= j < q.len(),
        q[j] == '/',
        never_climbs_out(q),
    ensures
        never_climbs_out(q.subrange(0, j)),
    decreases q.len(),
{
    lemma_dir_len(q);
    let k = dir_len(q) as int;
    assert(j < k);
    let r = q.subrange(0, k - 1);
    if j < k - 1 {
        assert(r[j] == '/');
        lemma_prefix_never_climbs(r, j);
        assert(r.subrange(0, j) =~= q.subrange(0, j));
    }
}

} // verus!
