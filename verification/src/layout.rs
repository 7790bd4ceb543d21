use vstd::prelude::*;
use crate::error::{ErrorKind, ErrorModel, VendorError};
use vstd::string::*;
use crate::paths::{
    dir_len, dir_len_upto, is_inside_relative, join, joined, lemma_append_name, lemma_dir_len,
    lemma_name_inside, never_climbs_out,
};

verus! {

/// An entry of a directory listing: its file name and whether it is a
/// directory. Its path is the listed directory joined with its name.
pub struct DirEntryInfo {
    pub name: String,
    pub is_dir: bool,
}

/// The mathematical value of a [`DirEntryInfo`].
pub ghost struct EntryModel {
    pub name: Seq<char>,
    pub is_dir: bool,
}

impl View for DirEntryInfo {
    type V = EntryModel;

    open spec fn view(&self) -> EntryModel {
        EntryModel { name: self.name@, is_dir: self.is_dir }
    }
}

pub open spec fn entry_result_model(r: Result<DirEntryInfo, VendorError>) -> Result<EntryModel, ErrorModel> {
    match r {
        Ok(d) => Ok(d@),
        Err(e) => Err(e@),
    }
}

/// The mathematical value of a directory listing, entry by entry.
pub open spec fn listing_model(v: Seq<Result<DirEntryInfo, VendorError>>) -> Seq<Result<EntryModel, ErrorModel>> {
    v.map_values(|r: Result<DirEntryInfo, VendorError>| entry_result_model(r))
}

/// The message of a source that unpacked to a single file.
pub open spec fn no_top_level_message() -> Seq<char> {
    "No top-level directory found after tarball was extracted"@
}

/// The project's top-level directory inside `workdir`, given what `workdir`
/// holds: `workdir` itself where it holds more than one entry; the single
/// entry, `workdir` joined with its name, where that is a directory; else the error that no top-level
/// directory was found, or the error met reading the entry.
pub open spec fn setup_dir(workdir: Seq<char>, entries: Seq<Result<EntryModel, ErrorModel>>) -> Result<
    Seq<char>,
    ErrorModel,
>
    recommends
        entries.len() > 0,
{
    if entries.len() > 1 {
        Ok(workdir)
    } else {
        match entries.last() {
            Ok(e) => if e.is_dir {
                Ok(joined(workdir, e.name))
            } else {
                Err(ErrorModel { kind: ErrorKind::Interrupted, message: no_top_level_message() })
            },
            Err(err) => Err(err),
        }
    }
}

/// Chooses the directory the project is worked on in, from the listing of
/// the directory it was copied or unpacked into.
pub fn select_setup_workdir(workdir: &str, entries: Vec<Result<DirEntryInfo, VendorError>>) -> (res: Result<
    String,
    VendorError,
>)
    requires
        entries.len() > 0,
    ensures
        match (res, setup_dir(workdir@, listing_model(entries@))) {
            (Ok(d), Ok(m)) => d@ == m,
            (Err(e), Err(m)) => e@ == m,
            _ => false,
        },
{
    let ghost model = listing_model(entries@);
    assert(model.last() == entry_result_model(entries@.last()));
    if entries.len() > 1 {
        return Ok(workdir.to_owned());
    }
    let mut entries = entries;
    let last = entries.pop();
    match last {
        Some(Ok(entry)) => {
            if entry.is_dir {
                Ok(join(workdir, entry.name.as_str()))
            } else {
                Err(
                    VendorError::new(
                        ErrorKind::Interrupted,
                        "No top-level directory found after tarball was extracted",
                    ),
                )
            }
        },
        Some(Err(err)) => Err(err),
        None => {
            assert(false);
            Err(VendorError::new(ErrorKind::Other, ""))
        },
    }
}

/// The directory of a manifest given relative to the project: the part
/// before its last separator, or none where it is a bare file name.
pub open spec fn dir_of(m: Seq<char>) -> Option<Seq<char>> {
    if dir_len(m) > 1 {
        Some(m.subrange(0, dir_len(m) - 1))
    } else {
        None
    }
}

/// The directory `root` joined with the directory of `m`, or `root` itself.
pub open spec fn dir_in(root: Seq<char>, m: Seq<char>) -> Seq<char> {
    match dir_of(m) {
        Some(d) => joined(root, d),
        None => root,
    }
}

/// The lockfile cargo writes next to a manifest.
pub open spec fn lock_name() -> Seq<char> {
    "Cargo.lock"@
}

/// The path, relative to the project, of the lockfile next to the manifest
/// `m`: its directory part followed by `Cargo.lock`.
pub open spec fn lock_rel(m: Seq<char>) -> Seq<char> {
    m.subrange(0, dir_len(m) as int) + lock_name()
}

/// `Cargo.lock` stays below.
pub proof fn lemma_lock_name_inside()
    ensures
        is_inside_relative(lock_name()),
        forall|i: int| 0 <= i < lock_name().len() ==> #[trigger] lock_name()[i] != '/',
{
    reveal_strlit("Cargo.lock");
    lemma_name_inside(lock_name());
}

/// The lockfile next to a manifest that stays below stays below too, and so
/// does the manifest's directory.
pub proof fn lemma_lock_rel_inside(m: Seq<char>)
    requires
        is_inside_relative(m),
    ensures
        is_inside_relative(lock_rel(m)),
        dir_of(m) matches Some(d) ==> is_inside_relative(d),
{
    lemma_dir_len(m);
    lemma_lock_name_inside();
    reveal_strlit("Cargo.lock");
    let k = dir_len(m) as int;
    if k == 0 {
        assert(lock_rel(m) =~= lock_name());
    } else {
        assert(k > 1) by {
            if k == 1 {
                assert(m[0] == '/');
            }
        }
        let a = m.subrange(0, k - 1);
        assert(never_climbs_out(a));
        lemma_append_name(a, lock_name());
        assert(lock_rel(m) =~= a + seq!['/'] + lock_name());
        assert(lock_rel(m)[0] == m[0]);
        assert(a[0] == m[0]);
    }
}

/// The length of the directory part of `m`.
fn dir_prefix_len(m: &str) -> (k: usize)
    ensures
        k == dir_len(m@),
{
    let n = m.unicode_len();
    assert(m@.subrange(0, n as int) =~= m@);
    dir_len_upto(m, n)
}

/// The path, relative to the project, of the lockfile next to the manifest
/// `manifest`.
pub fn lockfile_relative(manifest: &str) -> (rel: String)
    ensures
        rel@ == lock_rel(manifest@),
{
    proof {
        lemma_dir_len(manifest@);
    }
    let k = dir_prefix_len(manifest);
    let mut rel = manifest.substring_char(0, k).to_owned();
    rel.append("Cargo.lock");
    rel
}

/// The directory of the manifest `manifest` under `root`, or `root` for a
/// bare file name.
pub fn manifest_dir(root: &str, manifest: &str) -> (dir: String)
    ensures
        dir@ == dir_in(root@, manifest@),
{
    proof {
        lemma_dir_len(manifest@);
    }
    let k = dir_prefix_len(manifest);
    if k > 1 {
        join(root, manifest.substring_char(0, k - 1))
    } else {
        root.to_owned()
    }
}

/// The number of leftovers removed from the cargo home before archiving.
pub open spec fn cleanup_count() -> nat {
    5
}

/// The `i`-th leftover of the cargo home `dot_cargo` and whether it is a
/// directory: the unpacked sources `registry/src`, the installed binaries
/// `bin`, then the cache files `.global-cache`, `.package-cache` and
/// `.package-cache-mutate`.
pub open spec fn cleanup_entry(dot_cargo: Seq<char>, i: nat) -> (Seq<char>, bool) {
    if i == 0 {
        (joined(joined(dot_cargo, "registry"@), "src"@), true)
    } else if i == 1 {
        (joined(dot_cargo, "bin"@), true)
    } else if i == 2 {
        (joined(dot_cargo, ".global-cache"@), false)
    } else if i == 3 {
        (joined(dot_cargo, ".package-cache"@), false)
    } else {
        (joined(dot_cargo, ".package-cache-mutate"@), false)
    }
}

/// The `i`-th leftover of the cargo home `dot_cargo`, with whether it is a
/// directory.
pub fn cleanup_target(dot_cargo: &str, i: usize) -> (res: (String, bool))
    requires
        i < cleanup_count(),
    ensures
        (res.0@, res.1) == cleanup_entry(dot_cargo@, i as nat),
{
    if i == 0 {
        let registry = join(dot_cargo, "registry");
        (join(registry.as_str(), "src"), true)
    } else if i == 1 {
        (join(dot_cargo, "bin"), true)
    } else if i == 2 {
        (join(dot_cargo, ".global-cache"), false)
    } else if i == 3 {
        (join(dot_cargo, ".package-cache"), false)
    } else {
        (join(dot_cargo, ".package-cache-mutate"), false)
    }
}

} // verus!
