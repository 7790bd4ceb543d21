use vstd::prelude::*;
use vstd::string::*;

verus! {

/// The compression of the registry archive.
#[derive(Clone, Copy, Debug, PartialEq, Eq, Structural)]
pub enum Compression {
    Gz,
    Xz,
    Zst,
    Bz2,
    Not,
}

/// The file extension that goes with each compression.
pub open spec fn extension_of(c: Compression) -> Seq<char> {
    match c {
        Compression::Gz => "tar.gz"@,
        Compression::Xz => "tar.xz"@,
        Compression::Zst => "tar.zst"@,
        Compression::Bz2 => "tar.bz"@,
        Compression::Not => "tar"@,
    }
}

impl Compression {
    /// The file extension of an archive with this compression.
    pub fn extension(&self) -> (ext: &'static str)
        ensures
            ext@ == extension_of(*self),
    {
        match self {
            Compression::Gz => "tar.gz",
            Compression::Xz => "tar.xz",
            Compression::Zst => "tar.zst",
            Compression::Bz2 => "tar.bz",
            Compression::Not => "tar",
        }
    }
}

impl Default for Compression {
    /// The compression used when none is asked for: zstd.
    fn default() -> (c: Compression)
        ensures
            c == Compression::Zst,
    {
        Compression::Zst
    }
}

/// The arguments of a vendoring run.
pub struct HomeRegistryArgs {
    /// The project: a directory, or an archive of one, or a glob matching one.
    pub target: String,
    /// How the registry archive is compressed.
    pub compression: Compression,
    /// A tag that goes into the archive's name.
    pub tag: Option<String>,
    /// Where the registry archive is written.
    pub outdir: String,
    /// Further manifests, relative to the project's top-level directory.
    pub manifest_paths: Vec<String>,
    /// Advisories whose risk is accepted when the lockfiles are audited.
    pub i_accept_the_risk: Vec<String>,
    /// Whether `cargo update` runs before each fetch.
    pub update: bool,
    /// The project's top-level directory, relative to where the project was
    /// copied or unpacked, in place of the one found there.
    pub custom_root: Option<String>,
    /// Whether the top-level directory lacks a manifest, so that cargo runs
    /// only on the further manifests.
    pub no_root_manifest: bool,
}

/// The mathematical value of [`HomeRegistryArgs`].
pub ghost struct ArgsModel {
    pub target: Seq<char>,
    pub compression: Compression,
    pub tag: Option<Seq<char>>,
    pub outdir: Seq<char>,
    pub manifest_paths: Seq<Seq<char>>,
    pub i_accept_the_risk: Seq<Seq<char>>,
    pub update: bool,
    pub custom_root: Option<Seq<char>>,
    pub no_root_manifest: bool,
}

/// The value of an optional string.
pub open spec fn tag_model(tag: Option<String>) -> Option<Seq<char>> {
    match tag {
        Some(t) => Some(t@),
        None => None,
    }
}

impl View for HomeRegistryArgs {
    type V = ArgsModel;

    open spec fn view(&self) -> ArgsModel {
        ArgsModel {
            target: self.target@,
            compression: self.compression,
            tag: tag_model(self.tag),
            outdir: self.outdir@,
            manifest_paths: self.manifest_paths@.map_values(|m: String| m@),
            i_accept_the_risk: self.i_accept_the_risk@.map_values(|m: String| m@),
            update: self.update,
            custom_root: tag_model(self.custom_root),
            no_root_manifest: self.no_root_manifest,
        }
    }
}

/// The archive's name before its extension: `registry`, or `registry-<tag>`.
pub open spec fn archive_stem(tag: Option<Seq<char>>) -> Seq<char> {
    match tag {
        Some(t) => "registry-"@ + t,
        None => "registry"@,
    }
}

/// The archive's file name: the stem, a dot, the compression's extension.
pub open spec fn archive_name(tag: Option<Seq<char>>, c: Compression) -> Seq<char> {
    archive_stem(tag) + seq!['.'] + extension_of(c)
}

/// The file name of the registry archive for `tag` and `compression`:
/// `registry.<extension>`, or `registry-<tag>.<extension>` with the whole tag
/// kept, so that every tag names a registry of its own.
pub fn archive_file_name(tag: &Option<String>, compression: Compression) -> (name: String)
    ensures
        name@ == archive_name(tag_model(*tag), compression),
{
    proof {
        reveal_strlit(".");
    }
    let mut name = match tag {
        Some(t) => {
            let mut s = "registry-".to_owned();
            s.append(t.as_str());
            s
        },
        None => "registry".to_owned(),
    };
    name.append(".");
    name.append(compression.extension());
    name
}

} // verus!
