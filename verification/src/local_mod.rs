//! Mods found on disk.
use vstd::prelude::*;
use vstd::string::StringExecFns;

use crate::game_engines::{EngineBrand, UnityScriptingBackend};
use crate::game_mod::{CommonModData, CommonModDataView};
use crate::mod_loaders::mod_loader::ModLoaderId;
use crate::mod_manifest::{file_name_spec, Manifest};
use crate::paths::{file_stem, file_stem_of, join, joined, opt_text, str_eq};
use crate::result::{Error, ErrorView};

verus! {

#[derive(Clone, Copy, Debug, PartialEq, Eq, Structural)]
pub enum ModKind {
    Installable,
    Runnable,
}

/// The name of a kind of mod.
pub open spec fn mod_kind_name(kind: ModKind) -> Seq<char> {
    match kind {
        ModKind::Installable => "Installable"@,
        ModKind::Runnable => "Runnable"@,
    }
}

/// The kind of mod with a given name, if there is one.
pub open spec fn mod_kind_named(name: Seq<char>) -> Option<ModKind> {
    if name == "Installable"@ {
        Some(ModKind::Installable)
    } else if name == "Runnable"@ {
        Some(ModKind::Runnable)
    } else {
        None
    }
}

/// Parsing the name of a kind gives the kind back.
pub proof fn lemma_mod_kind_name_round_trip(kind: ModKind)
    ensures
        mod_kind_named(mod_kind_name(kind)) == Some(kind),
{
    reveal_strlit("Installable");
    reveal_strlit("Runnable");
    assert("Installable"@[0] == 'I');
    assert("Runnable"@[0] == 'R');
}

impl ModKind {
    pub fn name(self) -> (r: &'static str)
        ensures
            r@ == mod_kind_name(self),
    {
        match self {
            ModKind::Installable => "Installable",
            ModKind::Runnable => "Runnable",
        }
    }

    /// The kind whose name is `s`; any other text is an
    /// [`Error::UnknownEnumVariant`].
    pub fn from_str(s: &str) -> (r: Result<ModKind, Error>)
        ensures
            match r {
                Ok(kind) => mod_kind_named(s@) == Some(kind),
                Err(e) => mod_kind_named(s@) is None && e@ == ErrorView::UnknownEnumVariant(s@),
            },
    {
        if str_eq(s, "Installable") {
            Ok(ModKind::Installable)
        } else if str_eq(s, "Runnable") {
            Ok(ModKind::Runnable)
        } else {
            Err(Error::UnknownEnumVariant(String::from_str(s)))
        }
    }
}

#[derive(Debug, PartialEq, Eq)]
pub struct LocalModData {
    pub path: String,
    pub manifest: Option<Manifest>,
}

#[derive(Debug, PartialEq, Eq)]
pub struct LocalMod {
    pub data: LocalModData,
    pub common: CommonModData,
}

/// The mathematical value of a [`LocalModData`].
pub struct LocalModDataView {
    pub path: Seq<char>,
    pub manifest: Option<Manifest>,
}

/// The mathematical value of a [`LocalMod`].
pub struct LocalModView {
    pub data: LocalModDataView,
    pub common: CommonModDataView,
}

impl View for LocalModData {
    type V = LocalModDataView;

    open spec fn view(&self) -> LocalModDataView {
        LocalModDataView { path: self.path@, manifest: self.manifest }
    }
}

impl View for LocalMod {
    type V = LocalModView;

    open spec fn view(&self) -> LocalModView {
        LocalModView { data: self.data@, common: self.common@ }
    }
}

impl Clone for LocalModData {
    fn clone(&self) -> (r: Self)
        ensures
            r == *self,
    {
        LocalModData { path: self.path.clone(), manifest: self.manifest }
    }
}

impl Clone for LocalMod {
    fn clone(&self) -> (r: Self)
        ensures
            r == *self,
    {
        LocalMod { data: self.data.clone(), common: self.common.clone() }
    }
}

/// Where the manifest of the mod at `mod_path` lies.
pub fn get_manifest_path(mod_path: &str) -> (r: String)
    ensures
        r@ == joined(mod_path@, file_name_spec()),
{
    join(mod_path, Manifest::file_name())
}

/// The range of engine versions that a manifest declares, if any.
pub open spec fn declared_range(manifest: Option<Manifest>) -> Option<
    crate::game_mod::EngineVersionRange,
> {
    match manifest {
        Some(m) => m.engine_version_range,
        None => None,
    }
}

/// The record of the mod at `path` whose file name without extension is
/// `stem`, or the error for a path without one.
pub open spec fn local_mod_from(
    stem: Option<Seq<char>>,
    loader_id: ModLoaderId,
    path: Seq<char>,
    engine: Option<EngineBrand>,
    unity_backend: Option<UnityScriptingBackend>,
    manifest: Option<Manifest>,
) -> Result<LocalModView, ErrorView> {
    match stem {
        Some(id) => Ok(
            LocalModView {
                data: LocalModDataView { path, manifest },
                common: CommonModDataView {
                    id,
                    engine,
                    unity_backend,
                    engine_version_range: declared_range(manifest),
                    loader_id,
                },
            },
        ),
        None => Err(ErrorView::FailedToGetFileName(path)),
    }
}

/// The views of a local mod or an error.
pub open spec fn local_mod_result(r: Result<LocalMod, Error>) -> Result<LocalModView, ErrorView> {
    match r {
        Ok(m) => Ok(m@),
        Err(e) => Err(e@),
    }
}

impl LocalMod {
    /// Builds the record from the stem found for `path`: the stem is the
    /// mod's identifier, the manifest gives the version range.
    pub fn with_stem(
        stem: Option<String>,
        loader_id: ModLoaderId,
        path: &str,
        engine: Option<EngineBrand>,
        unity_backend: Option<UnityScriptingBackend>,
        manifest: Option<Manifest>,
    ) -> (r: Result<LocalMod, Error>)
        ensures
            local_mod_result(r) == local_mod_from(
                opt_text(stem),
                loader_id,
                path@,
                engine,
                unity_backend,
                manifest,
            ),
    {
        match stem {
            Some(id) => Ok(
                LocalMod {
                    common: CommonModData {
                        id,
                        engine,
                        engine_version_range: match manifest {
                            Some(m) => m.engine_version_range,
                            None => None,
                        },
                        unity_backend,
                        loader_id,
                    },
                    data: LocalModData { path: String::from_str(path), manifest },
                },
            ),
            None => Err(Error::FailedToGetFileName(String::from_str(path))),
        }
    }

    /// The folder to show for this mod. The caller opens it, or its parent
    /// where the path is a file.
    pub fn open_folder(&self) -> (r: String)
        ensures
            r@ == self.data.path@,
    {
        self.data.path.clone()
    }

    /// The record of the mod that a loader keeps at `path`, with the
    /// manifest that was read from [`get_manifest_path`], if there was one.
    /// The mod's identifier is the path's file name without its extension.
    pub fn new(
        loader_id: ModLoaderId,
        path: &str,
        engine: Option<EngineBrand>,
        unity_backend: Option<UnityScriptingBackend>,
        manifest: Option<Manifest>,
    ) -> (r: Result<LocalMod, Error>)
        ensures
            local_mod_result(r) == local_mod_from(
                file_stem_of(path@),
                loader_id,
                path@,
                engine,
                unity_backend,
                manifest,
            ),
    {
        LocalMod::with_stem(file_stem(path), loader_id, path, engine, unity_backend, manifest)
    }
}

} // verus!
