//! A mod for a Unity game, named after its file.
use vstd::prelude::*;
use vstd::string::StringExecFns;

use crate::game_engines::UnityScriptingBackend;
use crate::paths::{file_name, file_name_of, opt_text};
use crate::result::{Error, ErrorView};

verus! {

#[derive(Debug, PartialEq, Eq)]
pub struct Mod {
    pub name: String,
    pub scripting_backend: UnityScriptingBackend,
    path: String,
}

/// The mathematical value of a [`Mod`].
pub struct ModView {
    pub name: Seq<char>,
    pub scripting_backend: UnityScriptingBackend,
    pub path: Seq<char>,
}

impl View for Mod {
    type V = ModView;

    closed spec fn view(&self) -> ModView {
        ModView { name: self.name@, scripting_backend: self.scripting_backend, path: self.path@ }
    }
}

/// The mod at `path` whose last component is `name`, or the error for a
/// path without one.
pub open spec fn mod_named(
    name: Option<Seq<char>>,
    path: Seq<char>,
    scripting_backend: UnityScriptingBackend,
) -> Result<ModView, ErrorView> {
    match name {
        Some(name) => Ok(ModView { name, scripting_backend, path }),
        None => Err(ErrorView::FailedToGetFileName(path)),
    }
}

/// The view of a mod or an error.
pub open spec fn mod_result(r: Result<Mod, Error>) -> Result<ModView, ErrorView> {
    match r {
        Ok(m) => Ok(m@),
        Err(e) => Err(e@),
    }
}

impl Mod {
    /// Where the mod lies.
    pub fn path(&self) -> (r: &String)
        ensures
            r@ == self@.path,
    {
        &self.path
    }

    /// Builds the mod from the file name found for `path`.
    pub fn with_name(
        name: Option<String>,
        path: &str,
        scripting_backend: &UnityScriptingBackend,
    ) -> (r: Result<Mod, Error>)
        ensures
            mod_result(r) == mod_named(opt_text(name), path@, *scripting_backend),
    {
        match name {
            Some(name) => Ok(
                Mod { path: String::from_str(path), name, scripting_backend: *scripting_backend },
            ),
            None => Err(Error::FailedToGetFileName(String::from_str(path))),
        }
    }

    /// The mod at `path`, named after the path's last component. A path
    /// without one is an [`Error::FailedToGetFileName`].
    pub fn new(path: &str, scripting_backend: &UnityScriptingBackend) -> (r: Result<Mod, Error>)
        ensures
            mod_result(r) == mod_named(file_name_of(path@), path@, *scripting_backend),
    {
        Mod::with_name(file_name(path), path, scripting_backend)
    }
}

} // verus!
