//! The manifest a mod may carry beside its files.
use vstd::prelude::*;

use crate::game_engines::{EngineBrand, UnityScriptingBackend};
use crate::game_mod::EngineVersionRange;

verus! {

/// What a mod declares of the games it is compatible with.
#[derive(Clone, Copy, Debug, PartialEq, Eq)]
pub struct Manifest {
    pub engine: Option<EngineBrand>,
    pub unity_backend: Option<UnityScriptingBackend>,
    pub engine_version_range: Option<EngineVersionRange>,
}

/// The name of the manifest file inside a mod's folder.
pub open spec fn file_name_spec() -> Seq<char> {
    "rai-pal.json"@
}

impl Manifest {
    /// The name of the manifest file inside a mod's folder.
    pub fn file_name() -> (r: &'static str)
        ensures
            r@ == file_name_spec(),
    {
        "rai-pal.json"
    }
}

} // verus!
