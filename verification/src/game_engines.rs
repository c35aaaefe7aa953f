//! The engines a game can be built on, as far as mods care.
use vstd::prelude::*;

verus! {

#[derive(Clone, Copy, Debug, PartialEq, Eq, Structural)]
pub enum EngineBrand {
    Unity,
    Unreal,
    Godot,
    GameMaker,
}

#[derive(Clone, Copy, Debug, PartialEq, Eq, Structural)]
pub enum UnityScriptingBackend {
    Il2Cpp,
    Mono,
}

#[derive(Clone, Copy, Debug, PartialEq, Eq)]
pub struct EngineVersionNumbers {
    pub major: u32,
    pub minor: Option<u32>,
    pub patch: Option<u32>,
}

} // verus!
