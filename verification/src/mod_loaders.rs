//! The mod-distribution ecosystems and what each of them can do.
pub mod mod_loader;
