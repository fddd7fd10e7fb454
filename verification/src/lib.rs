//! Verified core of a model-conversion pipeline for game assets.
//!
//! The library sequences external decompilation, texture-conversion and
//! compilation tools over one model file or a whole directory of them.
//! Everything that decides — which stages run and in what order, which
//! files are eligible, how a run reacts to a per-item failure, when the
//! progress flag flips — is verified here.  The thin shell that actually
//! spawns processes and reads the file system lives outside the library
//! and only drives the state machine defined in these modules.

pub mod cli;
pub mod config;
pub mod gui;
pub mod i18n;
pub mod run;
pub mod s2g;
pub mod steps;
pub mod sync;
pub mod utils;
pub mod walker;
