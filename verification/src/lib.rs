//! Read-only MTK Preloader/BROM tooling: loader selection, the layout of the
//! bundled Python runtime, the command lines handed to `mtk.py`, and the
//! interpretation of what comes back.

pub mod text;
pub mod error;
pub mod paths;
pub mod loader;
pub mod commands;
pub mod python_runner;
pub mod archive;
