//! Core of an interactive list picker: an ordered collection of named,
//! numbered records with a wrap-around selection cursor, live filtering by
//! name substring or by decimal-id prefix, a cyclic display-mode ring, and a
//! pure viewport-windowing function for bounded-height displays.
//!
//! All I/O (reading directories and files, drawing, key decoding) lives
//! outside this crate; the library works on plain values handed in by its
//! caller and proves its behaviour with Verus.

pub mod file_picker;
pub mod filters;
pub mod modes;
pub mod playbook;
pub mod seq_util;
pub mod state;
pub mod tab_manager;
pub mod text;
pub mod viewport;
