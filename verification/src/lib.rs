//! Core logic of a small tool that stamps STL (stereolithography) mesh
//! files with a version marker.
//!
//! The tool has two front ends: a command line that takes one file path,
//! reads the file and decodes it as an STL mesh, and a graphical window
//! that lets a user pick an `.stl` file and reports that it was loaded.
//! Everything those front ends decide or compute lives here, with
//! contracts; the front ends themselves only move bytes and events.

pub mod cli;
pub mod gui;
pub mod stl;
