//! Inspects in-memory byte buffers that may hold executable or object-file
//! images (ELF, PE/COFF, Mach-O, static archives), identifies the format and
//! extracts a normalized metadata record per object, traversing archives and
//! multi-architecture Mach-O containers recursively.

pub mod decode;
pub mod dispatch;
pub mod errors;
pub mod extract;
pub mod heur;
pub mod records;
pub mod strutil;
pub mod types;
pub mod views;
