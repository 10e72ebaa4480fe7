//! A disk-backed index from symbols to the files that define them. A symbol
//! is stored under a fixed-width key derived from its kind and name
//! (`symbol_hash`); the index of global constants (`consts`) maps keys to
//! file ids and resolves them to root-relative paths (`path`).
pub mod consts;
pub mod path;
pub mod symbol_hash;
