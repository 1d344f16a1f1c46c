//! A verified marshalling layer between statically typed builtin values and a
//! dynamically tagged universal value container (`Variant`), of the kind a game
//! engine passes across its extension ABI.
//!
//! The library models the container as a tagged union whose tag always matches
//! its payload, and proves the conversion contract for every supported type:
//! encoding always yields a container with the type's designated tag, decoding
//! performs a strict tag check (no numeric or element-kind coercion) and either
//! reconstructs the value exactly or reports a `BadType` error carrying the
//! expected tag, the observed tag, and a copy of the offending container.
//!
//! Floating-point payloads are carried as their bit patterns: this layer moves
//! values across the boundary and never interprets numeric content.

pub mod builtin;
pub mod convert_error;
pub mod impls_by_ref;
pub mod impls_by_value;
pub mod impls_special;
pub mod laws;
pub mod meta;
pub mod property;
pub mod variant;
pub mod variant_type;
