//! Code generation for two expanders of a level-editor integration: the
//! `sprite_bundle` attribute, which builds one field of a bundle, and the
//! int-cell derive, which builds a whole trait implementation.
//!
//! The input is a plain description of the annotated item ([`syntax`]); the
//! output is Rust source text. Every function states in its contract which
//! text it emits and on which inputs it refuses. Questions of Rust syntax go
//! to `syn` ([`parse`]); what it answers is taken on trust and named in the
//! contracts.
//!
//! - [`attributes`]: the `sprite_bundle` attribute.
//! - [`selection`]: which attribute of a field decides how it is built.
//! - [`ldtk_int_cell`]: the four field attributes and the derive.
//! - [`theorems`]: what holds of every expansion of the derive.
//! - [`initializer`], [`literal`], [`error`]: what the expanders emit and why
//!   they refuse.

pub mod syntax;
pub mod literal;
pub mod error;
pub mod initializer;
pub mod parse;
pub mod attributes;
pub mod selection;
pub mod ldtk_int_cell;
pub mod theorems;
