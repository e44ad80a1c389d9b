//! Core of an embeddable turtle-graphics scripting runtime.
//!
//! The crate provides the execution substrate that builtin commands of the
//! scripted language operate on: the dynamically typed [`value::Value`]
//! model, the scoped name bindings of [`env::Environment`], the builtin
//! library in [`builtins`], and the [`turtle::Turtle`] state machine that
//! turns geometric commands into recorded canvas mutations.
//!
//! Numeric quantities are held in milli-unit fixed point: an `i64` carries a
//! thousand fixed-point steps per unit (see [`value::MILLI`]). Positions,
//! angles in degrees, lengths and color channels all use this scale.

pub mod builtins;
pub mod canvas;
pub mod env;
pub mod error;
pub mod export;
pub mod trig;
pub mod turtle;
pub mod value;
