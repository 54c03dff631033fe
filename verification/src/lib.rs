//! A toolkit for wrapping expressions and methods with aspects.
//!
//! The pointcut traits say how an aspect observes an expression, `expansion` holds the
//! control structure that wraps one, `update` lets an aspect change a value while its type
//! stays the same, and `weave` rewrites the annotated methods of an `impl` block.

pub mod expansion;
pub mod guarantees;
pub mod pointcut;
pub mod shared;
pub mod syntax;
pub mod update;
pub mod weave;
pub mod woven_fns;

pub use pointcut::{Advice, Enter, OnResult, OnResultMut};
pub use weave::Weave;
