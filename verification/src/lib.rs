//! A Vietnamese input method engine.
//!
//! The crate converts a stream of ASCII keystrokes, typed under either the
//! Telex or the VNI convention, into composed Vietnamese syllables with
//! correct diacritic placement.  It keeps a per-word composition buffer,
//! validates the evolving syllable against Vietnamese phonology, expands
//! user-defined abbreviations, and reports each change as an edit script
//! (a backspace count plus replacement text) that a host can mirror into
//! the focused application.
//!
//! Two engines are provided.  The character-based [`engine::Engine`] is the
//! full pipeline: smart quotes, auto-capitalisation, foreign-word detection
//! with auto-restore at word boundaries, and shortcut expansion.  The
//! keycode-based [`processor::Processor`] is a smaller pipeline working on
//! virtual keycodes with explicit per-unit diacritic state.

pub mod buffer;
pub mod chars;
pub mod composition;
pub mod differ;
pub mod engine;
pub mod keycodes;
pub mod keys;
pub mod mark;
pub mod methods;
pub mod marks;
pub mod phonology;
pub mod processor;
pub mod rules;
pub mod shortcut;
pub mod shortcuts;
pub mod strings;
pub mod tone;
pub mod transform;
pub mod unicode;
pub mod validation;
pub mod validator;

use vstd::prelude::*;

verus! {

/// Maximum number of characters a composition buffer holds; pushes past
/// this bound are dropped until the buffer is cleared.
pub const MAX_BUFFER_SIZE: usize = 32;

} // verus!
