//! An interpreter for a small language of keyboard scripts.
//!
//! A script is a sequence of statements, each closed by a semicolon:
//!
//! ```text
//! "Hello";            // type a text, 50 ms after each character
//! ("Hello", 10);      // type a text with a delay of its own
//! 250;                // sleep for 250 ms
//! [Ctrl, Shift, A];   // press the keys of a chord, then release them
//! ```
//!
//! [`tokenizer`] splits the text into tokens, [`parser`] reads the tokens as
//! actions with the help of the key resolver in [`keys`], and [`typewriter`]
//! works out the steps of each action: key events and waits.
//! [`parser::run_script`] does all of it. The library performs nothing
//! itself; the caller hands the key events to the keyboard and does the
//! waiting. [`watcher`] decides when an input event ends the run.
//!
//! The functions are verified against contracts over a mathematical model:
//! texts are sequences of characters, and tokens, actions and errors have
//! views made of such sequences. Three calls into the standard library are
//! taken on trust; they are wrapped in [`text`]. [`source`] and [`comments`]
//! hold what is proved of the language as a whole.

pub mod comments;
pub mod error;
pub mod keys;
pub mod macros;
pub mod parser;
pub mod source;
pub mod text;
pub mod token;
pub mod tokenizer;
pub mod typewriter;
pub mod watcher;
