//! Script statements written as values.
//!
//! A script can be put together from ordinary values in place of text: a
//! string stands for typing it, a pair of a string and a number for typing it
//! with that delay, a number for a sleep. [`ScriptAction`] says which action
//! a value stands for.

use crate::parser::{action_steps, ActionView, DEFAULT_DELAY_MS};
use crate::typewriter::{sleep, type_string, Step};
use vstd::prelude::*;
use vstd::string::StringExecFns;

verus! {

/// A value that stands for one action of a script.
pub trait ScriptAction: Sized {
    /// The action that this value stands for.
    spec fn action(self) -> ActionView;

    /// The steps of the action that this value stands for.
    fn run(self) -> (steps: Vec<Step>)
        ensures
            steps@ == action_steps(self.action()),
    ;
}

/// The number of milliseconds that a signed number stands for: a negative
/// number counts from the top of the 64-bit range.
pub open spec fn wrapped_millis(n: int) -> u64
    recommends
        -0x8000_0000_0000_0000 <= n < 0x1_0000_0000_0000_0000,
{
    if n >= 0 {
        n as u64
    } else {
        (n + 0x1_0000_0000_0000_0000) as u64
    }
}

impl ScriptAction for &str {
    open spec fn action(self) -> ActionView {
        ActionView::TypeText { text: self@, delay_ms: DEFAULT_DELAY_MS }
    }

    fn run(self) -> (steps: Vec<Step>) {
        type_string(String::from_str(self), DEFAULT_DELAY_MS)
    }
}

impl ScriptAction for String {
    open spec fn action(self) -> ActionView {
        ActionView::TypeText { text: self@, delay_ms: DEFAULT_DELAY_MS }
    }

    fn run(self) -> (steps: Vec<Step>) {
        type_string(self, DEFAULT_DELAY_MS)
    }
}

impl ScriptAction for (&str, u64) {
    open spec fn action(self) -> ActionView {
        ActionView::TypeText { text: self.0@, delay_ms: self.1 }
    }

    fn run(self) -> (steps: Vec<Step>) {
        type_string(String::from_str(self.0), self.1)
    }
}

impl ScriptAction for (String, u64) {
    open spec fn action(self) -> ActionView {
        ActionView::TypeText { text: self.0@, delay_ms: self.1 }
    }

    fn run(self) -> (steps: Vec<Step>) {
        type_string(self.0, self.1)
    }
}

impl ScriptAction for u64 {
    open spec fn action(self) -> ActionView {
        ActionView::Sleep { duration_ms: self }
    }

    fn run(self) -> (steps: Vec<Step>) {
        sleep(self)
    }
}

impl ScriptAction for u32 {
    open spec fn action(self) -> ActionView {
        ActionView::Sleep { duration_ms: self as u64 }
    }

    fn run(self) -> (steps: Vec<Step>) {
        sleep(self as u64)
    }
}

impl ScriptAction for usize {
    open spec fn action(self) -> ActionView {
        ActionView::Sleep { duration_ms: self as u64 }
    }

    fn run(self) -> (steps: Vec<Step>) {
        sleep(self as u64)
    }
}

impl ScriptAction for i32 {
    open spec fn action(self) -> ActionView {
        ActionView::Sleep { duration_ms: wrapped_millis(self as int) }
    }

    fn run(self) -> (steps: Vec<Step>) {
        let n = self;
        assert(n >= 0 ==> #[verifier::truncate] (n as u64) == n) by (bit_vector);
        assert(n < 0 ==> #[verifier::truncate] (n as u64) == n + 0x1_0000_0000_0000_0000)
            by (bit_vector);
        sleep(#[verifier::truncate] (n as u64))
    }
}

impl ScriptAction for i64 {
    open spec fn action(self) -> ActionView {
        ActionView::Sleep { duration_ms: wrapped_millis(self as int) }
    }

    fn run(self) -> (steps: Vec<Step>) {
        let n = self;
        assert(n >= 0 ==> #[verifier::truncate] (n as u64) == n) by (bit_vector);
        assert(n < 0 ==> #[verifier::truncate] (n as u64) == n + 0x1_0000_0000_0000_0000)
            by (bit_vector);
        sleep(#[verifier::truncate] (n as u64))
    }
}

} // verus!
