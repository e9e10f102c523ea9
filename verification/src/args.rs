//! The command line's plain values.

use vstd::prelude::*;

verus! {

/// A shell that completions can be generated for.
#[derive(Clone, Copy, PartialEq, Eq, Structural, Debug)]
pub enum Shell {
    Bash,
    Elvish,
    Fish,
    PowerShell,
    Zsh,
    Nushell,
}

} // verus!
