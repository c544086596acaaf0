//! Names of the command-line surface.
//!
//! The command and argument definitions themselves are built with an
//! argument-parsing crate outside this library; what is pinned down here
//! is the one name each of them answers to, so that every part of the
//! program, the delegate subprocess invocation included, spells them the
//! same way.

use vstd::prelude::*;

verus! {

/// The no-sync flag: do not commit and sync changes, keep the store dirty.
pub struct ArgNoSync {}

impl ArgNoSync {
    pub fn name() -> (r: &'static str)
        ensures
            r@ == "no-sync"@,
    {
        "no-sync"
    }
}

/// The property argument: select one property of a secret.
pub struct ArgProperty {}

impl ArgProperty {
    pub fn name() -> (r: &'static str)
        ensures
            r@ == "property"@,
    {
        "property"
    }
}

/// The copy command: copy a secret to the clipboard.
pub struct CmdCopy {}

impl CmdCopy {
    pub fn name() -> (r: &'static str)
        ensures
            r@ == "copy"@,
    {
        "copy"
    }
}

/// The duplicate command: duplicate a secret.
pub struct CmdDuplicate {}

impl CmdDuplicate {
    pub fn name() -> (r: &'static str)
        ensures
            r@ == "duplicate"@,
    {
        "duplicate"
    }
}

/// The list command: list the secrets in the store.
pub struct CmdList {}

impl CmdList {
    pub fn name() -> (r: &'static str)
        ensures
            r@ == "list"@,
    {
        "list"
    }
}

/// The new command: add a new secret.
pub struct CmdNew {}

impl CmdNew {
    pub fn name() -> (r: &'static str)
        ensures
            r@ == "new"@,
    {
        "new"
    }
}

/// The show command: display a secret.
pub struct CmdShow {}

impl CmdShow {
    pub fn name() -> (r: &'static str)
        ensures
            r@ == "show"@,
    {
        "show"
    }
}

} // verus!
