//! Renaming of the fixed helper names used by emitted script.

use vstd::prelude::*;

verus! {

/// Maps a helper name of the emitted script to the identifier it is bound to.
pub trait Flate {
    /// The identifier that `a` is bound to.
    spec fn flate_spec(&self, a: Seq<char>) -> Seq<char>;

    fn flate(&self, a: &str) -> (r: String)
        ensures
            r@ == self.flate_spec(a@),
    ;
}

/// Keeps every name as it is, for readable output.
#[derive(Clone, Copy, Debug, Default, PartialEq, Eq, PartialOrd, Ord, Hash)]
pub struct DebugFlate {}

impl Flate for DebugFlate {
    open spec fn flate_spec(&self, a: Seq<char>) -> Seq<char> {
        a
    }

    fn flate(&self, a: &str) -> (r: String) {
        a.to_owned()
    }
}

/// Shortens the helper names to one letter each, for compact output.
#[derive(Clone, Copy, Debug, Default, PartialEq, Eq, PartialOrd, Ord, Hash)]
pub struct ReleaseFlate {}

/// The one-letter alias of a helper name; other names are kept.
pub open spec fn release_alias(a: Seq<char>) -> Seq<char> {
    if a == "max64"@ {
        "f"@
    } else if a == "max32"@ {
        "g"@
    } else if a == "signed"@ {
        "s"@
    } else if a == "unsigned"@ {
        "u"@
    } else if a == "data"@ {
        "d"@
    } else {
        a
    }
}

impl Flate for ReleaseFlate {
    open spec fn flate_spec(&self, a: Seq<char>) -> Seq<char> {
        release_alias(a)
    }

    fn flate(&self, a: &str) -> (r: String) {
        let s = a.to_owned();
        if s == "max64".to_owned() {
            "f".to_owned()
        } else if s == "max32".to_owned() {
            "g".to_owned()
        } else if s == "signed".to_owned() {
            "s".to_owned()
        } else if s == "unsigned".to_owned() {
            "u".to_owned()
        } else if s == "data".to_owned() {
            "d".to_owned()
        } else {
            s
        }
    }
}

} // verus!
