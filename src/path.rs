//! Root-relative paths as the file-location store records them: a root
//! category and a path fragment under that root.
use vstd::prelude::*;

verus! {

/// The root a path is relative to, stored as an integer code.
#[derive(Clone, Copy, Debug, PartialEq, Eq, Structural)]
pub enum Prefix {
    /// The repository root (code 0).
    Root,
    /// The directory of bundled library definitions (code 1).
    Hhi,
    /// No root at all (code 2).
    Dummy,
    /// The temporary directory (code 3).
    Tmp,
}

/// The prefix stored under `code`, if any.
pub open spec fn prefix_of_code(code: i64) -> Option<Prefix> {
    if code == 0 {
        Some(Prefix::Root)
    } else if code == 1 {
        Some(Prefix::Hhi)
    } else if code == 2 {
        Some(Prefix::Dummy)
    } else if code == 3 {
        Some(Prefix::Tmp)
    } else {
        None
    }
}

impl Prefix {
    pub open spec fn spec_code(self) -> i64 {
        match self {
            Prefix::Root => 0,
            Prefix::Hhi => 1,
            Prefix::Dummy => 2,
            Prefix::Tmp => 3,
        }
    }

    /// Decodes a stored prefix code.
    pub fn from_code(code: i64) -> (r: Option<Prefix>)
        ensures
            r == prefix_of_code(code),
    {
        if code == 0 {
            Some(Prefix::Root)
        } else if code == 1 {
            Some(Prefix::Hhi)
        } else if code == 2 {
            Some(Prefix::Dummy)
        } else if code == 3 {
            Some(Prefix::Tmp)
        } else {
            None
        }
    }

    /// The code under which this prefix is stored.
    pub fn code(&self) -> (r: i64)
        ensures
            r == self.spec_code(),
            prefix_of_code(r) == Some(*self),
    {
        match self {
            Prefix::Root => 0,
            Prefix::Hhi => 1,
            Prefix::Dummy => 2,
            Prefix::Tmp => 3,
        }
    }
}

/// A path fragment under one of the roots.
#[derive(Clone, Debug)]
pub struct RelativePath {
    pub prefix: Prefix,
    pub suffix: String,
}

impl RelativePath {
    /// Assembles a path from its root and its fragment.
    pub fn make(prefix: Prefix, suffix: String) -> (r: RelativePath)
        ensures
            r.prefix == prefix,
            r.suffix@ == suffix@,
    {
        RelativePath { prefix, suffix }
    }

    pub fn prefix(&self) -> (r: Prefix)
        ensures
            r == self.prefix,
    {
        self.prefix
    }

    pub fn suffix(&self) -> (r: &str)
        ensures
            r@ == self.suffix@,
    {
        self.suffix.as_str()
    }
}

} // verus!
