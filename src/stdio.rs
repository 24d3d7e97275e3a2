//! The three standard streams, and a flag for each.
use vstd::prelude::*;

verus! {

/// One of the process's standard streams.
#[derive(Debug, Clone, Copy, PartialEq, Eq, Structural)]
pub enum StdStream {
    Stdin,
    Stdout,
    Stderr,
}

/// One boolean for each standard stream.
#[derive(Debug, Clone, Copy, PartialEq, Eq, Structural)]
pub struct StdioFlags {
    pub stdin: bool,
    pub stdout: bool,
    pub stderr: bool,
}

impl StdioFlags {
    /// The flag of one stream.
    pub open spec fn flag(self, s: StdStream) -> bool {
        match s {
            StdStream::Stdin => self.stdin,
            StdStream::Stdout => self.stdout,
            StdStream::Stderr => self.stderr,
        }
    }

    /// All three flags unset.
    pub fn none() -> (r: StdioFlags)
        ensures
            forall|s: StdStream| !r.flag(s),
    {
        StdioFlags { stdin: false, stdout: false, stderr: false }
    }

    pub fn get(&self, s: StdStream) -> (r: bool)
        ensures
            r == self.flag(s),
    {
        match s {
            StdStream::Stdin => self.stdin,
            StdStream::Stdout => self.stdout,
            StdStream::Stderr => self.stderr,
        }
    }

    /// Whether no stream's flag is set.
    pub fn is_empty(&self) -> (r: bool)
        ensures
            r == forall|s: StdStream| !self.flag(s),
    {
        let r = !self.stdin && !self.stdout && !self.stderr;
        proof {
            if !r {
                if self.stdin {
                    assert(self.flag(StdStream::Stdin));
                } else if self.stdout {
                    assert(self.flag(StdStream::Stdout));
                } else {
                    assert(self.flag(StdStream::Stderr));
                }
            }
        }
        r
    }
}

} // verus!
