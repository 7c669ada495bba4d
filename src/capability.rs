use vstd::prelude::*;

verus! {

/// A build capability that gates a whole family of commands.
#[derive(Clone, Copy, Debug, PartialEq, Eq, Structural)]
pub enum Capability {
    /// Integration with Git repositories.
    Git,
    /// Benchmarking tools.
    Bench,
}

/// The capabilities of one binary, resolved once at startup.
#[derive(Clone, Copy, Debug, PartialEq, Eq, Structural)]
pub struct CapabilitySet {
    pub git: bool,
    pub bench: bool,
}

impl CapabilitySet {
    /// Whether a descriptor with requirement `req` is compiled in.
    pub open spec fn allows(self, req: Option<Capability>) -> bool {
        match req {
            None => true,
            Some(Capability::Git) => self.git,
            Some(Capability::Bench) => self.bench,
        }
    }

    /// Every capability enabled.
    pub fn all() -> (r: CapabilitySet)
        ensures
            r.git && r.bench,
    {
        CapabilitySet { git: true, bench: true }
    }

    /// No optional capability enabled.
    pub fn none() -> (r: CapabilitySet)
        ensures
            !r.git && !r.bench,
    {
        CapabilitySet { git: false, bench: false }
    }

    pub fn permits(&self, req: Option<Capability>) -> (r: bool)
        ensures
            r == self.allows(req),
    {
        match req {
            None => true,
            Some(Capability::Git) => self.git,
            Some(Capability::Bench) => self.bench,
        }
    }
}

} // verus!
