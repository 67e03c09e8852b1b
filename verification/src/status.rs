use vstd::prelude::*;

verus! {

/// Lifecycle state of a build, as stored in the build store.
///
/// `Queued` is the initial state of a freshly submitted build. A build in
/// one of the terminal states (`Succeeded`, `Failed`, `Canceled`) is never
/// moved out of it by a running build task; only an explicit restart
/// re-enters the lifecycle.
#[derive(Debug, Copy, Clone, PartialEq, Eq, Structural)]
pub enum BuildStatus {
    Queued,
    Building,
    Uploading,
    Succeeded,
    Failed,
    Canceled,
}

impl BuildStatus {
    /// A terminal status is never left by a build task.
    pub open spec fn spec_is_terminal(self) -> bool {
        self == BuildStatus::Succeeded || self == BuildStatus::Failed || self
            == BuildStatus::Canceled
    }

    #[verifier::when_used_as_spec(spec_is_terminal)]
    pub fn is_terminal(self) -> (r: bool)
        ensures
            r == self.spec_is_terminal(),
    {
        match self {
            BuildStatus::Succeeded => true,
            BuildStatus::Failed => true,
            BuildStatus::Canceled => true,
            _ => false,
        }
    }
}

} // verus!
