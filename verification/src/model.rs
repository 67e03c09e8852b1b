use vstd::prelude::*;

use crate::status::BuildStatus;

verus! {

/// One build: a submission of an origin repository, a revision and a set
/// of input expressions, with its lifecycle state.
pub struct Build {
    pub id: i32,
    pub origin: String,
    pub rev: String,
    /// Submission time, in seconds of the server clock.
    pub created_at: i64,
    pub status: BuildStatus,
    /// Set exactly once, when the status reaches a terminal state.
    pub finished_at: Option<i64>,
    /// A diagnosable failure message; absent unless the build failed.
    pub error_msg: Option<String>,
}

impl Clone for Build {
    fn clone(&self) -> (r: Self)
        ensures
            r == *self,
    {
        Build {
            id: self.id,
            origin: self.origin.clone(),
            rev: self.rev.clone(),
            created_at: self.created_at,
            status: self.status,
            finished_at: self.finished_at,
            error_msg: match &self.error_msg {
                Some(e) => Some(e.clone()),
                None => None,
            },
        }
    }
}

/// One input expression path of a build, relative to the repository root.
pub struct Input {
    pub id: i32,
    pub build_id: i32,
    pub path: String,
}

impl Clone for Input {
    fn clone(&self) -> (r: Self)
        ensures
            r == *self,
    {
        Input { id: self.id, build_id: self.build_id, path: self.path.clone() }
    }
}

/// One realized store path, for one input on one target platform.
pub struct Output {
    pub id: i32,
    pub input_id: i32,
    pub system: String,
    pub store_path: String,
}

impl Clone for Output {
    fn clone(&self) -> (r: Self)
        ensures
            r == *self,
    {
        Output {
            id: self.id,
            input_id: self.input_id,
            system: self.system.clone(),
            store_path: self.store_path.clone(),
        }
    }
}

/// An input together with the outputs realized for it.
pub struct InputOutputs {
    pub input: Input,
    pub outputs: Vec<Output>,
}

} // verus!
