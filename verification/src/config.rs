use vstd::prelude::*;

use crate::repo::spec_logfile_path;
use crate::repo::logfile_path;

verus! {

/// The components a configuration file can belong to.
#[derive(Debug, Clone, Copy, PartialEq, Eq, Structural)]
pub enum Component {
    Web,
    Worker,
}

impl Component {
    /// The component's name, as used in its configuration file name.
    pub fn name(&self) -> (r: &'static str)
        ensures
            r@ == (match self {
                Component::Web => "web"@,
                Component::Worker => "worker"@,
            }),
    {
        match self {
            Component::Web => "web",
            Component::Worker => "worker",
        }
    }
}

/// The configuration file of a component under a configuration root:
/// the component's name with a `toml` extension.
pub fn config_file_path(root: &str, component: Component) -> (r: String)
    ensures
        r@ == root@ + seq!['/'] + (match component {
            Component::Web => "web"@,
            Component::Worker => "worker"@,
        }) + ".toml"@,
{
    proof {
        reveal_strlit("/");
    }
    let mut r = String::from_str(root);
    r.append("/");
    r.append(component.name());
    r.append(".toml");
    proof {
        assert(r@ =~= root@ + seq!['/'] + (match component {
            Component::Web => "web"@,
            Component::Worker => "worker"@,
        }) + ".toml"@);
    }
    r
}

/// A flat worker configuration, with every secret inline.
pub struct WorkerConfig {
    pub log_path: String,
    pub scm_path: String,
    pub cache_bucket: String,
    pub s3_region: String,
    pub lockfile: String,
    pub signing_key: String,
    pub aws_access_key: String,
    pub aws_secret_key: String,
    pub ssh_private_key: String,
    pub shell: String,
    /// Matches the format the package manager's builder option accepts.
    pub builders: Vec<String>,
}

impl WorkerConfig {
    /// The log file of a build under this configuration.
    pub fn logfile(&self, id: i32) -> (r: String)
        ensures
            r@ == spec_logfile_path(self.log_path@, id as int),
    {
        logfile_path(self.log_path.as_str(), id)
    }
}

} // verus!
