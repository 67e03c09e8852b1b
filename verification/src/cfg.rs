use vstd::prelude::*;

use crate::repo::spec_logfile_path;
use crate::repo::logfile_path;

verus! {

/// Where realized outputs are published after a successful build.
pub enum Publish {
    /// No publication: the post-build hook does nothing.
    Disabled,
    /// Upload to a signed S3 binary cache.
    S3 {
        bucket: String,
        region: String,
        access_key: String,
        secret_key: String,
        nix_signing_key: String,
    },
}

impl Clone for Publish {
    fn clone(&self) -> (r: Self)
        ensures
            r == *self,
    {
        match self {
            Publish::Disabled => Publish::Disabled,
            Publish::S3 { bucket, region, access_key, secret_key, nix_signing_key } => Publish::S3 {
                bucket: bucket.clone(),
                region: region.clone(),
                access_key: access_key.clone(),
                secret_key: secret_key.clone(),
                nix_signing_key: nix_signing_key.clone(),
            },
        }
    }
}

/// The worker's configuration.
pub struct Config {
    pub build_shell: String,
    pub git_ssh_key: Option<String>,
    /// Matches the format the package manager's builder option accepts.
    pub builders: Vec<String>,
    pub target_platforms: Vec<String>,
    pub log_path: String,
    pub scm_path: String,
    pub publish: Publish,
    pub database_url: String,
}

/// The platforms a build realizes each input for when the configuration
/// names none.
pub fn default_target_platforms() -> (r: Vec<String>)
    ensures
        r.deep_view() =~= seq!["x86_64-linux"@, "x86_64-darwin"@],
{
    let mut r: Vec<String> = Vec::new();
    r.push(String::from_str("x86_64-linux"));
    r.push(String::from_str("x86_64-darwin"));
    proof {
        assert(r.deep_view() =~= seq!["x86_64-linux"@, "x86_64-darwin"@]);
    }
    r
}

impl Config {
    /// The log file of a build under this configuration.
    pub fn logfile(&self, id: i32) -> (r: String)
        ensures
            r@ == spec_logfile_path(self.log_path@, id as int),
    {
        logfile_path(self.log_path.as_str(), id)
    }

    /// The SSH command the fetches run under: plain `ssh`, or one pinned
    /// to the configured identity with host key checking relaxed.
    pub fn ssh_command(&self) -> (r: String)
        ensures
            r@ == (match self.git_ssh_key {
                Option::Some(k) => "ssh -i "@ + k@ + " -o IdentitiesOnly=yes -o StrictHostKeyChecking=no"@,
                Option::None => "ssh"@,
            }),
    {
        match &self.git_ssh_key {
            Some(k) => {
                let mut r = String::from_str("ssh -i ");
                r.append(k.as_str());
                r.append(" -o IdentitiesOnly=yes -o StrictHostKeyChecking=no");
                proof {
                    assert(r@ =~= "ssh -i "@ + k@
                        + " -o IdentitiesOnly=yes -o StrictHostKeyChecking=no"@);
                }
                r
            },
            None => String::from_str("ssh"),
        }
    }
}

} // verus!
