use vstd::prelude::*;

use crate::cfg::Publish;
use crate::numbers::spec_dec_digits;
use crate::numbers::u64_to_string;

verus! {

/// The post-build hook for a publication choice: a no-op without
/// publication, the S3 upload script with it. The signing key path names
/// the file the runner wrote the signing key to.
pub open spec fn spec_post_build_script(p: Publish, signing_key_path: Seq<char>) -> Seq<char> {
    match p {
        Publish::Disabled => spec_none_script(),
        Publish::S3 { bucket, region, access_key, secret_key, nix_signing_key } => spec_s3_script(
            access_key@,
            secret_key@,
            spec_cache_uri(bucket@, region@, signing_key_path),
        ),
    }
}

/// Renders the post-build hook for a publication choice.
pub fn post_build_script(p: &Publish, signing_key_path: &str) -> (r: String)
    ensures
        r@ == spec_post_build_script(*p, signing_key_path@),
{
    match p {
        Publish::Disabled => none_script(),
        Publish::S3 { bucket, region, access_key, secret_key, nix_signing_key: _ } => {
            let uri = cache_uri(bucket.as_str(), region.as_str(), signing_key_path);
            s3_script(access_key.as_str(), secret_key.as_str(), uri.as_str())
        },
    }
}

/// The disk-pressure band handed to the package manager: collection
/// starts once free space falls under 15% of the filesystem and stops
/// once half of it is free.
pub fn disk_reserve(filesystem_bytes: u64) -> (r: (u64, u64))
    ensures
        r.0 == filesystem_bytes as int * 15 / 100,
        r.1 == filesystem_bytes as int / 2,
{
    let wide: u128 = filesystem_bytes as u128;
    let min_free_wide: u128 = wide * 15 / 100;
    proof {
        assert(wide * 15 / 100 <= wide) by (nonlinear_arith)
            requires
                wide >= 0,
        ;
    }
    let min_free: u64 = min_free_wide as u64;
    let max_free: u64 = filesystem_bytes / 2;
    (min_free, max_free)
}

/// The binary-cache URI for an S3 bucket: region and signing key are
/// carried as query parameters, listings and logs are compressed.
pub open spec fn spec_cache_uri(bucket: Seq<char>, region: Seq<char>, key_path: Seq<char>) -> Seq<
    char,
> {
    "s3://"@ + bucket + "?region="@ + region + "&secret-key="@ + key_path
        + "&write-nar-listing=1&ls-compression=br&log-compression=br&parallel-compression=1"@
}

/// Renders the binary-cache URI.
pub fn cache_uri(bucket: &str, region: &str, key_path: &str) -> (r: String)
    ensures
        r@ == spec_cache_uri(bucket@, region@, key_path@),
{
    let mut r = String::from_str("s3://");
    r.append(bucket);
    r.append("?region=");
    r.append(region);
    r.append("&secret-key=");
    r.append(key_path);
    r.append("&write-nar-listing=1&ls-compression=br&log-compression=br&parallel-compression=1");
    proof {
        assert(r@ =~= spec_cache_uri(bucket@, region@, key_path@));
    }
    r
}

/// The post-build hook used when no publication is configured: it does
/// nothing and succeeds.
pub open spec fn spec_none_script() -> Seq<char> {
    "#!/bin/sh\nexit 0\n"@
}

/// Renders the no-op post-build hook.
pub fn none_script() -> (r: String)
    ensures
        r@ == spec_none_script(),
{
    String::from_str("#!/bin/sh\nexit 0\n")
}

/// The S3 post-build hook: exports the access keys and copies each
/// realized store path to the signed binary cache.
pub open spec fn spec_s3_script(key: Seq<char>, secret: Seq<char>, uri: Seq<char>) -> Seq<char> {
    "#!/bin/sh\nset -eu\nexport AWS_ACCESS_KEY_ID='"@ + key + "'\nexport AWS_SECRET_ACCESS_KEY='"@
        + secret + "'\nexec nix copy --to '"@ + uri + "' $OUT_PATHS\n"@
}

/// Renders the S3 post-build hook.
pub fn s3_script(key: &str, secret: &str, uri: &str) -> (r: String)
    ensures
        r@ == spec_s3_script(key@, secret@, uri@),
{
    let mut r = String::from_str("#!/bin/sh\nset -eu\nexport AWS_ACCESS_KEY_ID='");
    r.append(key);
    r.append("'\nexport AWS_SECRET_ACCESS_KEY='");
    r.append(secret);
    r.append("'\nexec nix copy --to '");
    r.append(uri);
    r.append("' $OUT_PATHS\n");
    proof {
        assert(r@ =~= spec_s3_script(key@, secret@, uri@));
    }
    r
}

/// The S3 post-build hook's ingredients, kept together so the script
/// can be rendered where it is written.
pub struct S3 {
    pub key: String,
    pub secret: String,
    pub cache_uri: String,
}

impl S3 {
    /// Renders the hook script.
    pub fn render(&self) -> (r: String)
        ensures
            r@ == spec_s3_script(self.key@, self.secret@, self.cache_uri@),
    {
        s3_script(self.key.as_str(), self.secret.as_str(), self.cache_uri.as_str())
    }
}

/// Pieces joined by a separator, in order.
pub open spec fn spec_join(parts: Seq<Seq<char>>, sep: Seq<char>) -> Seq<char>
    decreases parts.len(),
{
    if parts.len() == 0 {
        Seq::empty()
    } else if parts.len() == 1 {
        parts.last()
    } else {
        spec_join(parts.drop_last(), sep) + sep + parts.last()
    }
}

/// Joins the configured builder specs into the package manager's
/// semicolon-separated builder list.
pub fn join_builders(builders: &Vec<String>) -> (r: String)
    ensures
        r@ == spec_join(builders.deep_view(), "; "@),
{
    let mut r = String::new();
    let n = builders.len();
    let mut i: usize = 0;
    while i < n
        invariant
            n == builders@.len(),
            0 <= i <= n,
            r@ == spec_join(builders.deep_view().take(i as int), "; "@),
        decreases n - i,
    {
        if i > 0 {
            r.append("; ");
        }
        r.append(builders[i].as_str());
        proof {
            let parts = builders.deep_view();
            assert(parts.take(i + 1).drop_last() =~= parts.take(i as int));
            assert(parts.take(i + 1).last() == parts[i as int]);
            assert(r@ =~= spec_join(parts.take(i + 1), "; "@));
        }
        i = i + 1;
    }
    proof {
        assert(builders.deep_view().take(n as int) =~= builders.deep_view());
    }
    r
}

/// The per-build package-manager configuration: the disk-pressure band,
/// the remote builder list, and the post-build hook path.
pub open spec fn spec_nix_conf(
    min_free: int,
    max_free: int,
    builders: Seq<char>,
    hook: Seq<char>,
) -> Seq<char> {
    "min-free = "@ + spec_dec_digits(min_free) + "\nmax-free = "@ + spec_dec_digits(max_free)
        + "\nbuilders = "@ + builders + "\npost-build-hook = "@ + hook + "\n"@
}

/// Renders the per-build package-manager configuration.
pub fn nix_conf(min_free: u64, max_free: u64, builders: &str, hook: &str) -> (r: String)
    ensures
        r@ == spec_nix_conf(min_free as int, max_free as int, builders@, hook@),
{
    let mut r = String::from_str("min-free = ");
    let n1 = u64_to_string(min_free);
    r.append(n1.as_str());
    r.append("\nmax-free = ");
    let n2 = u64_to_string(max_free);
    r.append(n2.as_str());
    r.append("\nbuilders = ");
    r.append(builders);
    r.append("\npost-build-hook = ");
    r.append(hook);
    r.append("\n");
    proof {
        assert(r@ =~= spec_nix_conf(min_free as int, max_free as int, builders@, hook@));
    }
    r
}

} // verus!
