use vstd::prelude::*;

use sha1::Digest;

use crate::numbers::spec_dec_int;
use crate::numbers::i32_to_string;

verus! {

use vstd::string::StringSliceAdditionalSpecFns;

/// The SHA-1 digest of a byte sequence, the stable hash that names the
/// bare repository directory of an origin.
pub uninterp spec fn spec_sha1(data: Seq<u8>) -> Seq<u8>;

/// Relies on sha1's `Sha1` hasher: the SHA-1 digest, 20 bytes determined
/// by the input bytes alone.
#[verifier::external_body]
fn sha1_digest(data: &[u8]) -> (r: Vec<u8>)
    ensures
        r@ == spec_sha1(data@),
        r@.len() == 20,
{
    sha1::Sha1::digest(data).to_vec()
}

/// The lowercase hexadecimal digit for `d` (0 through 15).
pub open spec fn spec_hex_char(d: int) -> char
    recommends
        0 <= d < 16,
{
    if d == 0 {
        '0'
    } else if d == 1 {
        '1'
    } else if d == 2 {
        '2'
    } else if d == 3 {
        '3'
    } else if d == 4 {
        '4'
    } else if d == 5 {
        '5'
    } else if d == 6 {
        '6'
    } else if d == 7 {
        '7'
    } else if d == 8 {
        '8'
    } else if d == 9 {
        '9'
    } else if d == 10 {
        'a'
    } else if d == 11 {
        'b'
    } else if d == 12 {
        'c'
    } else if d == 13 {
        'd'
    } else if d == 14 {
        'e'
    } else {
        'f'
    }
}

/// The lowercase hexadecimal rendering of a byte sequence: two digits per
/// byte, high nibble first.
pub open spec fn spec_hex_lower(b: Seq<u8>) -> Seq<char>
    decreases b.len(),
{
    if b.len() == 0 {
        Seq::empty()
    } else {
        spec_hex_lower(b.drop_last()) + seq![
            spec_hex_char(b.last() as int / 16),
            spec_hex_char(b.last() as int % 16),
        ]
    }
}

/// Relies on base16ct::lower::encode_string: the lowercase hex encoding
/// of the input, two digits per byte, high nibble first.
#[verifier::external_body]
fn hex_lower(b: &[u8]) -> (r: String)
    requires
        b@.len() <= usize::MAX / 2,
    ensures
        r@ == spec_hex_lower(b@),
{
    base16ct::lower::encode_string(b)
}

/// Joins a directory and an entry name with a single separator.
pub fn join_path(dir: &str, name: &str) -> (r: String)
    ensures
        r@ == dir@ + seq!['/'] + name@,
{
    proof {
        reveal_strlit("/");
    }
    let mut r = String::from_str(dir);
    r.append("/");
    r.append(name);
    proof {
        assert(r@ =~= dir@ + seq!['/'] + name@);
    }
    r
}

/// The bare repository directory for an origin URL: an entry under the
/// cache root named by the lowercase hex of the origin's SHA-1.
pub open spec fn spec_scm_repo_dir(scm_path: Seq<char>, origin_bytes: Seq<u8>) -> Seq<char> {
    scm_path + seq!['/'] + spec_hex_lower(spec_sha1(origin_bytes))
}

/// Computes the bare repository directory for an origin.
pub fn scm_repo_dir(scm_path: &str, origin: &str) -> (r: String)
    ensures
        r@ == spec_scm_repo_dir(scm_path@, origin.spec_bytes()),
{
    let digest = sha1_digest(origin.as_bytes());
    let name = hex_lower(digest.as_slice());
    join_path(scm_path, name.as_str())
}

/// The worktree tag for a build: distinct builds get distinct worktrees
/// under the same bare repository.
pub open spec fn spec_worktree_tag(id: int) -> Seq<char> {
    "__starfish_build_"@ + spec_dec_int(id)
}

/// Computes the worktree tag for a build id.
pub fn worktree_tag(id: i32) -> (r: String)
    ensures
        r@ == spec_worktree_tag(id as int),
{
    let mut r = String::from_str("__starfish_build_");
    let num = i32_to_string(id);
    r.append(num.as_str());
    proof {
        assert(r@ =~= spec_worktree_tag(id as int));
    }
    r
}

/// The per-build log file path under the log directory.
pub open spec fn spec_logfile_path(log_path: Seq<char>, id: int) -> Seq<char> {
    log_path + seq!['/'] + spec_dec_int(id) + ".log"@
}

/// Computes the per-build log file path.
pub fn logfile_path(log_path: &str, id: i32) -> (r: String)
    ensures
        r@ == spec_logfile_path(log_path@, id as int),
{
    proof {
        reveal_strlit("/");
    }
    let mut r = String::from_str(log_path);
    r.append("/");
    let num = i32_to_string(id);
    r.append(num.as_str());
    r.append(".log");
    proof {
        assert(r@ =~= spec_logfile_path(log_path@, id as int));
    }
    r
}

} // verus!
