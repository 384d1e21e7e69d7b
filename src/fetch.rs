//! Remote binaries: which are fetched, and whether a downloaded body may be
//! staged.

use vstd::prelude::*;
use crate::paths::{join, join_spec};
use crate::text::{eq_ignore_case, hex_lower, same_ignoring_case, to_hex};

verus! {

/// A binary that the frontend descriptor asks to bundle.
#[derive(Clone, Debug, PartialEq, Eq)]
pub struct RemoteBinary {
    pub url: String,
    pub sha256hash: String,
    pub name: String,
}

/// A downloaded body whose digest matched, and where it goes.
#[derive(Clone, Debug, PartialEq, Eq)]
pub struct StagedFile {
    /// The directory to create first.
    pub dir: String,
    /// The file to write.
    pub path: String,
    pub bytes: Vec<u8>,
}

/// A downloaded body whose digest differs from the declared one.
#[derive(Clone, Debug, PartialEq, Eq)]
pub struct IntegrityError {
    pub url: String,
    pub expected: String,
    pub actual: String,
}

/// The SHA-256 digest of `data`.
pub uninterp spec fn sha256_of(data: Seq<u8>) -> Seq<u8>;

/// Relies on sha2::Sha256::digest (through digest::Digest): the 32-byte
/// SHA-256 digest of the data.
#[verifier::external_body]
fn sha256_digest(data: &[u8]) -> (r: Vec<u8>)
    ensures
        r@ == sha256_of(data@),
        r@.len() == 32,
{
    <sha2::Sha256 as sha2::Digest>::digest(data).to_vec()
}

/// The directory of fetched binaries in the staging tree.
pub open spec fn bin_dir_spec(staging_root: Seq<char>) -> Seq<char> {
    join_spec(staging_root, "bin"@)
}

/// The binaries to fetch: all those declared when the descriptor opts in
/// with the bundling flag set to true, none otherwise.
pub fn binaries_to_fetch(remote_binary_bundling: Option<bool>, declared: Vec<RemoteBinary>) -> (r: Vec<
    RemoteBinary,
>)
    ensures
        remote_binary_bundling == Some(true) ==> r@ == declared@,
        remote_binary_bundling != Some(true) ==> r@.len() == 0,
{
    if remote_binary_bundling == Some(true) {
        declared
    } else {
        Vec::new()
    }
}

/// Judges a downloaded `body` of `binary` whose SHA-256 digest is `digest`:
/// when its hexadecimal form equals the declared one, ignoring case, the
/// body is to be written to `bin/<name>` under `staging_root`; otherwise
/// nothing is written.
pub fn accept_download(binary: &RemoteBinary, staging_root: &str, digest: &[u8], body: Vec<u8>) -> (r:
    Result<StagedFile, IntegrityError>)
    ensures
        r is Ok <==> same_ignoring_case(hex_lower(digest@), binary.sha256hash@),
        r matches Ok(f) ==> f.dir@ == bin_dir_spec(staging_root@) && f.path@ == join_spec(
            bin_dir_spec(staging_root@),
            binary.name@,
        ) && f.bytes@ == body@,
        r matches Err(e) ==> e.url@ == binary.url@ && e.expected@ == binary.sha256hash@
            && e.actual@ == hex_lower(digest@),
{
    let actual = to_hex(digest);
    if eq_ignore_case(actual.as_str(), binary.sha256hash.as_str()) {
        let dir = join(staging_root, "bin");
        let path = join(dir.as_str(), binary.name.as_str());
        Ok(StagedFile { dir, path, bytes: body })
    } else {
        Err(IntegrityError { url: binary.url.clone(), expected: binary.sha256hash.clone(), actual })
    }
}

/// Checks a downloaded `body` of `binary` against its declared SHA-256
/// digest: a body whose digest differs is refused, and then nothing is
/// written for it.
pub fn check_download(binary: &RemoteBinary, staging_root: &str, body: Vec<u8>) -> (r: Result<
    StagedFile,
    IntegrityError,
>)
    ensures
        r is Ok <==> same_ignoring_case(hex_lower(sha256_of(body@)), binary.sha256hash@),
        r matches Ok(f) ==> f.dir@ == bin_dir_spec(staging_root@) && f.path@ == join_spec(
            bin_dir_spec(staging_root@),
            binary.name@,
        ) && f.bytes@ == body@,
        r matches Err(e) ==> e.url@ == binary.url@ && e.expected@ == binary.sha256hash@
            && e.actual@ == hex_lower(sha256_of(body@)),
{
    let digest = sha256_digest(body.as_slice());
    accept_download(binary, staging_root, digest.as_slice(), body)
}

} // verus!
