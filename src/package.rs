//! Packaging the built executable for its target.

use vstd::prelude::*;

use zip::result::ZipError;

use crate::error::BuildError;

verus! {

#[verifier::external_type_specification]
#[verifier::external_body]
pub struct ExZipError(ZipError);

/// The bytes of a zip archive holding `contents` as its one entry,
/// called `name`, deflated, with Unix permission bits `mode`.
pub uninterp spec fn deflated_zip_of(name: Seq<char>, mode: u32, contents: Seq<u8>) -> Seq<u8>;

/// Inputs below this size always fit a zip archive without the zip64
/// extension.
pub const ZIP_SIZE_LIMIT: usize = 0x8000_0000;

/// Relies on zip::ZipWriter (`start_file`, `write_all`, `finish`) over
/// an in-memory buffer, with deflate compression and the Unix
/// permissions `mode`: on success, the finished archive with the one
/// entry `name`. With zip's `time` feature off the entry's timestamp is
/// fixed, so the bytes depend on the arguments alone. Writing to memory
/// fails only when the entry or the compressed data exceeds 4 GiB, which
/// input under 2 GiB never does.
#[verifier::external_body]
fn deflated_zip(name: &str, mode: u32, contents: &[u8]) -> (r: Result<Vec<u8>, ZipError>)
    ensures
        r is Ok ==> r->Ok_0@ == deflated_zip_of(name@, mode, contents@),
        contents@.len() < ZIP_SIZE_LIMIT ==> r is Ok,
{
    let mut zip = zip::ZipWriter::new(std::io::Cursor::new(Vec::new()));
    let options = zip::write::FileOptions::default()
        .unix_permissions(mode)
        .compression_method(zip::CompressionMethod::Deflated);
    zip.start_file(name, options)?;
    std::io::Write::write_all(&mut zip, contents)?;
    Ok(zip.finish()?.into_inner())
}

/// The archive of a Lambda bundle: the executable as `bootstrap`, with
/// permissions `0755`.
pub open spec fn bootstrap_zip_of(contents: Seq<u8>) -> Seq<u8> {
    deflated_zip_of("bootstrap"@, 0o755, contents)
}

/// A zip archive holding the executable `contents` as `bootstrap`,
/// with permissions `0755` and deflate compression, ready for AWS
/// Lambda. An executable of 2 GiB or more may not fit.
pub fn bootstrap_zip(contents: &[u8]) -> (r: Result<Vec<u8>, BuildError>)
    ensures
        r is Ok ==> r->Ok_0@ == bootstrap_zip_of(contents@),
        contents@.len() < ZIP_SIZE_LIMIT ==> r is Ok,
        r is Err ==> r->Err_0 is Filesystem && r->Err_0->Filesystem_0@
            == "failed to write the zip archive"@,
{
    match deflated_zip("bootstrap", 0o755, contents) {
        Ok(bytes) => Ok(bytes),
        Err(_) => Err(BuildError::Filesystem(String::from_str("failed to write the zip archive"))),
    }
}

} // verus!
