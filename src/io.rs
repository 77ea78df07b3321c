use vstd::prelude::*;
use vstd::string::StringSliceAdditionalSpecFns;

verus! {

/// std's I/O error, carried through the library unopened.
#[verifier::external_type_specification]
#[verifier::external_body]
pub struct ExIoError(std::io::Error);

/// std's error for bytes that are not UTF-8, carried through unopened.
#[verifier::external_type_specification]
#[verifier::external_body]
pub struct ExUtf8Error(std::str::Utf8Error);

/// Relies on `std::str::from_utf8`: it succeeds exactly on valid UTF-8, and
/// then the text it returns is made of those very bytes.
#[verifier::external_body]
pub(crate) fn text_of_bytes(v: &[u8]) -> (r: Result<&str, std::str::Utf8Error>)
    ensures
        r is Ok <==> vstd::utf8::valid_utf8(v@),
        r matches Ok(s) ==> s.spec_bytes() == v@,
{
    std::str::from_utf8(v)
}

/// Relies on `std::io::Error::new`: an I/O error of kind `InvalidData` that
/// wraps the UTF-8 error.
#[verifier::external_body]
pub(crate) fn invalid_data(e: std::str::Utf8Error) -> (r: std::io::Error) {
    std::io::Error::new(std::io::ErrorKind::InvalidData, e)
}

} // verus!
