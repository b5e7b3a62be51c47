//! The checksum algorithms of responses, and what is taken on trust about
//! the crates that know them. Nothing in this file is proved: the contracts
//! restate what the called functions do.

use crate::headers::{bytes_of, same_ignoring_case};
use aws_smithy_checksums::http::CHECKSUM_ALGORITHMS_IN_PRIORITY_ORDER;
use vstd::prelude::*;

verus! {

/// A checksum algorithm that a response can be validated with.
#[derive(Debug, Clone, Copy, PartialEq, Eq, Structural)]
pub enum ChecksumAlgorithm {
    Crc32,
    Crc32c,
    Md5,
    Sha1,
    Sha256,
    Crc64Nvme,
}

/// The algorithm that a name stands for, whatever the case of its letters.
/// "md5" stands for CRC-32, which took its place.
pub open spec fn algorithm_named(name: Seq<u8>) -> Option<ChecksumAlgorithm> {
    if same_ignoring_case(name, bytes_of("crc32"@)) {
        Some(ChecksumAlgorithm::Crc32)
    } else if same_ignoring_case(name, bytes_of("crc32c"@)) {
        Some(ChecksumAlgorithm::Crc32c)
    } else if same_ignoring_case(name, bytes_of("sha1"@)) {
        Some(ChecksumAlgorithm::Sha1)
    } else if same_ignoring_case(name, bytes_of("sha256"@)) {
        Some(ChecksumAlgorithm::Sha256)
    } else if same_ignoring_case(name, bytes_of("md5"@)) {
        Some(ChecksumAlgorithm::Crc32)
    } else if same_ignoring_case(name, bytes_of("crc64nvme"@)) {
        Some(ChecksumAlgorithm::Crc64Nvme)
    } else {
        None
    }
}

/// The header in which a response carries the checksum of an algorithm.
pub open spec fn header_of(algorithm: ChecksumAlgorithm) -> Seq<char> {
    match algorithm {
        ChecksumAlgorithm::Crc32 => "x-amz-checksum-crc32"@,
        ChecksumAlgorithm::Crc32c => "x-amz-checksum-crc32c"@,
        ChecksumAlgorithm::Md5 => "x-amz-checksum-crc32"@,
        ChecksumAlgorithm::Sha1 => "x-amz-checksum-sha1"@,
        ChecksumAlgorithm::Sha256 => "x-amz-checksum-sha256"@,
        ChecksumAlgorithm::Crc64Nvme => "x-amz-checksum-crc64nvme"@,
    }
}

/// The bytes that a text in the standard base64 alphabet stands for, and
/// nothing where the text is not valid base64.
pub uninterp spec fn base64_decoded(text: Seq<char>) -> Option<Seq<u8>>;

/// `CHECKSUM_ALGORITHMS_IN_PRIORITY_ORDER`: the names of the algorithms,
/// the one that is fastest to compute first.
#[verifier::external_body]
pub(crate) fn algorithms_in_priority_order() -> (names: Vec<&'static str>)
    ensures
        names@.len() == 5,
        names@[0]@ == "crc64nvme"@,
        names@[1]@ == "crc32c"@,
        names@[2]@ == "crc32"@,
        names@[3]@ == "sha1"@,
        names@[4]@ == "sha256"@,
{
    CHECKSUM_ALGORITHMS_IN_PRIORITY_ORDER.to_vec()
}

/// `ChecksumAlgorithm::from_str`: the algorithm of a name, compared without
/// regard to case, or nothing for a name that it does not know.
#[verifier::external_body]
pub(crate) fn parse_algorithm(name: &str) -> (algorithm: Option<ChecksumAlgorithm>)
    ensures
        algorithm == algorithm_named(bytes_of(name@)),
{
    match name.parse::<aws_smithy_checksums::ChecksumAlgorithm>() {
        Ok(aws_smithy_checksums::ChecksumAlgorithm::Crc32) => Some(ChecksumAlgorithm::Crc32),
        Ok(aws_smithy_checksums::ChecksumAlgorithm::Crc32c) => Some(ChecksumAlgorithm::Crc32c),
        Ok(aws_smithy_checksums::ChecksumAlgorithm::Sha1) => Some(ChecksumAlgorithm::Sha1),
        Ok(aws_smithy_checksums::ChecksumAlgorithm::Sha256) => Some(ChecksumAlgorithm::Sha256),
        Ok(aws_smithy_checksums::ChecksumAlgorithm::Crc64Nvme) => Some(
            ChecksumAlgorithm::Crc64Nvme,
        ),
        _ => None,
    }
}

/// `ChecksumAlgorithm::into_impl` and `HttpChecksum::header_name`: the name
/// of the header that carries the checksum of `algorithm`.
#[verifier::external_body]
#[allow(deprecated)]
pub(crate) fn header_name(algorithm: ChecksumAlgorithm) -> (name: &'static str)
    ensures
        name@ == header_of(algorithm),
{
    let outside = match algorithm {
        ChecksumAlgorithm::Crc32 => aws_smithy_checksums::ChecksumAlgorithm::Crc32,
        ChecksumAlgorithm::Crc32c => aws_smithy_checksums::ChecksumAlgorithm::Crc32c,
        ChecksumAlgorithm::Md5 => aws_smithy_checksums::ChecksumAlgorithm::Md5,
        ChecksumAlgorithm::Sha1 => aws_smithy_checksums::ChecksumAlgorithm::Sha1,
        ChecksumAlgorithm::Sha256 => aws_smithy_checksums::ChecksumAlgorithm::Sha256,
        ChecksumAlgorithm::Crc64Nvme => aws_smithy_checksums::ChecksumAlgorithm::Crc64Nvme,
    };
    outside.into_impl().header_name()
}

/// `aws_smithy_types::base64::decode`: the bytes of a base64 text, or
/// nothing for a text that is not valid base64. The outcome depends on the
/// text alone.
#[verifier::external_body]
pub(crate) fn decode_base64(text: &str) -> (bytes: Option<Vec<u8>>)
    ensures
        bytes.is_some() == base64_decoded(text@).is_some(),
        bytes matches Some(decoded) ==> decoded@ == base64_decoded(text@).unwrap(),
{
    aws_smithy_types::base64::decode(text).ok()
}

} // verus!
