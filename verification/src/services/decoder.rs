//! The payload decoder: standard, padded base64 text to raw bytes. The
//! decoding itself is done by the `base64` crate and is not proved here.

use base64::alphabet::STANDARD;
use base64::engine::general_purpose::PAD;
use base64::engine::GeneralPurpose;
use base64::read::DecoderReader;
use std::io::Cursor;
use std::io::Read;
use vstd::prelude::*;

verus! {

/// std's I/O error, taken as an opaque value.
#[verifier::external_type_specification]
#[verifier::external_body]
pub struct ExIoError(std::io::Error);

/// What decoding `text` as standard base64 with canonical padding yields:
/// the decoded bytes, or `None` when `text` is not such an encoding.
pub uninterp spec fn standard_base64_decoding(text: Seq<char>) -> Option<Seq<u8>>;

/// Number of `=` characters that close `text`, counted up to two.
pub open spec fn padding_len(text: Seq<char>) -> nat {
    if text.len() >= 2 && text[text.len() - 1] == '=' && text[text.len() - 2] == '=' {
        2
    } else if text.len() >= 1 && text[text.len() - 1] == '=' {
        1
    } else {
        0
    }
}

/// Number of bytes that a well-formed padded encoding `text` stands for:
/// three for each group of four characters, less one for each closing `=`.
pub open spec fn decoded_len(text: Seq<char>) -> int {
    3 * (text.len() / 4) - padding_len(text)
}

/// Reads `text` to the end through `base64::read::DecoderReader`, with the
/// standard alphabet and the `PAD` configuration.
///
/// Trusted: the outcome is the decoding named by
/// [`standard_base64_decoding`]; when decoding succeeds, `text` is made of
/// whole groups of four characters and the result has [`decoded_len`] bytes.
#[verifier::external_body]
pub(crate) fn decode_standard(text: String) -> (decoded: Result<Vec<u8>, std::io::Error>)
    ensures
        match decoded {
            Ok(bytes) => standard_base64_decoding(text@) == Some(bytes@)
                && text@.len() % 4 == 0
                && bytes@.len() == decoded_len(text@),
            Err(_) => standard_base64_decoding(text@) is None,
        },
{
    let engine = GeneralPurpose::new(&STANDARD, PAD);
    let mut cursor = Cursor::new(text.into_bytes());
    let mut decoder = DecoderReader::new(&mut cursor, &engine);
    let mut bytes = Vec::new();
    decoder.read_to_end(&mut bytes)?;
    Ok(bytes)
}

} // verus!
