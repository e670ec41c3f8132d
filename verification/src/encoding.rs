//! Decoding of transactions that the operator pastes as text.

use crate::error::ErrorKind;
use crate::params::{non_empty_trimmed, trimmed};
use base64::Engine;
use vstd::prelude::*;

verus! {

/// The error of the base64 decoder.
#[verifier::external_type_specification]
#[verifier::external_body]
pub struct ExBase64DecodeError(base64::DecodeError);

/// The error of the base58 decoder.
#[verifier::external_type_specification]
#[verifier::external_body]
pub struct ExBase58DecodeError(bs58::decode::Error);

/// The encodings in which a transaction can be pasted.
#[derive(Clone, Copy, Debug, PartialEq, Eq, Structural)]
pub enum TransactionEncoding {
    Base64,
    Base58,
}

/// Why a pasted text was not decoded.
#[derive(Debug, PartialEq, Eq)]
pub enum DecodeTextError {
    /// Nothing but white space was given.
    Empty,
    /// The text is not base64 in the standard alphabet with padding; the
    /// decoder's own error says where it stopped.
    InvalidBase64(base64::DecodeError),
    /// The text is not base58 in the Bitcoin alphabet; the decoder's own
    /// error says where it stopped.
    InvalidBase58(bs58::decode::Error),
}

impl DecodeTextError {
    /// The kind of failure that a pasted text which was not decoded is: a
    /// failure of input validation, caught before anything is asked of the
    /// network.
    pub fn kind(&self) -> (r: ErrorKind)
        ensures
            r == ErrorKind::InputValidation,
    {
        ErrorKind::InputValidation
    }
}

/// The bytes that a text encodes in base64, in the standard alphabet and
/// with canonical padding, if it encodes any.
pub uninterp spec fn base64_decoding(text: Seq<char>) -> Option<Seq<u8>>;

/// The bytes that a text encodes in base58, in the Bitcoin alphabet, if it
/// encodes any.
pub uninterp spec fn base58_decoding(text: Seq<char>) -> Option<Seq<u8>>;

/// Calls `decode` of `base64::engine::general_purpose::STANDARD`. The
/// result depends on the text alone; the contract gives the decoded bytes
/// the name `base64_decoding`, which is `None` where the call fails.
#[verifier::external_body]
pub(crate) fn base64_decode(text: &str) -> (r: Result<Vec<u8>, base64::DecodeError>)
    ensures
        match r {
            Ok(bytes) => base64_decoding(text@) == Some(bytes@),
            Err(_) => base64_decoding(text@) is None,
        },
{
    base64::engine::general_purpose::STANDARD.decode(text)
}

/// Calls `bs58::decode` and `into_vec` on what it returns. The result
/// depends on the text alone; the contract gives the decoded bytes the
/// name `base58_decoding`, which is `None` where the call fails.
#[verifier::external_body]
pub(crate) fn base58_decode(text: &str) -> (r: Result<Vec<u8>, bs58::decode::Error>)
    ensures
        match r {
            Ok(bytes) => base58_decoding(text@) == Some(bytes@),
            Err(_) => base58_decoding(text@) is None,
        },
{
    bs58::decode(text).into_vec()
}

/// Decodes a text in base64 after trimming it. Fails with `Empty` exactly
/// when nothing is left after trimming, and with `InvalidBase64` exactly
/// when what is left is not base64.
pub fn decode_base64(encoded: &str) -> (r: Result<Vec<u8>, DecodeTextError>)
    ensures
        match r {
            Ok(bytes) => trimmed(encoded@).len() > 0 && base64_decoding(trimmed(encoded@)) == Some(
                bytes@,
            ),
            Err(DecodeTextError::Empty) => trimmed(encoded@).len() == 0,
            Err(DecodeTextError::InvalidBase64(_)) => trimmed(encoded@).len() > 0
                && base64_decoding(trimmed(encoded@)) is None,
            Err(DecodeTextError::InvalidBase58(_)) => false,
        },
{
    match non_empty_trimmed(encoded) {
        None => Err(DecodeTextError::Empty),
        Some(text) => match base64_decode(text) {
            Ok(bytes) => Ok(bytes),
            Err(cause) => Err(DecodeTextError::InvalidBase64(cause)),
        },
    }
}

/// Decodes a text in base58 after trimming it. Fails with `Empty` exactly
/// when nothing is left after trimming, and with `InvalidBase58` exactly
/// when what is left is not base58.
pub fn decode_base58(encoded: &str) -> (r: Result<Vec<u8>, DecodeTextError>)
    ensures
        match r {
            Ok(bytes) => trimmed(encoded@).len() > 0 && base58_decoding(trimmed(encoded@)) == Some(
                bytes@,
            ),
            Err(DecodeTextError::Empty) => trimmed(encoded@).len() == 0,
            Err(DecodeTextError::InvalidBase58(_)) => trimmed(encoded@).len() > 0
                && base58_decoding(trimmed(encoded@)) is None,
            Err(DecodeTextError::InvalidBase64(_)) => false,
        },
{
    match non_empty_trimmed(encoded) {
        None => Err(DecodeTextError::Empty),
        Some(text) => match base58_decode(text) {
            Ok(bytes) => Ok(bytes),
            Err(cause) => Err(DecodeTextError::InvalidBase58(cause)),
        },
    }
}

/// The bytes that a pasted text stands for in the given encoding.
pub open spec fn text_decoding(encoding: TransactionEncoding, text: Seq<char>) -> Option<Seq<u8>> {
    match encoding {
        TransactionEncoding::Base64 => base64_decoding(text),
        TransactionEncoding::Base58 => base58_decoding(text),
    }
}

/// Decodes a pasted transaction in the encoding that the operator chose.
pub fn decode_transaction_text(encoding: TransactionEncoding, encoded: &str) -> (r: Result<
    Vec<u8>,
    DecodeTextError,
>)
    ensures
        match r {
            Ok(bytes) => trimmed(encoded@).len() > 0 && text_decoding(encoding, trimmed(encoded@))
                == Some(bytes@),
            Err(DecodeTextError::Empty) => trimmed(encoded@).len() == 0,
            Err(DecodeTextError::InvalidBase64(_)) => encoding == TransactionEncoding::Base64
                && trimmed(encoded@).len() > 0 && base64_decoding(trimmed(encoded@)) is None,
            Err(DecodeTextError::InvalidBase58(_)) => encoding == TransactionEncoding::Base58
                && trimmed(encoded@).len() > 0 && base58_decoding(trimmed(encoded@)) is None,
        },
{
    match encoding {
        TransactionEncoding::Base64 => decode_base64(encoded),
        TransactionEncoding::Base58 => decode_base58(encoded),
    }
}

} // verus!
