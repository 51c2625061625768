use crate::covering::{covering_text, msg_object, secret_covering, seed_b58_of};
use crate::error::SssError;
use vstd::prelude::*;
use vstd::utf8::{decode_utf8, encode_utf8, encode_utf8_decode_utf8, encode_utf8_valid_utf8, valid_utf8};

verus! {

/// Relies on `String::from_utf8`: it succeeds exactly on valid UTF-8 and then
/// holds the characters that the bytes encode.
#[verifier::external_body]
fn utf8_to_string(b: Vec<u8>) -> (r: Option<String>)
    ensures
        match r {
            Some(s) => valid_utf8(b@) && s@ == decode_utf8(b@),
            None => !valid_utf8(b@),
        },
{
    String::from_utf8(b).ok()
}

/// The recovered covering payload as text. Fails with `EncodingError` unless
/// the recovered secret is valid UTF-8.
pub fn recovered_secret_text(secret: Vec<u8>) -> (r: Result<String, SssError>)
    ensures
        match r {
            Ok(s) => valid_utf8(secret@) && s@ == decode_utf8(secret@),
            Err(e) => !valid_utf8(secret@) && e == SssError::EncodingError,
        },
{
    match utf8_to_string(secret) {
        Some(s) => Ok(s),
        None => Err(SssError::EncodingError),
    }
}

/// Where the combine primitive gives back the secret that a split handed to
/// it, its text is the covering payload of that split: a payload whose
/// `verkey` is the owner and whose `msg` is the caller's message object (the
/// empty object where none was given).
pub proof fn lemma_recovered_covering(
    msg: Option<Seq<char>>,
    verkey: Seq<char>,
    signkey: Option<Seq<char>>,
)
    requires
        secret_covering(msg, verkey, signkey) is Ok,
    ensures
        ({
            let c = secret_covering(msg, verkey, signkey)->Ok_0;
            &&& valid_utf8(encode_utf8(c))
            &&& decode_utf8(encode_utf8(c)) == c
            &&& c == covering_text(
                msg_object(msg)->Some_0,
                verkey,
                seed_b58_of(signkey->Some_0)->Some_0,
            )
        }),
{
    let c = secret_covering(msg, verkey, signkey)->Ok_0;
    encode_utf8_valid_utf8(c);
    encode_utf8_decode_utf8(c);
}

} // verus!
