use snark_verifier_sdk::Snark;
use vstd::prelude::*;

verus! {

/// `snark_verifier_sdk::Snark`, a proof with its public instances. Nothing is
/// claimed of what it holds.
#[verifier::external_type_specification]
#[verifier::external_body]
pub struct ExSnark(Snark);

/// `serde_json::Error`. Nothing is claimed of what it holds.
#[verifier::external_type_specification]
#[verifier::external_body]
pub struct ExJsonError(serde_json::Error);

/// Why a proof could not be encoded.
#[derive(Clone, Copy, Debug, PartialEq, Eq, Structural)]
pub enum TransportError {
    /// The proof has no JSON form.
    NotSerializable,
}

/// The lower-case hexadecimal digit for a value below sixteen.
pub open spec fn hex_digit(nibble: int) -> char {
    seq!['0', '1', '2', '3', '4', '5', '6', '7', '8', '9', 'a', 'b', 'c', 'd', 'e', 'f'][nibble]
}

/// The hexadecimal form of `data`: two lower-case digits for each byte, the
/// high half of the byte first.
pub open spec fn hex_text(data: Seq<u8>) -> Seq<char> {
    Seq::new(
        2 * data.len(),
        |i: int|
            if i % 2 == 0 {
                hex_digit(data[i / 2] as int / 16)
            } else {
                hex_digit(data[i / 2] as int % 16)
            },
    )
}

/// The bytes of the JSON document that serde_json writes for `snark`, or
/// `None` where it writes none.
pub uninterp spec fn snark_json(snark: Snark) -> Option<Seq<u8>>;

/// `serde_json::to_string` on a proof, as the bytes of the string: the JSON
/// document of the proof, or the error of serde_json.
#[verifier::external_body]
fn to_json(snark: &Snark) -> (json: Result<Vec<u8>, serde_json::Error>)
    ensures
        (match json {
            Ok(bytes) => snark_json(*snark) == Some(bytes@),
            Err(_) => snark_json(*snark) is None,
        }),
{
    serde_json::to_string(snark).map(|text| text.into_bytes())
}

/// `hex::encode`: every byte becomes two lower-case hexadecimal digits, the
/// high half first.
#[verifier::external_body]
fn hex_encode(data: &[u8]) -> (text: String)
    ensures
        text@ == hex_text(data@),
{
    hex::encode(data)
}

/// The text in which a JSON document travels: its bytes in hexadecimal.
pub fn encode_document(json: &[u8]) -> (text: String)
    ensures
        text@ == hex_text(json@),
        text@.len() == 2 * json@.len(),
{
    hex_encode(json)
}

/// The text in which a proof travels: its JSON document in hexadecimal.
pub fn encode_snark(snark: &Snark) -> (text: Result<String, TransportError>)
    ensures
        (match snark_json(*snark) {
            Some(json) => text matches Ok(digits) && digits@ == hex_text(json),
            None => text == Err::<String, TransportError>(TransportError::NotSerializable),
        }),
{
    match to_json(snark) {
        Ok(json) => Ok(encode_document(json.as_slice())),
        Err(_) => Err(TransportError::NotSerializable),
    }
}

} // verus!
