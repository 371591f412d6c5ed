//! Base64 text of workflow files, as the contents API expects it.
use base64::Engine;
use vstd::prelude::*;

verus! {

/// The standard base64 alphabet.
pub open spec fn b64_alphabet() -> Seq<char> {
    "ABCDEFGHIJKLMNOPQRSTUVWXYZabcdefghijklmnopqrstuvwxyz0123456789+/"@
}

/// The character for a six-bit value.
pub open spec fn b64_char(v: int) -> char {
    b64_alphabet()[v]
}

/// Standard base64 with `=` padding (RFC 4648): each group of three bytes
/// becomes four characters; a last group of one or two bytes becomes two
/// or three characters and padding.
pub open spec fn base64_spec(data: Seq<u8>) -> Seq<char>
    decreases data.len(),
{
    if data.len() == 0 {
        Seq::empty()
    } else if data.len() == 1 {
        let a: int = data[0] as int;
        seq![b64_char(a / 4), b64_char((a % 4) * 16), '=', '=']
    } else if data.len() == 2 {
        let a: int = data[0] as int;
        let b: int = data[1] as int;
        seq![b64_char(a / 4), b64_char((a % 4) * 16 + b / 16), b64_char((b % 16) * 4), '=']
    } else {
        let a: int = data[0] as int;
        let b: int = data[1] as int;
        let c: int = data[2] as int;
        seq![
            b64_char(a / 4),
            b64_char((a % 4) * 16 + b / 16),
            b64_char((b % 16) * 4 + c / 64),
            b64_char(c % 64),
        ] + base64_spec(data.skip(3))
    }
}

/// The length of the base64 text of `n` bytes.
pub open spec fn base64_len(n: nat) -> nat {
    (n / 3 + if n % 3 > 0 {
        1nat
    } else {
        0nat
    }) * 4
}

/// Calls `base64::engine::general_purpose::STANDARD.encode`: standard
/// alphabet with padding. The crate panics when the text length does not
/// fit in `usize`, which `requires` rules out.
#[verifier::external_body]
pub(crate) fn encode_base64(data: &[u8]) -> (r: String)
    requires
        base64_len(data@.len()) <= usize::MAX,
    ensures
        r@ == base64_spec(data@),
{
    base64::engine::general_purpose::STANDARD.encode(data)
}

/// The text under which a workflow file's bytes are uploaded: their
/// standard base64 encoding.
pub fn workflow_file_content(bytes: &[u8]) -> (r: String)
    requires
        base64_len(bytes@.len()) <= usize::MAX,
    ensures
        r@ == base64_spec(bytes@),
{
    encode_base64(bytes)
}

} // verus!
