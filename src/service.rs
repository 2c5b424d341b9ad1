use vstd::prelude::*;
use vstd::utf8::encode_utf8;
use crate::cipher::{ciphertext_of, encrypt_bytes, fixed_iv, fixed_key, KeyMaterial};
use crate::padding::BLOCK_SIZE;

verus! {

/// A secret submitted for encryption. Any text, the empty one included.
pub struct EncryptRequest {
    pub password: String,
}

/// The encrypted secret, as base64 text.
pub struct EncryptResponse {
    pub encrypted_password: String,
}

/// The standard base64 encoding of `data`, with `=` padding.
pub uninterp spec fn base64_of(data: Seq<u8>) -> Seq<char>;

/// Characters of the standard base64 alphabet, and the padding character.
pub open spec fn is_base64_char(c: char) -> bool {
    ('A' <= c && c <= 'Z') || ('a' <= c && c <= 'z') || ('0' <= c && c <= '9') || c == '+' || c
        == '/' || c == '='
}

/// Length of the padded base64 encoding of `n` bytes.
pub open spec fn base64_len(n: nat) -> nat {
    4 * ((n + 2) / 3)
}

/// Relies on base64's `encode` (standard alphabet, padded): four characters
/// per started group of three bytes, each from the standard alphabet or `=`.
/// It panics only when that length overflows `usize`.
#[verifier::external_body]
fn base64_encode(data: &[u8]) -> (r: String)
    requires
        base64_len(data@.len()) <= usize::MAX,
    ensures
        r@ == base64_of(data@),
        r@.len() == base64_len(data@.len()),
        forall|i: int| 0 <= i < r@.len() ==> is_base64_char(#[trigger] r@[i]),
{
    base64::encode(data)
}

/// The text that encrypting `password` under the fixed key material gives.
pub open spec fn encrypted_password_of(password: Seq<char>) -> Seq<char> {
    base64_of(ciphertext_of(fixed_key(), fixed_iv(), encode_utf8(password)))
}

/// Encrypts the request's password under the fixed key and IV and encodes
/// the ciphertext as base64. The result is a function of the password alone:
/// equal passwords always give equal responses.
pub fn encrypt(request: &EncryptRequest) -> (r: EncryptResponse)
    requires
        encode_utf8(request.password@).len() + 2 * BLOCK_SIZE <= isize::MAX,
    ensures
        r.encrypted_password@ == encrypted_password_of(request.password@),
        r.encrypted_password@.len() == base64_len(
            (encode_utf8(request.password@).len() / (BLOCK_SIZE as nat) + 1) * (BLOCK_SIZE as nat),
        ),
        forall|i: int|
            0 <= i < r.encrypted_password@.len() ==> is_base64_char(
                #[trigger] r.encrypted_password@[i],
            ),
{
    let keys = KeyMaterial::fixed();
    let ciphertext = encrypt_bytes(&keys, request.password.as_str().as_bytes());
    proof {
        let n = ciphertext@.len() as int;
        let m = encode_utf8(request.password@).len() as int;
        let u = usize::MAX as int;
        assert(n <= m + 16) by (nonlinear_arith)
            requires
                n == (m / 16 + 1) * 16,
                m >= 0,
        ;
        assert(4 * ((n + 2) / 3) <= u) by (nonlinear_arith)
            requires
                n <= m + 16,
                m <= isize::MAX,
                isize::MAX == u / 2,
                u >= 0xffff_ffff,
                n >= 0,
        ;
    }
    let text = base64_encode(ciphertext.as_slice());
    EncryptResponse { encrypted_password: text }
}

} // verus!
