use aes::cipher::generic_array::GenericArray;
use aes::{Aes128, NewBlockCipher};
use block_modes::block_padding::NoPadding;
use block_modes::{BlockMode, BlockModeError, Cbc};
use vstd::prelude::*;
use crate::padding::{
    lemma_padded_length, lemma_unpad_inverts_pad, pkcs7_pad, pkcs7_padded, pkcs7_unpad,
    pkcs7_unpadded, BLOCK_SIZE,
};

verus! {

#[verifier::external_type_specification]
#[verifier::external_body]
pub struct ExBlockModeError(BlockModeError);

/// A 128-bit key and a 128-bit initialisation vector. Their lengths are
/// fixed by the type, so building a cipher from them cannot fail.
pub struct KeyMaterial {
    pub key: [u8; 16],
    pub iv: [u8; 16],
}

/// The bytes of the ASCII text `verysecretkey123`.
pub open spec fn fixed_key() -> Seq<u8> {
    seq![118u8, 101, 114, 121, 115, 101, 99, 114, 101, 116, 107, 101, 121, 49, 50, 51]
}

/// The bytes of the ASCII text `uniqueinitvector`.
pub open spec fn fixed_iv() -> Seq<u8> {
    seq![117u8, 110, 105, 113, 117, 101, 105, 110, 105, 116, 118, 101, 99, 116, 111, 114]
}

impl KeyMaterial {
    /// The key and IV the service is built with.
    pub fn fixed() -> (r: KeyMaterial)
        ensures
            r.key@ == fixed_key(),
            r.iv@ == fixed_iv(),
    {
        let key: [u8; 16] = [118, 101, 114, 121, 115, 101, 99, 114, 101, 116, 107, 101, 121, 49, 50, 51];
        let iv: [u8; 16] = [117, 110, 105, 113, 117, 101, 105, 110, 105, 116, 118, 101, 99, 116, 111, 114];
        assert(key@ =~= fixed_key());
        assert(iv@ =~= fixed_iv());
        KeyMaterial { key, iv }
    }
}

/// AES-128 in CBC mode without padding, applied to whole blocks.
pub uninterp spec fn cbc_aes128_encrypt(key: Seq<u8>, iv: Seq<u8>, data: Seq<u8>) -> Seq<u8>;

/// The inverse block transform: AES-128 CBC decryption of whole blocks.
pub uninterp spec fn cbc_aes128_decrypt(key: Seq<u8>, iv: Seq<u8>, data: Seq<u8>) -> Seq<u8>;

/// Relies on block_modes' `Cbc<Aes128, NoPadding>::encrypt_vec`: for input
/// that is a whole number of blocks, `NoPadding` adds nothing and every block
/// is encrypted in place, so the output is as long as the input. It reserves
/// one block more than the input, which must not exceed `isize::MAX` bytes.
#[verifier::external_body]
fn cbc_encrypt_blocks(key: &[u8; 16], iv: &[u8; 16], data: &[u8]) -> (r: Vec<u8>)
    requires
        data@.len() % (BLOCK_SIZE as nat) == 0,
        data@.len() + BLOCK_SIZE <= isize::MAX,
    ensures
        r@ == cbc_aes128_encrypt(key@, iv@, data@),
        r@.len() == data@.len(),
{
    let cipher = Aes128::new(&GenericArray::from(*key));
    let mode = Cbc::<Aes128, NoPadding>::new(cipher, &GenericArray::from(*iv));
    mode.encrypt_vec(data)
}

/// Relies on block_modes' `Cbc<Aes128, NoPadding>::decrypt_vec`: input that
/// is a whole number of blocks is accepted and decrypted block by block, and
/// CBC decryption under the same key and IV undoes CBC encryption.
#[verifier::external_body]
fn cbc_decrypt_blocks(key: &[u8; 16], iv: &[u8; 16], data: &[u8]) -> (r: Result<
    Vec<u8>,
    BlockModeError,
>)
    requires
        data@.len() % (BLOCK_SIZE as nat) == 0,
    ensures
        r is Ok,
        r is Ok ==> r->Ok_0@ == cbc_aes128_decrypt(key@, iv@, data@),
        r is Ok ==> r->Ok_0@.len() == data@.len(),
        r is Ok ==> forall|plain: Seq<u8>|
            plain.len() % (BLOCK_SIZE as nat) == 0 && #[trigger] cbc_aes128_encrypt(
                key@,
                iv@,
                plain,
            ) == data@ ==> r->Ok_0@ == plain,
{
    let cipher = Aes128::new(&GenericArray::from(*key));
    let mode = Cbc::<Aes128, NoPadding>::new(cipher, &GenericArray::from(*iv));
    mode.decrypt_vec(data)
}

/// The ciphertext of `plaintext`: PKCS#7 padding, then CBC/AES-128.
pub open spec fn ciphertext_of(key: Seq<u8>, iv: Seq<u8>, plaintext: Seq<u8>) -> Seq<u8> {
    cbc_aes128_encrypt(key, iv, pkcs7_padded(plaintext))
}

/// The plaintext recovered from `ciphertext`, if it is whole blocks whose
/// decryption ends in well-formed padding.
pub open spec fn plaintext_of(key: Seq<u8>, iv: Seq<u8>, ciphertext: Seq<u8>) -> Option<Seq<u8>> {
    if ciphertext.len() % (BLOCK_SIZE as nat) == 0 {
        pkcs7_unpadded(cbc_aes128_decrypt(key, iv, ciphertext))
    } else {
        None
    }
}

/// Pads `plaintext` and encrypts it under `keys`. The result depends on the
/// key, the IV and the plaintext alone, and its length is the plaintext's
/// rounded up to the next whole block, with a full extra block when the
/// plaintext already fills whole blocks.
pub fn encrypt_bytes(keys: &KeyMaterial, plaintext: &[u8]) -> (r: Vec<u8>)
    requires
        plaintext@.len() + 2 * BLOCK_SIZE <= isize::MAX,
    ensures
        r@ == ciphertext_of(keys.key@, keys.iv@, plaintext@),
        r@.len() == (plaintext@.len() / (BLOCK_SIZE as nat) + 1) * (BLOCK_SIZE as nat),
        r@.len() > 0,
        r@.len() % (BLOCK_SIZE as nat) == 0,
{
    proof {
        lemma_padded_length(plaintext@);
    }
    let padded = pkcs7_pad(plaintext);
    cbc_encrypt_blocks(&keys.key, &keys.iv, padded.as_slice())
}

/// Decrypts `ciphertext` under `keys` and strips its padding. Whole blocks that
/// `encrypt_bytes` produced from a plaintext decrypt to that plaintext.
pub fn decrypt_bytes(keys: &KeyMaterial, ciphertext: &[u8]) -> (r: Option<Vec<u8>>)
    ensures
        r is Some <==> plaintext_of(keys.key@, keys.iv@, ciphertext@) is Some,
        r is Some ==> Some(r->Some_0@) == plaintext_of(keys.key@, keys.iv@, ciphertext@),
        ciphertext@.len() % (BLOCK_SIZE as nat) == 0 ==> forall|plain: Seq<u8>|
            #[trigger] ciphertext_of(keys.key@, keys.iv@, plain) == ciphertext@ ==> r is Some
                && r->Some_0@ == plain,
{
    if ciphertext.len() % BLOCK_SIZE != 0 {
        return None;
    }
    match cbc_decrypt_blocks(&keys.key, &keys.iv, ciphertext) {
        Ok(blocks) => {
            let r = pkcs7_unpad(blocks.as_slice());
            assert forall|plain: Seq<u8>|
                #[trigger] ciphertext_of(keys.key@, keys.iv@, plain) == ciphertext@ implies r is Some
                && r->Some_0@ == plain by {
                lemma_padded_length(plain);
                lemma_unpad_inverts_pad(plain);
                assert(cbc_aes128_encrypt(keys.key@, keys.iv@, pkcs7_padded(plain)) == ciphertext@);
            }
            r
        },
        Err(_) => None,
    }
}

} // verus!
