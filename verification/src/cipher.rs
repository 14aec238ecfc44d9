//! AES-128 on single blocks.
use aes::cipher::generic_array::GenericArray;
use aes::cipher::{BlockDecrypt, BlockEncrypt, KeyInit};
use aes::Aes128;
use vstd::prelude::*;

verus! {

/// The block that AES-128 encryption makes of `block` under `key`.
pub uninterp spec fn encrypted(key: Seq<u8>, block: Seq<u8>) -> Seq<u8>;

/// The block that AES-128 decryption makes of `block` under `key`.
pub uninterp spec fn decrypted(key: Seq<u8>, block: Seq<u8>) -> Seq<u8>;

/// Calls `Aes128::encrypt_block` of the crate `aes`. Believed of it: the result
/// is determined by the key and the block, and named `encrypted`.
#[verifier::external_body]
pub(crate) fn encrypt(key: &[u8; 16], block: &[u8; 16]) -> (r: [u8; 16])
    ensures
        r@ == encrypted(key@, block@),
{
    let cipher = Aes128::new(GenericArray::from_slice(key));
    let mut out = GenericArray::clone_from_slice(block);
    cipher.encrypt_block(&mut out);
    out.into()
}

/// Calls `Aes128::decrypt_block` of the crate `aes`. Believed of it: the result
/// is determined by the key and the block, and named `decrypted`.
#[verifier::external_body]
pub(crate) fn decrypt(key: &[u8; 16], block: &[u8; 16]) -> (r: [u8; 16])
    ensures
        r@ == decrypted(key@, block@),
{
    let cipher = Aes128::new(GenericArray::from_slice(key));
    let mut out = GenericArray::clone_from_slice(block);
    cipher.decrypt_block(&mut out);
    out.into()
}

} // verus!
