//! The agent's secret key, as kept in its key file.
use vstd::prelude::*;

verus! {

#[verifier::external_type_specification]
#[verifier::external_body]
pub struct ExSecretKey(iroh::SecretKey);

/// Relies on iroh's `SecretKey::from_bytes`, which takes any 32 bytes as a key.
#[verifier::external_body]
fn secret_key_from_bytes(b: &[u8; 32]) -> (r: iroh::SecretKey) {
    iroh::SecretKey::from_bytes(b)
}

/// The secret key stored in a key file: exactly 32 bytes, else an error.
pub fn secret_key_from_file(bytes: &Vec<u8>) -> (r: Result<iroh::SecretKey, String>)
    ensures
        r is Ok <==> bytes@.len() == 32,
        r matches Err(e) ==> e@ == "Invalid key file length"@,
{
    if bytes.len() != 32 {
        return Err("Invalid key file length".to_string());
    }
    let mut key: [u8; 32] = [0u8; 32];
    let mut i: usize = 0;
    while i < 32
        invariant
            bytes@.len() == 32,
            i <= 32,
            forall|j: int| 0 <= j < i ==> key@[j] == bytes@[j],
        decreases 32 - i,
    {
        key[i] = bytes[i];
        i = i + 1;
    }
    assert(key@ =~= bytes@);
    Ok(secret_key_from_bytes(&key))
}

} // verus!
