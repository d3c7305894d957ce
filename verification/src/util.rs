use vstd::prelude::*;

verus! {

/// `rand::rngs::OsRng` asked, through `RngCore::try_fill_bytes`, for four bytes from the
/// operating system's random source, read as a little-endian number: `None` when the
/// source fails. Nothing is promised of the number, nor of when the source fails.
#[verifier::external_body]
pub fn rand_u32() -> Option<u32> {
    let mut bytes = [0u8; 4];
    match rand::RngCore::try_fill_bytes(&mut rand::rngs::OsRng, &mut bytes) {
        Ok(()) => Some(u32::from_le_bytes(bytes)),
        Err(_) => None,
    }
}

} // verus!
