use vstd::arithmetic::power2::pow2;
use vstd::prelude::*;

verus! {

/// Length of the key that scrypt derives, and of a caller's persistence buffer.
pub const SCRYPT_BUFFER_SIZE: usize = 64;

/// Byte `i` of the SHAKE256 output stream on `input`.
pub uninterp spec fn shake256_byte(input: Seq<u8>, i: nat) -> u8;

/// Whether scrypt accepts the cost setting `2^log_n`, `r`, `p` for a key of `len` bytes:
/// a key of 10 to 64 bytes, nonzero `r` and `p`, working buffers of `128 * r * 2^log_n` and
/// `128 * r * p` bytes that fit in memory, `log_n < 16 * r`, and `r * p < 2^30`.
pub open spec fn scrypt_accepts(log_n: u8, r: u32, p: u32, len: usize) -> bool {
    &&& 10 <= len <= 64
    &&& r > 0
    &&& p > 0
    &&& 128 * r * pow2(log_n as nat) <= usize::MAX
    &&& 128 * r * p <= usize::MAX
    &&& log_n < 16 * r
    &&& r * p < 0x4000_0000
}

/// The `len`-byte scrypt key of `password` under `salt` and the cost setting.
pub uninterp spec fn scrypt_key(password: Seq<u8>, salt: Seq<u8>, log_n: u8, r: u32, p: u32, len: usize) -> Seq<u8>;

/// Relies on tiny_keccak's `Shake::v256` with `Hasher::update` and `Hasher::finalize`:
/// the output is the first `len` bytes of the SHAKE256 stream on `input`.
#[verifier::external_body]
pub(crate) fn shake256(input: &[u8], len: usize) -> (out: Vec<u8>)
    ensures
        out@ == Seq::new(len as nat, |i: int| shake256_byte(input@, i as nat)),
{
    let mut sponge = tiny_keccak::Shake::v256();
    tiny_keccak::Hasher::update(&mut sponge, input);
    let mut out = vec![0u8; len];
    tiny_keccak::Hasher::finalize(sponge, &mut out);
    out
}

/// Relies on `scrypt::Params::new`: whether it accepts the cost setting with a `len`-byte
/// output, by the checks that `scrypt_accepts` states.
#[verifier::external_body]
pub(crate) fn scrypt_params_accepted(log_n: u8, r: u32, p: u32, len: usize) -> (ok: bool)
    ensures
        ok == scrypt_accepts(log_n, r, p, len),
{
    scrypt::Params::new(log_n, r, p, len).is_ok()
}

/// Relies on `scrypt::Params::new` and `scrypt::scrypt`: a `len`-byte key comes back exactly
/// when `Params::new` accepts the setting, since `scrypt` refuses only an empty or overlong
/// output and `Params::new` admits lengths `10..=64` alone.
#[verifier::external_body]
pub(crate) fn scrypt_derive(password: &[u8], salt: &[u8], log_n: u8, r: u32, p: u32, len: usize) -> (res:
    Option<Vec<u8>>)
    ensures
        res is Some <==> scrypt_accepts(log_n, r, p, len),
        res matches Some(key) ==> key@ == scrypt_key(password@, salt@, log_n, r, p, len),
        res matches Some(key) ==> key@.len() == len,
{
    let params = scrypt::Params::new(log_n, r, p, len).ok()?;
    let mut key = vec![0u8; len];
    scrypt::scrypt(password, salt, &params, &mut key).ok()?;
    Some(key)
}

} // verus!
