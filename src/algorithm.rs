use vstd::arithmetic::power2::{
    lemma2_to64, lemma_pow2_pos, lemma_pow2_strictly_increases, lemma_pow2_unfold, pow2,
};
use vstd::prelude::*;

verus! {

/// The derivation strategies a generator can be initialised with.
#[derive(Clone, Copy, Debug, PartialEq, Eq, Structural)]
pub enum Algorithm {
    /// The sponge absorbs the credentials directly.
    Sponge,
    /// The password is first stretched with scrypt; the sponge absorbs the derived key.
    Scrypt,
}

/// What can go wrong inside the generator; the boundary narrows all of it to one status.
#[derive(Clone, Copy, Debug, PartialEq, Eq, Structural)]
pub enum PassacreError {
    InvalidAlgorithmTag,
    InvalidKdfParameters,
    NullHandle,
    ProtocolViolation,
    InternalCryptoFailure,
}

/// The scrypt cost parameters, with the work factor held as its base-two logarithm.
#[derive(Clone, Copy, Debug, PartialEq, Eq, Structural)]
pub struct ScryptConfig {
    pub log_n: u8,
    pub r: u32,
    pub p: u32,
}

impl Algorithm {
    /// The algorithm an integer tag stands for, if any.
    pub open spec fn spec_of_tag(tag: u32) -> Option<Algorithm> {
        if tag == 0 {
            Some(Algorithm::Sponge)
        } else if tag == 1 {
            Some(Algorithm::Scrypt)
        } else {
            None
        }
    }

    /// Selects the algorithm for a tag; any other tag is refused.
    pub fn of_c_uint(tag: u32) -> (r: Result<Algorithm, PassacreError>)
        ensures
            Self::spec_of_tag(tag) is Some ==> r == Ok::<Algorithm, PassacreError>(
                Self::spec_of_tag(tag)->0,
            ),
            Self::spec_of_tag(tag) is None ==> r == Err::<Algorithm, PassacreError>(
                PassacreError::InvalidAlgorithmTag,
            ),
    {
        if tag == 0 {
            Ok(Algorithm::Sponge)
        } else if tag == 1 {
            Ok(Algorithm::Scrypt)
        } else {
            Err(PassacreError::InvalidAlgorithmTag)
        }
    }
}

/// `Some(k)` exactly when `n` is two to the power `k`.
pub open spec fn log2_exact(n: nat) -> Option<nat>
    decreases n,
{
    if n == 1 {
        Some(0)
    } else if n == 0 || n % 2 == 1 {
        None
    } else {
        match log2_exact(n / 2) {
            Some(k) => Some(k + 1),
            None => None,
        }
    }
}

proof fn lemma_pow2_bound(e: nat)
    requires
        pow2(e) <= u64::MAX,
    ensures
        e < 64,
{
    if e >= 64 {
        lemma2_to64();
        if e > 64 {
            lemma_pow2_strictly_increases(64, e);
        }
    }
}

proof fn lemma_log2_exact_double(x: nat)
    requires
        x >= 1,
    ensures
        log2_exact(2 * x) == (match log2_exact(x) {
            Some(j) => Some((j + 1) as nat),
            None => None::<nat>,
        }),
{
    assert((2 * x) / 2 == x);
    assert((2 * x) % 2 == 0);
}

/// The logarithm of a scrypt work factor, which must be a power of two.
pub fn scrypt_log_n(n: u64) -> (r: Option<u8>)
    ensures
        log2_exact(n as nat) is None ==> r is None,
        log2_exact(n as nat) matches Some(k) ==> k < 64 && r == Some(k as u8),
{
    if n == 0 {
        return None;
    }
    let mut m: u64 = n;
    let mut k: u8 = 0;
    proof {
        lemma2_to64();
    }
    while m > 1 && m % 2 == 0
        invariant
            m >= 1,
            k < 64,
            m as nat * pow2(k as nat) == n as nat,
            log2_exact(n as nat) == (match log2_exact(m as nat) {
                Some(j) => Some((j + k) as nat),
                None => None::<nat>,
            }),
        decreases m,
    {
        let half: u64 = m / 2;
        proof {
            lemma_log2_exact_double(half as nat);
            assert(m as nat == 2 * half as nat);
            lemma_pow2_unfold(k as nat + 1);
            assert(half as nat * pow2((k + 1) as nat) == m as nat * pow2(k as nat)) by (nonlinear_arith)
                requires
                    m as nat == 2 * half as nat,
                    pow2((k + 1) as nat) == 2 * pow2(k as nat),
            ;
            lemma_pow2_pos(k as nat + 1);
            assert(pow2((k + 1) as nat) <= n as nat) by (nonlinear_arith)
                requires
                    half as nat >= 1,
                    half as nat * pow2((k + 1) as nat) == n as nat,
            ;
            lemma_pow2_bound(k as nat + 1);
        }
        m = half;
        k = k + 1;
    }
    if m == 1 {
        Some(k)
    } else {
        None
    }
}

} // verus!
