use crate::algorithm::{Algorithm, PassacreError};
use crate::crypto::SCRYPT_BUFFER_SIZE;
use crate::generator::{null_rounds, scrypt_config_for, stream, GeneratorModel, PassacreGenerator, Phase};
use vstd::layout::{align_of, size_of};
use vstd::prelude::*;

verus! {

/// The status a foreign caller sees: `0` for success, `-1` for any failure.
pub fn status(res: Result<(), PassacreError>) -> (s: i32)
    ensures
        res is Ok ==> s == 0,
        res is Err ==> s == -1,
{
    match res {
        Ok(()) => 0,
        Err(_) => -1,
    }
}

/// `Some(val)` when `pred` holds of it, else `None`.
pub fn maybe<T, F>(val: T, pred: F) -> (r: Option<T>) where F: FnOnce(&T) -> bool
    requires
        pred.requires((&val,)),
    ensures
        r matches Some(v) ==> v == val && pred.ensures((&val,), true),
        r is None ==> pred.ensures((&val,), false),
{
    if pred(&val) {
        Some(val)
    } else {
        None
    }
}

/// Bytes that the storage for one generator takes.
pub fn passacre_gen_size() -> (n: usize)
    ensures
        n as nat == size_of::<PassacreGenerator>(),
{
    core::mem::size_of::<PassacreGenerator>()
}

/// Alignment that the storage for one generator needs.
pub fn passacre_gen_align() -> (n: usize)
    ensures
        n as nat == align_of::<PassacreGenerator>(),
{
    core::mem::align_of::<PassacreGenerator>()
}

/// Length of a persistence buffer for scrypt.
pub fn passacre_gen_scrypt_buffer_size() -> (n: usize)
    ensures
        n == SCRYPT_BUFFER_SIZE,
{
    SCRYPT_BUFFER_SIZE
}

/// Initialises the storage behind `gen` for the algorithm that `algorithm` tags.
/// A missing handle or an unknown tag fails and writes nothing.
pub fn passacre_gen_init(gen: Option<&mut PassacreGenerator>, algorithm: u32) -> (s: i32)
    ensures
        gen is None ==> s == -1,
        gen matches Some(g) ==> match Algorithm::spec_of_tag(algorithm) {
            Some(a) => s == 0 && final(g)@ == GeneratorModel::fresh(a) && final(g)@.wf(),
            None => s == -1 && *final(g) == *g,
        },
{
    match gen {
        None => status(Err(PassacreError::NullHandle)),
        Some(g) => match Algorithm::of_c_uint(algorithm) {
            Ok(a) => {
                *g = PassacreGenerator::new(a);
                0
            },
            Err(_) => -1,
        },
    }
}

/// Sets the scrypt cost on the generator behind `gen`; see `PassacreGenerator::use_scrypt`.
pub fn passacre_gen_use_scrypt(
    gen: Option<&mut PassacreGenerator>,
    n: u64,
    r: u32,
    p: u32,
    persistence_buffer: Option<Vec<u8>>,
) -> (s: i32)
    requires
        gen matches Some(g) ==> g@.wf(),
    ensures
        gen is None ==> s == -1,
        gen matches Some(g) ==> final(g)@.wf() && if g@.can_configure() && scrypt_config_for(
            n,
            r,
            p,
        ) is Some && (persistence_buffer is None || persistence_buffer->0@.len()
            == SCRYPT_BUFFER_SIZE) {
            s == 0 && final(g)@ == (GeneratorModel {
                phase: Phase::Configured,
                kdf: scrypt_config_for(n, r, p),
                persistence: match persistence_buffer {
                    Some(b) => Some(b@),
                    None => None,
                },
                ..g@
            })
        } else {
            s == -1 && final(g)@ == g@
        },
{
    match gen {
        None => status(Err(PassacreError::NullHandle)),
        Some(g) => status(g.use_scrypt(n, r, p, persistence_buffer)),
    }
}

/// Absorbs a username, a password and a site into the generator behind `gen`.
pub fn passacre_gen_absorb_username_password_site(
    gen: Option<&mut PassacreGenerator>,
    username: &[u8],
    password: &[u8],
    site: &[u8],
) -> (s: i32)
    requires
        gen matches Some(g) ==> g@.wf(),
    ensures
        gen is None ==> s == -1,
        gen matches Some(g) ==> final(g)@.wf() && if g@.can_absorb() {
            s == 0 && final(g)@ == g@.after_absorb(username@, password@, site@)
        } else {
            s == -1 && final(g)@ == g@
        },
{
    match gen {
        None => status(Err(PassacreError::NullHandle)),
        Some(g) => status(g.absorb_username_password_site(username, password, site)),
    }
}

/// Absorbs `n_rounds` null rounds into the generator behind `gen`.
pub fn passacre_gen_absorb_null_rounds(gen: Option<&mut PassacreGenerator>, n_rounds: usize) -> (s:
    i32)
    requires
        gen matches Some(g) ==> g@.wf(),
    ensures
        gen is None ==> s == -1,
        gen matches Some(g) ==> final(g)@.wf() && if g@.can_absorb_null_rounds() {
            s == 0 && final(g)@ == (GeneratorModel {
                phase: Phase::Absorbing,
                absorbed: g@.absorbed + null_rounds(n_rounds as nat),
                ..g@
            })
        } else {
            s == -1 && final(g)@ == g@
        },
{
    match gen {
        None => status(Err(PassacreError::NullHandle)),
        Some(g) => status(g.absorb_null_rounds(n_rounds)),
    }
}

/// Fills `output` with the next bytes of the output of the generator behind `gen`.
pub fn passacre_gen_squeeze(gen: Option<&mut PassacreGenerator>, output: &mut [u8]) -> (s: i32)
    requires
        gen matches Some(g) ==> g@.wf(),
    ensures
        gen is None ==> s == -1 && final(output)@ == old(output)@,
        gen matches Some(g) ==> final(g)@.wf() && if g@.can_squeeze() && g@.squeezed + old(
            output,
        )@.len() <= usize::MAX {
            s == 0 && final(output)@ == stream(g@.absorbed, g@.squeezed, old(output)@.len())
                && final(g)@ == (GeneratorModel {
                phase: Phase::Squeezing,
                squeezed: g@.squeezed + old(output)@.len(),
                ..g@
            })
        } else {
            s == -1 && final(g)@ == g@ && final(output)@ == old(output)@
        },
{
    match gen {
        None => status(Err(PassacreError::NullHandle)),
        Some(g) => status(g.squeeze(output)),
    }
}

/// Finalises the generator behind `gen`; a missing handle is no error.
pub fn passacre_gen_finished(gen: Option<&mut PassacreGenerator>)
    requires
        gen matches Some(g) ==> g@.wf(),
    ensures
        gen matches Some(g) ==> final(g)@.wf() && if g@.phase == Phase::Uninitialized || g@.phase
            == Phase::Finalized {
            final(g)@ == g@
        } else {
            final(g)@ == (GeneratorModel {
                phase: Phase::Finalized,
                kdf: None,
                persistence: None,
                absorbed: Seq::empty(),
                squeezed: 0,
                ..g@
            })
        },
{
    if let Some(g) = gen {
        g.finalize();
    }
}

} // verus!
