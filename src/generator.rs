use crate::algorithm::{log2_exact, scrypt_log_n, Algorithm, PassacreError, ScryptConfig};
use crate::crypto::{
    scrypt_accepts, scrypt_derive, scrypt_key, scrypt_params_accepted, shake256, shake256_byte,
    SCRYPT_BUFFER_SIZE,
};
use vstd::prelude::*;

verus! {

/// Separates the username, the password and the site in the absorbed input (`:`).
pub const DELIMITER: u8 = 58;

/// Number of zero bytes that one null round absorbs.
pub const NULL_ROUND_LEN: usize = 64;

/// Where a generator stands in its lifecycle; it only moves forward.
#[derive(Clone, Copy, Debug, PartialEq, Eq, Structural)]
pub enum Phase {
    /// Storage that has not been initialised yet.
    Uninitialized,
    /// An algorithm is chosen; nothing is absorbed yet.
    Initialized,
    /// Scrypt parameters are set; nothing is absorbed yet.
    Configured,
    /// Input has been absorbed; more may follow.
    Absorbing,
    /// Output has been squeezed; no more input is taken.
    Squeezing,
    /// Finalised: the handle serves no further call.
    Finalized,
}

/// The abstract state of a generator.
pub ghost struct GeneratorModel {
    pub phase: Phase,
    pub algorithm: Algorithm,
    pub kdf: Option<ScryptConfig>,
    pub persistence: Option<Seq<u8>>,
    /// Everything the sponge has absorbed, in order.
    pub absorbed: Seq<u8>,
    /// How many output bytes have been squeezed so far.
    pub squeezed: nat,
}

impl GeneratorModel {
    pub open spec fn wf(self) -> bool {
        &&& self.phase == Phase::Configured ==> self.algorithm == Algorithm::Scrypt
        &&& self.algorithm == Algorithm::Sponge ==> self.kdf is None && self.persistence is None
        &&& self.algorithm == Algorithm::Scrypt && (self.phase == Phase::Configured
            || self.phase == Phase::Absorbing || self.phase == Phase::Squeezing) ==> self.kdf is Some
        &&& self.kdf matches Some(c) ==> scrypt_accepts(c.log_n, c.r, c.p, SCRYPT_BUFFER_SIZE)
        &&& self.persistence matches Some(b) ==> b.len() == SCRYPT_BUFFER_SIZE
        &&& self.squeezed <= usize::MAX
    }

    /// The state right after initialisation with `algorithm`.
    pub open spec fn fresh(algorithm: Algorithm) -> GeneratorModel {
        GeneratorModel {
            phase: Phase::Initialized,
            algorithm,
            kdf: None,
            persistence: None,
            absorbed: Seq::empty(),
            squeezed: 0,
        }
    }

    pub open spec fn can_configure(self) -> bool {
        self.phase == Phase::Initialized && self.algorithm == Algorithm::Scrypt
    }

    pub open spec fn can_absorb(self) -> bool {
        ||| self.phase == Phase::Absorbing
        ||| self.phase == Phase::Configured
        ||| self.phase == Phase::Initialized && self.algorithm == Algorithm::Sponge
    }

    /// Null rounds may come before, between or after credentials, but not before a scrypt
    /// generator has its setting.
    pub open spec fn can_absorb_null_rounds(self) -> bool {
        self.can_absorb()
    }

    pub open spec fn can_squeeze(self) -> bool {
        self.can_absorb() || self.phase == Phase::Squeezing
    }

    /// What absorbing one username, password and site feeds into the sponge.
    pub open spec fn material(self, username: Seq<u8>, password: Seq<u8>, site: Seq<u8>) -> Seq<u8> {
        match self.kdf {
            Some(c) => scrypt_key(password, scrypt_salt(username, site), c.log_n, c.r, c.p, SCRYPT_BUFFER_SIZE),
            None => credential(username, password, site),
        }
    }

    /// The state after absorbing one username, password and site.
    pub open spec fn after_absorb(self, username: Seq<u8>, password: Seq<u8>, site: Seq<u8>) -> GeneratorModel {
        GeneratorModel {
            phase: Phase::Absorbing,
            absorbed: self.absorbed + self.material(username, password, site),
            persistence: if self.kdf is Some && self.persistence is Some {
                Some(self.material(username, password, site))
            } else {
                self.persistence
            },
            ..self
        }
    }
}

/// The credentials joined by the delimiter.
pub open spec fn credential(username: Seq<u8>, password: Seq<u8>, site: Seq<u8>) -> Seq<u8> {
    username + seq![DELIMITER] + password + seq![DELIMITER] + site
}

/// The scrypt salt: the username and the site joined by the delimiter.
pub open spec fn scrypt_salt(username: Seq<u8>, site: Seq<u8>) -> Seq<u8> {
    username + seq![DELIMITER] + site
}

/// The padding input of `n` null rounds.
pub open spec fn null_rounds(n: nat) -> Seq<u8> {
    Seq::new(n * NULL_ROUND_LEN as nat, |i: int| 0u8)
}

/// `len` bytes of the sponge's output on `input`, starting at offset `start`.
pub open spec fn stream(input: Seq<u8>, start: nat, len: nat) -> Seq<u8> {
    Seq::new(len, |i: int| shake256_byte(input, (start + i) as nat))
}

/// The scrypt setting for a work factor `n`, if `n` is a power of two that scrypt accepts
/// together with `r` and `p`.
pub open spec fn scrypt_config_for(n: u64, r: u32, p: u32) -> Option<ScryptConfig> {
    match log2_exact(n as nat) {
        Some(k) => if k < 64 && scrypt_accepts(k as u8, r, p, SCRYPT_BUFFER_SIZE) {
            Some(ScryptConfig { log_n: k as u8, r, p })
        } else {
            None
        },
        None => None,
    }
}

/// Generator state: the chosen algorithm, its scrypt setting, and the sponge input so far.
pub struct PassacreGenerator {
    phase: Phase,
    algorithm: Algorithm,
    kdf: Option<ScryptConfig>,
    persistence: Option<Vec<u8>>,
    absorbed: Vec<u8>,
    squeezed: usize,
}

impl View for PassacreGenerator {
    type V = GeneratorModel;

    closed spec fn view(&self) -> GeneratorModel {
        GeneratorModel {
            phase: self.phase,
            algorithm: self.algorithm,
            kdf: self.kdf,
            persistence: match self.persistence {
                Some(b) => Some(b@),
                None => None,
            },
            absorbed: self.absorbed@,
            squeezed: self.squeezed as nat,
        }
    }
}

impl PassacreGenerator {
    /// Storage for a generator that has not been initialised.
    pub fn uninitialized() -> (g: PassacreGenerator)
        ensures
            g@ == (GeneratorModel {
                phase: Phase::Uninitialized,
                algorithm: Algorithm::Sponge,
                kdf: None,
                persistence: None,
                absorbed: Seq::empty(),
                squeezed: 0,
            }),
            g@.wf(),
    {
        let g = PassacreGenerator {
            phase: Phase::Uninitialized,
            algorithm: Algorithm::Sponge,
            kdf: None,
            persistence: None,
            absorbed: Vec::new(),
            squeezed: 0,
        };
        assert(g@.absorbed =~= Seq::<u8>::empty());
        g
    }

    /// A generator for `algorithm` that has absorbed nothing.
    pub fn new(algorithm: Algorithm) -> (g: PassacreGenerator)
        ensures
            g@ == GeneratorModel::fresh(algorithm),
            g@.wf(),
    {
        let g = PassacreGenerator {
            phase: Phase::Initialized,
            algorithm,
            kdf: None,
            persistence: None,
            absorbed: Vec::new(),
            squeezed: 0,
        };
        assert(g@.absorbed =~= Seq::<u8>::empty());
        g
    }
    /// Sets the scrypt cost (`n` a power of two, `r`, `p`) and an optional persistence buffer
    /// that receives each derived key. Only a fresh scrypt generator takes this.
    pub fn use_scrypt(&mut self, n: u64, r: u32, p: u32, persistence_buffer: Option<Vec<u8>>) -> (res:
        Result<(), PassacreError>)
        requires
            old(self)@.wf(),
        ensures
            final(self)@.wf(),
            !old(self)@.can_configure() ==> res == Err::<(), PassacreError>(
                PassacreError::ProtocolViolation,
            ) && final(self)@ == old(self)@,
            old(self)@.can_configure() && (scrypt_config_for(n, r, p) is None || (
            persistence_buffer is Some && persistence_buffer->0@.len() != SCRYPT_BUFFER_SIZE))
                ==> res == Err::<(), PassacreError>(PassacreError::InvalidKdfParameters)
                && final(self)@ == old(self)@,
            old(self)@.can_configure() && scrypt_config_for(n, r, p) is Some && (
            persistence_buffer is None || persistence_buffer->0@.len() == SCRYPT_BUFFER_SIZE)
                ==> res == Ok::<(), PassacreError>(()) && final(self)@ == (GeneratorModel {
                phase: Phase::Configured,
                kdf: scrypt_config_for(n, r, p),
                persistence: match persistence_buffer {
                    Some(b) => Some(b@),
                    None => None,
                },
                ..old(self)@
            }),
    {
        if !(self.phase == Phase::Initialized && self.algorithm == Algorithm::Scrypt) {
            return Err(PassacreError::ProtocolViolation);
        }
        let log_n = match scrypt_log_n(n) {
            Some(k) => k,
            None => return Err(PassacreError::InvalidKdfParameters),
        };
        if !scrypt_params_accepted(log_n, r, p, SCRYPT_BUFFER_SIZE) {
            return Err(PassacreError::InvalidKdfParameters);
        }
        if let Some(b) = &persistence_buffer {
            if b.len() != SCRYPT_BUFFER_SIZE {
                return Err(PassacreError::InvalidKdfParameters);
            }
        }
        self.kdf = Some(ScryptConfig { log_n, r, p });
        self.persistence = persistence_buffer;
        self.phase = Phase::Configured;
        Ok(())
    }

    /// Absorbs a username, a password and a site, in that order. Under scrypt the sponge
    /// absorbs the key derived from them instead, which also goes to the persistence buffer.
    pub fn absorb_username_password_site(&mut self, username: &[u8], password: &[u8], site: &[u8]) -> (res:
        Result<(), PassacreError>)
        requires
            old(self)@.wf(),
        ensures
            final(self)@.wf(),
            old(self)@.can_absorb() ==> res == Ok::<(), PassacreError>(()) && final(self)@
                == old(self)@.after_absorb(username@, password@, site@),
            !old(self)@.can_absorb() ==> res == Err::<(), PassacreError>(
                PassacreError::ProtocolViolation,
            ) && final(self)@ == old(self)@,
    {
        if !(self.phase == Phase::Absorbing || self.phase == Phase::Configured || (self.phase
            == Phase::Initialized && self.algorithm == Algorithm::Sponge)) {
            return Err(PassacreError::ProtocolViolation);
        }
        match self.kdf {
            Some(c) => {
                let mut salt: Vec<u8> = Vec::new();
                append(&mut salt, username);
                salt.push(DELIMITER);
                append(&mut salt, site);
                assert(salt@ =~= scrypt_salt(username@, site@));
                let key = match scrypt_derive(
                    password,
                    salt.as_slice(),
                    c.log_n,
                    c.r,
                    c.p,
                    SCRYPT_BUFFER_SIZE,
                ) {
                    Some(k) => k,
                    None => return Err(PassacreError::InternalCryptoFailure),
                };
                append(&mut self.absorbed, key.as_slice());
                if self.persistence.is_some() {
                    self.persistence = Some(key);
                }
            },
            None => {
                append(&mut self.absorbed, username);
                self.absorbed.push(DELIMITER);
                append(&mut self.absorbed, password);
                self.absorbed.push(DELIMITER);
                append(&mut self.absorbed, site);
                assert(self.absorbed@ =~= old(self).absorbed@ + credential(
                    username@,
                    password@,
                    site@,
                ));
            },
        }
        self.phase = Phase::Absorbing;
        Ok(())
    }

    /// Absorbs `n_rounds` rounds of padding, each `NULL_ROUND_LEN` zero bytes.
    pub fn absorb_null_rounds(&mut self, n_rounds: usize) -> (res: Result<(), PassacreError>)
        requires
            old(self)@.wf(),
        ensures
            final(self)@.wf(),
            old(self)@.can_absorb_null_rounds() ==> res == Ok::<(), PassacreError>(())
                && final(self)@ == (GeneratorModel {
                phase: Phase::Absorbing,
                absorbed: old(self)@.absorbed + null_rounds(n_rounds as nat),
                ..old(self)@
            }),
            !old(self)@.can_absorb_null_rounds() ==> res == Err::<(), PassacreError>(
                PassacreError::ProtocolViolation,
            ) && final(self)@ == old(self)@,
    {
        if !(self.phase == Phase::Absorbing || self.phase == Phase::Configured || (self.phase
            == Phase::Initialized && self.algorithm == Algorithm::Sponge)) {
            return Err(PassacreError::ProtocolViolation);
        }
        append_null_rounds(&mut self.absorbed, n_rounds);
        self.phase = Phase::Absorbing;
        Ok(())
    }

    /// Writes the next `output.len()` bytes of the sponge's output into `output`.
    /// No input is taken afterwards.
    pub fn squeeze(&mut self, output: &mut [u8]) -> (res: Result<(), PassacreError>)
        requires
            old(self)@.wf(),
        ensures
            final(self)@.wf(),
            !old(self)@.can_squeeze() ==> res == Err::<(), PassacreError>(
                PassacreError::ProtocolViolation,
            ) && final(self)@ == old(self)@ && final(output)@ == old(output)@,
            old(self)@.can_squeeze() && old(self)@.squeezed + old(output)@.len() > usize::MAX
                ==> res == Err::<(), PassacreError>(PassacreError::InternalCryptoFailure)
                && final(self)@ == old(self)@ && final(output)@ == old(output)@,
            old(self)@.can_squeeze() && old(self)@.squeezed + old(output)@.len() <= usize::MAX
                ==> res == Ok::<(), PassacreError>(()) && final(output)@ == stream(
                old(self)@.absorbed,
                old(self)@.squeezed,
                old(output)@.len(),
            ) && final(self)@ == (GeneratorModel {
                phase: Phase::Squeezing,
                squeezed: old(self)@.squeezed + old(output)@.len(),
                ..old(self)@
            }),
    {
        if !(self.phase == Phase::Absorbing || self.phase == Phase::Squeezing || self.phase
            == Phase::Configured || (self.phase == Phase::Initialized && self.algorithm
            == Algorithm::Sponge)) {
            return Err(PassacreError::ProtocolViolation);
        }
        let len = output.len();
        if len > usize::MAX - self.squeezed {
            return Err(PassacreError::InternalCryptoFailure);
        }
        let start = self.squeezed;
        let total = start + len;
        let full = shake256(self.absorbed.as_slice(), total);
        let ghost absorbed = self.absorbed@;
        let mut i: usize = 0;
        while i < len
            invariant
                i <= len,
                start + len == total,
                output@.len() == len,
                full@ == Seq::new(total as nat, |j: int| shake256_byte(absorbed, j as nat)),
                forall|j: int|
                    0 <= j < i ==> output@[j] == shake256_byte(absorbed, (start + j) as nat),
            decreases len - i,
        {
            output[i] = full[start + i];
            i = i + 1;
        }
        assert(output@ =~= stream(absorbed, start as nat, len as nat));
        self.squeezed = total;
        self.phase = Phase::Squeezing;
        Ok(())
    }

    /// Wipes the absorbed input and the generator's copy of the derived key, and ends the
    /// lifecycle. Storage that was never initialised, or is already finalised, is left as it is.
    pub fn finalize(&mut self)
        requires
            old(self)@.wf(),
        ensures
            final(self)@.wf(),
            old(self)@.phase == Phase::Uninitialized || old(self)@.phase == Phase::Finalized
                ==> final(self)@ == old(self)@,
            !(old(self)@.phase == Phase::Uninitialized || old(self)@.phase == Phase::Finalized)
                ==> final(self)@ == (GeneratorModel {
                phase: Phase::Finalized,
                kdf: None,
                persistence: None,
                absorbed: Seq::empty(),
                squeezed: 0,
                ..old(self)@
            }),
    {
        if self.phase == Phase::Uninitialized || self.phase == Phase::Finalized {
            return;
        }
        wipe(&mut self.absorbed);
        if let Some(key) = &mut self.persistence {
            wipe(key);
        }
        self.persistence = None;
        self.kdf = None;
        self.squeezed = 0;
        self.phase = Phase::Finalized;
        assert(self@.absorbed =~= Seq::<u8>::empty());
    }

    /// Where the generator stands in its lifecycle.
    pub fn phase(&self) -> (p: Phase)
        ensures
            p == self@.phase,
    {
        self.phase
    }

    /// The algorithm the generator was initialised with.
    pub fn algorithm(&self) -> (a: Algorithm)
        ensures
            a == self@.algorithm,
    {
        self.algorithm
    }

    /// The persistence buffer, holding the last derived scrypt key once one was derived.
    pub fn persistence_buffer(&self) -> (b: Option<&Vec<u8>>)
        ensures
            match b {
                Some(v) => self@.persistence == Some(v@),
                None => self@.persistence is None,
            },
    {
        match &self.persistence {
            Some(v) => Some(v),
            None => None,
        }
    }
}

/// What `generate` returns for a tag, an optional scrypt cost `(n, r, p)`, the credentials,
/// a number of null rounds and an output length.
pub open spec fn expected_output(
    tag: u32,
    scrypt_cost: Option<(u64, u32, u32)>,
    username: Seq<u8>,
    password: Seq<u8>,
    site: Seq<u8>,
    rounds: nat,
    len: nat,
) -> Result<Seq<u8>, PassacreError> {
    match Algorithm::spec_of_tag(tag) {
        None => Err(PassacreError::InvalidAlgorithmTag),
        Some(algorithm) => match scrypt_cost {
            None => if algorithm == Algorithm::Sponge {
                Ok(stream(credential(username, password, site) + null_rounds(rounds), 0, len))
            } else {
                Err(PassacreError::ProtocolViolation)
            },
            Some((n, r, p)) => if algorithm == Algorithm::Sponge {
                Err(PassacreError::ProtocolViolation)
            } else {
                match scrypt_config_for(n, r, p) {
                    None => Err(PassacreError::InvalidKdfParameters),
                    Some(c) => Ok(
                        stream(
                            scrypt_key(password, scrypt_salt(username, site), c.log_n, c.r, c.p, SCRYPT_BUFFER_SIZE)
                                + null_rounds(rounds),
                            0,
                            len,
                        ),
                    ),
                }
            },
        },
    }
}

/// Runs a whole lifecycle on a fresh generator: initialise with `tag`, set the scrypt cost
/// if one is given, absorb the credentials and `rounds` null rounds, squeeze `len` bytes,
/// finalise. The result depends on these inputs alone.
pub fn generate(
    tag: u32,
    scrypt_cost: Option<(u64, u32, u32)>,
    username: &[u8],
    password: &[u8],
    site: &[u8],
    rounds: usize,
    len: usize,
) -> (res: Result<Vec<u8>, PassacreError>)
    ensures
        match res {
            Ok(v) => expected_output(tag, scrypt_cost, username@, password@, site@, rounds as nat, len as nat)
                == Ok::<Seq<u8>, PassacreError>(v@),
            Err(e) => expected_output(tag, scrypt_cost, username@, password@, site@, rounds as nat, len as nat)
                == Err::<Seq<u8>, PassacreError>(e),
        },
{
    let algorithm = match Algorithm::of_c_uint(tag) {
        Ok(a) => a,
        Err(e) => return Err(e),
    };
    let mut g = PassacreGenerator::new(algorithm);
    if let Some((n, r, p)) = scrypt_cost {
        if let Err(e) = g.use_scrypt(n, r, p, None) {
            return Err(e);
        }
    }
    if let Err(e) = g.absorb_username_password_site(username, password, site) {
        return Err(e);
    }
    if let Err(e) = g.absorb_null_rounds(rounds) {
        return Err(e);
    }
    let mut out: Vec<u8> = vec![0u8; len];
    if let Err(e) = g.squeeze(out.as_mut_slice()) {
        return Err(e);
    }
    g.finalize();
    Ok(out)
}

/// Squeezing `l1` bytes and then `l2` more yields exactly the first `l1 + l2` bytes that a
/// single squeeze from the same state yields: `squeeze` reads `stream(absorbed, squeezed, len)`
/// and advances `squeezed` by `len`.
pub proof fn lemma_squeeze_composes(absorbed: Seq<u8>, squeezed: nat, l1: nat, l2: nat)
    ensures
        stream(absorbed, squeezed, l1) + stream(absorbed, squeezed + l1, l2) == stream(
            absorbed,
            squeezed,
            l1 + l2,
        ),
{
    assert(stream(absorbed, squeezed, l1) + stream(absorbed, squeezed + l1, l2) =~= stream(
        absorbed,
        squeezed,
        l1 + l2,
    ));
}

/// Absorbing `n` null rounds and then `m` more leaves the same sponge input, and so the same
/// output, as absorbing `n + m` rounds at once.
pub proof fn lemma_null_rounds_add(absorbed: Seq<u8>, n: nat, m: nat)
    ensures
        absorbed + null_rounds(n) + null_rounds(m) == absorbed + null_rounds(n + m),
{
    assert(absorbed + null_rounds(n) + null_rounds(m) =~= absorbed + null_rounds(n + m));
}

/// Storage that was never initialised, or is already finalised, takes no operation: with
/// the contracts of the methods, every call on it fails and leaves it as it was.
pub proof fn lemma_dead_storage_refuses(m: GeneratorModel)
    requires
        m.phase == Phase::Uninitialized || m.phase == Phase::Finalized,
    ensures
        !m.can_configure(),
        !m.can_absorb(),
        !m.can_absorb_null_rounds(),
        !m.can_squeeze(),
{
}

/// Overwrites `v` with zeros, then releases it.
fn wipe(v: &mut Vec<u8>)
    ensures
        final(v)@ == Seq::<u8>::empty(),
{
    let n = v.len();
    let mut i: usize = 0;
    while i < n
        invariant
            i <= n,
            v@.len() == n,
        decreases n - i,
    {
        v[i] = 0;
        i = i + 1;
    }
    *v = Vec::new();
    assert(v@ =~= Seq::<u8>::empty());
}

/// Appends `bytes` to `v`.
fn append(v: &mut Vec<u8>, bytes: &[u8])
    ensures
        final(v)@ == old(v)@ + bytes@,
{
    let mut i: usize = 0;
    while i < bytes.len()
        invariant
            i <= bytes@.len(),
            v@ == old(v)@ + bytes@.subrange(0, i as int),
        decreases bytes@.len() - i,
    {
        v.push(bytes[i]);
        i = i + 1;
        assert(v@ =~= old(v)@ + bytes@.subrange(0, i as int));
    }
    assert(bytes@.subrange(0, bytes@.len() as int) =~= bytes@);
}

/// Appends `n_rounds` null rounds to `v`.
fn append_null_rounds(v: &mut Vec<u8>, n_rounds: usize)
    ensures
        final(v)@ == old(v)@ + null_rounds(n_rounds as nat),
{
    let mut round: usize = 0;
    while round < n_rounds
        invariant
            round <= n_rounds,
            v@ == old(v)@ + null_rounds(round as nat),
        decreases n_rounds - round,
    {
        let ghost before = v@;
        let mut j: usize = 0;
        while j < NULL_ROUND_LEN
            invariant
                j <= NULL_ROUND_LEN,
                v@ == before + Seq::new(j as nat, |k: int| 0u8),
            decreases NULL_ROUND_LEN - j,
        {
            v.push(0);
            j = j + 1;
            assert(v@ =~= before + Seq::new(j as nat, |k: int| 0u8));
        }
        round = round + 1;
        assert(v@ =~= old(v)@ + null_rounds(round as nat));
    }
}

} // verus!
