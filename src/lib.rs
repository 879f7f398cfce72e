//! A deterministic password generator built on a sponge construction, with
//! optional scrypt key stretching, and the status-code surface that foreign
//! callers drive it through.

mod algorithm;
mod crypto;
mod generator;
mod boundary;

pub use algorithm::{log2_exact, scrypt_log_n, Algorithm, PassacreError, ScryptConfig};
pub use crypto::{scrypt_key, scrypt_accepts, shake256_byte, SCRYPT_BUFFER_SIZE};
pub use generator::{
    credential, expected_output, generate, lemma_dead_storage_refuses, lemma_null_rounds_add, lemma_squeeze_composes, null_rounds,
    scrypt_config_for, scrypt_salt, stream, GeneratorModel, PassacreGenerator, Phase,
    DELIMITER, NULL_ROUND_LEN,
};
pub use boundary::{
    maybe, passacre_gen_absorb_null_rounds, passacre_gen_absorb_username_password_site,
    passacre_gen_align, passacre_gen_finished, passacre_gen_init, passacre_gen_scrypt_buffer_size,
    passacre_gen_size, passacre_gen_squeeze, passacre_gen_use_scrypt, status,
};
