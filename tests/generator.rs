use libpassacre::{
    generate, scrypt_log_n, Algorithm, PassacreError, PassacreGenerator, Phase, SCRYPT_BUFFER_SIZE,
};

const GOLDEN_ALICE: [u8; 20] = [
    165, 35, 22, 124, 20, 68, 245, 93, 46, 235, 195, 73, 17, 122, 217, 102, 175, 199, 46, 159,
];

const SCRYPT_KEY_ALICE: [u8; 64] = [
    217, 100, 136, 104, 228, 157, 104, 83, 140, 169, 74, 157, 124, 123, 241, 171, 55, 6, 243, 223,
    1, 236, 14, 117, 226, 117, 202, 0, 53, 175, 53, 164, 87, 7, 237, 89, 108, 62, 236, 120, 88, 48,
    57, 174, 155, 27, 230, 159, 181, 206, 112, 245, 95, 95, 17, 159, 53, 195, 89, 162, 249, 135,
    198, 40,
];

const SCRYPT_OUT_ALICE: [u8; 20] = [
    250, 28, 88, 96, 213, 57, 140, 45, 149, 24, 222, 96, 114, 138, 146, 223, 193, 162, 224, 183,
];

fn sponge_alice() -> PassacreGenerator {
    let mut g = PassacreGenerator::new(Algorithm::Sponge);
    g.absorb_username_password_site(b"alice", b"s3cret", b"example.com").unwrap();
    g
}

#[test]
fn end_to_end_sponge_golden() {
    let mut g = sponge_alice();
    g.absorb_null_rounds(0).unwrap();
    let mut out = [0u8; 20];
    g.squeeze(&mut out).unwrap();
    assert_eq!(out, GOLDEN_ALICE);
    g.finalize();
    assert_eq!(g.phase(), Phase::Finalized);
}

#[test]
fn end_to_end_repeats_exactly() {
    let first = generate(0, None, b"alice", b"s3cret", b"example.com", 0, 20).unwrap();
    let second = generate(0, None, b"alice", b"s3cret", b"example.com", 0, 20).unwrap();
    assert_eq!(first, GOLDEN_ALICE.to_vec());
    assert_eq!(first, second);
}

#[test]
fn determinism_across_fresh_instances_any_length() {
    for len in [0usize, 1, 17, 136, 137, 300] {
        let a = generate(0, None, b"bob", b"pw", b"site.org", 3, len).unwrap();
        let b = generate(0, None, b"bob", b"pw", b"site.org", 3, len).unwrap();
        assert_eq!(a.len(), len);
        assert_eq!(a, b);
    }
}

#[test]
fn squeeze_in_pieces_matches_one_squeeze() {
    let mut g = sponge_alice();
    let mut head = [0u8; 7];
    let mut tail = [0u8; 13];
    g.squeeze(&mut head).unwrap();
    g.squeeze(&mut tail).unwrap();
    assert_eq!(head[..], GOLDEN_ALICE[..7]);
    assert_eq!(tail[..], GOLDEN_ALICE[7..]);
}

#[test]
fn squeeze_in_many_pieces_past_a_block() {
    let whole = generate(0, None, b"u", b"p", b"s", 1, 400).unwrap();
    let mut g = PassacreGenerator::new(Algorithm::Sponge);
    g.absorb_username_password_site(b"u", b"p", b"s").unwrap();
    g.absorb_null_rounds(1).unwrap();
    let mut pieces = Vec::new();
    for len in [1usize, 135, 1, 136, 127] {
        let mut buf = vec![0u8; len];
        g.squeeze(&mut buf).unwrap();
        pieces.extend_from_slice(&buf);
    }
    assert_eq!(pieces, whole);
}

#[test]
fn null_rounds_add_up() {
    let expected: [u8; 16] = [
        195, 29, 187, 195, 44, 116, 152, 213, 89, 104, 0, 191, 96, 45, 61, 48,
    ];
    let mut split = sponge_alice();
    split.absorb_null_rounds(2).unwrap();
    split.absorb_null_rounds(3).unwrap();
    let mut joined = sponge_alice();
    joined.absorb_null_rounds(5).unwrap();
    let mut a = [0u8; 16];
    let mut b = [0u8; 16];
    split.squeeze(&mut a).unwrap();
    joined.squeeze(&mut b).unwrap();
    assert_eq!(a, b);
    assert_eq!(a, expected);
}

#[test]
fn null_rounds_change_the_output() {
    let none = generate(0, None, b"alice", b"s3cret", b"example.com", 0, 20).unwrap();
    let one = generate(0, None, b"alice", b"s3cret", b"example.com", 1, 20).unwrap();
    assert_ne!(none, one);
}

#[test]
fn empty_credentials_are_delimited() {
    let out = generate(0, None, b"", b"", b"", 0, 8).unwrap();
    assert_eq!(out, vec![238, 243, 79, 68, 12, 233, 88, 105]);
}

#[test]
fn credentials_do_not_run_together() {
    let a = generate(0, None, b"ab", b"c", b"d", 0, 16).unwrap();
    let b = generate(0, None, b"a", b"bc", b"d", 0, 16).unwrap();
    assert_ne!(a, b);
}

#[test]
fn scrypt_end_to_end_golden() {
    let out = generate(1, Some((16, 1, 1)), b"alice", b"s3cret", b"example.com", 0, 20).unwrap();
    assert_eq!(out, SCRYPT_OUT_ALICE.to_vec());
}

#[test]
fn scrypt_with_null_rounds_golden() {
    let out = generate(1, Some((16, 1, 1)), b"alice", b"s3cret", b"example.com", 2, 12).unwrap();
    assert_eq!(out, vec![209, 86, 229, 16, 105, 181, 210, 118, 156, 201, 62, 98]);
}

#[test]
fn scrypt_key_goes_to_persistence_buffer() {
    let mut g = PassacreGenerator::new(Algorithm::Scrypt);
    g.use_scrypt(16, 1, 1, Some(vec![0u8; SCRYPT_BUFFER_SIZE])).unwrap();
    assert_eq!(g.phase(), Phase::Configured);
    g.absorb_username_password_site(b"alice", b"s3cret", b"example.com").unwrap();
    assert_eq!(g.persistence_buffer().unwrap().as_slice(), &SCRYPT_KEY_ALICE[..]);
    let mut out = [0u8; 20];
    g.squeeze(&mut out).unwrap();
    assert_eq!(out, SCRYPT_OUT_ALICE);
}

#[test]
fn scrypt_without_buffer_keeps_none() {
    let mut g = PassacreGenerator::new(Algorithm::Scrypt);
    g.use_scrypt(16, 1, 1, None).unwrap();
    g.absorb_username_password_site(b"alice", b"s3cret", b"example.com").unwrap();
    assert!(g.persistence_buffer().is_none());
}

#[test]
fn algorithms_are_separated() {
    let sponge = generate(0, None, b"alice", b"s3cret", b"example.com", 0, 20).unwrap();
    let scrypt = generate(1, Some((16, 1, 1)), b"alice", b"s3cret", b"example.com", 0, 20).unwrap();
    assert_ne!(sponge, scrypt);
}

#[test]
fn scrypt_parameters_each_matter() {
    let base = generate(1, Some((16, 1, 1)), b"alice", b"s3cret", b"example.com", 0, 20).unwrap();
    let n = generate(1, Some((32, 1, 1)), b"alice", b"s3cret", b"example.com", 0, 20).unwrap();
    let r = generate(1, Some((16, 2, 1)), b"alice", b"s3cret", b"example.com", 0, 20).unwrap();
    let p = generate(1, Some((16, 1, 2)), b"alice", b"s3cret", b"example.com", 0, 20).unwrap();
    assert_ne!(base, n);
    assert_ne!(base, r);
    assert_ne!(base, p);
    assert_ne!(n, r);
}

#[test]
fn unknown_tag_is_refused() {
    assert_eq!(Algorithm::of_c_uint(0), Ok(Algorithm::Sponge));
    assert_eq!(Algorithm::of_c_uint(1), Ok(Algorithm::Scrypt));
    assert_eq!(Algorithm::of_c_uint(2), Err(PassacreError::InvalidAlgorithmTag));
    assert_eq!(
        generate(u32::MAX, None, b"a", b"b", b"c", 0, 4),
        Err(PassacreError::InvalidAlgorithmTag)
    );
}

#[test]
fn work_factor_must_be_a_power_of_two() {
    let mut g = PassacreGenerator::new(Algorithm::Scrypt);
    assert_eq!(g.use_scrypt(3, 1, 1, None), Err(PassacreError::InvalidKdfParameters));
    assert_eq!(g.use_scrypt(0, 1, 1, None), Err(PassacreError::InvalidKdfParameters));
    assert_eq!(g.phase(), Phase::Initialized);
    assert_eq!(
        generate(1, Some((1000, 8, 1)), b"a", b"b", b"c", 0, 4),
        Err(PassacreError::InvalidKdfParameters)
    );
}

#[test]
fn zero_block_size_or_parallelism_is_refused() {
    let mut g = PassacreGenerator::new(Algorithm::Scrypt);
    assert_eq!(g.use_scrypt(16, 0, 1, None), Err(PassacreError::InvalidKdfParameters));
    assert_eq!(g.use_scrypt(16, 1, 0, None), Err(PassacreError::InvalidKdfParameters));
    assert_eq!(g.use_scrypt(16, 1, 1, None), Ok(()));
}

#[test]
fn persistence_buffer_of_wrong_size_is_refused() {
    let mut g = PassacreGenerator::new(Algorithm::Scrypt);
    assert_eq!(
        g.use_scrypt(16, 1, 1, Some(vec![0u8; SCRYPT_BUFFER_SIZE - 1])),
        Err(PassacreError::InvalidKdfParameters)
    );
    assert_eq!(g.phase(), Phase::Initialized);
    assert!(g.persistence_buffer().is_none());
}

#[test]
fn scrypt_setting_only_for_scrypt() {
    let mut g = PassacreGenerator::new(Algorithm::Sponge);
    assert_eq!(g.use_scrypt(16, 1, 1, None), Err(PassacreError::ProtocolViolation));
    assert_eq!(
        generate(0, Some((16, 1, 1)), b"a", b"b", b"c", 0, 4),
        Err(PassacreError::ProtocolViolation)
    );
}

#[test]
fn scrypt_setting_only_once() {
    let mut g = PassacreGenerator::new(Algorithm::Scrypt);
    g.use_scrypt(16, 1, 1, None).unwrap();
    assert_eq!(g.use_scrypt(32, 1, 1, None), Err(PassacreError::ProtocolViolation));
}

#[test]
fn scrypt_needs_its_setting_before_absorbing() {
    let mut g = PassacreGenerator::new(Algorithm::Scrypt);
    assert_eq!(
        g.absorb_username_password_site(b"a", b"b", b"c"),
        Err(PassacreError::ProtocolViolation)
    );
    assert_eq!(generate(1, None, b"a", b"b", b"c", 0, 4), Err(PassacreError::ProtocolViolation));
}

#[test]
fn absorbing_after_squeezing_is_refused() {
    let mut g = sponge_alice();
    let mut out = [0u8; 4];
    g.squeeze(&mut out).unwrap();
    assert_eq!(
        g.absorb_username_password_site(b"x", b"y", b"z"),
        Err(PassacreError::ProtocolViolation)
    );
    assert_eq!(g.absorb_null_rounds(1), Err(PassacreError::ProtocolViolation));
    let mut rest = [0u8; 16];
    g.squeeze(&mut rest).unwrap();
    assert_eq!(out[..], GOLDEN_ALICE[..4]);
    assert_eq!(rest[..], GOLDEN_ALICE[4..]);
}

#[test]
fn null_rounds_before_credentials() {
    let mut g = PassacreGenerator::new(Algorithm::Sponge);
    g.absorb_null_rounds(1).unwrap();
    assert_eq!(g.phase(), Phase::Absorbing);
    g.absorb_username_password_site(b"alice", b"s3cret", b"example.com").unwrap();
    let mut out = [0u8; 8];
    g.squeeze(&mut out).unwrap();
    assert_eq!(out, [123, 71, 30, 238, 226, 197, 104, 46]);
}

#[test]
fn null_rounds_alone() {
    let mut g = PassacreGenerator::new(Algorithm::Sponge);
    g.absorb_null_rounds(2).unwrap();
    let mut out = [0u8; 8];
    g.squeeze(&mut out).unwrap();
    assert_eq!(out, [34, 134, 75, 150, 211, 72, 124, 86]);
}

#[test]
fn squeeze_with_nothing_absorbed() {
    let mut g = PassacreGenerator::new(Algorithm::Sponge);
    let mut out = [0u8; 8];
    assert_eq!(g.squeeze(&mut out), Ok(()));
    assert_eq!(out, [70, 185, 221, 43, 11, 168, 141, 19]);
    assert_eq!(g.phase(), Phase::Squeezing);
}

#[test]
fn scrypt_needs_its_setting_before_anything() {
    let mut g = PassacreGenerator::new(Algorithm::Scrypt);
    assert_eq!(g.absorb_null_rounds(1), Err(PassacreError::ProtocolViolation));
    let mut out = [6u8; 4];
    assert_eq!(g.squeeze(&mut out), Err(PassacreError::ProtocolViolation));
    assert_eq!(out, [6u8; 4]);
    assert_eq!(g.phase(), Phase::Initialized);
}

#[test]
fn finalize_wipes_the_derived_key() {
    let mut g = PassacreGenerator::new(Algorithm::Scrypt);
    g.use_scrypt(16, 1, 1, Some(vec![0u8; SCRYPT_BUFFER_SIZE])).unwrap();
    g.absorb_username_password_site(b"alice", b"s3cret", b"example.com").unwrap();
    assert!(g.persistence_buffer().is_some());
    g.finalize();
    assert!(g.persistence_buffer().is_none());
    assert_eq!(g.phase(), Phase::Finalized);
}

#[test]
fn uninitialized_storage_refuses_everything() {
    let mut g = PassacreGenerator::uninitialized();
    let mut out = [9u8; 4];
    assert_eq!(g.squeeze(&mut out), Err(PassacreError::ProtocolViolation));
    assert_eq!(out, [9u8; 4]);
    assert_eq!(g.absorb_username_password_site(b"a", b"b", b"c"), Err(PassacreError::ProtocolViolation));
    assert_eq!(g.absorb_null_rounds(1), Err(PassacreError::ProtocolViolation));
    assert_eq!(g.use_scrypt(16, 1, 1, None), Err(PassacreError::ProtocolViolation));
    g.finalize();
    assert_eq!(g.phase(), Phase::Uninitialized);
}

#[test]
fn finalized_generator_refuses_everything() {
    let mut g = sponge_alice();
    g.finalize();
    let mut out = [5u8; 4];
    assert_eq!(g.squeeze(&mut out), Err(PassacreError::ProtocolViolation));
    assert_eq!(out, [5u8; 4]);
    assert_eq!(g.absorb_username_password_site(b"a", b"b", b"c"), Err(PassacreError::ProtocolViolation));
    assert_eq!(g.absorb_null_rounds(1), Err(PassacreError::ProtocolViolation));
    g.finalize();
    assert_eq!(g.phase(), Phase::Finalized);
    assert_eq!(g.algorithm(), Algorithm::Sponge);
}

#[test]
fn log_n_of_work_factor() {
    assert_eq!(scrypt_log_n(1), Some(0));
    assert_eq!(scrypt_log_n(2), Some(1));
    assert_eq!(scrypt_log_n(1024), Some(10));
    assert_eq!(scrypt_log_n(1u64 << 63), Some(63));
    assert_eq!(scrypt_log_n(0), None);
    assert_eq!(scrypt_log_n(6), None);
    assert_eq!(scrypt_log_n(u64::MAX), None);
}
