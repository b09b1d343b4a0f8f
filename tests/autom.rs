use nauty_autom::autom::{dense_outcome, Autom};
use nauty_autom::error::NautyError;
use nauty_autom::laws::ONE_BITS;
use nauty_autom::options::{default_backend, options_for, Backend, SearchOptions};
use nauty_autom::stats::{EngineStats, MTOOBIG, NTOOBIG, STATUS_OK};

fn record(base: f64, exp: i32, orbits: i32, gens: i32, status: i32) -> EngineStats {
    EngineStats {
        grpsize1_bits: base.to_bits(),
        grpsize2: exp,
        numorbits: orbits,
        numgenerators: gens,
        errstatus: status,
    }
}

#[test]
fn one_bits_is_one() {
    assert_eq!(f64::from_bits(ONE_BITS), 1.0);
}

#[test]
fn default_autom_is_zero() {
    let a = Autom::default();
    assert_eq!(a.grpsize_base_bits, 0);
    assert_eq!(f64::from_bits(a.grpsize_base_bits), 0.0);
    assert_eq!(a.grpsize_exp, 0);
    assert_eq!(a.num_orbits, 0);
    assert_eq!(a.num_generators, 0);
}

#[test]
fn from_stats_renames_fields() {
    let a = Autom::from_stats(record(3.5, 12, 4, 7, STATUS_OK));
    assert_eq!(f64::from_bits(a.grpsize_base_bits), 3.5);
    assert_eq!(a.grpsize_exp, 12);
    assert_eq!(a.num_orbits, 4);
    assert_eq!(a.num_generators, 7);
}

#[test]
fn from_stats_narrows_like_as() {
    let a = Autom::from_stats(record(1.0, -1, -2, i32::MAX, STATUS_OK));
    assert_eq!(a.grpsize_exp, u32::MAX);
    assert_eq!(a.num_orbits, u32::MAX - 1);
    assert_eq!(a.num_generators, i32::MAX as u32);
}

#[test]
fn directed_edge_record_is_trivial_group() {
    let a = dense_outcome(record(1.0, 0, 2, 0, STATUS_OK)).unwrap();
    assert_eq!(f64::from_bits(a.grpsize_base_bits), 1.0);
    assert_eq!(a.grpsize_exp, 0);
    assert_eq!(a.num_orbits, 2);
    assert_eq!(a.num_generators, 0);
}

#[test]
fn undirected_edge_record_has_order_two() {
    let a = dense_outcome(record(2.0, 0, 1, 1, STATUS_OK)).unwrap();
    assert_eq!(f64::from_bits(a.grpsize_base_bits), 2.0);
    assert_eq!(a.grpsize_exp, 0);
    assert_eq!(a.num_orbits, 1);
}

#[test]
fn triangle_record_has_order_six() {
    let a = dense_outcome(record(6.0, 0, 1, 2, STATUS_OK)).unwrap();
    assert_eq!(f64::from_bits(a.grpsize_base_bits), 6.0);
    assert_eq!(a.grpsize_exp, 0);
}

#[test]
fn weighted_triangle_record_has_order_two() {
    let a = dense_outcome(record(2.0, 0, 2, 1, STATUS_OK)).unwrap();
    assert_eq!(f64::from_bits(a.grpsize_base_bits), 2.0);
    assert_eq!(a.grpsize_exp, 0);
    assert_eq!(a.num_orbits, 2);
}

#[test]
fn dense_too_many_vertices() {
    let s = record(0.0, 0, 0, 0, NTOOBIG);
    assert_eq!(dense_outcome(s), Err(NautyError::NTooBig));
    let sparse = Autom::from_stats(record(1.0, 0, 70000, 0, STATUS_OK));
    assert_eq!(sparse.num_orbits, 70000);
}

#[test]
fn dense_too_many_words_per_row() {
    let s = record(0.0, 0, 0, 0, MTOOBIG);
    assert_eq!(dense_outcome(s), Err(NautyError::MTooBig));
}

#[test]
fn status_codes_match_nauty() {
    assert_eq!(STATUS_OK, 0);
    assert_eq!(NTOOBIG, 1);
    assert_eq!(MTOOBIG, 2);
}

#[test]
fn error_messages() {
    assert_eq!(NautyError::MTooBig.message(), "m too big");
    assert_eq!(NautyError::NTooBig.message(), "n too big");
}

#[test]
fn dense_and_sparse_agree_on_same_record() {
    let dense = dense_outcome(record(24.0, 3, 5, 4, STATUS_OK)).unwrap();
    let sparse = Autom::from_stats(record(24.0, 3, 5, 2, STATUS_OK));
    assert_eq!(dense.grpsize_base_bits, sparse.grpsize_base_bits);
    assert_eq!(dense.grpsize_exp, sparse.grpsize_exp);
    assert_eq!(dense.num_orbits, sparse.num_orbits);
    assert_ne!(dense.num_generators, sparse.num_generators);
    assert_eq!(options_for(Backend::NautyDense, true), options_for(Backend::NautySparse, true));
    assert_eq!(options_for(Backend::NautyDense, false), options_for(Backend::NautySparse, false));
}

#[test]
fn repeated_runs_give_equal_results() {
    let s = record(120.0, 0, 1, 2, STATUS_OK);
    assert_eq!(dense_outcome(s), dense_outcome(s));
    assert_eq!(Autom::from_stats(s), Autom::from_stats(s));
    assert_eq!(options_for(Backend::Traces, false), options_for(Backend::Traces, false));
}

#[test]
fn nauty_follows_directedness() {
    for b in [Backend::NautyDense, Backend::NautySparse] {
        for d in [false, true] {
            assert_eq!(
                options_for(b, d),
                SearchOptions { getcanon: false, defaultptn: false, digraph: d }
            );
        }
    }
}

#[test]
fn traces_is_always_directed() {
    for d in [false, true] {
        assert_eq!(
            options_for(Backend::Traces, d),
            SearchOptions { getcanon: false, defaultptn: false, digraph: true }
        );
    }
}

#[test]
fn default_backend_is_dense() {
    assert_eq!(default_backend(), Backend::NautyDense);
}

#[test]
fn autom_order_follows_group_size() {
    let small = Autom::from_stats(record(2.0, 0, 1, 1, STATUS_OK));
    let large = Autom::from_stats(record(6.0, 0, 1, 2, STATUS_OK));
    assert!(small < large);
}
