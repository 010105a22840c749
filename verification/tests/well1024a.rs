use prng_well1024a::InvalidStateLength;
use prng_well1024a::Well1024aRng;

#[test]
fn lib_it_works() {
    let mut x = Well1024aRng::from_entropy();
    let a = x.next_u32();
    let b = x.next_u32();
    assert!(a != b);
}

#[test]
fn well1024a_it_works() {
    let mut x = Well1024aRng::new();
    let a = x.next_u32();
    let b = x.next_u32();
    assert!(a != b);
}

#[test]
fn snapshot_always_32_words() {
    assert_eq!(Well1024aRng::new().state().len(), 32);
    assert_eq!(Well1024aRng::seed(49152).state().len(), 32);
    assert_eq!(Well1024aRng::from_entropy().state().len(), 32);
    let mut g = Well1024aRng::load((0..32).collect()).unwrap();
    assert_eq!(g.state().len(), 32);
    for _ in 0..77 {
        g.next_u32();
        assert_eq!(g.state().len(), 32);
    }
}

#[test]
fn load_rejects_wrong_lengths() {
    for n in [0usize, 10, 31, 33] {
        let v: Vec<u32> = vec![7; n];
        match Well1024aRng::load(v) {
            Ok(_) => panic!("load accepted a state of length {}", n),
            Err(InvalidStateLength { expected, actual }) => {
                assert_eq!(expected, 32);
                assert_eq!(actual, n);
            }
        }
    }
    assert!(Well1024aRng::load(vec![7; 32]).is_ok());
}

#[test]
fn immediate_round_trip() {
    let ascending: Vec<u32> = (0..32).collect();
    let g = Well1024aRng::load(ascending.clone()).unwrap();
    assert_eq!(g.state(), ascending);
}

#[test]
fn replay_from_equal_snapshots() {
    let s: Vec<u32> = (100..132).collect();
    let mut g1 = Well1024aRng::load(s.clone()).unwrap();
    let mut g2 = Well1024aRng::load(s).unwrap();
    for _ in 0..100 {
        assert_eq!(g1.next_u32(), g2.next_u32());
    }
}

#[test]
fn replay_from_mid_stream_snapshot() {
    let mut g1 = Well1024aRng::seed(0xdead_beef);
    for _ in 0..10 {
        g1.next_u32();
    }
    let mut g2 = Well1024aRng::load(g1.state()).unwrap();
    for _ in 0..50 {
        assert_eq!(g1.next_u32(), g2.next_u32());
    }
}

#[test]
fn index_after_one_draw() {
    let mut g = Well1024aRng::load(vec![1; 32]).unwrap();
    assert_eq!(g.state.i, 0);
    g.next_u32();
    assert_eq!(g.state.i, 31);
}

#[test]
fn first_draw_from_all_ones() {
    let mut g = Well1024aRng::new();
    assert_eq!(g.next_u32(), 0x0808_4801);
}

#[test]
fn zero_state_is_a_fixed_point() {
    let mut g = Well1024aRng::load(vec![0; 32]).unwrap();
    for _ in 0..100 {
        assert_eq!(g.next_u32(), 0);
    }
    assert_eq!(g.state(), vec![0; 32]);
}

#[test]
fn seed_expands_to_ascending_words() {
    let expected: Vec<u32> = (49152..49184).collect();
    assert_eq!(Well1024aRng::seed(49152).state(), expected);
}

#[test]
fn seed_expansion_wraps_around() {
    let mut expected: Vec<u32> = vec![4294967295];
    expected.extend(0..31);
    assert_eq!(Well1024aRng::seed(4294967295).state(), expected);
}

#[test]
fn next_u64_packs_two_draws() {
    let s: Vec<u32> = (500..532).collect();
    let mut by_words = Well1024aRng::load(s.clone()).unwrap();
    let hi = by_words.next_u32();
    let lo = by_words.next_u32();
    let mut packed = Well1024aRng::load(s).unwrap();
    assert_eq!(packed.next_u64(), ((hi as u64) << 32) + lo as u64);
    assert_eq!(packed.state(), by_words.state());
}
