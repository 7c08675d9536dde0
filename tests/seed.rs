use noise_ffi::{heap_mut_ptr, noise_seed_delete, noise_seed_new, NoiseSeed};

#[test]
fn heap_mut_ptr_keeps_value() {
    let b = heap_mut_ptr(17u64);
    assert_eq!(*b, 17);
}

#[test]
fn seed_new_keeps_value() {
    let seed = noise_seed_new(42);
    assert_eq!(seed.value(), 42);
    noise_seed_delete(seed);
    let s = NoiseSeed::new(u32::MAX);
    assert_eq!(s.value(), u32::MAX);
}

#[test]
fn create_then_destroy() {
    for v in 0..64u32 {
        let seed = noise_seed_new(v);
        noise_seed_delete(seed);
    }
}

#[test]
fn perlin3_scenario() {
    let seed = noise_seed_new(42);
    let v = noise::perlin3(seed.table(), &[0.2f64, 0.3, 1.5]);
    let w = noise::perlin3(seed.table(), &[0.2f64, 0.3, 1.5]);
    assert!(v.is_finite());
    assert_eq!(v.to_bits(), w.to_bits());
    noise_seed_delete(seed);
}

#[test]
fn table_is_the_noise_crates_table() {
    let seed = noise_seed_new(42);
    let direct = noise::Seed::new(42);
    let p = [0.2f64, 0.3, 1.5];
    assert_eq!(
        noise::perlin3(seed.table(), &p).to_bits(),
        noise::perlin3(&direct, &p).to_bits()
    );
    let other = noise::Seed::new(7);
    let differs = (0..16).any(|i| {
        let q = [0.37 * i as f64, 1.13 + 0.5 * i as f64];
        noise::perlin2(seed.table(), &q).to_bits() != noise::perlin2(&other, &q).to_bits()
    });
    assert!(differs);
}

#[test]
fn same_value_gives_identical_samples() {
    let a = noise_seed_new(1234);
    let b = noise_seed_new(1234);
    for i in 0..32 {
        let t = i as f64 * 0.731 - 5.0;
        let p2 = [t, 0.5 - t];
        let p3 = [t, 0.25 * t, 1.5];
        let p4 = [t, -t, 0.3, 2.0 * t];
        assert_eq!(
            noise::perlin2(a.table(), &p2).to_bits(),
            noise::perlin2(b.table(), &p2).to_bits()
        );
        assert_eq!(
            noise::open_simplex3(a.table(), &p3).to_bits(),
            noise::open_simplex3(b.table(), &p3).to_bits()
        );
        assert_eq!(
            noise::cell4_manhattan_inv(a.table(), &p4).to_bits(),
            noise::cell4_manhattan_inv(b.table(), &p4).to_bits()
        );
    }
    noise_seed_delete(a);
    noise_seed_delete(b);
}

#[test]
fn distinct_values_give_distinct_samples() {
    let a = noise_seed_new(1);
    let b = noise_seed_new(2);
    let differs = (0..32).any(|i| {
        let p = [0.37 * i as f64 + 0.11, 0.71 * i as f64 + 0.23, 0.5];
        noise::perlin3(a.table(), &p).to_bits() != noise::perlin3(b.table(), &p).to_bits()
    });
    assert!(differs);
    noise_seed_delete(a);
    noise_seed_delete(b);
}

fn shareable<T: Sync + Send>(_: &T) {}

#[test]
fn seed_can_be_shared_between_readers() {
    let seed = noise_seed_new(9);
    shareable(&*seed);
    let p = [0.4f64, 0.9];
    let first = noise::open_simplex2(seed.table(), &p);
    let refs: Vec<&NoiseSeed> = (0..4).map(|_| &*seed).collect();
    for r in refs {
        assert_eq!(noise::open_simplex2(r.table(), &p).to_bits(), first.to_bits());
    }
    noise_seed_delete(seed);
}
