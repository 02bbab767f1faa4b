use ptcg_core::rng::GameRng;

#[test]
fn test_deterministic() {
    let mut rng1 = GameRng::new(42);
    let mut rng2 = GameRng::new(42);
    assert_eq!(rng1.next_u64(), rng2.next_u64());
}

#[test]
fn test_shuffle() {
    let mut rng = GameRng::new(42);
    let mut vec = vec![1, 2, 3, 4, 5];
    rng.shuffle(&mut vec);
    let mut rng2 = GameRng::new(42);
    let mut vec2 = vec![1, 2, 3, 4, 5];
    rng2.shuffle(&mut vec2);
    assert_eq!(vec, vec2);
}

#[test]
fn test_pick() {
    let mut rng = GameRng::new(42);
    let slice = vec![1, 2, 3, 4, 5];
    let picked = rng.pick(&slice);
    assert!(picked.is_some());
    assert!(slice.contains(&picked.unwrap()));
}

#[test]
fn test_pick_n() {
    let mut rng = GameRng::new(42);
    let slice = vec![1, 2, 3, 4, 5];
    let picked = rng.pick_n(&slice, 3);
    assert_eq!(picked.len(), 3);
    let mut unique = picked.clone();
    unique.sort();
    unique.dedup();
    assert_eq!(unique.len(), picked.len());
}

#[test]
fn next_usize_stays_in_range() {
    let mut rng = GameRng::new(1);
    assert_eq!(rng.next_usize(0), 0);
    for _ in 0..100 {
        assert!(rng.next_usize(7) < 7);
    }
    let mut sorted = vec![3, 1, 2];
    rng.shuffle_vec(&mut sorted);
    sorted.sort();
    assert_eq!(sorted, vec![1, 2, 3]);
    assert!(rng.pick::<u8>(&[]).is_none());
    assert_eq!(rng.pick_n(&[1, 2], 5).len(), 2);
}
