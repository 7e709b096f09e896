use async_listen::counter::{has_room, limit_wakes, release_wakes, Counter};

// one poll of a stream adapter whose source yields an item whenever it is
// pulled
fn enter(g: &mut Counter) -> bool {
    if g.has_capacity() {
        g.pass_item(Some(())).is_some()
    } else {
        false
    }
}

#[test]
fn new_counter_has_no_tokens() {
    let g = Counter::new(10);
    assert_eq!(g.get_active_tokens(), 0);
    assert_eq!(g.limit(), 10);
    assert!(!g.is_parked());
}

#[test]
fn token_creation_ignores_the_limit() {
    let mut g = Counter::new(1);
    g.token();
    g.token();
    g.token();
    assert_eq!(g.get_active_tokens(), 3);
    assert!(!g.has_capacity());
    assert!(g.is_parked());
}

#[test]
fn decisions_on_plain_values() {
    assert!(has_room(9, 10));
    assert!(!has_room(10, 10));
    assert!(!has_room(11, 10));
    assert!(release_wakes(10, 10));
    assert!(!release_wakes(11, 10));
    assert!(!release_wakes(9, 10));
    assert!(limit_wakes(10, 20));
    assert!(!limit_wakes(10, 10));
    assert!(!limit_wakes(20, 5));
}

#[test]
fn release_at_the_limit_wakes_the_parked_consumer() {
    let mut g = Counter::new(2);
    assert!(enter(&mut g));
    assert!(enter(&mut g));
    assert!(!enter(&mut g));
    assert!(g.is_parked());
    assert_eq!(g.get_active_tokens(), 2);
    assert!(g.release());
    assert!(!g.is_parked());
    assert_eq!(g.get_active_tokens(), 1);
    assert!(enter(&mut g));
}

#[test]
fn release_above_the_limit_keeps_the_consumer_parked() {
    let mut g = Counter::new(1);
    g.token();
    g.token();
    assert!(!g.has_capacity());
    assert!(!g.release());
    assert!(g.is_parked());
    assert!(g.release());
    assert!(!g.is_parked());
    assert!(g.has_capacity());
}

// limit 10, 100 requests in a row, each held for a pseudo-random number of
// later requests; the high-water mark of live tokens stays within the limit
// and reaches more than half of it
#[test]
fn hundred_requests_through_a_limit_of_ten() {
    let mut g = Counter::new(10);
    let mut held: Vec<u32> = Vec::new();
    let mut seed: u32 = 12345;
    let mut top: usize = 0;
    let mut served = 0;
    while served < 100 {
        if enter(&mut g) {
            seed = seed.wrapping_mul(1103515245).wrapping_add(12345);
            held.push(1 + (seed >> 16) % 20);
            served += 1;
            top = top.max(g.get_active_tokens());
            assert!(g.get_active_tokens() <= 10);
        }
        let mut i = 0;
        while i < held.len() {
            held[i] -= 1;
            if held[i] == 0 {
                held.swap_remove(i);
                g.release();
            } else {
                i += 1;
            }
        }
    }
    assert!(5 < top && top <= 10);
}

#[test]
fn lowering_the_limit_revokes_nothing() {
    let mut g = Counter::new(10);
    for _ in 0..8 {
        assert!(enter(&mut g));
    }
    assert!(!g.set_limit(5));
    assert_eq!(g.get_active_tokens(), 8);
    assert!(!enter(&mut g));
    assert_eq!(g.get_active_tokens(), 8);
    g.release();
    g.release();
    g.release();
    assert_eq!(g.get_active_tokens(), 5);
    assert!(!g.has_capacity());
    assert!(g.release());
    assert!(g.has_capacity());
}

#[test]
fn raising_the_limit_wakes_the_parked_consumer() {
    let mut g = Counter::new(3);
    for _ in 0..3 {
        assert!(enter(&mut g));
    }
    assert!(!g.has_capacity());
    assert!(g.is_parked());
    assert!(g.set_limit(4));
    assert!(!g.is_parked());
    assert_eq!(g.get_active_tokens(), 3);
    assert!(enter(&mut g));
}

#[test]
fn token_round_trip_restores_the_count() {
    let mut g = Counter::new(2);
    g.token();
    let before = g.get_active_tokens();
    g.token();
    assert!(!g.has_capacity());
    assert!(g.release());
    assert_eq!(g.get_active_tokens(), before);
    assert!(!g.is_parked());
}

#[test]
fn a_token_is_minted_only_for_a_yielded_item() {
    let mut g = Counter::new(2);
    assert!(g.has_capacity());
    assert_eq!(g.pass_item(None::<u8>), None);
    assert_eq!(g.get_active_tokens(), 0);
    assert!(g.has_capacity());
    assert_eq!(g.pass_item(Some(7u8)), Some(7));
    assert_eq!(g.get_active_tokens(), 1);
    assert!(g.has_capacity());
    assert_eq!(g.pass_item(None::<u8>), None);
    assert_eq!(g.get_active_tokens(), 1);
}
