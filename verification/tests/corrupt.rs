use touchhle::corrupt::{Corruptor, INITIAL_STATE};

fn corruptor_at_first_pass() -> Corruptor {
    let mut c = Corruptor::new(true);
    for _ in 0..239 {
        assert!(!c.tick());
    }
    assert!(c.tick());
    assert_eq!(c.frames(), 240);
    c
}

#[test]
fn new_corruptor_starts_clean() {
    let c = Corruptor::new(true);
    assert!(c.is_enabled());
    assert_eq!(c.frames(), 0);
    assert_eq!(c.total(), 0);
    assert_eq!(INITIAL_STATE, 0x6a09e667f3bcc909);
}

#[test]
fn next_follows_splitmix64() {
    let mut c = Corruptor::new(false);
    assert_eq!(c.next(), 0x63cfc62a2b097592);
    assert_eq!(c.next(), 0xdc0746b419466aec);
    assert_eq!(c.next(), 0x08264674f98aa19e);
    assert_eq!(c.next(), 0x3ca4eb47b26de7ac);
}

#[test]
fn same_seed_gives_same_sequence() {
    let mut a = Corruptor::new(true);
    let mut b = Corruptor::new(false);
    for _ in 0..100 {
        assert_eq!(a.next(), b.next());
    }
}

#[test]
fn disabled_tick_does_nothing() {
    let mut c = Corruptor::new(false);
    for _ in 0..1000 {
        assert!(!c.tick());
    }
    assert_eq!(c.frames(), 0);
    assert_eq!(c.total(), 0);
}

#[test]
fn first_pass_on_frame_240_then_every_240() {
    let mut c = corruptor_at_first_pass();
    for _ in 0..239 {
        assert!(!c.tick());
    }
    assert!(c.tick());
    assert_eq!(c.frames(), 480);
}

#[test]
fn passes_speed_up_as_frames_go_by() {
    let mut c = Corruptor::new(true);
    let mut last_pass = 0u64;
    let mut gap_at_end = 0u64;
    for _ in 0..400_000u32 {
        if c.tick() {
            gap_at_end = c.frames() - last_pass;
            last_pass = c.frames();
        }
    }
    assert_eq!(gap_at_end, 60);
}

#[test]
fn no_pass_without_allocations() {
    let c = corruptor_at_first_pass();
    assert!(c.begin_pass(&Vec::new()).is_none());
}

#[test]
fn first_pass_has_budget_one() {
    let c = corruptor_at_first_pass();
    let pass = c.begin_pass(&vec![(0x1000, 64)]).unwrap();
    assert_eq!(pass.budget(), 1);
    assert_eq!(pass.written(), 0);
    assert_eq!(pass.next_index(), 0);
    assert!(!pass.is_pending());
}

#[test]
fn target_skips_small_allocations_and_avoids_header() {
    let mut c = corruptor_at_first_pass();
    let allocations = vec![(0x1000u32, 8u32), (0x2000, 32), (0x3000, 100)];
    let mut pass = c.begin_pass(&allocations).unwrap();
    let target = c.next_target(&mut pass, &allocations);
    assert_eq!(target, Some((0x2000 + 18, 236)));
    assert!(pass.is_pending());
    assert_eq!(pass.next_index(), 2);
    c.record_write(&mut pass, true);
    assert_eq!(c.total(), 1);
    assert_eq!(pass.budget(), 0);
    assert_eq!(pass.written(), 1);
    assert!(!pass.is_pending());
    assert_eq!(c.next_target(&mut pass, &allocations), None);
    assert_eq!(c.total(), 1);
}

#[test]
fn refused_write_keeps_budget_for_next_allocation() {
    let mut c = corruptor_at_first_pass();
    let allocations = vec![(0x1000u32, 8u32), (0x2000, 32), (0x3000, 100)];
    let mut pass = c.begin_pass(&allocations).unwrap();
    assert_eq!(c.next_target(&mut pass, &allocations), Some((0x2012, 236)));
    c.record_write(&mut pass, false);
    assert_eq!(pass.budget(), 1);
    assert_eq!(c.total(), 0);
    assert_eq!(c.next_target(&mut pass, &allocations), Some((0x304e, 172)));
    c.record_write(&mut pass, false);
    assert_eq!(c.next_target(&mut pass, &allocations), None);
    assert_eq!(pass.next_index(), 3);
}

#[test]
fn only_small_allocations_give_no_target() {
    let mut c = corruptor_at_first_pass();
    let allocations = vec![(0x1000u32, 31u32), (0x2000, 16), (0x3000, 0)];
    let mut pass = c.begin_pass(&allocations).unwrap();
    assert_eq!(c.next_target(&mut pass, &allocations), None);
    assert_eq!(pass.next_index(), 3);
}

#[test]
fn targets_stay_inside_allocations() {
    let mut c = corruptor_at_first_pass();
    let allocations: Vec<(u32, u32)> = (0..200u32).map(|i| (0x10_0000 + i * 0x1000, 32 + i * 7)).collect();
    for _ in 0..50 {
        let mut pass = c.begin_pass(&allocations).unwrap();
        loop {
            let before = pass.next_index();
            match c.next_target(&mut pass, &allocations) {
                Some((addr, _)) => {
                    let (base, size) = allocations[pass.next_index() - 1];
                    assert!(pass.next_index() > before);
                    assert!(addr >= base + 16 && addr < base + size);
                    c.record_write(&mut pass, false);
                }
                None => break,
            }
        }
    }
}

#[test]
fn address_saturates_at_top_of_address_space() {
    let mut c = corruptor_at_first_pass();
    let allocations = vec![(0xFFFF_FFF0u32, 32u32)];
    let mut pass = c.begin_pass(&allocations).unwrap();
    assert_eq!(c.next_target(&mut pass, &allocations), Some((u32::MAX, 236)));
}

#[test]
fn budget_is_two_after_an_hour_of_frames() {
    let mut c = Corruptor::new(true);
    let mut budget_at_pass = Vec::new();
    for _ in 0..7_300u32 {
        if c.tick() {
            budget_at_pass.push((c.frames(), c.begin_pass(&vec![(0, 64)]).unwrap().budget()));
        }
    }
    for (frames, budget) in budget_at_pass {
        assert_eq!(budget, 1 + (frames / 3600) as u32);
    }
}

#[test]
fn budget_grows_with_frames() {
    let mut c = Corruptor::new(true);
    let mut seen_budget = 0u32;
    for _ in 0..30_000u32 {
        if c.tick() {
            seen_budget = c.begin_pass(&vec![(0, 64)]).unwrap().budget();
        }
    }
    assert_eq!(seen_budget, 8);
}

#[test]
fn pass_never_writes_more_than_its_budget() {
    let mut c = Corruptor::new(true);
    for _ in 0..40_000u32 {
        c.tick();
    }
    while !c.tick() {}
    let allocations: Vec<(u32, u32)> = (0..50u32).map(|i| (0x20_0000 + i * 0x100, 64)).collect();
    let mut pass = c.begin_pass(&allocations).unwrap();
    assert_eq!(pass.budget(), 8);
    let mut targets = 0;
    while let Some(_) = c.next_target(&mut pass, &allocations) {
        targets += 1;
        c.record_write(&mut pass, true);
    }
    assert_eq!(targets, 8);
    assert_eq!(pass.written(), 8);
    assert_eq!(pass.budget(), 0);
    assert_eq!(pass.next_index(), 8);
    assert_eq!(c.total(), 8);
}
