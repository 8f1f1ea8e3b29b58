use btop_beautifier::cli::{
    has_few_digits, parse_bytesize, parse_duration, total_nanos_of, whole_secs,
};
use btop_beautifier::control::{control_step, join_action, next_reroll_in, ControlAction, JoinAction};
use btop_beautifier::cpu::{busy_spin, lcg_step, phase_core_count, spin_round, tick_rest};
use btop_beautifier::memory::{first_touch_offset, touch_pages, RssShaper, RssStep, PAGE_STEP};
use btop_beautifier::net::{
    accept_action, keep_reading, send_step, AcceptAction, AcceptOutcome, ReadOutcome, SendStep,
    TickBudget, CHUNK_SIZE,
};
use btop_beautifier::pattern::{roll_memory_sine_count, MEMORY_SINES_MAX, MEMORY_SINES_MIN};
use btop_beautifier::TICK_MS;
use rand::SeedableRng;
use std::time::{Duration, Instant};

#[test]
fn lcg_step_matches_wrapping_formula() {
    assert_eq!(lcg_step(0), 1442695040888963407);
    assert_eq!(lcg_step(1), 6364136223846793005u64.wrapping_add(1442695040888963407));
    let x: u64 = 0xDEAD_BEEF;
    assert_eq!(
        lcg_step(x),
        x.wrapping_mul(6364136223846793005).wrapping_add(1442695040888963407)
    );
}

#[test]
fn spin_round_is_a_thousand_steps() {
    let mut x: u64 = 0xDEAD_BEEF;
    for _ in 0..1000 {
        x = x.wrapping_mul(6364136223846793005).wrapping_add(1442695040888963407);
    }
    assert_eq!(spin_round(0xDEAD_BEEF), x);
}

#[test]
fn busy_spin_waits_at_least_the_duration() {
    let start = Instant::now();
    let (rounds, last, _) = busy_spin(Duration::from_millis(20));
    assert!(start.elapsed() >= Duration::from_millis(20));
    assert!(last >= 20_000_000);
    assert!(rounds > 0);
}

#[test]
fn busy_spin_zero_returns_at_once() {
    let start = Instant::now();
    let (rounds, _, _) = busy_spin(Duration::from_millis(0));
    assert_eq!(rounds, 0);
    assert!(start.elapsed() < Duration::from_secs(1));
}

#[test]
fn tick_rest_fills_the_tick() {
    assert_eq!(TICK_MS, 100);
    assert_eq!(tick_rest(0), Some(100_000_000));
    assert_eq!(tick_rest(30_000_000), Some(70_000_000));
    assert_eq!(tick_rest(99_999_999), Some(1));
    assert_eq!(tick_rest(100_000_000), None);
    assert_eq!(tick_rest(250_000_000), None);
}

#[test]
fn phase_core_count_is_at_least_one() {
    assert_eq!(phase_core_count(0), 1);
    assert_eq!(phase_core_count(1), 1);
    assert_eq!(phase_core_count(8), 8);
}

#[test]
fn first_touch_rounds_up_to_a_page() {
    assert_eq!(PAGE_STEP, 4096);
    assert_eq!(first_touch_offset(0, 10_000), 0);
    assert_eq!(first_touch_offset(1, 10_000), 4096);
    assert_eq!(first_touch_offset(4096, 10_000), 4096);
    assert_eq!(first_touch_offset(5000, 10_000), 8192);
    // No page boundary below the target: the first grown byte itself.
    assert_eq!(first_touch_offset(5000, 6000), 5000);
    assert_eq!(first_touch_offset(5000, 8192), 5000);
}

#[test]
fn touch_pages_writes_one_byte_per_page() {
    let mut buf = vec![0u8; 20_000];
    touch_pages(&mut buf, 100, 13_000, 7);
    let written: Vec<usize> = (0..buf.len()).filter(|&i| buf[i] != 0).collect();
    assert_eq!(written, vec![4096, 8192, 12288]);
    assert!(written.iter().all(|&i| buf[i] == 7));
}

#[test]
fn touch_pages_within_one_page_writes_the_first_byte() {
    let mut buf = vec![0u8; 4096];
    touch_pages(&mut buf, 10, 20, 3);
    let written: Vec<usize> = (0..buf.len()).filter(|&i| buf[i] != 0).collect();
    assert_eq!(written, vec![10]);
}

#[test]
fn shaper_zero_capacity_does_nothing() {
    assert!(RssShaper::new(0).is_none());
}

#[test]
fn shaper_grows_shrinks_and_holds() {
    let cap = 3 * 4096;
    let mut buf = vec![0u8; cap];
    let mut s = RssShaper::new(cap).unwrap();
    assert_eq!(s.capacity_bytes(), cap);
    assert_eq!(s.filled_len(), 0);

    assert_eq!(s.step(5000, &mut buf), RssStep::Grew);
    assert_eq!(s.filled_len(), 5000);
    assert_eq!(buf[0], 1);
    assert_eq!(buf[4096], 1);
    assert_eq!(buf.iter().filter(|&&b| b != 0).count(), 2);

    assert_eq!(s.step(cap, &mut buf), RssStep::Grew);
    assert_eq!(buf[8192], 2);
    assert_eq!(buf[4096], 1);

    assert_eq!(s.step(1000, &mut buf), RssStep::Release { start: 1000, end: cap });
    assert_eq!(s.filled_len(), 1000);

    assert_eq!(s.step(1000, &mut buf), RssStep::Unchanged);
    assert_eq!(s.filled_len(), 1000);

    assert_eq!(s.step(cap, &mut buf), RssStep::Grew);
    assert_eq!(buf[4096], 3);
    assert_eq!(buf[8192], 3);
}

#[test]
fn shaper_stamp_wraps_around() {
    let cap = 300;
    let mut buf = vec![0u8; cap];
    let mut s = RssShaper::new(cap).unwrap();
    for round in 0..256usize {
        assert_eq!(s.step(round + 1, &mut buf), RssStep::Grew);
        assert_eq!(buf[round], ((round + 1) % 256) as u8);
    }
}

#[test]
fn budget_splits_into_chunks() {
    assert_eq!(CHUNK_SIZE, 65536);
    let mut b = TickBudget::new(150_000);
    assert!(b.has_remaining());
    assert_eq!(b.next_chunk(), 65536);
    b.record(65536);
    assert_eq!(b.next_chunk(), 65536);
    b.record(65536);
    assert_eq!(b.next_chunk(), 150_000 - 131_072);
    b.record(10);
    assert_eq!(b.sent_bytes(), 131_082);
    assert_eq!(b.next_chunk(), 150_000 - 131_082);
    b.record(150_000 - 131_082);
    assert!(!b.has_remaining());
    assert_eq!(b.sent_bytes(), 150_000);
}

#[test]
fn empty_budget_has_nothing_to_send() {
    let b = TickBudget::new(0);
    assert!(!b.has_remaining());
    assert_eq!(b.next_chunk(), 0);
}

#[test]
fn receiver_waits_then_serves() {
    assert_eq!(accept_action(AcceptOutcome::Connected, false), AcceptAction::Serve);
    assert_eq!(accept_action(AcceptOutcome::Connected, true), AcceptAction::Serve);
    assert_eq!(accept_action(AcceptOutcome::WouldBlock, false), AcceptAction::Retry);
    assert_eq!(accept_action(AcceptOutcome::WouldBlock, true), AcceptAction::Quit);
    assert_eq!(accept_action(AcceptOutcome::Failed, false), AcceptAction::Quit);
}

#[test]
fn receiver_stops_at_end_of_stream() {
    assert!(!keep_reading(ReadOutcome::Received(0)));
    assert!(keep_reading(ReadOutcome::Received(65536)));
    assert!(keep_reading(ReadOutcome::WouldBlock));
    assert!(keep_reading(ReadOutcome::TimedOut));
    assert!(!keep_reading(ReadOutcome::Failed));
}

#[test]
fn control_stops_on_interrupt_or_deadline() {
    let s = 1_000_000_000u128;
    assert_eq!(control_step(true, None, 15 * s, 0, 0, 0), ControlAction::Stop);
    assert_eq!(control_step(false, Some(60 * s), 15 * s, 60 * s, 0, 0), ControlAction::Stop);
    assert_eq!(
        control_step(false, Some(60 * s), 15 * s, 59 * s, 0, 0),
        ControlAction::Run { reroll: false, report: false }
    );
    assert_eq!(
        control_step(false, None, 15 * s, 1000 * s, 0, 0),
        ControlAction::Run { reroll: false, report: false }
    );
}

#[test]
fn control_rerolls_and_reports_when_due() {
    let s = 1_000_000_000u128;
    assert_eq!(
        control_step(false, None, 15 * s, 20 * s, 15 * s, s),
        ControlAction::Run { reroll: true, report: true }
    );
    assert_eq!(
        control_step(false, None, 15 * s, 20 * s, 15 * s - 1, s - 1),
        ControlAction::Run { reroll: false, report: false }
    );
}

#[test]
fn next_reroll_countdown() {
    assert_eq!(next_reroll_in(15, 8), 7);
    assert_eq!(next_reroll_in(15, 15), 0);
    assert_eq!(next_reroll_in(15, 20), 0);
}

#[test]
fn parse_duration_accepts_human_durations() {
    assert_eq!(parse_duration("30s"), Ok(30_000_000_000));
    assert_eq!(parse_duration("2m"), Ok(120_000_000_000));
    assert_eq!(parse_duration("15s"), Ok(15_000_000_000));
    assert_eq!(parse_duration("2h 37min"), Ok(9420_000_000_000));
    assert_eq!(parse_duration("4.2s"), Ok(4_200_000_000));
    assert_eq!(parse_duration("32ms"), Ok(32_000_000));
}

#[test]
fn parse_duration_rejects_garbage() {
    assert!(parse_duration("").is_err());
    assert!(parse_duration("abc").is_err());
    assert!(parse_duration("10 parsecs").is_err());
}

#[test]
fn parse_bytesize_accepts_suffixes() {
    assert_eq!(parse_bytesize("4G"), Ok(4_000_000_000));
    assert_eq!(parse_bytesize("50M"), Ok(50_000_000));
    assert_eq!(parse_bytesize("512M"), Ok(512_000_000));
    assert_eq!(parse_bytesize("8G"), Ok(8_000_000_000));
    assert_eq!(parse_bytesize("1048576"), Ok(1_048_576));
    assert_eq!(parse_bytesize("1 KiB"), Ok(1024));
}

#[test]
fn parse_bytesize_rejects_garbage() {
    assert!(parse_bytesize("lots").is_err());
    assert!(parse_bytesize("12 parsecs").is_err());
}

#[test]
fn whole_secs_truncates() {
    assert_eq!(whole_secs(0), 0);
    assert_eq!(whole_secs(1_999_999_999), 1);
    assert_eq!(whole_secs(15_000_000_000), 15);
    assert_eq!(whole_secs(u128::MAX), u64::MAX);
}

#[test]
fn total_nanos_of_joins_seconds_and_nanos() {
    assert_eq!(total_nanos_of(0, 0), 0);
    assert_eq!(total_nanos_of(4, 200_000_000), 4_200_000_000);
    assert_eq!(total_nanos_of(u64::MAX, 999_999_999), u64::MAX as u128 * 1_000_000_000 + 999_999_999);
}

#[test]
fn duration_digit_limit() {
    assert!(has_few_digits("15s"));
    assert!(has_few_digits("99999999999y"));
    assert!(!has_few_digits("100000000000ns"));
    assert!(!has_few_digits("18446744073709551615s 1000000000ns"));
    assert_eq!(
        parse_duration("18446744073709551615s 1000000000ns"),
        Err("duration has too many digits (at most 11 are accepted)".to_string())
    );
    assert_eq!(parse_duration("99999999999s"), Ok(99_999_999_999_000_000_000));
}

#[test]
fn join_waits_then_joins_or_exits() {
    assert_eq!(join_action(true, false), JoinAction::Join);
    assert_eq!(join_action(true, true), JoinAction::Join);
    assert_eq!(join_action(false, true), JoinAction::Exit);
    assert_eq!(join_action(false, false), JoinAction::Wait);
}

#[test]
fn sender_writes_what_is_granted() {
    assert_eq!(send_step(65536, 0), SendStep::Wait);
    assert_eq!(send_step(65536, 1000), SendStep::Write(1000));
    assert_eq!(send_step(65536, 70000), SendStep::Write(65536));
    assert_eq!(send_step(0, 10), SendStep::Wait);
}

#[test]
fn memory_sine_count_is_one_or_two() {
    for seed in 0u64..200 {
        let mut rng = rand_pcg::Pcg64::seed_from_u64(seed);
        let k = roll_memory_sine_count(&mut rng);
        assert!((MEMORY_SINES_MIN..=MEMORY_SINES_MAX).contains(&k));
    }
}

#[test]
fn memory_sine_count_is_reproducible_per_seed() {
    let mut a = rand_pcg::Pcg64::seed_from_u64(999);
    let mut b = rand_pcg::Pcg64::seed_from_u64(999);
    for _ in 0..20 {
        assert_eq!(roll_memory_sine_count(&mut a), roll_memory_sine_count(&mut b));
    }
}
