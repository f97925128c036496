use boids::causes::{CauseState, CAUSE_COUNT, CAUSE_WINDOW_FRAMES};
use boids::cli::HeadlessFormat;
use boids::decimal::{parse_unsigned, push_decimal};
use boids::graph::{graph_readback_due, graph_step, GraphAction, GraphStep};
use boids::report::{population_record, population_total, prey_population};
use boids::schedule::{HeadlessSchedule, HeadlessStep};
use boids::sim::{
    boid_flags, counts_from_words, create_dead_free_list, dispatch_count, graph_heights,
    pulse_state, BOID_CAPACITY,
};
use boids::tally::EventTally;

#[test]
fn unsigned_parsing_follows_std() {
    for text in ["0", "7", "+7", "007", "4294967295", "4294967296", "", "+", "-1", "++1", " 1", "1a", "\u{663}"] {
        assert_eq!(parse_unsigned(text, u32::MAX as u64), text.parse::<u32>().ok().map(u64::from), "{text:?}");
    }
    for text in ["18446744073709551615", "18446744073709551616", "99999999999999999999", "+0"] {
        assert_eq!(parse_unsigned(text, u64::MAX), text.parse::<u64>().ok(), "{text:?}");
    }
}

#[test]
fn decimal_rendering() {
    for n in [0u64, 9, 10, 305, u64::MAX] {
        let mut s = String::from("x=");
        push_decimal(&mut s, n);
        assert_eq!(s, format!("x={n}"));
    }
}

#[test]
fn rendered_numbers_read_back() {
    for n in [0u64, 1, 42, 4_294_967_295, u64::MAX] {
        let mut s = String::new();
        push_decimal(&mut s, n);
        assert_eq!(parse_unsigned(&s, u64::MAX), Some(n));
    }
}

#[test]
fn dispatch_count_rounds_up() {
    assert_eq!(dispatch_count(75000, 256), 293);
    assert_eq!(dispatch_count(256, 256), 1);
    assert_eq!(dispatch_count(257, 256), 2);
    assert_eq!(dispatch_count(0, 256), 0);
    assert_eq!(dispatch_count(6400, 256), 25);
}

#[test]
fn graph_takes_at_most_its_height() {
    assert_eq!(graph_heights(2000), (200, 1800));
    assert_eq!(graph_heights(150), (149, 1));
    assert_eq!(graph_heights(1), (0, 1));
    assert_eq!(graph_heights(0), (0, 1));
}

#[test]
fn dead_free_list_lists_unused_slots() {
    let (list, count) = create_dead_free_list(74990);
    assert_eq!(count, 10);
    assert_eq!(list.len(), BOID_CAPACITY as usize);
    assert_eq!(&list[..10], &[74990, 74991, 74992, 74993, 74994, 74995, 74996, 74997, 74998, 74999]);
    assert!(list[10..].iter().all(|&x| x == 0));
    let (_, none) = create_dead_free_list(80000);
    assert_eq!(none, 0);
    let (all, n) = create_dead_free_list(0);
    assert_eq!(n, BOID_CAPACITY);
    assert_eq!(all[74999], 74999);
}

#[test]
fn counts_from_words_copies_or_zeroes() {
    let words = [1u32, 2, 3, 4, 5, 6, 7, 8, 9, 10];
    let c: [u32; 9] = counts_from_words(&words);
    assert_eq!(c, [1, 2, 3, 4, 5, 6, 7, 8, 9]);
    let short: [u32; 12] = counts_from_words(&words);
    assert_eq!(short, [0; 12]);
}

#[test]
fn pulse_state_and_flags() {
    assert_eq!(pulse_state(1, 0), 73 << 16);
    assert_eq!(pulse_state(5, 42), (((5u32 * 73) ^ 42) % 240) << 16);
    let i = 123_456u32;
    let seed = 0xdead_beef_1234_5678u64;
    assert_eq!(pulse_state(i, seed), ((i.wrapping_mul(73) ^ seed as u32) % 240) << 16);
    assert_eq!(boid_flags(true), 3);
    assert_eq!(boid_flags(false), 2);
}

#[test]
fn cause_window_keeps_last_sixty_frames() {
    let mut causes = CauseState::default();
    assert_eq!(causes.frame_count(), 0);
    assert_eq!(causes.all_time_max(), 1);
    for f in 0..CAUSE_WINDOW_FRAMES as u32 + 5 {
        let mut frame = [0u32; CAUSE_COUNT];
        frame[0] = f;
        frame[3] = 2;
        causes.push_frame(frame);
    }
    assert_eq!(causes.frame_count(), CAUSE_WINDOW_FRAMES);
    // frames 5..=64 remain
    assert_eq!(causes.window_sum(0), (5..65u64).sum::<u64>());
    assert_eq!(causes.window_sum(3), 120);
    assert_eq!(causes.window_sum(8), 0);
    assert_eq!(causes.all_time_max(), (5..65u64).sum::<u64>());
}

#[test]
fn cause_peak_never_falls() {
    let mut causes = CauseState::default();
    let mut frame = [0u32; CAUSE_COUNT];
    frame[7] = 1000;
    causes.push_frame(frame);
    assert_eq!(causes.all_time_max(), 1000);
    for _ in 0..CAUSE_WINDOW_FRAMES {
        causes.push_frame([0; CAUSE_COUNT]);
    }
    assert_eq!(causes.window_sum(7), 0);
    assert_eq!(causes.all_time_max(), 1000);
}

fn run_schedule(total: u64, every: u64) -> (Vec<u64>, Vec<u64>) {
    let mut s = HeadlessSchedule::new(total, every);
    let mut batches = Vec::new();
    let mut reports = vec![0];
    loop {
        assert!(s.can_advance());
        match s.next_step() {
            HeadlessStep::Simulate { frames, sample } => {
                batches.push(frames);
                if sample {
                    reports.push(s.frames_done());
                }
            }
            HeadlessStep::Finished => break,
            HeadlessStep::Stalled => panic!("a positive interval never stalls"),
        }
    }
    (batches, reports)
}

#[test]
fn headless_schedule_reports_every_interval_and_the_last_frame() {
    let (batches, reports) = run_schedule(130, 100);
    assert_eq!(batches, vec![64, 36, 30]);
    assert_eq!(reports, vec![0, 100, 130]);
    let (batches, reports) = run_schedule(250, 25);
    assert_eq!(batches, vec![25; 10]);
    assert_eq!(reports, (0..=10).map(|k| k * 25).collect::<Vec<u64>>());
    let (batches, reports) = run_schedule(0, 100);
    assert!(batches.is_empty());
    assert_eq!(reports, vec![0]);
    let (batches, _) = run_schedule(5000, 100);
    assert_eq!(batches.iter().sum::<u64>(), 5000);
    assert!(batches.iter().all(|&b| (1..=64).contains(&b)));
}

#[test]
fn schedule_refuses_to_overflow() {
    let mut s = HeadlessSchedule::new(u64::MAX, u64::MAX / 2 + 1);
    assert!(s.can_advance());
    assert!(matches!(s.next_step(), HeadlessStep::Simulate { frames: 64, sample: false }));
    assert!(s.can_advance());
}

const COUNTS: [u32; 12] = [10, 20, 30, 40, 50, 6, 100, 5, 2, 9, 3, 1];

#[test]
fn population_total_counts_prey_and_predators() {
    assert_eq!(population_total(&COUNTS), 156);
}

#[test]
fn csv_population_record() {
    assert_eq!(
        population_record(HeadlessFormat::Csv, 250, &COUNTS),
        "250,10,20,30,40,50,6,100,5,2,9,3,1,156"
    );
}

#[test]
fn jsonl_population_record() {
    assert_eq!(
        population_record(HeadlessFormat::Jsonl, 0, &COUNTS),
        "{\"frame\":0,\"populations\":{\"prey_0\":10,\"prey_1\":20,\"prey_2\":30,\"prey_3\":40,\"prey_4\":50,\"predators\":6,\"standard\":100,\"pulse\":5,\"courier\":2,\"warden\":9},\"activity\":{\"panicked\":3,\"charging_wardens\":1},\"total\":156}"
    );
}

#[test]
fn event_tally_counts_births_and_prey_eaten() {
    let mut tally = EventTally::new();
    let mut counts = [0u32; CAUSE_COUNT];
    counts[0] = 3;
    counts[1] = 1;
    counts[2] = 100;
    counts[3] = 4;
    counts[8] = 2;
    assert!(tally.can_record(&counts));
    assert_eq!(tally.record(&counts), 6);
    assert_eq!(tally.record(&counts), 6);
    assert_eq!(tally.take(), (12, 8));
    assert_eq!(tally.take(), (0, 0));
    let mut huge = [0u32; CAUSE_COUNT];
    huge[0] = u32::MAX;
    huge[1] = 1;
    assert!(!tally.can_record(&huge));
}

#[test]
fn zero_interval_stalls_instead_of_sampling() {
    let mut s = HeadlessSchedule::new(10, 0);
    assert_eq!(s.next_step(), HeadlessStep::Stalled);
    assert_eq!(s.frames_done(), 0);
    let mut empty = HeadlessSchedule::new(0, 0);
    assert_eq!(empty.next_step(), HeadlessStep::Finished);
}

#[test]
fn tally_ignores_dropped_births_and_other_deaths() {
    let mut a = EventTally::new();
    let mut b = EventTally::new();
    let mut x = [0u32; CAUSE_COUNT];
    x[0] = 5;
    x[3] = 2;
    x[2] = 40;
    x[6] = 7;
    let mut y = [0u32; CAUSE_COUNT];
    y[1] = 2;
    y[8] = 3;
    y[3] = 2;
    y[4] = 9;
    a.record(&x);
    b.record(&y);
    assert_eq!(a.take(), b.take());
}

#[test]
fn graph_series_bookkeeping() {
    // scale 1: every sample becomes a point
    assert_eq!(
        graph_step(3, 1, 0, 10),
        GraphStep { action: GraphAction::Append, len: 4, scale: 1, acc_count: 0 }
    );
    // below the scale the sample is only summed
    assert_eq!(
        graph_step(3, 4, 1, 10),
        GraphStep { action: GraphAction::Accumulate, len: 3, scale: 4, acc_count: 2 }
    );
    // over the width: halve and double the scale
    assert_eq!(
        graph_step(10, 4, 3, 10),
        GraphStep { action: GraphAction::AppendAndHalve, len: 5, scale: 8, acc_count: 0 }
    );
    // at the largest scale: drop the oldest points
    assert_eq!(
        graph_step(10, 512, 511, 10),
        GraphStep { action: GraphAction::AppendAndTrim { drop: 1 }, len: 10, scale: 512, acc_count: 0 }
    );
    // a long run never passes scale 512 and keeps the sum below the scale
    let (mut len, mut scale, mut acc) = (0usize, 1u32, 0u32);
    for _ in 0..200_000 {
        let step = graph_step(len, scale, acc, 100);
        len = step.len;
        scale = step.scale;
        acc = step.acc_count;
        assert!(scale.is_power_of_two() && scale <= 512 && acc < scale && len <= 100);
    }
    assert_eq!(scale, 512);
}

#[test]
fn prey_population_and_readback_cadence() {
    assert_eq!(prey_population(&COUNTS), 150);
    assert!(graph_readback_due(0));
    assert!(!graph_readback_due(3));
    assert!(graph_readback_due(8));
}

#[test]
fn small_limits_parse() {
    assert_eq!(parse_unsigned("5", 5), Some(5));
    assert_eq!(parse_unsigned("6", 5), None);
    assert_eq!(parse_unsigned("0", 0), Some(0));
    assert_eq!(parse_unsigned("10", 9), None);
    assert_eq!(parse_unsigned("255", 255), Some(255));
    assert_eq!(parse_unsigned("256", 255), None);
}
