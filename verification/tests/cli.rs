use boids::cli::{
    parse_run_mode, ArgError, HeadlessFormat, HeadlessOptions, RatioCheck, RatioKind, RunMode,
};

/// How a text reads as a ratio, the way the front end classifies it.
fn classify_ratio(text: &str) -> RatioCheck {
    match text.parse::<f32>() {
        Err(_) => RatioCheck::Unparsable,
        Ok(r) if !r.is_finite() || !(0.0..=1.0).contains(&r) => RatioCheck::OutOfRange,
        Ok(_) => RatioCheck::Valid,
    }
}

fn ratio_of(text: &Option<String>, default: f32) -> f32 {
    match text {
        Some(t) => t.parse::<f32>().unwrap(),
        None => default,
    }
}

/// How the front end reads the total of the three ratios (f32, over 1 or not).
fn ratio_total(options: &HeadlessOptions) -> Option<String> {
    let total = ratio_of(&options.pulse_ratio, 0.01)
        + ratio_of(&options.courier_ratio, 0.002)
        + ratio_of(&options.warden_ratio, 0.08);
    if total > 1.0 {
        Some(format!("{total}"))
    } else {
        None
    }
}

/// The library's parse, given the front end's readings of the ratios.
fn parse(args: &[&str]) -> Result<RunMode, ArgError> {
    let args: Vec<String> = args.iter().map(|a| a.to_string()).collect();
    let checks: Vec<RatioCheck> = args.iter().map(|a| classify_ratio(a)).collect();
    parse_run_mode(&args, &checks, ratio_total)
}

fn parse_err(args: &[&str]) -> ArgError {
    let args: Vec<String> = args.iter().map(|a| a.to_string()).collect();
    let checks: Vec<RatioCheck> = args.iter().map(|a| classify_ratio(a)).collect();
    match parse_run_mode(&args, &checks, ratio_total) {
        Err(e) => e,
        Ok(_) => panic!("expected an error"),
    }
}

#[test]
fn parses_headless_options() {
    let mode = parse(&[
        "--headless",
        "--frames",
        "250",
        "--sample-every",
        "25",
        "--seed",
        "42",
        "--initial-count",
        "1000",
        "--pulse-ratio",
        "0.03",
        "--courier-ratio",
        "0.004",
        "--warden-ratio",
        "0.12",
        "--format",
        "jsonl",
    ])
    .unwrap();
    let RunMode::Headless(options) = mode else {
        panic!("expected headless mode");
    };
    assert_eq!(options.frames, 250);
    assert_eq!(options.sample_every, 25);
    assert_eq!(options.seed, 42);
    assert_eq!(options.initial_count, 1000);
    assert_eq!(ratio_of(&options.pulse_ratio, 0.01), 0.03);
    assert_eq!(ratio_of(&options.courier_ratio, 0.002), 0.004);
    assert_eq!(ratio_of(&options.warden_ratio, 0.08), 0.12);
    assert_eq!(options.format, HeadlessFormat::Jsonl);
}

#[test]
fn rejects_zero_sampling_interval() {
    let result = parse(&["--headless", "--sample-every", "0"]);
    assert!(result.is_err());
}

#[test]
fn rejects_species_ratios_over_one() {
    let result = parse(&[
        "--headless",
        "--pulse-ratio",
        "0.4",
        "--courier-ratio",
        "0.3",
        "--warden-ratio",
        "0.31",
    ]);
    assert!(result.is_err());
}

#[test]
fn ratio_total_is_refused_by_the_parser() {
    let e = parse_err(&[
        "--headless",
        "--pulse-ratio",
        "0.4",
        "--courier-ratio",
        "0.3",
        "--warden-ratio",
        "0.31",
    ]);
    assert!(matches!(&e, ArgError::RatioTotalOverOne(_)));
    assert!(e
        .message()
        .starts_with("pulse, courier, and warden ratios must total at most 1.0 (got 1.01"));
    // a total of exactly 1 is accepted
    assert!(matches!(
        parse(&["--headless", "--pulse-ratio", "0.25", "--courier-ratio", "0.25", "--warden-ratio", "0.5"]),
        Ok(RunMode::Headless(_))
    ));
    // the integer checks come first
    assert!(matches!(
        parse_err(&["--headless", "--sample-every", "0", "--pulse-ratio", "1", "--warden-ratio", "1"]),
        ArgError::ZeroSamplingInterval
    ));
}

#[test]
fn no_arguments_run_the_gui() {
    assert!(matches!(parse(&[]), Ok(RunMode::Gui)));
}

#[test]
fn help_wins_anywhere() {
    assert!(matches!(parse(&["--help"]), Ok(RunMode::Help)));
    assert!(matches!(parse(&["-h", "--bogus"]), Ok(RunMode::Help)));
    assert!(matches!(parse(&["--headless", "--frames", "10", "-h"]), Ok(RunMode::Help)));
}

#[test]
fn headless_defaults() {
    let RunMode::Headless(options) = parse(&["--headless"]).unwrap() else {
        panic!("expected headless mode");
    };
    let defaults = HeadlessOptions::default();
    assert_eq!(options.frames, 5000);
    assert_eq!(options.sample_every, 100);
    assert_eq!(options.seed, 1);
    assert_eq!(options.initial_count, 32000);
    assert_eq!(options.pulse_ratio, None);
    assert_eq!(options.format, HeadlessFormat::Csv);
    assert_eq!(defaults.frames, options.frames);
    assert_eq!(defaults.initial_count, options.initial_count);
}

#[test]
fn later_options_override_earlier_ones() {
    let RunMode::Headless(options) =
        parse(&["--headless", "--seed", "3", "--seed", "+7", "--format", "csv"]).unwrap()
    else {
        panic!("expected headless mode");
    };
    assert_eq!(options.seed, 7);
    assert_eq!(options.format, HeadlessFormat::Csv);
}

#[test]
fn frame_count_reaches_u64_max() {
    let RunMode::Headless(options) =
        parse(&["--headless", "--frames", "18446744073709551615"]).unwrap()
    else {
        panic!("expected headless mode");
    };
    assert_eq!(options.frames, u64::MAX);
    let e = parse_err(&["--headless", "--frames", "18446744073709551616"]);
    assert_eq!(e.message(), "invalid frame count: 18446744073709551616");
}

#[test]
fn error_messages() {
    assert_eq!(parse_err(&["--gui"]).message(), "unknown argument: --gui");
    assert_eq!(
        parse_err(&["--headless", "--frames"]).message(),
        "--frames requires a value"
    );
    assert_eq!(
        parse_err(&["--headless", "--frames", "-3"]).message(),
        "invalid frame count: -3"
    );
    assert_eq!(
        parse_err(&["--headless", "--sample-every", "x"]).message(),
        "invalid sampling interval: x"
    );
    assert_eq!(parse_err(&["--headless", "--seed", ""]).message(), "invalid seed: ");
    assert_eq!(
        parse_err(&["--headless", "--initial-count", "4294967296"]).message(),
        "invalid initial count: 4294967296"
    );
    assert_eq!(
        parse_err(&["--headless", "--pulse-ratio", "lots"]).message(),
        "invalid pulse ratio: lots"
    );
    assert_eq!(
        parse_err(&["--headless", "--warden-ratio", "1.5"]).message(),
        "warden ratio must be between 0.0 and 1.0"
    );
    assert_eq!(
        parse_err(&["--headless", "--courier-ratio", "NaN"]).message(),
        "courier ratio must be between 0.0 and 1.0"
    );
    assert_eq!(
        parse_err(&["--headless", "--format", "xml"]).message(),
        "invalid format: xml (expected csv or jsonl)"
    );
    assert_eq!(
        parse_err(&["--headless", "--speed", "2"]).message(),
        "unknown headless option: --speed"
    );
    assert_eq!(
        parse_err(&["--headless", "--sample-every", "0"]).message(),
        "--sample-every must be greater than zero"
    );
    assert_eq!(
        parse_err(&["--headless", "--initial-count", "75001"]).message(),
        "--initial-count cannot exceed the capacity of 75000"
    );
}

#[test]
fn error_variants() {
    assert!(matches!(
        parse_err(&["--headless", "--pulse-ratio", "-0.5"]),
        ArgError::RatioOutOfRange(RatioKind::Pulse)
    ));
    assert!(matches!(
        parse_err(&["--headless", "--courier-ratio", "abc"]),
        ArgError::InvalidRatio(RatioKind::Courier, _)
    ));
    assert!(matches!(
        parse_err(&["--headless", "--initial-count", "75001"]),
        ArgError::InitialCountOverCapacity
    ));
    assert!(matches!(
        parse(&["--headless", "--initial-count", "75000"]),
        Ok(RunMode::Headless(_))
    ));
}

#[test]
fn first_error_in_argument_order_wins() {
    assert_eq!(
        parse_err(&["--headless", "--pulse-ratio", "abc", "--frames", "x"]).message(),
        "invalid pulse ratio: abc"
    );
    assert_eq!(
        parse_err(&["--headless", "--sample-every", "0", "--initial-count", "99999"]).message(),
        "--sample-every must be greater than zero"
    );
}
