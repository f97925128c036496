use vstd::prelude::*;

use crate::decimal::{parse_unsigned, parse_unsigned_spec};
use crate::sim::{BOID_CAPACITY, INITIAL_COUNT};

verus! {

/// Output format of a headless run.
#[derive(Clone, Copy, Debug, PartialEq, Eq, Structural)]
pub enum HeadlessFormat {
    Csv,
    Jsonl,
}

/// The three uncommon prey kinds whose initial share is configurable.
#[derive(Clone, Copy, Debug, PartialEq, Eq, Structural)]
pub enum RatioKind {
    Pulse,
    Courier,
    Warden,
}

/// How the text given for a ratio option reads as a number. The reading
/// itself is floating point and is made by the caller, one entry per argument.
#[derive(Clone, Copy, Debug, PartialEq, Eq, Structural)]
pub enum RatioCheck {
    /// A finite number between 0 and 1 inclusive.
    Valid,
    /// Not a number at all.
    Unparsable,
    /// A number that is not finite or lies outside 0..=1.
    OutOfRange,
}

/// Options of a headless run. Ratios are kept as the validated text the user
/// gave (`None`: the default share).
#[derive(Debug)]
pub struct HeadlessOptions {
    pub frames: u64,
    pub sample_every: u64,
    pub seed: u64,
    pub initial_count: u32,
    pub pulse_ratio: Option<String>,
    pub courier_ratio: Option<String>,
    pub warden_ratio: Option<String>,
    pub format: HeadlessFormat,
}

/// What the command line asks for.
#[derive(Debug)]
pub enum RunMode {
    Gui,
    Headless(HeadlessOptions),
    Help,
}

/// Why a command line was refused.
#[derive(Debug)]
pub enum ArgError {
    UnknownArgument(String),
    MissingValue(String),
    InvalidFrameCount(String),
    InvalidSamplingInterval(String),
    InvalidSeed(String),
    InvalidInitialCount(String),
    InvalidRatio(RatioKind, String),
    RatioOutOfRange(RatioKind),
    InvalidFormat(String),
    UnknownOption(String),
    ZeroSamplingInterval,
    InitialCountOverCapacity,
    /// The three ratios total more than 1; holds the caller's text of the total.
    RatioTotalOverOne(String),
}

/// Mathematical model of [`HeadlessOptions`].
pub struct OptionsModel {
    pub frames: u64,
    pub sample_every: u64,
    pub seed: u64,
    pub initial_count: u32,
    pub pulse_ratio: Option<Seq<char>>,
    pub courier_ratio: Option<Seq<char>>,
    pub warden_ratio: Option<Seq<char>>,
    pub format: HeadlessFormat,
}

/// Mathematical model of [`RunMode`].
pub enum RunModeModel {
    Gui,
    Headless(OptionsModel),
    Help,
}

/// Mathematical model of [`ArgError`].
pub enum ArgErrorModel {
    UnknownArgument(Seq<char>),
    MissingValue(Seq<char>),
    InvalidFrameCount(Seq<char>),
    InvalidSamplingInterval(Seq<char>),
    InvalidSeed(Seq<char>),
    InvalidInitialCount(Seq<char>),
    InvalidRatio(RatioKind, Seq<char>),
    RatioOutOfRange(RatioKind),
    InvalidFormat(Seq<char>),
    UnknownOption(Seq<char>),
    ZeroSamplingInterval,
    InitialCountOverCapacity,
    RatioTotalOverOne(Seq<char>),
}

pub open spec fn text_of(o: Option<String>) -> Option<Seq<char>> {
    match o {
        Some(s) => Some(s@),
        None => None,
    }
}

impl View for HeadlessOptions {
    type V = OptionsModel;

    open spec fn view(&self) -> OptionsModel {
        OptionsModel {
            frames: self.frames,
            sample_every: self.sample_every,
            seed: self.seed,
            initial_count: self.initial_count,
            pulse_ratio: text_of(self.pulse_ratio),
            courier_ratio: text_of(self.courier_ratio),
            warden_ratio: text_of(self.warden_ratio),
            format: self.format,
        }
    }
}

impl View for RunMode {
    type V = RunModeModel;

    open spec fn view(&self) -> RunModeModel {
        match self {
            RunMode::Gui => RunModeModel::Gui,
            RunMode::Headless(o) => RunModeModel::Headless(o@),
            RunMode::Help => RunModeModel::Help,
        }
    }
}

impl View for ArgError {
    type V = ArgErrorModel;

    open spec fn view(&self) -> ArgErrorModel {
        match self {
            ArgError::UnknownArgument(a) => ArgErrorModel::UnknownArgument(a@),
            ArgError::MissingValue(a) => ArgErrorModel::MissingValue(a@),
            ArgError::InvalidFrameCount(v) => ArgErrorModel::InvalidFrameCount(v@),
            ArgError::InvalidSamplingInterval(v) => ArgErrorModel::InvalidSamplingInterval(v@),
            ArgError::InvalidSeed(v) => ArgErrorModel::InvalidSeed(v@),
            ArgError::InvalidInitialCount(v) => ArgErrorModel::InvalidInitialCount(v@),
            ArgError::InvalidRatio(k, v) => ArgErrorModel::InvalidRatio(*k, v@),
            ArgError::RatioOutOfRange(k) => ArgErrorModel::RatioOutOfRange(*k),
            ArgError::InvalidFormat(v) => ArgErrorModel::InvalidFormat(v@),
            ArgError::UnknownOption(o) => ArgErrorModel::UnknownOption(o@),
            ArgError::ZeroSamplingInterval => ArgErrorModel::ZeroSamplingInterval,
            ArgError::InitialCountOverCapacity => ArgErrorModel::InitialCountOverCapacity,
            ArgError::RatioTotalOverOne(t) => ArgErrorModel::RatioTotalOverOne(t@),
        }
    }
}

/// Model of a parse outcome.
pub open spec fn outcome_view(r: Result<RunMode, ArgError>) -> Result<RunModeModel, ArgErrorModel> {
    match r {
        Ok(m) => Ok(m@),
        Err(e) => Err(e@),
    }
}

/// The texts of the arguments.
pub open spec fn arg_texts(args: Seq<String>) -> Seq<Seq<char>> {
    args.map_values(|a: String| a@)
}

/// Options of a headless run that names none.
pub open spec fn default_options() -> OptionsModel {
    OptionsModel {
        frames: 5000,
        sample_every: 100,
        seed: 1,
        initial_count: INITIAL_COUNT,
        pulse_ratio: None,
        courier_ratio: None,
        warden_ratio: None,
        format: HeadlessFormat::Csv,
    }
}

pub open spec fn is_help(a: Seq<char>) -> bool {
    a == "--help"@ || a == "-h"@
}

/// The value of a ratio option, given how its text reads.
pub open spec fn ratio_value(kind: RatioKind, value: Seq<char>, check: RatioCheck) -> Result<
    Seq<char>,
    ArgErrorModel,
> {
    match check {
        RatioCheck::Valid => Ok(value),
        RatioCheck::Unparsable => Err(ArgErrorModel::InvalidRatio(kind, value)),
        RatioCheck::OutOfRange => Err(ArgErrorModel::RatioOutOfRange(kind)),
    }
}

/// Options after one `name value` pair; `check` is how `value` reads as a ratio.
pub open spec fn apply_option(
    o: OptionsModel,
    name: Seq<char>,
    value: Seq<char>,
    check: RatioCheck,
) -> Result<OptionsModel, ArgErrorModel> {
    if name == "--frames"@ {
        match parse_unsigned_spec(value, u64::MAX as nat) {
            Some(v) => Ok(OptionsModel { frames: v as u64, ..o }),
            None => Err(ArgErrorModel::InvalidFrameCount(value)),
        }
    } else if name == "--sample-every"@ {
        match parse_unsigned_spec(value, u64::MAX as nat) {
            Some(v) => Ok(OptionsModel { sample_every: v as u64, ..o }),
            None => Err(ArgErrorModel::InvalidSamplingInterval(value)),
        }
    } else if name == "--seed"@ {
        match parse_unsigned_spec(value, u64::MAX as nat) {
            Some(v) => Ok(OptionsModel { seed: v as u64, ..o }),
            None => Err(ArgErrorModel::InvalidSeed(value)),
        }
    } else if name == "--initial-count"@ {
        match parse_unsigned_spec(value, u32::MAX as nat) {
            Some(v) => Ok(OptionsModel { initial_count: v as u32, ..o }),
            None => Err(ArgErrorModel::InvalidInitialCount(value)),
        }
    } else if name == "--pulse-ratio"@ {
        match ratio_value(RatioKind::Pulse, value, check) {
            Ok(t) => Ok(OptionsModel { pulse_ratio: Some(t), ..o }),
            Err(e) => Err(e),
        }
    } else if name == "--courier-ratio"@ {
        match ratio_value(RatioKind::Courier, value, check) {
            Ok(t) => Ok(OptionsModel { courier_ratio: Some(t), ..o }),
            Err(e) => Err(e),
        }
    } else if name == "--warden-ratio"@ {
        match ratio_value(RatioKind::Warden, value, check) {
            Ok(t) => Ok(OptionsModel { warden_ratio: Some(t), ..o }),
            Err(e) => Err(e),
        }
    } else if name == "--format"@ {
        if value == "csv"@ {
            Ok(OptionsModel { format: HeadlessFormat::Csv, ..o })
        } else if value == "jsonl"@ {
            Ok(OptionsModel { format: HeadlessFormat::Jsonl, ..o })
        } else {
            Err(ArgErrorModel::InvalidFormat(value))
        }
    } else {
        Err(ArgErrorModel::UnknownOption(name))
    }
}

/// The checks made once every option has been read.
pub open spec fn finish_options(o: OptionsModel) -> Result<RunModeModel, ArgErrorModel> {
    if o.sample_every == 0 {
        Err(ArgErrorModel::ZeroSamplingInterval)
    } else if o.initial_count > BOID_CAPACITY {
        Err(ArgErrorModel::InitialCountOverCapacity)
    } else {
        Ok(RunModeModel::Headless(o))
    }
}

/// Reads the `name value` pairs of a headless command line from position `i` on.
pub open spec fn parse_options_from(
    args: Seq<Seq<char>>,
    checks: Seq<RatioCheck>,
    i: int,
    o: OptionsModel,
) -> Result<RunModeModel, ArgErrorModel>
    decreases args.len() - i,
{
    if i < 0 || i >= args.len() {
        finish_options(o)
    } else if is_help(args[i]) {
        Ok(RunModeModel::Help)
    } else if i + 1 >= args.len() {
        Err(ArgErrorModel::MissingValue(args[i]))
    } else {
        match apply_option(o, args[i], args[i + 1], checks[i + 1]) {
            Ok(next) => parse_options_from(args, checks, i + 2, next),
            Err(e) => Err(e),
        }
    }
}

/// What a command line (program name left out) asks for; `checks[i]` is how
/// `args[i]` reads as a ratio.
pub open spec fn spec_parse_run_mode(args: Seq<Seq<char>>, checks: Seq<RatioCheck>) -> Result<
    RunModeModel,
    ArgErrorModel,
> {
    if args.len() == 0 {
        Ok(RunModeModel::Gui)
    } else if is_help(args[0]) {
        Ok(RunModeModel::Help)
    } else if args[0] != "--headless"@ {
        Err(ArgErrorModel::UnknownArgument(args[0]))
    } else {
        parse_options_from(args, checks, 1, default_options())
    }
}

proof fn lemma_options_from_runnable(
    args: Seq<Seq<char>>,
    checks: Seq<RatioCheck>,
    i: int,
    o: OptionsModel,
)
    ensures
        parse_options_from(args, checks, i, o) matches Ok(RunModeModel::Headless(r)) ==> r.sample_every
            > 0 && r.initial_count <= BOID_CAPACITY,
    decreases args.len() - i,
{
    if 0 <= i < args.len() && !is_help(args[i]) && i + 1 < args.len() {
        if let Ok(next) = apply_option(o, args[i], args[i + 1], checks[i + 1]) {
            lemma_options_from_runnable(args, checks, i + 2, next);
        }
    }
}

/// A headless line passes the reading of its options only with a positive
/// sampling interval and an initial population that fits the boid capacity
/// (`parse_run_mode` then also requires the ratios to total at most 1).
pub proof fn lemma_accepted_runs_are_runnable(args: Seq<Seq<char>>, checks: Seq<RatioCheck>)
    ensures
        spec_parse_run_mode(args, checks) matches Ok(RunModeModel::Headless(o)) ==> o.sample_every
            > 0 && o.initial_count <= BOID_CAPACITY,
{
    if args.len() > 0 && !is_help(args[0]) && args[0] == "--headless"@ {
        lemma_options_from_runnable(args, checks, 1, default_options());
    }
}

/// Asking for help, spelled `--help` or `-h`, in any option-name position
/// of a headless line gives `Help`, whatever follows.
pub proof fn lemma_help_at_option_position(
    args: Seq<Seq<char>>,
    checks: Seq<RatioCheck>,
    i: int,
    o: OptionsModel,
)
    requires
        0 <= i < args.len(),
        args[i] == "--help"@ || args[i] == "-h"@,
    ensures
        parse_options_from(args, checks, i, o) == Ok::<RunModeModel, ArgErrorModel>(RunModeModel::Help),
{
}

/// An option name in the last position of a headless line, other than a
/// request for help, is refused for want of a value, whatever the name.
pub proof fn lemma_last_name_lacks_value(
    args: Seq<Seq<char>>,
    checks: Seq<RatioCheck>,
    o: OptionsModel,
)
    requires
        args.len() >= 1,
        args.last() != "--help"@,
        args.last() != "-h"@,
    ensures
        parse_options_from(args, checks, args.len() - 1, o) == Err::<RunModeModel, ArgErrorModel>(
            ArgErrorModel::MissingValue(args.last()),
        ),
{
}

/// Once a name-value pair is accepted, reading goes on at the next name
/// with the options it produced.
pub proof fn lemma_accepted_pair_moves_on(
    args: Seq<Seq<char>>,
    checks: Seq<RatioCheck>,
    i: int,
    o: OptionsModel,
    next: OptionsModel,
)
    requires
        0 <= i,
        i + 1 < args.len(),
        args[i] != "--help"@,
        args[i] != "-h"@,
        apply_option(o, args[i], args[i + 1], checks[i + 1]) == Ok::<OptionsModel, ArgErrorModel>(next),
    ensures
        parse_options_from(args, checks, i, o) == parse_options_from(args, checks, i + 2, next),
{
}

/// A line that starts with `--help` or `-h`, or with `--headless` directly
/// followed by `--help` or `-h`, asks for help, whatever follows.
pub proof fn lemma_help_lines(args: Seq<Seq<char>>, checks: Seq<RatioCheck>)
    requires
        args.len() >= 1,
        (args[0] == "--help"@ || args[0] == "-h"@) || (args.len() >= 2 && args[0] == "--headless"@
            && (args[1] == "--help"@ || args[1] == "-h"@)),
    ensures
        spec_parse_run_mode(args, checks) == Ok::<RunModeModel, ArgErrorModel>(RunModeModel::Help),
{
    if !(args[0] == "--help"@ || args[0] == "-h"@) {
        lemma_help_at_option_position(args, checks, 1, default_options());
    }
}

/// Whether two texts are equal, character by character.
pub fn text_eq(a: &str, b: &str) -> (eq: bool)
    ensures
        eq == (a@ == b@),
{
    let n = a.unicode_len();
    if n != b.unicode_len() {
        return false;
    }
    let mut i: usize = 0;
    while i < n
        invariant
            n == a@.len(),
            n == b@.len(),
            i <= n,
            forall|k: int| 0 <= k < i ==> a@[k] == b@[k],
        decreases n - i,
    {
        if a.get_char(i) != b.get_char(i) {
            return false;
        }
        i += 1;
    }
    assert(a@ =~= b@);
    true
}

fn is_help_arg(a: &String) -> (r: bool)
    ensures
        r == is_help(a@),
{
    text_eq(a.as_str(), "--help") || text_eq(a.as_str(), "-h")
}

fn ratio_arg(kind: RatioKind, value: &String, check: RatioCheck) -> (r: Result<String, ArgError>)
    ensures
        match r {
            Ok(t) => ratio_value(kind, value@, check) == Ok::<Seq<char>, ArgErrorModel>(t@),
            Err(e) => ratio_value(kind, value@, check) == Err::<Seq<char>, ArgErrorModel>(e@),
        },
{
    match check {
        RatioCheck::Valid => Ok(value.clone()),
        RatioCheck::Unparsable => Err(ArgError::InvalidRatio(kind, value.clone())),
        RatioCheck::OutOfRange => Err(ArgError::RatioOutOfRange(kind)),
    }
}

/// Applies one `name value` pair to `options`.
fn apply_arg(options: &mut HeadlessOptions, name: &String, value: &String, check: RatioCheck) -> (r:
    Result<(), ArgError>)
    ensures
        match r {
            Ok(_) => apply_option(old(options)@, name@, value@, check) == Ok::<
                OptionsModel,
                ArgErrorModel,
            >(final(options)@),
            Err(e) => apply_option(old(options)@, name@, value@, check) == Err::<
                OptionsModel,
                ArgErrorModel,
            >(e@),
        },
{
    let n = name.as_str();
    let v = value.as_str();
    if text_eq(n, "--frames") {
        match parse_unsigned(v, u64::MAX) {
            Some(x) => {
                options.frames = x;
                Ok(())
            },
            None => Err(ArgError::InvalidFrameCount(value.clone())),
        }
    } else if text_eq(n, "--sample-every") {
        match parse_unsigned(v, u64::MAX) {
            Some(x) => {
                options.sample_every = x;
                Ok(())
            },
            None => Err(ArgError::InvalidSamplingInterval(value.clone())),
        }
    } else if text_eq(n, "--seed") {
        match parse_unsigned(v, u64::MAX) {
            Some(x) => {
                options.seed = x;
                Ok(())
            },
            None => Err(ArgError::InvalidSeed(value.clone())),
        }
    } else if text_eq(n, "--initial-count") {
        match parse_unsigned(v, 0xffff_ffff) {
            Some(x) => {
                options.initial_count = x as u32;
                Ok(())
            },
            None => Err(ArgError::InvalidInitialCount(value.clone())),
        }
    } else if text_eq(n, "--pulse-ratio") {
        let t = ratio_arg(RatioKind::Pulse, value, check)?;
        options.pulse_ratio = Some(t);
        Ok(())
    } else if text_eq(n, "--courier-ratio") {
        let t = ratio_arg(RatioKind::Courier, value, check)?;
        options.courier_ratio = Some(t);
        Ok(())
    } else if text_eq(n, "--warden-ratio") {
        let t = ratio_arg(RatioKind::Warden, value, check)?;
        options.warden_ratio = Some(t);
        Ok(())
    } else if text_eq(n, "--format") {
        if text_eq(v, "csv") {
            options.format = HeadlessFormat::Csv;
            Ok(())
        } else if text_eq(v, "jsonl") {
            options.format = HeadlessFormat::Jsonl;
            Ok(())
        } else {
            Err(ArgError::InvalidFormat(value.clone()))
        }
    } else {
        Err(ArgError::UnknownOption(name.clone()))
    }
}

impl Default for HeadlessOptions {
    /// Options of a headless run that names none: 5000 frames, a sample every
    /// 100 frames, seed 1, the default initial population, default ratios, CSV.
    fn default() -> (o: HeadlessOptions)
        ensures
            o@ == default_options(),
    {
        HeadlessOptions {
            frames: 5000,
            sample_every: 100,
            seed: 1,
            initial_count: INITIAL_COUNT,
            pulse_ratio: None,
            courier_ratio: None,
            warden_ratio: None,
            format: HeadlessFormat::Csv,
        }
    }
}

/// Reads a command line (program name left out).
///
/// The numeric reading of ratios is floating point and comes from the caller:
/// `ratio_checks[i]` says how `args[i]` reads as a single ratio (consulted only
/// for the values of the ratio options), and `ratio_total` reads the three
/// ratios of the finished options, giving the text of their total when it is
/// more than 1 and `None` otherwise. A headless line that `spec_parse_run_mode`
/// accepts is refused with `RatioTotalOverOne` exactly when `ratio_total` says
/// the total is over 1; every other outcome is the one `spec_parse_run_mode` gives.
pub fn parse_run_mode<F: Fn(&HeadlessOptions) -> Option<String>>(
    args: &Vec<String>,
    ratio_checks: &Vec<RatioCheck>,
    ratio_total: F,
) -> (r: Result<RunMode, ArgError>)
    requires
        args.len() == ratio_checks.len(),
        forall|o: HeadlessOptions| #[trigger] call_requires(ratio_total, (&o,)),
    ensures
        match spec_parse_run_mode(arg_texts(args@), ratio_checks@) {
            Ok(RunModeModel::Headless(o)) => match r {
                Ok(RunMode::Headless(x)) => x@ == o && call_ensures(
                    ratio_total,
                    (&x,),
                    None::<String>,
                ),
                Err(ArgError::RatioTotalOverOne(t)) => exists|x: HeadlessOptions|
                    x@ == o && #[trigger] call_ensures(ratio_total, (&x,), Some(t)),
                _ => false,
            },
            other => outcome_view(r) == other,
        },
        r matches Ok(RunMode::Headless(x)) ==> x.sample_every > 0 && x.initial_count
            <= BOID_CAPACITY && call_ensures(ratio_total, (&x,), None::<String>),
{
    proof {
        lemma_accepted_runs_are_runnable(arg_texts(args@), ratio_checks@);
    }
    let ghost texts = arg_texts(args@);
    assert(texts.len() == args.len());
    if args.len() == 0 {
        return Ok(RunMode::Gui);
    }
    assert(texts[0] == args@[0]@);
    if is_help_arg(&args[0]) {
        return Ok(RunMode::Help);
    }
    if !text_eq(args[0].as_str(), "--headless") {
        return Err(ArgError::UnknownArgument(args[0].clone()));
    }
    let mut options = HeadlessOptions::default();
    let mut i: usize = 1;
    while i < args.len()
        invariant
            args.len() == ratio_checks.len(),
            texts == arg_texts(args@),
            texts.len() == args.len(),
            1 <= i,
            spec_parse_run_mode(texts, ratio_checks@) == parse_options_from(
                texts,
                ratio_checks@,
                i as int,
                options@,
            ),
        decreases args.len() - i,
    {
        assert(texts[i as int] == args@[i as int]@);
        if is_help_arg(&args[i]) {
            return Ok(RunMode::Help);
        }
        if i + 1 >= args.len() {
            return Err(ArgError::MissingValue(args[i].clone()));
        }
        assert(texts[i + 1] == args@[i + 1]@);
        apply_arg(&mut options, &args[i], &args[i + 1], ratio_checks[i + 1])?;
        i += 2;
    }
    if options.sample_every == 0 {
        return Err(ArgError::ZeroSamplingInterval);
    }
    if options.initial_count > BOID_CAPACITY {
        return Err(ArgError::InitialCountOverCapacity);
    }
    match ratio_total(&options) {
        Some(total) => {
            assert(call_ensures(ratio_total, (&options,), Some(total)));
            Err(ArgError::RatioTotalOverOne(total))
        },
        None => Ok(RunMode::Headless(options)),
    }
}

/// The name a ratio option uses in messages.
pub open spec fn ratio_name(kind: RatioKind) -> Seq<char> {
    match kind {
        RatioKind::Pulse => "pulse"@,
        RatioKind::Courier => "courier"@,
        RatioKind::Warden => "warden"@,
    }
}

/// The text that reports a refused command line.
pub open spec fn error_message(e: ArgErrorModel) -> Seq<char> {
    match e {
        ArgErrorModel::UnknownArgument(a) => "unknown argument: "@ + a,
        ArgErrorModel::MissingValue(a) => a + " requires a value"@,
        ArgErrorModel::InvalidFrameCount(v) => "invalid frame count: "@ + v,
        ArgErrorModel::InvalidSamplingInterval(v) => "invalid sampling interval: "@ + v,
        ArgErrorModel::InvalidSeed(v) => "invalid seed: "@ + v,
        ArgErrorModel::InvalidInitialCount(v) => "invalid initial count: "@ + v,
        ArgErrorModel::InvalidRatio(k, v) => "invalid "@ + ratio_name(k) + " ratio: "@ + v,
        ArgErrorModel::RatioOutOfRange(k) => ratio_name(k) + " ratio must be between 0.0 and 1.0"@,
        ArgErrorModel::InvalidFormat(v) => "invalid format: "@ + v + " (expected csv or jsonl)"@,
        ArgErrorModel::UnknownOption(o) => "unknown headless option: "@ + o,
        ArgErrorModel::ZeroSamplingInterval => "--sample-every must be greater than zero"@,
        ArgErrorModel::InitialCountOverCapacity => "--initial-count cannot exceed the capacity of 75000"@,
        ArgErrorModel::RatioTotalOverOne(t) => "pulse, courier, and warden ratios must total at most 1.0 (got "@
            + t + ")"@,
    }
}

fn ratio_name_str(kind: RatioKind) -> (t: &'static str)
    ensures
        t@ == ratio_name(kind),
{
    match kind {
        RatioKind::Pulse => "pulse",
        RatioKind::Courier => "courier",
        RatioKind::Warden => "warden",
    }
}

impl ArgError {
    /// The text that reports this error to the user.
    pub fn message(&self) -> (m: String)
        ensures
            m@ == error_message(self@),
    {
        match self {
            ArgError::UnknownArgument(a) => {
                let mut m = String::from_str("unknown argument: ");
                m.append(a.as_str());
                m
            },
            ArgError::MissingValue(a) => {
                let mut m = a.clone();
                m.append(" requires a value");
                m
            },
            ArgError::InvalidFrameCount(v) => {
                let mut m = String::from_str("invalid frame count: ");
                m.append(v.as_str());
                m
            },
            ArgError::InvalidSamplingInterval(v) => {
                let mut m = String::from_str("invalid sampling interval: ");
                m.append(v.as_str());
                m
            },
            ArgError::InvalidSeed(v) => {
                let mut m = String::from_str("invalid seed: ");
                m.append(v.as_str());
                m
            },
            ArgError::InvalidInitialCount(v) => {
                let mut m = String::from_str("invalid initial count: ");
                m.append(v.as_str());
                m
            },
            ArgError::InvalidRatio(k, v) => {
                let mut m = String::from_str("invalid ");
                m.append(ratio_name_str(*k));
                m.append(" ratio: ");
                m.append(v.as_str());
                m
            },
            ArgError::RatioOutOfRange(k) => {
                let mut m = String::from_str(ratio_name_str(*k));
                m.append(" ratio must be between 0.0 and 1.0");
                m
            },
            ArgError::InvalidFormat(v) => {
                let mut m = String::from_str("invalid format: ");
                m.append(v.as_str());
                m.append(" (expected csv or jsonl)");
                m
            },
            ArgError::UnknownOption(o) => {
                let mut m = String::from_str("unknown headless option: ");
                m.append(o.as_str());
                m
            },
            ArgError::ZeroSamplingInterval => String::from_str(
                "--sample-every must be greater than zero",
            ),
            ArgError::InitialCountOverCapacity => String::from_str(
                "--initial-count cannot exceed the capacity of 75000",
            ),
            ArgError::RatioTotalOverOne(t) => {
                let mut m = String::from_str(
                    "pulse, courier, and warden ratios must total at most 1.0 (got ",
                );
                m.append(t.as_str());
                m.append(")");
                m
            },
        }
    }
}

} // verus!
