use vstd::prelude::*;

use crate::cli::HeadlessFormat;
use crate::decimal::{decimal_text, push_decimal};

verus! {

/// Number of prey species.
pub const PREY_SPECIES_COUNT: usize = 5;

/// Layout of the population counters the GPU fills: the prey species, then
/// predators, then the four prey kinds, then panicked prey and charging wardens.
pub const PREDATOR_POPULATION_INDEX: usize = 5;
pub const KIND_POPULATION_START: usize = 6;
pub const PANICKED_POPULATION_INDEX: usize = 10;
pub const CHARGING_WARDEN_POPULATION_INDEX: usize = 11;
pub const POPULATION_SERIES: usize = 12;

/// Number of living boids: every prey species plus the predators.
pub open spec fn spec_population_total(counts: Seq<u32>) -> int {
    counts[0] + counts[1] + counts[2] + counts[3] + counts[4] + counts[
    PREDATOR_POPULATION_INDEX as int]
}

/// Sum of the first `n` counters.
pub open spec fn prefix_sum(counts: Seq<u32>, n: int) -> int
    decreases n,
{
    if n <= 0 {
        0
    } else {
        prefix_sum(counts, n - 1) + counts[n - 1]
    }
}

proof fn lemma_prefix_sum_monotone(counts: Seq<u32>, i: int, j: int)
    requires
        0 <= i <= j,
    ensures
        prefix_sum(counts, i) <= prefix_sum(counts, j),
    decreases j,
{
    if i < j {
        lemma_prefix_sum_monotone(counts, i, j - 1);
    }
}

/// Number of living prey: the sum over the prey species.
pub fn prey_population(counts: &[u32; POPULATION_SERIES]) -> (prey: u32)
    requires
        prefix_sum(counts@, PREY_SPECIES_COUNT as int) <= u32::MAX,
    ensures
        prey == prefix_sum(counts@, PREY_SPECIES_COUNT as int),
{
    let mut prey: u32 = 0;
    let mut i: usize = 0;
    while i < PREY_SPECIES_COUNT
        invariant
            i <= PREY_SPECIES_COUNT,
            prefix_sum(counts@, PREY_SPECIES_COUNT as int) <= u32::MAX,
            prey == prefix_sum(counts@, i as int),
        decreases PREY_SPECIES_COUNT - i,
    {
        proof {
            lemma_prefix_sum_monotone(counts@, i + 1, PREY_SPECIES_COUNT as int);
        }
        prey = prey + counts[i];
        i += 1;
    }
    prey
}

/// Number of living boids: every prey species plus the predators.
pub fn population_total(counts: &[u32; POPULATION_SERIES]) -> (total: u32)
    requires
        spec_population_total(counts@) <= u32::MAX,
    ensures
        total == spec_population_total(counts@),
{
    assert(prefix_sum(counts@, PREY_SPECIES_COUNT as int) + counts@[PREDATOR_POPULATION_INDEX as int]
        == spec_population_total(counts@)) by {
        reveal_with_fuel(prefix_sum, 6);
    }
    prey_population(counts) + counts[PREDATOR_POPULATION_INDEX]
}

/// Decimal fields separated by commas.
pub open spec fn comma_list(values: Seq<nat>) -> Seq<char>
    decreases values.len(),
{
    if values.len() == 0 {
        Seq::empty()
    } else if values.len() == 1 {
        decimal_text(values[0])
    } else {
        comma_list(values.drop_last()) + ","@ + decimal_text(values.last())
    }
}

/// The values of a CSV population record: the frame, every counter in
/// order, then the total.
pub open spec fn csv_values(frame: u64, counts: Seq<u32>) -> Seq<nat> {
    seq![frame as nat] + counts.map_values(|c: u32| c as nat) + seq![
        spec_population_total(counts) as nat,
    ]
}

/// A CSV population record (no line end).
pub open spec fn csv_record(frame: u64, counts: Seq<u32>) -> Seq<char> {
    comma_list(csv_values(frame, counts))
}

/// A JSON Lines population record (no line end).
pub open spec fn jsonl_record(frame: u64, counts: Seq<u32>) -> Seq<char> {
    "{\"frame\":"@ + decimal_text(frame as nat) + ",\"populations\":{\"prey_0\":"@
        + decimal_text(counts[0] as nat) + ",\"prey_1\":"@ + decimal_text(counts[1] as nat)
        + ",\"prey_2\":"@ + decimal_text(counts[2] as nat) + ",\"prey_3\":"@ + decimal_text(
        counts[3] as nat,
    ) + ",\"prey_4\":"@ + decimal_text(counts[4] as nat) + ",\"predators\":"@ + decimal_text(
        counts[5] as nat,
    ) + ",\"standard\":"@ + decimal_text(counts[6] as nat) + ",\"pulse\":"@ + decimal_text(
        counts[7] as nat,
    ) + ",\"courier\":"@ + decimal_text(counts[8] as nat) + ",\"warden\":"@ + decimal_text(
        counts[9] as nat,
    ) + "},\"activity\":{\"panicked\":"@ + decimal_text(counts[10] as nat)
        + ",\"charging_wardens\":"@ + decimal_text(counts[11] as nat) + "},\"total\":"@
        + decimal_text(spec_population_total(counts) as nat) + "}"@
}

/// A population record in the given format (no line end).
pub open spec fn spec_population_record(format: HeadlessFormat, frame: u64, counts: Seq<u32>) -> Seq<
    char,
> {
    match format {
        HeadlessFormat::Csv => csv_record(frame, counts),
        HeadlessFormat::Jsonl => jsonl_record(frame, counts),
    }
}

fn csv_population_record(frame: u64, counts: &[u32; POPULATION_SERIES], total: u32) -> (line:
    String)
    requires
        total == spec_population_total(counts@),
    ensures
        line@ == csv_record(frame, counts@),
{
    let ghost values = csv_values(frame, counts@);
    assert(values.len() == POPULATION_SERIES + 2);
    let mut line = String::new();
    push_decimal(&mut line, frame);
    assert(values.take(1) =~= seq![frame as nat]);
    assert(comma_list(values.take(1)) == decimal_text(frame as nat));
    let mut i: usize = 0;
    while i < POPULATION_SERIES
        invariant
            i <= POPULATION_SERIES,
            values == csv_values(frame, counts@),
            values.len() == POPULATION_SERIES + 2,
            line@ == comma_list(values.take(i + 1)),
        decreases POPULATION_SERIES - i,
    {
        line.append(",");
        push_decimal(&mut line, counts[i] as u64);
        proof {
            let t = values.take(i + 2);
            assert(t.drop_last() =~= values.take(i + 1));
            assert(t.last() == counts@[i as int] as nat);
        }
        i += 1;
    }
    line.append(",");
    push_decimal(&mut line, total as u64);
    proof {
        let t = values.take(POPULATION_SERIES + 2);
        assert(t.drop_last() =~= values.take(POPULATION_SERIES + 1));
        assert(t =~= values);
    }
    line
}

fn jsonl_population_record(frame: u64, counts: &[u32; POPULATION_SERIES], total: u32) -> (line:
    String)
    requires
        total == spec_population_total(counts@),
    ensures
        line@ == jsonl_record(frame, counts@),
{
    let mut line = String::from_str("{\"frame\":");
    push_decimal(&mut line, frame);
    line.append(",\"populations\":{\"prey_0\":");
    push_decimal(&mut line, counts[0] as u64);
    line.append(",\"prey_1\":");
    push_decimal(&mut line, counts[1] as u64);
    line.append(",\"prey_2\":");
    push_decimal(&mut line, counts[2] as u64);
    line.append(",\"prey_3\":");
    push_decimal(&mut line, counts[3] as u64);
    line.append(",\"prey_4\":");
    push_decimal(&mut line, counts[4] as u64);
    line.append(",\"predators\":");
    push_decimal(&mut line, counts[5] as u64);
    line.append(",\"standard\":");
    push_decimal(&mut line, counts[6] as u64);
    line.append(",\"pulse\":");
    push_decimal(&mut line, counts[7] as u64);
    line.append(",\"courier\":");
    push_decimal(&mut line, counts[8] as u64);
    line.append(",\"warden\":");
    push_decimal(&mut line, counts[9] as u64);
    line.append("},\"activity\":{\"panicked\":");
    push_decimal(&mut line, counts[10] as u64);
    line.append(",\"charging_wardens\":");
    push_decimal(&mut line, counts[11] as u64);
    line.append("},\"total\":");
    push_decimal(&mut line, total as u64);
    line.append("}");
    line
}

/// The population record of frame `frame` in the given format, without the
/// line end: CSV fields or a JSON object, each ending with the total.
pub fn population_record(format: HeadlessFormat, frame: u64, counts: &[u32; POPULATION_SERIES]) -> (line:
    String)
    requires
        spec_population_total(counts@) <= u32::MAX,
    ensures
        line@ == spec_population_record(format, frame, counts@),
{
    let total = population_total(counts);
    match format {
        HeadlessFormat::Csv => csv_population_record(frame, counts, total),
        HeadlessFormat::Jsonl => jsonl_population_record(frame, counts, total),
    }
}

} // verus!
