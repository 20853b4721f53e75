//! Turning one line of the download tool's output into a progress snapshot.
//!
//! A line is tried against four rules in a fixed order and the first rule
//! that applies decides: a download percentage, a step counter, a stage
//! phrase, and last a case-insensitive keyword. A line that no rule knows
//! yields nothing.

use crate::decimal::{
    decimal_of, digits_value, fraction_part, parse_decimal, parse_u32, parsed_u32, whole_part,
    Percentage,
};
use crate::pattern::{
    captures, captures_of, captures_view, group, group_chars, replace_all, replaced_all,
};
use crate::state::{opt_progress, DownloadStage, Progress, ProgressView};
use crate::text::{
    chars_of, concat, contains, has_prefix, has_substring, lowercase_of, starts_with, string_of,
    to_lowercase, trim, trimmed,
};
use vstd::prelude::*;

verus! {

/// A download line: the `[download]` tag, a percentage, and the size it is
/// a percentage of; rate, remaining time and elapsed time may follow.
pub const DOWNLOAD_PATTERN: &'static str =
    r"\[download\]\s+(\d+(?:\.\d+)?)%\s+of\s+[\d.]+\w+(?:\s+at\s+[\d.]+\w+/s)?(?:\s+ETA\s+[\d:]+)?(?:\s+in\s+[\d:]+)?";

/// A step counter: `Step X of Y` or `[X/Y]`.
pub const STEP_PATTERN: &'static str = r"(?:Step\s+(\d+)\s+of\s+(\d+)|\[(\d+)/(\d+)\])";

/// A number followed by a percent sign.
pub const PERCENTAGE_PATTERN: &'static str = r"(\d+(?:\.\d+)?)%";

/// An ANSI colour sequence.
pub const ANSI_PATTERN: &'static str = r"\x1b\[[0-9;]*m";

/// Progress parser for the output of the download tool.
pub struct ProgressParser;

/// A snapshot that carries a stage and the line it was read from.
pub open spec fn stage_only(stage: DownloadStage, line: Seq<char>) -> ProgressView {
    ProgressView {
        stage,
        percentage: None,
        current_step: line,
        total_steps: None,
        current_step_index: None,
    }
}

/// What a match of the download pattern makes of a line: the percentage is
/// the numeral in group 1, taken as it stands.
pub open spec fn download_progress(line: Seq<char>, caps: Option<Seq<Option<Seq<char>>>>) -> Option<
    ProgressView,
> {
    match caps {
        Some(groups) => match group(groups, 1) {
            Some(numeral) => match decimal_of(numeral) {
                Some(p) => Some(
                    ProgressView {
                        stage: DownloadStage::DownloadingAudio,
                        percentage: Some(p),
                        current_step: line,
                        total_steps: None,
                        current_step_index: None,
                    },
                ),
                None => None,
            },
            None => None,
        },
        None => None,
    }
}

/// `100 * current / total` rounded to two decimals, halves upwards; nothing
/// for a total of zero.
pub open spec fn step_percentage(current: u32, total: u32) -> Option<Percentage> {
    if total > 0 {
        Some(
            Percentage {
                units: ((20000 * current as int + total as int) / (2 * total as int)) as u64,
                decimals: 2,
            },
        )
    } else {
        None
    }
}

/// The stage of a step line, read from the lower-cased line: the stage that
/// a keyword of the line points to, and downloading where the line holds no
/// keyword.
pub open spec fn inferred_stage(lower: Seq<char>) -> DownloadStage {
    match keyword_stage(lower) {
        Some(stage) => stage,
        None => DownloadStage::DownloadingAudio,
    }
}

/// The two numerals of a step counter: groups 1 and 2 where both took part
/// (`Step X of Y`), else groups 3 and 4 (`[X/Y]`).
pub open spec fn step_numerals(groups: Seq<Option<Seq<char>>>) -> Option<(Seq<char>, Seq<char>)> {
    if group(groups, 1) is Some && group(groups, 2) is Some {
        Some((group(groups, 1)->0, group(groups, 2)->0))
    } else if group(groups, 3) is Some && group(groups, 4) is Some {
        Some((group(groups, 3)->0, group(groups, 4)->0))
    } else {
        None
    }
}

/// What a match of the step pattern makes of a line whose lower-case form is
/// `lower`.
pub open spec fn step_progress(
    line: Seq<char>,
    lower: Seq<char>,
    caps: Option<Seq<Option<Seq<char>>>>,
) -> Option<ProgressView> {
    match caps {
        Some(groups) => match step_numerals(groups) {
            Some((current, total)) => match (parsed_u32(current), parsed_u32(total)) {
                (Some(x), Some(y)) => Some(
                    ProgressView {
                        stage: inferred_stage(lower),
                        percentage: step_percentage(x, y),
                        current_step: line,
                        total_steps: Some(y),
                        current_step_index: Some(x),
                    },
                ),
                _ => None,
            },
            None => None,
        },
        None => None,
    }
}

/// The stage that a phrase of the line names. The phrases are matched as
/// they are written, and the groups are tried in this order.
pub open spec fn indicated_stage(line: Seq<char>) -> Option<DownloadStage> {
    if has_substring(line, "Initializing"@) || has_substring(line, "Starting"@) || has_substring(
        line,
        "Setting up"@,
    ) {
        Some(DownloadStage::Initializing)
    } else if (has_substring(line, "Fetching"@) && (has_substring(line, "metadata"@)
        || has_substring(line, "info"@))) || has_substring(line, "Getting video info"@)
        || has_substring(line, "Extracting"@) {
        Some(DownloadStage::FetchingMetadata)
    } else if has_substring(line, "[download]"@) && !has_substring(line, "%"@) {
        Some(DownloadStage::DownloadingAudio)
    } else if has_substring(line, "Remuxing"@) || has_substring(line, "Processing"@)
        || has_substring(line, "Converting"@) || has_substring(line, "Merging"@) {
        Some(DownloadStage::Remuxing)
    } else if has_substring(line, "Applying tags"@) || has_substring(line, "Writing tags"@)
        || has_substring(line, "Adding metadata"@) || has_substring(line, "Tagging"@)
        || has_substring(line, "Writing metadata"@) || has_substring(line, "Adding cover"@) {
        Some(DownloadStage::ApplyingTags)
    } else if has_substring(line, "Finalizing"@) || has_substring(line, "Finishing"@)
        || has_substring(line, "Completed"@) || has_substring(line, "Done"@) || has_substring(
        line,
        "completed"@,
    ) {
        Some(DownloadStage::Finalizing)
    } else {
        None
    }
}

/// The stage that a keyword of the lower-cased line points to.
pub open spec fn keyword_stage(lower: Seq<char>) -> Option<DownloadStage> {
    if has_substring(lower, "init"@) || has_substring(lower, "start"@) {
        Some(DownloadStage::Initializing)
    } else if has_substring(lower, "fetch"@) || has_substring(lower, "extract"@) || has_substring(
        lower,
        "metadata"@,
    ) || has_substring(lower, "info"@) {
        Some(DownloadStage::FetchingMetadata)
    } else if has_substring(lower, "download"@) || has_substring(lower, "audio"@) {
        Some(DownloadStage::DownloadingAudio)
    } else if has_substring(lower, "remux"@) || has_substring(lower, "process"@) || has_substring(
        lower,
        "convert"@,
    ) {
        Some(DownloadStage::Remuxing)
    } else if has_substring(lower, "tag"@) || has_substring(lower, "metadata"@) {
        Some(DownloadStage::ApplyingTags)
    } else if has_substring(lower, "final"@) || has_substring(lower, "complete"@) || has_substring(
        lower,
        "done"@,
    ) || has_substring(lower, "finish"@) {
        Some(DownloadStage::Finalizing)
    } else {
        None
    }
}

/// A stage, where there is one, as a snapshot of the line.
pub open spec fn stage_progress(stage: Option<DownloadStage>, line: Seq<char>) -> Option<
    ProgressView,
> {
    match stage {
        Some(s) => Some(stage_only(s, line)),
        None => None,
    }
}

/// What a line yields, the four rules tried in order.
pub open spec fn parsed_line(line: Seq<char>) -> Option<ProgressView> {
    if download_progress(line, captures_of(DOWNLOAD_PATTERN@, line)) is Some {
        download_progress(line, captures_of(DOWNLOAD_PATTERN@, line))
    } else if step_progress(line, lowercase_of(line), captures_of(STEP_PATTERN@, line)) is Some {
        step_progress(line, lowercase_of(line), captures_of(STEP_PATTERN@, line))
    } else if indicated_stage(line) is Some {
        stage_progress(indicated_stage(line), line)
    } else {
        stage_progress(keyword_stage(lowercase_of(line)), line)
    }
}

/// What a line of output yields: the line is trimmed, then parsed.
pub open spec fn parsed_output(output: Seq<char>) -> Option<ProgressView> {
    parsed_line(trimmed(output))
}

/// Whether a lower-cased line reports an error.
pub open spec fn is_error_text(lower: Seq<char>) -> bool {
    has_substring(lower, "error"@) || has_substring(lower, "failed"@) || has_substring(
        lower,
        "exception"@,
    ) || has_substring(lower, "traceback"@) || has_prefix(lower, "error:"@) || has_prefix(
        lower,
        "fatal:"@,
    )
}

/// Whether a lower-cased line reports that the download is complete.
pub open spec fn is_completion_text(lower: Seq<char>) -> bool {
    has_substring(lower, "download completed"@) || has_substring(lower, "successfully downloaded"@)
        || has_substring(lower, "finished downloading"@) || (has_substring(lower, "100%"@)
        && has_substring(lower, "download"@))
}

/// A line without its colour sequences and without white space around it.
/// Should the pattern of a colour sequence be refused, the line is only
/// trimmed.
pub open spec fn sanitized(line: Seq<char>) -> Seq<char> {
    match replaced_all(ANSI_PATTERN@, line, ""@) {
        Some(stripped) => trimmed(stripped),
        None => trimmed(line),
    }
}

/// Ten to the power of `n`.
pub open spec fn pow10(n: nat) -> nat
    decreases n,
{
    if n == 0 {
        1
    } else {
        10 * pow10((n - 1) as nat)
    }
}

/// The number stands for at most one.
pub open spec fn at_most_one(p: Percentage) -> bool {
    p.units <= pow10(p.decimals as nat)
}

/// A fraction of one as a percentage: the same digits, the decimal point two
/// places to the right.
pub open spec fn as_percent(f: Percentage) -> Percentage {
    if f.decimals >= 2 {
        Percentage { units: f.units, decimals: (f.decimals - 2) as usize }
    } else if f.decimals == 1 {
        Percentage { units: (f.units * 10) as u64, decimals: 0 }
    } else {
        Percentage { units: (f.units * 100) as u64, decimals: 0 }
    }
}

/// The percentage that a text holds: the first number followed by a percent
/// sign, as it stands; or, where the text as a whole is a plain decimal
/// numeral between zero and one, that fraction as a percentage.
pub open spec fn extracted_percentage(text: Seq<char>, caps: Option<Seq<Option<Seq<char>>>>) -> Option<
    Percentage,
> {
    if caps is Some && group(caps->0, 1) is Some && decimal_of(group(caps->0, 1)->0) is Some {
        decimal_of(group(caps->0, 1)->0)
    } else if decimal_of(text) is Some && at_most_one(decimal_of(text)->0) {
        Some(as_percent(decimal_of(text)->0))
    } else {
        None
    }
}

/// A line in which the download pattern matches, with a plain decimal
/// numeral before the percent sign, is read as a download in progress at
/// the percentage that the numeral states. Where the digits of the numeral
/// fit 64 bits the percentage is the numeral exactly: its digits, with as
/// many of them after the decimal point as the numeral has. Where they do
/// not, the numeral is cut off after the last digit that fits.
pub proof fn download_line_yields_its_percentage(
    line: Seq<char>,
    groups: Seq<Option<Seq<char>>>,
    numeral: Seq<char>,
    percentage: Percentage,
)
    requires
        captures_of(DOWNLOAD_PATTERN@, line) == Some(groups),
        group(groups, 1) == Some(numeral),
        decimal_of(numeral) == Some(percentage),
        numeral.len() <= usize::MAX,
    ensures
        parsed_line(line) == Some(
            ProgressView {
                stage: DownloadStage::DownloadingAudio,
                percentage: Some(percentage),
                current_step: line,
                total_steps: None,
                current_step_index: None,
            },
        ),
        percentage.decimals <= fraction_part(numeral).len(),
        percentage.units == digits_value(
            whole_part(numeral) + fraction_part(numeral).take(percentage.decimals as int),
        ),
        digits_value(whole_part(numeral) + fraction_part(numeral)) <= u64::MAX ==> {
            &&& percentage.decimals == fraction_part(numeral).len()
            &&& percentage.units == digits_value(whole_part(numeral) + fraction_part(numeral))
        },
{
    let whole = whole_part(numeral);
    let fraction = fraction_part(numeral);
    crate::text::first_index_of_bounds(numeral, '.');
    crate::decimal::kept_decimals_bounds(whole, fraction, 0);
    assert(whole + fraction.take(0) =~= whole);
    crate::decimal::kept_decimals_fit(whole, fraction, 0);
    let k = crate::decimal::kept_decimals(whole, fraction, 0);
    assert((whole + fraction).take(whole.len() + k) =~= whole + fraction.take(k));
    crate::decimal::digits_value_grows(whole + fraction, whole.len() + k);
    if digits_value(whole + fraction) <= u64::MAX {
        crate::decimal::all_decimals_kept_where_they_fit(whole, fraction, 0);
        assert(fraction.take(fraction.len() as int) =~= fraction);
    }
}

/// A line with a step counter `X` of `Y`, `Y` above zero, that is not a
/// download line, is read with `X` and `Y` as its step and its total, and
/// with the percentage `100 * X / Y` rounded to two decimals: a number of
/// hundredths that is within half a hundredth of the quotient, the half
/// rounded upwards.
pub proof fn step_line_yields_rounded_ratio(
    line: Seq<char>,
    groups: Seq<Option<Seq<char>>>,
    current: Seq<char>,
    total: Seq<char>,
    x: u32,
    y: u32,
)
    requires
        download_progress(line, captures_of(DOWNLOAD_PATTERN@, line)) is None,
        captures_of(STEP_PATTERN@, line) == Some(groups),
        step_numerals(groups) == Some((current, total)),
        parsed_u32(current) == Some(x),
        parsed_u32(total) == Some(y),
        y > 0,
    ensures
        parsed_line(line) is Some,
        parsed_line(line)->0.current_step_index == Some(x),
        parsed_line(line)->0.total_steps == Some(y),
        parsed_line(line)->0.current_step == line,
        parsed_line(line)->0.percentage is Some,
        parsed_line(line)->0.percentage->0.decimals == 2,
        2 * y * parsed_line(line)->0.percentage->0.units <= 20000 * x + y,
        20000 * x + y < 2 * y * (parsed_line(line)->0.percentage->0.units + 1),
{
    let n: int = 20000 * x as int + y as int;
    let d: int = 2 * y as int;
    let q: int = n / d;
    assert(0 <= q && d * q <= n && n < d * (q + 1)) by (nonlinear_arith)
        requires
            q == n / d,
            d > 0,
            n >= 0,
    ;
    assert(q <= n) by (nonlinear_arith)
        requires
            d * q <= n,
            d >= 1,
            q >= 0,
    ;
    assert(step_percentage(x, y) == Some(Percentage { units: q as u64, decimals: 2 }));
    assert(2 * y * (q as u64) == d * q) by (nonlinear_arith)
        requires
            d == 2 * y,
            0 <= q <= 0xffff_ffff_ffff_ffff,
    ;
    assert(2 * y * ((q as u64) + 1) == d * (q + 1)) by (nonlinear_arith)
        requires
            d == 2 * y,
            0 <= q <= 0xffff_ffff_ffff_ffff,
    ;
}

/// Parsing has no memory: two snapshots read from the same line are equal.
pub proof fn parsing_is_repeatable(line: Seq<char>, first: Option<Progress>, second: Option<Progress>)
    requires
        opt_progress(first) == parsed_output(line),
        opt_progress(second) == parsed_output(line),
    ensures
        opt_progress(first) == opt_progress(second),
{
}

/// A sanitized line is parsed as it stands: the trimming that parsing
/// begins with finds nothing to take off. Sanitizing it again trims nothing
/// either.
pub proof fn sanitized_line_is_parsed_as_it_stands(line: Seq<char>)
    ensures
        parsed_output(sanitized(line)) == parsed_line(sanitized(line)),
        trimmed(sanitized(line)) == sanitized(line),
{
    match replaced_all(ANSI_PATTERN@, line, ""@) {
        Some(stripped) => {
            crate::text::trimming_is_idempotent(stripped);
        },
        None => {
            crate::text::trimming_is_idempotent(line);
        },
    }
}

proof fn pow10_values()
    ensures
        pow10(0) == 1,
        pow10(1) == 10,
        pow10(19) == 10000000000000000000,
        pow10(20) == 100000000000000000000,
{
    reveal_with_fuel(pow10, 21);
}

proof fn pow10_grows(a: nat, b: nat)
    requires
        a <= b,
    ensures
        pow10(a) <= pow10(b),
        pow10(a) >= 1,
    decreases b,
{
    if a < b {
        pow10_grows(a, (b - 1) as nat);
    } else if a > 0 {
        pow10_grows((a - 1) as nat, (a - 1) as nat);
    }
}

/// Ten to the power of `n`, for `n` up to 19.
fn power_of_ten(n: usize) -> (r: u64)
    requires
        n <= 19,
    ensures
        r == pow10(n as nat),
{
    let mut r: u64 = 1;
    let mut i: usize = 0;
    proof {
        pow10_values();
    }
    while i < n
        invariant
            i <= n <= 19,
            r == pow10(i as nat),
            r <= pow10(19),
        decreases n - i,
    {
        proof {
            pow10_values();
            pow10_grows((i + 1) as nat, 19);
        }
        r = r * 10;
        i += 1;
    }
    r
}

fn is_at_most_one(p: Percentage) -> (r: bool)
    ensures
        r == at_most_one(p),
{
    if p.decimals > 19 {
        proof {
            pow10_values();
            pow10_grows(20, p.decimals as nat);
        }
        true
    } else {
        p.units <= power_of_ten(p.decimals)
    }
}

fn to_percent(f: Percentage) -> (r: Percentage)
    requires
        at_most_one(f),
    ensures
        r == as_percent(f),
{
    if f.decimals >= 2 {
        Percentage { units: f.units, decimals: f.decimals - 2 }
    } else if f.decimals == 1 {
        proof {
            pow10_values();
        }
        Percentage { units: f.units * 10, decimals: 0 }
    } else {
        proof {
            pow10_values();
        }
        Percentage { units: f.units * 100, decimals: 0 }
    }
}

/// Whether `word` occurs in `line`.
fn mentions(line: &[char], word: &str) -> (r: bool)
    ensures
        r == has_substring(line@, word@),
{
    let w = chars_of(word);
    contains(line, w.as_slice())
}

/// Whether `line` begins with `word`.
fn begins_with(line: &[char], word: &str) -> (r: bool)
    ensures
        r == has_prefix(line@, word@),
{
    let w = chars_of(word);
    starts_with(line, w.as_slice())
}

/// A snapshot that carries a stage and the line it was read from.
fn stage_snapshot(stage: DownloadStage, line: &str) -> (r: Progress)
    ensures
        r@ == stage_only(stage, line@),
{
    Progress {
        stage,
        percentage: None,
        current_step: line.to_owned(),
        total_steps: None,
        current_step_index: None,
    }
}

fn stage_from_lower(lower: &[char]) -> (r: DownloadStage)
    ensures
        r == inferred_stage(lower@),
{
    match stage_from_keyword(lower) {
        Some(stage) => stage,
        None => DownloadStage::DownloadingAudio,
    }
}

fn stage_from_phrase(line: &[char]) -> (r: Option<DownloadStage>)
    ensures
        r == indicated_stage(line@),
{
    if mentions(line, "Initializing") || mentions(line, "Starting") || mentions(line, "Setting up") {
        Some(DownloadStage::Initializing)
    } else if (mentions(line, "Fetching") && (mentions(line, "metadata") || mentions(line, "info"))) || mentions(
        line,
        "Getting video info",
    ) || mentions(line, "Extracting") {
        Some(DownloadStage::FetchingMetadata)
    } else if mentions(line, "[download]") && !mentions(line, "%") {
        Some(DownloadStage::DownloadingAudio)
    } else if mentions(line, "Remuxing") || mentions(line, "Processing") || mentions(line, "Converting") || mentions(
        line,
        "Merging",
    ) {
        Some(DownloadStage::Remuxing)
    } else if mentions(line, "Applying tags") || mentions(line, "Writing tags") || mentions(
        line,
        "Adding metadata",
    ) || mentions(line, "Tagging") || mentions(line, "Writing metadata") || mentions(line, "Adding cover") {
        Some(DownloadStage::ApplyingTags)
    } else if mentions(line, "Finalizing") || mentions(line, "Finishing") || mentions(line, "Completed") || mentions(
        line,
        "Done",
    ) || mentions(line, "completed") {
        Some(DownloadStage::Finalizing)
    } else {
        None
    }
}

fn stage_from_keyword(lower: &[char]) -> (r: Option<DownloadStage>)
    ensures
        r == keyword_stage(lower@),
{
    if mentions(lower, "init") || mentions(lower, "start") {
        Some(DownloadStage::Initializing)
    } else if mentions(lower, "fetch") || mentions(lower, "extract") || mentions(lower, "metadata") || mentions(
        lower,
        "info",
    ) {
        Some(DownloadStage::FetchingMetadata)
    } else if mentions(lower, "download") || mentions(lower, "audio") {
        Some(DownloadStage::DownloadingAudio)
    } else if mentions(lower, "remux") || mentions(lower, "process") || mentions(lower, "convert") {
        Some(DownloadStage::Remuxing)
    } else if mentions(lower, "tag") || mentions(lower, "metadata") {
        Some(DownloadStage::ApplyingTags)
    } else if mentions(lower, "final") || mentions(lower, "complete") || mentions(lower, "done") || mentions(
        lower,
        "finish",
    ) {
        Some(DownloadStage::Finalizing)
    } else {
        None
    }
}

impl ProgressParser {
    /// Parses one line of output: the line is trimmed and the four rules are
    /// tried in order.
    pub fn parse_output(output: &str) -> (r: Option<Progress>)
        ensures
            opt_progress(r) == parsed_output(output@),
    {
        let raw = chars_of(output);
        let line_chars = trim(raw.as_slice());
        let line_string = string_of(line_chars.as_slice());
        let line = line_string.as_str();
        match Self::parse_download_progress(line) {
            Some(p) => {
                return Some(p);
            },
            None => {},
        }
        match Self::parse_generic_progress(line) {
            Some(p) => {
                return Some(p);
            },
            None => {},
        }
        match Self::parse_stage_indicators(line) {
            Some(p) => {
                return Some(p);
            },
            None => {},
        }
        Self::parse_stage_from_keywords(line)
    }

    /// The first rule: a `[download]` line with a percentage.
    pub fn parse_download_progress(line: &str) -> (r: Option<Progress>)
        ensures
            opt_progress(r) == download_progress(line@, captures_of(DOWNLOAD_PATTERN@, line@)),
    {
        let caps = captures(DOWNLOAD_PATTERN, line);
        Self::download_progress_from(line, &caps)
    }

    /// What the first rule makes of a line, given what the download pattern
    /// matched in it.
    pub fn download_progress_from(line: &str, caps: &Option<Vec<Option<Vec<char>>>>) -> (r: Option<
        Progress,
    >)
        ensures
            opt_progress(r) == download_progress(line@, captures_view(*caps)),
    {
        match caps {
            Some(groups) => match group_chars(groups, 1) {
                Some(numeral) => match parse_decimal(numeral.as_slice()) {
                    Some(p) => Some(
                        Progress {
                            stage: DownloadStage::DownloadingAudio,
                            percentage: Some(p),
                            current_step: line.to_owned(),
                            total_steps: None,
                            current_step_index: None,
                        },
                    ),
                    None => None,
                },
                None => None,
            },
            None => None,
        }
    }

    /// The second rule: a step counter, `Step X of Y` or `[X/Y]`.
    pub fn parse_generic_progress(line: &str) -> (r: Option<Progress>)
        ensures
            opt_progress(r) == step_progress(
                line@,
                lowercase_of(line@),
                captures_of(STEP_PATTERN@, line@),
            ),
    {
        let caps = captures(STEP_PATTERN, line);
        Self::step_progress_from(line, &caps)
    }

    /// What the second rule makes of a line, given what the step pattern
    /// matched in it.
    pub fn step_progress_from(line: &str, caps: &Option<Vec<Option<Vec<char>>>>) -> (r: Option<
        Progress,
    >)
        ensures
            opt_progress(r) == step_progress(line@, lowercase_of(line@), captures_view(*caps)),
    {
        match caps {
            Some(groups) => {
                let first = match (group_chars(groups, 1), group_chars(groups, 2)) {
                    (Some(a), Some(b)) => Some((a, b)),
                    _ => None,
                };
                let numerals = match first {
                    Some(pair) => Some(pair),
                    None => match (group_chars(groups, 3), group_chars(groups, 4)) {
                        (Some(a), Some(b)) => Some((a, b)),
                        _ => None,
                    },
                };
                match numerals {
                    Some((current, total)) => {
                        match (parse_u32(current.as_slice()), parse_u32(total.as_slice())) {
                            (Some(x), Some(y)) => {
                                let percentage = Self::step_percentage(x, y);
                                let stage = Self::infer_stage_from_step_content(line);
                                Some(
                                    Progress {
                                        stage,
                                        percentage,
                                        current_step: line.to_owned(),
                                        total_steps: Some(y),
                                        current_step_index: Some(x),
                                    },
                                )
                            },
                            _ => None,
                        }
                    },
                    None => None,
                }
            },
            None => None,
        }
    }

    /// `100 * current / total`, rounded to two decimals.
    pub fn step_percentage(current: u32, total: u32) -> (r: Option<Percentage>)
        ensures
            r == step_percentage(current, total),
    {
        if total > 0 {
            let c: u64 = current as u64;
            let t: u64 = total as u64;
            Some(Percentage { units: (20000 * c + t) / (2 * t), decimals: 2 })
        } else {
            None
        }
    }

    /// The third rule: a phrase that names a stage.
    pub fn parse_stage_indicators(line: &str) -> (r: Option<Progress>)
        ensures
            opt_progress(r) == stage_progress(indicated_stage(line@), line@),
    {
        let chars = chars_of(line);
        match stage_from_phrase(chars.as_slice()) {
            Some(stage) => Some(stage_snapshot(stage, line)),
            None => None,
        }
    }

    /// The last rule: a keyword, in any case, that points to a stage.
    pub fn parse_stage_from_keywords(line: &str) -> (r: Option<Progress>)
        ensures
            opt_progress(r) == stage_progress(keyword_stage(lowercase_of(line@)), line@),
    {
        let lower = to_lowercase(line);
        let chars = chars_of(lower.as_str());
        match stage_from_keyword(chars.as_slice()) {
            Some(stage) => Some(stage_snapshot(stage, line)),
            None => None,
        }
    }

    /// The stage that the words of a step line point to.
    pub fn infer_stage_from_step_content(content: &str) -> (r: DownloadStage)
        ensures
            r == inferred_stage(lowercase_of(content@)),
    {
        let lower = to_lowercase(content);
        let chars = chars_of(lower.as_str());
        stage_from_lower(chars.as_slice())
    }

    /// The snapshot of a job that failed with the given line.
    pub fn parse_error(error_line: &str) -> (r: Progress)
        ensures
            r@ == stage_only(DownloadStage::Failed, "Error: "@ + error_line@),
    {
        Progress {
            stage: DownloadStage::Failed,
            percentage: None,
            current_step: concat("Error: ", error_line),
            total_steps: None,
            current_step_index: None,
        }
    }

    /// The snapshot of a job that has completed.
    pub fn create_completed_progress() -> (r: Progress)
        ensures
            r@ == (ProgressView {
                stage: DownloadStage::Completed,
                percentage: Some(Percentage { units: 100, decimals: 0 }),
                current_step: "Download completed successfully"@,
                total_steps: None,
                current_step_index: None,
            }),
    {
        Progress {
            stage: DownloadStage::Completed,
            percentage: Some(Percentage { units: 100, decimals: 0 }),
            current_step: "Download completed successfully".to_owned(),
            total_steps: None,
            current_step_index: None,
        }
    }

    /// The snapshot of a job whose worker has just started.
    pub fn create_initializing_progress() -> (r: Progress)
        ensures
            r@ == stage_only(DownloadStage::Initializing, "Initializing download..."@),
    {
        stage_snapshot(DownloadStage::Initializing, "Initializing download...")
    }

    /// The percentage that a text holds.
    pub fn extract_percentage(text: &str) -> (r: Option<Percentage>)
        ensures
            r == extracted_percentage(text@, captures_of(PERCENTAGE_PATTERN@, text@)),
    {
        let caps = captures(PERCENTAGE_PATTERN, text);
        Self::percentage_from(text, &caps)
    }

    /// The percentage that a text holds, given what the percentage pattern
    /// matched in it.
    pub fn percentage_from(text: &str, caps: &Option<Vec<Option<Vec<char>>>>) -> (r: Option<
        Percentage,
    >)
        ensures
            r == extracted_percentage(text@, captures_view(*caps)),
    {
        match caps {
            Some(groups) => match group_chars(groups, 1) {
                Some(numeral) => match parse_decimal(numeral.as_slice()) {
                    Some(p) => {
                        return Some(p);
                    },
                    None => {},
                },
                None => {},
            },
            None => {},
        }
        let chars = chars_of(text);
        match parse_decimal(chars.as_slice()) {
            Some(f) => {
                if is_at_most_one(f) {
                    Some(to_percent(f))
                } else {
                    None
                }
            },
            None => None,
        }
    }

    /// Whether a line reports an error.
    pub fn is_error_line(line: &str) -> (r: bool)
        ensures
            r == is_error_text(lowercase_of(line@)),
    {
        let lower = to_lowercase(line);
        let chars = chars_of(lower.as_str());
        let l = chars.as_slice();
        mentions(l, "error") || mentions(l, "failed") || mentions(l, "exception") || mentions(l, "traceback")
            || begins_with(l, "error:") || begins_with(l, "fatal:")
    }

    /// Whether a line reports that the download is complete.
    pub fn is_completion_line(line: &str) -> (r: bool)
        ensures
            r == is_completion_text(lowercase_of(line@)),
    {
        let lower = to_lowercase(line);
        let chars = chars_of(lower.as_str());
        let l = chars.as_slice();
        mentions(l, "download completed") || mentions(l, "successfully downloaded") || mentions(
            l,
            "finished downloading",
        ) || (mentions(l, "100%") && mentions(l, "download"))
    }

    /// Strips colour sequences and the white space around a line.
    pub fn sanitize_output(line: &str) -> (r: String)
        ensures
            r@ == sanitized(line@),
    {
        let stripped = replace_all(ANSI_PATTERN, line, "");
        let chars = match &stripped {
            Some(s) => chars_of(s.as_str()),
            None => chars_of(line),
        };
        let t = trim(chars.as_slice());
        string_of(t.as_slice())
    }
}

} // verus!
