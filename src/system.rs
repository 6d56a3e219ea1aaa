//! The system-load samplers' decisions: readings are clamped to
//! percentages, implausible temperatures are discarded, the GPU sources are
//! tried in turn, and a missing reading leaves its label as it was.
use vstd::prelude::*;

use crate::text::{
    dec_text, parse_i64, parsed_i64, push_decimal, push_signed_decimal, signed_dec_text, trim,
    trim_seq,
};

verus! {

/// Declares sysinfo's system handle, whose memory figures the sampler reads.
#[verifier::external_type_specification]
#[verifier::external_body]
pub struct ExSystem(sysinfo::System);

/// Relies on sysinfo's `System::total_memory`: the installed memory in bytes
/// as of the last refresh; nothing is known of its value.
pub assume_specification[ sysinfo::System::total_memory ](sys: &sysinfo::System) -> u64;

/// Relies on sysinfo's `System::used_memory`: the memory in use in bytes as
/// of the last refresh; nothing is known of its value.
pub assume_specification[ sysinfo::System::used_memory ](sys: &sysinfo::System) -> u64;

/// A thermal reading below this many millidegrees Celsius is discarded.
pub const TEMP_MAX_MILLI: i64 = 150000;

/// Millidegrees in a degree.
pub const MILLI_PER_DEGREE: i64 = 1000;

/// `raw` clamped to 0..=100.
pub open spec fn clamp_percent_spec(raw: int) -> int {
    if raw < 0 {
        0
    } else if raw > 100 {
        100
    } else {
        raw
    }
}

/// The share of used memory in whole percent, rounded down and capped at
/// 100; 0 when the total is unknown.
pub open spec fn memory_percent_spec(used: nat, total: nat) -> nat {
    if total == 0 {
        0
    } else if 100 * used / total > 100 {
        100
    } else {
        100 * used / total
    }
}

/// A thermal reading, in millidegrees, above 0 and below 150 degrees.
pub open spec fn plausible(m: int) -> bool {
    0 < m < TEMP_MAX_MILLI
}

/// Whether `m` is the highest plausible reading among `rs`.
pub open spec fn is_hottest(rs: Seq<i64>, m: i64) -> bool {
    &&& plausible(m as int)
    &&& rs.contains(m)
    &&& forall|i: int| 0 <= i < rs.len() && plausible(rs[i] as int) ==> #[trigger] rs[i] <= m
}

/// Degrees from millidegrees, rounded to the nearest whole degree, a tie
/// going to the even one.
pub open spec fn rounded_degrees(m: int) -> int {
    let q = m / 1000;
    let r = m % 1000;
    if r > 500 || (r == 500 && q % 2 == 1) {
        q + 1
    } else {
        q
    }
}

/// The GPU load: the first source's reading when it has one, else the
/// second source's, capped at 100.
pub open spec fn gpu_spec(first: Option<i32>, second: Option<i32>) -> Option<i32> {
    match first {
        Some(u) => Some(u),
        None => match second {
            Some(u) => Some(if u > 100 {
                100i32
            } else {
                u
            }),
            None => None,
        },
    }
}

/// A label made of a prefix, a value and a suffix.
pub open spec fn labelled(prefix: Seq<char>, value: Seq<char>, suffix: Seq<char>) -> Seq<char> {
    prefix + value + suffix
}

pub open spec fn cpu_prefix() -> Seq<char> {
    seq!['C', 'P', 'U', ':', ' ']
}

pub open spec fn mem_prefix() -> Seq<char> {
    seq!['M', 'E', 'M', ':', ' ']
}

pub open spec fn temp_prefix() -> Seq<char> {
    seq!['T', 'E', 'M', 'P', ':', ' ']
}

pub open spec fn gpu_prefix() -> Seq<char> {
    seq!['G', 'P', 'U', ':', ' ']
}

pub open spec fn percent_suffix() -> Seq<char> {
    seq!['%']
}

pub open spec fn degree_suffix() -> Seq<char> {
    seq!['\u{b0}', 'C']
}

/// The value shown before any reading has come.
pub open spec fn unknown_value() -> Seq<char> {
    seq!['-', '-']
}

/// The position of the first line break in `s` from `i` on, or the length
/// of `s` when there is none.
pub open spec fn line_end_from(s: Seq<char>, i: nat) -> nat
    decreases s.len() - i,
{
    if i >= s.len() {
        s.len()
    } else if s[i as int] == '\n' {
        i
    } else {
        line_end_from(s, i + 1)
    }
}

/// The first line of `s`, without its line break.
pub open spec fn first_line(s: Seq<char>) -> Seq<char> {
    s.subrange(0, line_end_from(s, 0) as int)
}

/// A parsed value, kept when it fits in an `i32`.
pub open spec fn fit_i32(v: Option<i64>) -> Option<i32> {
    match v {
        Some(x) => if i32::MIN <= x <= i32::MAX {
            Some(x as i32)
        } else {
            None
        },
        None => None,
    }
}

/// The integer a one-value sysfs file holds, surrounding white space
/// ignored; none when the text is not an integer.
pub fn parse_reading(text: &str) -> (r: Option<i64>)
    ensures
        r == parsed_i64(trim_seq(text@)),
{
    parse_i64(trim(text))
}

/// A GPU busy percentage from a one-value sysfs file; none when the text
/// is not an integer that fits in an `i32`.
pub fn parse_busy_percent(text: &str) -> (r: Option<i32>)
    ensures
        r == fit_i32(parsed_i64(trim_seq(text@))),
{
    match parse_reading(text) {
        Some(v) => if i32::MIN as i64 <= v && v <= i32::MAX as i64 {
            Some(v as i32)
        } else {
            None
        },
        None => None,
    }
}

/// The GPU utilisation from the output of a query that prints one value
/// per line: the first line of the trimmed output, read as an integer.
pub fn parse_gpu_query_output(out: &str) -> (r: Option<i32>)
    ensures
        r == fit_i32(parsed_i64(first_line(trim_seq(out@)))),
{
    let t = trim(out);
    let len = t.unicode_len();
    let mut i: usize = 0;
    while i < len && t.get_char(i) != '\n'
        invariant
            i <= len,
            len == t@.len(),
            line_end_from(t@, 0) == line_end_from(t@, i as nat),
        decreases len - i,
    {
        i += 1;
    }
    let line = t.substring_char(0, i);
    match parse_i64(line) {
        Some(v) => if i32::MIN as i64 <= v && v <= i32::MAX as i64 {
            Some(v as i32)
        } else {
            None
        },
        None => None,
    }
}

/// `raw` clamped to 0..=100.
pub fn clamp_percent(raw: i32) -> (r: i32)
    ensures
        r == clamp_percent_spec(raw as int),
{
    if raw < 0 {
        0
    } else if raw > 100 {
        100
    } else {
        raw
    }
}

/// The share of used memory in whole percent, rounded down and capped at
/// 100; 0 when the total is 0.
pub fn memory_percent(used: u64, total: u64) -> (r: u64)
    ensures
        r == memory_percent_spec(used as nat, total as nat),
        r <= 100,
{
    if total == 0 {
        return 0;
    }
    let p = 100 * (used as u128) / (total as u128);
    if p > 100 {
        100
    } else {
        p as u64
    }
}

/// The memory in use on `sys`, in whole percent.
pub fn system_memory_percent(sys: &sysinfo::System) -> (r: u64)
    ensures
        r <= 100,
{
    let total = sys.total_memory();
    let used = sys.used_memory();
    memory_percent(used, total)
}

/// The highest plausible reading among thermal readings in millidegrees,
/// or none when no reading is plausible.
pub fn hottest_plausible(readings: &Vec<i64>) -> (r: Option<i64>)
    ensures
        r matches Some(m) ==> is_hottest(readings@, m),
        r is None ==> forall|i: int| 0 <= i < readings@.len() ==> !plausible(#[trigger] readings@[i] as int),
{
    let mut best: Option<i64> = None;
    let mut i: usize = 0;
    while i < readings.len()
        invariant
            i <= readings.len(),
            best matches Some(m) ==> plausible(m as int) && readings@.subrange(0, i as int).contains(m)
                && forall|j: int| 0 <= j < i && plausible(readings@[j] as int) ==> #[trigger] readings@[j] <= m,
            best is None ==> forall|j: int| 0 <= j < i ==> !plausible(#[trigger] readings@[j] as int),
        decreases readings.len() - i,
    {
        let m = readings[i];
        proof {
            if best is Some {
                let b = best->Some_0;
                let k = choose|k: int| 0 <= k < i && readings@.subrange(0, i as int)[k] == b;
                assert(readings@.subrange(0, i + 1)[k] == b);
            }
            assert(readings@.subrange(0, i + 1)[i as int] == m);
        }
        if 0 < m && m < TEMP_MAX_MILLI {
            best = match best {
                Some(b) => if m > b {
                    Some(m)
                } else {
                    Some(b)
                },
                None => Some(m),
            };
        }
        i += 1;
    }
    proof {
        assert(readings@.subrange(0, i as int) =~= readings@);
    }
    best
}

/// Degrees from a positive reading in millidegrees, rounded to the nearest
/// whole degree, a tie going to the even one.
pub fn degrees_from_milli(m: i64) -> (r: i64)
    requires
        m >= 0,
    ensures
        r == rounded_degrees(m as int),
{
    let q = m / MILLI_PER_DEGREE;
    let rem = m % MILLI_PER_DEGREE;
    if rem > 500 || (rem == 500 && q % 2 == 1) {
        q + 1
    } else {
        q
    }
}

/// The GPU load: the first source's reading when it has one, else the
/// second source's, capped at 100; none when neither has one.
pub fn gpu_reading(first: Option<i32>, second: Option<i32>) -> (r: Option<i32>)
    ensures
        r == gpu_spec(first, second),
{
    match first {
        Some(u) => Some(u),
        None => match second {
            Some(u) => Some(
                if u > 100 {
                    100
                } else {
                    u
                },
            ),
            None => None,
        },
    }
}

/// One reading of the system's load, as the sampler took it.
#[derive(Debug, Clone, PartialEq, Eq)]
pub struct StatsSample {
    /// Global CPU usage in whole percent.
    pub cpu: i32,
    /// Memory in use in whole percent.
    pub memory: u64,
    /// Every thermal zone's reading, in millidegrees Celsius.
    pub temperatures: Vec<i64>,
    /// The first GPU source's load, when it answered.
    pub gpu_primary: Option<i32>,
    /// The second GPU source's load, when it answered.
    pub gpu_fallback: Option<i32>,
}

/// The four labels of the system-load widget.
#[derive(Debug, Clone, PartialEq, Eq)]
pub struct StatsLabels {
    pub cpu: String,
    pub mem: String,
    pub temp: String,
    pub gpu: String,
}

/// A percentage label.
fn percent_label(prefix: &str, value: i64) -> (r: String)
    ensures
        r@ == labelled(prefix@, signed_dec_text(value as int), percent_suffix()),
{
    let mut s = String::from_str(prefix);
    push_signed_decimal(&mut s, value);
    s.append("%");
    proof { reveal_strlit("%"); }
    assert(s@ =~= labelled(prefix@, signed_dec_text(value as int), percent_suffix()));
    s
}

impl StatsLabels {
    /// The labels before any reading has come: `CPU: --%` and so on.
    pub fn new() -> (r: StatsLabels)
        ensures
            r.cpu@ == labelled(cpu_prefix(), unknown_value(), percent_suffix()),
            r.mem@ == labelled(mem_prefix(), unknown_value(), percent_suffix()),
            r.temp@ == labelled(temp_prefix(), unknown_value(), degree_suffix()),
            r.gpu@ == labelled(gpu_prefix(), unknown_value(), percent_suffix()),
    {
        proof {
            reveal_strlit("CPU: --%");
            reveal_strlit("MEM: --%");
            reveal_strlit("TEMP: --\u{b0}C");
            reveal_strlit("GPU: --%");
        }
        let r = StatsLabels {
            cpu: String::from_str("CPU: --%"),
            mem: String::from_str("MEM: --%"),
            temp: String::from_str("TEMP: --\u{b0}C"),
            gpu: String::from_str("GPU: --%"),
        };
        assert(r.cpu@ =~= labelled(cpu_prefix(), unknown_value(), percent_suffix()));
        assert(r.mem@ =~= labelled(mem_prefix(), unknown_value(), percent_suffix()));
        assert(r.temp@ =~= labelled(temp_prefix(), unknown_value(), degree_suffix()));
        assert(r.gpu@ =~= labelled(gpu_prefix(), unknown_value(), percent_suffix()));
        r
    }

    /// Shows a new sample. CPU and memory are clamped to percentages; the
    /// temperature shows the hottest plausible zone and the GPU the first
    /// source that answered. A reading that is missing leaves its label as
    /// it was.
    pub fn update(&mut self, sample: &StatsSample)
        ensures
            final(self).cpu@ == labelled(
                cpu_prefix(),
                dec_text(clamp_percent_spec(sample.cpu as int) as nat),
                percent_suffix(),
            ),
            final(self).mem@ == labelled(
                mem_prefix(),
                dec_text(clamp_percent_spec(sample.memory as int) as nat),
                percent_suffix(),
            ),
            (exists|m: i64| is_hottest(sample.temperatures@, m)) ==> exists|m: i64|
                is_hottest(sample.temperatures@, m) && final(self).temp@ == labelled(
                    temp_prefix(),
                    dec_text(rounded_degrees(m as int) as nat),
                    degree_suffix(),
                ),
            !(exists|m: i64| is_hottest(sample.temperatures@, m)) ==> final(self).temp == old(
                self,
            ).temp,
            gpu_spec(sample.gpu_primary, sample.gpu_fallback) matches Some(u) ==> final(self).gpu@
                == labelled(gpu_prefix(), signed_dec_text(u as int), percent_suffix()),
            gpu_spec(sample.gpu_primary, sample.gpu_fallback) is None ==> final(self).gpu == old(
                self,
            ).gpu,
    {
        proof {
            reveal_strlit("CPU: ");
            reveal_strlit("MEM: ");
            reveal_strlit("TEMP: ");
            reveal_strlit("GPU: ");
        }
        let cpu = clamp_percent(sample.cpu);
        self.cpu = percent_label("CPU: ", cpu as i64);
        let mem = if sample.memory > 100 {
            100
        } else {
            sample.memory
        };
        self.mem = percent_label("MEM: ", mem as i64);
        match hottest_plausible(&sample.temperatures) {
            Some(m) => {
                let mut t = String::from_str("TEMP: ");
                push_decimal(&mut t, degrees_from_milli(m) as u64);
                t.append("\u{b0}C");
                proof { reveal_strlit("\u{b0}C"); }
                assert(t@ =~= labelled(
                    temp_prefix(),
                    dec_text(rounded_degrees(m as int) as nat),
                    degree_suffix(),
                ));
                self.temp = t;
            },
            None => {
                proof {
                    if exists|m: i64| is_hottest(sample.temperatures@, m) {
                        let m = choose|m: i64| is_hottest(sample.temperatures@, m);
                        let k = choose|k: int|
                            0 <= k < sample.temperatures@.len() && sample.temperatures@[k] == m;
                        assert(!plausible(sample.temperatures@[k] as int));
                    }
                }
            },
        }
        match gpu_reading(sample.gpu_primary, sample.gpu_fallback) {
            Some(u) => {
                self.gpu = percent_label("GPU: ", u as i64);
            },
            None => {},
        }
    }
}

} // verus!
