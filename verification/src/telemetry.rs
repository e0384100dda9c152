//! Hardware telemetry snapshots.
//!
//! An external probe samples the machine and hands the library plain
//! integer readings; this module assembles them into a `PcStatus`
//! snapshot, substituting the documented defaults where a sensor gave
//! nothing, and aggregates per-component CPU temperatures.

use crate::session::GameSession;
use vstd::prelude::*;

verus! {

/// Largest clock reading the model admits, in MHz.
pub const CLOCK_MHZ_MAX: u64 = 1_000_000;

/// Largest temperature reading the model admits, in degrees Celsius.
pub const TEMP_C_MAX: u64 = 1_000;

/// Largest RAM size the model admits, in bytes (one pebibyte).
pub const RAM_BYTES_MAX: u64 = 1_125_899_906_842_624;

/// Largest disk headroom the model admits, in bytes (eight pebibytes).
pub const SSD_BYTES_MAX: u64 = 9_007_199_254_740_992;

/// CPU frequency assumed when measurement finds no reading, in MHz.
pub const FALLBACK_CPU_MHZ: u64 = 3_000;

/// GPU clock assumed when the probe fails at measurement time, in MHz.
pub const FALLBACK_GPU_MHZ: u64 = 1_500;

/// Raw telemetry captured from the PC hardware.  Clocks are in MHz,
/// usages in whole percent, temperatures in whole degrees Celsius,
/// memory and disk sizes in bytes.
#[derive(Clone, Debug)]
pub struct PcStatus {
    pub total_memory: u64,
    pub used_memory: u64,
    pub cpu_usage: u64,
    pub cpu_frequency: u64,
    pub gpu_usage: u64,
    pub gpu_temp: u64,
    pub gpu_clock: u64,
    pub cpu_temp: u64,
    pub sensor_error: bool,
    pub cpu_name: String,
    pub gpu_name: String,
    pub ssd_available: u64,
}

impl PcStatus {
    /// Ranges every snapshot holds to.
    pub open spec fn wf(self) -> bool {
        &&& self.cpu_usage <= 100
        &&& self.gpu_usage <= 200
        &&& self.cpu_frequency <= CLOCK_MHZ_MAX
        &&& self.gpu_clock <= CLOCK_MHZ_MAX
        &&& self.cpu_temp <= TEMP_C_MAX
        &&& self.gpu_temp <= TEMP_C_MAX
        &&& self.used_memory <= self.total_memory
        &&& self.total_memory <= RAM_BYTES_MAX
        &&& self.ssd_available <= SSD_BYTES_MAX
    }
}

/// One temperature sensor as the probe reports it: its label and its
/// reading in whole degrees Celsius, where it gave one.
#[derive(Clone, Debug)]
pub struct ComponentReading {
    pub label: Vec<u8>,
    pub temperature: Option<u64>,
}

impl ComponentReading {
    pub open spec fn wf(self) -> bool {
        self.temperature matches Some(t) ==> t <= TEMP_C_MAX
    }
}

/// ASCII upper-case letters folded to lower case; all else kept.
pub open spec fn to_ascii_lower(b: u8) -> u8 {
    if 65 <= b <= 90 {
        (b + 32) as u8
    } else {
        b
    }
}

pub open spec fn lower_seq(s: Seq<u8>) -> Seq<u8> {
    s.map_values(|b: u8| to_ascii_lower(b))
}

/// The needle occurs in the haystack starting at position `i`.
pub open spec fn seq_contains_at(hay: Seq<u8>, needle: Seq<u8>, i: int) -> bool {
    0 <= i && i + needle.len() <= hay.len() && hay.subrange(i, i + needle.len()) == needle
}

/// The needle occurs somewhere in the haystack.
pub open spec fn seq_contains(hay: Seq<u8>, needle: Seq<u8>) -> bool {
    exists|i: int| seq_contains_at(hay, needle, i)
}

/// A sensor label that belongs to the CPU: it mentions "cpu" (bytes
/// 99, 112, 117), "core" (99, 111, 114, 101) or "package" (112, 97,
/// 99, 107, 97, 103, 101), in any letter case.
pub open spec fn spec_is_cpu_label(label: Seq<u8>) -> bool {
    ||| seq_contains(lower_seq(label), seq![99u8, 112u8, 117u8])
    ||| seq_contains(lower_seq(label), seq![99u8, 111u8, 114u8, 101u8])
    ||| seq_contains(lower_seq(label), seq![112u8, 97u8, 99u8, 107u8, 97u8, 103u8, 101u8])
}

fn matches_at(hay: &[u8], needle: &[u8], i: usize) -> (r: bool)
    requires
        i + needle@.len() <= hay@.len(),
    ensures
        r == seq_contains_at(hay@, needle@, i as int),
{
    let n = needle.len();
    let hlen = hay.len();
    let mut k: usize = 0;
    while k < n
        invariant
            i + n <= hay@.len(),
            hlen == hay@.len(),
            n == needle@.len(),
            k <= n,
            forall|t: int| 0 <= t < k ==> hay@[i + t] == needle@[t],
        decreases n - k,
    {
        if hay[i + k] != needle[k] {
            proof {
                assert(hay@.subrange(i as int, i as int + needle@.len()) != needle@) by {
                    assert(hay@.subrange(i as int, i as int + needle@.len())[k as int] == hay@[i
                        + k]);
                }
            }
            return false;
        }
        k += 1;
    }
    proof {
        assert(hay@.subrange(i as int, i as int + needle@.len()) =~= needle@);
    }
    true
}

/// Naive substring search over bytes.
pub fn contains_subslice(hay: &[u8], needle: &[u8]) -> (r: bool)
    ensures
        r == seq_contains(hay@, needle@),
{
    let n = needle.len();
    let h = hay.len();
    if n > h {
        proof {
            assert(forall|i: int| !seq_contains_at(hay@, needle@, i));
        }
        return false;
    }
    if n == 0 {
        proof {
            assert(hay@.subrange(0, 0) =~= needle@);
            assert(seq_contains_at(hay@, needle@, 0));
        }
        return true;
    }
    let mut i: usize = 0;
    while i <= h - n
        invariant
            1 <= n <= h,
            h == hay@.len(),
            n == needle@.len(),
            i <= h - n + 1,
            forall|j: int| 0 <= j < i ==> !seq_contains_at(hay@, needle@, j),
        decreases h - n + 1 - i,
    {
        if matches_at(hay, needle, i) {
            proof {
                assert(seq_contains_at(hay@, needle@, i as int));
            }
            return true;
        }
        i += 1;
    }
    proof {
        assert(forall|j: int| j > h - n ==> !seq_contains_at(hay@, needle@, j));
    }
    false
}

/// Fold a byte string to ASCII lower case.
pub fn to_lower_bytes(s: &[u8]) -> (r: Vec<u8>)
    ensures
        r@ == lower_seq(s@),
{
    let mut r: Vec<u8> = Vec::new();
    let mut i: usize = 0;
    while i < s.len()
        invariant
            i <= s@.len(),
            r@.len() == i,
            forall|j: int| 0 <= j < i ==> r@[j] == to_ascii_lower(s@[j]),
        decreases s@.len() - i,
    {
        let b = s[i];
        if 65 <= b && b <= 90 {
            r.push(b + 32);
        } else {
            r.push(b);
        }
        i += 1;
    }
    proof {
        assert(r@ =~= lower_seq(s@));
    }
    r
}

/// Decide whether a sensor label belongs to the CPU.
pub fn is_cpu_component_label(label: &[u8]) -> (r: bool)
    ensures
        r == spec_is_cpu_label(label@),
{
    let lowered = to_lower_bytes(label);
    let cpu: Vec<u8> = vec![99u8, 112u8, 117u8];
    let core: Vec<u8> = vec![99u8, 111u8, 114u8, 101u8];
    let package: Vec<u8> = vec![112u8, 97u8, 99u8, 107u8, 97u8, 103u8, 101u8];
    proof {
        assert(cpu@ =~= seq![99u8, 112u8, 117u8]);
        assert(core@ =~= seq![99u8, 111u8, 114u8, 101u8]);
        assert(package@ =~= seq![112u8, 97u8, 99u8, 107u8, 97u8, 103u8, 101u8]);
    }
    contains_subslice(lowered.as_slice(), cpu.as_slice()) || contains_subslice(
        lowered.as_slice(),
        core.as_slice(),
    ) || contains_subslice(lowered.as_slice(), package.as_slice())
}

/// What one reading adds to the CPU temperature sum: its value where
/// it is a warm reading on a CPU sensor, nothing otherwise.
pub open spec fn spec_reading_value(r: ComponentReading) -> int {
    match r.temperature {
        Some(t) => if t > 0 && spec_is_cpu_label(r.label@) {
            t as int
        } else {
            0
        },
        None => 0,
    }
}

/// Whether one reading counts toward the CPU temperature average.
pub open spec fn spec_reading_counted(r: ComponentReading) -> bool {
    match r.temperature {
        Some(t) => t > 0 && spec_is_cpu_label(r.label@),
        None => false,
    }
}

pub open spec fn spec_temp_sum(rs: Seq<ComponentReading>) -> int
    decreases rs.len(),
{
    if rs.len() == 0 {
        0
    } else {
        spec_temp_sum(rs.drop_last()) + spec_reading_value(rs.last())
    }
}

pub open spec fn spec_temp_count(rs: Seq<ComponentReading>) -> int
    decreases rs.len(),
{
    if rs.len() == 0 {
        0
    } else {
        spec_temp_count(rs.drop_last()) + (if spec_reading_counted(rs.last()) {
            1int
        } else {
            0int
        })
    }
}

/// The averaged CPU temperature: the mean of the counted readings,
/// zero where none was found.
pub open spec fn spec_cpu_temp_avg(rs: Seq<ComponentReading>) -> int {
    if spec_temp_count(rs) > 0 {
        spec_temp_sum(rs) / spec_temp_count(rs)
    } else {
        0
    }
}

proof fn lemma_temp_stats_bounds(rs: Seq<ComponentReading>)
    requires
        forall|i: int| 0 <= i < rs.len() ==> (#[trigger] rs[i]).wf(),
    ensures
        0 <= spec_temp_count(rs) <= rs.len(),
        0 <= spec_temp_sum(rs) <= spec_temp_count(rs) * (TEMP_C_MAX as int),
    decreases rs.len(),
{
    if rs.len() > 0 {
        assert(forall|i: int|
            0 <= i < rs.drop_last().len() ==> (#[trigger] rs.drop_last()[i]).wf());
        lemma_temp_stats_bounds(rs.drop_last());
        assert(rs.last().wf());
        let c0 = spec_temp_count(rs.drop_last());
        let c1 = spec_temp_count(rs);
        assert(c0 * (TEMP_C_MAX as int) + (TEMP_C_MAX as int) == (c0 + 1) * (TEMP_C_MAX as int))
            by (nonlinear_arith);
        vstd::arithmetic::mul::lemma_mul_inequality(c0, c1, TEMP_C_MAX as int);
    }
}

/// Sum and count of the warm CPU sensor readings.
pub fn cpu_temp_stats(readings: &Vec<ComponentReading>) -> (r: (u64, u64))
    requires
        readings@.len() <= 100_000,
        forall|i: int| 0 <= i < readings@.len() ==> (#[trigger] readings@[i]).wf(),
    ensures
        r.0 as int == spec_temp_sum(readings@),
        r.1 as int == spec_temp_count(readings@),
{
    let mut sum: u64 = 0;
    let mut count: u64 = 0;
    let mut i: usize = 0;
    while i < readings.len()
        invariant
            i <= readings@.len(),
            readings@.len() <= 100_000,
            forall|k: int| 0 <= k < readings@.len() ==> (#[trigger] readings@[k]).wf(),
            sum as int == spec_temp_sum(readings@.subrange(0, i as int)),
            count as int == spec_temp_count(readings@.subrange(0, i as int)),
            count <= i,
            sum <= count * TEMP_C_MAX,
        decreases readings@.len() - i,
    {
        let ghost pre = readings@.subrange(0, i as int);
        let reading = &readings[i];
        let counted: bool = match reading.temperature {
            Some(t) => t > 0 && is_cpu_component_label(reading.label.as_slice()),
            None => false,
        };
        proof {
            assert(readings@.subrange(0, i + 1).drop_last() =~= pre);
            assert(readings@.subrange(0, i + 1).last() == readings@[i as int]);
            if counted {
                assert((count as int) * (TEMP_C_MAX as int) + (TEMP_C_MAX as int) == (count as int
                    + 1) * (TEMP_C_MAX as int)) by (nonlinear_arith);
            }
        }
        if counted {
            let t = match reading.temperature {
                Some(t) => t,
                None => 0,
            };
            sum = sum + t;
            count = count + 1;
        }
        i += 1;
    }
    proof {
        assert(readings@.subrange(0, readings@.len() as int) =~= readings@);
    }
    (sum, count)
}

/// The averaged CPU temperature, and whether any sensor was found.
pub fn average_cpu_temp(readings: &Vec<ComponentReading>) -> (r: (u64, bool))
    requires
        readings@.len() <= 100_000,
        forall|i: int| 0 <= i < readings@.len() ==> (#[trigger] readings@[i]).wf(),
    ensures
        r.0 as int == spec_cpu_temp_avg(readings@),
        r.1 == (spec_temp_count(readings@) > 0),
        r.0 <= TEMP_C_MAX,
        0 <= spec_temp_count(readings@),
{
    let (sum, count) = cpu_temp_stats(readings);
    proof {
        lemma_temp_stats_bounds(readings@);
    }
    if count > 0 {
        let avg = sum / count;
        proof {
            vstd::arithmetic::div_mod::lemma_div_is_ordered(
                sum as int,
                (count as int) * (TEMP_C_MAX as int),
                count as int,
            );
            vstd::arithmetic::mul::lemma_mul_is_commutative(count as int, TEMP_C_MAX as int);
            vstd::arithmetic::div_mod::lemma_div_by_multiple(TEMP_C_MAX as int, count as int);
        }
        (avg, true)
    } else {
        (0, false)
    }
}

/// Assemble the one-time measurement snapshot, substituting the
/// documented defaults where a probe gave nothing: the fallback CPU
/// clock, the fallback GPU clock, a zero GPU temperature, and a GPU
/// load estimated from the CPU load.
pub fn measure_pc_status(
    readings: &Vec<ComponentReading>,
    cpu_name: String,
    gpu_name: String,
    cpu_frequency: Option<u64>,
    cpu_usage: u64,
    total_memory: u64,
    used_memory: u64,
    gpu_probe: Option<(u64, u64)>,
    ssd_available: u64,
) -> (st: PcStatus)
    requires
        readings@.len() <= 100_000,
        forall|i: int| 0 <= i < readings@.len() ==> (#[trigger] readings@[i]).wf(),
        cpu_usage <= 100,
        cpu_frequency matches Some(f) ==> f <= CLOCK_MHZ_MAX,
        used_memory <= total_memory <= RAM_BYTES_MAX,
        ssd_available <= SSD_BYTES_MAX,
        gpu_probe matches Some(p) ==> p.0 <= TEMP_C_MAX && p.1 <= CLOCK_MHZ_MAX,
    ensures
        st.cpu_temp as int == spec_cpu_temp_avg(readings@),
        st.cpu_frequency == (match cpu_frequency {
            Some(f) => f,
            None => FALLBACK_CPU_MHZ,
        }),
        st.cpu_usage == cpu_usage,
        st.gpu_usage == cpu_usage * 11 / 10,
        st.gpu_temp == (match gpu_probe {
            Some(p) => p.0,
            None => 0,
        }),
        st.gpu_clock == (match gpu_probe {
            Some(p) => p.1,
            None => FALLBACK_GPU_MHZ,
        }),
        st.total_memory == total_memory,
        st.used_memory == used_memory,
        st.ssd_available == ssd_available,
        st.sensor_error == (spec_temp_count(readings@) == 0 && st.gpu_temp == 0),
        st.cpu_name == cpu_name,
        st.gpu_name == gpu_name,
        st.wf(),
{
    let (cpu_temp, found_cpu_temp) = average_cpu_temp(readings);
    let (gpu_temp, gpu_clock) = match gpu_probe {
        Some(p) => (p.0, p.1),
        None => (0, FALLBACK_GPU_MHZ),
    };
    PcStatus {
        total_memory,
        used_memory,
        cpu_usage,
        cpu_frequency: match cpu_frequency {
            Some(f) => f,
            None => FALLBACK_CPU_MHZ,
        },
        gpu_usage: cpu_usage * 11 / 10,
        gpu_temp,
        gpu_clock,
        cpu_temp,
        sensor_error: !found_cpu_temp && gpu_temp == 0,
        cpu_name,
        gpu_name,
        ssd_available,
    }
}

/// Refresh the running snapshot from a periodic sample.  A failed GPU
/// probe keeps the last known GPU readings; a missing CPU clock reads
/// as zero.  The session's accumulated temperature follows the new
/// readings.  Nothing changes once the run is over.
pub fn refresh_pc_status(
    st: &mut PcStatus,
    session: &mut GameSession,
    readings: &Vec<ComponentReading>,
    cpu_frequency: Option<u64>,
    cpu_usage: u64,
    total_memory: u64,
    used_memory: u64,
    gpu_probe: Option<(u64, u64)>,
)
    requires
        old(st).wf(),
        old(session).wf(),
        readings@.len() <= 100_000,
        forall|i: int| 0 <= i < readings@.len() ==> (#[trigger] readings@[i]).wf(),
        cpu_usage <= 100,
        cpu_frequency matches Some(f) ==> f <= CLOCK_MHZ_MAX,
        used_memory <= total_memory <= RAM_BYTES_MAX,
        gpu_probe matches Some(p) ==> p.0 <= TEMP_C_MAX && p.1 <= CLOCK_MHZ_MAX,
    ensures
        old(session).is_game_over ==> *final(st) == *old(st) && *final(session) == *old(session),
        !old(session).is_game_over ==> {
            &&& final(st).cpu_temp as int == spec_cpu_temp_avg(readings@)
            &&& final(st).cpu_usage == cpu_usage
            &&& final(st).cpu_frequency == (match cpu_frequency {
                Some(f) => f,
                None => 0u64,
            })
            &&& final(st).total_memory == total_memory
            &&& final(st).used_memory == used_memory
            &&& final(st).gpu_temp == (match gpu_probe {
                Some(p) => p.0,
                None => old(st).gpu_temp,
            })
            &&& final(st).gpu_clock == (match gpu_probe {
                Some(p) => p.1,
                None => old(st).gpu_clock,
            })
            &&& final(st).sensor_error == (spec_temp_count(readings@) == 0
                && final(st).gpu_temp == 0)
            &&& final(st).gpu_usage == old(st).gpu_usage
            &&& final(st).ssd_available == old(st).ssd_available
            &&& final(st).cpu_name == old(st).cpu_name
            &&& final(st).gpu_name == old(st).gpu_name
            &&& *final(session) == (GameSession {
                current_temp: (final(st).cpu_temp + final(st).gpu_temp) as i64,
                ..*old(session)
            })
        },
        final(st).wf(),
        final(session).wf(),
{
    if session.is_game_over {
        return ;
    }
    let (cpu_temp, found_cpu_temp) = average_cpu_temp(readings);
    st.cpu_temp = cpu_temp;
    st.cpu_usage = cpu_usage;
    st.cpu_frequency = match cpu_frequency {
        Some(f) => f,
        None => 0,
    };
    st.total_memory = total_memory;
    st.used_memory = used_memory;
    match gpu_probe {
        Some(p) => {
            st.gpu_temp = p.0;
            st.gpu_clock = p.1;
        },
        None => {},
    }
    st.sensor_error = !found_cpu_temp && st.gpu_temp == 0;
    session.current_temp = (st.cpu_temp + st.gpu_temp) as i64;
}

/// ASCII whitespace: space, tab, line feed, carriage return.
pub open spec fn is_ws(b: u8) -> bool {
    b == 32 || b == 9 || b == 10 || b == 13
}

/// ASCII decimal digit.
pub open spec fn is_digit(b: u8) -> bool {
    48 <= b <= 57
}

pub open spec fn trim_left_spec(s: Seq<u8>) -> Seq<u8>
    decreases s.len(),
{
    if s.len() > 0 && is_ws(s[0]) {
        trim_left_spec(s.drop_first())
    } else {
        s
    }
}

pub open spec fn trim_right_spec(s: Seq<u8>) -> Seq<u8>
    decreases s.len(),
{
    if s.len() > 0 && is_ws(s.last()) {
        trim_right_spec(s.drop_last())
    } else {
        s
    }
}

/// The byte string without leading and trailing whitespace.
pub open spec fn trim_spec(s: Seq<u8>) -> Seq<u8> {
    trim_right_spec(trim_left_spec(s))
}

/// Value of a digit string read in base ten.
pub open spec fn digits_value(s: Seq<u8>) -> int
    decreases s.len(),
{
    if s.len() == 0 {
        0
    } else {
        digits_value(s.drop_last()) * 10 + (s.last() - 48)
    }
}

pub open spec fn all_digits(s: Seq<u8>) -> bool {
    forall|i: int| 0 <= i < s.len() ==> is_digit(#[trigger] s[i])
}

/// A non-empty all-digit string that fits reads as its value;
/// anything else does not parse.
pub open spec fn parse_u64_spec(s: Seq<u8>) -> Option<u64> {
    if s.len() > 0 && all_digits(s) && digits_value(s) <= u64::MAX {
        Some(digits_value(s) as u64)
    } else {
        None
    }
}

/// Index of the first comma (byte 44), or -1 where there is none.
pub open spec fn comma_index(s: Seq<u8>) -> int
    decreases s.len(),
{
    if s.len() == 0 {
        -1
    } else if s[0] == 44 {
        0
    } else {
        let r = comma_index(s.drop_first());
        if r < 0 {
            -1
        } else {
            r + 1
        }
    }
}

/// How the GPU probe's output line reads: a temperature and a clock,
/// comma-separated, each trimmed and read as a decimal; a third field
/// and beyond is ignored.  A line that does not fit gives nothing.
pub open spec fn spec_parse_probe(s: Seq<u8>) -> Option<(u64, u64)> {
    let i = comma_index(s);
    if i < 0 {
        None
    } else {
        let left = s.subrange(0, i);
        let rest = s.subrange(i + 1, s.len() as int);
        let j = comma_index(rest);
        let right = if j < 0 {
            rest
        } else {
            rest.subrange(0, j)
        };
        match (parse_u64_spec(trim_spec(left)), parse_u64_spec(trim_spec(right))) {
            (Some(a), Some(b)) => Some((a, b)),
            _ => None,
        }
    }
}

proof fn lemma_comma_index_at(s: Seq<u8>, k: int)
    requires
        0 <= k < s.len(),
        s[k] == 44,
        forall|j: int| 0 <= j < k ==> s[j] != 44,
    ensures
        comma_index(s) == k,
    decreases k,
{
    if k > 0 {
        lemma_comma_index_at(s.drop_first(), k - 1);
    }
}

proof fn lemma_comma_index_none(s: Seq<u8>)
    requires
        forall|j: int| 0 <= j < s.len() ==> s[j] != 44,
    ensures
        comma_index(s) == -1,
    decreases s.len(),
{
    if s.len() > 0 {
        lemma_comma_index_none(s.drop_first());
    }
}

proof fn lemma_digits_value_nonneg(s: Seq<u8>)
    requires
        all_digits(s),
    ensures
        digits_value(s) >= 0,
    decreases s.len(),
{
    if s.len() > 0 {
        assert(all_digits(s.drop_last()));
        lemma_digits_value_nonneg(s.drop_last());
    }
}

/// Reading more digits never shrinks the value.
proof fn lemma_digits_prefix_le(s: Seq<u8>, k: int)
    requires
        all_digits(s),
        0 <= k <= s.len(),
    ensures
        digits_value(s.subrange(0, k)) <= digits_value(s),
    decreases s.len() - k,
{
    if k == s.len() {
        assert(s.subrange(0, k) =~= s);
    } else {
        let p = s.subrange(0, k);
        let q = s.subrange(0, k + 1);
        assert(q.drop_last() =~= p);
        assert(all_digits(p));
        lemma_digits_value_nonneg(p);
        lemma_digits_prefix_le(s, k + 1);
    }
}

fn byte_is_ws(b: u8) -> (r: bool)
    ensures
        r == is_ws(b),
{
    b == 32 || b == 9 || b == 10 || b == 13
}

/// Strip leading and trailing whitespace.
pub fn trim_slice(s: &[u8]) -> (r: &[u8])
    ensures
        r@ == trim_spec(s@),
{
    let len = s.len();
    let mut a: usize = 0;
    proof {
        assert(s@.subrange(0, len as int) =~= s@);
    }
    while a < len && byte_is_ws(s[a])
        invariant
            a <= len,
            len == s@.len(),
            trim_left_spec(s@) == trim_left_spec(s@.subrange(a as int, len as int)),
        decreases len - a,
    {
        proof {
            assert(s@.subrange(a as int, len as int).drop_first() =~= s@.subrange(
                a + 1,
                len as int,
            ));
        }
        a += 1;
    }
    proof {
        assert(trim_left_spec(s@.subrange(a as int, len as int)) == s@.subrange(
            a as int,
            len as int,
        ));
    }
    let mut b: usize = len;
    while b > a && byte_is_ws(s[b - 1])
        invariant
            a <= b <= len,
            len == s@.len(),
            trim_left_spec(s@) == s@.subrange(a as int, len as int),
            trim_right_spec(s@.subrange(a as int, len as int)) == trim_right_spec(
                s@.subrange(a as int, b as int),
            ),
        decreases b,
    {
        proof {
            assert(s@.subrange(a as int, b as int).drop_last() =~= s@.subrange(
                a as int,
                b - 1,
            ));
        }
        b -= 1;
    }
    proof {
        assert(trim_right_spec(s@.subrange(a as int, b as int)) == s@.subrange(
            a as int,
            b as int,
        ));
    }
    vstd::slice::slice_subrange(s, a, b)
}

/// Read a trimmed decimal field.
pub fn parse_u64_bytes(s: &[u8]) -> (r: Option<u64>)
    ensures
        r == parse_u64_spec(s@),
{
    let n = s.len();
    if n == 0 {
        return None;
    }
    let mut acc: u64 = 0;
    let mut i: usize = 0;
    while i < n
        invariant
            i <= n,
            n == s@.len(),
            all_digits(s@.subrange(0, i as int)),
            acc as int == digits_value(s@.subrange(0, i as int)),
        decreases n - i,
    {
        let b = s[i];
        if b < 48 || b > 57 {
            proof {
                assert(!is_digit(s@[i as int]));
            }
            return None;
        }
        let a2: u128 = (acc as u128) * 10 + ((b - 48) as u128);
        proof {
            assert(s@.subrange(0, i + 1).drop_last() =~= s@.subrange(0, i as int));
            assert(all_digits(s@.subrange(0, i + 1)));
        }
        if a2 > u64::MAX as u128 {
            proof {
                if all_digits(s@) {
                    lemma_digits_prefix_le(s@, i + 1);
                }
            }
            return None;
        }
        acc = a2 as u64;
        i += 1;
    }
    proof {
        assert(s@.subrange(0, n as int) =~= s@);
    }
    Some(acc)
}

fn find_comma(s: &[u8]) -> (r: Option<usize>)
    ensures
        match r {
            Some(i) => comma_index(s@) == i as int && (i as int) < s@.len(),
            None => comma_index(s@) == -1,
        },
{
    let n = s.len();
    let mut i: usize = 0;
    while i < n
        invariant
            i <= n,
            n == s@.len(),
            forall|j: int| 0 <= j < i ==> s@[j] != 44,
        decreases n - i,
    {
        if s[i] == 44 {
            proof {
                lemma_comma_index_at(s@, i as int);
            }
            return Some(i);
        }
        i += 1;
    }
    proof {
        lemma_comma_index_none(s@);
    }
    None
}

/// Read the GPU probe's output line: "temperature, clock", both
/// decimal, in that order.
pub fn parse_gpu_probe(s: &[u8]) -> (r: Option<(u64, u64)>)
    ensures
        r == spec_parse_probe(s@),
{
    let n = s.len();
    match find_comma(s) {
        None => None,
        Some(i) => {
            let left = vstd::slice::slice_subrange(s, 0, i);
            let rest = vstd::slice::slice_subrange(s, i + 1, n);
            let right = match find_comma(rest) {
                None => rest,
                Some(j) => vstd::slice::slice_subrange(rest, 0, j),
            };
            let lt = trim_slice(left);
            let rt = trim_slice(right);
            match (parse_u64_bytes(lt), parse_u64_bytes(rt)) {
                (Some(a), Some(b)) => Some((a, b)),
                _ => None,
            }
        },
    }
}

} // verus!
