//! Deriving samples from cumulative per-process accounting readings.
//!
//! CPU usage is an instantaneous rate between two consecutive readings:
//! `(ticks_now - ticks_before) / ticks_per_second / elapsed_seconds * 100`,
//! expressed in hundredths of a percent. The reading before the first one is
//! taken as zero ticks at the moment sampling started.
use vstd::prelude::*;

verus! {

/// Microseconds in a second.
pub const MICROS_PER_SECOND: u64 = 1_000_000;

/// Hundredths of a percent in a whole (100 % = 10_000).
pub const CENTI_PERCENT_PER_UNIT: u64 = 10_000;

/// One accounting read of a process, as the operating system reports it.
#[derive(Clone, Copy, Debug, PartialEq, Eq, Structural)]
pub struct Reading {
    /// Cumulative user plus kernel CPU time, in clock ticks.
    pub cpu_ticks: u64,
    /// Resident set size, in pages.
    pub rss_pages: u64,
    /// Cumulative bytes read from storage.
    pub read_bytes: u64,
    /// Cumulative bytes written to storage.
    pub write_bytes: u64,
}

/// The resource figures reported for a process.
#[derive(Clone, Copy, Debug, PartialEq, Eq, Structural)]
pub struct Usage {
    /// CPU usage in hundredths of a percent of one core.
    pub cpu_centi_percent: u64,
    pub memory_rss_bytes: u64,
    pub io_bytes_read: u64,
    pub io_bytes_written: u64,
}

/// One point-in-time measurement of a process, tagged with that process.
#[derive(Clone, Copy, Debug, PartialEq, Eq, Structural)]
pub struct Sample {
    pub pid: u32,
    /// When the reading was taken, in microseconds on the sampler's clock.
    pub sampled_at_us: u64,
    pub usage: Usage,
}

/// `x` clamped to the range of `u64`.
pub open spec fn clamp_u64(x: int) -> u64 {
    if x > u64::MAX {
        u64::MAX
    } else {
        x as u64
    }
}

/// CPU usage in hundredths of a percent, before clamping: the CPU time spent
/// (`delta_ticks / ticks_per_second` seconds) over the wall time passed
/// (`elapsed_us` microseconds). Zero when either denominator is zero.
pub open spec fn cpu_rate(delta_ticks: int, ticks_per_second: int, elapsed_us: int) -> int {
    if ticks_per_second <= 0 || elapsed_us <= 0 {
        0
    } else {
        (delta_ticks * CENTI_PERCENT_PER_UNIT * MICROS_PER_SECOND) / (ticks_per_second
            * elapsed_us)
    }
}

/// `a - b`, or zero where `b` exceeds `a` (a counter never runs backwards).
pub open spec fn delta(a: u64, b: u64) -> u64 {
    if a >= b {
        (a - b) as u64
    } else {
        0
    }
}

/// CPU usage between two cumulative tick counts taken `elapsed_us` apart.
pub fn cpu_centi_percent(prev_ticks: u64, cur_ticks: u64, ticks_per_second: u64, elapsed_us: u64) -> (r: u64)
    ensures
        r == clamp_u64(cpu_rate(delta(cur_ticks, prev_ticks) as int, ticks_per_second as int, elapsed_us as int)),
{
    if ticks_per_second == 0 || elapsed_us == 0 {
        return 0;
    }
    let d: u64 = if cur_ticks >= prev_ticks {
        cur_ticks - prev_ticks
    } else {
        0
    };
    let scale: u128 = 10_000_000_000;
    assert(scale == CENTI_PERCENT_PER_UNIT * MICROS_PER_SECOND);
    assert((d as u128) * scale <= u64::MAX as int * 10_000_000_000) by (nonlinear_arith)
        requires
            d <= u64::MAX,
            scale == 10_000_000_000u128,
    ;
    let num: u128 = (d as u128) * scale;
    assert((ticks_per_second as u128) * (elapsed_us as u128) <= u64::MAX as int * u64::MAX as int)
        by (nonlinear_arith)
        requires
            ticks_per_second <= u64::MAX,
            elapsed_us <= u64::MAX,
    ;
    let den: u128 = (ticks_per_second as u128) * (elapsed_us as u128);
    assert(den > 0) by (nonlinear_arith)
        requires
            den == ticks_per_second * elapsed_us,
            ticks_per_second > 0,
            elapsed_us > 0,
    ;
    let q: u128 = num / den;
    if q > u64::MAX as u128 {
        u64::MAX
    } else {
        q as u64
    }
}

/// Resident memory in bytes for `pages` pages of `page_size` bytes, clamped.
pub fn rss_bytes(pages: u64, page_size: u64) -> (r: u64)
    ensures
        r == clamp_u64(pages * page_size),
{
    assert((pages as u128) * (page_size as u128) <= u64::MAX as int * u64::MAX as int)
        by (nonlinear_arith)
        requires
            pages <= u64::MAX,
            page_size <= u64::MAX,
    ;
    let p: u128 = (pages as u128) * (page_size as u128);
    assert(p == pages * page_size);
    if p > u64::MAX as u128 {
        u64::MAX
    } else {
        p as u64
    }
}

/// A CPU time of at most `cores` times the wall time gives a usage of at
/// most `cores` hundred percent; and usage is never negative.
pub proof fn lemma_cpu_rate_bounded(delta_ticks: nat, ticks_per_second: nat, elapsed_us: nat, cores: nat)
    requires
        delta_ticks * MICROS_PER_SECOND <= cores * ticks_per_second * elapsed_us,
    ensures
        0 <= cpu_rate(delta_ticks as int, ticks_per_second as int, elapsed_us as int),
        cpu_rate(delta_ticks as int, ticks_per_second as int, elapsed_us as int) <= cores
            * CENTI_PERCENT_PER_UNIT,
{
    if ticks_per_second > 0 && elapsed_us > 0 {
        let den: int = (ticks_per_second * elapsed_us) as int;
        let num: int = (delta_ticks * CENTI_PERCENT_PER_UNIT * MICROS_PER_SECOND) as int;
        assert(den > 0) by (nonlinear_arith)
            requires
                den == ticks_per_second * elapsed_us,
                ticks_per_second > 0,
                elapsed_us > 0,
        ;
        assert(num <= (cores * CENTI_PERCENT_PER_UNIT) * den) by (nonlinear_arith)
            requires
                num == delta_ticks * 10_000 * 1_000_000,
                den == ticks_per_second * elapsed_us,
                delta_ticks * 1_000_000 <= cores * ticks_per_second * elapsed_us,
        ;
        assert(num >= 0) by (nonlinear_arith)
            requires
                num == delta_ticks * 10_000 * 1_000_000,
                delta_ticks >= 0,
        ;
        vstd::arithmetic::div_mod::lemma_div_is_ordered(
            num,
            (cores * CENTI_PERCENT_PER_UNIT) as int * den,
            den,
        );
        vstd::arithmetic::div_mod::lemma_div_multiples_vanish(
            (cores * CENTI_PERCENT_PER_UNIT) as int,
            den,
        );
        vstd::arithmetic::div_mod::lemma_div_pos_is_pos(num, den);
    }
}

/// Counters advance in whole ticks, so a reading may run up to one tick
/// ahead of the CPU time really spent. With that slack the usage stays below
/// `cores` hundred percent plus the rate of one tick over the interval.
pub proof fn lemma_cpu_rate_bounded_up_to_a_tick(
    delta_ticks: nat,
    ticks_per_second: nat,
    elapsed_us: nat,
    cores: nat,
)
    requires
        ticks_per_second > 0,
        elapsed_us > 0,
        delta_ticks * MICROS_PER_SECOND <= cores * ticks_per_second * elapsed_us
            + MICROS_PER_SECOND,
    ensures
        cpu_rate(delta_ticks as int, ticks_per_second as int, elapsed_us as int) <= cores
            * CENTI_PERCENT_PER_UNIT + cpu_rate(1, ticks_per_second as int, elapsed_us as int),
{
    let den: int = (ticks_per_second * elapsed_us) as int;
    let num: int = (delta_ticks * CENTI_PERCENT_PER_UNIT * MICROS_PER_SECOND) as int;
    let one: int = (CENTI_PERCENT_PER_UNIT * MICROS_PER_SECOND) as int;
    let k: int = (cores * CENTI_PERCENT_PER_UNIT) as int;
    assert(den > 0) by (nonlinear_arith)
        requires
            den == ticks_per_second * elapsed_us,
            ticks_per_second > 0,
            elapsed_us > 0,
    ;
    assert(num <= one + k * den) by (nonlinear_arith)
        requires
            num == delta_ticks * 10_000 * 1_000_000,
            one == 10_000 * 1_000_000,
            k == cores * 10_000,
            den == ticks_per_second * elapsed_us,
            delta_ticks * 1_000_000 <= cores * ticks_per_second * elapsed_us + 1_000_000,
    ;
    vstd::arithmetic::div_mod::lemma_div_is_ordered(num, one + k * den, den);
    vstd::arithmetic::div_mod::lemma_hoist_over_denominator(one, k, den as nat);
    assert(cpu_rate(1, ticks_per_second as int, elapsed_us as int) == one / den);
}

/// A sample reports a CPU usage of at most `cores` hundred percent whenever
/// the process spent at most `cores` times the wall time between the two
/// readings on the CPU.
pub proof fn lemma_sample_cpu_bounded(s: Sampler, reading: Reading, now_us: u64, cores: nat)
    requires
        delta(reading.cpu_ticks, s.prev_ticks) * MICROS_PER_SECOND <= cores * s.ticks_per_second
            * delta(now_us, s.prev_at_us),
    ensures
        sample_of(s, reading, now_us).usage.cpu_centi_percent <= cores * CENTI_PERCENT_PER_UNIT,
{
    lemma_cpu_rate_bounded(
        delta(reading.cpu_ticks, s.prev_ticks) as nat,
        s.ticks_per_second as nat,
        delta(now_us, s.prev_at_us) as nat,
        cores,
    );
}

/// What the sampler asks of its driver after a tick.
#[derive(Clone, Copy, Debug, PartialEq, Eq, Structural)]
pub enum SamplerStep {
    /// Store this sample and wait one interval before the next read.
    Record(Sample),
    /// Read no more: the target is gone or sampling was cancelled.
    Stop,
}

/// The decisions of one sampler bound to one process. Its driver performs
/// the reads strictly one after another and hands each outcome to
/// [`Sampler::on_reading`].
#[derive(Clone, Copy, Debug, PartialEq, Eq, Structural)]
pub struct Sampler {
    pub pid: u32,
    pub ticks_per_second: u64,
    pub page_size: u64,
    /// Cumulative CPU ticks at the previous reading.
    pub prev_ticks: u64,
    /// Time of the previous reading, in microseconds.
    pub prev_at_us: u64,
    pub active: bool,
}

/// The sample that a reading taken at `now_us` yields.
pub open spec fn sample_of(s: Sampler, reading: Reading, now_us: u64) -> Sample {
    Sample {
        pid: s.pid,
        sampled_at_us: now_us,
        usage: Usage {
            cpu_centi_percent: clamp_u64(
                cpu_rate(
                    delta(reading.cpu_ticks, s.prev_ticks) as int,
                    s.ticks_per_second as int,
                    delta(now_us, s.prev_at_us) as int,
                ),
            ),
            memory_rss_bytes: clamp_u64(reading.rss_pages * s.page_size),
            io_bytes_read: reading.read_bytes,
            io_bytes_written: reading.write_bytes,
        },
    }
}

impl Sampler {
    /// A sampler for `pid` that starts at `started_at_us`, with no CPU time
    /// spent by then.
    pub fn new(pid: u32, ticks_per_second: u64, page_size: u64, started_at_us: u64) -> (r: Sampler)
        ensures
            r == (Sampler {
                pid,
                ticks_per_second,
                page_size,
                prev_ticks: 0,
                prev_at_us: started_at_us,
                active: true,
            }),
    {
        Sampler { pid, ticks_per_second, page_size, prev_ticks: 0, prev_at_us: started_at_us, active: true }
    }

    /// Whether a read yielding `reading` produces a sample.
    pub open spec fn records(self, reading: Option<Reading>) -> bool {
        self.active && reading is Some
    }

    /// The sampler after a read yielding `reading` at `now_us`.
    pub open spec fn after(self, reading: Option<Reading>, now_us: u64) -> Sampler {
        if self.records(reading) {
            Sampler { prev_ticks: reading->0.cpu_ticks, prev_at_us: now_us, ..self }
        } else {
            Sampler { active: false, ..self }
        }
    }

    /// What a read yielding `reading` at `now_us` asks for.
    pub open spec fn step_for(self, reading: Option<Reading>, now_us: u64) -> SamplerStep {
        if self.records(reading) {
            SamplerStep::Record(sample_of(self, reading->0, now_us))
        } else {
            SamplerStep::Stop
        }
    }

    /// Takes the outcome of one accounting read made at `now_us` (`None`
    /// when the read failed). A failed read, or any read after the sampler
    /// stopped, stops it for good; a successful one yields a sample and
    /// becomes the base of the next CPU rate.
    pub fn on_reading(&mut self, reading: Option<Reading>, now_us: u64) -> (r: SamplerStep)
        ensures
            r == old(self).step_for(reading, now_us),
            *final(self) == old(self).after(reading, now_us),
    {
        match reading {
            Some(rd) if self.active => {
                let elapsed: u64 = if now_us >= self.prev_at_us {
                    now_us - self.prev_at_us
                } else {
                    0
                };
                let usage = Usage {
                    cpu_centi_percent: cpu_centi_percent(
                        self.prev_ticks,
                        rd.cpu_ticks,
                        self.ticks_per_second,
                        elapsed,
                    ),
                    memory_rss_bytes: rss_bytes(rd.rss_pages, self.page_size),
                    io_bytes_read: rd.read_bytes,
                    io_bytes_written: rd.write_bytes,
                };
                self.prev_ticks = rd.cpu_ticks;
                self.prev_at_us = now_us;
                SamplerStep::Record(Sample { pid: self.pid, sampled_at_us: now_us, usage })
            },
            _ => {
                self.active = false;
                SamplerStep::Stop
            },
        }
    }

    /// Stops the sampler: every later read yields [`SamplerStep::Stop`].
    pub fn cancel(&mut self)
        ensures
            *final(self) == (Sampler { active: false, ..*old(self) }),
    {
        self.active = false;
    }
}

/// The sampler after each read of `reads` (outcome and time) in turn.
pub open spec fn run_reads(s: Sampler, reads: Seq<(Option<Reading>, u64)>) -> Sampler
    decreases reads.len(),
{
    if reads.len() == 0 {
        s
    } else {
        let before = run_reads(s, reads.drop_last());
        before.after(reads.last().0, reads.last().1)
    }
}

/// A sampler that was cancelled, or whose target could not be read, stays
/// stopped and produces no sample whatever reads follow.
pub proof fn lemma_stopped_sampler_stays_stopped(s: Sampler, reads: Seq<(Option<Reading>, u64)>)
    requires
        !s.active,
    ensures
        run_reads(s, reads) == s,
        forall|i: int|
            0 <= i < reads.len() ==> (run_reads(s, reads.take(i)).step_for(
                (#[trigger] reads[i]).0,
                reads[i].1,
            ) == SamplerStep::Stop),
    decreases reads.len(),
{
    if reads.len() > 0 {
        lemma_stopped_sampler_stays_stopped(s, reads.drop_last());
        assert forall|i: int| 0 <= i < reads.len() implies (run_reads(s, reads.take(i)).step_for(
            (#[trigger] reads[i]).0,
            reads[i].1,
        ) == SamplerStep::Stop) by {
            if i < reads.len() - 1 {
                assert(reads.take(i) =~= reads.drop_last().take(i));
                assert(reads[i] == reads.drop_last()[i]);
            } else {
                assert(reads.take(i) =~= reads.drop_last());
            }
        }
    }
}

} // verus!
