//! Timing statistics of a periodic control loop: the time each iteration
//! took is summed, and every so many iterations the average is reported and
//! the sum restarted.

use vstd::prelude::*;

verus! {

/// The average iteration time of a reporting period, in microseconds:
/// `avg_us` whole microseconds and `avg_frac` tenths.
#[derive(Clone, Copy, Debug, PartialEq, Eq, Structural)]
pub struct LoopReport {
    pub avg_us: u64,
    pub avg_frac: u64,
}

/// The iteration-time statistics of a loop that runs at `loop_hz` and
/// reports `print_hz` times a second.
#[allow(non_camel_case_types)]
pub struct loop_logger {
    counter: u16,
    total_duration_nanos: u64,
    print_hz: u16,
    delay_hz: u16,
}

/// The report of a period of `ticks` iterations that took `total_nanos`.
pub open spec fn loop_report(total_nanos: u64, ticks: u16) -> LoopReport {
    LoopReport {
        avg_us: ((total_nanos / (ticks as u64)) / 1000) as u64,
        avg_frac: (((total_nanos / (ticks as u64)) % 1000) / 100) as u64,
    }
}

/// The report of a period is its mean iteration time: `avg_us` is the
/// mean in whole microseconds, and `avg_frac` is the tenths digit of the
/// mean in microseconds.
pub proof fn lemma_loop_report_is_mean(total_nanos: u64, ticks: u16)
    requires
        ticks > 0,
    ensures
        ({
            let r = loop_report(total_nanos, ticks);
            let t = ticks as int;
            &&& r.avg_us * 1000 * t <= total_nanos < (r.avg_us + 1) * 1000 * t
            &&& r.avg_us * 1000 + r.avg_frac * 100 <= total_nanos as int / t
            &&& total_nanos as int / t < r.avg_us * 1000 + (r.avg_frac + 1) * 100
            &&& r.avg_frac < 10
        }),
{
    let r = loop_report(total_nanos, ticks);
    let t = ticks as int;
    let total = total_nanos as int;
    let q = total / t;
    assert(q == (total_nanos / (ticks as u64)) as int);
    let a = r.avg_us as int;
    let f = r.avg_frac as int;
    assert(a == q / 1000);
    assert(f == (q % 1000) / 100);
    assert(q * t <= total < q * t + t) by (nonlinear_arith)
        requires
            t > 0,
            q == total / t,
    ;
    assert(a * 1000 <= q < a * 1000 + 1000);
    assert(a * 1000 + f * 100 <= q < a * 1000 + (f + 1) * 100);
    assert(a * 1000 * t <= q * t) by (nonlinear_arith)
        requires
            a * 1000 <= q,
            t > 0,
    ;
    assert(q * t + t <= (a + 1) * 1000 * t) by (nonlinear_arith)
        requires
            q + 1 <= a * 1000 + 1000,
            t > 0,
    ;
}

impl loop_logger {
    /// Iterations counted in the current period.
    pub closed spec fn counter(&self) -> u16 {
        self.counter
    }

    /// Nanoseconds summed over the current period.
    pub closed spec fn total_nanos(&self) -> u64 {
        self.total_duration_nanos
    }

    /// Reports per second.
    pub closed spec fn print_hz(&self) -> u16 {
        self.print_hz
    }

    /// Iterations per reporting period.
    pub closed spec fn delay_hz(&self) -> u16 {
        self.delay_hz
    }

    /// The count stays below the period length.
    pub open spec fn wf(&self) -> bool {
        self.delay_hz() == 0 || self.counter() < self.delay_hz()
    }

    /// Statistics for a loop at `loop_hz` reporting `print_hz` times a
    /// second: a period is `loop_hz / print_hz` iterations.
    pub fn new(print_hz: u16, loop_hz: u16) -> (l: Self)
        requires
            print_hz > 0,
        ensures
            l.wf(),
            l.counter() == 0,
            l.total_nanos() == 0,
            l.print_hz() == print_hz,
            l.delay_hz() == loop_hz / print_hz,
    {
        loop_logger { counter: 0, total_duration_nanos: 0, print_hz: print_hz, delay_hz: loop_hz / print_hz }
    }

    /// Iterations per reporting period.
    pub fn ticks_per_report(&self) -> (n: u16)
        ensures
            n == self.delay_hz(),
    {
        self.delay_hz
    }

    /// Nanoseconds summed over the current period.
    pub fn accumulated_nanos(&self) -> (n: u64)
        ensures
            n == self.total_nanos(),
    {
        self.total_duration_nanos
    }

    /// Adds an iteration that took `elapsed_nanos`. When this completes a
    /// period, returns the period's average and starts a new period.
    pub fn record_tick(&mut self, elapsed_nanos: u64) -> (report: Option<LoopReport>)
        requires
            old(self).wf(),
            old(self).delay_hz() > 0,
            old(self).total_nanos() + elapsed_nanos <= u64::MAX,
        ensures
            final(self).wf(),
            final(self).print_hz() == old(self).print_hz(),
            final(self).delay_hz() == old(self).delay_hz(),
            old(self).counter() + 1 < old(self).delay_hz() ==> {
                &&& report == None::<LoopReport>
                &&& final(self).counter() == old(self).counter() + 1
                &&& final(self).total_nanos() == old(self).total_nanos() + elapsed_nanos
            },
            old(self).counter() + 1 >= old(self).delay_hz() ==> {
                &&& report == Some(loop_report(
                    (old(self).total_nanos() + elapsed_nanos) as u64,
                    old(self).delay_hz(),
                ))
                &&& report matches Some(r) && r.avg_us * 1000 * old(self).delay_hz() <= old(
                    self,
                ).total_nanos() + elapsed_nanos
                &&& report matches Some(r) && old(self).total_nanos() + elapsed_nanos < (r.avg_us + 1)
                    * 1000 * old(self).delay_hz()
                &&& report matches Some(r) && r.avg_frac < 10 && r.avg_us * 1000 + r.avg_frac * 100
                    <= (old(self).total_nanos() + elapsed_nanos) / (old(self).delay_hz() as int)
                &&& report matches Some(r) && (old(self).total_nanos() + elapsed_nanos) / (old(
                    self,
                ).delay_hz() as int) < r.avg_us * 1000 + (r.avg_frac + 1) * 100
                &&& final(self).counter() == 0
                &&& final(self).total_nanos() == 0
            },
    {
        self.total_duration_nanos = self.total_duration_nanos + elapsed_nanos;
        self.counter = self.counter + 1;
        if self.counter >= self.delay_hz {
            let ghost total = self.total_duration_nanos;
            let ghost delay = self.delay_hz;
            self.counter = 0;
            let avg_nanos = self.total_duration_nanos / self.delay_hz as u64;
            let avg_us = avg_nanos / 1000;
            let avg_frac = (avg_nanos % 1000) / 100;
            self.total_duration_nanos = 0;
            let report = LoopReport { avg_us, avg_frac };
            proof {
                lemma_loop_report_is_mean(total, delay);
            }
            Some(report)
        } else {
            None
        }
    }
}

} // verus!
