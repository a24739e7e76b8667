//! The constrained driver handle and its lifecycle: clock validation, the
//! enable/disable sequencing with its hardware-latency wait, status-flag
//! reporting, and the blocking word and byte read primitives.

use vstd::prelude::*;

use crate::clocks::{clock_config_error, clock_config_ok, validate_clock_config, ClockDescriptor,
    ConfigError};
use crate::hw::{drdy, sat64, sr_read_step, lemma_sat64_add, BusGate, RngPeripheral};

verus! {

/// Error kind for the optional higher-level byte-read interface.  That
/// interface can never fail — an unresponsive peripheral is represented as a
/// blocking wait, not an error — so no driver operation ever constructs a
/// value of this type, and the read contracts promise success outright.
#[derive(Clone, Copy, Debug)]
pub struct Error {}

/// Extension trait that activates the peripheral: validates the clock
/// configuration, opens the bus-clock gate, waits for the hardware
/// acknowledgment and turns the peripheral on, consuming the raw handle.
pub trait RngExt: Sized {
    fn enable(self, gate: &mut BusGate, clocks: ClockDescriptor) -> Result<Rng, (ConfigError, Self)>;
}

/// The peripheral as switching its internal enable bit on leaves it: only
/// the control-register enable bit changes.
pub open spec fn enable_step(p: RngPeripheral) -> RngPeripheral {
    RngPeripheral { rngen: true, ..p }
}

/// The peripheral as switching its internal enable bit off leaves it: only
/// the control-register enable bit changes.
pub open spec fn disable_step(p: RngPeripheral) -> RngPeripheral {
    RngPeripheral { rngen: false, ..p }
}

/// Byte `k` (0 to 3) of a word, least-significant byte first.  The driver
/// fixes this byte order explicitly rather than depending on host order.
pub open spec fn word_byte(w: u32, k: int) -> u8 {
    if k == 0 {
        (w & 0xff) as u8
    } else if k == 1 {
        ((w >> 8) & 0xff) as u8
    } else if k == 2 {
        ((w >> 16) & 0xff) as u8
    } else {
        ((w >> 24) & 0xff) as u8
    }
}

/// How many words a byte fill of length `n` consumes: one per four bytes,
/// rounded up.
pub open spec fn words_for(n: int) -> int {
    (n + 3) / 4
}

/// Constrained driver handle, wrapping the raw register block once the
/// clock configuration has been validated and the peripheral enabled.
#[derive(Debug)]
pub struct Rng {
    rng: RngPeripheral,
}

impl RngExt for RngPeripheral {
    /// Validates the clock configuration, then gates the bus clock on and
    /// busy-waits for the hardware acknowledgment — the peripheral's own
    /// enable bit has no effect until the bus clock physically flows — then
    /// sets the internal enable bit and returns the driver handle.  A
    /// rejected configuration returns the error together with the raw
    /// handle, both gate and handle left as they were.
    fn enable(self, gate: &mut BusGate, clocks: ClockDescriptor) -> (r: Result<Rng, (ConfigError, RngPeripheral)>)
        ensures
            r is Ok <==> clock_config_ok(clocks),
            r matches Ok(d) ==> d.periph() == enable_step(self)
                && final(gate).rng_enabled == true
                && final(gate).sibling_bits == old(gate).sibling_bits
                && final(gate).ack_delay == 0,
            r matches Err(e) ==> e.0 == clock_config_error(clocks)
                && e.1 == self
                && *final(gate) == *old(gate),
    {
        match validate_clock_config(&clocks) {
            Err(e) => Err((e, self)),
            Ok(()) => {
                gate.set_rng_enable();
                let ghost g0 = *gate;
                // The freshly set enable bit takes effect only once the bus
                // clock has physically started; setting the peripheral's own
                // enable bit earlier would be silently ignored, so this wait
                // is mandatory.
                loop
                    invariant_except_break
                        gate.rng_enabled == true,
                        gate.sibling_bits == g0.sibling_bits,
                        gate.ack_delay <= g0.ack_delay,
                    ensures
                        gate.rng_enabled == true,
                        gate.sibling_bits == g0.sibling_bits,
                        gate.ack_delay == 0,
                    decreases gate.ack_delay,
                {
                    if gate.rng_enable_ack() {
                        break;
                    }
                }
                let mut rng = Rng { rng: self };
                rng.enable();
                Ok(rng)
            }
        }
    }
}

impl Rng {
    /// The wrapped register block.
    pub closed spec fn periph(self) -> RngPeripheral {
        self.rng
    }

    /// Read-only view of the wrapped register block.
    pub fn peripheral(&self) -> (r: &RngPeripheral)
        ensures
            r == self.periph(),
    {
        &self.rng
    }

    /// Disables the peripheral, then closes the bus-clock gate — disable
    /// always comes first, so the clock never stops under an enabled
    /// peripheral — and returns the raw register block to the caller for
    /// reuse or handoff.
    pub fn free(self, gate: &mut BusGate) -> (r: RngPeripheral)
        ensures
            r == disable_step(self.periph()),
            final(gate).rng_enabled == false,
            final(gate).sibling_bits == old(gate).sibling_bits,
            final(gate).ack_delay == old(gate).ack_delay,
    {
        let mut this = self;
        this.disable();
        gate.clear_rng_enable(&this.rng);
        this.rng
    }

    /// Busy-waits until the data-ready flag is set, then returns the fresh
    /// 32-bit random word.  Performs one status read per elapsed latency
    /// tick plus the final one that observes readiness — never more — and
    /// exactly one data read; reading the data register implicitly clears
    /// readiness, so no flag needs clearing afterwards.
    pub fn get_random_data(&mut self) -> (r: u32)
        requires
            old(self).periph().words@.len() > 0,
        ensures
            r == old(self).periph().words@[0],
            final(self).periph().words@ == old(self).periph().words@.drop_first(),
            final(self).periph().ready_delay == 0,
            final(self).periph().sr_reads == sat64(
                old(self).periph().sr_reads + old(self).periph().ready_delay + 1),
            final(self).periph().dr_reads == sat64(old(self).periph().dr_reads + 1),
            final(self).periph().rngen == old(self).periph().rngen,
            final(self).periph().ie == old(self).periph().ie,
            final(self).periph().cecs == old(self).periph().cecs,
            final(self).periph().secs == old(self).periph().secs,
    {
        let ghost p0 = self.rng;
        loop
            invariant_except_break
                self.rng.words@ == p0.words@,
                p0.words@.len() > 0,
                self.rng.ready_delay <= p0.ready_delay,
                self.rng.sr_reads == sat64(
                    p0.sr_reads + (p0.ready_delay - self.rng.ready_delay)),
                self.rng.dr_reads == p0.dr_reads,
                self.rng.rngen == p0.rngen,
                self.rng.ie == p0.ie,
                self.rng.cecs == p0.cecs,
                self.rng.secs == p0.secs,
            ensures
                self.rng.words@ == p0.words@,
                self.rng.ready_delay == 0,
                self.rng.sr_reads == sat64(p0.sr_reads + p0.ready_delay + 1),
                self.rng.dr_reads == p0.dr_reads,
                self.rng.rngen == p0.rngen,
                self.rng.ie == p0.ie,
                self.rng.cecs == p0.cecs,
                self.rng.secs == p0.secs,
            decreases self.rng.ready_delay,
        {
            let ghost pre = self.rng;
            let (ready, _cecs, _secs) = self.rng.read_sr();
            proof {
                lemma_sat64_add(p0.sr_reads + (p0.ready_delay - pre.ready_delay), 1);
            }
            if ready {
                break;
            }
        }
        self.rng.read_dr()
    }

    /// One random word; the blocking wait and read of `get_random_data`.
    pub fn next_u32(&mut self) -> (r: u32)
        requires
            old(self).periph().words@.len() > 0,
        ensures
            r == old(self).periph().words@[0],
            final(self).periph().words@ == old(self).periph().words@.drop_first(),
            final(self).periph().ready_delay == 0,
            final(self).periph().sr_reads == sat64(
                old(self).periph().sr_reads + old(self).periph().ready_delay + 1),
            final(self).periph().dr_reads == sat64(old(self).periph().dr_reads + 1),
            final(self).periph().rngen == old(self).periph().rngen,
            final(self).periph().ie == old(self).periph().ie,
            final(self).periph().cecs == old(self).periph().cecs,
            final(self).periph().secs == old(self).periph().secs,
    {
        self.get_random_data()
    }

    /// One random 64-bit value, assembled from two consecutive words: the
    /// first word becomes the low half, the second the high half.
    pub fn next_u64(&mut self) -> (r: u64)
        requires
            old(self).periph().words@.len() >= 2,
        ensures
            r == ((old(self).periph().words@[1] as u64) << 32)
                | (old(self).periph().words@[0] as u64),
            final(self).periph().words@ == old(self).periph().words@.skip(2),
            final(self).periph().ready_delay == 0,
            final(self).periph().sr_reads == sat64(
                old(self).periph().sr_reads + old(self).periph().ready_delay + 2),
            final(self).periph().dr_reads == sat64(old(self).periph().dr_reads + 2),
            final(self).periph().rngen == old(self).periph().rngen,
            final(self).periph().ie == old(self).periph().ie,
            final(self).periph().cecs == old(self).periph().cecs,
            final(self).periph().secs == old(self).periph().secs,
    {
        let ghost p0 = self.rng;
        let lo = self.get_random_data();
        let hi = self.get_random_data();
        proof {
            lemma_sat64_add(p0.sr_reads + p0.ready_delay + 1, 1);
            lemma_sat64_add(p0.dr_reads + 1, 1);
            assert(p0.words@.drop_first().drop_first() =~= p0.words@.skip(2));
        }
        ((hi as u64) << 32) | (lo as u64)
    }

    /// Fills the buffer with random bytes from repeated word reads: each
    /// word is split into its four bytes, least-significant first, and the
    /// last word contributes only as many bytes as are still missing.  The
    /// buffer's length is unchanged; `words_for(len)` words are consumed.
    pub fn fill_bytes(&mut self, dest: &mut Vec<u8>)
        requires
            words_for(old(dest)@.len() as int) <= old(self).periph().words@.len(),
        ensures
            final(dest)@.len() == old(dest)@.len(),
            forall|t: int| 0 <= t < old(dest)@.len()
                ==> final(dest)@[t] == word_byte(old(self).periph().words@[t / 4], t % 4),
            final(self).periph().words@ == old(self).periph().words@.skip(
                words_for(old(dest)@.len() as int)),
            final(self).periph().dr_reads == sat64(
                old(self).periph().dr_reads + words_for(old(dest)@.len() as int)),
            final(self).periph().sr_reads == sat64(old(self).periph().sr_reads
                + if old(dest)@.len() == 0 { 0int } else {
                    old(self).periph().ready_delay + words_for(old(dest)@.len() as int)
                }),
            final(self).periph().ready_delay == if old(dest)@.len() == 0 {
                old(self).periph().ready_delay as int
            } else {
                0int
            },
            final(self).periph().rngen == old(self).periph().rngen,
            final(self).periph().ie == old(self).periph().ie,
            final(self).periph().cecs == old(self).periph().cecs,
            final(self).periph().secs == old(self).periph().secs,
    {
        let ghost p0 = self.rng;
        let ghost d0 = dest@;
        let len: usize = dest.len();
        let mut i: usize = 0;
        while i < len
            invariant
                i <= len,
                i % 4 == 0 || i == len,
                len == d0.len(),
                dest@.len() == d0.len(),
                words_for(len as int) <= p0.words@.len(),
                forall|t: int| 0 <= t < i
                    ==> dest@[t] == word_byte(p0.words@[t / 4], t % 4),
                self.rng.words@ == p0.words@.skip(words_for(i as int)),
                self.rng.dr_reads == sat64(p0.dr_reads + words_for(i as int)),
                self.rng.sr_reads == sat64(p0.sr_reads
                    + if i == 0 { 0int } else { p0.ready_delay + words_for(i as int) }),
                self.rng.ready_delay == if i == 0 { p0.ready_delay as int } else { 0int },
                self.rng.rngen == p0.rngen,
                self.rng.ie == p0.ie,
                self.rng.cecs == p0.cecs,
                self.rng.secs == p0.secs,
            decreases len - i,
        {
            let ghost c = words_for(i as int);
            let ghost pre = self.rng;
            assert(p0.words@.skip(c).len() > 0);
            let w = self.get_random_data();
            proof {
                assert(w == p0.words@[c]);
                assert(pre.words@.drop_first() =~= p0.words@.skip(c + 1));
                lemma_sat64_add(p0.dr_reads + c, 1);
                if i != 0 {
                    lemma_sat64_add(p0.sr_reads + p0.ready_delay + c, 1);
                }
            }
            let b0: u8 = (w & 0xff) as u8;
            let b1: u8 = ((w >> 8) & 0xff) as u8;
            let b2: u8 = ((w >> 16) & 0xff) as u8;
            let b3: u8 = ((w >> 24) & 0xff) as u8;
            let remaining: usize = len - i;
            let n: usize = if remaining < 4 { remaining } else { 4 };
            dest.set(i, b0);
            if n > 1 {
                dest.set(i + 1, b1);
            }
            if n > 2 {
                dest.set(i + 2, b2);
            }
            if n > 3 {
                dest.set(i + 3, b3);
            }
            proof {
                assert(forall|t: int| i <= t < i + n ==> #[trigger] (t / 4) == c);
                assert(words_for((i + n) as int) == c + 1);
            }
            i = i + n;
        }
    }

    /// Fills the buffer and reports the success that is always owed: the
    /// only failure mode, an indefinite hardware stall, is represented as
    /// blocking, never as an error.
    pub fn read(&mut self, buffer: &mut Vec<u8>) -> (r: Result<(), Error>)
        requires
            words_for(old(buffer)@.len() as int) <= old(self).periph().words@.len(),
        ensures
            r is Ok,
            final(buffer)@.len() == old(buffer)@.len(),
            forall|t: int| 0 <= t < old(buffer)@.len()
                ==> final(buffer)@[t] == word_byte(old(self).periph().words@[t / 4], t % 4),
            final(self).periph().words@ == old(self).periph().words@.skip(
                words_for(old(buffer)@.len() as int)),
            final(self).periph().dr_reads == sat64(
                old(self).periph().dr_reads + words_for(old(buffer)@.len() as int)),
            final(self).periph().rngen == old(self).periph().rngen,
            final(self).periph().ie == old(self).periph().ie,
            final(self).periph().cecs == old(self).periph().cecs,
            final(self).periph().secs == old(self).periph().secs,
    {
        self.fill_bytes(buffer);
        Ok(())
    }

    /// `fill_bytes` behind the fallible signature of a generic
    /// fill-with-randomness capability; it always succeeds.
    pub fn try_fill_bytes(&mut self, dest: &mut Vec<u8>) -> (r: Result<(), Error>)
        requires
            words_for(old(dest)@.len() as int) <= old(self).periph().words@.len(),
        ensures
            r is Ok,
            final(dest)@.len() == old(dest)@.len(),
            forall|t: int| 0 <= t < old(dest)@.len()
                ==> final(dest)@[t] == word_byte(old(self).periph().words@[t / 4], t % 4),
            final(self).periph().words@ == old(self).periph().words@.skip(
                words_for(old(dest)@.len() as int)),
            final(self).periph().rngen == old(self).periph().rngen,
            final(self).periph().ie == old(self).periph().ie,
            final(self).periph().cecs == old(self).periph().cecs,
            final(self).periph().secs == old(self).periph().secs,
    {
        self.fill_bytes(dest);
        Ok(())
    }

    /// Reports the interrupt-enable control bit; a pure register read.
    pub fn is_interrupt_enabled(&self) -> (r: bool)
        ensures
            r == self.periph().ie,
    {
        self.rng.ie
    }

    /// Reports the internal enable control bit; a pure register read.
    pub fn is_enabled(&self) -> (r: bool)
        ensures
            r == self.periph().rngen,
    {
        self.rng.rngen
    }

    /// Sets the peripheral's internal enable bit by read-modify-write on
    /// its control register.
    pub fn enable(&mut self)
        ensures
            final(self).periph() == enable_step(old(self).periph()),
    {
        self.rng.rngen = true;
    }

    /// Clears the peripheral's internal enable bit by read-modify-write on
    /// its control register.  No acknowledgment wait is needed to stop, and
    /// the bus gate is not touched.
    pub fn disable(&mut self)
        ensures
            final(self).periph() == disable_step(old(self).periph()),
    {
        self.rng.rngen = false;
    }

    /// Reports whether the hardware detected its input clock out of the
    /// valid envelope after the one-time validation at enable time.
    pub fn is_clock_error(&mut self) -> (r: bool)
        ensures
            r == old(self).periph().cecs,
            sr_read_step(old(self).periph(), final(self).periph()),
    {
        let (_ready, cecs, _secs) = self.rng.read_sr();
        cecs
    }

    /// Reports whether the peripheral's internal seeding process failed.
    /// The driver only reports the flag; it never clears it and never
    /// recovers on its own.
    pub fn is_seed_error(&mut self) -> (r: bool)
        ensures
            r == old(self).periph().secs,
            sr_read_step(old(self).periph(), final(self).periph()),
    {
        let (_ready, _cecs, secs) = self.rng.read_sr();
        secs
    }

    /// Reports whether a fresh random word is present in the data register
    /// and not yet consumed.
    pub fn is_data_ready(&mut self) -> (r: bool)
        ensures
            r == drdy(old(self).periph()),
            sr_read_step(old(self).periph(), final(self).periph()),
    {
        let (ready, _cecs, _secs) = self.rng.read_sr();
        ready
    }

    /// Reads the data register unconditionally, without checking the
    /// data-ready or error flags first; the value may be stale or invalid
    /// if readiness was not checked.
    pub fn possibly_invalid_random_data(&mut self) -> (r: u32)
        ensures
            drdy(old(self).periph()) ==> r == old(self).periph().words@[0]
                && final(self).periph().words@ == old(self).periph().words@.drop_first(),
            !drdy(old(self).periph()) ==> r == 0
                && final(self).periph().words@ == old(self).periph().words@,
            final(self).periph().rngen == old(self).periph().rngen,
            final(self).periph().ie == old(self).periph().ie,
            final(self).periph().cecs == old(self).periph().cecs,
            final(self).periph().secs == old(self).periph().secs,
            final(self).periph().ready_delay == old(self).periph().ready_delay,
            final(self).periph().sr_reads == old(self).periph().sr_reads,
            final(self).periph().dr_reads == sat64(old(self).periph().dr_reads + 1),
    {
        self.rng.read_dr()
    }
}

/// Enabling a powered-down peripheral and then freeing it returns a raw
/// handle equal to the original, so a second enable starts from the very
/// same state and succeeds or fails exactly as the first did.
pub proof fn lemma_enable_free_round_trip(p: RngPeripheral)
    requires
        p.rngen == false,
    ensures
        disable_step(enable_step(p)) == p,
        enable_step(disable_step(enable_step(p))) == enable_step(p),
{
    assert(disable_step(enable_step(p)) =~= p);
    assert(enable_step(disable_step(enable_step(p))) =~= enable_step(p));
}

} // verus!
