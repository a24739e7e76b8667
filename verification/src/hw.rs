//! Register-level models of the hardware the driver drives: the peripheral's
//! own register block and the shared bus-clock gate.
//!
//! Memory-mapped registers are global mutable hardware state; the driver
//! represents each block as an explicitly owned value passed by move or
//! exclusive reference, which preserves the single-owner discipline the
//! hardware demands.  Hardware-written state (status flags, produced words,
//! acknowledgment latency) is held as plain values, so a test can stand in
//! for the silicon by constructing the value it wants.

use vstd::prelude::*;

verus! {

/// Clamps a mathematical count into a `u64`.  The read counters below
/// saturate instead of wrapping, so their contracts stay exact without
/// demanding headroom from every caller.
pub open spec fn sat64(x: int) -> u64 {
    if x >= u64::MAX {
        u64::MAX
    } else if x <= 0 {
        0
    } else {
        x as u64
    }
}

/// Saturating increments compose: bumping a clamped count equals clamping
/// the bumped count.
pub proof fn lemma_sat64_add(x: int, d: int)
    requires
        x >= 0,
        d >= 0,
    ensures
        sat64(sat64(x) as int + d) == sat64(x + d),
{
}

/// Saturating counter increment.
fn sat_inc(c: u64) -> (r: u64)
    ensures
        r == sat64(c as int + 1),
{
    if c < u64::MAX {
        c + 1
    } else {
        c
    }
}

/// Model of the peripheral's exclusively owned register block.
///
/// The control-register bits are driver-written; the status flags, the
/// readiness latency and the queue of words the entropy source will deliver
/// are hardware-written, and a constructor sets them to whatever behaviour
/// the surrounding system (or a test) wants the silicon to exhibit.  The two
/// read counters record how often the driver touched the status and data
/// registers.
#[derive(Debug)]
#[verifier::ext_equal]
pub struct RngPeripheral {
    /// Control register: the peripheral's internal enable bit.
    pub rngen: bool,
    /// Control register: the interrupt-enable bit.
    pub ie: bool,
    /// Status register: clock-error flag, set by hardware when the input
    /// clock drifts out of its valid envelope.
    pub cecs: bool,
    /// Status register: seed-error flag, set by hardware when its internal
    /// seeding process fails.  The driver only reports it, never clears it.
    pub secs: bool,
    /// Status reads remaining before the next pending word is announced as
    /// ready; models the hardware's generation latency.
    pub ready_delay: u64,
    /// Words the entropy source will deliver, front first.
    pub words: Vec<u32>,
    /// How many times the status register has been read (saturating).
    pub sr_reads: u64,
    /// How many times the data register has been read (saturating).
    pub dr_reads: u64,
}

/// The data-ready flag: a fresh word is present exactly when the generation
/// latency has elapsed and the source has a word left to deliver.
pub open spec fn drdy(p: RngPeripheral) -> bool {
    p.ready_delay == 0 && p.words@.len() > 0
}

/// How one status-register read changes the peripheral: the read counter is
/// bumped, one tick of generation latency elapses, and everything else —
/// in particular both sticky error flags — is untouched.
pub open spec fn sr_read_step(p: RngPeripheral, q: RngPeripheral) -> bool {
    &&& q.rngen == p.rngen
    &&& q.ie == p.ie
    &&& q.cecs == p.cecs
    &&& q.secs == p.secs
    &&& q.ready_delay == if p.ready_delay > 0 { p.ready_delay - 1 } else { 0int }
    &&& q.words@ == p.words@
    &&& q.sr_reads == sat64(p.sr_reads as int + 1)
    &&& q.dr_reads == p.dr_reads
}

impl RngPeripheral {
    /// A powered-down peripheral whose entropy source will deliver `words`,
    /// announcing the first of them ready after `ready_delay` status reads.
    pub fn new(words: Vec<u32>, ready_delay: u64) -> (r: Self)
        ensures
            r.rngen == false,
            r.ie == false,
            r.cecs == false,
            r.secs == false,
            r.ready_delay == ready_delay,
            r.words@ == words@,
            r.sr_reads == 0,
            r.dr_reads == 0,
    {
        RngPeripheral {
            rngen: false,
            ie: false,
            cecs: false,
            secs: false,
            ready_delay,
            words,
            sr_reads: 0,
            dr_reads: 0,
        }
    }

    /// One read of the status register, returning the flags
    /// `(drdy, cecs, secs)` as the hardware reports them at this instant.
    pub(crate) fn read_sr(&mut self) -> (r: (bool, bool, bool))
        ensures
            r.0 == drdy(*old(self)),
            r.1 == old(self).cecs,
            r.2 == old(self).secs,
            sr_read_step(*old(self), *final(self)),
    {
        let ready = self.ready_delay == 0 && self.words.len() > 0;
        let flags = (ready, self.cecs, self.secs);
        if self.ready_delay > 0 {
            self.ready_delay = self.ready_delay - 1;
        }
        self.sr_reads = sat_inc(self.sr_reads);
        flags
    }

    /// One unconditional read of the data register.  With a word ready it
    /// consumes and returns that word — which is defined by the hardware to
    /// implicitly clear readiness until the next word is produced — and with
    /// nothing ready it returns zero and consumes nothing.
    pub(crate) fn read_dr(&mut self) -> (r: u32)
        ensures
            drdy(*old(self)) ==> r == old(self).words@[0]
                && final(self).words@ == old(self).words@.drop_first(),
            !drdy(*old(self)) ==> r == 0 && final(self).words@ == old(self).words@,
            final(self).rngen == old(self).rngen,
            final(self).ie == old(self).ie,
            final(self).cecs == old(self).cecs,
            final(self).secs == old(self).secs,
            final(self).ready_delay == old(self).ready_delay,
            final(self).sr_reads == old(self).sr_reads,
            final(self).dr_reads == sat64(old(self).dr_reads as int + 1),
    {
        let r: u32 = if self.ready_delay == 0 && self.words.len() > 0 {
            self.words.remove(0)
        } else {
            0
        };
        self.dr_reads = sat_inc(self.dr_reads);
        r
    }
}

/// Model of the shared bus-clock-enable register.
///
/// Enable bits of several peripherals live in this one register, so the
/// driver writes it only by read-modify-write; the model holds the sibling
/// bits as a word of their own, and every contract below says they come out
/// unchanged.  A freshly set enable bit takes effect once the
/// clock physically starts, which the hardware signals by letting the bit
/// read back as set; `ack_delay` models that latency.
#[derive(Debug)]
#[verifier::ext_equal]
pub struct BusGate {
    /// The peripheral's bus-clock-enable bit.
    pub rng_enabled: bool,
    /// The other peripherals' bits sharing the register.
    pub sibling_bits: u32,
    /// Reads of the acknowledgment bit that still report it clear after a
    /// fresh set, before the hardware confirms the clock is flowing.
    pub ack_delay: u64,
}

impl BusGate {
    /// A gate whose enable bit is clear, whose sibling bits hold
    /// `sibling_bits`, and which will acknowledge a fresh enable only after
    /// `ack_delay` reads.
    pub fn new(sibling_bits: u32, ack_delay: u64) -> (r: Self)
        ensures
            r.rng_enabled == false,
            r.sibling_bits == sibling_bits,
            r.ack_delay == ack_delay,
    {
        BusGate { rng_enabled: false, sibling_bits, ack_delay }
    }

    /// Read-modify-write that sets the peripheral's bus-clock-enable bit and
    /// leaves every sibling bit as it was.
    pub(crate) fn set_rng_enable(&mut self)
        ensures
            final(self).rng_enabled == true,
            final(self).sibling_bits == old(self).sibling_bits,
            final(self).ack_delay == old(self).ack_delay,
    {
        self.rng_enabled = true;
    }

    /// One read of the enable-acknowledgment bit.  While the propagation
    /// latency has not elapsed the bit still reads as clear; afterwards it
    /// reports the enable bit itself.
    pub(crate) fn rng_enable_ack(&mut self) -> (r: bool)
        ensures
            old(self).ack_delay > 0 ==> r == false
                && final(self).ack_delay == old(self).ack_delay - 1,
            old(self).ack_delay == 0 ==> r == old(self).rng_enabled
                && final(self).ack_delay == 0,
            final(self).rng_enabled == old(self).rng_enabled,
            final(self).sibling_bits == old(self).sibling_bits,
    {
        if self.ack_delay > 0 {
            self.ack_delay = self.ack_delay - 1;
            false
        } else {
            self.rng_enabled
        }
    }

    /// Read-modify-write that clears the peripheral's bus-clock-enable bit
    /// and leaves every sibling bit as it was.  The driver may close the
    /// gate only when the peripheral's own enable bit is already clear —
    /// disable first, then ungate — and the borrow of the register block
    /// lets this method demand that order.
    pub(crate) fn clear_rng_enable(&mut self, periph: &RngPeripheral)
        requires
            periph.rngen == false,
        ensures
            final(self).rng_enabled == false,
            final(self).sibling_bits == old(self).sibling_bits,
            final(self).ack_delay == old(self).ack_delay,
    {
        self.rng_enabled = false;
    }
}

} // verus!
