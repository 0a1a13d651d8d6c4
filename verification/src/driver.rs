//! The driver: it owns the bus, remembers the settings that the conversion of
//! samples depends on, and offers the device's operations.
//!
//! An operation is made of single transactions: a read of one or more
//! registers, a write of one register, or the update of a field, which reads
//! a register and writes it back. The contracts say which transactions an
//! operation adds to the history of the bus, in which order, and what it
//! returns for each way in which they may end. Each transaction in the
//! history is one that the bus itself has made: what an implementation of the
//! bus says of its transactions holds of every one of them. An operation ends at the first
//! transaction that fails, with the error of that transaction.
use vstd::prelude::*;
use crate::interface::{Interface, Recorded, Transfer, TransferKind};
use crate::register_data::{
    AccelerationData, AllInterruptSources, AllSources, EventStatus, FifoSamplesStatus,
    RawAccelerationData, SixDSource, Status, TapSource, WakeUpSource, offset_byte,
    offset_to_byte, raw_sample, sample_value, temperature_from_raw, temperature_value,
};
use crate::register_settings::{
    BandwidthSelection, FifoMode, FreeFallThreshold, FullScale, Int1PadConfig, Int2PadConfig,
    Mode, OutputDataRate, TapPriority, Threshold6D, clamp_to, clamped, flag, flag_bits,
};
use crate::registers::{
    Register, BDU, BW_FILT_MASK, BW_FILT_SHIFT, CS_PU_DISC, DRDY_PULSED, EN_4D, FDS, FF_DUR5,
    FF_DUR_MASK, FF_DUR_SHIFT, FF_THS_MASK, FF_THS_SHIFT, FMODE_MASK, FMODE_SHIFT, FS_MASK,
    FS_SHIFT, FTH_MASK, FTH_SHIFT, HP_REF_MODE, INT2_ON_INT1, INTERRUPTS_ENABLE, LATENCY_MASK,
    LATENCY_SHIFT, LOW_NOISE, LPASS_ON6D, MODE_LP_MODE_MASK, ODR_MASK, ODR_SHIFT, QUIET_MASK,
    QUIET_SHIFT, SHOCK_MASK, SHOCK_SHIFT, SINGLE_DOUBLE_TAP, SLEEP_DUR_MASK, SLEEP_DUR_SHIFT,
    SLEEP_ON, SOFT_RESET, STATIONARY, TAP_PRIOR_MASK, TAP_PRIOR_SHIFT, TAP_THS_MASK,
    TAP_THS_SHIFT, TAP_XYZ_MASK, TAP_XYZ_SHIFT, THS_6D_MASK, THS_6D_SHIFT, USR_OFF_ON_OUT,
    USR_OFF_ON_WU, USR_OFF_W, WK_DUR_MASK, WK_DUR_SHIFT, WK_THS_MASK, WK_THS_SHIFT,
};

verus! {

/// The byte that a field update writes: `current` with the bits of `mask`
/// replaced by `bits`.
pub open spec fn merge_field_spec(current: u8, mask: u8, bits: u8) -> u8 {
    (current & !mask) | bits
}

/// Replaces the bits of `mask` in `current` by `bits`.
pub fn merge_field(current: u8, mask: u8, bits: u8) -> (r: u8)
    ensures
        r == merge_field_spec(current, mask, bits),
{
    (current & !mask) | bits
}

/// Whether `t` records a read of `n` bytes that was announced by the one
/// address byte `first`.
pub open spec fn is_read<I: Interface>(t: Transfer<I>, first: u8, n: nat) -> bool {
    &&& t.kind == TransferKind::WriteRead
    &&& t.sent == seq![first]
    &&& t.received.len() == n
}

/// Whether `t` records a plain write of `data` that ended in `r`.
pub open spec fn is_write<I: Interface>(
    t: Transfer<I>,
    data: Seq<u8>,
    r: Result<(), I::Error>,
) -> bool {
    &&& t.kind == TransferKind::Write
    &&& t.sent == data
    &&& t.received.len() == 0
    &&& t.outcome == r
}

/// The bytes that a recorded read delivered, or the error that it ended in.
pub open spec fn read_outcome<I: Interface>(t: Transfer<I>) -> Result<Seq<u8>, I::Error> {
    match t.outcome {
        Ok(()) => Ok(t.received),
        Err(e) => Err(e),
    }
}

/// Whether history `h1` is `h0` with further transactions after it.
pub open spec fn extends<I: Interface>(h0: Seq<Transfer<I>>, h1: Seq<Transfer<I>>) -> bool {
    &&& h0.len() <= h1.len()
    &&& forall|i: int| 0 <= i < h0.len() ==> h1[i] == h0[i]
}

/// The three enable bits of tap detection, X highest.
pub open spec fn tap_axes_bits(x_enable: bool, y_enable: bool, z_enable: bool) -> u8 {
    flag_bits(x_enable, 0b100) | flag_bits(y_enable, 0b010) | flag_bits(z_enable, 0b001)
}

/// The left-justified samples that six bytes read from the output registers
/// stand for: X, Y and Z, each low byte first.
pub open spec fn raw_acceleration(b: Seq<u8>) -> RawAccelerationData
    recommends
        b.len() == 6,
{
    RawAccelerationData {
        x: sample_value(b[0], b[1]) as i16,
        y: sample_value(b[2], b[3]) as i16,
        z: sample_value(b[4], b[5]) as i16,
    }
}

/// The acceleration in micro-g that six bytes read from the output registers
/// stand for.
pub open spec fn acceleration(b: Seq<u8>, full_scale: FullScale, mode: Mode) -> AccelerationData
    recommends
        b.len() == 6,
{
    AccelerationData {
        x: full_scale.raw_to_ug(sample_value(b[0], b[1]) as i16, mode) as i32,
        y: full_scale.raw_to_ug(sample_value(b[2], b[3]) as i16, mode) as i32,
        z: full_scale.raw_to_ug(sample_value(b[4], b[5]) as i16, mode) as i32,
    }
}

/// How many registers a dump reads.
pub const DUMPED_REGISTERS: usize = 19;

/// The registers that a dump reads, in the order in which it reads them: the
/// control and configuration registers by address, CTRL7 last.
pub open spec fn dumped_registers() -> Seq<Register> {
    seq![
        Register::CTRL1,
        Register::CTRL2,
        Register::CTRL3,
        Register::CTRL4_INT1_PAD_CTRL,
        Register::CTRL5_INT2_PAD_CTRL,
        Register::CTRL6,
        Register::FIFO_CTRL,
        Register::FIFO_SAMPLES,
        Register::TAP_THS_X,
        Register::TAP_THS_Y,
        Register::TAP_THS_Z,
        Register::INT_DUR,
        Register::WAKE_UP_THS,
        Register::WAKE_UP_DUR,
        Register::FREE_FALL,
        Register::X_OFS_USR,
        Register::Y_OFS_USR,
        Register::Z_OFS_USR,
        Register::CTRL7,
    ]
}

/// LIS2DTW12 driver
pub struct Lis2dtw12<I: Interface> {
    interface: Recorded<I>,
    mode: Mode,
    fullscale: FullScale,
}

impl<I: Interface> Lis2dtw12<I> {
    /// The bus that the driver owns.
    pub closed spec fn interface(&self) -> I {
        self.interface.bus()
    }

    /// All transactions that the driver has made on its bus, oldest first,
    /// each with the bytes handed over, the bytes handed back and the result.
    pub closed spec fn history(&self) -> Seq<Transfer<I>> {
        self.interface.history()
    }

    /// The mode that the driver converts samples by.
    pub closed spec fn mode(&self) -> Mode {
        self.mode
    }

    /// The full scale that the driver converts samples by.
    pub closed spec fn full_scale(&self) -> FullScale {
        self.fullscale
    }

    /// The bus as transaction `i` of `post` found it, where `post` has come
    /// from `pre`: the bus of `pre` for the first transaction added, else the
    /// bus as the transaction before left it. For `i` the length of the
    /// history, the bus as it is now.
    pub open spec fn bus_before(pre: Self, post: Self, i: int) -> I {
        if i == pre.history().len() {
            pre.interface()
        } else {
            post.history()[i - 1].after
        }
    }

    /// From `pre` to `post` the driver has made transactions on its bus and
    /// nothing else: the history has only grown, every transaction added is
    /// one that the bus says it may make, each began where the one before
    /// had left the bus, and the bus is now as the last one left it.
    pub open spec fn linked(pre: Self, post: Self) -> bool {
        &&& extends(pre.history(), post.history())
        &&& forall|i: int|
            pre.history().len() <= i < post.history().len() ==> {
                &&& (#[trigger] post.history()[i]).allowed()
                &&& post.history()[i].before == Self::bus_before(pre, post, i)
            }
        &&& post.interface() == Self::bus_before(pre, post, post.history().len() as int)
    }

    /// From `pre` to `post` exactly one read was made, of `n` bytes announced
    /// by the address byte `first`, and the remembered settings are the same.
    pub open spec fn read_step(pre: Self, post: Self, first: u8, n: nat) -> bool {
        &&& post.mode() == pre.mode()
        &&& post.full_scale() == pre.full_scale()
        &&& Self::linked(pre, post)
        &&& post.history().len() == pre.history().len() + 1
        &&& is_read(post.history().last(), first, n)
    }

    /// What the last transaction delivered, taken as a read.
    pub open spec fn last_read(&self) -> Result<Seq<u8>, I::Error> {
        read_outcome(self.history().last())
    }

    /// From `pre` to `post` exactly one write was made, of `data`, it ended in
    /// `r`, and the remembered settings are the same.
    pub open spec fn write_step(
        pre: Self,
        post: Self,
        data: Seq<u8>,
        r: Result<(), I::Error>,
    ) -> bool {
        &&& post.mode() == pre.mode()
        &&& post.full_scale() == pre.full_scale()
        &&& Self::linked(pre, post)
        &&& post.history().len() == pre.history().len() + 1
        &&& is_write(post.history().last(), data, r)
    }

    /// From `pre` to `post` one field of `reg` was updated: `reg` was read,
    /// and, if and only if that read succeeded, the byte that it delivered
    /// was written back with the bits of `mask` replaced by `bits`. `r` is
    /// the error of the read or else the outcome of the write.
    pub open spec fn field_update(
        pre: Self,
        post: Self,
        reg: Register,
        mask: u8,
        bits: u8,
        r: Result<(), I::Error>,
    ) -> bool {
        let n = pre.history().len() as int;
        let first = post.history()[n];
        &&& Self::linked(pre, post)
        &&& n < post.history().len()
        &&& is_read(first, reg.addr_spec(), 1)
        &&& match first.outcome {
            Err(e) => post.history().len() == n + 1 && r == Err::<(), I::Error>(e),
            Ok(()) => post.history().len() == n + 2 && is_write(
                post.history()[n + 1],
                seq![reg.addr_spec(), merge_field_spec(first.received[0], mask, bits)],
                r,
            ),
        }
    }

    /// From `pre` to `post` one field of `reg` was updated and the remembered
    /// settings are the same.
    pub open spec fn update_step(
        pre: Self,
        post: Self,
        reg: Register,
        mask: u8,
        bits: u8,
        r: Result<(), I::Error>,
    ) -> bool {
        &&& post.mode() == pre.mode()
        &&& post.full_scale() == pre.full_scale()
        &&& Self::field_update(pre, post, reg, mask, bits, r)
    }

    /// From `pre` to `post` two fields were updated in turn, with the driver
    /// as `mid` in between: the second only if the first update succeeded.
    /// `r1` is the outcome of the first update; `r` is its error or else the
    /// outcome of the second.
    pub open spec fn field_updates_via(
        pre: Self,
        mid: Self,
        post: Self,
        first: (Register, u8, u8),
        second: (Register, u8, u8),
        r1: Result<(), I::Error>,
        r: Result<(), I::Error>,
    ) -> bool {
        &&& Self::field_update(pre, mid, first.0, first.1, first.2, r1)
        &&& match r1 {
            Err(e) => post == mid && r == Err::<(), I::Error>(e),
            Ok(()) => Self::field_update(mid, post, second.0, second.1, second.2, r),
        }
    }

    /// From `pre` to `post` two fields were updated in turn, the second only
    /// if the first update succeeded. `r` is the error of the first update or
    /// else the outcome of the second.
    pub open spec fn two_field_updates(
        pre: Self,
        post: Self,
        first: (Register, u8, u8),
        second: (Register, u8, u8),
        r: Result<(), I::Error>,
    ) -> bool {
        exists|mid: Self, r1: Result<(), I::Error>|
            Self::field_updates_via(pre, mid, post, first, second, r1, r)
    }

    /// From `pre` to `post` the reset status was polled: every transaction
    /// added is a read of CTRL2, and each but the last succeeded and showed
    /// the reset bit still set.
    pub open spec fn reset_polls(pre: Self, post: Self) -> bool {
        let h0 = pre.history();
        let h1 = post.history();
        &&& Self::linked(pre, post)
        &&& forall|i: int|
            h0.len() <= i < h1.len() ==> is_read(#[trigger] h1[i], Register::CTRL2.addr_spec(), 1)
        &&& forall|i: int|
            h0.len() <= i < h1.len() - 1 ==> read_outcome(#[trigger] h1[i]) is Ok
                && h1[i].received[0] & SOFT_RESET != 0
    }

    /// From `pre` to `post` the reset status was polled at most `max_polls`
    /// times, and `r` is what came of it: the error of the read that failed,
    /// else whether the last read showed the reset bit cleared. Polling ends
    /// with the first read that fails or shows the bit cleared; `Ok(false)`
    /// comes only after `max_polls` reads.
    pub open spec fn polled(
        pre: Self,
        post: Self,
        max_polls: u32,
        r: Result<bool, I::Error>,
    ) -> bool {
        let h0 = pre.history();
        let h1 = post.history();
        &&& Self::reset_polls(pre, post)
        &&& h1.len() - h0.len() <= max_polls
        &&& max_polls > 0 ==> h1.len() > h0.len()
        &&& r == (if h1.len() == h0.len() {
            Ok::<bool, I::Error>(false)
        } else {
            match read_outcome(h1.last()) {
                Ok(b) => Ok::<bool, I::Error>(b[0] & SOFT_RESET == 0),
                Err(e) => Err(e),
            }
        })
        &&& r == Ok::<bool, I::Error>(false) ==> h1.len() - h0.len() == max_polls
    }

    /// From `pre` to `post` the reset bit was set, with the driver as `mid`
    /// and outcome `r1` after that, and, if and only if that succeeded, the
    /// reset status was polled. The remembered settings are those after
    /// power-on once the reset bit is written, and unchanged if it was not.
    pub open spec fn reset_and_poll_via(
        pre: Self,
        mid: Self,
        post: Self,
        r1: Result<(), I::Error>,
        max_polls: u32,
        r: Result<bool, I::Error>,
    ) -> bool {
        &&& Self::field_update(pre, mid, Register::CTRL2, SOFT_RESET, SOFT_RESET, r1)
        &&& match r1 {
            Err(e) => {
                &&& post == mid
                &&& r == Err::<bool, I::Error>(e)
                &&& post.mode() == pre.mode()
                &&& post.full_scale() == pre.full_scale()
            },
            Ok(()) => {
                &&& Self::polled(mid, post, max_polls, r)
                &&& post.mode() == Mode::ContinuousLowPower1
                &&& post.full_scale() == FullScale::G2
            },
        }
    }

    /// From `pre` to `post` the reset bit was set and, if that succeeded, the
    /// reset status was polled at most `max_polls` times.
    pub open spec fn reset_and_poll(
        pre: Self,
        post: Self,
        max_polls: u32,
        r: Result<bool, I::Error>,
    ) -> bool {
        exists|mid: Self, r1: Result<(), I::Error>|
            Self::reset_and_poll_via(pre, mid, post, r1, max_polls, r)
    }

    /// From `pre` to `post` registers were read for a dump: in the order of
    /// `dumped_registers`, one byte each, and each read but the last
    /// succeeded.
    pub open spec fn dump_reads(pre: Self, post: Self) -> bool {
        let h0 = pre.history();
        let h1 = post.history();
        &&& Self::linked(pre, post)
        &&& h1.len() - h0.len() <= DUMPED_REGISTERS
        &&& forall|i: int|
            0 <= i < h1.len() - h0.len() ==> is_read(
                #[trigger] h1[h0.len() + i],
                dumped_registers()[i].addr_spec(),
                1,
            )
        &&& forall|i: int|
            0 <= i < h1.len() - h0.len() - 1 ==> (#[trigger] h1[h0.len() + i]).outcome is Ok
    }

    /// Transactions made one after another are linked from the first state to
    /// the last.
    pub proof fn lemma_linked_trans(a: Self, b: Self, c: Self)
        requires
            Self::linked(a, b),
            Self::linked(b, c),
        ensures
            Self::linked(a, c),
    {
        assert forall|i: int| a.history().len() <= i < c.history().len() implies {
            &&& (#[trigger] c.history()[i]).allowed()
            &&& c.history()[i].before == Self::bus_before(a, c, i)
        } by {
            if i < b.history().len() {
                assert(c.history()[i] == b.history()[i]);
                if i > a.history().len() {
                    assert(c.history()[i - 1] == b.history()[i - 1]);
                }
            } else if i == b.history().len() && i > a.history().len() {
                assert(c.history()[i - 1] == b.history()[i - 1]);
            }
        }
        if c.history().len() == b.history().len() && b.history().len() > a.history().len() {
            assert(c.history()[b.history().len() - 1] == b.history()[b.history().len() - 1]);
        }
    }

    /// Create a new driver from a given interface. The remembered settings are
    /// those of the device after power-on, whatever the device holds.
    pub fn new(interface: I) -> (d: Self)
        ensures
            d.interface() == interface,
            d.history() == Seq::<Transfer<I>>::empty(),
            d.mode() == Mode::ContinuousLowPower1,
            d.full_scale() == FullScale::G2,
    {
        Self {
            interface: Recorded::new(interface),
            mode: Mode::default(),
            fullscale: FullScale::default(),
        }
    }

    /// Destroy the driver instance returning the interface instance
    pub fn destroy(self) -> (i: I)
        ensures
            i == self.interface(),
    {
        self.interface.into_inner()
    }

    /// Read the WHO_AM_I register
    pub fn get_device_id(&mut self) -> (r: Result<u8, I::Error>)
        ensures
            Self::read_step(*old(self), *final(self), Register::WHO_AM_I.addr_spec(), 1),
            r == match final(self).last_read() {
                Ok(b) => Ok::<u8, I::Error>(b[0]),
                Err(e) => Err(e),
            },
    {
        match self.read_reg(Register::WHO_AM_I) {
            Ok(v) => Ok(v),
            Err(e) => Err(e),
        }
    }

    /// Read the RAW temperature data
    pub fn get_temperature_raw(&mut self) -> (r: Result<i16, I::Error>)
        ensures
            Self::read_step(*old(self), *final(self), Register::OUT_T_L.burst_addr_spec(), 2),
            r == match final(self).last_read() {
                Ok(b) => Ok::<i16, I::Error>(sample_value(b[0], b[1]) as i16),
                Err(e) => Err(e),
            },
    {
        self.read_sample(Register::OUT_T_L)
    }

    /// Read the temperature data, in degrees Celsius times 256
    pub fn get_temperature(&mut self) -> (r: Result<i32, I::Error>)
        ensures
            Self::read_step(*old(self), *final(self), Register::OUT_T_L.burst_addr_spec(), 2),
            r == match final(self).last_read() {
                Ok(b) => Ok::<i32, I::Error>(
                    temperature_value(sample_value(b[0], b[1]) as i16) as i32,
                ),
                Err(e) => Err(e),
            },
    {
        match self.read_sample(Register::OUT_T_L) {
            Ok(raw) => Ok(temperature_from_raw(raw)),
            Err(e) => Err(e),
        }
    }

    /// Set the Output Data Rate
    pub fn set_output_data_rate(&mut self, odr: OutputDataRate) -> (r: Result<(), I::Error>)
        ensures
            Self::update_step(
                *old(self),
                *final(self),
                Register::CTRL1,
                ODR_MASK,
                odr.bits_spec() << ODR_SHIFT,
                r,
            ),
    {
        self.modify_reg(Register::CTRL1, ODR_MASK, odr.bits() << ODR_SHIFT)
    }

    /// Set the Mode. The driver remembers the mode for the conversion of samples,
    /// once the device has taken it.
    pub fn set_mode(&mut self, mode: Mode) -> (r: Result<(), I::Error>)
        ensures
            Self::field_update(
                *old(self),
                *final(self),
                Register::CTRL1,
                MODE_LP_MODE_MASK,
                mode.bits_spec(),
                r,
            ),
            final(self).mode() == (if r is Ok {
                mode
            } else {
                old(self).mode()
            }),
            final(self).full_scale() == old(self).full_scale(),
    {
        let r = self.modify_reg(Register::CTRL1, MODE_LP_MODE_MASK, mode.bits());
        if r.is_ok() {
            self.mode = mode;
        }
        r
    }

    /// Reset all settings (CTRL registers to default)
    ///
    /// # NOTE
    ///
    /// This will not wait for the reset to complete
    /// you should poll the reset status using [`Self::get_reset_complete`]
    /// or [`Self::poll_reset_complete`] to check if the reset is complete
    ///
    /// The accelerometer will not work while resetting!
    ///
    /// Once the reset bit is written, the remembered settings are those of the
    /// device after power-on.
    pub fn reset_settings(&mut self) -> (r: Result<(), I::Error>)
        ensures
            Self::field_update(
                *old(self),
                *final(self),
                Register::CTRL2,
                SOFT_RESET,
                SOFT_RESET,
                r,
            ),
            final(self).mode() == (if r is Ok {
                Mode::ContinuousLowPower1
            } else {
                old(self).mode()
            }),
            final(self).full_scale() == (if r is Ok {
                FullScale::G2
            } else {
                old(self).full_scale()
            }),
    {
        let r = self.reg_set_bits(Register::CTRL2, SOFT_RESET);
        if r.is_ok() {
            self.mode = Mode::default();
            self.fullscale = FullScale::default();
        }
        r
    }

    /// Get the reset status from the CTRL2 register
    pub fn get_reset_complete(&mut self) -> (r: Result<bool, I::Error>)
        ensures
            Self::read_step(*old(self), *final(self), Register::CTRL2.addr_spec(), 1),
            r == match final(self).last_read() {
                Ok(b) => Ok::<bool, I::Error>(b[0] & SOFT_RESET == 0),
                Err(e) => Err(e),
            },
    {
        match self.read_reg(Register::CTRL2) {
            Ok(v) => Ok(v & SOFT_RESET == 0),
            Err(e) => Err(e),
        }
    }

    /// Polls the reset status until the reset is complete, a read fails, or
    /// `max_polls` reads were made. Returns whether the reset is complete.
    ///
    /// A caller that wants to wait without a limit calls this in a loop.
    pub fn poll_reset_complete(&mut self, max_polls: u32) -> (r: Result<bool, I::Error>)
        ensures
            final(self).mode() == old(self).mode(),
            final(self).full_scale() == old(self).full_scale(),
            Self::polled(*old(self), *final(self), max_polls, r),
    {
        let ghost pre = *self;
        let mut polls: u32 = 0;
        while polls < max_polls
            invariant
                polls <= max_polls,
                pre == *old(self),
                self.mode() == pre.mode(),
                self.full_scale() == pre.full_scale(),
                Self::linked(pre, *self),
                self.history().len() == pre.history().len() + polls,
                forall|i: int|
                    pre.history().len() <= i < self.history().len() ==> is_read(
                        #[trigger] self.history()[i],
                        Register::CTRL2.addr_spec(),
                        1,
                    ) && read_outcome(self.history()[i]) is Ok && self.history()[i].received[0]
                        & SOFT_RESET != 0,
            decreases max_polls - polls,
        {
            let ghost mid = *self;
            let step = self.get_reset_complete();
            proof {
                Self::lemma_linked_trans(pre, mid, *self);
            }
            match step {
                Ok(done) => {
                    if done {
                        return Ok(true);
                    }
                },
                Err(e) => {
                    return Err(e);
                },
            }
            polls += 1;
        }
        Ok(false)
    }

    /// Reset all settings (CTRL registers to default) and wait until the
    /// device reports the reset complete, for at most `max_polls` reads of the
    /// reset status. Returns whether the reset is complete.
    ///
    /// # NOTE
    ///
    /// This will block while it polls
    ///
    /// Consider using [`Self::reset_settings`] and polling the reset status using [`Self::get_reset_complete`]
    pub fn reset_settings_blocking(&mut self, max_polls: u32) -> (r: Result<bool, I::Error>)
        ensures
            Self::reset_and_poll(*old(self), *final(self), max_polls, r),
    {
        let ghost pre = *self;
        let r1 = self.reset_settings();
        let ghost mid = *self;
        let ghost outcome = r1;
        match r1 {
            Ok(_) => {
                let r = self.poll_reset_complete(max_polls);
                assert(Self::reset_and_poll_via(pre, mid, *self, outcome, max_polls, r));
                r
            },
            Err(e) => {
                assert(Self::reset_and_poll_via(pre, mid, *self, outcome, max_polls, Err(e)));
                Err(e)
            },
        }
    }

    /// (Dis-)connect CS pull-up (only relevant when using SPI interface)
    pub fn disconnect_cs_pull_up(&mut self, disconnect: bool) -> (r: Result<(), I::Error>)
        ensures
            Self::update_step(
                *old(self),
                *final(self),
                Register::CTRL3,
                CS_PU_DISC,
                flag_bits(disconnect, CS_PU_DISC),
                r,
            ),
    {
        if disconnect {
            self.reg_set_bits(Register::CTRL3, CS_PU_DISC)
        } else {
            self.reg_reset_bits(Register::CTRL3, CS_PU_DISC)
        }
    }

    /// Enable or disable block data update
    ///
    /// When enabled, the output registers are continously updated
    ///
    /// When disabled, the output registers are updated only after MSB and LSB reading
    ///
    /// Enabled by default
    pub fn enable_continuous_update(&mut self, enable: bool) -> (r: Result<(), I::Error>)
        ensures
            Self::update_step(
                *old(self),
                *final(self),
                Register::CTRL3,
                BDU,
                flag_bits(enable, BDU),
                r,
            ),
    {
        if enable {
            self.reg_set_bits(Register::CTRL3, BDU)
        } else {
            self.reg_reset_bits(Register::CTRL3, BDU)
        }
    }

    /// Set the bandwidth selection
    pub fn set_bandwidth(&mut self, bandwidth: BandwidthSelection) -> (r: Result<(), I::Error>)
        ensures
            Self::update_step(
                *old(self),
                *final(self),
                Register::CTRL6,
                BW_FILT_MASK,
                bandwidth.bits_spec() << BW_FILT_SHIFT,
                r,
            ),
    {
        self.modify_reg(Register::CTRL6, BW_FILT_MASK, bandwidth.bits() << BW_FILT_SHIFT)
    }

    /// Set the full-scale selection. The driver remembers the full scale for the
    /// conversion of samples, once the device has taken it.
    pub fn set_full_scale(&mut self, full_scale: FullScale) -> (r: Result<(), I::Error>)
        ensures
            Self::field_update(
                *old(self),
                *final(self),
                Register::CTRL6,
                FS_MASK,
                full_scale.bits_spec() << FS_SHIFT,
                r,
            ),
            final(self).full_scale() == (if r is Ok {
                full_scale
            } else {
                old(self).full_scale()
            }),
            final(self).mode() == old(self).mode(),
    {
        let r = self.modify_reg(Register::CTRL6, FS_MASK, full_scale.bits() << FS_SHIFT);
        if r.is_ok() {
            self.fullscale = full_scale;
        }
        r
    }

    /// Set configuration for INT1 pad
    pub fn configure_int1_pad(&mut self, config: Int1PadConfig) -> (r: Result<(), I::Error>)
        ensures
            Self::write_step(
                *old(self),
                *final(self),
                seq![Register::CTRL4_INT1_PAD_CTRL.addr_spec(), config.encode()],
                r,
            ),
    {
        self.write_reg(Register::CTRL4_INT1_PAD_CTRL, u8::from(config))
    }

    /// Set configuration for INT2 pad
    pub fn configure_int2_pad(&mut self, config: Int2PadConfig) -> (r: Result<(), I::Error>)
        ensures
            Self::write_step(
                *old(self),
                *final(self),
                seq![Register::CTRL5_INT2_PAD_CTRL.addr_spec(), config.encode()],
                r,
            ),
    {
        self.write_reg(Register::CTRL5_INT2_PAD_CTRL, u8::from(config))
    }

    /// Enable/Disable Filtered data type selection
    ///
    /// disabled: low-pass filter path selected
    ///
    /// enabled: high-pass filter path selected
    ///
    /// Disabled by default
    pub fn enable_filtered_data_selection(&mut self, enable: bool) -> (r: Result<(), I::Error>)
        ensures
            Self::update_step(
                *old(self),
                *final(self),
                Register::CTRL6,
                FDS,
                flag_bits(enable, FDS),
                r,
            ),
    {
        if enable {
            self.reg_set_bits(Register::CTRL6, FDS)
        } else {
            self.reg_reset_bits(Register::CTRL6, FDS)
        }
    }

    /// Enable/Disable low-noise configuration
    /// Disabled by default
    pub fn enable_low_noise(&mut self, enable: bool) -> (r: Result<(), I::Error>)
        ensures
            Self::update_step(
                *old(self),
                *final(self),
                Register::CTRL6,
                LOW_NOISE,
                flag_bits(enable, LOW_NOISE),
                r,
            ),
    {
        if enable {
            self.reg_set_bits(Register::CTRL6, LOW_NOISE)
        } else {
            self.reg_reset_bits(Register::CTRL6, LOW_NOISE)
        }
    }

    /// Get the status of the device
    ///
    /// # NOTE
    ///
    /// Status and Event Status registers are mostly the same. Where the Status
    /// register reports the FIFO threshold and the wake-up event, the Event Status
    /// register reports the FIFO overrun and the temperature data ready status.
    pub fn get_status(&mut self) -> (r: Result<Status, I::Error>)
        ensures
            Self::read_step(*old(self), *final(self), Register::STATUS.addr_spec(), 1),
            r == match final(self).last_read() {
                Ok(b) => Ok::<Status, I::Error>(Status::decode(b[0])),
                Err(e) => Err(e),
            },
    {
        match self.read_reg(Register::STATUS) {
            Ok(v) => Ok(Status::from(v)),
            Err(e) => Err(e),
        }
    }

    /// Get the Event Status register
    ///
    /// # NOTE
    ///
    /// Status and Event Status registers are mostly the same. Where the Status
    /// register reports the FIFO threshold and the wake-up event, the Event Status
    /// register reports the FIFO overrun and the temperature data ready status.
    pub fn get_event_status(&mut self) -> (r: Result<EventStatus, I::Error>)
        ensures
            Self::read_step(*old(self), *final(self), Register::STATUS_DUP.addr_spec(), 1),
            r == match final(self).last_read() {
                Ok(b) => Ok::<EventStatus, I::Error>(EventStatus::decode(b[0])),
                Err(e) => Err(e),
            },
    {
        match self.read_reg(Register::STATUS_DUP) {
            Ok(v) => Ok(EventStatus::from(v)),
            Err(e) => Err(e),
        }
    }

    /// Get all source registers
    ///
    /// Reads the following registers succesively, in one burst:
    /// - STATUS_DUP
    /// - WAKE_UP_SRC
    /// - TAP_SRC
    /// - SIXD_SRC
    /// - ALL_INT_SRC
    ///
    /// # NOTE
    ///
    /// Reading ALL_INT_SRC clears all latched interrupt flags on the device:
    /// the read is not repeatable.
    pub fn get_all_sources(&mut self) -> (r: Result<AllSources, I::Error>)
        ensures
            Self::read_step(
                *old(self),
                *final(self),
                Register::STATUS_DUP.burst_addr_spec(),
                5,
            ),
            r == match final(self).last_read() {
                Ok(b) => Ok::<AllSources, I::Error>(AllSources::decode(b)),
                Err(e) => Err(e),
            },
    {
        let mut buffer = [0u8; 5];
        match self.read_regs(Register::STATUS_DUP, &mut buffer) {
            Ok(()) => Ok(AllSources::from(buffer)),
            Err(e) => Err(e),
        }
    }

    /// Get the X-axis RAW acceleration data
    ///
    /// # NOTE
    ///
    /// The data is 12/14-bit (depending on the mode) left-justified!
    pub fn get_x_accel_raw(&mut self) -> (r: Result<i16, I::Error>)
        ensures
            Self::read_step(*old(self), *final(self), Register::OUT_X_L.burst_addr_spec(), 2),
            r == match final(self).last_read() {
                Ok(b) => Ok::<i16, I::Error>(sample_value(b[0], b[1]) as i16),
                Err(e) => Err(e),
            },
    {
        self.read_sample(Register::OUT_X_L)
    }

    /// Get the Y-axis RAW acceleration data
    ///
    /// # NOTE
    ///
    /// The data is 12/14-bit (depending on the mode) left-justified!
    pub fn get_y_accel_raw(&mut self) -> (r: Result<i16, I::Error>)
        ensures
            Self::read_step(*old(self), *final(self), Register::OUT_Y_L.burst_addr_spec(), 2),
            r == match final(self).last_read() {
                Ok(b) => Ok::<i16, I::Error>(sample_value(b[0], b[1]) as i16),
                Err(e) => Err(e),
            },
    {
        self.read_sample(Register::OUT_Y_L)
    }

    /// Get the Z-axis RAW acceleration data
    ///
    /// # NOTE
    ///
    /// The data is 12/14-bit (depending on the mode) left-justified!
    pub fn get_z_accel_raw(&mut self) -> (r: Result<i16, I::Error>)
        ensures
            Self::read_step(*old(self), *final(self), Register::OUT_Z_L.burst_addr_spec(), 2),
            r == match final(self).last_read() {
                Ok(b) => Ok::<i16, I::Error>(sample_value(b[0], b[1]) as i16),
                Err(e) => Err(e),
            },
    {
        self.read_sample(Register::OUT_Z_L)
    }

    /// Get the X-axis acceleration data
    ///
    /// # Returns
    ///
    /// - X-Acceleration in micro-g
    pub fn get_x_accel(&mut self) -> (r: Result<i32, I::Error>)
        ensures
            Self::read_step(*old(self), *final(self), Register::OUT_X_L.burst_addr_spec(), 2),
            r == match final(self).last_read() {
                Ok(b) => Ok::<i32, I::Error>(
                    old(self).full_scale().raw_to_ug(
                        sample_value(b[0], b[1]) as i16,
                        old(self).mode(),
                    ) as i32,
                ),
                Err(e) => Err(e),
            },
    {
        match self.read_sample(Register::OUT_X_L) {
            Ok(raw) => Ok(self.fullscale.convert_raw_i16_to_ug(raw, self.mode)),
            Err(e) => Err(e),
        }
    }

    /// Get the Y-axis acceleration data
    ///
    /// # Returns
    ///
    /// - Y-Acceleration in micro-g
    pub fn get_y_accel(&mut self) -> (r: Result<i32, I::Error>)
        ensures
            Self::read_step(*old(self), *final(self), Register::OUT_Y_L.burst_addr_spec(), 2),
            r == match final(self).last_read() {
                Ok(b) => Ok::<i32, I::Error>(
                    old(self).full_scale().raw_to_ug(
                        sample_value(b[0], b[1]) as i16,
                        old(self).mode(),
                    ) as i32,
                ),
                Err(e) => Err(e),
            },
    {
        match self.read_sample(Register::OUT_Y_L) {
            Ok(raw) => Ok(self.fullscale.convert_raw_i16_to_ug(raw, self.mode)),
            Err(e) => Err(e),
        }
    }

    /// Get the Z-axis acceleration data
    ///
    /// # Returns
    ///
    /// - Z-Acceleration in micro-g
    pub fn get_z_accel(&mut self) -> (r: Result<i32, I::Error>)
        ensures
            Self::read_step(*old(self), *final(self), Register::OUT_Z_L.burst_addr_spec(), 2),
            r == match final(self).last_read() {
                Ok(b) => Ok::<i32, I::Error>(
                    old(self).full_scale().raw_to_ug(
                        sample_value(b[0], b[1]) as i16,
                        old(self).mode(),
                    ) as i32,
                ),
                Err(e) => Err(e),
            },
    {
        match self.read_sample(Register::OUT_Z_L) {
            Ok(raw) => Ok(self.fullscale.convert_raw_i16_to_ug(raw, self.mode)),
            Err(e) => Err(e),
        }
    }

    /// Get the RAW acceleration data of the three axes, read in one burst
    ///
    /// # NOTE
    ///
    /// The data is 12/14-bit (depending on the mode) left-justified!
    pub fn get_accel_data_raw(&mut self) -> (r: Result<RawAccelerationData, I::Error>)
        ensures
            Self::read_step(*old(self), *final(self), Register::OUT_X_L.burst_addr_spec(), 6),
            r == match final(self).last_read() {
                Ok(b) => Ok::<RawAccelerationData, I::Error>(raw_acceleration(b)),
                Err(e) => Err(e),
            },
    {
        let mut buffer = [0u8; 6];
        match self.read_regs(Register::OUT_X_L, &mut buffer) {
            Ok(()) => Ok(
                RawAccelerationData {
                    x: raw_sample(buffer[0], buffer[1]),
                    y: raw_sample(buffer[2], buffer[3]),
                    z: raw_sample(buffer[4], buffer[5]),
                },
            ),
            Err(e) => Err(e),
        }
    }

    /// Get the acceleration data
    ///
    /// # Returns
    ///
    /// - `AccelerationData` struct containing the acceleration data in micro-g
    pub fn get_accel_data(&mut self) -> (r: Result<AccelerationData, I::Error>)
        ensures
            Self::read_step(*old(self), *final(self), Register::OUT_X_L.burst_addr_spec(), 6),
            r == match final(self).last_read() {
                Ok(b) => Ok::<AccelerationData, I::Error>(
                    acceleration(b, old(self).full_scale(), old(self).mode()),
                ),
                Err(e) => Err(e),
            },
    {
        let mut buffer = [0u8; 6];
        match self.read_regs(Register::OUT_X_L, &mut buffer) {
            Ok(()) => {
                let fs = self.fullscale;
                Ok(
                    AccelerationData {
                        x: fs.convert_raw_i16_to_ug(raw_sample(buffer[0], buffer[1]), self.mode),
                        y: fs.convert_raw_i16_to_ug(raw_sample(buffer[2], buffer[3]), self.mode),
                        z: fs.convert_raw_i16_to_ug(raw_sample(buffer[4], buffer[5]), self.mode),
                    },
                )
            },
            Err(e) => Err(e),
        }
    }

    /// Set the FIFO mode
    pub fn set_fifo_mode(&mut self, fifo_mode: FifoMode) -> (r: Result<(), I::Error>)
        ensures
            Self::update_step(
                *old(self),
                *final(self),
                Register::CTRL3,
                FMODE_MASK,
                fifo_mode.bits_spec() << FMODE_SHIFT,
                r,
            ),
    {
        self.modify_reg(Register::CTRL3, FMODE_MASK, fifo_mode.bits() << FMODE_SHIFT)
    }

    /// Set the FIFO threshold
    ///
    /// # NOTE
    ///
    /// Fifo threshold is a 5-bit value (0-31).
    ///
    /// If the given threshold value is greater than 31, it will be set to 31
    pub fn set_fifo_threshold(&mut self, threshold: u8) -> (r: Result<(), I::Error>)
        ensures
            Self::update_step(
                *old(self),
                *final(self),
                Register::FIFO_CTRL,
                FTH_MASK,
                clamped(threshold, 31) << FTH_SHIFT,
                r,
            ),
    {
        let limited: u8 = clamp_to(threshold, 31);
        self.modify_reg(Register::FIFO_CTRL, FTH_MASK, limited << FTH_SHIFT)
    }

    /// Get the FIFO samples status
    pub fn get_fifo_samples_status(&mut self) -> (r: Result<FifoSamplesStatus, I::Error>)
        ensures
            Self::read_step(*old(self), *final(self), Register::FIFO_SAMPLES.addr_spec(), 1),
            r == match final(self).last_read() {
                Ok(b) => Ok::<FifoSamplesStatus, I::Error>(FifoSamplesStatus::decode(b[0])),
                Err(e) => Err(e),
            },
    {
        match self.read_reg(Register::FIFO_SAMPLES) {
            Ok(v) => Ok(FifoSamplesStatus::from(v)),
            Err(e) => Err(e),
        }
    }

    /// Enable 4D decection portrait/landscape position
    ///
    /// Disabled by default
    ///
    /// # NOTE
    ///
    /// Only works when also enabling interrupts [`Self::enable_interrupts`]
    pub fn enable_4d_detection(&mut self, enable: bool) -> (r: Result<(), I::Error>)
        ensures
            Self::update_step(
                *old(self),
                *final(self),
                Register::TAP_THS_X,
                EN_4D,
                flag_bits(enable, EN_4D),
                r,
            ),
    {
        if enable {
            self.reg_set_bits(Register::TAP_THS_X, EN_4D)
        } else {
            self.reg_reset_bits(Register::TAP_THS_X, EN_4D)
        }
    }

    /// Set the 6D threshold
    ///
    /// Thresholds for 4D/6D function @ FS = ±2g
    pub fn set_6d_threshold(&mut self, threshold: Threshold6D) -> (r: Result<(), I::Error>)
        ensures
            Self::update_step(
                *old(self),
                *final(self),
                Register::TAP_THS_X,
                THS_6D_MASK,
                threshold.bits_spec() << THS_6D_SHIFT,
                r,
            ),
    {
        self.modify_reg(Register::TAP_THS_X, THS_6D_MASK, threshold.bits() << THS_6D_SHIFT)
    }

    /// Set the tap priority
    ///
    /// Tap Priority axis selection for tap detection
    pub fn set_tap_priority(&mut self, tap_priority: TapPriority) -> (r: Result<(), I::Error>)
        ensures
            Self::update_step(
                *old(self),
                *final(self),
                Register::TAP_THS_Y,
                TAP_PRIOR_MASK,
                tap_priority.bits_spec() << TAP_PRIOR_SHIFT,
                r,
            ),
    {
        self.modify_reg(Register::TAP_THS_Y, TAP_PRIOR_MASK, tap_priority.bits() << TAP_PRIOR_SHIFT)
    }

    /// Enable X/Y/Z direction tap recognition
    ///
    /// # NOTE
    ///
    /// Only works when also enabling interrupts [`Self::enable_interrupts`]
    pub fn enable_xyz_tap_detection(
        &mut self,
        x_enable: bool,
        y_enable: bool,
        z_enable: bool,
    ) -> (r: Result<(), I::Error>)
        ensures
            Self::update_step(
                *old(self),
                *final(self),
                Register::TAP_THS_Z,
                TAP_XYZ_MASK,
                tap_axes_bits(x_enable, y_enable, z_enable) << TAP_XYZ_SHIFT,
                r,
            ),
    {
        let val: u8 = flag(x_enable, 0b100) | flag(y_enable, 0b010) | flag(z_enable, 0b001);
        self.modify_reg(Register::TAP_THS_Z, TAP_XYZ_MASK, val << TAP_XYZ_SHIFT)
    }

    /// Set the tap Threshold for X direction
    ///
    /// # NOTE
    ///
    /// Threshold is a 5-bit value (0-31).
    ///
    /// If the given threshold value is greater than 31, it will be set to 31
    pub fn set_x_tap_threshold(&mut self, threshold: u8) -> (r: Result<(), I::Error>)
        ensures
            Self::update_step(
                *old(self),
                *final(self),
                Register::TAP_THS_X,
                TAP_THS_MASK,
                clamped(threshold, 31) << TAP_THS_SHIFT,
                r,
            ),
    {
        let limited: u8 = clamp_to(threshold, 31);
        self.modify_reg(Register::TAP_THS_X, TAP_THS_MASK, limited << TAP_THS_SHIFT)
    }

    /// Set the tap Threshold for Y direction
    ///
    /// # NOTE
    ///
    /// Threshold is a 5-bit value (0-31).
    ///
    /// If the given threshold value is greater than 31, it will be set to 31
    pub fn set_y_tap_threshold(&mut self, threshold: u8) -> (r: Result<(), I::Error>)
        ensures
            Self::update_step(
                *old(self),
                *final(self),
                Register::TAP_THS_Y,
                TAP_THS_MASK,
                clamped(threshold, 31) << TAP_THS_SHIFT,
                r,
            ),
    {
        let limited: u8 = clamp_to(threshold, 31);
        self.modify_reg(Register::TAP_THS_Y, TAP_THS_MASK, limited << TAP_THS_SHIFT)
    }

    /// Set the tap Threshold for Z direction
    ///
    /// # NOTE
    ///
    /// Threshold is a 5-bit value (0-31).
    ///
    /// If the given threshold value is greater than 31, it will be set to 31
    pub fn set_z_tap_threshold(&mut self, threshold: u8) -> (r: Result<(), I::Error>)
        ensures
            Self::update_step(
                *old(self),
                *final(self),
                Register::TAP_THS_Z,
                TAP_THS_MASK,
                clamped(threshold, 31) << TAP_THS_SHIFT,
                r,
            ),
    {
        let limited: u8 = clamp_to(threshold, 31);
        self.modify_reg(Register::TAP_THS_Z, TAP_THS_MASK, limited << TAP_THS_SHIFT)
    }

    /// Duration of maximum time gap for double-tap recognition. When double-tap recognition is enabled, this
    /// register expresses the maximum time between two successive detected taps to determine a double-tap event.
    ///
    /// Default value is LATENCY[3:0] = 0000 (which is 16 * 1/ODR)
    ///
    /// 1 LSB = 32 * 1/ODR
    ///
    /// # NOTE
    ///
    /// Latency is a 4-bit value (0-15).
    ///
    /// If the given latency value is greater than 15, it will be set to 15
    pub fn set_double_tap_latency(&mut self, latency: u8) -> (r: Result<(), I::Error>)
        ensures
            Self::update_step(
                *old(self),
                *final(self),
                Register::INT_DUR,
                LATENCY_MASK,
                clamped(latency, 15) << LATENCY_SHIFT,
                r,
            ),
    {
        let limited: u8 = clamp_to(latency, 15);
        self.modify_reg(Register::INT_DUR, LATENCY_MASK, limited << LATENCY_SHIFT)
    }

    /// Expected quiet time after a tap detection: this register represents the time after the first detected tap in which
    /// there must not be any overthreshold event.
    ///
    /// Default value is QUIET[1:0] = 00 (which is 2 * 1/ODR)
    ///
    /// 1 LSB = 4 * 1/ODR
    ///
    /// # NOTE
    ///
    /// Quiet time is a 2-bit value (0-3).
    ///
    /// If the given quiet time value is greater than 3, it will be set to 3
    pub fn set_tap_quiet_time(&mut self, quiet_time: u8) -> (r: Result<(), I::Error>)
        ensures
            Self::update_step(
                *old(self),
                *final(self),
                Register::INT_DUR,
                QUIET_MASK,
                clamped(quiet_time, 3) << QUIET_SHIFT,
                r,
            ),
    {
        let limited: u8 = clamp_to(quiet_time, 3);
        self.modify_reg(Register::INT_DUR, QUIET_MASK, limited << QUIET_SHIFT)
    }

    /// Maximum duration of overthreshold event: this register represents the maximum time of an overthreshold
    /// signal detection to be recognized as a tap event.
    ///
    /// Default value is SHOCK[1:0] = 00 (which is 4 * 1/ODR)
    /// 1 LSB = 8 *1/ODR
    ///
    /// # NOTE
    ///
    /// Shock time is a 2-bit value (0-3).
    ///
    /// If the given shock time value is greater than 3, it will be set to 3
    pub fn set_tap_shock_time(&mut self, shock_time: u8) -> (r: Result<(), I::Error>)
        ensures
            Self::update_step(
                *old(self),
                *final(self),
                Register::INT_DUR,
                SHOCK_MASK,
                clamped(shock_time, 3) << SHOCK_SHIFT,
                r,
            ),
    {
        let limited: u8 = clamp_to(shock_time, 3);
        self.modify_reg(Register::INT_DUR, SHOCK_MASK, limited << SHOCK_SHIFT)
    }

    /// Enable/Disable double-tap detection
    ///
    /// enabled: Single and double tap detection enabled
    ///
    /// disabled: Only single tap detection enabled
    ///
    /// Disabled by default
    ///
    /// # NOTE
    ///
    /// Only works when also enabling interrupts [`Self::enable_interrupts`]
    pub fn enable_double_tap_detection(&mut self, enable: bool) -> (r: Result<(), I::Error>)
        ensures
            Self::update_step(
                *old(self),
                *final(self),
                Register::WAKE_UP_THS,
                SINGLE_DOUBLE_TAP,
                flag_bits(enable, SINGLE_DOUBLE_TAP),
                r,
            ),
    {
        if enable {
            self.reg_set_bits(Register::WAKE_UP_THS, SINGLE_DOUBLE_TAP)
        } else {
            self.reg_reset_bits(Register::WAKE_UP_THS, SINGLE_DOUBLE_TAP)
        }
    }

    /// Enable/Disable sleep mode
    ///
    /// enabled: Sleep mode enabled
    ///
    /// disabled: Sleep mode disabled
    ///
    /// Disabled by default
    pub fn enable_sleep_mode(&mut self, enable: bool) -> (r: Result<(), I::Error>)
        ensures
            Self::update_step(
                *old(self),
                *final(self),
                Register::WAKE_UP_THS,
                SLEEP_ON,
                flag_bits(enable, SLEEP_ON),
                r,
            ),
    {
        if enable {
            self.reg_set_bits(Register::WAKE_UP_THS, SLEEP_ON)
        } else {
            self.reg_reset_bits(Register::WAKE_UP_THS, SLEEP_ON)
        }
    }

    /// Set the wake-up threshold
    ///
    /// Wake-up threshold, 6-bit unsigned 1 LSB = 1/64 of FS.
    ///
    /// Default value: 000000
    ///
    /// # NOTE
    ///
    /// Threshold is a 6-bit value (0-63).
    ///
    /// If the given threshold value is greater than 63, it will be set to 63
    pub fn set_wake_up_threshold(&mut self, threshold: u8) -> (r: Result<(), I::Error>)
        ensures
            Self::update_step(
                *old(self),
                *final(self),
                Register::WAKE_UP_THS,
                WK_THS_MASK,
                clamped(threshold, 63) << WK_THS_SHIFT,
                r,
            ),
    {
        let limited: u8 = clamp_to(threshold, 63);
        self.modify_reg(Register::WAKE_UP_THS, WK_THS_MASK, limited << WK_THS_SHIFT)
    }

    /// Set the wake-up duration
    ///
    /// Wake-up duration. 1 LSB = 1 *1/ODR
    ///
    /// # NOTE
    ///
    /// Duration is a 2-bit value (0-3).
    ///
    /// If the given duration value is greater than 3, it will be set to 3
    pub fn set_wake_up_duration(&mut self, duration: u8) -> (r: Result<(), I::Error>)
        ensures
            Self::update_step(
                *old(self),
                *final(self),
                Register::WAKE_UP_DUR,
                WK_DUR_MASK,
                clamped(duration, 3) << WK_DUR_SHIFT,
                r,
            ),
    {
        let limited: u8 = clamp_to(duration, 3);
        self.modify_reg(Register::WAKE_UP_DUR, WK_DUR_MASK, limited << WK_DUR_SHIFT)
    }

    /// Enable/Disable stationary detection / motion detection with no automatic ODR change
    /// when detecting stationary state
    ///
    /// enabled: Stationary detection enabled
    ///
    /// disabled: Stationary detection disabled
    ///
    /// Disabled by default
    ///
    /// # NOTE
    ///
    /// Only works when also enabling interrupts [`Self::enable_interrupts`]
    pub fn enable_stationary_detection(&mut self, enable: bool) -> (r: Result<(), I::Error>)
        ensures
            Self::update_step(
                *old(self),
                *final(self),
                Register::WAKE_UP_DUR,
                STATIONARY,
                flag_bits(enable, STATIONARY),
                r,
            ),
    {
        if enable {
            self.reg_set_bits(Register::WAKE_UP_DUR, STATIONARY)
        } else {
            self.reg_reset_bits(Register::WAKE_UP_DUR, STATIONARY)
        }
    }

    /// Set duration to go in sleep mode
    ///
    /// Default value is SLEEP_ DUR[3:0] = 0000 (which is 16 * 1/ODR).
    ///
    /// 1 LSB = 512 * 1/ODR
    ///
    /// # NOTE
    ///
    /// Duration is a 4-bit value (0-15).
    ///
    /// If the given duration value is greater than 15, it will be set to 15
    pub fn set_sleep_duration(&mut self, duration: u8) -> (r: Result<(), I::Error>)
        ensures
            Self::update_step(
                *old(self),
                *final(self),
                Register::WAKE_UP_DUR,
                SLEEP_DUR_MASK,
                clamped(duration, 15) << SLEEP_DUR_SHIFT,
                r,
            ),
    {
        let limited: u8 = clamp_to(duration, 15);
        self.modify_reg(Register::WAKE_UP_DUR, SLEEP_DUR_MASK, limited << SLEEP_DUR_SHIFT)
    }

    /// Set the free-fall duration
    ///
    /// 1 LSB = 1 * 1/ODR
    ///
    /// Default value is FF_DUR[5:0] = 000000
    ///
    /// The highest bit of the duration lies in WAKE_UP_DUR and is written
    /// first; the five low bits lie in FREE_FALL.
    ///
    /// # NOTE
    ///
    /// Duration is a 6-bit value (0-63).
    ///
    /// If the given duration value is greater than 63, it will be set to 63
    pub fn set_free_fall_duration(&mut self, duration: u8) -> (r: Result<(), I::Error>)
        ensures
            final(self).mode() == old(self).mode(),
            final(self).full_scale() == old(self).full_scale(),
            Self::two_field_updates(
                *old(self),
                *final(self),
                (
                    Register::WAKE_UP_DUR,
                    FF_DUR5,
                    flag_bits(clamped(duration, 63) & 0b10_0000 > 0, FF_DUR5),
                ),
                (Register::FREE_FALL, FF_DUR_MASK, clamped(duration, 63) << FF_DUR_SHIFT),
                r,
            ),
    {
        let d: u8 = clamp_to(duration, 63);
        let ghost pre = *self;
        let r1 = if d & 0b10_0000 > 0 {
            self.reg_set_bits(Register::WAKE_UP_DUR, FF_DUR5)
        } else {
            self.reg_reset_bits(Register::WAKE_UP_DUR, FF_DUR5)
        };
        let ghost mid = *self;
        let ghost first = (
            Register::WAKE_UP_DUR,
            FF_DUR5,
            flag_bits(d & 0b10_0000 > 0, FF_DUR5),
        );
        let ghost second = (Register::FREE_FALL, FF_DUR_MASK, d << FF_DUR_SHIFT);
        if r1.is_err() {
            assert(Self::field_updates_via(pre, mid, *self, first, second, r1, r1));
            return r1;
        }
        let r = self.modify_reg(Register::FREE_FALL, FF_DUR_MASK, d << FF_DUR_SHIFT);
        assert(Self::field_updates_via(pre, mid, *self, first, second, r1, r));
        r
    }

    /// Set the free-fall threshold
    ///
    /// Free-fall threshold @ FS = ±2 g
    pub fn set_free_fall_threshold(
        &mut self,
        threshold: FreeFallThreshold,
    ) -> (r: Result<(), I::Error>)
        ensures
            Self::update_step(
                *old(self),
                *final(self),
                Register::FREE_FALL,
                FF_THS_MASK,
                threshold.bits_spec() << FF_THS_SHIFT,
                r,
            ),
    {
        self.modify_reg(Register::FREE_FALL, FF_THS_MASK, threshold.bits() << FF_THS_SHIFT)
    }

    /// Get the wake-up source
    pub fn get_wake_up_source(&mut self) -> (r: Result<WakeUpSource, I::Error>)
        ensures
            Self::read_step(*old(self), *final(self), Register::WAKE_UP_SRC.addr_spec(), 1),
            r == match final(self).last_read() {
                Ok(b) => Ok::<WakeUpSource, I::Error>(WakeUpSource::decode(b[0])),
                Err(e) => Err(e),
            },
    {
        match self.read_reg(Register::WAKE_UP_SRC) {
            Ok(v) => Ok(WakeUpSource::from(v)),
            Err(e) => Err(e),
        }
    }

    /// Get the tap source
    pub fn get_tap_source(&mut self) -> (r: Result<TapSource, I::Error>)
        ensures
            Self::read_step(*old(self), *final(self), Register::TAP_SRC.addr_spec(), 1),
            r == match final(self).last_read() {
                Ok(b) => Ok::<TapSource, I::Error>(TapSource::decode(b[0])),
                Err(e) => Err(e),
            },
    {
        match self.read_reg(Register::TAP_SRC) {
            Ok(v) => Ok(TapSource::from(v)),
            Err(e) => Err(e),
        }
    }

    /// Get the 6D source
    pub fn get_6d_source(&mut self) -> (r: Result<SixDSource, I::Error>)
        ensures
            Self::read_step(*old(self), *final(self), Register::SIXD_SRC.addr_spec(), 1),
            r == match final(self).last_read() {
                Ok(b) => Ok::<SixDSource, I::Error>(SixDSource::decode(b[0])),
                Err(e) => Err(e),
            },
    {
        match self.read_reg(Register::SIXD_SRC) {
            Ok(v) => Ok(SixDSource::from(v)),
            Err(e) => Err(e),
        }
    }

    /// Get all interrupt sources
    ///
    /// # NOTE
    ///
    /// Reading this register clears all interrupt function flags routed to the INT pads simultaneously!
    /// The read is therefore not repeatable: a second call reports what happened since the first.
    pub fn get_all_interrupt_sources(&mut self) -> (r: Result<AllInterruptSources, I::Error>)
        ensures
            Self::read_step(*old(self), *final(self), Register::ALL_INT_SRC.addr_spec(), 1),
            r == match final(self).last_read() {
                Ok(b) => Ok::<AllInterruptSources, I::Error>(AllInterruptSources::decode(b[0])),
                Err(e) => Err(e),
            },
    {
        match self.read_reg(Register::ALL_INT_SRC) {
            Ok(v) => Ok(AllInterruptSources::from(v)),
            Err(e) => Err(e),
        }
    }

    /// Set the X axis user offset value
    ///
    /// # ARGUMENTS
    ///
    /// - `offset`: Two's complement user offset value on X-axis data, used for wake-up function
    pub fn set_x_offset(&mut self, offset: i8) -> (r: Result<(), I::Error>)
        ensures
            Self::write_step(
                *old(self),
                *final(self),
                seq![Register::X_OFS_USR.addr_spec(), offset_byte(offset) as u8],
                r,
            ),
    {
        self.write_reg(Register::X_OFS_USR, offset_to_byte(offset))
    }

    /// Set the Y axis user offset value
    ///
    /// # ARGUMENTS
    ///
    /// - `offset`: Two's complement user offset value on Y-axis data, used for wake-up function
    pub fn set_y_offset(&mut self, offset: i8) -> (r: Result<(), I::Error>)
        ensures
            Self::write_step(
                *old(self),
                *final(self),
                seq![Register::Y_OFS_USR.addr_spec(), offset_byte(offset) as u8],
                r,
            ),
    {
        self.write_reg(Register::Y_OFS_USR, offset_to_byte(offset))
    }

    /// Set the Z axis user offset value
    ///
    /// # ARGUMENTS
    ///
    /// - `offset`: Two's complement user offset value on Z-axis data, used for wake-up function
    pub fn set_z_offset(&mut self, offset: i8) -> (r: Result<(), I::Error>)
        ensures
            Self::write_step(
                *old(self),
                *final(self),
                seq![Register::Z_OFS_USR.addr_spec(), offset_byte(offset) as u8],
                r,
            ),
    {
        self.write_reg(Register::Z_OFS_USR, offset_to_byte(offset))
    }

    /// Switch between latched and pulsed mode for data ready interrupt
    ///
    /// # ARGUMENTS
    ///
    /// - `enable`: Enable pulsed interrupt mode (true: enabled - pulsed mode, false: disabled - latched mode)
    ///
    /// Disabled by default
    pub fn set_pulsed_interrupt_mode(&mut self, enable: bool) -> (r: Result<(), I::Error>)
        ensures
            Self::update_step(
                *old(self),
                *final(self),
                Register::CTRL7,
                DRDY_PULSED,
                flag_bits(enable, DRDY_PULSED),
                r,
            ),
    {
        if enable {
            self.reg_set_bits(Register::CTRL7, DRDY_PULSED)
        } else {
            self.reg_reset_bits(Register::CTRL7, DRDY_PULSED)
        }
    }

    /// Route interrupts from INT2 pad to INT1
    ///
    /// # ARGUMENTS
    ///
    /// - `enabled`: Enable routing (true: enabled - All signals available only on INT2 are routed to INT1, false: disabled)
    ///
    /// Disabled by default
    pub fn route_int2_to_int1(&mut self, enable: bool) -> (r: Result<(), I::Error>)
        ensures
            Self::update_step(
                *old(self),
                *final(self),
                Register::CTRL7,
                INT2_ON_INT1,
                flag_bits(enable, INT2_ON_INT1),
                r,
            ),
    {
        if enable {
            self.reg_set_bits(Register::CTRL7, INT2_ON_INT1)
        } else {
            self.reg_reset_bits(Register::CTRL7, INT2_ON_INT1)
        }
    }

    /// Enable/Disable interrupts
    ///
    /// # ARGUMENTS
    ///
    /// - `enable`: Enable interrupts (true: enabled, false: disabled)
    ///
    /// Disabled by default
    pub fn enable_interrupts(&mut self, enable: bool) -> (r: Result<(), I::Error>)
        ensures
            Self::update_step(
                *old(self),
                *final(self),
                Register::CTRL7,
                INTERRUPTS_ENABLE,
                flag_bits(enable, INTERRUPTS_ENABLE),
                r,
            ),
    {
        if enable {
            self.reg_set_bits(Register::CTRL7, INTERRUPTS_ENABLE)
        } else {
            self.reg_reset_bits(Register::CTRL7, INTERRUPTS_ENABLE)
        }
    }

    /// Enable/Disable application of user offset values in accelerometer output data registers
    ///
    /// # NOTE
    ///
    /// `enable_filtered_data_selection` must be **DISABLED** (low-pass path selected)
    ///
    /// # ARGUMENTS
    ///
    /// - `enable`: Enable user offset values (true: enabled, false: disabled)
    ///
    /// Disabled by default
    pub fn enable_user_offset_on_output(&mut self, enable: bool) -> (r: Result<(), I::Error>)
        ensures
            Self::update_step(
                *old(self),
                *final(self),
                Register::CTRL7,
                USR_OFF_ON_OUT,
                flag_bits(enable, USR_OFF_ON_OUT),
                r,
            ),
    {
        if enable {
            self.reg_set_bits(Register::CTRL7, USR_OFF_ON_OUT)
        } else {
            self.reg_reset_bits(Register::CTRL7, USR_OFF_ON_OUT)
        }
    }

    /// Enable/Disable application of user offset values to wake-up function only
    ///
    /// # ARGUMENTS
    ///
    /// - `enable`: Enable user offset values (true: enabled, false: disabled)
    ///
    /// Disabled by default
    pub fn enable_user_offset_on_wake_up(&mut self, enable: bool) -> (r: Result<(), I::Error>)
        ensures
            Self::update_step(
                *old(self),
                *final(self),
                Register::CTRL7,
                USR_OFF_ON_WU,
                flag_bits(enable, USR_OFF_ON_WU),
                r,
            ),
    {
        if enable {
            self.reg_set_bits(Register::CTRL7, USR_OFF_ON_WU)
        } else {
            self.reg_reset_bits(Register::CTRL7, USR_OFF_ON_WU)
        }
    }

    /// Set the weight of the user offset values
    ///
    /// # ARGUMENTS
    ///
    /// - `high_weight`: true: 15.6 mg/LSB, false: 977 µg/LSB
    ///
    /// Default value is 977 µg/LSB (false)
    pub fn set_user_offset_weight(&mut self, high_weight: bool) -> (r: Result<(), I::Error>)
        ensures
            Self::update_step(
                *old(self),
                *final(self),
                Register::CTRL7,
                USR_OFF_W,
                flag_bits(high_weight, USR_OFF_W),
                r,
            ),
    {
        if high_weight {
            self.reg_set_bits(Register::CTRL7, USR_OFF_W)
        } else {
            self.reg_reset_bits(Register::CTRL7, USR_OFF_W)
        }
    }

    /// Enable/Disable high-pass filter reference mode
    ///
    /// # ARGUMENTS
    ///
    /// - `enable`: Enable high-pass filter reference mode (true: enabled, false: disabled)
    ///
    /// Disabled by default
    pub fn enable_high_pass_filter_reference_mode(
        &mut self,
        enable: bool,
    ) -> (r: Result<(), I::Error>)
        ensures
            Self::update_step(
                *old(self),
                *final(self),
                Register::CTRL7,
                HP_REF_MODE,
                flag_bits(enable, HP_REF_MODE),
                r,
            ),
    {
        if enable {
            self.reg_set_bits(Register::CTRL7, HP_REF_MODE)
        } else {
            self.reg_reset_bits(Register::CTRL7, HP_REF_MODE)
        }
    }

    /// Enable/Disable low-pass filter for 6D interrupt function
    ///
    /// # ARGUMENTS
    ///
    /// - `enable`: Enable low-pass filter
    ///
    ///     true: LPF2 output data sent to 6D interrupt function
    ///
    ///     false: OD2/2 low-pass filtered data sent to 6D interrupt function
    ///
    /// Disabled by default
    pub fn enable_low_pass_filter_6d_interrupt(&mut self, enable: bool) -> (r: Result<(), I::Error>)
        ensures
            Self::update_step(
                *old(self),
                *final(self),
                Register::CTRL7,
                LPASS_ON6D,
                flag_bits(enable, LPASS_ON6D),
                r,
            ),
    {
        if enable {
            self.reg_set_bits(Register::CTRL7, LPASS_ON6D)
        } else {
            self.reg_reset_bits(Register::CTRL7, LPASS_ON6D)
        }
    }

    /// Dump all registers: reads the control and configuration registers one
    /// by one and returns each with the byte that it holds. The first read
    /// that fails ends the dump.
    pub fn dump_registers(&mut self) -> (r: Result<Vec<(Register, u8)>, I::Error>)
        ensures
            final(self).mode() == old(self).mode(),
            final(self).full_scale() == old(self).full_scale(),
            Self::dump_reads(*old(self), *final(self)),
            final(self).history().len() > old(self).history().len(),
            match r {
                Ok(values) => {
                    &&& final(self).history().len() == old(self).history().len()
                        + DUMPED_REGISTERS
                    &&& final(self).history().last().outcome is Ok
                    &&& values@.len() == DUMPED_REGISTERS
                    &&& forall|i: int|
                        0 <= i < DUMPED_REGISTERS ==> #[trigger] values@[i] == (
                            dumped_registers()[i],
                            final(self).history()[old(self).history().len() + i].received[0],
                        )
                },
                Err(e) => final(self).history().last().outcome == Err::<(), I::Error>(e),
            },
    {
        let ghost pre = *self;
        let ghost h0 = self.history();
        let mut values: Vec<(Register, u8)> = Vec::new();
        let mut i: usize = 0;
        while i < DUMPED_REGISTERS
            invariant
                i <= DUMPED_REGISTERS,
                self.mode() == old(self).mode(),
                self.full_scale() == old(self).full_scale(),
                h0 == old(self).history(),
                pre == *old(self),
                Self::linked(pre, *self),
                self.history().len() == h0.len() + i,
                values@.len() == i,
                forall|j: int|
                    0 <= j < i ==> is_read(
                        #[trigger] self.history()[h0.len() + j],
                        dumped_registers()[j].addr_spec(),
                        1,
                    ) && self.history()[h0.len() + j].outcome is Ok,
                forall|j: int|
                    0 <= j < i ==> #[trigger] values@[j] == (
                        dumped_registers()[j],
                        self.history()[h0.len() + j].received[0],
                    ),
            decreases DUMPED_REGISTERS - i,
        {
            let ghost mid = *self;
            let reg = Self::register_to_dump(i);
            let step = self.read_reg(reg);
            proof {
                Self::lemma_linked_trans(pre, mid, *self);
            }
            match step {
                Ok(v) => {
                    values.push((reg, v));
                },
                Err(e) => {
                    return Err(e);
                },
            }
            i += 1;
        }
        assert(self.history().last() == self.history()[h0.len() + (DUMPED_REGISTERS - 1)]);
        Ok(values)
    }

    /// A field update adds to the history and changes nothing in it. It makes
    /// no transaction after one that failed: every transaction but the last
    /// succeeded, and the result of the update is the outcome of the last.
    pub proof fn lemma_field_update_ends_at_failure(
        pre: Self,
        post: Self,
        reg: Register,
        mask: u8,
        bits: u8,
        r: Result<(), I::Error>,
    )
        requires
            Self::field_update(pre, post, reg, mask, bits, r),
        ensures
            extends(pre.history(), post.history()),
            pre.history().len() + 1 <= post.history().len() <= pre.history().len() + 2,
            forall|i: int|
                pre.history().len() <= i < post.history().len() - 1 ==> (
                #[trigger] post.history()[i]).outcome is Ok,
            r == post.history().last().outcome,
            r is Ok ==> post.history().len() == pre.history().len() + 2,
    {
    }

    /// A read adds one transaction to the history and changes nothing in it,
    /// and leaves the remembered settings as they were, whether it succeeds
    /// or fails. The transaction is one of the bus, from the bus as it was
    /// to the bus as it is.
    pub proof fn lemma_read_step_extends(pre: Self, post: Self, first: u8, n: nat)
        requires
            Self::read_step(pre, post, first, n),
        ensures
            extends(pre.history(), post.history()),
            post.history().len() == pre.history().len() + 1,
            post.mode() == pre.mode(),
            post.full_scale() == pre.full_scale(),
            I::write_read_spec(
                &pre.interface(),
                seq![first],
                &post.interface(),
                post.history().last().received,
                post.history().last().outcome,
            ),
    {
    }

    /// A field update whose read succeeds is a read of the bus followed by a
    /// write of the bus, the write from where the read left the bus: what the
    /// bus says of its transactions holds of both.
    pub proof fn lemma_field_update_on_bus(
        pre: Self,
        post: Self,
        reg: Register,
        mask: u8,
        bits: u8,
        r: Result<(), I::Error>,
    )
        requires
            Self::field_update(pre, post, reg, mask, bits, r),
            post.history()[pre.history().len() as int].outcome is Ok,
        ensures
            I::write_read_spec(
                &pre.interface(),
                seq![reg.addr_spec()],
                &post.history()[pre.history().len() as int].after,
                post.history()[pre.history().len() as int].received,
                post.history()[pre.history().len() as int].outcome,
            ),
            I::write_spec(
                &post.history()[pre.history().len() as int].after,
                seq![
                    reg.addr_spec(),
                    merge_field_spec(
                        post.history()[pre.history().len() as int].received[0],
                        mask,
                        bits,
                    ),
                ],
                &post.interface(),
                r,
            ),
    {
        let n = pre.history().len() as int;
        assert(post.history()[n].allowed());
        assert(post.history()[n + 1].allowed());
    }

    fn register_to_dump(i: usize) -> (reg: Register)
        requires
            i < DUMPED_REGISTERS,
        ensures
            reg == dumped_registers()[i as int],
    {
        match i {
            0 => Register::CTRL1,
            1 => Register::CTRL2,
            2 => Register::CTRL3,
            3 => Register::CTRL4_INT1_PAD_CTRL,
            4 => Register::CTRL5_INT2_PAD_CTRL,
            5 => Register::CTRL6,
            6 => Register::FIFO_CTRL,
            7 => Register::FIFO_SAMPLES,
            8 => Register::TAP_THS_X,
            9 => Register::TAP_THS_Y,
            10 => Register::TAP_THS_Z,
            11 => Register::INT_DUR,
            12 => Register::WAKE_UP_THS,
            13 => Register::WAKE_UP_DUR,
            14 => Register::FREE_FALL,
            15 => Register::X_OFS_USR,
            16 => Register::Y_OFS_USR,
            17 => Register::Z_OFS_USR,
            _ => Register::CTRL7,
        }
    }

    fn read_reg(&mut self, reg: Register) -> (r: Result<u8, I::Error>)
        ensures
            Self::read_step(*old(self), *final(self), reg.addr_spec(), 1),
            r == match final(self).last_read() {
                Ok(b) => Ok::<u8, I::Error>(b[0]),
                Err(e) => Err(e),
            },
    {
        let mut data = [0u8; 1];
        let addr = [reg.addr()];
        assert(addr@ =~= seq![reg.addr_spec()]);
        match self.interface.write_read(&addr, &mut data) {
            Ok(()) => Ok(data[0]),
            Err(e) => Err(e),
        }
    }

    fn read_regs<const N: usize>(&mut self, reg: Register, buffer: &mut [u8; N]) -> (r: Result<
        (),
        I::Error,
    >)
        ensures
            Self::read_step(*old(self), *final(self), reg.burst_addr_spec(), N as nat),
            final(self).history().last().received == final(buffer)@,
            final(self).history().last().outcome == r,
    {
        let addr = [reg.burst_addr()];
        assert(addr@ =~= seq![reg.burst_addr_spec()]);
        self.interface.write_read(&addr, buffer)
    }

    fn read_sample(&mut self, reg: Register) -> (r: Result<i16, I::Error>)
        ensures
            Self::read_step(*old(self), *final(self), reg.burst_addr_spec(), 2),
            r == match final(self).last_read() {
                Ok(b) => Ok::<i16, I::Error>(sample_value(b[0], b[1]) as i16),
                Err(e) => Err(e),
            },
    {
        let mut buffer = [0u8; 2];
        match self.read_regs(reg, &mut buffer) {
            Ok(()) => Ok(raw_sample(buffer[0], buffer[1])),
            Err(e) => Err(e),
        }
    }

    fn write_reg(&mut self, reg: Register, data: u8) -> (r: Result<(), I::Error>)
        ensures
            Self::write_step(*old(self), *final(self), seq![reg.addr_spec(), data], r),
    {
        let bytes = [reg.addr(), data];
        assert(bytes@ =~= seq![reg.addr_spec(), data]);
        self.interface.write(&bytes)
    }

    fn modify_reg(&mut self, reg: Register, mask: u8, bits: u8) -> (r: Result<(), I::Error>)
        ensures
            Self::update_step(*old(self), *final(self), reg, mask, bits, r),
    {
        let ghost pre = *self;
        match self.read_reg(reg) {
            Ok(v) => {
                let ghost mid = *self;
                let r = self.write_reg(reg, merge_field(v, mask, bits));
                proof {
                    Self::lemma_linked_trans(pre, mid, *self);
                }
                r
            },
            Err(e) => Err(e),
        }
    }

    fn reg_set_bits(&mut self, reg: Register, mask: u8) -> (r: Result<(), I::Error>)
        ensures
            Self::update_step(*old(self), *final(self), reg, mask, mask, r),
    {
        self.modify_reg(reg, mask, mask)
    }

    fn reg_reset_bits(&mut self, reg: Register, mask: u8) -> (r: Result<(), I::Error>)
        ensures
            Self::update_step(*old(self), *final(self), reg, mask, 0, r),
    {
        self.modify_reg(reg, mask, 0)
    }
}

/// A field update leaves every bit outside the field as it was and puts the
/// new bits into the field, provided the new bits lie inside the field.
pub proof fn lemma_field_update_isolated(current: u8, mask: u8, bits: u8)
    by (bit_vector)
    requires
        bits & !mask == 0,
    ensures
        ((current & !mask) | bits) & !mask == current & !mask,
        ((current & !mask) | bits) & mask == bits,
{
}

/// Updating a field with all its bits sets them; updating it with none
/// clears them.
pub proof fn lemma_field_update_sets_and_clears(current: u8, mask: u8)
    by (bit_vector)
    ensures
        ((current & !mask) | mask) == current | mask,
        ((current & !mask) | 0) == current & !mask,
{
}

/// A bit pattern of a given width, shifted to its place, lies inside the mask
/// of each field of that place and width.
proof fn lemma_shifted_bits_fit(b: u8)
    by (bit_vector)
    ensures
        b <= 9 ==> (b << ODR_SHIFT) & !ODR_MASK == 0,
        b <= 15 ==> b & !MODE_LP_MODE_MASK == 0,
        b <= 3 ==> (b << BW_FILT_SHIFT) & !BW_FILT_MASK == 0,
        b <= 3 ==> (b << FS_SHIFT) & !FS_MASK == 0,
        (b << FMODE_SHIFT) & !FMODE_MASK == 0,
        b <= 3 ==> (b << THS_6D_SHIFT) & !THS_6D_MASK == 0,
        (b << TAP_PRIOR_SHIFT) & !TAP_PRIOR_MASK == 0,
        (b << TAP_XYZ_SHIFT) & !TAP_XYZ_MASK == 0,
        b <= 7 ==> (b << FF_THS_SHIFT) & !FF_THS_MASK == 0,
        b <= 31 ==> (b << FTH_SHIFT) & !FTH_MASK == 0,
        b <= 31 ==> (b << TAP_THS_SHIFT) & !TAP_THS_MASK == 0,
        b <= 15 ==> (b << LATENCY_SHIFT) & !LATENCY_MASK == 0,
        b <= 3 ==> (b << QUIET_SHIFT) & !QUIET_MASK == 0,
        b <= 3 ==> (b << SHOCK_SHIFT) & !SHOCK_MASK == 0,
        b <= 63 ==> (b << WK_THS_SHIFT) & !WK_THS_MASK == 0,
        b <= 3 ==> (b << WK_DUR_SHIFT) & !WK_DUR_MASK == 0,
        b <= 15 ==> (b << SLEEP_DUR_SHIFT) & !SLEEP_DUR_MASK == 0,
        (b << FF_DUR_SHIFT) & !FF_DUR_MASK == 0,
        b & !b == 0,
        0u8 & !b == 0,
{
}

/// What a setter of an enumerated setting puts into its field lies inside
/// the field's mask: with `lemma_field_update_isolated`, no such setter
/// changes a bit outside its field.
pub proof fn lemma_setting_fields_fit(
    odr: OutputDataRate,
    mode: Mode,
    bandwidth: BandwidthSelection,
    full_scale: FullScale,
    fifo_mode: FifoMode,
    threshold: Threshold6D,
    tap_priority: TapPriority,
    free_fall: FreeFallThreshold,
)
    ensures
        (odr.bits_spec() << ODR_SHIFT) & !ODR_MASK == 0,
        mode.bits_spec() & !MODE_LP_MODE_MASK == 0,
        (bandwidth.bits_spec() << BW_FILT_SHIFT) & !BW_FILT_MASK == 0,
        (full_scale.bits_spec() << FS_SHIFT) & !FS_MASK == 0,
        (fifo_mode.bits_spec() << FMODE_SHIFT) & !FMODE_MASK == 0,
        (threshold.bits_spec() << THS_6D_SHIFT) & !THS_6D_MASK == 0,
        (tap_priority.bits_spec() << TAP_PRIOR_SHIFT) & !TAP_PRIOR_MASK == 0,
        (free_fall.bits_spec() << FF_THS_SHIFT) & !FF_THS_MASK == 0,
{
    lemma_shifted_bits_fit(odr.bits_spec());
    lemma_shifted_bits_fit(mode.bits_spec());
    lemma_shifted_bits_fit(bandwidth.bits_spec());
    lemma_shifted_bits_fit(full_scale.bits_spec());
    lemma_shifted_bits_fit(fifo_mode.bits_spec());
    lemma_shifted_bits_fit(threshold.bits_spec());
    lemma_shifted_bits_fit(tap_priority.bits_spec());
    lemma_shifted_bits_fit(free_fall.bits_spec());
}

/// A bit pattern shifted to its place comes back when it is shifted down.
proof fn lemma_shifted_bits_read_back(b: u8)
    by (bit_vector)
    ensures
        b <= 9 ==> (b << ODR_SHIFT) >> ODR_SHIFT == b,
        b <= 3 ==> (b << BW_FILT_SHIFT) >> BW_FILT_SHIFT == b,
        b <= 3 ==> (b << FS_SHIFT) >> FS_SHIFT == b,
        b <= 7 ==> (b << FMODE_SHIFT) >> FMODE_SHIFT == b,
        b <= 3 ==> (b << THS_6D_SHIFT) >> THS_6D_SHIFT == b,
        b <= 7 ==> (b << TAP_PRIOR_SHIFT) >> TAP_PRIOR_SHIFT == b,
        b <= 7 ==> (b << FF_THS_SHIFT) >> FF_THS_SHIFT == b,
{
}

/// Reading a field back after a setter has written it gives the bit pattern
/// of the setting that was written, whatever the register held before: with
/// `lemma_bits_injective` of each setting, it gives that setting.
pub proof fn lemma_setting_fields_read_back(
    current: u8,
    odr: OutputDataRate,
    mode: Mode,
    bandwidth: BandwidthSelection,
    full_scale: FullScale,
    fifo_mode: FifoMode,
    threshold: Threshold6D,
    tap_priority: TapPriority,
    free_fall: FreeFallThreshold,
)
    ensures
        merge_field_spec(current, MODE_LP_MODE_MASK, mode.bits_spec()) & MODE_LP_MODE_MASK
            == mode.bits_spec(),
        (merge_field_spec(current, ODR_MASK, odr.bits_spec() << ODR_SHIFT) & ODR_MASK)
            >> ODR_SHIFT == odr.bits_spec(),
        (merge_field_spec(current, BW_FILT_MASK, bandwidth.bits_spec() << BW_FILT_SHIFT) & BW_FILT_MASK)
            >> BW_FILT_SHIFT == bandwidth.bits_spec(),
        (merge_field_spec(current, FS_MASK, full_scale.bits_spec() << FS_SHIFT) & FS_MASK)
            >> FS_SHIFT == full_scale.bits_spec(),
        (merge_field_spec(current, FMODE_MASK, fifo_mode.bits_spec() << FMODE_SHIFT) & FMODE_MASK)
            >> FMODE_SHIFT == fifo_mode.bits_spec(),
        (merge_field_spec(current, THS_6D_MASK, threshold.bits_spec() << THS_6D_SHIFT) & THS_6D_MASK)
            >> THS_6D_SHIFT == threshold.bits_spec(),
        (merge_field_spec(current, TAP_PRIOR_MASK, tap_priority.bits_spec() << TAP_PRIOR_SHIFT) & TAP_PRIOR_MASK)
            >> TAP_PRIOR_SHIFT == tap_priority.bits_spec(),
        (merge_field_spec(current, FF_THS_MASK, free_fall.bits_spec() << FF_THS_SHIFT) & FF_THS_MASK)
            >> FF_THS_SHIFT == free_fall.bits_spec(),
{
    lemma_setting_fields_fit(
        odr,
        mode,
        bandwidth,
        full_scale,
        fifo_mode,
        threshold,
        tap_priority,
        free_fall,
    );
    lemma_field_update_isolated(current, MODE_LP_MODE_MASK, mode.bits_spec());
    lemma_shifted_bits_read_back(odr.bits_spec());
    lemma_field_update_isolated(current, ODR_MASK, odr.bits_spec() << ODR_SHIFT);
    lemma_shifted_bits_read_back(bandwidth.bits_spec());
    lemma_field_update_isolated(current, BW_FILT_MASK, bandwidth.bits_spec() << BW_FILT_SHIFT);
    lemma_shifted_bits_read_back(full_scale.bits_spec());
    lemma_field_update_isolated(current, FS_MASK, full_scale.bits_spec() << FS_SHIFT);
    lemma_shifted_bits_read_back(fifo_mode.bits_spec());
    lemma_field_update_isolated(current, FMODE_MASK, fifo_mode.bits_spec() << FMODE_SHIFT);
    lemma_shifted_bits_read_back(threshold.bits_spec());
    lemma_field_update_isolated(current, THS_6D_MASK, threshold.bits_spec() << THS_6D_SHIFT);
    lemma_shifted_bits_read_back(tap_priority.bits_spec());
    lemma_field_update_isolated(current, TAP_PRIOR_MASK, tap_priority.bits_spec() << TAP_PRIOR_SHIFT);
    lemma_shifted_bits_read_back(free_fall.bits_spec());
    lemma_field_update_isolated(current, FF_THS_MASK, free_fall.bits_spec() << FF_THS_SHIFT);
}

/// What a setter of a ranged number puts into its field lies inside the
/// field's mask, whatever number it is given.
pub proof fn lemma_clamped_fields_fit(value: u8)
    ensures
        (clamped(value, 31) << FTH_SHIFT) & !FTH_MASK == 0,
        (clamped(value, 31) << TAP_THS_SHIFT) & !TAP_THS_MASK == 0,
        (clamped(value, 15) << LATENCY_SHIFT) & !LATENCY_MASK == 0,
        (clamped(value, 3) << QUIET_SHIFT) & !QUIET_MASK == 0,
        (clamped(value, 3) << SHOCK_SHIFT) & !SHOCK_MASK == 0,
        (clamped(value, 63) << WK_THS_SHIFT) & !WK_THS_MASK == 0,
        (clamped(value, 3) << WK_DUR_SHIFT) & !WK_DUR_MASK == 0,
        (clamped(value, 15) << SLEEP_DUR_SHIFT) & !SLEEP_DUR_MASK == 0,
        (clamped(value, 63) << FF_DUR_SHIFT) & !FF_DUR_MASK == 0,
{
    lemma_shifted_bits_fit(clamped(value, 3));
    lemma_shifted_bits_fit(clamped(value, 15));
    lemma_shifted_bits_fit(clamped(value, 31));
    lemma_shifted_bits_fit(clamped(value, 63));
}

/// What a flag setter puts into its one-bit field lies inside the field, and
/// so do the three tap axis enables.
pub proof fn lemma_flag_fields_fit(on: bool, mask: u8, x: bool, y: bool, z: bool)
    ensures
        flag_bits(on, mask) & !mask == 0,
        (tap_axes_bits(x, y, z) << TAP_XYZ_SHIFT) & !TAP_XYZ_MASK == 0,
{
    lemma_shifted_bits_fit(mask);
    lemma_shifted_bits_fit(tap_axes_bits(x, y, z));
}

/// Setting the full scale changes no bit of CTRL6 outside the full-scale
/// field, whatever the register held, and leaves the chosen full scale in
/// the field.
pub proof fn lemma_full_scale_update_isolated(current: u8, full_scale: FullScale)
    ensures
        merge_field_spec(current, FS_MASK, full_scale.bits_spec() << FS_SHIFT) & !FS_MASK
            == current & !FS_MASK,
        merge_field_spec(current, FS_MASK, full_scale.bits_spec() << FS_SHIFT) & FS_MASK
            == full_scale.bits_spec() << FS_SHIFT,
{
    lemma_shifted_bits_fit(full_scale.bits_spec());
    lemma_field_update_isolated(current, FS_MASK, full_scale.bits_spec() << FS_SHIFT);
}

/// The two parts of a free-fall duration make up the duration: the five low
/// bits stand in FREE_FALL above the threshold, the sixth is the flag in
/// WAKE_UP_DUR.
pub proof fn lemma_free_fall_duration_parts(duration: u8)
    ensures
        ((clamped(duration, 63) << FF_DUR_SHIFT) >> FF_DUR_SHIFT) + (if clamped(duration, 63)
            & 0b10_0000 > 0 {
            32int
        } else {
            0int
        }) == clamped(duration, 63),
{
    let d = clamped(duration, 63);
    assert(d <= 63 ==> ((d << 3u8) >> 3u8) + (if d & 0b10_0000 > 0 {
        32int
    } else {
        0int
    }) == d) by (bit_vector);
}

} // verus!
