//! Multiplexer drivers, generic over the I2C hardware and a GPIO pin.

use vstd::prelude::*;
use crate::hardware::{is_transfer, BusOp, I2cHardware};
use crate::types::{Controller, ResponseCode, Segment};

verus! {

/// What was done to a GPIO line.
#[derive(Copy, Clone, Debug, PartialEq, Eq, Structural)]
pub enum PinEvent {
    High,
    Low,
    Output,
}

/// A GPIO line, such as a multiplexer's reset input. An implementation
/// keeps a log of what was done to the line (`events`).
pub trait GpioPin {
    /// Everything done to the line so far, oldest first.
    spec fn events(&self) -> Seq<PinEvent>;

    /// Drives the pin high.
    fn set_high(&mut self)
        ensures
            final(self).events() == old(self).events().push(PinEvent::High),
    ;

    /// Drives the pin low.
    fn set_low(&mut self)
        ensures
            final(self).events() == old(self).events().push(PinEvent::Low),
    ;

    /// Makes the pin an output.
    fn configure_as_output(&mut self)
        ensures
            final(self).events() == old(self).events().push(PinEvent::Output),
    ;
}

/// The events of a mux's reset line, none where it has none.
pub open spec fn reset_events<G: GpioPin>(config: I2cMuxConfig<G>) -> Seq<PinEvent> {
    match config.reset_pin {
        Some(pin) => pin.events(),
        None => Seq::empty(),
    }
}

/// Where a multiplexer sits: its controller, its bus address and its
/// optional reset line.
pub struct I2cMuxConfig<G> {
    /// I2C controller to use for communication
    pub controller: Controller,
    /// I2C address of the mux device
    pub address: u8,
    /// Optional reset/enable GPIO pin
    pub reset_pin: Option<G>,
}

/// A multiplexer chip's driver.
pub trait I2cMuxDriver<I2C, GPIO> where I2C: I2cHardware, GPIO: GpioPin {
    /// Whether `after` is what preparing the control lines of `before`
    /// leaves, with `r` returned.
    spec fn configured(&self, before: I2cMuxConfig<GPIO>, after: I2cMuxConfig<GPIO>, r: Result<(), ResponseCode>) -> bool;

    /// Whether `after` is what resetting the chip of `before` leaves, with
    /// `r` returned.
    spec fn was_reset(&self, before: I2cMuxConfig<GPIO>, after: I2cMuxConfig<GPIO>, r: Result<(), ResponseCode>) -> bool;

    /// Prepares the chip's control lines.
    fn configure(&self, config: &mut I2cMuxConfig<GPIO>) -> (r: Result<(), ResponseCode>)
        ensures
            self.configured(*old(config), *final(config), r),
    ;

    /// Resets the chip.
    fn reset(&self, config: &mut I2cMuxConfig<GPIO>) -> (r: Result<(), ResponseCode>)
        ensures
            self.was_reset(*old(config), *final(config), r),
    ;

    /// Connects `segment`, or disconnects every segment where it is `None`.
    fn enable_segment(
        &self,
        i2c: &mut I2C,
        config: &I2cMuxConfig<GPIO>,
        segment: Option<Segment>,
    ) -> Result<(), ResponseCode>;
}

/// The eight-channel PCA9548 switch.
pub struct Pca9548;

/// The PCA9548's single control register: bit `n` connects channel `n`.
#[derive(Copy, Clone, Debug, PartialEq, Eq, Structural)]
pub struct ControlRegister(pub u8);

/// Number of channels of the PCA9548.
pub const PCA9548_CHANNELS: u8 = 8;

/// The control register value that selects `segment`: segment `n` is
/// channel `n - 1`, one bit each; `None` selects no channel. Segments past
/// the eighth have no channel.
pub open spec fn pca9548_register(segment: Option<Segment>) -> Option<u8> {
    match segment {
        None => Some(0u8),
        Some(s) => if s.spec_id() <= PCA9548_CHANNELS {
            Some((1u8 << ((s.spec_id() - 1) as u8)) as u8)
        } else {
            None
        },
    }
}

/// `after` is `before` with one more operation: a write of the single byte
/// `v` to the mux at `addr`, with no read; `r` is its outcome.
pub open spec fn mux_write_logged(
    before: Seq<BusOp>,
    after: Seq<BusOp>,
    controller: Controller,
    addr: u8,
    v: u8,
    r: Result<(), ResponseCode>,
) -> bool {
    &&& after.len() == before.len() + 1
    &&& after.drop_last() == before
    &&& is_transfer(after.last(), controller, addr, seq![v], 0, false)
    &&& r == match after.last().result {
        Ok(_) => Ok::<(), ResponseCode>(()),
        Err(e) => Err(e),
    }
}

impl ControlRegister {
    /// Turns channel `channel` on or off, leaving the others as they are.
    pub fn set_channel_enabled(&mut self, channel: u8, on: bool)
        requires
            channel < PCA9548_CHANNELS,
        ensures
            final(self).0 == if on {
                old(self).0 | (1u8 << channel)
            } else {
                old(self).0 & !(1u8 << channel)
            },
    {
        if on {
            self.0 = self.0 | (1u8 << channel);
        } else {
            self.0 = self.0 & !(1u8 << channel);
        }
    }
}

impl Pca9548 {
    /// The control register that selects `segment`, or `SegmentNotFound`.
    pub fn control_register(segment: Option<Segment>) -> (r: Result<ControlRegister, ResponseCode>)
        ensures
            match pca9548_register(segment) {
                Some(v) => r == Ok::<ControlRegister, ResponseCode>(ControlRegister(v)),
                None => r == Err::<ControlRegister, ResponseCode>(ResponseCode::SegmentNotFound),
            },
    {
        let mut reg = ControlRegister(0);
        if let Some(s) = segment {
            let id = s.id();
            if id > PCA9548_CHANNELS {
                return Err(ResponseCode::SegmentNotFound);
            }
            let ch: u8 = id - 1;
            reg.set_channel_enabled(ch, true);
            assert(0u8 | (1u8 << ch) == 1u8 << ch) by (bit_vector);
        }
        Ok(reg)
    }
}

impl Pca9548 {
    /// Prepares the reset line, where there is one: high first, then an
    /// output, so that the chip sees no reset pulse.
    pub fn prepare_reset_line<G: GpioPin>(config: &mut I2cMuxConfig<G>)
        ensures
            final(config).controller == old(config).controller,
            final(config).address == old(config).address,
            final(config).reset_pin is Some == old(config).reset_pin is Some,
            old(config).reset_pin is Some ==> reset_events(*final(config)) == reset_events(*old(config)).push(
                PinEvent::High,
            ).push(PinEvent::Output),
    {
        if let Some(pin) = &mut config.reset_pin {
            pin.set_high();
            pin.configure_as_output();
        }
    }

    /// Pulses the reset line low, then high, where there is one; without
    /// one the chip is reset by reprogramming its register instead.
    pub fn pulse_reset<G: GpioPin>(config: &mut I2cMuxConfig<G>)
        ensures
            final(config).controller == old(config).controller,
            final(config).address == old(config).address,
            final(config).reset_pin is Some == old(config).reset_pin is Some,
            old(config).reset_pin is Some ==> reset_events(*final(config)) == reset_events(*old(config)).push(
                PinEvent::Low,
            ).push(PinEvent::High),
    {
        if let Some(pin) = &mut config.reset_pin {
            pin.set_low();
            pin.set_high();
        }
    }
}

impl<I2C, GPIO> I2cMuxDriver<I2C, GPIO> for Pca9548 where I2C: I2cHardware, GPIO: GpioPin {
    /// The reset line, where there is one, goes high and then becomes an
    /// output; nothing fails.
    open spec fn configured(&self, before: I2cMuxConfig<GPIO>, after: I2cMuxConfig<GPIO>, r: Result<(), ResponseCode>) -> bool {
        &&& r is Ok
        &&& after.controller == before.controller
        &&& after.address == before.address
        &&& after.reset_pin is Some == before.reset_pin is Some
        &&& reset_events(after) == if before.reset_pin is Some {
            reset_events(before).push(PinEvent::High).push(PinEvent::Output)
        } else {
            Seq::empty()
        }
    }

    /// The reset line, where there is one, pulses low and then high;
    /// without one nothing is done. Nothing fails.
    open spec fn was_reset(&self, before: I2cMuxConfig<GPIO>, after: I2cMuxConfig<GPIO>, r: Result<(), ResponseCode>) -> bool {
        &&& r is Ok
        &&& after.controller == before.controller
        &&& after.address == before.address
        &&& after.reset_pin is Some == before.reset_pin is Some
        &&& reset_events(after) == if before.reset_pin is Some {
            reset_events(before).push(PinEvent::Low).push(PinEvent::High)
        } else {
            Seq::empty()
        }
    }

    fn configure(&self, config: &mut I2cMuxConfig<GPIO>) -> Result<(), ResponseCode> {
        Pca9548::prepare_reset_line(config);
        Ok(())
    }

    fn reset(&self, config: &mut I2cMuxConfig<GPIO>) -> Result<(), ResponseCode> {
        Pca9548::pulse_reset(config);
        Ok(())
    }

    fn enable_segment(
        &self,
        i2c: &mut I2C,
        config: &I2cMuxConfig<GPIO>,
        segment: Option<Segment>,
    ) -> (r: Result<(), ResponseCode>)
        ensures
            pca9548_register(segment) is None ==> r == Err::<(), ResponseCode>(ResponseCode::SegmentNotFound)
                && final(i2c).ops() == old(i2c).ops(),
            pca9548_register(segment) matches Some(v) ==> mux_write_logged(
                old(i2c).ops(),
                final(i2c).ops(),
                config.controller,
                config.address,
                v,
                r,
            ),
    {
        let reg = match Pca9548::control_register(segment) {
            Ok(reg) => reg,
            Err(e) => return Err(e),
        };
        // The chip has one register: any write goes to it.
        let write_data = [reg.0];
        let mut read_buf: [u8; 0] = [];
        assert(write_data@ =~= seq![reg.0]);
        match i2c.write_read(config.controller, config.address, write_data.as_slice(), &mut read_buf) {
            Ok(_) => Ok(()),
            Err(e) => Err(e),
        }
    }
}

} // verus!
