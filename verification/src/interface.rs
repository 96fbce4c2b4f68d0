//! The capability set a board layer must supply to drive the chip: chip
//! select, hard reset, BUSY-line wait, DIO1 wait, SPI byte exchange and a
//! millisecond delay.
//!
//! The contract is stated over a ghost transcript of [`BusEvent`]s: every
//! successful primitive appends exactly one event, a failed primitive
//! appends none, and failures carry only protocol-class errors. Bytes read
//! from the bus are chosen by the implementation — to the driver they are
//! the chip's answer and nothing is assumed about them.
//!
//! DIO1 waits draw on a finite (but arbitrarily large) ghost budget. Any
//! finite run of interrupts is consistent with some budget, and the budget
//! is what makes the driver's completion loop provably terminating: a chip
//! that raises non-terminal interrupts forever would make any driver spin.

use vstd::prelude::*;
use crate::mod_params::RadioError;

verus! {

/// One completed interaction with the board.
pub enum BusEvent {
    /// Hard chip reset, released with BUSY deasserted.
    Reset,
    /// BUSY line observed low.
    BusyWait,
    /// Chip select driven low.
    NssLow,
    /// Chip select driven high.
    NssHigh,
    /// Bytes shifted out on the SPI bus.
    Write(Seq<u8>),
    /// Bytes shifted in from the SPI bus.
    Read(Seq<u8>),
    /// DIO1 observed high.
    IrqWait,
    /// Cooperative delay, in milliseconds.
    DelayMs(u32),
}

/// The board capability set.
///
/// An implementation decides when a primitive fails; the contract pins what
/// each outcome means for the transcript. The crate's own
/// [`crate::mock::MockInterface`] implements (and thereby witnesses) this
/// contract; a board layer supplies its own implementation over real pins.
pub trait InterfaceVariant: Sized {
    /// Transcript of every completed interaction, oldest first.
    spec fn events(&self) -> Seq<BusEvent>;

    /// Remaining budget of DIO1 waits.
    spec fn irq_credit(&self) -> nat;

    /// Drive chip select low.
    fn set_nss_low(&mut self) -> (r: Result<(), RadioError>)
        ensures
            r is Ok ==> final(self).events() == old(self).events().push(BusEvent::NssLow),
            r matches Err(e) ==> e is SPI && final(self).events() == old(self).events(),
            final(self).irq_credit() == old(self).irq_credit(),
    ;

    /// Drive chip select high.
    fn set_nss_high(&mut self) -> (r: Result<(), RadioError>)
        ensures
            r is Ok ==> final(self).events() == old(self).events().push(BusEvent::NssHigh),
            r matches Err(e) ==> e is SPI && final(self).events() == old(self).events(),
            final(self).irq_credit() == old(self).irq_credit(),
    ;

    /// Hard-reset the chip and wait until BUSY deasserts.
    fn reset(&mut self) -> (r: Result<(), RadioError>)
        ensures
            r is Ok ==> final(self).events() == old(self).events().push(BusEvent::Reset),
            r matches Err(e) ==> e is SPI && final(self).events() == old(self).events(),
            final(self).irq_credit() == old(self).irq_credit(),
    ;

    /// Wait, bounded, for the BUSY line to deassert.
    fn wait_on_busy(&mut self) -> (r: Result<(), RadioError>)
        ensures
            r is Ok ==> final(self).events() == old(self).events().push(BusEvent::BusyWait),
            r matches Err(e) ==> e is Busy && final(self).events() == old(self).events(),
            final(self).irq_credit() == old(self).irq_credit(),
    ;

    /// Wait for the DIO1 interrupt line to rise.
    fn await_irq(&mut self) -> (r: Result<(), RadioError>)
        ensures
            r is Ok ==> final(self).events() == old(self).events().push(BusEvent::IrqWait)
                && final(self).irq_credit() < old(self).irq_credit(),
            r matches Err(e) ==> e is Irq && final(self).events() == old(self).events()
                && final(self).irq_credit() == old(self).irq_credit(),
    ;

    /// Shift `data` out on the SPI bus.
    fn spi_write(&mut self, data: &[u8]) -> (r: Result<(), RadioError>)
        ensures
            r is Ok ==> final(self).events() == old(self).events().push(BusEvent::Write(data@)),
            r matches Err(e) ==> e is SPI && final(self).events() == old(self).events(),
            final(self).irq_credit() == old(self).irq_credit(),
    ;

    /// Shift `n` bytes in from the SPI bus. Which bytes come back is the
    /// chip's choice, not the driver's.
    fn spi_read(&mut self, n: usize) -> (r: Result<Vec<u8>, RadioError>)
        ensures
            r matches Ok(v) ==> v@.len() == n && final(self).events() == old(self).events().push(
                BusEvent::Read(v@),
            ),
            r matches Err(e) ==> e is SPI && final(self).events() == old(self).events(),
            final(self).irq_credit() == old(self).irq_credit(),
    ;

    /// Suspend for `ms` milliseconds.
    fn delay_ms(&mut self, ms: u32) -> (r: Result<(), RadioError>)
        ensures
            r is Ok ==> final(self).events() == old(self).events().push(BusEvent::DelayMs(ms)),
            r matches Err(e) ==> e is DelayError && final(self).events() == old(self).events(),
            final(self).irq_credit() == old(self).irq_credit(),
    ;
}

} // verus!
