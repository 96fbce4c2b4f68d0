//! An in-memory board interface: records the transcript and replays
//! scripted chip answers.
//!
//! This implementation witnesses the [`InterfaceVariant`] contract — its
//! methods are verified against the trait's specification — and it is what
//! the crate's tests drive the radio against: every framed transaction
//! lands in an inspectable log, read answers come from a script, and each
//! failure class can be switched on to exercise error paths.

use vstd::prelude::*;
use crate::interface::BusEvent;
use crate::interface::InterfaceVariant;
use crate::mod_params::RadioError;

verus! {

/// One logged interaction, the executable mirror of [`BusEvent`].
#[derive(Clone, PartialEq, Eq, Debug)]
pub enum RecordedEvent {
    Reset,
    BusyWait,
    NssLow,
    NssHigh,
    Write(Vec<u8>),
    Read(Vec<u8>),
    IrqWait,
    DelayMs(u32),
}

impl View for RecordedEvent {
    type V = BusEvent;

    open spec fn view(&self) -> BusEvent {
        match self {
            RecordedEvent::Reset => BusEvent::Reset,
            RecordedEvent::BusyWait => BusEvent::BusyWait,
            RecordedEvent::NssLow => BusEvent::NssLow,
            RecordedEvent::NssHigh => BusEvent::NssHigh,
            RecordedEvent::Write(bytes) => BusEvent::Write(bytes@),
            RecordedEvent::Read(bytes) => BusEvent::Read(bytes@),
            RecordedEvent::IrqWait => BusEvent::IrqWait,
            RecordedEvent::DelayMs(ms) => BusEvent::DelayMs(*ms),
        }
    }
}

/// A recording, scripted board interface.
pub struct MockInterface {
    /// Everything the driver did, oldest first.
    pub log: Vec<RecordedEvent>,
    /// Scripted answers for SPI reads, consumed front to back; a read past
    /// the script, or past an answer's length, sees zeros.
    pub responses: Vec<Vec<u8>>,
    /// Index of the next scripted answer.
    pub next_response: usize,
    /// Remaining DIO1 waits before the interrupt line fails.
    pub irq_rounds: u32,
    /// Fail every BUSY wait.
    pub fail_busy: bool,
    /// Fail every chip-select change and SPI transfer.
    pub fail_spi: bool,
    /// Fail every delay.
    pub fail_delay: bool,
}

impl MockInterface {
    /// An interface with an empty log, no scripted answers, and no
    /// interrupt budget.
    pub fn new() -> (r: MockInterface)
        ensures
            r.events() == Seq::<BusEvent>::empty(),
            r.irq_credit() == 0,
    {
        let m = MockInterface {
            log: Vec::new(),
            responses: Vec::new(),
            next_response: 0,
            irq_rounds: 0,
            fail_busy: false,
            fail_spi: false,
            fail_delay: false,
        };
        proof {
            assert(m.events() =~= Seq::<BusEvent>::empty());
        }
        m
    }

    /// Scripts the answer for the next unanswered SPI read.
    pub fn push_response(&mut self, response: Vec<u8>)
        ensures
            final(self).events() == old(self).events(),
            final(self).irq_credit() == old(self).irq_credit(),
    {
        self.responses.push(response);
    }

    /// Grants the interrupt line `rounds` more rises.
    pub fn set_irq_rounds(&mut self, rounds: u32)
        ensures
            final(self).events() == old(self).events(),
            final(self).irq_credit() == rounds,
    {
        self.irq_rounds = rounds;
    }

    /// Number of logged events.
    pub fn event_count(&self) -> (n: usize)
        ensures
            n == self.events().len(),
    {
        self.log.len()
    }

    /// A copy of the `i`-th logged event, oldest first.
    pub fn event_at(&self, i: usize) -> (r: Option<RecordedEvent>)
        ensures
            r is Some <==> i < self.events().len(),
    {
        if i < self.log.len() {
            Some(self.log[i].clone())
        } else {
            None
        }
    }
}

impl InterfaceVariant for MockInterface {
    open spec fn events(&self) -> Seq<BusEvent> {
        self.log@.map_values(|e: RecordedEvent| e@)
    }

    open spec fn irq_credit(&self) -> nat {
        self.irq_rounds as nat
    }

    fn set_nss_low(&mut self) -> (r: Result<(), RadioError>) {
        if self.fail_spi {
            return Err(RadioError::SPI);
        }
        self.log.push(RecordedEvent::NssLow);
        proof {
            assert(self.events() =~= old(self).events().push(BusEvent::NssLow));
        }
        Ok(())
    }

    fn set_nss_high(&mut self) -> (r: Result<(), RadioError>) {
        if self.fail_spi {
            return Err(RadioError::SPI);
        }
        self.log.push(RecordedEvent::NssHigh);
        proof {
            assert(self.events() =~= old(self).events().push(BusEvent::NssHigh));
        }
        Ok(())
    }

    fn reset(&mut self) -> (r: Result<(), RadioError>) {
        if self.fail_spi {
            return Err(RadioError::SPI);
        }
        self.log.push(RecordedEvent::Reset);
        proof {
            assert(self.events() =~= old(self).events().push(BusEvent::Reset));
        }
        Ok(())
    }

    fn wait_on_busy(&mut self) -> (r: Result<(), RadioError>) {
        if self.fail_busy {
            return Err(RadioError::Busy);
        }
        self.log.push(RecordedEvent::BusyWait);
        proof {
            assert(self.events() =~= old(self).events().push(BusEvent::BusyWait));
        }
        Ok(())
    }

    fn await_irq(&mut self) -> (r: Result<(), RadioError>) {
        if self.irq_rounds == 0 {
            return Err(RadioError::Irq);
        }
        self.irq_rounds = self.irq_rounds - 1;
        self.log.push(RecordedEvent::IrqWait);
        proof {
            assert(self.events() =~= old(self).events().push(BusEvent::IrqWait));
        }
        Ok(())
    }

    fn spi_write(&mut self, data: &[u8]) -> (r: Result<(), RadioError>) {
        if self.fail_spi {
            return Err(RadioError::SPI);
        }
        let mut copy: Vec<u8> = Vec::new();
        copy.extend_from_slice(data);
        proof {
            assert(copy@ =~= data@);
        }
        self.log.push(RecordedEvent::Write(copy));
        proof {
            assert(self.events() =~= old(self).events().push(BusEvent::Write(data@)));
        }
        Ok(())
    }

    fn spi_read(&mut self, n: usize) -> (r: Result<Vec<u8>, RadioError>) {
        if self.fail_spi {
            return Err(RadioError::SPI);
        }

        let mut answer: Vec<u8> = Vec::new();
        if self.next_response < self.responses.len() {
            let script_index: usize = self.next_response;
            self.next_response = self.next_response + 1;
            let mut i: usize = 0;
            while i < n
                invariant
                    answer@.len() == i,
                    i <= n,
                    script_index < self.responses@.len(),
                decreases n - i,
            {
                let scripted: u8 = if i < self.responses[script_index].len() {
                    self.responses[script_index][i]
                } else {
                    0
                };
                answer.push(scripted);
                i = i + 1;
            }
        } else {
            let mut i: usize = 0;
            while i < n
                invariant
                    answer@.len() == i,
                    i <= n,
                decreases n - i,
            {
                answer.push(0);
                i = i + 1;
            }
        }

        let mut returned: Vec<u8> = Vec::new();
        returned.extend_from_slice(answer.as_slice());
        proof {
            assert(returned@ =~= answer@);
        }
        self.log.push(RecordedEvent::Read(answer));
        proof {
            assert(self.events() =~= old(self).events().push(BusEvent::Read(returned@)));
        }
        Ok(returned)
    }

    fn delay_ms(&mut self, ms: u32) -> (r: Result<(), RadioError>) {
        if self.fail_delay {
            return Err(RadioError::DelayError);
        }
        self.log.push(RecordedEvent::DelayMs(ms));
        proof {
            assert(self.events() =~= old(self).events().push(BusEvent::DelayMs(ms)));
        }
        Ok(())
    }
}

} // verus!
