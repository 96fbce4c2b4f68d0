//! Driver core for a Semtech SX126x-family LoRa radio transceiver.
//!
//! The crate is split along the chip's natural seams:
//!
//! * [`mod_params`] — user-facing parameter types, chip encodings, and the
//!   error taxonomy;
//! * [`interface`] — the capability set a board layer must supply
//!   (chip select, reset, BUSY wait, DIO1 wait, SPI byte exchange, delay),
//!   specified over a ghost transcript of bus events;
//! * [`command`] — the framed-transaction protocol: every chip interaction
//!   is BUSY-wait, chip-select low, SPI bytes, chip-select high, BUSY-wait;
//! * [`airtime`] — the LoRa time-on-air arithmetic;
//! * [`retention`] — the on-chip register-retention list kept across warm
//!   sleep cycles;
//! * [`radio`] — the operating-mode state machine and the public operations;
//! * [`irq`] — interpretation of the IRQ flags that complete each operation;
//! * [`mock`] — an in-memory interface implementation that records the
//!   transcript and replays scripted chip responses;
//! * [`multicast`] — the LoRaWAN remote-multicast message codec.

pub mod airtime;
pub mod command;
pub mod interface;
pub mod irq;
pub mod mock;
pub mod mod_params;
pub mod multicast;
pub mod radio;
pub mod retention;
