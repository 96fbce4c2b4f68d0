//! The operation-completion kernel: waiting on DIO1, reading and clearing
//! the IRQ flags, and classifying each wake-up into a completion, a typed
//! failure, or an informational event that continues the wait.

use vstd::prelude::*;
use crate::command;
use crate::command::buffer_read_header;
use crate::command::read_frame_trace;
use crate::command::register_read_header;
use crate::command::register_write_frame;
use crate::command::write_frame_trace;
use crate::interface::BusEvent;
use crate::interface::InterfaceVariant;
use crate::mod_params::DeviceErrors;
use crate::mod_params::IrqMask;
use crate::mod_params::OpCode;
use crate::mod_params::PacketStatus;
use crate::mod_params::RadioError;
use crate::mod_params::RadioMode;
use crate::mod_params::RadioSystemStatus;
use crate::mod_params::Register;
use crate::mod_params::is_interface_error;
use crate::radio::LoRa;
use crate::radio::clear_irq_frame;

verus! {

/// What one DIO1 wake-up means for the operation in flight.
#[derive(Clone, Copy, PartialEq, Eq, Structural, Debug)]
pub enum IrqDecision {
    /// The operation failed with the given typed error.
    Fail(RadioError),
    /// A transmission finished.
    CompletedTransmit,
    /// A packet arrived.
    CompletedReceive,
    /// Channel-activity detection finished; the flag says whether activity
    /// was seen.
    CompletedCad(bool),
    /// A non-terminal event (preamble, sync word or header seen); keep
    /// waiting.
    Informational,
}

/// Whether every bit of `mask` is set in `flags`.
pub open spec fn spec_flag_set(flags: u16, mask: IrqMask) -> bool {
    flags & mask.spec_value() == mask.spec_value()
}

/// The classification table: first match wins. Errors come first — a
/// header or CRC failure, a radio-side timeout, then completion flags that
/// contradict the driver's mode; then the completions; everything else is
/// informational.
pub open spec fn spec_classify_irq(mode: RadioMode, flags: u16, rx_continuous: bool) -> IrqDecision {
    if spec_flag_set(flags, IrqMask::HeaderError) {
        IrqDecision::Fail(RadioError::HeaderError)
    } else if spec_flag_set(flags, IrqMask::CRCError) {
        if mode is Receive {
            IrqDecision::Fail(RadioError::CRCErrorOnReceive)
        } else {
            IrqDecision::Fail(RadioError::CRCErrorUnexpected)
        }
    } else if spec_flag_set(flags, IrqMask::RxTxTimeout) {
        if mode is Transmit {
            IrqDecision::Fail(RadioError::TransmitTimeout)
        } else if mode is Receive {
            IrqDecision::Fail(RadioError::ReceiveTimeout)
        } else {
            IrqDecision::Fail(RadioError::TimeoutUnexpected)
        }
    } else if spec_flag_set(flags, IrqMask::TxDone) && !(mode is Transmit) {
        IrqDecision::Fail(RadioError::TransmitDoneUnexpected)
    } else if spec_flag_set(flags, IrqMask::RxDone) && !(mode is Receive) {
        IrqDecision::Fail(RadioError::ReceiveDoneUnexpected)
    } else if (spec_flag_set(flags, IrqMask::CADActivityDetected) || spec_flag_set(
        flags,
        IrqMask::CADDone,
    )) && !(mode is ChannelActivityDetection) {
        IrqDecision::Fail(RadioError::CADUnexpected)
    } else if spec_flag_set(flags, IrqMask::TxDone) {
        IrqDecision::CompletedTransmit
    } else if spec_flag_set(flags, IrqMask::RxDone) {
        IrqDecision::CompletedReceive
    } else if spec_flag_set(flags, IrqMask::CADDone) {
        IrqDecision::CompletedCad(spec_flag_set(flags, IrqMask::CADActivityDetected))
    } else {
        IrqDecision::Informational
    }
}

/// Whether an IRQ-classified failure is possible at all in the given mode:
/// the guards of the classification table.
pub open spec fn spec_failure_guard(e: RadioError, mode: RadioMode) -> bool {
    match e {
        RadioError::HeaderError => true,
        RadioError::CRCErrorOnReceive => mode is Receive,
        RadioError::CRCErrorUnexpected => !(mode is Receive),
        RadioError::TransmitTimeout => mode is Transmit,
        RadioError::ReceiveTimeout => mode is Receive,
        RadioError::TimeoutUnexpected => !(mode is Transmit) && !(mode is Receive),
        RadioError::TransmitDoneUnexpected => !(mode is Transmit),
        RadioError::ReceiveDoneUnexpected => !(mode is Receive),
        RadioError::CADUnexpected => !(mode is ChannelActivityDetection),
        _ => true,
    }
}

/// Operating mode after an IRQ-classified failure: header and receive-CRC
/// failures demote to standby unless reception is continuous; radio-side
/// timeouts always demote; desynchronisation failures leave the mode
/// alone.
pub open spec fn spec_failure_mode(e: RadioError, mode: RadioMode, rx_continuous: bool) -> RadioMode {
    match e {
        RadioError::HeaderError => if rx_continuous {
            mode
        } else {
            RadioMode::StandbyRC
        },
        RadioError::CRCErrorOnReceive => if rx_continuous {
            mode
        } else {
            RadioMode::StandbyRC
        },
        RadioError::TransmitTimeout => RadioMode::StandbyRC,
        RadioError::ReceiveTimeout => RadioMode::StandbyRC,
        _ => mode,
    }
}

/// Every failure the classification table can produce respects its guard:
/// a typed failure is only ever raised in the modes it speaks about.
pub proof fn lemma_classification_failures_respect_guards(
    mode: RadioMode,
    flags: u16,
    rx_continuous: bool,
)
    ensures
        spec_classify_irq(mode, flags, rx_continuous) matches IrqDecision::Fail(e)
            ==> spec_failure_guard(e, mode),
{
}

/// A completion is only ever reported for the operation the driver
/// believes is in flight, and only when the chip raised its flag.
pub proof fn lemma_completions_match_the_mode(mode: RadioMode, flags: u16, rx_continuous: bool)
    ensures
        spec_classify_irq(mode, flags, rx_continuous) is CompletedTransmit ==> mode is Transmit
            && spec_flag_set(flags, IrqMask::TxDone),
        spec_classify_irq(mode, flags, rx_continuous) is CompletedReceive ==> mode is Receive
            && spec_flag_set(flags, IrqMask::RxDone),
        spec_classify_irq(mode, flags, rx_continuous) is CompletedCad ==> mode
            is ChannelActivityDetection && spec_flag_set(flags, IrqMask::CADDone),
{
}

/// Classifies one wake-up's IRQ flags against the driver's shadow mode.
pub fn classify_irq(mode: RadioMode, irq_flags: u16, rx_continuous: bool) -> (d: IrqDecision)
    ensures
        d == spec_classify_irq(mode, irq_flags, rx_continuous),
{
    if (irq_flags & IrqMask::HeaderError.value()) == IrqMask::HeaderError.value() {
        IrqDecision::Fail(RadioError::HeaderError)
    } else if (irq_flags & IrqMask::CRCError.value()) == IrqMask::CRCError.value() {
        if mode == RadioMode::Receive {
            IrqDecision::Fail(RadioError::CRCErrorOnReceive)
        } else {
            IrqDecision::Fail(RadioError::CRCErrorUnexpected)
        }
    } else if (irq_flags & IrqMask::RxTxTimeout.value()) == IrqMask::RxTxTimeout.value() {
        if mode == RadioMode::Transmit {
            IrqDecision::Fail(RadioError::TransmitTimeout)
        } else if mode == RadioMode::Receive {
            IrqDecision::Fail(RadioError::ReceiveTimeout)
        } else {
            IrqDecision::Fail(RadioError::TimeoutUnexpected)
        }
    } else if (irq_flags & IrqMask::TxDone.value()) == IrqMask::TxDone.value() && mode
        != RadioMode::Transmit {
        IrqDecision::Fail(RadioError::TransmitDoneUnexpected)
    } else if (irq_flags & IrqMask::RxDone.value()) == IrqMask::RxDone.value() && mode
        != RadioMode::Receive {
        IrqDecision::Fail(RadioError::ReceiveDoneUnexpected)
    } else if ((irq_flags & IrqMask::CADActivityDetected.value())
        == IrqMask::CADActivityDetected.value() || (irq_flags & IrqMask::CADDone.value())
        == IrqMask::CADDone.value()) && mode != RadioMode::ChannelActivityDetection {
        IrqDecision::Fail(RadioError::CADUnexpected)
    } else if (irq_flags & IrqMask::TxDone.value()) == IrqMask::TxDone.value() {
        IrqDecision::CompletedTransmit
    } else if (irq_flags & IrqMask::RxDone.value()) == IrqMask::RxDone.value() {
        IrqDecision::CompletedReceive
    } else if (irq_flags & IrqMask::CADDone.value()) == IrqMask::CADDone.value() {
        IrqDecision::CompletedCad(
            (irq_flags & IrqMask::CADActivityDetected.value())
                == IrqMask::CADActivityDetected.value(),
        )
    } else {
        IrqDecision::Informational
    }
}

/// Big-endian 16-bit value of two bytes.
pub open spec fn spec_be16(hi: u8, lo: u8) -> u16 {
    ((hi as int) * 256 + (lo as int)) as u16
}

/// IRQ flag word carried by a GetIrqStatus answer (status byte, then the
/// flags, big endian).
pub open spec fn spec_irq_flags_of(resp: Seq<u8>) -> u16 {
    spec_be16(resp[1], resp[2])
}

/// Decoded error register carried by a GetDeviceErrors answer.
pub open spec fn spec_decode_device_errors(resp: Seq<u8>) -> DeviceErrors {
    let e = spec_be16(resp[1], resp[2]);
    DeviceErrors {
        rc_64khz_calibration: e & 0x0001 != 0,
        rc_13mhz_calibration: e & 0x0002 != 0,
        pll_calibration: e & 0x0004 != 0,
        adc_calibration: e & 0x0008 != 0,
        image_calibration: e & 0x0010 != 0,
        xosc_start: e & 0x0020 != 0,
        pll_lock: e & 0x0040 != 0,
        pa_ramp: e & 0x0100 != 0,
    }
}

/// Decoded chip status byte.
pub open spec fn spec_decode_status(b: u8) -> RadioSystemStatus {
    RadioSystemStatus { cmd_status: (b >> 1) & 0x07, chip_mode: (b >> 4) & 0x07 }
}

/// Decoded packet status carried by a GetPacketStatus answer: signal
/// strengths in half-dBm below zero, signal-to-noise in quarter dB.
pub open spec fn spec_decode_packet_status(resp: Seq<u8>) -> PacketStatus {
    let rssi_raw = resp[1] as int;
    let snr_raw = (resp[2] as i8) as int;
    let signal_rssi_raw = resp[3] as int;
    PacketStatus {
        rssi: (-(rssi_raw / 2)) as i16,
        snr: (if snr_raw >= 0 {
            snr_raw / 4
        } else {
            -((-snr_raw) / 4)
        }) as i16,
        signal_rssi: (-(signal_rssi_raw / 2)) as i16,
    }
}

/// The final wake-up round of a completion-loop run, with the chip answers
/// `de`, `st` and `irq`: the two diagnostic reads, the DIO1 wait, the flags
/// read, the verbatim clear of exactly the flags read, then the outcome's
/// own transactions `tail`.
pub open spec fn spec_terminal_wakeup_with(
    post: Seq<BusEvent>,
    mid: Seq<BusEvent>,
    de: Seq<u8>,
    st: Seq<u8>,
    irq: Seq<u8>,
    tail: Seq<BusEvent>,
) -> bool {
    &&& de.len() == 3
    &&& st.len() == 1
    &&& irq.len() == 3
    &&& post == mid + read_frame_trace(seq![OpCode::GetDeviceErrors.spec_value()], de)
        + read_frame_trace(seq![OpCode::GetStatus.spec_value()], st) + seq![BusEvent::IrqWait]
        + read_frame_trace(seq![OpCode::GetIrqStatus.spec_value()], irq) + write_frame_trace(
        clear_irq_frame(spec_irq_flags_of(irq)),
    ) + tail
}

/// A completed reception's transactions, with the chip answers `evt`, `rb`,
/// `payload` and `ps`: the RTC/event-clear workaround exactly when the
/// reception is not continuous, then the buffer status, the payload and the
/// packet status reads.
pub open spec fn spec_receive_tail_with(
    tail: Seq<BusEvent>,
    rx_continuous: bool,
    evt: Seq<u8>,
    rb: Seq<u8>,
    payload: Seq<u8>,
    ps: Seq<u8>,
) -> bool {
    &&& evt.len() == 2
    &&& rb.len() == 3
    &&& payload.len() == (rb[1] as int) + 1
    &&& ps.len() == 4
    &&& tail == (if rx_continuous {
        Seq::<BusEvent>::empty()
    } else {
        write_frame_trace(register_write_frame(Register::RTCCtrl, seq![0u8])) + read_frame_trace(
            register_read_header(Register::EvtClr),
            evt,
        ) + write_frame_trace(register_write_frame(Register::EvtClr, seq![evt[1] | 0x02]))
    }) + read_frame_trace(seq![OpCode::GetRxBufferStatus.spec_value()], rb) + read_frame_trace(
        buffer_read_header(rb[2]),
        payload,
    ) + read_frame_trace(seq![OpCode::GetPacketStatus.spec_value()], ps)
}

/// A completed reception's transactions, tying what the caller receives to
/// the chip's answers: the delivered bytes are the payload read (without
/// its status byte), the delivered length is the chip's announced length,
/// and the stored packet status is the decoded answer.
pub open spec fn spec_receive_tail(
    tail: Seq<BusEvent>,
    rx_continuous: bool,
    out_payload: Seq<u8>,
    out_len: u8,
    out_status: Option<PacketStatus>,
) -> bool {
    exists|evt: Seq<u8>, rb: Seq<u8>, payload: Seq<u8>, ps: Seq<u8>|
        {
            &&& #[trigger] spec_receive_tail_with(tail, rx_continuous, evt, rb, payload, ps)
            &&& out_payload == payload.skip(1)
            &&& out_len == rb[1]
            &&& out_status == Some(spec_decode_packet_status(ps))
        }
}

/// Reads the chip's error register, for diagnostics.
fn sub_get_device_errors<IV: InterfaceVariant>(iv: &mut IV) -> (r: Result<
    DeviceErrors,
    RadioError,
>)
    ensures
        r matches Ok(d) ==> exists|resp: Seq<u8>|
            {
                &&& #[trigger] command::spec_command_read_with(
                    old(iv).events(),
                    final(iv).events(),
                    OpCode::GetDeviceErrors,
                    resp,
                )
                &&& resp.len() == 3
                &&& d == spec_decode_device_errors(resp)
            },
        r matches Err(e) ==> is_interface_error(e),
        final(iv).irq_credit() == old(iv).irq_credit(),
{
    let answer = command::read_command(iv, OpCode::GetDeviceErrors, 3)?;
    let op_error: u16 = (answer[1] as u16) * 256 + (answer[2] as u16);
    let decoded = DeviceErrors {
        rc_64khz_calibration: (op_error & 0x0001) != 0,
        rc_13mhz_calibration: (op_error & 0x0002) != 0,
        pll_calibration: (op_error & 0x0004) != 0,
        adc_calibration: (op_error & 0x0008) != 0,
        image_calibration: (op_error & 0x0010) != 0,
        xosc_start: (op_error & 0x0020) != 0,
        pll_lock: (op_error & 0x0040) != 0,
        pa_ramp: (op_error & 0x0100) != 0,
    };
    proof {
        assert(command::spec_command_read_with(
            old(iv).events(),
            iv.events(),
            OpCode::GetDeviceErrors,
            answer@,
        ));
        assert(op_error == spec_be16(answer@[1], answer@[2]));
        assert(decoded == spec_decode_device_errors(answer@));
    }
    Ok(decoded)
}

/// Reads the chip's status byte, for diagnostics.
fn sub_get_status<IV: InterfaceVariant>(iv: &mut IV) -> (r: Result<RadioSystemStatus, RadioError>)
    ensures
        r matches Ok(s) ==> exists|resp: Seq<u8>|
            {
                &&& #[trigger] command::spec_command_read_with(
                    old(iv).events(),
                    final(iv).events(),
                    OpCode::GetStatus,
                    resp,
                )
                &&& resp.len() == 1
                &&& s == spec_decode_status(resp[0])
            },
        r matches Err(e) ==> is_interface_error(e),
        final(iv).irq_credit() == old(iv).irq_credit(),
{
    let answer = command::read_command(iv, OpCode::GetStatus, 1)?;
    let status: u8 = answer[0];
    proof {
        assert(command::spec_command_read_with(
            old(iv).events(),
            iv.events(),
            OpCode::GetStatus,
            answer@,
        ));
    }
    Ok(RadioSystemStatus { cmd_status: (status >> 1) & 0x07, chip_mode: (status >> 4) & 0x07 })
}

/// Reads the pending IRQ flags.
fn sub_get_irq_status<IV: InterfaceVariant>(iv: &mut IV) -> (r: Result<u16, RadioError>)
    ensures
        r matches Ok(flags) ==> exists|resp: Seq<u8>|
            {
                &&& #[trigger] command::spec_command_read_with(
                    old(iv).events(),
                    final(iv).events(),
                    OpCode::GetIrqStatus,
                    resp,
                )
                &&& resp.len() == 3
                &&& flags == spec_irq_flags_of(resp)
            },
        r matches Err(e) ==> is_interface_error(e),
        final(iv).irq_credit() == old(iv).irq_credit(),
{
    let answer = command::read_command(iv, OpCode::GetIrqStatus, 3)?;
    let flags: u16 = (answer[1] as u16) * 256 + (answer[2] as u16);
    proof {
        assert(command::spec_command_read_with(
            old(iv).events(),
            iv.events(),
            OpCode::GetIrqStatus,
            answer@,
        ));
        assert(flags == spec_irq_flags_of(answer@));
    }
    Ok(flags)
}

/// Reads the received payload's length and start offset in the chip's
/// data buffer.
fn sub_get_rx_buffer_status<IV: InterfaceVariant>(iv: &mut IV) -> (r: Result<(u8, u8), RadioError>)
    ensures
        r matches Ok(pair) ==> exists|resp: Seq<u8>|
            {
                &&& #[trigger] command::spec_command_read_with(
                    old(iv).events(),
                    final(iv).events(),
                    OpCode::GetRxBufferStatus,
                    resp,
                )
                &&& resp.len() == 3
                &&& pair.0 == resp[1]
                &&& pair.1 == resp[2]
            },
        r matches Err(e) ==> is_interface_error(e),
        final(iv).irq_credit() == old(iv).irq_credit(),
{
    let answer = command::read_command(iv, OpCode::GetRxBufferStatus, 3)?;
    proof {
        assert(command::spec_command_read_with(
            old(iv).events(),
            iv.events(),
            OpCode::GetRxBufferStatus,
            answer@,
        ));
    }
    Ok((answer[1], answer[2]))
}

/// Reads and decodes the status of the received packet.
fn sub_get_packet_status<IV: InterfaceVariant>(iv: &mut IV) -> (r: Result<PacketStatus, RadioError>)
    ensures
        r matches Ok(ps) ==> exists|resp: Seq<u8>|
            {
                &&& #[trigger] command::spec_command_read_with(
                    old(iv).events(),
                    final(iv).events(),
                    OpCode::GetPacketStatus,
                    resp,
                )
                &&& resp.len() == 4
                &&& ps == spec_decode_packet_status(resp)
            },
        r matches Err(e) ==> is_interface_error(e),
        final(iv).irq_credit() == old(iv).irq_credit(),
{
    let answer = command::read_command(iv, OpCode::GetPacketStatus, 4)?;
    let rssi_raw: i16 = answer[1] as i16;
    let snr_raw: i16 = (answer[2] as i8) as i16;
    let signal_rssi_raw: i16 = answer[3] as i16;
    let snr: i16 = if snr_raw >= 0 {
        snr_raw / 4
    } else {
        -((-snr_raw) / 4)
    };
    let decoded = PacketStatus {
        rssi: -(rssi_raw / 2),
        snr: snr,
        signal_rssi: -(signal_rssi_raw / 2),
    };
    proof {
        assert(command::spec_command_read_with(
            old(iv).events(),
            iv.events(),
            OpCode::GetPacketStatus,
            answer@,
        ));
        assert(decoded == spec_decode_packet_status(answer@));
    }
    Ok(decoded)
}

impl LoRa {
    /// Process the radio IRQ: wait on DIO1, read and clear the IRQ flags,
    /// and resolve the operation in flight.
    ///
    /// Loops past informational events (preamble detected, sync word or
    /// header valid). On a completed reception the payload replaces
    /// `receiving_buffer`'s contents, its length is stored in
    /// `received_len`, and the packet status is stored in the handle; on a
    /// completed channel-activity detection the outcome is stored in
    /// `cad_activity_detected`. Success and every radio-classified failure
    /// leave the chip in standby, except under continuous reception, which
    /// keeps receiving. Either way the trailing transactions are the final
    /// wake-up round: the flags read are cleared on chip verbatim, and a
    /// completed reception's round carries the implicit-header workaround
    /// (skipped under continuous reception) and the payload reads.
    #[verifier::rlimit(80)]
    pub fn process_irq<IV: InterfaceVariant>(
        &mut self,
        iv: &mut IV,
        receiving_buffer: &mut Vec<u8>,
        received_len: &mut u8,
        cad_activity_detected: &mut bool,
    ) -> (r: Result<(), RadioError>)
        ensures
            final(self).rx_continuous == old(self).rx_continuous,
            final(self).max_payload_length == old(self).max_payload_length,
            final(self).modulation_params == old(self).modulation_params,
            final(self).packet_params == old(self).packet_params,
            final(self).packet_type == old(self).packet_type,
            final(self).image_calibrated == old(self).image_calibrated,
            final(self).frequency_error == old(self).frequency_error,
            final(self).board_tcxo_wakeup_time == old(self).board_tcxo_wakeup_time,
            r is Ok ==> final(self).operating_mode is StandbyRC || (old(self).rx_continuous && final(self).operating_mode == old(self).operating_mode),
            r is Ok && old(self).operating_mode is Transmit ==> final(self).operating_mode
                is StandbyRC,
            r is Ok && old(self).operating_mode is ChannelActivityDetection ==> final(self).operating_mode is StandbyRC,
            r is Ok && old(self).operating_mode is Receive ==> final(self).packet_status is Some
                && *final(received_len) as int == final(receiving_buffer)@.len() && final(self).operating_mode == (if old(self).rx_continuous {
                RadioMode::Receive
            } else {
                RadioMode::StandbyRC
            }),
            !(r is Ok && old(self).operating_mode is Receive) ==> final(self).packet_status == old(self).packet_status,
            r is Ok ==> final(iv).irq_credit() < old(iv).irq_credit(),
            r is Ok ==> exists|
                mid: Seq<BusEvent>,
                de: Seq<u8>,
                st: Seq<u8>,
                irq: Seq<u8>,
                tail: Seq<BusEvent>,
            |
                {
                    &&& #[trigger] spec_terminal_wakeup_with(
                        final(iv).events(),
                        mid,
                        de,
                        st,
                        irq,
                        tail,
                    )
                    &&& match spec_classify_irq(
                        old(self).operating_mode,
                        spec_irq_flags_of(irq),
                        old(self).rx_continuous,
                    ) {
                        IrqDecision::CompletedTransmit => tail == Seq::<BusEvent>::empty(),
                        IrqDecision::CompletedReceive => spec_receive_tail(
                            tail,
                            old(self).rx_continuous,
                            final(receiving_buffer)@,
                            *final(received_len),
                            final(self).packet_status,
                        ),
                        IrqDecision::CompletedCad(activity) => tail == Seq::<BusEvent>::empty()
                            && *final(cad_activity_detected) == activity,
                        _ => false,
                    }
                },
            r matches Err(e) ==> is_interface_error(e) || (final(iv).irq_credit() < old(iv).irq_credit() && exists|mid: Seq<BusEvent>, de: Seq<u8>, st: Seq<u8>, irq: Seq<u8>|
                {
                    &&& #[trigger] spec_terminal_wakeup_with(
                        final(iv).events(),
                        mid,
                        de,
                        st,
                        irq,
                        Seq::<BusEvent>::empty(),
                    )
                    &&& spec_classify_irq(
                        old(self).operating_mode,
                        spec_irq_flags_of(irq),
                        old(self).rx_continuous,
                    ) == IrqDecision::Fail(e)
                }),
            r matches Err(e) ==> is_interface_error(e) || (spec_failure_guard(
                e,
                old(self).operating_mode,
            ) && final(self).operating_mode == spec_failure_mode(
                e,
                old(self).operating_mode,
                old(self).rx_continuous,
            )),
            r matches Err(e) ==> !is_interface_error(e) || final(self).operating_mode == old(
                self,
            ).operating_mode || final(self).operating_mode is StandbyRC,
            r is Ok && !(old(self).operating_mode is Receive)
                ==> final(receiving_buffer)@ == old(receiving_buffer)@
                && *final(received_len) == *old(received_len),
            !(r is Ok && old(self).operating_mode is ChannelActivityDetection)
                ==> *final(cad_activity_detected) == *old(cad_activity_detected),
            r matches Err(e) ==> is_interface_error(e) || (final(receiving_buffer)@ == old(
                receiving_buffer,
            )@ && *final(received_len) == *old(received_len)),
            final(iv).irq_credit() <= old(iv).irq_credit(),
    {
        loop
            invariant
                *self == *old(self),
                receiving_buffer@ == old(receiving_buffer)@,
                *received_len == *old(received_len),
                *cad_activity_detected == *old(cad_activity_detected),
                iv.irq_credit() <= old(iv).irq_credit(),
            decreases iv.irq_credit(),
        {
            let ghost e0 = iv.events();
            let _device_errors = sub_get_device_errors(iv)?;
            let ghost e1 = iv.events();
            let _status = sub_get_status(iv)?;
            let ghost e2 = iv.events();

            iv.await_irq()?;
            let ghost e3 = iv.events();
            let operating_mode = self.operating_mode;
            let continuous: bool = self.rx_continuous;
            let irq_flags = sub_get_irq_status(iv)?;
            let ghost e4 = iv.events();
            crate::radio::sub_clear_irq_status(iv, irq_flags)?;
            let ghost e5 = iv.events();

            proof {
                assert(exists|resp: Seq<u8>|
                    #[trigger] command::spec_command_read_with(
                        e0,
                        e1,
                        OpCode::GetDeviceErrors,
                        resp,
                    ) && resp.len() == 3);
                assert(exists|resp: Seq<u8>|
                    #[trigger] command::spec_command_read_with(e1, e2, OpCode::GetStatus, resp)
                        && resp.len() == 1);
                assert(exists|resp: Seq<u8>|
                    #[trigger] command::spec_command_read_with(e3, e4, OpCode::GetIrqStatus, resp)
                        && resp.len() == 3 && irq_flags == spec_irq_flags_of(resp));
            }
            let ghost de = choose|resp: Seq<u8>|
                #[trigger] command::spec_command_read_with(e0, e1, OpCode::GetDeviceErrors, resp)
                    && resp.len() == 3;
            let ghost st = choose|resp: Seq<u8>|
                #[trigger] command::spec_command_read_with(e1, e2, OpCode::GetStatus, resp)
                    && resp.len() == 1;
            let ghost gi = choose|resp: Seq<u8>|
                #[trigger] command::spec_command_read_with(e3, e4, OpCode::GetIrqStatus, resp)
                    && resp.len() == 3 && irq_flags == spec_irq_flags_of(resp);

            match classify_irq(operating_mode, irq_flags, continuous) {
                IrqDecision::Fail(e) => {
                    match e {
                        RadioError::HeaderError | RadioError::CRCErrorOnReceive => {
                            if !self.rx_continuous {
                                self.operating_mode = RadioMode::StandbyRC;
                            }
                        },
                        RadioError::TransmitTimeout | RadioError::ReceiveTimeout => {
                            self.operating_mode = RadioMode::StandbyRC;
                        },
                        _ => {},
                    }
                    proof {
                        assert(spec_terminal_wakeup_with(
                            iv.events(),
                            e0,
                            de,
                            st,
                            gi,
                            Seq::<BusEvent>::empty(),
                        )) by {
                            assert(iv.events() =~= e0 + read_frame_trace(
                                seq![OpCode::GetDeviceErrors.spec_value()],
                                de,
                            ) + read_frame_trace(seq![OpCode::GetStatus.spec_value()], st)
                                + seq![BusEvent::IrqWait] + read_frame_trace(
                                seq![OpCode::GetIrqStatus.spec_value()],
                                gi,
                            ) + write_frame_trace(clear_irq_frame(spec_irq_flags_of(gi)))
                                + Seq::<BusEvent>::empty());
                        }
                    }
                    return Err(e);
                },
                IrqDecision::CompletedTransmit => {
                    self.operating_mode = RadioMode::StandbyRC;
                    proof {
                        assert(spec_terminal_wakeup_with(
                            iv.events(),
                            e0,
                            de,
                            st,
                            gi,
                            Seq::<BusEvent>::empty(),
                        )) by {
                            assert(iv.events() =~= e0 + read_frame_trace(
                                seq![OpCode::GetDeviceErrors.spec_value()],
                                de,
                            ) + read_frame_trace(seq![OpCode::GetStatus.spec_value()], st)
                                + seq![BusEvent::IrqWait] + read_frame_trace(
                                seq![OpCode::GetIrqStatus.spec_value()],
                                gi,
                            ) + write_frame_trace(clear_irq_frame(spec_irq_flags_of(gi)))
                                + Seq::<BusEvent>::empty());
                        }
                    }
                    return Ok(());
                },
                IrqDecision::CompletedReceive => {
                    let ghost mut evt_w: Seq<u8> = seq![0u8, 0u8];
                    if !continuous {
                        self.operating_mode = RadioMode::StandbyRC;

                        // Implicit-header-mode timeout workaround: stop the
                        // receive timer's RTC and clear its pending event.
                        let zero: [u8; 1] = [0x00];
                        proof {
                            assert(zero@ =~= seq![0u8]);
                        }
                        command::write_registers(iv, Register::RTCCtrl, zero.as_slice())?;
                        let evt = command::read_registers(iv, Register::EvtClr, 1)?;
                        let cleared: [u8; 1] = [evt[1] | 0x02];
                        proof {
                            evt_w = evt@;
                            assert(cleared@ =~= seq![evt_w[1] | 0x02]);
                        }
                        command::write_registers(iv, Register::EvtClr, cleared.as_slice())?;
                    }
                    let ghost e6 = iv.events();

                    let (payload_len, offset) = sub_get_rx_buffer_status(iv)?;
                    let ghost e7 = iv.events();
                    let answer = command::read_buffer(iv, offset, payload_len as usize)?;
                    let ghost e8 = iv.events();
                    let payload = command::slice_tail_to_vec(answer.as_slice());
                    *receiving_buffer = payload;
                    *received_len = payload_len;
                    let status = sub_get_packet_status(iv)?;
                    self.packet_status = Some(status);

                    proof {
                        assert(exists|resp: Seq<u8>|
                            #[trigger] command::spec_command_read_with(
                                e6,
                                e7,
                                OpCode::GetRxBufferStatus,
                                resp,
                            ) && resp.len() == 3 && payload_len == resp[1] && offset == resp[2]);
                        let rb = choose|resp: Seq<u8>|
                            #[trigger] command::spec_command_read_with(
                                e6,
                                e7,
                                OpCode::GetRxBufferStatus,
                                resp,
                            ) && resp.len() == 3 && payload_len == resp[1] && offset == resp[2];
                        assert(exists|resp: Seq<u8>|
                            #[trigger] command::spec_command_read_with(
                                e8,
                                iv.events(),
                                OpCode::GetPacketStatus,
                                resp,
                            ) && resp.len() == 4 && status == spec_decode_packet_status(resp));
                        let ps = choose|resp: Seq<u8>|
                            #[trigger] command::spec_command_read_with(
                                e8,
                                iv.events(),
                                OpCode::GetPacketStatus,
                                resp,
                            ) && resp.len() == 4 && status == spec_decode_packet_status(resp);

                        let tail = (if continuous {
                            Seq::<BusEvent>::empty()
                        } else {
                            write_frame_trace(register_write_frame(Register::RTCCtrl, seq![0u8]))
                                + read_frame_trace(register_read_header(Register::EvtClr), evt_w)
                                + write_frame_trace(
                                register_write_frame(Register::EvtClr, seq![evt_w[1] | 0x02]),
                            )
                        }) + read_frame_trace(seq![OpCode::GetRxBufferStatus.spec_value()], rb)
                            + read_frame_trace(buffer_read_header(rb[2]), answer@)
                            + read_frame_trace(seq![OpCode::GetPacketStatus.spec_value()], ps);

                        assert(e6 =~= e5 + (if continuous {
                            Seq::<BusEvent>::empty()
                        } else {
                            write_frame_trace(register_write_frame(Register::RTCCtrl, seq![0u8]))
                                + read_frame_trace(register_read_header(Register::EvtClr), evt_w)
                                + write_frame_trace(
                                register_write_frame(Register::EvtClr, seq![evt_w[1] | 0x02]),
                            )
                        }));
                        assert(iv.events() =~= e5 + tail);
                        assert(spec_receive_tail_with(
                            tail,
                            continuous,
                            evt_w,
                            rb,
                            answer@,
                            ps,
                        ));
                        assert(spec_receive_tail(
                            tail,
                            continuous,
                            receiving_buffer@,
                            *received_len,
                            Some(status),
                        ));
                        assert(spec_terminal_wakeup_with(iv.events(), e0, de, st, gi, tail)) by {
                            assert(iv.events() =~= e0 + read_frame_trace(
                                seq![OpCode::GetDeviceErrors.spec_value()],
                                de,
                            ) + read_frame_trace(seq![OpCode::GetStatus.spec_value()], st)
                                + seq![BusEvent::IrqWait] + read_frame_trace(
                                seq![OpCode::GetIrqStatus.spec_value()],
                                gi,
                            ) + write_frame_trace(clear_irq_frame(spec_irq_flags_of(gi))) + tail);
                        }
                    }
                    return Ok(());
                },
                IrqDecision::CompletedCad(activity) => {
                    *cad_activity_detected = activity;
                    self.operating_mode = RadioMode::StandbyRC;
                    proof {
                        assert(spec_terminal_wakeup_with(
                            iv.events(),
                            e0,
                            de,
                            st,
                            gi,
                            Seq::<BusEvent>::empty(),
                        )) by {
                            assert(iv.events() =~= e0 + read_frame_trace(
                                seq![OpCode::GetDeviceErrors.spec_value()],
                                de,
                            ) + read_frame_trace(seq![OpCode::GetStatus.spec_value()], st)
                                + seq![BusEvent::IrqWait] + read_frame_trace(
                                seq![OpCode::GetIrqStatus.spec_value()],
                                gi,
                            ) + write_frame_trace(clear_irq_frame(spec_irq_flags_of(gi)))
                                + Seq::<BusEvent>::empty());
                        }
                    }
                    return Ok(());
                },
                IrqDecision::Informational => {},
            }
        }
    }
}

} // verus!
