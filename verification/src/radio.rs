//! The radio handle: the operating-mode state machine and the public
//! operations, each specified by the chip state it leaves behind and the
//! exact framed transactions it emits.

use vstd::prelude::*;
use crate::airtime;
use crate::command;
use crate::command::buffer_write_frame;
use crate::command::command_frame;
use crate::command::read_frame_trace;
use crate::command::register_read_header;
use crate::command::register_write_frame;
use crate::command::write_frame_trace;
use crate::interface::BusEvent;
use crate::interface::InterfaceVariant;
use crate::mod_params::Bandwidth;
use crate::mod_params::CodingRate;
use crate::mod_params::IrqMask;
use crate::mod_params::ModulationParams;
use crate::mod_params::OpCode;
use crate::mod_params::PacketParams;
use crate::mod_params::PacketStatus;
use crate::mod_params::PacketType;
use crate::mod_params::RadioError;
use crate::mod_params::RadioMode;
use crate::mod_params::RadioState;
use crate::mod_params::RampTime;
use crate::mod_params::Register;
use crate::mod_params::RegulatorMode;
use crate::mod_params::SleepParams;
use crate::mod_params::SpreadingFactor;
use crate::mod_params::StandbyMode;
use crate::mod_params::derive_modulation_params;
use crate::mod_params::derive_packet_params;
use crate::mod_params::is_interface_error;
use crate::mod_params::spec_derive_modulation_params;
use crate::mod_params::spec_derive_packet_params;

verus! {

/// Sync words selecting the public or the private LoRa network.
pub const LORA_MAC_PUBLIC_SYNCWORD: u16 = 0x3444;

pub const LORA_MAC_PRIVATE_SYNCWORD: u16 = 0x1424;

/// Radio wake-up time with margin for temperature compensation, in
/// milliseconds.
pub const RADIO_WAKEUP_TIME: u32 = 3;

/// High-level handle for one SX126x chip. The chip itself is reached only
/// through the board interface passed to each operation; the handle shadows
/// the chip state the driver depends on.
pub struct LoRa {
    /// Shadow of the chip's operating mode, updated eagerly on every
    /// mode-changing opcode.
    pub operating_mode: RadioMode,
    /// Whether the most recent receive configuration asked for continuous
    /// reception.
    pub rx_continuous: bool,
    /// Payload length written with the packet parameters; reduced to the
    /// explicit payload length under fixed-length packets.
    pub max_payload_length: u8,
    /// Modulation parameters last written to the chip, if any.
    pub modulation_params: Option<ModulationParams>,
    /// Packet engine selection; always LoRa in this driver.
    pub packet_type: PacketType,
    /// Packet parameters last written to the chip, if any.
    pub packet_params: Option<PacketParams>,
    /// Status of the most recent successfully received packet.
    pub packet_status: Option<PacketStatus>,
    /// Whether image calibration has been performed for the current band
    /// since reset.
    pub image_calibrated: bool,
    /// Last computed frequency-error estimate; reserved, never written.
    pub frequency_error: u32,
    /// Wake-up time of the board's TCXO, in milliseconds; zero for boards
    /// without one.
    pub board_tcxo_wakeup_time: u32,
}

/// The two handles agree on everything but the operating mode.
pub open spec fn same_except_mode(a: LoRa, b: LoRa) -> bool {
    &&& b.rx_continuous == a.rx_continuous
    &&& b.max_payload_length == a.max_payload_length
    &&& b.modulation_params == a.modulation_params
    &&& b.packet_type == a.packet_type
    &&& b.packet_params == a.packet_params
    &&& b.packet_status == a.packet_status
    &&& b.image_calibrated == a.image_calibrated
    &&& b.frequency_error == a.frequency_error
    &&& b.board_tcxo_wakeup_time == a.board_tcxo_wakeup_time
}

/// Both parameter snapshots have been written: transmit, receive and
/// channel-activity detection may only be armed after a configuration.
pub open spec fn spec_params_present(l: LoRa) -> bool {
    l.modulation_params is Some && l.packet_params is Some
}

/// Big-endian bytes of a 16-bit value.
pub open spec fn u16_bytes(v: u16) -> Seq<u8> {
    seq![(v >> 8) as u8, (v & 0xFF) as u8]
}

/// Low three big-endian bytes of a 24-bit duration.
pub open spec fn u24_bytes(v: u32) -> Seq<u8> {
    seq![((v >> 16) & 0xFF) as u8, ((v >> 8) & 0xFF) as u8, (v & 0xFF) as u8]
}

/// Chip frequency word: the frequency in Hz scaled by two to the
/// twenty-fifth over the 32 MHz crystal.
pub open spec fn spec_frequency_word(frequency_hz: u32) -> u32 {
    ((((frequency_hz as int) * 0x2000000) / 32000000) % 0x100000000) as u32
}

/// Duration armed for a receive: the continuous sentinel, or the timeout in
/// milliseconds converted to the chip's 15.625 microsecond ticks.
pub open spec fn spec_rx_duration(rx_continuous: bool, timeout_ms: u32) -> u32 {
    if rx_continuous {
        0xFFFFFFu32
    } else {
        timeout_ms << 6
    }
}

pub open spec fn standby_frame(mode: StandbyMode) -> Seq<u8> {
    command_frame(OpCode::SetStandby, seq![mode.spec_value()])
}

pub open spec fn sleep_frame(params: SleepParams) -> Seq<u8> {
    command_frame(OpCode::SetSleep, seq![params.spec_value()])
}

pub open spec fn tx_frame(duration: u32) -> Seq<u8> {
    command_frame(OpCode::SetTx, u24_bytes(duration))
}

pub open spec fn rx_frame(duration: u32) -> Seq<u8> {
    command_frame(OpCode::SetRx, u24_bytes(duration))
}

pub open spec fn cad_frame() -> Seq<u8> {
    command_frame(OpCode::SetCad, Seq::<u8>::empty())
}

pub open spec fn tx_continuous_wave_frame() -> Seq<u8> {
    command_frame(OpCode::SetTxContinuousWave, Seq::<u8>::empty())
}

pub open spec fn rx_duty_cycle_frame(rx_time: u32, sleep_time: u32) -> Seq<u8> {
    command_frame(OpCode::SetRxDutyCycle, u24_bytes(rx_time) + u24_bytes(sleep_time))
}

pub open spec fn regulator_mode_frame(mode: RegulatorMode) -> Seq<u8> {
    command_frame(OpCode::SetRegulatorMode, seq![mode.spec_value()])
}

pub open spec fn buffer_base_address_frame(tx_base: u8, rx_base: u8) -> Seq<u8> {
    command_frame(OpCode::SetBufferBaseAddress, seq![tx_base, rx_base])
}

pub open spec fn tx_params_frame(power: i8, ramp: RampTime) -> Seq<u8> {
    command_frame(OpCode::SetTxParams, seq![power as u8, ramp.spec_value()])
}

pub open spec fn dio_irq_frame(irq: u16, dio1: u16, dio2: u16, dio3: u16) -> Seq<u8> {
    command_frame(
        OpCode::SetDioIrqParams,
        u16_bytes(irq) + u16_bytes(dio1) + u16_bytes(dio2) + u16_bytes(dio3),
    )
}

pub open spec fn rf_frequency_frame(frequency_hz: u32) -> Seq<u8> {
    command_frame(
        OpCode::SetRfFrequency,
        seq![
            ((spec_frequency_word(frequency_hz) >> 24) & 0xFF) as u8,
            ((spec_frequency_word(frequency_hz) >> 16) & 0xFF) as u8,
            ((spec_frequency_word(frequency_hz) >> 8) & 0xFF) as u8,
            (spec_frequency_word(frequency_hz) & 0xFF) as u8,
        ],
    )
}

pub open spec fn packet_type_frame(t: PacketType) -> Seq<u8> {
    command_frame(OpCode::SetPacketType, seq![t.spec_value()])
}

pub open spec fn calibrate_image_frame(freq1: u8, freq2: u8) -> Seq<u8> {
    command_frame(OpCode::CalibrateImage, seq![freq1, freq2])
}

pub open spec fn stop_rx_timer_frame(enable: bool) -> Seq<u8> {
    command_frame(
        OpCode::SetStopRxTimerOnPreambleDetect,
        seq![
            if enable {
                1u8
            } else {
                0u8
            },
        ],
    )
}

pub open spec fn symb_num_timeout_frame(symb_num: u8) -> Seq<u8> {
    command_frame(OpCode::SetLoRaSymbNumTimeout, seq![symb_num])
}

pub open spec fn modulation_params_frame(mp: ModulationParams) -> Seq<u8> {
    command_frame(
        OpCode::SetModulationParams,
        seq![
            mp.spreading_factor.spec_value(),
            mp.bandwidth.spec_value(),
            mp.coding_rate.spec_value(),
            mp.low_data_rate_optimize,
        ],
    )
}

pub open spec fn packet_params_frame(pp: PacketParams) -> Seq<u8> {
    command_frame(
        OpCode::SetPacketParams,
        seq![
            (pp.preamble_length >> 8) as u8,
            (pp.preamble_length & 0xFF) as u8,
            if pp.implicit_header {
                1u8
            } else {
                0u8
            },
            pp.payload_length,
            if pp.crc_on {
                1u8
            } else {
                0u8
            },
            if pp.iq_inverted {
                1u8
            } else {
                0u8
            },
        ],
    )
}

pub open spec fn clear_irq_frame(mask: u16) -> Seq<u8> {
    command_frame(OpCode::ClearIrqStatus, u16_bytes(mask))
}

pub open spec fn syncword_write_frame(syncword: u16) -> Seq<u8> {
    register_write_frame(Register::LoRaSyncword, u16_bytes(syncword))
}

/// Pushes the big-endian bytes of `v`.
fn push_u16(out: &mut Vec<u8>, v: u16)
    ensures
        final(out)@ == old(out)@ + u16_bytes(v),
{
    out.push((v >> 8) as u8);
    out.push((v & 0xFF) as u8);
    proof {
        assert(out@ =~= old(out)@ + u16_bytes(v));
    }
}

/// Pushes the low three big-endian bytes of `v`.
fn push_u24(out: &mut Vec<u8>, v: u32)
    ensures
        final(out)@ == old(out)@ + u24_bytes(v),
{
    out.push(((v >> 16) & 0xFF) as u8);
    out.push(((v >> 8) & 0xFF) as u8);
    out.push((v & 0xFF) as u8);
    proof {
        assert(out@ =~= old(out)@ + u24_bytes(v));
    }
}

/// Issues the regulator-mode opcode.
fn sub_set_regulator_mode<IV: InterfaceVariant>(iv: &mut IV, mode: RegulatorMode) -> (r: Result<
    (),
    RadioError,
>)
    ensures
        r is Ok ==> final(iv).events() == old(iv).events() + write_frame_trace(
            regulator_mode_frame(mode),
        ),
        r matches Err(e) ==> is_interface_error(e),
        final(iv).irq_credit() == old(iv).irq_credit(),
{
    let params: [u8; 1] = [mode.value()];
    proof {
        assert(params@ =~= seq![mode.spec_value()]);
    }
    command::write_command(iv, OpCode::SetRegulatorMode, params.as_slice())
}

/// Issues the buffer-base-address opcode.
fn sub_set_buffer_base_address<IV: InterfaceVariant>(iv: &mut IV, tx_base: u8, rx_base: u8) -> (r:
    Result<(), RadioError>)
    ensures
        r is Ok ==> final(iv).events() == old(iv).events() + write_frame_trace(
            buffer_base_address_frame(tx_base, rx_base),
        ),
        r matches Err(e) ==> is_interface_error(e),
        final(iv).irq_credit() == old(iv).irq_credit(),
{
    let params: [u8; 2] = [tx_base, rx_base];
    proof {
        assert(params@ =~= seq![tx_base, rx_base]);
    }
    command::write_command(iv, OpCode::SetBufferBaseAddress, params.as_slice())
}

/// Issues the transmit-parameters opcode.
fn sub_set_tx_params<IV: InterfaceVariant>(iv: &mut IV, power: i8, ramp: RampTime) -> (r: Result<
    (),
    RadioError,
>)
    ensures
        r is Ok ==> final(iv).events() == old(iv).events() + write_frame_trace(
            tx_params_frame(power, ramp),
        ),
        r matches Err(e) ==> is_interface_error(e),
        final(iv).irq_credit() == old(iv).irq_credit(),
{
    let params: [u8; 2] = [power as u8, ramp.value()];
    proof {
        assert(params@ =~= seq![power as u8, ramp.spec_value()]);
    }
    command::write_command(iv, OpCode::SetTxParams, params.as_slice())
}

/// Routes the given IRQ sources to the DIO lines.
fn sub_set_dio_irq_params<IV: InterfaceVariant>(
    iv: &mut IV,
    irq_mask: u16,
    dio1_mask: u16,
    dio2_mask: u16,
    dio3_mask: u16,
) -> (r: Result<(), RadioError>)
    ensures
        r is Ok ==> final(iv).events() == old(iv).events() + write_frame_trace(
            dio_irq_frame(irq_mask, dio1_mask, dio2_mask, dio3_mask),
        ),
        r matches Err(e) ==> is_interface_error(e),
        final(iv).irq_credit() == old(iv).irq_credit(),
{
    let mut params: Vec<u8> = Vec::new();
    push_u16(&mut params, irq_mask);
    push_u16(&mut params, dio1_mask);
    push_u16(&mut params, dio2_mask);
    push_u16(&mut params, dio3_mask);
    proof {
        assert(params@ =~= u16_bytes(irq_mask) + u16_bytes(dio1_mask) + u16_bytes(dio2_mask)
            + u16_bytes(dio3_mask));
    }
    command::write_command(iv, OpCode::SetDioIrqParams, params.as_slice())
}

/// Issues the RF-frequency opcode for a carrier in Hz.
fn sub_set_rf_frequency<IV: InterfaceVariant>(iv: &mut IV, frequency_hz: u32) -> (r: Result<
    (),
    RadioError,
>)
    ensures
        r is Ok ==> final(iv).events() == old(iv).events() + write_frame_trace(
            rf_frequency_frame(frequency_hz),
        ),
        r matches Err(e) ==> is_interface_error(e),
        final(iv).irq_credit() == old(iv).irq_credit(),
{
    let word: u64 = ((frequency_hz as u64) * 0x2000000u64) / 32000000u64;
    let word32: u32 = (word & 0xFFFFFFFFu64) as u32;
    proof {
        assert(word & 0xFFFFFFFFu64 == word % 0x100000000u64) by (bit_vector);
        assert(word32 == spec_frequency_word(frequency_hz));
    }
    let params: [u8; 4] = [
        ((word32 >> 24) & 0xFF) as u8,
        ((word32 >> 16) & 0xFF) as u8,
        ((word32 >> 8) & 0xFF) as u8,
        (word32 & 0xFF) as u8,
    ];
    proof {
        assert(params@ =~= seq![
            ((spec_frequency_word(frequency_hz) >> 24) & 0xFF) as u8,
            ((spec_frequency_word(frequency_hz) >> 16) & 0xFF) as u8,
            ((spec_frequency_word(frequency_hz) >> 8) & 0xFF) as u8,
            (spec_frequency_word(frequency_hz) & 0xFF) as u8,
        ]);
    }
    command::write_command(iv, OpCode::SetRfFrequency, params.as_slice())
}

/// Issues the packet-type opcode.
fn sub_set_packet_type<IV: InterfaceVariant>(iv: &mut IV, packet_type: PacketType) -> (r: Result<
    (),
    RadioError,
>)
    ensures
        r is Ok ==> final(iv).events() == old(iv).events() + write_frame_trace(
            packet_type_frame(packet_type),
        ),
        r matches Err(e) ==> is_interface_error(e),
        final(iv).irq_credit() == old(iv).irq_credit(),
{
    let params: [u8; 1] = [packet_type.value()];
    proof {
        assert(params@ =~= seq![packet_type.spec_value()]);
    }
    command::write_command(iv, OpCode::SetPacketType, params.as_slice())
}

/// Enables or disables stopping the receive timer on preamble detection.
fn sub_set_stop_rx_timer_on_preamble_detect<IV: InterfaceVariant>(iv: &mut IV, enable: bool) -> (r:
    Result<(), RadioError>)
    ensures
        r is Ok ==> final(iv).events() == old(iv).events() + write_frame_trace(
            stop_rx_timer_frame(enable),
        ),
        r matches Err(e) ==> is_interface_error(e),
        final(iv).irq_credit() == old(iv).irq_credit(),
{
    let params: [u8; 1] = [if enable {
        1
    } else {
        0
    }];
    proof {
        assert(params@ =~= seq![
            if enable {
                1u8
            } else {
                0u8
            },
        ]);
    }
    command::write_command(iv, OpCode::SetStopRxTimerOnPreambleDetect, params.as_slice())
}

/// Sets the number of symbols the receiver waits for before timing out.
fn sub_set_lora_symb_num_timeout<IV: InterfaceVariant>(iv: &mut IV, symb_num: u8) -> (r: Result<
    (),
    RadioError,
>)
    ensures
        r is Ok ==> final(iv).events() == old(iv).events() + write_frame_trace(
            symb_num_timeout_frame(symb_num),
        ),
        r matches Err(e) ==> is_interface_error(e),
        final(iv).irq_credit() == old(iv).irq_credit(),
{
    let params: [u8; 1] = [symb_num];
    proof {
        assert(params@ =~= seq![symb_num]);
    }
    command::write_command(iv, OpCode::SetLoRaSymbNumTimeout, params.as_slice())
}

/// Writes the modulation parameters.
fn sub_set_modulation_params<IV: InterfaceVariant>(iv: &mut IV, mp: ModulationParams) -> (r: Result<
    (),
    RadioError,
>)
    ensures
        r is Ok ==> final(iv).events() == old(iv).events() + write_frame_trace(
            modulation_params_frame(mp),
        ),
        r matches Err(e) ==> is_interface_error(e),
        final(iv).irq_credit() == old(iv).irq_credit(),
{
    let params: [u8; 4] = [
        mp.spreading_factor.value(),
        mp.bandwidth.value(),
        mp.coding_rate.value(),
        mp.low_data_rate_optimize,
    ];
    proof {
        assert(params@ =~= seq![
            mp.spreading_factor.spec_value(),
            mp.bandwidth.spec_value(),
            mp.coding_rate.spec_value(),
            mp.low_data_rate_optimize,
        ]);
    }
    command::write_command(iv, OpCode::SetModulationParams, params.as_slice())
}

/// Writes the packet parameters.
fn sub_set_packet_params<IV: InterfaceVariant>(iv: &mut IV, pp: PacketParams) -> (r: Result<
    (),
    RadioError,
>)
    ensures
        r is Ok ==> final(iv).events() == old(iv).events() + write_frame_trace(
            packet_params_frame(pp),
        ),
        r matches Err(e) ==> is_interface_error(e),
        final(iv).irq_credit() == old(iv).irq_credit(),
{
    let params: [u8; 6] = [
        (pp.preamble_length >> 8) as u8,
        (pp.preamble_length & 0xFF) as u8,
        if pp.implicit_header {
            1
        } else {
            0
        },
        pp.payload_length,
        if pp.crc_on {
            1
        } else {
            0
        },
        if pp.iq_inverted {
            1
        } else {
            0
        },
    ];
    proof {
        assert(params@ =~= seq![
            (pp.preamble_length >> 8) as u8,
            (pp.preamble_length & 0xFF) as u8,
            if pp.implicit_header {
                1u8
            } else {
                0u8
            },
            pp.payload_length,
            if pp.crc_on {
                1u8
            } else {
                0u8
            },
            if pp.iq_inverted {
                1u8
            } else {
                0u8
            },
        ]);
    }
    command::write_command(iv, OpCode::SetPacketParams, params.as_slice())
}

/// Clears the given IRQ flags on the chip.
pub(crate) fn sub_clear_irq_status<IV: InterfaceVariant>(iv: &mut IV, mask: u16) -> (r: Result<
    (),
    RadioError,
>)
    ensures
        r is Ok ==> final(iv).events() == old(iv).events() + write_frame_trace(
            clear_irq_frame(mask),
        ),
        r matches Err(e) ==> is_interface_error(e),
        final(iv).irq_credit() == old(iv).irq_credit(),
{
    let mut params: Vec<u8> = Vec::new();
    push_u16(&mut params, mask);
    command::write_command(iv, OpCode::ClearIrqStatus, params.as_slice())
}

impl LoRa {
    /// Issues a standby opcode and shadows the new mode.
    fn sub_set_standby<IV: InterfaceVariant>(&mut self, iv: &mut IV, mode: StandbyMode) -> (r:
        Result<(), RadioError>)
        ensures
            r is Ok ==> final(iv).events() == old(iv).events() + write_frame_trace(
                standby_frame(mode),
            ) && same_except_mode(*old(self), *final(self)) && final(self).operating_mode == (
            match mode {
                StandbyMode::RC => RadioMode::StandbyRC,
                StandbyMode::XOSC => RadioMode::StandbyXOSC,
            }),
            r matches Err(e) ==> is_interface_error(e) && *final(self) == *old(self),
            final(iv).irq_credit() == old(iv).irq_credit(),
    {
        let params: [u8; 1] = [mode.value()];
        proof {
            assert(params@ =~= seq![mode.spec_value()]);
        }
        command::write_command(iv, OpCode::SetStandby, params.as_slice())?;
        self.operating_mode = match mode {
            StandbyMode::RC => RadioMode::StandbyRC,
            StandbyMode::XOSC => RadioMode::StandbyXOSC,
        };
        Ok(())
    }

    /// Issues the sleep opcode and shadows the new mode.
    fn sub_set_sleep<IV: InterfaceVariant>(&mut self, iv: &mut IV, params: SleepParams) -> (r:
        Result<(), RadioError>)
        ensures
            r is Ok ==> final(iv).events() == old(iv).events() + write_frame_trace(
                sleep_frame(params),
            ) && same_except_mode(*old(self), *final(self)) && final(self).operating_mode
                is Sleep,
            r matches Err(e) ==> is_interface_error(e) && *final(self) == *old(self),
            final(iv).irq_credit() == old(iv).irq_credit(),
    {
        let bytes: [u8; 1] = [params.value()];
        proof {
            assert(bytes@ =~= seq![params.spec_value()]);
        }
        command::write_command(iv, OpCode::SetSleep, bytes.as_slice())?;
        self.operating_mode = RadioMode::Sleep;
        Ok(())
    }

    /// Arms a transmission for the given 24-bit duration and shadows the
    /// new mode.
    fn sub_set_tx<IV: InterfaceVariant>(&mut self, iv: &mut IV, duration: u32) -> (r: Result<
        (),
        RadioError,
    >)
        ensures
            r is Ok ==> final(iv).events() == old(iv).events() + write_frame_trace(
                tx_frame(duration),
            ) && same_except_mode(*old(self), *final(self)) && final(self).operating_mode
                is Transmit,
            r matches Err(e) ==> is_interface_error(e) && *final(self) == *old(self),
            final(iv).irq_credit() == old(iv).irq_credit(),
    {
        let mut params: Vec<u8> = Vec::new();
        push_u24(&mut params, duration);
        command::write_command(iv, OpCode::SetTx, params.as_slice())?;
        self.operating_mode = RadioMode::Transmit;
        Ok(())
    }

    /// Arms a reception for the given 24-bit duration and shadows the new
    /// mode.
    fn sub_set_rx<IV: InterfaceVariant>(&mut self, iv: &mut IV, duration: u32) -> (r: Result<
        (),
        RadioError,
    >)
        ensures
            r is Ok ==> final(iv).events() == old(iv).events() + write_frame_trace(
                rx_frame(duration),
            ) && same_except_mode(*old(self), *final(self)) && final(self).operating_mode
                is Receive,
            r matches Err(e) ==> is_interface_error(e) && *final(self) == *old(self),
            final(iv).irq_credit() == old(iv).irq_credit(),
    {
        let mut params: Vec<u8> = Vec::new();
        push_u24(&mut params, duration);
        command::write_command(iv, OpCode::SetRx, params.as_slice())?;
        self.operating_mode = RadioMode::Receive;
        Ok(())
    }

    /// Starts channel-activity detection and shadows the new mode.
    fn sub_set_cad<IV: InterfaceVariant>(&mut self, iv: &mut IV) -> (r: Result<(), RadioError>)
        ensures
            r is Ok ==> final(iv).events() == old(iv).events() + write_frame_trace(cad_frame())
                && same_except_mode(*old(self), *final(self)) && final(self).operating_mode
                is ChannelActivityDetection,
            r matches Err(e) ==> is_interface_error(e) && *final(self) == *old(self),
            final(iv).irq_credit() == old(iv).irq_credit(),
    {
        let params: [u8; 0] = [];
        proof {
            assert(params@ =~= Seq::<u8>::empty());
        }
        command::write_command(iv, OpCode::SetCad, params.as_slice())?;
        self.operating_mode = RadioMode::ChannelActivityDetection;
        Ok(())
    }

    /// Return current radio state.
    pub fn get_status(&mut self) -> (r: RadioState)
        ensures
            r == (match old(self).operating_mode {
                RadioMode::Transmit => RadioState::TxRunning,
                RadioMode::Receive => RadioState::RxRunning,
                RadioMode::ChannelActivityDetection => RadioState::ChannelActivityDetecting,
                _ => RadioState::Idle,
            }),
            *final(self) == *old(self),
    {
        match self.operating_mode {
            RadioMode::Transmit => RadioState::TxRunning,
            RadioMode::Receive => RadioState::RxRunning,
            RadioMode::ChannelActivityDetection => RadioState::ChannelActivityDetecting,
            _ => RadioState::Idle,
        }
    }

    /// Set the radio in standby mode.
    pub fn standby<IV: InterfaceVariant>(&mut self, iv: &mut IV) -> (r: Result<(), RadioError>)
        ensures
            r is Ok ==> final(iv).events() == old(iv).events() + write_frame_trace(
                standby_frame(StandbyMode::RC),
            ) && same_except_mode(*old(self), *final(self)) && final(self).operating_mode
                is StandbyRC,
            r matches Err(e) ==> is_interface_error(e) && *final(self) == *old(self),
            final(iv).irq_credit() == old(iv).irq_credit(),
    {
        self.sub_set_standby(iv, StandbyMode::RC)
    }

    /// Set the radio in sleep mode: a warm start without RTC wake-up, then
    /// a two millisecond settling delay.
    pub fn sleep<IV: InterfaceVariant>(&mut self, iv: &mut IV) -> (r: Result<(), RadioError>)
        ensures
            r is Ok ==> final(iv).events() == old(iv).events() + write_frame_trace(
                sleep_frame(
                    SleepParams { wakeup_rtc: false, reset: false, warm_start: true },
                ),
            ).push(BusEvent::DelayMs(2)) && same_except_mode(*old(self), *final(self))
                && final(self).operating_mode is Sleep,
            r matches Err(e) ==> is_interface_error(e),
            final(iv).irq_credit() == old(iv).irq_credit(),
    {
        self.sub_set_sleep(
            iv,
            SleepParams { wakeup_rtc: false, reset: false, warm_start: true },
        )?;
        match iv.delay_ms(2) {
            Ok(_) => {},
            Err(_) => {
                return Err(RadioError::DelayError);
            },
        }
        proof {
            assert(iv.events() =~= old(iv).events() + write_frame_trace(
                sleep_frame(SleepParams { wakeup_rtc: false, reset: false, warm_start: true }),
            ).push(BusEvent::DelayMs(2)));
        }
        Ok(())
    }

    /// Set the radio in reception mode for the given duration, continuous
    /// if the last receive configuration asked for it [0: continuous,
    /// others: timeout (ms)].
    pub fn rx<IV: InterfaceVariant>(&mut self, iv: &mut IV, timeout: u32) -> (r: Result<
        (),
        RadioError,
    >)
        requires
            old(self).operating_mode.is_standby(),
        ensures
            r is Ok ==> spec_params_present(*old(self)) && final(iv).events() == old(iv).events()
                + write_frame_trace(
                dio_irq_frame(
                    IrqMask::All.spec_value(),
                    IrqMask::All.spec_value(),
                    IrqMask::Nothing.spec_value(),
                    IrqMask::Nothing.spec_value(),
                ),
            ) + write_frame_trace(
                rx_frame(spec_rx_duration(old(self).rx_continuous, timeout)),
            ) && same_except_mode(*old(self), *final(self)) && final(self).operating_mode
                is Receive,
            (r matches Err(e) && e is PacketParamsMissing) <==> !spec_params_present(*old(self)),
            !spec_params_present(*old(self)) ==> final(iv).events() == old(iv).events(),
            r matches Err(e) ==> (is_interface_error(e) || e is PacketParamsMissing)
                && *final(self) == *old(self),
            final(iv).irq_credit() == old(iv).irq_credit(),
    {
        if self.modulation_params.is_none() || self.packet_params.is_none() {
            return Err(RadioError::PacketParamsMissing);
        }
        sub_set_dio_irq_params(
            iv,
            IrqMask::All.value(),
            IrqMask::All.value(),
            IrqMask::Nothing.value(),
            IrqMask::Nothing.value(),
        )?;

        if self.rx_continuous {
            self.sub_set_rx(iv, 0xFFFFFF)?;
        } else {
            self.sub_set_rx(iv, timeout << 6)?;
        }

        proof {
            assert(iv.events() =~= old(iv).events() + write_frame_trace(
                dio_irq_frame(
                    IrqMask::All.spec_value(),
                    IrqMask::All.spec_value(),
                    IrqMask::Nothing.spec_value(),
                    IrqMask::Nothing.spec_value(),
                ),
            ) + write_frame_trace(rx_frame(spec_rx_duration(old(self).rx_continuous, timeout))));
        }
        Ok(())
    }

    /// Start a channel-activity detection.
    pub fn start_cad<IV: InterfaceVariant>(&mut self, iv: &mut IV) -> (r: Result<(), RadioError>)
        requires
            old(self).operating_mode.is_standby(),
        ensures
            r is Ok ==> spec_params_present(*old(self)) && final(iv).events() == old(iv).events()
                + write_frame_trace(
                dio_irq_frame(
                    IrqMask::CADDone.spec_value() | IrqMask::CADActivityDetected.spec_value(),
                    IrqMask::CADDone.spec_value() | IrqMask::CADActivityDetected.spec_value(),
                    IrqMask::Nothing.spec_value(),
                    IrqMask::Nothing.spec_value(),
                ),
            ) + write_frame_trace(cad_frame()) && same_except_mode(*old(self), *final(self))
                && final(self).operating_mode is ChannelActivityDetection,
            (r matches Err(e) && e is PacketParamsMissing) <==> !spec_params_present(*old(self)),
            !spec_params_present(*old(self)) ==> final(iv).events() == old(iv).events(),
            r matches Err(e) ==> (is_interface_error(e) || e is PacketParamsMissing)
                && *final(self) == *old(self),
            final(iv).irq_credit() == old(iv).irq_credit(),
    {
        if self.modulation_params.is_none() || self.packet_params.is_none() {
            return Err(RadioError::PacketParamsMissing);
        }
        sub_set_dio_irq_params(
            iv,
            IrqMask::CADDone.value() | IrqMask::CADActivityDetected.value(),
            IrqMask::CADDone.value() | IrqMask::CADActivityDetected.value(),
            IrqMask::Nothing.value(),
            IrqMask::Nothing.value(),
        )?;
        self.sub_set_cad(iv)?;
        proof {
            assert(iv.events() =~= old(iv).events() + write_frame_trace(
                dio_irq_frame(
                    IrqMask::CADDone.spec_value() | IrqMask::CADActivityDetected.spec_value(),
                    IrqMask::CADDone.spec_value() | IrqMask::CADActivityDetected.spec_value(),
                    IrqMask::Nothing.spec_value(),
                    IrqMask::Nothing.spec_value(),
                ),
            ) + write_frame_trace(cad_frame()));
        }
        Ok(())
    }

    /// Get the time required for the board plus radio to get out of sleep,
    /// in milliseconds.
    pub fn get_wakeup_time(&mut self) -> (r: u32)
        requires
            old(self).board_tcxo_wakeup_time <= 0xFFFFFFFF - RADIO_WAKEUP_TIME,
        ensures
            r == old(self).board_tcxo_wakeup_time + RADIO_WAKEUP_TIME,
            *final(self) == *old(self),
    {
        self.board_tcxo_wakeup_time + RADIO_WAKEUP_TIME
    }

    /// Latest decoded packet status, if a packet has been received.
    pub fn get_latest_packet_status(&mut self) -> (r: Option<PacketStatus>)
        ensures
            r == old(self).packet_status,
            *final(self) == *old(self),
    {
        self.packet_status
    }
}


/// Calibration band for a carrier frequency: the image-calibration
/// argument bytes for each band the chip documents, or nothing for a
/// frequency outside every band.
pub open spec fn spec_calibration_band(frequency_hz: u32) -> Option<(u8, u8)> {
    if 430000000 <= frequency_hz <= 440000000 {
        Some((0x6Bu8, 0x6Fu8))
    } else if 470000000 <= frequency_hz <= 510000000 {
        Some((0x75u8, 0x81u8))
    } else if 779000000 <= frequency_hz <= 787000000 {
        Some((0xC1u8, 0xC5u8))
    } else if 863000000 <= frequency_hz <= 870000000 {
        Some((0xD7u8, 0xDBu8))
    } else if 902000000 <= frequency_hz <= 928000000 {
        Some((0xE1u8, 0xE9u8))
    } else {
        None
    }
}

/// Symbol timeout written to the chip: forced to zero under continuous
/// reception, else the caller's value truncated to the chip's one byte.
pub open spec fn spec_symb_timeout_final(rx_continuous: bool, symb_timeout: u16) -> u8 {
    if rx_continuous {
        0u8
    } else {
        (symb_timeout & 0xFF) as u8
    }
}

/// Inverted-IQ workaround: bit two of the IQ-polarity register is cleared
/// when IQ is inverted and set otherwise.
pub open spec fn spec_iq_fix_byte(prev: u8, iq_inverted: bool) -> u8 {
    if iq_inverted {
        prev & 0xFB
    } else {
        prev | 0x04
    }
}

/// Modulation-quality workaround: bit two of the transmit-modulation
/// register is cleared exactly for the 500 kHz bandwidth.
pub open spec fn spec_tx_modulation_byte(prev: u8, bw: Bandwidth) -> u8 {
    if bw is _500KHz {
        prev & 0xFB
    } else {
        prev | 0x04
    }
}

/// The fixed frames a receive configuration writes before the IQ-polarity
/// workaround.
pub open spec fn spec_rx_config_writes(mp: ModulationParams, pp: PacketParams, symb: u8) -> Seq<
    BusEvent,
> {
    write_frame_trace(stop_rx_timer_frame(false)) + write_frame_trace(
        standby_frame(StandbyMode::RC),
    ) + write_frame_trace(modulation_params_frame(mp)) + write_frame_trace(
        packet_params_frame(pp),
    ) + write_frame_trace(symb_num_timeout_frame(symb))
}

/// A receive configuration's transactions, for the IQ-polarity register
/// value `resp` that the chip answered.
pub open spec fn spec_rx_config_trace_with(
    pre: Seq<BusEvent>,
    post: Seq<BusEvent>,
    mp: ModulationParams,
    pp: PacketParams,
    symb: u8,
    iq_inverted: bool,
    resp: Seq<u8>,
) -> bool {
    &&& resp.len() == 2
    &&& post == pre + spec_rx_config_writes(mp, pp, symb) + read_frame_trace(
        register_read_header(Register::IQPolarity),
        resp,
    ) + write_frame_trace(
        register_write_frame(Register::IQPolarity, seq![spec_iq_fix_byte(resp[1], iq_inverted)]),
    )
}

/// A receive configuration's transactions: the fixed frames, then the
/// read–modify–write of the IQ-polarity register, whose prior value only
/// the chip knows.
pub open spec fn spec_rx_config_trace(
    pre: Seq<BusEvent>,
    post: Seq<BusEvent>,
    mp: ModulationParams,
    pp: PacketParams,
    symb: u8,
    iq_inverted: bool,
) -> bool {
    exists|resp: Seq<u8>| spec_rx_config_trace_with(pre, post, mp, pp, symb, iq_inverted, resp)
}

/// A transmit configuration's transactions, for the transmit-modulation
/// register value `resp` that the chip answered.
pub open spec fn spec_tx_config_trace_with(
    pre: Seq<BusEvent>,
    post: Seq<BusEvent>,
    mp: ModulationParams,
    pp: PacketParams,
    power: i8,
    resp: Seq<u8>,
) -> bool {
    &&& resp.len() == 2
    &&& post == pre + write_frame_trace(standby_frame(StandbyMode::RC)) + write_frame_trace(
        modulation_params_frame(mp),
    ) + write_frame_trace(packet_params_frame(pp)) + read_frame_trace(
        register_read_header(Register::TxModulation),
        resp,
    ) + write_frame_trace(
        register_write_frame(
            Register::TxModulation,
            seq![spec_tx_modulation_byte(resp[1], mp.bandwidth)],
        ),
    ) + write_frame_trace(tx_params_frame(power, RampTime::Ramp200Us))
}

/// A transmit configuration's transactions: standby and parameter frames,
/// the read–modify–write of the transmit-modulation register, then the
/// transmit-power frame.
pub open spec fn spec_tx_config_trace(
    pre: Seq<BusEvent>,
    post: Seq<BusEvent>,
    mp: ModulationParams,
    pp: PacketParams,
    power: i8,
) -> bool {
    exists|resp: Seq<u8>| spec_tx_config_trace_with(pre, post, mp, pp, power, resp)
}

impl LoRa {
    /// Set the reception parameters for the LoRa modem. The derived
    /// modulation and packet snapshots are stored before the chip is
    /// touched; under continuous reception the symbol timeout written to
    /// the chip is zero. `freq_hop_on` and `hop_period` are accepted but
    /// not acted upon.
    pub fn set_rx_config<IV: InterfaceVariant>(
        &mut self,
        iv: &mut IV,
        spreading_factor: SpreadingFactor,
        bandwidth: Bandwidth,
        coding_rate: CodingRate,
        preamble_length: u16,
        symb_timeout: u16,
        fixed_len: bool,
        payload_len: u8,
        crc_on: bool,
        _freq_hop_on: bool,
        _hop_period: u8,
        iq_inverted: bool,
        rx_continuous: bool,
    ) -> (r: Result<(), RadioError>)
        ensures
            final(self).rx_continuous == rx_continuous,
            final(self).max_payload_length == (if fixed_len {
                payload_len
            } else {
                0xFFu8
            }),
            final(self).modulation_params == Some(
                spec_derive_modulation_params(spreading_factor, bandwidth, coding_rate),
            ),
            final(self).packet_params == Some(
                spec_derive_packet_params(
                    spreading_factor,
                    preamble_length,
                    fixed_len,
                    if fixed_len {
                        payload_len
                    } else {
                        0xFFu8
                    },
                    crc_on,
                    iq_inverted,
                ),
            ),
            final(self).packet_type == old(self).packet_type,
            final(self).packet_status == old(self).packet_status,
            final(self).image_calibrated == old(self).image_calibrated,
            final(self).frequency_error == old(self).frequency_error,
            final(self).board_tcxo_wakeup_time == old(self).board_tcxo_wakeup_time,
            r is Ok ==> final(self).operating_mode is StandbyRC && spec_rx_config_trace(
                old(iv).events(),
                final(iv).events(),
                spec_derive_modulation_params(spreading_factor, bandwidth, coding_rate),
                spec_derive_packet_params(
                    spreading_factor,
                    preamble_length,
                    fixed_len,
                    if fixed_len {
                        payload_len
                    } else {
                        0xFFu8
                    },
                    crc_on,
                    iq_inverted,
                ),
                spec_symb_timeout_final(rx_continuous, symb_timeout),
                iq_inverted,
            ),
            r matches Err(e) ==> is_interface_error(e),
            final(iv).irq_credit() == old(iv).irq_credit(),
    {
        self.rx_continuous = rx_continuous;
        let symb_timeout_final: u8 = if rx_continuous {
            0
        } else {
            (symb_timeout & 0xFF) as u8
        };
        if fixed_len {
            self.max_payload_length = payload_len;
        } else {
            self.max_payload_length = 0xFF;
        }

        let modulation_params = derive_modulation_params(spreading_factor, bandwidth, coding_rate);
        let packet_params = derive_packet_params(
            spreading_factor,
            preamble_length,
            fixed_len,
            self.max_payload_length,
            crc_on,
            iq_inverted,
        );
        self.modulation_params = Some(modulation_params);
        self.packet_params = Some(packet_params);

        sub_set_stop_rx_timer_on_preamble_detect(iv, false)?;
        self.sub_set_standby(iv, StandbyMode::RC)?;
        sub_set_modulation_params(iv, modulation_params)?;
        sub_set_packet_params(iv, packet_params)?;
        sub_set_lora_symb_num_timeout(iv, symb_timeout_final)?;

        // Optimise the inverted-IQ operation: read the IQ-polarity
        // register and rewrite bit two.
        let iq_polarity = command::read_registers(iv, Register::IQPolarity, 1)?;
        let current: u8 = iq_polarity[1];
        let fixed: [u8; 1] = [
            if iq_inverted {
                current & 0xFB
            } else {
                current | 0x04
            },
        ];
        command::write_registers(iv, Register::IQPolarity, fixed.as_slice())?;

        proof {
            assert(fixed@ =~= seq![spec_iq_fix_byte(iq_polarity@[1], iq_inverted)]);
            assert(iv.events() =~= old(iv).events() + spec_rx_config_writes(
                modulation_params,
                packet_params,
                symb_timeout_final,
            ) + read_frame_trace(register_read_header(Register::IQPolarity), iq_polarity@)
                + write_frame_trace(
                register_write_frame(
                    Register::IQPolarity,
                    seq![spec_iq_fix_byte(iq_polarity@[1], iq_inverted)],
                ),
            ));
            assert(spec_rx_config_trace_with(
                old(iv).events(),
                iv.events(),
                modulation_params,
                packet_params,
                symb_timeout_final,
                iq_inverted,
                iq_polarity@,
            ));
        }
        Ok(())
    }

    /// Set the transmission parameters for the LoRa modem. The derived
    /// modulation and packet snapshots are stored before the chip is
    /// touched; the packet snapshot keeps the current maximum payload
    /// length. `freq_hop_on` and `hop_period` are accepted but not acted
    /// upon.
    pub fn set_tx_config<IV: InterfaceVariant>(
        &mut self,
        iv: &mut IV,
        power: i8,
        spreading_factor: SpreadingFactor,
        bandwidth: Bandwidth,
        coding_rate: CodingRate,
        preamble_length: u16,
        fixed_len: bool,
        crc_on: bool,
        _freq_hop_on: bool,
        _hop_period: u8,
        iq_inverted: bool,
    ) -> (r: Result<(), RadioError>)
        ensures
            final(self).modulation_params == Some(
                spec_derive_modulation_params(spreading_factor, bandwidth, coding_rate),
            ),
            final(self).packet_params == Some(
                spec_derive_packet_params(
                    spreading_factor,
                    preamble_length,
                    fixed_len,
                    old(self).max_payload_length,
                    crc_on,
                    iq_inverted,
                ),
            ),
            final(self).rx_continuous == old(self).rx_continuous,
            final(self).max_payload_length == old(self).max_payload_length,
            final(self).packet_type == old(self).packet_type,
            final(self).packet_status == old(self).packet_status,
            final(self).image_calibrated == old(self).image_calibrated,
            final(self).frequency_error == old(self).frequency_error,
            final(self).board_tcxo_wakeup_time == old(self).board_tcxo_wakeup_time,
            r is Ok ==> final(self).operating_mode is StandbyRC && spec_tx_config_trace(
                old(iv).events(),
                final(iv).events(),
                spec_derive_modulation_params(spreading_factor, bandwidth, coding_rate),
                spec_derive_packet_params(
                    spreading_factor,
                    preamble_length,
                    fixed_len,
                    old(self).max_payload_length,
                    crc_on,
                    iq_inverted,
                ),
                power,
            ),
            r matches Err(e) ==> is_interface_error(e),
            final(iv).irq_credit() == old(iv).irq_credit(),
    {
        let modulation_params = derive_modulation_params(spreading_factor, bandwidth, coding_rate);
        let packet_params = derive_packet_params(
            spreading_factor,
            preamble_length,
            fixed_len,
            self.max_payload_length,
            crc_on,
            iq_inverted,
        );
        self.modulation_params = Some(modulation_params);
        self.packet_params = Some(packet_params);

        self.sub_set_standby(iv, StandbyMode::RC)?;
        sub_set_modulation_params(iv, modulation_params)?;
        sub_set_packet_params(iv, packet_params)?;

        // Keep modulation quality with the 500 kHz bandwidth: read the
        // transmit-modulation register and rewrite bit two.
        let tx_modulation = command::read_registers(iv, Register::TxModulation, 1)?;
        let current: u8 = tx_modulation[1];
        let fixed: [u8; 1] = [
            if bandwidth == Bandwidth::_500KHz {
                current & 0xFB
            } else {
                current | 0x04
            },
        ];
        command::write_registers(iv, Register::TxModulation, fixed.as_slice())?;

        set_rf_tx_power(iv, power)?;

        proof {
            assert(fixed@ =~= seq![spec_tx_modulation_byte(tx_modulation@[1], bandwidth)]);
            assert(iv.events() =~= old(iv).events() + write_frame_trace(
                standby_frame(StandbyMode::RC),
            ) + write_frame_trace(modulation_params_frame(modulation_params)) + write_frame_trace(
                packet_params_frame(packet_params),
            ) + read_frame_trace(register_read_header(Register::TxModulation), tx_modulation@)
                + write_frame_trace(
                register_write_frame(
                    Register::TxModulation,
                    seq![spec_tx_modulation_byte(tx_modulation@[1], bandwidth)],
                ),
            ) + write_frame_trace(tx_params_frame(power, RampTime::Ramp200Us)));
            assert(spec_tx_config_trace_with(
                old(iv).events(),
                iv.events(),
                modulation_params,
                packet_params,
                power,
                tx_modulation@,
            ));
        }
        Ok(())
    }

    /// Sets the channel frequency; triggers image calibration for the
    /// band the frequency falls in, once per reset.
    pub fn set_channel<IV: InterfaceVariant>(&mut self, iv: &mut IV, frequency: u32) -> (r: Result<
        (),
        RadioError,
    >)
        ensures
            same_except_calibration(*old(self), *final(self)),
            r is Ok && old(self).image_calibrated ==> final(iv).events() == old(iv).events()
                + write_frame_trace(rf_frequency_frame(frequency)) && final(self).image_calibrated,
            r is Ok && !old(self).image_calibrated ==> final(self).image_calibrated && (
            spec_calibration_band(frequency) matches Some(band) && final(iv).events() == old(
                iv,
            ).events() + write_frame_trace(calibrate_image_frame(band.0, band.1))
                + write_frame_trace(rf_frequency_frame(frequency))),
            r matches Err(e) ==> is_interface_error(e) || e is InvalidFrequency,
            (r matches Err(e) && e is InvalidFrequency) <==> !old(self).image_calibrated
                && spec_calibration_band(frequency) is None,
            final(iv).irq_credit() == old(iv).irq_credit(),
    {
        if !self.image_calibrated {
            let band: Option<(u8, u8)> = calibration_band(frequency);
            match band {
                Some(b) => {
                    sub_calibrate_image(iv, b.0, b.1)?;
                    self.image_calibrated = true;
                },
                None => {
                    return Err(RadioError::InvalidFrequency);
                },
            }
        }
        sub_set_rf_frequency(iv, frequency)?;
        Ok(())
    }
}

/// The two handles agree on everything but the image-calibration flag and
/// the operating mode.
pub open spec fn same_except_calibration(a: LoRa, b: LoRa) -> bool {
    &&& b.operating_mode == a.operating_mode
    &&& b.rx_continuous == a.rx_continuous
    &&& b.max_payload_length == a.max_payload_length
    &&& b.modulation_params == a.modulation_params
    &&& b.packet_type == a.packet_type
    &&& b.packet_params == a.packet_params
    &&& b.packet_status == a.packet_status
    &&& b.frequency_error == a.frequency_error
    &&& b.board_tcxo_wakeup_time == a.board_tcxo_wakeup_time
}

/// Exec mirror of [`spec_calibration_band`].
fn calibration_band(frequency_hz: u32) -> (r: Option<(u8, u8)>)
    ensures
        r == spec_calibration_band(frequency_hz),
{
    if 430000000 <= frequency_hz && frequency_hz <= 440000000 {
        Some((0x6B, 0x6F))
    } else if 470000000 <= frequency_hz && frequency_hz <= 510000000 {
        Some((0x75, 0x81))
    } else if 779000000 <= frequency_hz && frequency_hz <= 787000000 {
        Some((0xC1, 0xC5))
    } else if 863000000 <= frequency_hz && frequency_hz <= 870000000 {
        Some((0xD7, 0xDB))
    } else if 902000000 <= frequency_hz && frequency_hz <= 928000000 {
        Some((0xE1, 0xE9))
    } else {
        None
    }
}

/// Issues the image-calibration opcode for one band.
fn sub_calibrate_image<IV: InterfaceVariant>(iv: &mut IV, freq1: u8, freq2: u8) -> (r: Result<
    (),
    RadioError,
>)
    ensures
        r is Ok ==> final(iv).events() == old(iv).events() + write_frame_trace(
            calibrate_image_frame(freq1, freq2),
        ),
        r matches Err(e) ==> is_interface_error(e),
        final(iv).irq_credit() == old(iv).irq_credit(),
{
    let params: [u8; 2] = [freq1, freq2];
    proof {
        assert(params@ =~= seq![freq1, freq2]);
    }
    command::write_command(iv, OpCode::CalibrateImage, params.as_slice())
}

/// Sets the transmit power with the driver's fixed 200 microsecond ramp.
fn set_rf_tx_power<IV: InterfaceVariant>(iv: &mut IV, power: i8) -> (r: Result<(), RadioError>)
    ensures
        r is Ok ==> final(iv).events() == old(iv).events() + write_frame_trace(
            tx_params_frame(power, RampTime::Ramp200Us),
        ),
        r matches Err(e) ==> is_interface_error(e),
        final(iv).irq_credit() == old(iv).irq_credit(),
{
    sub_set_tx_params(iv, power, RampTime::Ramp200Us)
}


/// Transactions of one retention-list add, for the list image `resp` that
/// the chip answered: the read, then a write-back only when the address
/// was not yet stored.
pub open spec fn spec_retention_add_trace_with(
    pre: Seq<BusEvent>,
    post: Seq<BusEvent>,
    addr: u16,
    resp: Seq<u8>,
) -> bool {
    &&& resp.len() == 10
    &&& if crate::retention::spec_retention_contains(resp.skip(1), addr) {
        post == pre + read_frame_trace(register_read_header(Register::RetentionList), resp)
    } else {
        post == pre + read_frame_trace(register_read_header(Register::RetentionList), resp)
            + write_frame_trace(
            register_write_frame(
                Register::RetentionList,
                crate::retention::spec_retention_insert(resp.skip(1), addr),
            ),
        )
    }
}

/// Transactions of one retention-list add; which image the chip answers
/// only the chip knows.
pub open spec fn spec_retention_add_trace(pre: Seq<BusEvent>, post: Seq<BusEvent>, addr: u16) -> bool {
    exists|resp: Seq<u8>| spec_retention_add_trace_with(pre, post, addr, resp)
}

/// Reads the on-chip retention list and adds `register_address` to it,
/// idempotently; a list already holding four other addresses is refused.
fn add_register_to_retention_list<IV: InterfaceVariant>(iv: &mut IV, register_address: u16) -> (r:
    Result<(), RadioError>)
    ensures
        r is Ok ==> spec_retention_add_trace(old(iv).events(), final(iv).events(), register_address),
        r matches Err(e) ==> is_interface_error(e) || e is RetentionListExceeded,
        final(iv).irq_credit() == old(iv).irq_credit(),
{
    let image = command::read_registers(iv, Register::RetentionList, 9)?;
    let list = command::slice_tail_to_vec(image.as_slice());
    proof {
        assert(list@ =~= image@.skip(1));
    }
    match crate::retention::retention_list_add(&list, register_address)? {
        Some(updated) => {
            command::write_registers(iv, Register::RetentionList, updated.as_slice())?;
            proof {
                assert(spec_retention_add_trace_with(
                    old(iv).events(),
                    iv.events(),
                    register_address,
                    image@,
                ));
            }
            Ok(())
        },
        None => {
            proof {
                assert(spec_retention_add_trace_with(
                    old(iv).events(),
                    iv.events(),
                    register_address,
                    image@,
                ));
            }
            Ok(())
        },
    }
}

/// The fixed frames initialisation writes after the reset.
pub open spec fn spec_init_writes() -> Seq<BusEvent> {
    seq![BusEvent::Reset] + write_frame_trace(standby_frame(StandbyMode::RC)) + write_frame_trace(
        regulator_mode_frame(RegulatorMode::UseDCDC),
    ) + write_frame_trace(buffer_base_address_frame(0, 0)) + write_frame_trace(
        tx_params_frame(0, RampTime::Ramp200Us),
    ) + write_frame_trace(
        dio_irq_frame(
            IrqMask::All.spec_value(),
            IrqMask::All.spec_value(),
            IrqMask::Nothing.spec_value(),
            IrqMask::Nothing.spec_value(),
        ),
    )
}

/// Initialisation's transactions: reset, the fixed configuration frames,
/// then the two retention-list adds.
pub open spec fn spec_init_trace(pre: Seq<BusEvent>, post: Seq<BusEvent>) -> bool {
    exists|mid: Seq<BusEvent>|
        {
            &&& #[trigger] spec_retention_add_trace(
                pre + spec_init_writes(),
                mid,
                Register::RxGain.spec_addr(),
            )
            &&& spec_retention_add_trace(mid, post, Register::TxModulation.spec_addr())
        }
}

/// The LoRa-modem selection frames: the packet type, then the network
/// sync word.
pub open spec fn spec_modem_writes(enable_public_network: bool) -> Seq<BusEvent> {
    write_frame_trace(packet_type_frame(PacketType::LoRa)) + write_frame_trace(
        syncword_write_frame(
            if enable_public_network {
                LORA_MAC_PUBLIC_SYNCWORD
            } else {
                LORA_MAC_PRIVATE_SYNCWORD
            },
        ),
    )
}

impl LoRa {
    /// Initialize the radio: reset, standby, regulator and buffer setup,
    /// default transmit parameters, IRQ routing, and retention of the
    /// receiver-gain and transmit-modulation registers across warm sleep.
    pub fn init<IV: InterfaceVariant>(&mut self, iv: &mut IV) -> (r: Result<(), RadioError>)
        ensures
            r is Ok ==> spec_init_trace(old(iv).events(), final(iv).events()) && same_except_mode(
                *old(self),
                *final(self),
            ) && final(self).operating_mode is StandbyRC,
            r matches Err(e) ==> is_interface_error(e) || e is RetentionListExceeded,
            final(iv).irq_credit() == old(iv).irq_credit(),
    {
        match iv.reset() {
            Ok(_) => {},
            Err(e) => {
                return Err(e);
            },
        }
        self.sub_set_standby(iv, StandbyMode::RC)?;
        sub_set_regulator_mode(iv, RegulatorMode::UseDCDC)?;
        sub_set_buffer_base_address(iv, 0x00, 0x00)?;
        sub_set_tx_params(iv, 0, RampTime::Ramp200Us)?;
        sub_set_dio_irq_params(
            iv,
            IrqMask::All.value(),
            IrqMask::All.value(),
            IrqMask::Nothing.value(),
            IrqMask::Nothing.value(),
        )?;
        proof {
            assert(iv.events() =~= old(iv).events() + spec_init_writes());
        }
        add_register_to_retention_list(iv, Register::RxGain.addr())?;
        let ghost mid = iv.events();
        add_register_to_retention_list(iv, Register::TxModulation.addr())?;
        proof {
            assert(spec_retention_add_trace(
                old(iv).events() + spec_init_writes(),
                mid,
                Register::RxGain.spec_addr(),
            ));
        }
        Ok(())
    }

    /// Configure the radio for LoRa: select the LoRa packet engine and
    /// write the public or private network sync word.
    pub fn set_lora_modem<IV: InterfaceVariant>(
        &mut self,
        iv: &mut IV,
        enable_public_network: bool,
    ) -> (r: Result<(), RadioError>)
        ensures
            r is Ok ==> final(iv).events() == old(iv).events() + spec_modem_writes(
                enable_public_network,
            ),
            *final(self) == *old(self),
            r matches Err(e) ==> is_interface_error(e),
            final(iv).irq_credit() == old(iv).irq_credit(),
    {
        sub_set_packet_type(iv, PacketType::LoRa)?;
        let syncword: u16 = if enable_public_network {
            LORA_MAC_PUBLIC_SYNCWORD
        } else {
            LORA_MAC_PRIVATE_SYNCWORD
        };
        let mut word: Vec<u8> = Vec::new();
        push_u16(&mut word, syncword);
        command::write_registers(iv, Register::LoRaSyncword, word.as_slice())?;
        proof {
            assert(iv.events() =~= old(iv).events() + spec_modem_writes(enable_public_network));
        }
        Ok(())
    }

    /// Builds and returns a new instance of the radio, initialised and
    /// configured for the chosen LoRa network. Only one instance should
    /// exist for one chip.
    pub fn new<IV: InterfaceVariant>(iv: &mut IV, enable_public_network: bool) -> (r: Result<
        LoRa,
        RadioError,
    >)
        ensures
            r matches Ok(radio) ==> {
                &&& radio.operating_mode is StandbyRC
                &&& !radio.rx_continuous
                &&& radio.max_payload_length == 0xFFu8
                &&& radio.modulation_params is None
                &&& radio.packet_type is LoRa
                &&& radio.packet_params is None
                &&& radio.packet_status is None
                &&& !radio.image_calibrated
                &&& radio.frequency_error == 0
                &&& exists|mid: Seq<BusEvent>|
                    #[trigger] spec_init_trace(old(iv).events(), mid) && final(iv).events() == mid
                        + spec_modem_writes(enable_public_network)
            },
            r matches Err(e) ==> is_interface_error(e) || e is RetentionListExceeded,
            final(iv).irq_credit() == old(iv).irq_credit(),
    {
        let mut radio = LoRa {
            operating_mode: RadioMode::Sleep,
            rx_continuous: false,
            max_payload_length: 0xFF,
            modulation_params: None,
            packet_type: PacketType::LoRa,
            packet_params: None,
            packet_status: None,
            image_calibrated: false,
            frequency_error: 0,
            board_tcxo_wakeup_time: 0,
        };
        radio.init(iv)?;
        let ghost mid = iv.events();
        radio.set_lora_modem(iv, enable_public_network)?;
        proof {
            assert(spec_init_trace(old(iv).events(), mid));
        }
        Ok(radio)
    }

    /// Send the buffer of the given size: arm DIO1 for the transmit
    /// outcomes, write the payload length and the payload, and start the
    /// transmission [timeout in ms].
    pub fn send<IV: InterfaceVariant>(&mut self, iv: &mut IV, buffer: &[u8], timeout: u32) -> (r:
        Result<(), RadioError>)
        requires
            buffer@.len() <= 255,
            old(self).operating_mode.is_standby(),
        ensures
            !spec_params_present(*old(self)) ==> r == Err::<(), RadioError>(
                RadioError::PacketParamsMissing,
            ) && *final(self) == *old(self) && final(iv).events() == old(iv).events(),
            (r matches Err(e) && e is PacketParamsMissing) <==> !spec_params_present(*old(self)),
            spec_params_present(*old(self)) ==> (old(self).packet_params matches Some(pp) ==> {
                &&& r is Ok ==> {
                    &&& final(self).packet_params == Some(
                        PacketParams {
                            payload_length: buffer@.len() as u8,
                            ..pp
                        },
                    )
                    &&& final(self).operating_mode is Transmit
                    &&& final(self).rx_continuous == old(self).rx_continuous
                    &&& final(self).modulation_params == old(self).modulation_params
                    &&& final(iv).events() == old(iv).events() + write_frame_trace(
                        dio_irq_frame(
                            IrqMask::TxDone.spec_value() | IrqMask::RxTxTimeout.spec_value(),
                            IrqMask::TxDone.spec_value() | IrqMask::RxTxTimeout.spec_value(),
                            IrqMask::Nothing.spec_value(),
                            IrqMask::Nothing.spec_value(),
                        ),
                    ) + write_frame_trace(
                        packet_params_frame(
                            PacketParams { payload_length: buffer@.len() as u8, ..pp },
                        ),
                    ) + write_frame_trace(buffer_write_frame(0, buffer@)) + write_frame_trace(
                        tx_frame(timeout << 6),
                    )
                }
                &&& (r matches Err(e) ==> is_interface_error(e))
            }),
            final(iv).irq_credit() == old(iv).irq_credit(),
    {
        if self.modulation_params.is_none() {
            return Err(RadioError::PacketParamsMissing);
        }
        match self.packet_params {
            Some(pp) => {
                sub_set_dio_irq_params(
                    iv,
                    IrqMask::TxDone.value() | IrqMask::RxTxTimeout.value(),
                    IrqMask::TxDone.value() | IrqMask::RxTxTimeout.value(),
                    IrqMask::Nothing.value(),
                    IrqMask::Nothing.value(),
                )?;
                let updated = PacketParams {
                    preamble_length: pp.preamble_length,
                    implicit_header: pp.implicit_header,
                    payload_length: buffer.len() as u8,
                    crc_on: pp.crc_on,
                    iq_inverted: pp.iq_inverted,
                };
                self.packet_params = Some(updated);
                sub_set_packet_params(iv, updated)?;
                command::write_buffer(iv, 0x00, buffer)?;
                self.sub_set_tx(iv, timeout << 6)?;
                proof {
                    assert(iv.events() =~= old(iv).events() + write_frame_trace(
                        dio_irq_frame(
                            IrqMask::TxDone.spec_value() | IrqMask::RxTxTimeout.spec_value(),
                            IrqMask::TxDone.spec_value() | IrqMask::RxTxTimeout.spec_value(),
                            IrqMask::Nothing.spec_value(),
                            IrqMask::Nothing.spec_value(),
                        ),
                    ) + write_frame_trace(packet_params_frame(updated)) + write_frame_trace(
                        buffer_write_frame(0, buffer@),
                    ) + write_frame_trace(tx_frame(timeout << 6)));
                }
                Ok(())
            },
            None => Err(RadioError::PacketParamsMissing),
        }
    }

    /// Set the maximum payload length (in bytes) for the LoRa modem and
    /// rewrite the packet parameters with it.
    pub fn set_max_payload_length<IV: InterfaceVariant>(&mut self, iv: &mut IV, max: u8) -> (r:
        Result<(), RadioError>)
        ensures
            old(self).packet_params is None ==> r == Err::<(), RadioError>(
                RadioError::PacketParamsMissing,
            ) && *final(self) == *old(self) && final(iv).events() == old(iv).events(),
            old(self).packet_params matches Some(pp) ==> {
                &&& final(self).max_payload_length == max
                &&& final(self).packet_params == Some(PacketParams { payload_length: max, ..pp })
                &&& final(self).operating_mode == old(self).operating_mode
                &&& (r is Ok ==> final(iv).events() == old(iv).events() + write_frame_trace(
                    packet_params_frame(PacketParams { payload_length: max, ..pp }),
                ))
                &&& (r matches Err(e) ==> is_interface_error(e))
            },
            final(iv).irq_credit() == old(iv).irq_credit(),
    {
        match self.packet_params {
            Some(pp) => {
                let updated = PacketParams {
                    preamble_length: pp.preamble_length,
                    implicit_header: pp.implicit_header,
                    payload_length: max,
                    crc_on: pp.crc_on,
                    iq_inverted: pp.iq_inverted,
                };
                self.max_payload_length = max;
                self.packet_params = Some(updated);
                sub_set_packet_params(iv, updated)?;
                Ok(())
            },
            None => Err(RadioError::PacketParamsMissing),
        }
    }
}


/// Big-endian bytes of a 32-bit value.
pub open spec fn u32_be_bytes(v: u32) -> Seq<u8> {
    seq![((v >> 24) & 0xFF) as u8, ((v >> 16) & 0xFF) as u8, ((v >> 8) & 0xFF) as u8, (v
        & 0xFF) as u8]
}

/// Transactions of a register read whose data bytes came back as `data`,
/// preceded by a status byte only the chip chooses.
pub open spec fn spec_register_read_trace(
    pre: Seq<BusEvent>,
    post: Seq<BusEvent>,
    reg: Register,
    data: Seq<u8>,
) -> bool {
    exists|status: u8|
        post == pre + #[trigger] read_frame_trace(
            register_read_header(reg),
            seq![status] + data,
        )
}

impl LoRa {
    /// Set the radio in reception mode with boosted LNA gain for the given
    /// duration [0: continuous, others: timeout (ms)].
    pub fn set_rx_boosted<IV: InterfaceVariant>(&mut self, iv: &mut IV, timeout: u32) -> (r: Result<
        (),
        RadioError,
    >)
        requires
            old(self).operating_mode.is_standby(),
        ensures
            r is Ok ==> spec_params_present(*old(self)) && final(iv).events() == old(iv).events()
                + write_frame_trace(
                dio_irq_frame(
                    IrqMask::All.spec_value(),
                    IrqMask::All.spec_value(),
                    IrqMask::Nothing.spec_value(),
                    IrqMask::Nothing.spec_value(),
                ),
            ) + write_frame_trace(register_write_frame(Register::RxGain, seq![0x96u8]))
                + write_frame_trace(
                rx_frame(spec_rx_duration(old(self).rx_continuous, timeout)),
            ) && same_except_mode(*old(self), *final(self)) && final(self).operating_mode
                is Receive,
            (r matches Err(e) && e is PacketParamsMissing) <==> !spec_params_present(*old(self)),
            !spec_params_present(*old(self)) ==> final(iv).events() == old(iv).events(),
            r matches Err(e) ==> (is_interface_error(e) || e is PacketParamsMissing)
                && *final(self) == *old(self),
            final(iv).irq_credit() == old(iv).irq_credit(),
    {
        if self.modulation_params.is_none() || self.packet_params.is_none() {
            return Err(RadioError::PacketParamsMissing);
        }
        sub_set_dio_irq_params(
            iv,
            IrqMask::All.value(),
            IrqMask::All.value(),
            IrqMask::Nothing.value(),
            IrqMask::Nothing.value(),
        )?;

        // Boosted gain: write the receiver-gain register before arming.
        let gain: [u8; 1] = [0x96];
        proof {
            assert(gain@ =~= seq![0x96u8]);
        }
        command::write_registers(iv, Register::RxGain, gain.as_slice())?;

        if self.rx_continuous {
            self.sub_set_rx(iv, 0xFFFFFF)?;
        } else {
            self.sub_set_rx(iv, timeout << 6)?;
        }
        proof {
            assert(iv.events() =~= old(iv).events() + write_frame_trace(
                dio_irq_frame(
                    IrqMask::All.spec_value(),
                    IrqMask::All.spec_value(),
                    IrqMask::Nothing.spec_value(),
                    IrqMask::Nothing.spec_value(),
                ),
            ) + write_frame_trace(register_write_frame(Register::RxGain, seq![0x96u8]))
                + write_frame_trace(rx_frame(spec_rx_duration(old(self).rx_continuous, timeout))));
        }
        Ok(())
    }

    /// Set the receive duty-cycle management parameters: alternating
    /// receive and sleep windows, each a 24-bit tick count.
    pub fn set_rx_duty_cycle<IV: InterfaceVariant>(
        &mut self,
        iv: &mut IV,
        rx_time: u32,
        sleep_time: u32,
    ) -> (r: Result<(), RadioError>)
        requires
            old(self).operating_mode.is_standby(),
        ensures
            r is Ok ==> final(iv).events() == old(iv).events() + write_frame_trace(
                rx_duty_cycle_frame(rx_time, sleep_time),
            ) && same_except_mode(*old(self), *final(self)) && final(self).operating_mode
                is ReceiveDutyCycle,
            r matches Err(e) ==> is_interface_error(e) && *final(self) == *old(self),
            final(iv).irq_credit() == old(iv).irq_credit(),
    {
        let mut params: Vec<u8> = Vec::new();
        push_u24(&mut params, rx_time);
        push_u24(&mut params, sleep_time);
        proof {
            assert(params@ =~= u24_bytes(rx_time) + u24_bytes(sleep_time));
        }
        command::write_command(iv, OpCode::SetRxDutyCycle, params.as_slice())?;
        self.operating_mode = RadioMode::ReceiveDutyCycle;
        Ok(())
    }

    /// Sets the radio in continuous-wave transmission mode on the given
    /// channel at the given output power [dBm]; the timeout is accepted
    /// but the wave runs until the mode is left.
    pub fn set_tx_continuous_wave<IV: InterfaceVariant>(
        &mut self,
        iv: &mut IV,
        frequency: u32,
        power: i8,
        _timeout: u16,
    ) -> (r: Result<(), RadioError>)
        ensures
            r is Ok ==> final(iv).events() == old(iv).events() + write_frame_trace(
                rf_frequency_frame(frequency),
            ) + write_frame_trace(tx_params_frame(power, RampTime::Ramp200Us)) + write_frame_trace(
                tx_continuous_wave_frame(),
            ) && same_except_mode(*old(self), *final(self)) && final(self).operating_mode
                is Transmit,
            r matches Err(e) ==> is_interface_error(e) && *final(self) == *old(self),
            final(iv).irq_credit() == old(iv).irq_credit(),
    {
        sub_set_rf_frequency(iv, frequency)?;
        set_rf_tx_power(iv, power)?;
        let none: [u8; 0] = [];
        proof {
            assert(none@ =~= Seq::<u8>::empty());
        }
        command::write_command(iv, OpCode::SetTxContinuousWave, none.as_slice())?;
        self.operating_mode = RadioMode::Transmit;
        proof {
            assert(iv.events() =~= old(iv).events() + write_frame_trace(
                rf_frequency_frame(frequency),
            ) + write_frame_trace(tx_params_frame(power, RampTime::Ramp200Us)) + write_frame_trace(
                tx_continuous_wave_frame(),
            ));
        }
        Ok(())
    }

    /// Check if the given RF frequency lies in the chip's supported
    /// 150–960 MHz range [true: supported, false: unsupported].
    pub fn check_rf_frequency<IV: InterfaceVariant>(&mut self, _iv: &mut IV, frequency: u32) -> (r:
        Result<bool, RadioError>)
        ensures
            r == Ok::<bool, RadioError>(150000000 <= frequency <= 960000000),
            *final(self) == *old(self),
    {
        Ok(150000000 <= frequency && frequency <= 960000000)
    }

    /// Computes the packet time on air in ms for the given settings; never
    /// touches the chip.
    pub fn get_time_on_air(
        &mut self,
        spreading_factor: SpreadingFactor,
        bandwidth: Bandwidth,
        coding_rate: CodingRate,
        preamble_length: u16,
        fixed_len: bool,
        payload_len: u8,
        crc_on: bool,
    ) -> (r: Result<u32, RadioError>)
        ensures
            r is Ok <==> bandwidth.spec_value_in_hz() != 0,
            r matches Ok(ms) ==> ms == airtime::spec_time_on_air_ms(
                spreading_factor,
                bandwidth,
                coding_rate,
                preamble_length,
                fixed_len,
                payload_len,
                crc_on,
            ),
            r matches Err(e) ==> e is InvalidBandwidth,
            *final(self) == *old(self),
    {
        match airtime::time_on_air_ms(
            spreading_factor,
            bandwidth,
            coding_rate,
            preamble_length,
            fixed_len,
            payload_len,
            crc_on,
        ) {
            Some(ms) => Ok(ms),
            None => Err(RadioError::InvalidBandwidth),
        }
    }

    /// Read the current instantaneous RSSI reading for the LoRa modem; the
    /// raw chip byte is returned unconverted.
    pub fn get_rssi<IV: InterfaceVariant>(&mut self, iv: &mut IV) -> (r: Result<i16, RadioError>)
        ensures
            r matches Ok(v) ==> 0 <= v <= 255 && exists|resp: Seq<u8>|
                {
                    &&& #[trigger] command::spec_command_read_with(
                        old(iv).events(),
                        final(iv).events(),
                        OpCode::GetRssiInst,
                        resp,
                    )
                    &&& resp.len() == 2
                    &&& v == resp[1] as i16
                },
            r matches Err(e) ==> is_interface_error(e),
            *final(self) == *old(self),
            final(iv).irq_credit() == old(iv).irq_credit(),
    {
        let answer = command::read_command(iv, OpCode::GetRssiInst, 2)?;
        let value: u8 = answer[1];
        proof {
            assert(command::spec_command_read_with(
                old(iv).events(),
                iv.events(),
                OpCode::GetRssiInst,
                answer@,
            ));
            assert((value as i16) == answer@[1] as i16);
        }
        Ok(value as i16)
    }

    /// Generate a 32-bit value from the chip's wideband noise source, after
    /// masking all interrupts. Reconfigure reception or transmission before
    /// the next operation.
    pub fn get_random_value<IV: InterfaceVariant>(&mut self, iv: &mut IV) -> (r: Result<
        u32,
        RadioError,
    >)
        ensures
            r matches Ok(v) ==> spec_register_read_trace(
                old(iv).events() + write_frame_trace(
                    dio_irq_frame(
                        IrqMask::Nothing.spec_value(),
                        IrqMask::Nothing.spec_value(),
                        IrqMask::Nothing.spec_value(),
                        IrqMask::Nothing.spec_value(),
                    ),
                ),
                final(iv).events(),
                Register::RandomNumberGen,
                u32_be_bytes(v),
            ),
            r matches Err(e) ==> is_interface_error(e),
            *final(self) == *old(self),
            final(iv).irq_credit() == old(iv).irq_credit(),
    {
        sub_set_dio_irq_params(
            iv,
            IrqMask::Nothing.value(),
            IrqMask::Nothing.value(),
            IrqMask::Nothing.value(),
            IrqMask::Nothing.value(),
        )?;
        let ghost mid = iv.events();
        let answer = command::read_registers(iv, Register::RandomNumberGen, 4)?;
        let value: u32 = ((answer[1] as u32) << 24) | ((answer[2] as u32) << 16) | ((answer[3]
            as u32) << 8) | (answer[4] as u32);
        proof {
            let b1 = answer@[1];
            let b2 = answer@[2];
            let b3 = answer@[3];
            let b4 = answer@[4];
            assert(((value >> 24) & 0xFF) as u8 == b1 && ((value >> 16) & 0xFF) as u8 == b2 && ((
            value >> 8) & 0xFF) as u8 == b3 && (value & 0xFF) as u8 == b4) by (bit_vector)
                requires
                    value == ((b1 as u32) << 24) | ((b2 as u32) << 16) | ((b3 as u32) << 8) | (
                    b4 as u32),
            ;
            assert(seq![answer@[0]] + u32_be_bytes(value) =~= answer@);
            assert(iv.events() == mid + read_frame_trace(
                register_read_header(Register::RandomNumberGen),
                seq![answer@[0]] + u32_be_bytes(value),
            ));
            assert(spec_register_read_trace(
                mid,
                iv.events(),
                Register::RandomNumberGen,
                u32_be_bytes(value),
            ));
        }
        Ok(value)
    }

    /// Write one or more radio registers from a buffer, starting at the
    /// given register address.
    pub fn write_registers_from_buffer<IV: InterfaceVariant>(
        &mut self,
        iv: &mut IV,
        start_register: Register,
        buffer: &[u8],
    ) -> (r: Result<(), RadioError>)
        ensures
            r is Ok ==> final(iv).events() == old(iv).events() + write_frame_trace(
                register_write_frame(start_register, buffer@),
            ),
            r matches Err(e) ==> is_interface_error(e),
            *final(self) == *old(self),
            final(iv).irq_credit() == old(iv).irq_credit(),
    {
        command::write_registers(iv, start_register, buffer)
    }

    /// Read consecutive radio registers into a buffer, starting at the
    /// given register address; the buffer keeps its length and is filled
    /// with the chip's answer.
    pub fn read_registers_into_buffer<IV: InterfaceVariant>(
        &mut self,
        iv: &mut IV,
        start_register: Register,
        buffer: &mut Vec<u8>,
    ) -> (r: Result<(), RadioError>)
        requires
            old(buffer)@.len() < usize::MAX,
        ensures
            r is Ok ==> final(buffer)@.len() == old(buffer)@.len() && spec_register_read_trace(
                old(iv).events(),
                final(iv).events(),
                start_register,
                final(buffer)@,
            ),
            r matches Err(e) ==> is_interface_error(e) && final(buffer)@ == old(buffer)@,
            *final(self) == *old(self),
            final(iv).irq_credit() == old(iv).irq_credit(),
    {
        let n: usize = buffer.len();
        let answer = command::read_registers(iv, start_register, n)?;
        let data = command::slice_tail_to_vec(answer.as_slice());
        *buffer = data;
        proof {
            assert(seq![answer@[0]] + buffer@ =~= answer@);
            assert(spec_register_read_trace(
                old(iv).events(),
                iv.events(),
                start_register,
                buffer@,
            ));
        }
        Ok(())
    }
}


/// Under continuous reception the symbol timeout written to the chip is
/// zero, whatever the caller asked for.
pub proof fn lemma_continuous_rx_symbol_timeout(symb_timeout: u16)
    ensures
        spec_symb_timeout_final(true, symb_timeout) == 0,
{
}

/// Under continuous reception the armed receive duration is the continuous
/// sentinel, whatever timeout the caller passed.
pub proof fn lemma_continuous_rx_duration(timeout_ms: u32)
    ensures
        spec_rx_duration(true, timeout_ms) == 0xFFFFFF,
{
}

/// Partial inverse of the spreading-factor encoding.
pub open spec fn spec_sf_from_value(v: u8) -> Option<SpreadingFactor> {
    if v == 5 {
        Some(SpreadingFactor::_5)
    } else if v == 6 {
        Some(SpreadingFactor::_6)
    } else if v == 7 {
        Some(SpreadingFactor::_7)
    } else if v == 8 {
        Some(SpreadingFactor::_8)
    } else if v == 9 {
        Some(SpreadingFactor::_9)
    } else if v == 10 {
        Some(SpreadingFactor::_10)
    } else if v == 11 {
        Some(SpreadingFactor::_11)
    } else if v == 12 {
        Some(SpreadingFactor::_12)
    } else {
        None
    }
}

/// Partial inverse of the bandwidth encoding.
pub open spec fn spec_bw_from_value(v: u8) -> Option<Bandwidth> {
    if v == 0x04 {
        Some(Bandwidth::_125KHz)
    } else if v == 0x05 {
        Some(Bandwidth::_250KHz)
    } else if v == 0x06 {
        Some(Bandwidth::_500KHz)
    } else if v == 0x03 {
        Some(Bandwidth::Reserved)
    } else {
        None
    }
}

/// Partial inverse of the coding-rate encoding.
pub open spec fn spec_cr_from_value(v: u8) -> Option<CodingRate> {
    if v == 0x01 {
        Some(CodingRate::_4_5)
    } else if v == 0x02 {
        Some(CodingRate::_4_6)
    } else if v == 0x03 {
        Some(CodingRate::_4_7)
    } else if v == 0x04 {
        Some(CodingRate::_4_8)
    } else {
        None
    }
}

/// Reads a modulation-parameter snapshot back out of its frame bytes.
pub open spec fn spec_decode_modulation_frame(bytes: Seq<u8>) -> Option<ModulationParams> {
    if bytes.len() == 5 && bytes[0] == OpCode::SetModulationParams.spec_value() {
        match (spec_sf_from_value(bytes[1]), spec_bw_from_value(bytes[2]), spec_cr_from_value(
            bytes[3],
        )) {
            (Some(sf), Some(bw), Some(cr)) => Some(
                ModulationParams {
                    spreading_factor: sf,
                    bandwidth: bw,
                    coding_rate: cr,
                    low_data_rate_optimize: bytes[4],
                },
            ),
            _ => None,
        }
    } else {
        None
    }
}

/// Reads a packet-parameter snapshot back out of its frame bytes.
pub open spec fn spec_decode_packet_frame(bytes: Seq<u8>) -> Option<PacketParams> {
    if bytes.len() == 7 && bytes[0] == OpCode::SetPacketParams.spec_value() {
        Some(
            PacketParams {
                preamble_length: ((bytes[1] as int) * 256 + (bytes[2] as int)) as u16,
                implicit_header: bytes[3] == 1,
                payload_length: bytes[4],
                crc_on: bytes[5] == 1,
                iq_inverted: bytes[6] == 1,
            },
        )
    } else {
        None
    }
}

/// A modulation-parameter snapshot written to the chip and read back out
/// of the register frame is the snapshot that was derived.
pub proof fn lemma_modulation_frame_roundtrip(mp: ModulationParams)
    ensures
        spec_decode_modulation_frame(modulation_params_frame(mp)) == Some(mp),
{
}

/// A packet-parameter snapshot written to the chip and read back out of
/// the register frame is the snapshot that was derived.
pub proof fn lemma_packet_frame_roundtrip(pp: PacketParams)
    ensures
        spec_decode_packet_frame(packet_params_frame(pp)) == Some(pp),
{
    let p = pp.preamble_length;
    let hi = (p >> 8) as u8;
    let lo = (p & 0xFF) as u8;
    assert((hi as int) * 256 + (lo as int) == p) by (bit_vector)
        requires
            hi == (p >> 8) as u8,
            lo == (p & 0xFF) as u8,
    ;
}

} // verus!
