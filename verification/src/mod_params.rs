//! Parameter types for the SX126x driver: the error taxonomy, the chip's
//! operating modes, the LoRa modulation vocabulary with its register
//! encodings, and the derivation rules that turn user-facing settings into
//! the values written to the chip.

use vstd::prelude::*;

verus! {

/// Every way a driver operation can fail.
///
/// Protocol errors (`SPI`, `Busy`, `DelayError`, `Irq`) come from the board
/// interface; configuration errors are rejected inputs; radio outcomes are
/// reported by the chip through its IRQ flags; the `*Unexpected` variants
/// signal a desynchronisation between the driver's shadow state and the chip.
#[derive(Clone, Copy, PartialEq, Eq, Structural, Debug)]
pub enum RadioError {
    SPI,
    Busy,
    DelayError,
    Irq,
    InvalidBandwidth,
    PacketParamsMissing,
    RetentionListExceeded,
    InvalidFrequency,
    HeaderError,
    CRCErrorOnReceive,
    TransmitTimeout,
    ReceiveTimeout,
    CRCErrorUnexpected,
    TimeoutUnexpected,
    TransmitDoneUnexpected,
    ReceiveDoneUnexpected,
    CADUnexpected,
}

/// The errors a board interface is allowed to surface.
pub open spec fn is_interface_error(e: RadioError) -> bool {
    ||| e is SPI
    ||| e is Busy
    ||| e is DelayError
    ||| e is Irq
}

/// The chip's operating mode, shadowed by the driver and updated eagerly on
/// every mode-changing opcode.
#[derive(Clone, Copy, PartialEq, Eq, Structural, Debug)]
pub enum RadioMode {
    Sleep,
    StandbyRC,
    StandbyXOSC,
    FrequencySynthesis,
    Transmit,
    Receive,
    ReceiveDutyCycle,
    ChannelActivityDetection,
}

impl RadioMode {
    /// A standby state is the legal entry point for transmit, receive and
    /// channel-activity detection.
    pub open spec fn is_standby(self) -> bool {
        self is StandbyRC || self is StandbyXOSC
    }
}

/// Coarse radio state reported to callers.
#[derive(Clone, Copy, PartialEq, Eq, Structural, Debug)]
pub enum RadioState {
    Idle,
    TxRunning,
    RxRunning,
    ChannelActivityDetecting,
}

/// Clock source kept running in standby.
#[derive(Clone, Copy, PartialEq, Eq, Structural, Debug)]
pub enum StandbyMode {
    RC,
    XOSC,
}

impl StandbyMode {
    pub open spec fn spec_value(self) -> u8 {
        match self {
            StandbyMode::RC => 0x00,
            StandbyMode::XOSC => 0x01,
        }
    }

    #[verifier::when_used_as_spec(spec_value)]
    pub fn value(self) -> (v: u8)
        ensures
            v == self.spec_value(),
    {
        match self {
            StandbyMode::RC => 0x00,
            StandbyMode::XOSC => 0x01,
        }
    }
}

/// Power-regulator choice.
#[derive(Clone, Copy, PartialEq, Eq, Structural, Debug)]
pub enum RegulatorMode {
    UseLDO,
    UseDCDC,
}

impl RegulatorMode {
    pub open spec fn spec_value(self) -> u8 {
        match self {
            RegulatorMode::UseLDO => 0x00,
            RegulatorMode::UseDCDC => 0x01,
        }
    }

    #[verifier::when_used_as_spec(spec_value)]
    pub fn value(self) -> (v: u8)
        ensures
            v == self.spec_value(),
    {
        match self {
            RegulatorMode::UseLDO => 0x00,
            RegulatorMode::UseDCDC => 0x01,
        }
    }
}

/// Power-amplifier ramp time.
#[derive(Clone, Copy, PartialEq, Eq, Structural, Debug)]
pub enum RampTime {
    Ramp10Us,
    Ramp20Us,
    Ramp40Us,
    Ramp80Us,
    Ramp200Us,
    Ramp800Us,
    Ramp1700Us,
    Ramp3400Us,
}

impl RampTime {
    pub open spec fn spec_value(self) -> u8 {
        match self {
            RampTime::Ramp10Us => 0x00,
            RampTime::Ramp20Us => 0x01,
            RampTime::Ramp40Us => 0x02,
            RampTime::Ramp80Us => 0x03,
            RampTime::Ramp200Us => 0x04,
            RampTime::Ramp800Us => 0x05,
            RampTime::Ramp1700Us => 0x06,
            RampTime::Ramp3400Us => 0x07,
        }
    }

    #[verifier::when_used_as_spec(spec_value)]
    pub fn value(self) -> (v: u8)
        ensures
            v == self.spec_value(),
    {
        match self {
            RampTime::Ramp10Us => 0x00,
            RampTime::Ramp20Us => 0x01,
            RampTime::Ramp40Us => 0x02,
            RampTime::Ramp80Us => 0x03,
            RampTime::Ramp200Us => 0x04,
            RampTime::Ramp800Us => 0x05,
            RampTime::Ramp1700Us => 0x06,
            RampTime::Ramp3400Us => 0x07,
        }
    }
}

/// Packet engine selection; only LoRa is supported by this driver.
#[derive(Clone, Copy, PartialEq, Eq, Structural, Debug)]
pub enum PacketType {
    GFSK,
    LoRa,
}

impl PacketType {
    pub open spec fn spec_value(self) -> u8 {
        match self {
            PacketType::GFSK => 0x00,
            PacketType::LoRa => 0x01,
        }
    }

    #[verifier::when_used_as_spec(spec_value)]
    pub fn value(self) -> (v: u8)
        ensures
            v == self.spec_value(),
    {
        match self {
            PacketType::GFSK => 0x00,
            PacketType::LoRa => 0x01,
        }
    }
}

/// LoRa spreading factor: chips per symbol is two to this power.
#[derive(Clone, Copy, PartialEq, Eq, Structural, Debug)]
pub enum SpreadingFactor {
    _5,
    _6,
    _7,
    _8,
    _9,
    _10,
    _11,
    _12,
}

impl SpreadingFactor {
    pub open spec fn spec_value(self) -> u8 {
        match self {
            SpreadingFactor::_5 => 5,
            SpreadingFactor::_6 => 6,
            SpreadingFactor::_7 => 7,
            SpreadingFactor::_8 => 8,
            SpreadingFactor::_9 => 9,
            SpreadingFactor::_10 => 10,
            SpreadingFactor::_11 => 11,
            SpreadingFactor::_12 => 12,
        }
    }

    #[verifier::when_used_as_spec(spec_value)]
    pub fn value(self) -> (v: u8)
        ensures
            v == self.spec_value(),
    {
        match self {
            SpreadingFactor::_5 => 5,
            SpreadingFactor::_6 => 6,
            SpreadingFactor::_7 => 7,
            SpreadingFactor::_8 => 8,
            SpreadingFactor::_9 => 9,
            SpreadingFactor::_10 => 10,
            SpreadingFactor::_11 => 11,
            SpreadingFactor::_12 => 12,
        }
    }
}

/// LoRa bandwidth. The fourth encoding slot of the legacy bandwidth field is
/// reserved and corresponds to no carrier bandwidth.
#[derive(Clone, Copy, PartialEq, Eq, Structural, Debug)]
pub enum Bandwidth {
    _125KHz,
    _250KHz,
    _500KHz,
    Reserved,
}

impl Bandwidth {
    /// Register encoding written in the modulation parameters.
    pub open spec fn spec_value(self) -> u8 {
        match self {
            Bandwidth::_125KHz => 0x04,
            Bandwidth::_250KHz => 0x05,
            Bandwidth::_500KHz => 0x06,
            Bandwidth::Reserved => 0x03,
        }
    }

    #[verifier::when_used_as_spec(spec_value)]
    pub fn value(self) -> (v: u8)
        ensures
            v == self.spec_value(),
    {
        match self {
            Bandwidth::_125KHz => 0x04,
            Bandwidth::_250KHz => 0x05,
            Bandwidth::_500KHz => 0x06,
            Bandwidth::Reserved => 0x03,
        }
    }

    pub open spec fn spec_value_in_hz(self) -> u32 {
        match self {
            Bandwidth::_125KHz => 125000,
            Bandwidth::_250KHz => 250000,
            Bandwidth::_500KHz => 500000,
            Bandwidth::Reserved => 0,
        }
    }

    #[verifier::when_used_as_spec(spec_value_in_hz)]
    pub fn value_in_hz(self) -> (v: u32)
        ensures
            v == self.spec_value_in_hz(),
    {
        match self {
            Bandwidth::_125KHz => 125000,
            Bandwidth::_250KHz => 250000,
            Bandwidth::_500KHz => 500000,
            Bandwidth::Reserved => 0,
        }
    }
}

/// LoRa coding rate, four-fifths through four-eighths.
#[derive(Clone, Copy, PartialEq, Eq, Structural, Debug)]
pub enum CodingRate {
    _4_5,
    _4_6,
    _4_7,
    _4_8,
}

impl CodingRate {
    pub open spec fn spec_value(self) -> u8 {
        match self {
            CodingRate::_4_5 => 0x01,
            CodingRate::_4_6 => 0x02,
            CodingRate::_4_7 => 0x03,
            CodingRate::_4_8 => 0x04,
        }
    }

    #[verifier::when_used_as_spec(spec_value)]
    pub fn value(self) -> (v: u8)
        ensures
            v == self.spec_value(),
    {
        match self {
            CodingRate::_4_5 => 0x01,
            CodingRate::_4_6 => 0x02,
            CodingRate::_4_7 => 0x03,
            CodingRate::_4_8 => 0x04,
        }
    }
}

/// One bit of the 16-bit IRQ mask, or the all/none aggregates.
#[derive(Clone, Copy, PartialEq, Eq, Structural, Debug)]
pub enum IrqMask {
    Nothing,
    TxDone,
    RxDone,
    PreambleDetected,
    SyncwordValid,
    HeaderValid,
    HeaderError,
    CRCError,
    CADDone,
    CADActivityDetected,
    RxTxTimeout,
    All,
}

impl IrqMask {
    pub open spec fn spec_value(self) -> u16 {
        match self {
            IrqMask::Nothing => 0x0000,
            IrqMask::TxDone => 0x0001,
            IrqMask::RxDone => 0x0002,
            IrqMask::PreambleDetected => 0x0004,
            IrqMask::SyncwordValid => 0x0008,
            IrqMask::HeaderValid => 0x0010,
            IrqMask::HeaderError => 0x0020,
            IrqMask::CRCError => 0x0040,
            IrqMask::CADDone => 0x0080,
            IrqMask::CADActivityDetected => 0x0100,
            IrqMask::RxTxTimeout => 0x0200,
            IrqMask::All => 0x03FF,
        }
    }

    #[verifier::when_used_as_spec(spec_value)]
    pub fn value(self) -> (v: u16)
        ensures
            v == self.spec_value(),
    {
        match self {
            IrqMask::Nothing => 0x0000,
            IrqMask::TxDone => 0x0001,
            IrqMask::RxDone => 0x0002,
            IrqMask::PreambleDetected => 0x0004,
            IrqMask::SyncwordValid => 0x0008,
            IrqMask::HeaderValid => 0x0010,
            IrqMask::HeaderError => 0x0020,
            IrqMask::CRCError => 0x0040,
            IrqMask::CADDone => 0x0080,
            IrqMask::CADActivityDetected => 0x0100,
            IrqMask::RxTxTimeout => 0x0200,
            IrqMask::All => 0x03FF,
        }
    }
}

/// Named chip registers reached through the register read/write opcodes.
#[derive(Clone, Copy, PartialEq, Eq, Structural, Debug)]
pub enum Register {
    LoRaSyncword,
    RandomNumberGen,
    RxGain,
    TxModulation,
    IQPolarity,
    RTCCtrl,
    EvtClr,
    RetentionList,
}

impl Register {
    pub open spec fn spec_addr(self) -> u16 {
        match self {
            Register::LoRaSyncword => 0x0740,
            Register::RandomNumberGen => 0x0819,
            Register::RxGain => 0x08AC,
            Register::TxModulation => 0x0889,
            Register::IQPolarity => 0x0736,
            Register::RTCCtrl => 0x0902,
            Register::EvtClr => 0x0944,
            Register::RetentionList => 0x029F,
        }
    }

    #[verifier::when_used_as_spec(spec_addr)]
    pub fn addr(self) -> (v: u16)
        ensures
            v == self.spec_addr(),
    {
        match self {
            Register::LoRaSyncword => 0x0740,
            Register::RandomNumberGen => 0x0819,
            Register::RxGain => 0x08AC,
            Register::TxModulation => 0x0889,
            Register::IQPolarity => 0x0736,
            Register::RTCCtrl => 0x0902,
            Register::EvtClr => 0x0944,
            Register::RetentionList => 0x029F,
        }
    }
}

/// Command opcodes shifted before each framed transaction.
#[derive(Clone, Copy, PartialEq, Eq, Structural, Debug)]
pub enum OpCode {
    SetSleep,
    SetStandby,
    SetRfFrequency,
    SetPacketType,
    SetPacketParams,
    SetModulationParams,
    SetTxParams,
    SetBufferBaseAddress,
    SetDioIrqParams,
    ClearIrqStatus,
    GetIrqStatus,
    SetTx,
    SetRx,
    SetCad,
    SetTxContinuousWave,
    SetRxDutyCycle,
    SetStopRxTimerOnPreambleDetect,
    SetLoRaSymbNumTimeout,
    SetRegulatorMode,
    WriteRegister,
    ReadRegister,
    WriteBuffer,
    ReadBuffer,
    GetPacketStatus,
    GetRxBufferStatus,
    GetRssiInst,
    GetStatus,
    GetDeviceErrors,
    CalibrateImage,
}

impl OpCode {
    pub open spec fn spec_value(self) -> u8 {
        match self {
            OpCode::SetSleep => 0x84,
            OpCode::SetStandby => 0x80,
            OpCode::SetRfFrequency => 0x86,
            OpCode::SetPacketType => 0x8A,
            OpCode::SetPacketParams => 0x8C,
            OpCode::SetModulationParams => 0x8B,
            OpCode::SetTxParams => 0x8E,
            OpCode::SetBufferBaseAddress => 0x8F,
            OpCode::SetDioIrqParams => 0x08,
            OpCode::ClearIrqStatus => 0x02,
            OpCode::GetIrqStatus => 0x12,
            OpCode::SetTx => 0x83,
            OpCode::SetRx => 0x82,
            OpCode::SetCad => 0xC5,
            OpCode::SetTxContinuousWave => 0xD1,
            OpCode::SetRxDutyCycle => 0x94,
            OpCode::SetStopRxTimerOnPreambleDetect => 0x9F,
            OpCode::SetLoRaSymbNumTimeout => 0xA0,
            OpCode::SetRegulatorMode => 0x96,
            OpCode::WriteRegister => 0x0D,
            OpCode::ReadRegister => 0x1D,
            OpCode::WriteBuffer => 0x0E,
            OpCode::ReadBuffer => 0x1E,
            OpCode::GetPacketStatus => 0x14,
            OpCode::GetRxBufferStatus => 0x13,
            OpCode::GetRssiInst => 0x15,
            OpCode::GetStatus => 0xC0,
            OpCode::GetDeviceErrors => 0x17,
            OpCode::CalibrateImage => 0x98,
        }
    }

    #[verifier::when_used_as_spec(spec_value)]
    pub fn value(self) -> (v: u8)
        ensures
            v == self.spec_value(),
    {
        match self {
            OpCode::SetSleep => 0x84,
            OpCode::SetStandby => 0x80,
            OpCode::SetRfFrequency => 0x86,
            OpCode::SetPacketType => 0x8A,
            OpCode::SetPacketParams => 0x8C,
            OpCode::SetModulationParams => 0x8B,
            OpCode::SetTxParams => 0x8E,
            OpCode::SetBufferBaseAddress => 0x8F,
            OpCode::SetDioIrqParams => 0x08,
            OpCode::ClearIrqStatus => 0x02,
            OpCode::GetIrqStatus => 0x12,
            OpCode::SetTx => 0x83,
            OpCode::SetRx => 0x82,
            OpCode::SetCad => 0xC5,
            OpCode::SetTxContinuousWave => 0xD1,
            OpCode::SetRxDutyCycle => 0x94,
            OpCode::SetStopRxTimerOnPreambleDetect => 0x9F,
            OpCode::SetLoRaSymbNumTimeout => 0xA0,
            OpCode::SetRegulatorMode => 0x96,
            OpCode::WriteRegister => 0x0D,
            OpCode::ReadRegister => 0x1D,
            OpCode::WriteBuffer => 0x0E,
            OpCode::ReadBuffer => 0x1E,
            OpCode::GetPacketStatus => 0x14,
            OpCode::GetRxBufferStatus => 0x13,
            OpCode::GetRssiInst => 0x15,
            OpCode::GetStatus => 0xC0,
            OpCode::GetDeviceErrors => 0x17,
            OpCode::CalibrateImage => 0x98,
        }
    }
}

/// Arguments of the sleep opcode.
#[derive(Clone, Copy, PartialEq, Eq, Structural, Debug)]
pub struct SleepParams {
    pub wakeup_rtc: bool,
    pub reset: bool,
    pub warm_start: bool,
}

impl SleepParams {
    pub open spec fn spec_value(self) -> u8 {
        (if self.warm_start {
            4u8
        } else {
            0u8
        }) | (if self.reset {
            2u8
        } else {
            0u8
        }) | (if self.wakeup_rtc {
            1u8
        } else {
            0u8
        })
    }

    #[verifier::when_used_as_spec(spec_value)]
    pub fn value(self) -> (v: u8)
        ensures
            v == self.spec_value(),
    {
        (if self.warm_start {
            4u8
        } else {
            0u8
        }) | (if self.reset {
            2u8
        } else {
            0u8
        }) | (if self.wakeup_rtc {
            1u8
        } else {
            0u8
        })
    }
}

/// Snapshot of the modulation parameters last written to the chip.
#[derive(Clone, Copy, PartialEq, Eq, Structural, Debug)]
pub struct ModulationParams {
    pub spreading_factor: SpreadingFactor,
    pub bandwidth: Bandwidth,
    pub coding_rate: CodingRate,
    pub low_data_rate_optimize: u8,
}

/// Snapshot of the packet parameters last written to the chip.
#[derive(Clone, Copy, PartialEq, Eq, Structural, Debug)]
pub struct PacketParams {
    pub preamble_length: u16,
    pub implicit_header: bool,
    pub payload_length: u8,
    pub crc_on: bool,
    pub iq_inverted: bool,
}

/// Status of the most recently received packet.
#[derive(Clone, Copy, PartialEq, Eq, Structural, Debug)]
pub struct PacketStatus {
    pub rssi: i16,
    pub snr: i16,
    pub signal_rssi: i16,
}

/// Decoded chip error register, read for diagnostics before each IRQ wait.
#[derive(Clone, Copy, PartialEq, Eq, Structural, Debug)]
pub struct DeviceErrors {
    pub rc_64khz_calibration: bool,
    pub rc_13mhz_calibration: bool,
    pub pll_calibration: bool,
    pub adc_calibration: bool,
    pub image_calibration: bool,
    pub xosc_start: bool,
    pub pll_lock: bool,
    pub pa_ramp: bool,
}

/// Decoded chip status byte.
#[derive(Clone, Copy, PartialEq, Eq, Structural, Debug)]
pub struct RadioSystemStatus {
    pub cmd_status: u8,
    pub chip_mode: u8,
}

/// Low-data-rate optimisation is required exactly when a symbol lasts longer
/// than sixteen milliseconds: spreading factor 11 or 12 at 125 kHz, or 12 at
/// 250 kHz.
pub open spec fn spec_low_data_rate_optimize(sf: SpreadingFactor, bw: Bandwidth) -> bool {
    ||| (sf is _11 || sf is _12) && bw is _125KHz
    ||| sf is _12 && bw is _250KHz
}

/// Chip flag byte for low-data-rate optimisation.
pub open spec fn spec_ldro_flag(sf: SpreadingFactor, bw: Bandwidth) -> u8 {
    if spec_low_data_rate_optimize(sf, bw) {
        0x01u8
    } else {
        0x00u8
    }
}

#[verifier::when_used_as_spec(spec_ldro_flag)]
pub fn ldro_flag(sf: SpreadingFactor, bw: Bandwidth) -> (v: u8)
    ensures
        v == spec_ldro_flag(sf, bw),
{
    if ((sf == SpreadingFactor::_11 || sf == SpreadingFactor::_12) && bw == Bandwidth::_125KHz)
        || (sf == SpreadingFactor::_12 && bw == Bandwidth::_250KHz) {
        0x01
    } else {
        0x00
    }
}

/// Spreading factors 5 and 6 need a preamble of at least twelve symbols.
pub open spec fn spec_clamped_preamble(sf: SpreadingFactor, preamble_length: u16) -> u16 {
    if (sf is _5 || sf is _6) && preamble_length < 12 {
        12u16
    } else {
        preamble_length
    }
}

#[verifier::when_used_as_spec(spec_clamped_preamble)]
pub fn clamped_preamble(sf: SpreadingFactor, preamble_length: u16) -> (v: u16)
    ensures
        v == spec_clamped_preamble(sf, preamble_length),
{
    if (sf == SpreadingFactor::_5 || sf == SpreadingFactor::_6) && preamble_length < 12 {
        12
    } else {
        preamble_length
    }
}

/// Modulation parameters derived from the user-facing settings.
pub open spec fn spec_derive_modulation_params(
    sf: SpreadingFactor,
    bw: Bandwidth,
    cr: CodingRate,
) -> ModulationParams {
    ModulationParams {
        spreading_factor: sf,
        bandwidth: bw,
        coding_rate: cr,
        low_data_rate_optimize: spec_ldro_flag(sf, bw),
    }
}

pub fn derive_modulation_params(sf: SpreadingFactor, bw: Bandwidth, cr: CodingRate) -> (mp:
    ModulationParams)
    ensures
        mp == spec_derive_modulation_params(sf, bw, cr),
{
    ModulationParams {
        spreading_factor: sf,
        bandwidth: bw,
        coding_rate: cr,
        low_data_rate_optimize: ldro_flag(sf, bw),
    }
}

/// Packet parameters derived from the user-facing settings; the payload
/// length recorded here is the driver's current maximum payload length.
pub open spec fn spec_derive_packet_params(
    sf: SpreadingFactor,
    preamble_length: u16,
    fixed_len: bool,
    payload_length: u8,
    crc_on: bool,
    iq_inverted: bool,
) -> PacketParams {
    PacketParams {
        preamble_length: spec_clamped_preamble(sf, preamble_length),
        implicit_header: fixed_len,
        payload_length: payload_length,
        crc_on: crc_on,
        iq_inverted: iq_inverted,
    }
}

pub fn derive_packet_params(
    sf: SpreadingFactor,
    preamble_length: u16,
    fixed_len: bool,
    payload_length: u8,
    crc_on: bool,
    iq_inverted: bool,
) -> (pp: PacketParams)
    ensures
        pp == spec_derive_packet_params(sf, preamble_length, fixed_len, payload_length, crc_on, iq_inverted),
{
    PacketParams {
        preamble_length: clamped_preamble(sf, preamble_length),
        implicit_header: fixed_len,
        payload_length: payload_length,
        crc_on: crc_on,
        iq_inverted: iq_inverted,
    }
}

/// With spreading factor 5 or 6, every derived packet-parameter snapshot
/// stores a preamble of at least twelve symbols.
pub proof fn lemma_short_sf_preamble_clamped(
    sf: SpreadingFactor,
    preamble_length: u16,
    fixed_len: bool,
    payload_length: u8,
    crc_on: bool,
    iq_inverted: bool,
)
    requires
        sf is _5 || sf is _6,
    ensures
        spec_derive_packet_params(
            sf,
            preamble_length,
            fixed_len,
            payload_length,
            crc_on,
            iq_inverted,
        ).preamble_length >= 12,
{
}

/// The derived low-data-rate-optimisation flag is set exactly for spreading
/// factor 11 or 12 at 125 kHz and spreading factor 12 at 250 kHz.
pub proof fn lemma_low_data_rate_optimize_iff(sf: SpreadingFactor, bw: Bandwidth, cr: CodingRate)
    ensures
        spec_derive_modulation_params(sf, bw, cr).low_data_rate_optimize == 0x01u8 <==> (
        ((sf is _11 || sf is _12) && bw is _125KHz) || (sf is _12 && bw is _250KHz)),
{
}

} // verus!
