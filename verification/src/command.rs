//! The framed-transaction protocol of the chip's command interface.
//!
//! Every chip interaction is one framed transaction: wait for BUSY to
//! deassert, drive chip select low, shift the opcode and its bytes (and for
//! reads shift the response in), drive chip select high, and wait for BUSY
//! again. A transaction that fails part-way is not retried; the failure
//! propagates and the chip's state is considered undefined.

use vstd::prelude::*;
use crate::interface::BusEvent;
use crate::interface::InterfaceVariant;
use crate::mod_params::OpCode;
use crate::mod_params::RadioError;
use crate::mod_params::Register;
use crate::mod_params::is_interface_error;

verus! {

/// Bus events of one framed write of `bytes`.
pub open spec fn write_frame_trace(bytes: Seq<u8>) -> Seq<BusEvent> {
    seq![
        BusEvent::BusyWait,
        BusEvent::NssLow,
        BusEvent::Write(bytes),
        BusEvent::NssHigh,
        BusEvent::BusyWait,
    ]
}

/// Bus events of one framed read: the written `header` followed by the
/// `response` shifted back in.
pub open spec fn read_frame_trace(header: Seq<u8>, response: Seq<u8>) -> Seq<BusEvent> {
    seq![
        BusEvent::BusyWait,
        BusEvent::NssLow,
        BusEvent::Write(header),
        BusEvent::Read(response),
        BusEvent::NssHigh,
        BusEvent::BusyWait,
    ]
}

/// Bytes of a command frame: the opcode, then its parameters.
pub open spec fn command_frame(op: OpCode, params: Seq<u8>) -> Seq<u8> {
    seq![op.spec_value()] + params
}

/// Bytes of a register-write frame.
pub open spec fn register_write_frame(reg: Register, data: Seq<u8>) -> Seq<u8> {
    seq![
        OpCode::WriteRegister.spec_value(),
        (reg.spec_addr() >> 8) as u8,
        (reg.spec_addr() & 0xFF) as u8,
    ] + data
}

/// Header bytes of a register-read frame.
pub open spec fn register_read_header(reg: Register) -> Seq<u8> {
    seq![
        OpCode::ReadRegister.spec_value(),
        (reg.spec_addr() >> 8) as u8,
        (reg.spec_addr() & 0xFF) as u8,
    ]
}

/// Bytes of a data-buffer-write frame.
pub open spec fn buffer_write_frame(offset: u8, data: Seq<u8>) -> Seq<u8> {
    seq![OpCode::WriteBuffer.spec_value(), offset] + data
}

/// Header bytes of a data-buffer-read frame.
pub open spec fn buffer_read_header(offset: u8) -> Seq<u8> {
    seq![OpCode::ReadBuffer.spec_value(), offset]
}

/// Performs one framed write of `bytes`.
pub fn write_frame<IV: InterfaceVariant>(iv: &mut IV, bytes: &[u8]) -> (r: Result<(), RadioError>)
    ensures
        r is Ok ==> final(iv).events() == old(iv).events() + write_frame_trace(bytes@),
        r matches Err(e) ==> is_interface_error(e),
        final(iv).irq_credit() == old(iv).irq_credit(),
{
    iv.wait_on_busy()?;
    iv.set_nss_low()?;
    iv.spi_write(bytes)?;
    iv.set_nss_high()?;
    iv.wait_on_busy()?;
    proof {
        assert(iv.events() =~= old(iv).events() + write_frame_trace(bytes@));
    }
    Ok(())
}

/// Performs one framed read: writes `header`, then shifts `n` bytes in.
pub fn read_frame<IV: InterfaceVariant>(iv: &mut IV, header: &[u8], n: usize) -> (r: Result<
    Vec<u8>,
    RadioError,
>)
    ensures
        r matches Ok(v) ==> v@.len() == n && final(iv).events() == old(iv).events()
            + read_frame_trace(header@, v@),
        r matches Err(e) ==> is_interface_error(e),
        final(iv).irq_credit() == old(iv).irq_credit(),
{
    iv.wait_on_busy()?;
    iv.set_nss_low()?;
    iv.spi_write(header)?;
    let response = iv.spi_read(n)?;
    iv.set_nss_high()?;
    iv.wait_on_busy()?;
    proof {
        assert(iv.events() =~= old(iv).events() + read_frame_trace(header@, response@));
    }
    Ok(response)
}

/// Issues a command opcode with its parameter bytes.
pub fn write_command<IV: InterfaceVariant>(iv: &mut IV, op: OpCode, params: &[u8]) -> (r: Result<
    (),
    RadioError,
>)
    ensures
        r is Ok ==> final(iv).events() == old(iv).events() + write_frame_trace(
            command_frame(op, params@),
        ),
        r matches Err(e) ==> is_interface_error(e),
        final(iv).irq_credit() == old(iv).irq_credit(),
{
    let mut frame: Vec<u8> = Vec::new();
    frame.push(op.value());
    frame.extend_from_slice(params);
    proof {
        assert(frame@ =~= command_frame(op, params@));
    }
    write_frame(iv, frame.as_slice())
}

/// One command read's transactions: the opcode written, and `resp` shifted
/// back in.
pub open spec fn spec_command_read_with(
    pre: Seq<BusEvent>,
    post: Seq<BusEvent>,
    op: OpCode,
    resp: Seq<u8>,
) -> bool {
    post == pre + read_frame_trace(seq![op.spec_value()], resp)
}

/// Issues a command opcode and reads its `n`-byte answer; the first byte of
/// the answer is the chip's status byte.
pub fn read_command<IV: InterfaceVariant>(iv: &mut IV, op: OpCode, n: usize) -> (r: Result<
    Vec<u8>,
    RadioError,
>)
    ensures
        r matches Ok(v) ==> v@.len() == n && final(iv).events() == old(iv).events()
            + read_frame_trace(seq![op.spec_value()], v@),
        r matches Err(e) ==> is_interface_error(e),
        final(iv).irq_credit() == old(iv).irq_credit(),
{
    let mut header: Vec<u8> = Vec::new();
    header.push(op.value());
    read_frame(iv, header.as_slice(), n)
}

/// Writes `data` to consecutive registers starting at `reg`.
pub fn write_registers<IV: InterfaceVariant>(iv: &mut IV, reg: Register, data: &[u8]) -> (r: Result<
    (),
    RadioError,
>)
    ensures
        r is Ok ==> final(iv).events() == old(iv).events() + write_frame_trace(
            register_write_frame(reg, data@),
        ),
        r matches Err(e) ==> is_interface_error(e),
        final(iv).irq_credit() == old(iv).irq_credit(),
{
    let addr: u16 = reg.addr();
    let mut frame: Vec<u8> = Vec::new();
    frame.push(OpCode::WriteRegister.value());
    frame.push((addr >> 8) as u8);
    frame.push((addr & 0xFF) as u8);
    frame.extend_from_slice(data);
    proof {
        assert(frame@ =~= register_write_frame(reg, data@));
    }
    write_frame(iv, frame.as_slice())
}

/// Reads `n` consecutive registers starting at `reg`. The answer holds the
/// chip's status byte and then the `n` register values.
pub fn read_registers<IV: InterfaceVariant>(iv: &mut IV, reg: Register, n: usize) -> (r: Result<
    Vec<u8>,
    RadioError,
>)
    requires
        n < usize::MAX,
    ensures
        r matches Ok(v) ==> v@.len() == n + 1 && final(iv).events() == old(iv).events()
            + read_frame_trace(register_read_header(reg), v@),
        r matches Err(e) ==> is_interface_error(e),
        final(iv).irq_credit() == old(iv).irq_credit(),
{
    let addr: u16 = reg.addr();
    let mut header: Vec<u8> = Vec::new();
    header.push(OpCode::ReadRegister.value());
    header.push((addr >> 8) as u8);
    header.push((addr & 0xFF) as u8);
    proof {
        assert(header@ =~= register_read_header(reg));
    }
    read_frame(iv, header.as_slice(), n + 1)
}

/// Writes `data` to the chip's data buffer at `offset`.
pub fn write_buffer<IV: InterfaceVariant>(iv: &mut IV, offset: u8, data: &[u8]) -> (r: Result<
    (),
    RadioError,
>)
    ensures
        r is Ok ==> final(iv).events() == old(iv).events() + write_frame_trace(
            buffer_write_frame(offset, data@),
        ),
        r matches Err(e) ==> is_interface_error(e),
        final(iv).irq_credit() == old(iv).irq_credit(),
{
    let mut frame: Vec<u8> = Vec::new();
    frame.push(OpCode::WriteBuffer.value());
    frame.push(offset);
    frame.extend_from_slice(data);
    proof {
        assert(frame@ =~= buffer_write_frame(offset, data@));
    }
    write_frame(iv, frame.as_slice())
}

/// Reads `n` bytes of the chip's data buffer at `offset`. The answer holds
/// the chip's status byte and then the `n` buffer bytes.
pub fn read_buffer<IV: InterfaceVariant>(iv: &mut IV, offset: u8, n: usize) -> (r: Result<
    Vec<u8>,
    RadioError,
>)
    requires
        n < usize::MAX,
    ensures
        r matches Ok(v) ==> v@.len() == n + 1 && final(iv).events() == old(iv).events()
            + read_frame_trace(buffer_read_header(offset), v@),
        r matches Err(e) ==> is_interface_error(e),
        final(iv).irq_credit() == old(iv).irq_credit(),
{
    let mut header: Vec<u8> = Vec::new();
    header.push(OpCode::ReadBuffer.value());
    header.push(offset);
    proof {
        assert(header@ =~= buffer_read_header(offset));
    }
    read_frame(iv, header.as_slice(), n + 1)
}

/// Copies a slice without its first byte — the chip's status byte — into
/// an owned buffer.
pub fn slice_tail_to_vec(data: &[u8]) -> (r: Vec<u8>)
    requires
        data@.len() >= 1,
    ensures
        r@ == data@.skip(1),
{
    let sub = vstd::slice::slice_subrange(data, 1, data.len());
    let mut out: Vec<u8> = Vec::new();
    out.extend_from_slice(sub);
    proof {
        assert(out@ =~= data@.skip(1));
    }
    out
}

} // verus!
