use crate::common::{effective_address, spec_effective_address, Channel, WaveshareModbus};
use crate::link::{
    spec_first_word, take_first_word, Exchange, Reply, RequestView, ThreadSafeContext,
};
use vstd::prelude::*;

verus! {

/// Why an operation on an analog output module failed.
#[derive(Debug)]
pub enum AnalogOutputError {
    /// The device rejected the request and said why.
    ModbusException(tokio_modbus::ExceptionCode),
    /// The link failed before a response was understood.
    ModbusError(tokio_modbus::Error),
    /// A code was given that stands for no control mode.
    InvalidControlMode,
    /// The response does not carry what the request asked for.
    UnexpectedResponse,
}

/// The blocks of holding registers of an analog output module.
#[derive(Debug, Copy, Clone, PartialEq, Eq)]
pub enum HoldingRegisterBases {
    AnalogValue,
}

impl HoldingRegisterBases {
    pub open spec fn spec_address(self) -> u16 {
        match self {
            HoldingRegisterBases::AnalogValue => 0x0000,
        }
    }

    /// The address of the block's first register.
    #[verifier::when_used_as_spec(spec_address)]
    pub fn address(self) -> (addr: u16)
        ensures
            addr == self.spec_address(),
    {
        match self {
            HoldingRegisterBases::AnalogValue => 0x0000,
        }
    }
}

/// The range in which a channel puts out. The module takes it from its
/// jumpers; none of its registers holds it.
#[derive(Debug, Copy, Clone, PartialEq, Eq)]
pub enum ControlMode {
    /// 0 to 10 V, set as 0 to 5000 mV.
    V0V10,
    /// 2 to 10 V, set as 1000 to 5000 mV.
    V2V10,
    /// 0 to 20 mA, set as 0 to 20000 uA.
    C0C20,
    /// 4 to 20 mA, set as 4000 to 20000 uA.
    C4C20,
    /// The converter's code as it is, 0 to 4096.
    RAW,
}

impl ControlMode {
    pub open spec fn spec_code(self) -> u16 {
        match self {
            ControlMode::V0V10 => 0x0000,
            ControlMode::V2V10 => 0x0001,
            ControlMode::C0C20 => 0x0002,
            ControlMode::C4C20 => 0x0003,
            ControlMode::RAW => 0x0004,
        }
    }

    /// The mode that `value` stands for, or the error for a code that stands
    /// for none.
    pub open spec fn spec_from_u16(value: u16) -> Result<ControlMode, AnalogOutputError> {
        match value {
            0x0000 => Ok(ControlMode::V0V10),
            0x0001 => Ok(ControlMode::V2V10),
            0x0002 => Ok(ControlMode::C0C20),
            0x0003 => Ok(ControlMode::C4C20),
            0x0004 => Ok(ControlMode::RAW),
            _ => Err(AnalogOutputError::InvalidControlMode),
        }
    }

    /// The code that stands for this mode.
    #[verifier::when_used_as_spec(spec_code)]
    pub fn code(self) -> (code: u16)
        ensures
            code == self.spec_code(),
            code <= 0x0004,
    {
        match self {
            ControlMode::V0V10 => 0x0000,
            ControlMode::V2V10 => 0x0001,
            ControlMode::C0C20 => 0x0002,
            ControlMode::C4C20 => 0x0003,
            ControlMode::RAW => 0x0004,
        }
    }

    /// Reads a mode back from its code. A code above 4 stands for no mode
    /// and is refused.
    pub fn from_u16(value: u16) -> (r: Result<ControlMode, AnalogOutputError>)
        ensures
            r == Self::spec_from_u16(value),
            r is Ok <==> value <= 0x0004,
            r matches Ok(mode) ==> mode.spec_code() == value,
            r matches Err(error) ==> error is InvalidControlMode,
    {
        match value {
            0x0000 => Ok(ControlMode::V0V10),
            0x0001 => Ok(ControlMode::V2V10),
            0x0002 => Ok(ControlMode::C0C20),
            0x0003 => Ok(ControlMode::C4C20),
            0x0004 => Ok(ControlMode::RAW),
            _ => Err(AnalogOutputError::InvalidControlMode),
        }
    }
}

/// Every mode is read back from its own code, a code reads back as a mode
/// only if it is that mode's code, and a code above 4 is refused as an
/// invalid control mode.
pub proof fn lemma_control_mode_round_trip(mode: ControlMode, value: u16)
    ensures
        ControlMode::spec_from_u16(mode.spec_code()) == Ok::<_, AnalogOutputError>(mode),
        ControlMode::spec_from_u16(value) == Ok::<_, AnalogOutputError>(mode) <==> value
            == mode.spec_code(),
        value > 0x0004 <==> ControlMode::spec_from_u16(value) == Err::<ControlMode, _>(
            AnalogOutputError::InvalidControlMode,
        ),
{
}

/// The register of every channel lies at its block's base plus the
/// channel's number.
pub proof fn lemma_channel_addresses(channel: Channel)
    ensures
        spec_effective_address(HoldingRegisterBases::AnalogValue.spec_address(), channel)
            == 0x0000 + channel.spec_index(),
{
}

/// One analog output module on a shared link.
#[derive(Debug)]
pub struct AnalogOutput {
    pub unit_id: u8,
}

impl AnalogOutput {
    /// The request that reads the value that `channel` puts out.
    pub open spec fn spec_read_output_channel_request(channel: Channel) -> RequestView {
        RequestView::ReadHoldingRegisters(
            spec_effective_address(HoldingRegisterBases::AnalogValue.spec_address(), channel),
            1,
        )
    }

    /// The request that sets the value that `channel` puts out.
    pub open spec fn spec_write_output_channel_request(
        channel: Channel,
        value: u16,
    ) -> RequestView {
        RequestView::WriteSingleRegister(
            spec_effective_address(HoldingRegisterBases::AnalogValue.spec_address(), channel),
            value,
        )
    }

    /// The module with the slave address `unit_id`.
    pub fn new(unit_id: u8) -> (device: Self)
        ensures
            device.unit_id == unit_id,
    {
        AnalogOutput { unit_id }
    }

    /// Stages the read of the value that `channel` puts out.
    pub fn read_output_channel_value(
        &self,
        link: &mut ThreadSafeContext,
        channel: Channel,
    ) -> (unit: Exchange)
        ensures
            unit.slave == self.unit_id,
            unit.request@ == Self::spec_read_output_channel_request(channel),
            final(link).follows(old(link), unit.slave, unit.request@),
    {
        let addr = effective_address(HoldingRegisterBases::AnalogValue.address(), channel);
        link.read_holding_registers(self.unit_id, addr, 1)
    }

    /// The value that a channel puts out, from the reply to the read of it:
    /// the first word of the reply, and the reply's error if it carries
    /// none.
    pub fn decode_output_channel_value(reply: Reply) -> (r: Result<u16, AnalogOutputError>)
        ensures
            r == match spec_first_word(reply) {
                Some(word) => Ok::<u16, AnalogOutputError>(word),
                None => Err(Self::spec_refusal(reply)),
            },
    {
        match take_first_word(reply) {
            Ok(word) => Ok(word),
            Err(other) => Err(Self::refusal(other)),
        }
    }

    /// Stages the write that sets the value that `channel` puts out.
    pub fn write_output_channel_value(
        &self,
        link: &mut ThreadSafeContext,
        channel: Channel,
        value: u16,
    ) -> (unit: Exchange)
        ensures
            unit.slave == self.unit_id,
            unit.request@ == Self::spec_write_output_channel_request(channel, value),
            final(link).follows(old(link), unit.slave, unit.request@),
    {
        let addr = effective_address(HoldingRegisterBases::AnalogValue.address(), channel);
        link.write_single_register(self.unit_id, addr, value)
    }
}

impl WaveshareModbus for AnalogOutput {
    type Error = AnalogOutputError;

    open spec fn spec_unit_id(&self) -> u8 {
        self.unit_id
    }

    /// The link's failure, the device's exception, or else the fact that
    /// the payload is not of the kind that was asked for.
    open spec fn spec_refusal(reply: Reply) -> AnalogOutputError {
        match reply {
            Err(error) => AnalogOutputError::ModbusError(error),
            Ok(Err(code)) => AnalogOutputError::ModbusException(code),
            Ok(Ok(_)) => AnalogOutputError::UnexpectedResponse,
        }
    }

    fn unit_id(&self) -> (unit_id: u8) {
        self.unit_id
    }

    fn refusal(reply: Reply) -> (error: AnalogOutputError) {
        match reply {
            Err(error) => AnalogOutputError::ModbusError(error),
            Ok(Err(code)) => AnalogOutputError::ModbusException(code),
            Ok(Ok(_)) => AnalogOutputError::UnexpectedResponse,
        }
    }
}

} // verus!
