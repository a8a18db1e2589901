use crate::common::{effective_address, spec_effective_address, Channel, WaveshareModbus};
use crate::link::{
    spec_first_word, take_first_word, take_words, Exchange, Reply, RequestView, Response,
    ThreadSafeContext,
};
use vstd::prelude::*;

verus! {

/// Why an operation on an analog input module failed.
#[derive(Debug)]
pub enum AnalogInputError {
    /// The device rejected the request and said why.
    ModbusException(tokio_modbus::ExceptionCode),
    /// The link failed before a response was understood.
    ModbusError(tokio_modbus::Error),
    /// A register held a code that stands for no control mode.
    InvalidControlMode,
    /// The response does not carry what the request asked for.
    UnexpectedResponse,
}

/// The blocks of input registers of an analog input module.
#[derive(Debug, Copy, Clone, PartialEq, Eq)]
pub enum InputRegisterBases {
    InputChannels,
}

impl InputRegisterBases {
    pub open spec fn spec_address(self) -> u16 {
        match self {
            InputRegisterBases::InputChannels => 0x0000,
        }
    }

    /// The address of the block's first register.
    #[verifier::when_used_as_spec(spec_address)]
    pub fn address(self) -> (addr: u16)
        ensures
            addr == self.spec_address(),
    {
        match self {
            InputRegisterBases::InputChannels => 0x0000,
        }
    }
}

/// The blocks of holding registers of an analog input module.
#[derive(Debug, Copy, Clone, PartialEq, Eq)]
pub enum HoldingRegisterBases {
    AnalogMode,
}

impl HoldingRegisterBases {
    pub open spec fn spec_address(self) -> u16 {
        match self {
            HoldingRegisterBases::AnalogMode => 0x1000,
        }
    }

    /// The address of the block's first register.
    #[verifier::when_used_as_spec(spec_address)]
    pub fn address(self) -> (addr: u16)
        ensures
            addr == self.spec_address(),
    {
        match self {
            HoldingRegisterBases::AnalogMode => 0x1000,
        }
    }
}

/// The range in which a channel measures.
#[derive(Debug, Copy, Clone, PartialEq, Eq)]
pub enum ControlMode {
    /// 0 to 10 V, read as 0 to 5000 mV.
    V0V10,
    /// 2 to 10 V, read as 1000 to 5000 mV.
    V2V10,
    /// 0 to 20 mA, read as 0 to 20000 uA.
    C0C20,
    /// 4 to 20 mA, read as 4000 to 20000 uA.
    C4C20,
    /// The converter's code as it is, 0 to 4096.
    RAW,
}

impl ControlMode {
    pub open spec fn spec_code(self) -> u16 {
        match self {
            ControlMode::V0V10 => 0x0000,
            ControlMode::V2V10 => 0x0001,
            ControlMode::C0C20 => 0x0002,
            ControlMode::C4C20 => 0x0003,
            ControlMode::RAW => 0x0004,
        }
    }

    /// The mode that `value` stands for, or the error for a code that stands
    /// for none.
    pub open spec fn spec_from_u16(value: u16) -> Result<ControlMode, AnalogInputError> {
        match value {
            0x0000 => Ok(ControlMode::V0V10),
            0x0001 => Ok(ControlMode::V2V10),
            0x0002 => Ok(ControlMode::C0C20),
            0x0003 => Ok(ControlMode::C4C20),
            0x0004 => Ok(ControlMode::RAW),
            _ => Err(AnalogInputError::InvalidControlMode),
        }
    }

    /// The code that the module knows this mode by.
    #[verifier::when_used_as_spec(spec_code)]
    pub fn code(self) -> (code: u16)
        ensures
            code == self.spec_code(),
            code <= 0x0004,
    {
        match self {
            ControlMode::V0V10 => 0x0000,
            ControlMode::V2V10 => 0x0001,
            ControlMode::C0C20 => 0x0002,
            ControlMode::C4C20 => 0x0003,
            ControlMode::RAW => 0x0004,
        }
    }

    /// Reads a mode back from its code. A code above 4 stands for no mode
    /// and is refused.
    pub fn from_u16(value: u16) -> (r: Result<ControlMode, AnalogInputError>)
        ensures
            r == Self::spec_from_u16(value),
            r is Ok <==> value <= 0x0004,
            r matches Ok(mode) ==> mode.spec_code() == value,
            r matches Err(error) ==> error is InvalidControlMode,
    {
        match value {
            0x0000 => Ok(ControlMode::V0V10),
            0x0001 => Ok(ControlMode::V2V10),
            0x0002 => Ok(ControlMode::C0C20),
            0x0003 => Ok(ControlMode::C4C20),
            0x0004 => Ok(ControlMode::RAW),
            _ => Err(AnalogInputError::InvalidControlMode),
        }
    }
}

/// Every mode is read back from its own code, a code reads back as a mode
/// only if it is that mode's code, and a code above 4 is refused as an
/// invalid control mode.
pub proof fn lemma_control_mode_round_trip(mode: ControlMode, value: u16)
    ensures
        ControlMode::spec_from_u16(mode.spec_code()) == Ok::<_, AnalogInputError>(mode),
        ControlMode::spec_from_u16(value) == Ok::<_, AnalogInputError>(mode) <==> value
            == mode.spec_code(),
        value > 0x0004 <==> ControlMode::spec_from_u16(value) == Err::<ControlMode, _>(
            AnalogInputError::InvalidControlMode,
        ),
{
}

/// The registers of every channel lie at their block's base plus the
/// channel's number.
pub proof fn lemma_channel_addresses(channel: Channel)
    ensures
        spec_effective_address(InputRegisterBases::InputChannels.spec_address(), channel)
            == 0x0000 + channel.spec_index(),
        spec_effective_address(HoldingRegisterBases::AnalogMode.spec_address(), channel) == 0x1000
            + channel.spec_index(),
{
}

/// One analog input module on a shared link.
#[derive(Debug)]
pub struct AnalogInput {
    pub unit_id: u8,
}

impl AnalogInput {
    /// The request that reads the measured value of `channel`.
    pub open spec fn spec_input_channel_request(channel: Channel) -> RequestView {
        RequestView::ReadInputRegisters(
            spec_effective_address(InputRegisterBases::InputChannels.spec_address(), channel),
            1,
        )
    }

    /// The request that reads the measured values of all eight channels.
    pub open spec fn spec_input_channels_request() -> RequestView {
        RequestView::ReadInputRegisters(InputRegisterBases::InputChannels.spec_address(), 8)
    }

    /// The request that sets the range in which `channel` measures.
    pub open spec fn spec_write_control_mode_request(
        control_mode: ControlMode,
        channel: Channel,
    ) -> RequestView {
        RequestView::WriteSingleRegister(
            spec_effective_address(HoldingRegisterBases::AnalogMode.spec_address(), channel),
            control_mode.spec_code(),
        )
    }

    /// The request that reads the range in which `channel` measures.
    pub open spec fn spec_read_control_mode_request(channel: Channel) -> RequestView {
        RequestView::ReadHoldingRegisters(
            spec_effective_address(HoldingRegisterBases::AnalogMode.spec_address(), channel),
            1,
        )
    }

    /// The module with the slave address `unit_id`.
    pub fn new(unit_id: u8) -> (device: Self)
        ensures
            device.unit_id == unit_id,
    {
        AnalogInput { unit_id }
    }

    /// Stages the read of the measured value of `channel`.
    pub fn read_input_channel_status(
        &self,
        link: &mut ThreadSafeContext,
        channel: Channel,
    ) -> (unit: Exchange)
        ensures
            unit.slave == self.unit_id,
            unit.request@ == Self::spec_input_channel_request(channel),
            final(link).follows(old(link), unit.slave, unit.request@),
    {
        let addr = effective_address(InputRegisterBases::InputChannels.address(), channel);
        link.read_input_registers(self.unit_id, addr, 1)
    }

    /// The measured value of a channel, from the reply to the read of it:
    /// the first word of the reply, and the reply's error if it carries
    /// none.
    pub fn decode_input_channel_status(reply: Reply) -> (r: Result<u16, AnalogInputError>)
        ensures
            r == match spec_first_word(reply) {
                Some(word) => Ok::<u16, AnalogInputError>(word),
                None => Err(Self::spec_refusal(reply)),
            },
    {
        match take_first_word(reply) {
            Ok(word) => Ok(word),
            Err(other) => Err(Self::refusal(other)),
        }
    }

    /// Stages the one read that covers the measured values of all eight
    /// channels.
    pub fn read_input_channels(&self, link: &mut ThreadSafeContext) -> (unit: Exchange)
        ensures
            unit.slave == self.unit_id,
            unit.request@ == Self::spec_input_channels_request(),
            final(link).follows(old(link), unit.slave, unit.request@),
    {
        link.read_input_registers(self.unit_id, InputRegisterBases::InputChannels.address(), 8)
    }

    /// The measured values of all channels, from the reply to the read of
    /// them: the words of the reply as they came, channel 0 first, and the
    /// reply's error if it carries no words.
    pub fn decode_input_channels(reply: Reply) -> (r: Result<Vec<u16>, AnalogInputError>)
        ensures
            r == match reply {
                Ok(Ok(Response::Words(words))) => Ok::<Vec<u16>, AnalogInputError>(words),
                _ => Err(Self::spec_refusal(reply)),
            },
    {
        match take_words(reply) {
            Ok(words) => Ok(words),
            Err(other) => Err(Self::refusal(other)),
        }
    }

    /// Stages the write that sets the range in which `channel` measures.
    pub fn write_control_mode(
        &self,
        link: &mut ThreadSafeContext,
        control_mode: ControlMode,
        channel: Channel,
    ) -> (unit: Exchange)
        ensures
            unit.slave == self.unit_id,
            unit.request@ == Self::spec_write_control_mode_request(control_mode, channel),
            final(link).follows(old(link), unit.slave, unit.request@),
    {
        let addr = effective_address(HoldingRegisterBases::AnalogMode.address(), channel);
        link.write_single_register(self.unit_id, addr, control_mode.code())
    }

    /// Stages the read of the range in which `channel` measures.
    pub fn read_control_mode(
        &self,
        link: &mut ThreadSafeContext,
        channel: Channel,
    ) -> (unit: Exchange)
        ensures
            unit.slave == self.unit_id,
            unit.request@ == Self::spec_read_control_mode_request(channel),
            final(link).follows(old(link), unit.slave, unit.request@),
    {
        let addr = effective_address(HoldingRegisterBases::AnalogMode.address(), channel);
        link.read_holding_registers(self.unit_id, addr, 1)
    }

    /// The range of a channel, from the reply to the read of it: the mode
    /// that the first word of the reply stands for. A word that stands for
    /// no mode is an invalid control mode; a reply without a word gives the
    /// reply's error.
    pub fn decode_control_mode(reply: Reply) -> (r: Result<ControlMode, AnalogInputError>)
        ensures
            r == match spec_first_word(reply) {
                Some(word) => ControlMode::spec_from_u16(word),
                None => Err(Self::spec_refusal(reply)),
            },
    {
        match take_first_word(reply) {
            Ok(word) => ControlMode::from_u16(word),
            Err(other) => Err(Self::refusal(other)),
        }
    }
}

impl WaveshareModbus for AnalogInput {
    type Error = AnalogInputError;

    open spec fn spec_unit_id(&self) -> u8 {
        self.unit_id
    }

    /// The link's failure, the device's exception, or else the fact that
    /// the payload is not of the kind that was asked for.
    open spec fn spec_refusal(reply: Reply) -> AnalogInputError {
        match reply {
            Err(error) => AnalogInputError::ModbusError(error),
            Ok(Err(code)) => AnalogInputError::ModbusException(code),
            Ok(Ok(_)) => AnalogInputError::UnexpectedResponse,
        }
    }

    fn unit_id(&self) -> (unit_id: u8) {
        self.unit_id
    }

    fn refusal(reply: Reply) -> (error: AnalogInputError) {
        match reply {
            Err(error) => AnalogInputError::ModbusError(error),
            Ok(Err(code)) => AnalogInputError::ModbusException(code),
            Ok(Ok(_)) => AnalogInputError::UnexpectedResponse,
        }
    }
}

} // verus!
