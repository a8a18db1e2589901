use crate::common::{effective_address, spec_effective_address, Channel, WaveshareModbus};
use crate::link::{
    spec_first_bit, spec_first_word, take_bits, take_first_bit, take_first_word, Exchange, Reply,
    RequestView, Response, ThreadSafeContext,
};
use vstd::prelude::*;
use vstd::std_specs::convert::FromSpec;
use vstd::std_specs::convert::IntoSpec;

verus! {

/// Why an operation on a digital module failed.
#[derive(Debug)]
pub enum DigitalIOError {
    /// The device rejected the request and said why.
    ModbusException(tokio_modbus::ExceptionCode),
    /// The link failed before a response was understood.
    ModbusError(tokio_modbus::Error),
    /// A register held a code that stands for no control mode.
    InvalidControlMode,
    /// The response does not carry what the request asked for.
    UnexpectedResponse,
}

/// The states of the eight channels of one bank; `ch0` is bit 0 of the
/// bank's byte.
#[derive(Debug, Copy, Clone, PartialEq, Eq)]
pub struct IoBank {
    pub ch0: bool,
    pub ch1: bool,
    pub ch2: bool,
    pub ch3: bool,
    pub ch4: bool,
    pub ch5: bool,
    pub ch6: bool,
    pub ch7: bool,
}

impl IoBank {
    /// The states in channel order.
    pub open spec fn channels(self) -> Seq<bool> {
        seq![self.ch0, self.ch1, self.ch2, self.ch3, self.ch4, self.ch5, self.ch6, self.ch7]
    }

    /// The actions that bring the bank's states about, in channel order.
    pub open spec fn actions(self) -> Seq<Action> {
        self.channels().map_values(|on: bool| Action::spec_from_coil(on))
    }

    /// The bank's byte: channel `i` that is on counts 2 to the power `i`.
    pub open spec fn byte(self) -> u8 {
        ((if self.ch0 { 1int } else { 0 }) + (if self.ch1 { 2int } else { 0 })
            + (if self.ch2 { 4int } else { 0 }) + (if self.ch3 { 8int } else { 0 })
            + (if self.ch4 { 16int } else { 0 }) + (if self.ch5 { 32int } else { 0 })
            + (if self.ch6 { 64int } else { 0 }) + (if self.ch7 { 128int } else { 0 })) as u8
    }

    /// The bank in which channel `i` is on exactly if bit `i` of `data` is
    /// set.
    pub open spec fn of_byte(data: u8) -> IoBank {
        IoBank {
            ch0: data % 2 == 1,
            ch1: (data / 2) % 2 == 1,
            ch2: (data / 4) % 2 == 1,
            ch3: (data / 8) % 2 == 1,
            ch4: (data / 16) % 2 == 1,
            ch5: (data / 32) % 2 == 1,
            ch6: (data / 64) % 2 == 1,
            ch7: (data / 128) % 2 == 1,
        }
    }

    /// The bank as the actions that would bring its states about.
    pub fn as_action_array(&self) -> (actions: [Action; 8])
        ensures
            actions@ == self.actions(),
    {
        [
            if self.ch0 { Action::On } else { Action::Off },
            if self.ch1 { Action::On } else { Action::Off },
            if self.ch2 { Action::On } else { Action::Off },
            if self.ch3 { Action::On } else { Action::Off },
            if self.ch4 { Action::On } else { Action::Off },
            if self.ch5 { Action::On } else { Action::Off },
            if self.ch6 { Action::On } else { Action::Off },
            if self.ch7 { Action::On } else { Action::Off },
        ]
    }
}

impl From<u8> for IoBank {
    /// Reads a bank from its byte.
    fn from(data: u8) -> (bank: Self) {
        assert((data & 0x01 > 0) == (data % 2 == 1)) by (bit_vector);
        assert((data & 0x02 > 0) == ((data / 2) % 2 == 1)) by (bit_vector);
        assert((data & 0x04 > 0) == ((data / 4) % 2 == 1)) by (bit_vector);
        assert((data & 0x08 > 0) == ((data / 8) % 2 == 1)) by (bit_vector);
        assert((data & 0x10 > 0) == ((data / 16) % 2 == 1)) by (bit_vector);
        assert((data & 0x20 > 0) == ((data / 32) % 2 == 1)) by (bit_vector);
        assert((data & 0x40 > 0) == ((data / 64) % 2 == 1)) by (bit_vector);
        assert((data & 0x80 > 0) == ((data / 128) % 2 == 1)) by (bit_vector);
        Self {
            ch0: data & 0x01 > 0,
            ch1: data & 0x02 > 0,
            ch2: data & 0x04 > 0,
            ch3: data & 0x08 > 0,
            ch4: data & 0x10 > 0,
            ch5: data & 0x20 > 0,
            ch6: data & 0x40 > 0,
            ch7: data & 0x80 > 0,
        }
    }
}

impl vstd::std_specs::convert::FromSpecImpl<u8> for IoBank {
    open spec fn obeys_from_spec() -> bool {
        true
    }

    open spec fn from_spec(data: u8) -> Self {
        IoBank::of_byte(data)
    }
}

impl Into<u8> for IoBank {
    /// Writes a bank as its byte.
    fn into(self) -> (out: u8) {
        let mut out = 0u8;
        if self.ch0 {
            assert(0u8 | 0x01 == 0x01) by (bit_vector);
            out |= 0x01
        };
        if self.ch1 {
            assert(out | 0x02 == out + 0x02) by (bit_vector)
                requires
                    out < 0x02,
            ;
            out |= 0x02
        };
        if self.ch2 {
            assert(out | 0x04 == out + 0x04) by (bit_vector)
                requires
                    out < 0x04,
            ;
            out |= 0x04
        };
        if self.ch3 {
            assert(out | 0x08 == out + 0x08) by (bit_vector)
                requires
                    out < 0x08,
            ;
            out |= 0x08
        };
        if self.ch4 {
            assert(out | 0x10 == out + 0x10) by (bit_vector)
                requires
                    out < 0x10,
            ;
            out |= 0x10
        };
        if self.ch5 {
            assert(out | 0x20 == out + 0x20) by (bit_vector)
                requires
                    out < 0x20,
            ;
            out |= 0x20
        };
        if self.ch6 {
            assert(out | 0x40 == out + 0x40) by (bit_vector)
                requires
                    out < 0x40,
            ;
            out |= 0x40
        };
        if self.ch7 {
            assert(out | 0x80 == out + 0x80) by (bit_vector)
                requires
                    out < 0x80,
            ;
            out |= 0x80
        };
        out
    }
}

impl vstd::std_specs::convert::IntoSpecImpl<u8> for IoBank {
    open spec fn obeys_into_spec() -> bool {
        true
    }

    open spec fn into_spec(self) -> u8 {
        self.byte()
    }
}

/// A byte that is read as a bank and written back is the same byte.
pub proof fn lemma_bank_round_trip(data: u8)
    ensures
        IoBank::of_byte(data).byte() == data,
        <IoBank as IntoSpec<u8>>::into_spec(IoBank::from_spec(data)) == data,
{
    assert((if data % 2 == 1 { 1int } else { 0 })
        + (if (data / 2) % 2 == 1 { 2int } else { 0 })
        + (if (data / 4) % 2 == 1 { 4int } else { 0 })
        + (if (data / 8) % 2 == 1 { 8int } else { 0 })
        + (if (data / 16) % 2 == 1 { 16int } else { 0 })
        + (if (data / 32) % 2 == 1 { 32int } else { 0 })
        + (if (data / 64) % 2 == 1 { 64int } else { 0 })
        + (if (data / 128) % 2 == 1 { 128int } else { 0 }) == data) by (bit_vector);
}

/// A bank that is written as a byte and read back is the same bank.
pub proof fn lemma_byte_round_trip(bank: IoBank)
    ensures
        IoBank::of_byte(bank.byte()) == bank,
        IoBank::from_spec(<IoBank as IntoSpec<u8>>::into_spec(bank)) == bank,
{
}

/// The coil blocks of a digital module, and the coil that drives all
/// outputs at once.
#[derive(Debug, Copy, Clone, PartialEq, Eq)]
pub enum OutputRegisterBases {
    OutputChannel,
    ControlAllRegisters,
    OutputChannelFlashOn,
    OutputChannelFlashOff,
}

impl OutputRegisterBases {
    pub open spec fn spec_address(self) -> u16 {
        match self {
            OutputRegisterBases::OutputChannel => 0x0000,
            OutputRegisterBases::ControlAllRegisters => 0x00FF,
            OutputRegisterBases::OutputChannelFlashOn => 0x0200,
            OutputRegisterBases::OutputChannelFlashOff => 0x0400,
        }
    }

    /// The address of the block's first coil or register.
    #[verifier::when_used_as_spec(spec_address)]
    pub fn address(self) -> (addr: u16)
        ensures
            addr == self.spec_address(),
    {
        match self {
            OutputRegisterBases::OutputChannel => 0x0000,
            OutputRegisterBases::ControlAllRegisters => 0x00FF,
            OutputRegisterBases::OutputChannelFlashOn => 0x0200,
            OutputRegisterBases::OutputChannelFlashOff => 0x0400,
        }
    }
}

/// The blocks of discrete inputs of a digital module.
#[derive(Debug, Copy, Clone, PartialEq, Eq)]
pub enum InputRegisterBases {
    InputChannels,
}

impl InputRegisterBases {
    pub open spec fn spec_address(self) -> u16 {
        match self {
            InputRegisterBases::InputChannels => 0x0000,
        }
    }

    /// The address of the block's first input.
    #[verifier::when_used_as_spec(spec_address)]
    pub fn address(self) -> (addr: u16)
        ensures
            addr == self.spec_address(),
    {
        match self {
            InputRegisterBases::InputChannels => 0x0000,
        }
    }
}

/// The blocks of holding registers of a digital module.
#[derive(Debug, Copy, Clone, PartialEq, Eq)]
pub enum HoldingRegisterBases {
    ControlMode,
}

impl HoldingRegisterBases {
    pub open spec fn spec_address(self) -> u16 {
        match self {
            HoldingRegisterBases::ControlMode => 0x1000,
        }
    }

    /// The address of the block's first register.
    #[verifier::when_used_as_spec(spec_address)]
    pub fn address(self) -> (addr: u16)
        ensures
            addr == self.spec_address(),
    {
        match self {
            HoldingRegisterBases::ControlMode => 0x1000,
        }
    }
}

/// What to do with one output.
#[derive(Debug, Copy, Clone, PartialEq, Eq)]
pub enum Action {
    On,
    Off,
}

impl Action {
    pub open spec fn spec_code(self) -> u16 {
        match self {
            Action::On => 0xFF00,
            Action::Off => 0x0000,
        }
    }

    pub open spec fn spec_coil(self) -> bool {
        self is On
    }

    /// The action that brings the state `on` about.
    pub open spec fn spec_from_coil(on: bool) -> Action {
        if on {
            Action::On
        } else {
            Action::Off
        }
    }

    /// The word that stands for this action in the write of one coil: 0xFF00
    /// for on, 0x0000 for off, and never anything else.
    #[verifier::when_used_as_spec(spec_code)]
    pub fn code(self) -> (code: u16)
        ensures
            code == self.spec_code(),
            self is On ==> code == 0xFF00,
            self is Off ==> code == 0x0000,
            code == 0xFF00 || code == 0x0000,
    {
        match self {
            Action::On => 0xFF00,
            Action::Off => 0x0000,
        }
    }

    /// The state of the coil that this action asks for.
    #[verifier::when_used_as_spec(spec_coil)]
    pub fn coil(self) -> (coil: bool)
        ensures
            coil == self.spec_coil(),
    {
        match self {
            Action::On => true,
            Action::Off => false,
        }
    }
}

/// How an output behaves.
#[derive(Debug, Copy, Clone, PartialEq, Eq)]
pub enum ControlMode {
    /// The output does what it is told.
    Command,
    /// The output follows the input of the same channel.
    Linked,
    /// The output changes state with each pulse on the input of the same
    /// channel.
    Flip,
}

impl ControlMode {
    pub open spec fn spec_code(self) -> u16 {
        match self {
            ControlMode::Command => 0x0000,
            ControlMode::Linked => 0x0001,
            ControlMode::Flip => 0x0002,
        }
    }

    /// The mode that `value` stands for, or the error for a code that stands
    /// for none.
    pub open spec fn spec_from_u16(value: u16) -> Result<ControlMode, DigitalIOError> {
        match value {
            0x0000 => Ok(ControlMode::Command),
            0x0001 => Ok(ControlMode::Linked),
            0x0002 => Ok(ControlMode::Flip),
            _ => Err(DigitalIOError::InvalidControlMode),
        }
    }

    /// The code that the module knows this mode by.
    #[verifier::when_used_as_spec(spec_code)]
    pub fn code(self) -> (code: u16)
        ensures
            code == self.spec_code(),
            code <= 0x0002,
    {
        match self {
            ControlMode::Command => 0x0000,
            ControlMode::Linked => 0x0001,
            ControlMode::Flip => 0x0002,
        }
    }

    /// Reads a mode back from its code. A code above 2 stands for no mode
    /// and is refused.
    pub fn from_u16(value: u16) -> (r: Result<ControlMode, DigitalIOError>)
        ensures
            r == Self::spec_from_u16(value),
            r is Ok <==> value <= 0x0002,
            r matches Ok(mode) ==> mode.spec_code() == value,
            r matches Err(error) ==> error is InvalidControlMode,
    {
        match value {
            0x0000 => Ok(ControlMode::Command),
            0x0001 => Ok(ControlMode::Linked),
            0x0002 => Ok(ControlMode::Flip),
            _ => Err(DigitalIOError::InvalidControlMode),
        }
    }
}

/// Every mode is read back from its own code, a code reads back as a mode
/// only if it is that mode's code, and a code above 2 is refused as an
/// invalid control mode.
pub proof fn lemma_control_mode_round_trip(mode: ControlMode, value: u16)
    ensures
        ControlMode::spec_from_u16(mode.spec_code()) == Ok::<_, DigitalIOError>(mode),
        ControlMode::spec_from_u16(value) == Ok::<_, DigitalIOError>(mode) <==> value
            == mode.spec_code(),
        value > 0x0002 <==> ControlMode::spec_from_u16(value) == Err::<ControlMode, _>(
            DigitalIOError::InvalidControlMode,
        ),
{
}

/// The coils, inputs and registers of every channel lie at their block's
/// base plus the channel's number.
pub proof fn lemma_channel_addresses(channel: Channel)
    ensures
        spec_effective_address(OutputRegisterBases::OutputChannel.spec_address(), channel)
            == 0x0000 + channel.spec_index(),
        spec_effective_address(OutputRegisterBases::OutputChannelFlashOn.spec_address(), channel)
            == 0x0200 + channel.spec_index(),
        spec_effective_address(OutputRegisterBases::OutputChannelFlashOff.spec_address(), channel)
            == 0x0400 + channel.spec_index(),
        spec_effective_address(InputRegisterBases::InputChannels.spec_address(), channel)
            == 0x0000 + channel.spec_index(),
        spec_effective_address(HoldingRegisterBases::ControlMode.spec_address(), channel)
            == 0x1000 + channel.spec_index(),
{
}

/// The coil states that a sequence of actions asks for, in the same order.
pub open spec fn spec_coils(actions: Seq<Action>) -> Seq<bool> {
    actions.map_values(|action: Action| action.spec_coil())
}

/// One digital input and output module on a shared link.
#[derive(Debug)]
pub struct DigitalIO {
    pub unit_id: u8,
}

impl DigitalIO {
    /// The request that switches the output of `channel`.
    pub open spec fn spec_write_output_channel_request(
        channel: Channel,
        action: Action,
    ) -> RequestView {
        RequestView::WriteSingleCoil(
            spec_effective_address(OutputRegisterBases::OutputChannel.spec_address(), channel),
            action.spec_coil(),
        )
    }

    /// The request that switches all outputs at once, on or off.
    pub open spec fn spec_all_outputs_request(on: bool) -> RequestView {
        RequestView::WriteSingleCoil(OutputRegisterBases::ControlAllRegisters.spec_address(), on)
    }

    /// The one request that switches each output as its action says.
    pub open spec fn spec_write_output_channels_request(actions: Seq<Action>) -> RequestView {
        RequestView::WriteMultipleCoils(
            OutputRegisterBases::OutputChannel.spec_address(),
            spec_coils(actions),
        )
    }

    /// The request that sets the interval for which the output of `channel`
    /// flashes on.
    pub open spec fn spec_flash_output_on_request(channel: Channel, interval: u16) -> RequestView {
        RequestView::WriteSingleRegister(
            spec_effective_address(
                OutputRegisterBases::OutputChannelFlashOn.spec_address(),
                channel,
            ),
            interval,
        )
    }

    /// The request that sets the interval for which the output of `channel`
    /// flashes off.
    pub open spec fn spec_flash_output_off_request(
        channel: Channel,
        interval: u16,
    ) -> RequestView {
        RequestView::WriteSingleRegister(
            spec_effective_address(
                OutputRegisterBases::OutputChannelFlashOff.spec_address(),
                channel,
            ),
            interval,
        )
    }

    /// The request that reads the input of `channel`.
    pub open spec fn spec_input_channel_request(channel: Channel) -> RequestView {
        RequestView::ReadDiscreteInputs(
            spec_effective_address(InputRegisterBases::InputChannels.spec_address(), channel),
            1,
        )
    }

    /// The request that reads all eight inputs.
    pub open spec fn spec_input_channels_request() -> RequestView {
        RequestView::ReadDiscreteInputs(InputRegisterBases::InputChannels.spec_address(), 8)
    }

    /// The request that sets how the output of `channel` behaves.
    pub open spec fn spec_set_output_control_mode_request(
        channel: Channel,
        mode: ControlMode,
    ) -> RequestView {
        RequestView::WriteSingleRegister(
            spec_effective_address(HoldingRegisterBases::ControlMode.spec_address(), channel),
            mode.spec_code(),
        )
    }

    /// The request that reads how the output of `channel` behaves.
    pub open spec fn spec_read_output_control_mode_request(channel: Channel) -> RequestView {
        RequestView::ReadHoldingRegisters(
            spec_effective_address(HoldingRegisterBases::ControlMode.spec_address(), channel),
            1,
        )
    }

    /// The module with the slave address `unit_id`.
    pub fn new(unit_id: u8) -> (device: Self)
        ensures
            device.unit_id == unit_id,
    {
        DigitalIO { unit_id }
    }

    /// Stages the write that switches the output of `channel`.
    pub fn write_output_channel(
        &self,
        link: &mut ThreadSafeContext,
        channel: Channel,
        action: Action,
    ) -> (unit: Exchange)
        ensures
            unit.slave == self.unit_id,
            unit.request@ == Self::spec_write_output_channel_request(channel, action),
            final(link).follows(old(link), unit.slave, unit.request@),
    {
        let addr = effective_address(OutputRegisterBases::OutputChannel.address(), channel);
        link.write_single_coil(self.unit_id, addr, action.coil())
    }

    /// Stages the write that switches all outputs on.
    pub fn open_all_outputs(&self, link: &mut ThreadSafeContext) -> (unit: Exchange)
        ensures
            unit.slave == self.unit_id,
            unit.request@ == Self::spec_all_outputs_request(true),
            final(link).follows(old(link), unit.slave, unit.request@),
    {
        link.write_single_coil(
            self.unit_id,
            OutputRegisterBases::ControlAllRegisters.address(),
            true,
        )
    }

    /// Stages the write that switches all outputs off.
    pub fn close_all_outputs(&self, link: &mut ThreadSafeContext) -> (unit: Exchange)
        ensures
            unit.slave == self.unit_id,
            unit.request@ == Self::spec_all_outputs_request(false),
            final(link).follows(old(link), unit.slave, unit.request@),
    {
        link.write_single_coil(
            self.unit_id,
            OutputRegisterBases::ControlAllRegisters.address(),
            false,
        )
    }

    /// Stages the one write that switches all eight outputs, each as its
    /// action says: one request for the eight coils, not eight requests.
    pub fn write_output_channels(
        &self,
        link: &mut ThreadSafeContext,
        actions: [Action; 8],
    ) -> (unit: Exchange)
        ensures
            unit.slave == self.unit_id,
            unit.request@ == Self::spec_write_output_channels_request(actions@),
            final(link).follows(old(link), unit.slave, unit.request@),
    {
        let mut values: Vec<bool> = Vec::new();
        let mut i: usize = 0;
        while i < 8
            invariant
                i <= 8,
                values@ == spec_coils(actions@.subrange(0, i as int)),
            decreases 8 - i,
        {
            values.push(actions[i].coil());
            i += 1;
        }
        link.write_multiple_coils(
            self.unit_id,
            OutputRegisterBases::OutputChannel.address(),
            values.as_slice(),
        )
    }

    /// Stages the write that sets the interval for which the output of
    /// `channel` flashes on.
    pub fn flash_output_on(
        &self,
        link: &mut ThreadSafeContext,
        channel: Channel,
        interval: u16,
    ) -> (unit: Exchange)
        ensures
            unit.slave == self.unit_id,
            unit.request@ == Self::spec_flash_output_on_request(channel, interval),
            final(link).follows(old(link), unit.slave, unit.request@),
    {
        let addr = effective_address(OutputRegisterBases::OutputChannelFlashOn.address(), channel);
        link.write_single_register(self.unit_id, addr, interval)
    }

    /// Stages the write that sets the interval for which the output of
    /// `channel` flashes off.
    pub fn flash_output_off(
        &self,
        link: &mut ThreadSafeContext,
        channel: Channel,
        interval: u16,
    ) -> (unit: Exchange)
        ensures
            unit.slave == self.unit_id,
            unit.request@ == Self::spec_flash_output_off_request(channel, interval),
            final(link).follows(old(link), unit.slave, unit.request@),
    {
        let addr = effective_address(
            OutputRegisterBases::OutputChannelFlashOff.address(),
            channel,
        );
        link.write_single_register(self.unit_id, addr, interval)
    }

    /// Stages the read of the input of `channel`.
    pub fn read_input_channel_status(
        &self,
        link: &mut ThreadSafeContext,
        channel: Channel,
    ) -> (unit: Exchange)
        ensures
            unit.slave == self.unit_id,
            unit.request@ == Self::spec_input_channel_request(channel),
            final(link).follows(old(link), unit.slave, unit.request@),
    {
        let addr = effective_address(InputRegisterBases::InputChannels.address(), channel);
        link.read_discrete_inputs(self.unit_id, addr, 1)
    }

    /// The state of an input, from the reply to the read of it: the first
    /// state of the reply. A reply that carries no state is refused with the
    /// reply's error; it is not taken for an input that is off.
    pub fn decode_input_channel_status(reply: Reply) -> (r: Result<bool, DigitalIOError>)
        ensures
            r == match spec_first_bit(reply) {
                Some(on) => Ok::<bool, DigitalIOError>(on),
                None => Err(Self::spec_refusal(reply)),
            },
    {
        match take_first_bit(reply) {
            Ok(on) => Ok(on),
            Err(other) => Err(Self::refusal(other)),
        }
    }

    /// Stages the one read that covers all eight inputs.
    pub fn read_input_channels(&self, link: &mut ThreadSafeContext) -> (unit: Exchange)
        ensures
            unit.slave == self.unit_id,
            unit.request@ == Self::spec_input_channels_request(),
            final(link).follows(old(link), unit.slave, unit.request@),
    {
        link.read_discrete_inputs(self.unit_id, InputRegisterBases::InputChannels.address(), 8)
    }

    /// The states of all inputs, from the reply to the read of them: the
    /// states of the reply as they came, channel 0 first, and the reply's
    /// error if it carries no states.
    pub fn decode_input_channels(reply: Reply) -> (r: Result<Vec<bool>, DigitalIOError>)
        ensures
            r == match reply {
                Ok(Ok(Response::Bits(bits))) => Ok::<Vec<bool>, DigitalIOError>(bits),
                _ => Err(Self::spec_refusal(reply)),
            },
    {
        match take_bits(reply) {
            Ok(bits) => Ok(bits),
            Err(other) => Err(Self::refusal(other)),
        }
    }

    /// Stages the write that sets how the output of `channel` behaves.
    pub fn set_output_control_mode(
        &self,
        link: &mut ThreadSafeContext,
        channel: Channel,
        mode: ControlMode,
    ) -> (unit: Exchange)
        ensures
            unit.slave == self.unit_id,
            unit.request@ == Self::spec_set_output_control_mode_request(channel, mode),
            final(link).follows(old(link), unit.slave, unit.request@),
    {
        let addr = effective_address(HoldingRegisterBases::ControlMode.address(), channel);
        link.write_single_register(self.unit_id, addr, mode.code())
    }

    /// Stages the read of how the output of `channel` behaves.
    pub fn read_output_control_mode(
        &self,
        link: &mut ThreadSafeContext,
        channel: Channel,
    ) -> (unit: Exchange)
        ensures
            unit.slave == self.unit_id,
            unit.request@ == Self::spec_read_output_control_mode_request(channel),
            final(link).follows(old(link), unit.slave, unit.request@),
    {
        let addr = effective_address(HoldingRegisterBases::ControlMode.address(), channel);
        link.read_holding_registers(self.unit_id, addr, 1)
    }

    /// The behaviour of an output, from the reply to the read of it: the
    /// mode that the first word of the reply stands for. A word that stands
    /// for no mode is an invalid control mode; a reply without a word gives
    /// the reply's error.
    pub fn decode_output_control_mode(reply: Reply) -> (r: Result<ControlMode, DigitalIOError>)
        ensures
            r == match spec_first_word(reply) {
                Some(word) => ControlMode::spec_from_u16(word),
                None => Err(Self::spec_refusal(reply)),
            },
    {
        match take_first_word(reply) {
            Ok(word) => ControlMode::from_u16(word),
            Err(other) => Err(Self::refusal(other)),
        }
    }
}

impl WaveshareModbus for DigitalIO {
    type Error = DigitalIOError;

    open spec fn spec_unit_id(&self) -> u8 {
        self.unit_id
    }

    /// The link's failure, the device's exception, or else the fact that
    /// the payload is not of the kind that was asked for.
    open spec fn spec_refusal(reply: Reply) -> DigitalIOError {
        match reply {
            Err(error) => DigitalIOError::ModbusError(error),
            Ok(Err(code)) => DigitalIOError::ModbusException(code),
            Ok(Ok(_)) => DigitalIOError::UnexpectedResponse,
        }
    }

    fn unit_id(&self) -> (unit_id: u8) {
        self.unit_id
    }

    fn refusal(reply: Reply) -> (error: DigitalIOError) {
        match reply {
            Err(error) => DigitalIOError::ModbusError(error),
            Ok(Err(code)) => DigitalIOError::ModbusException(code),
            Ok(Ok(_)) => DigitalIOError::UnexpectedResponse,
        }
    }
}

} // verus!
