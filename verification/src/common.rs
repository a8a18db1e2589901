use crate::link::{
    spec_first_word, take_first_word, take_written, Exchange, Reply, RequestView, Response,
    ThreadSafeContext,
};
use vstd::prelude::*;
use vstd::std_specs::convert::TryFromSpec;

verus! {

/// Holding registers that every module class keeps at the same address.
#[derive(Debug, Copy, Clone, PartialEq, Eq)]
pub enum CommonHoldingRegisters {
    UartParameters,
    DeviceAddress,
    SoftwareVersion,
}

impl CommonHoldingRegisters {
    pub open spec fn spec_address(self) -> u16 {
        match self {
            CommonHoldingRegisters::UartParameters => 0x2000,
            CommonHoldingRegisters::DeviceAddress => 0x4000,
            CommonHoldingRegisters::SoftwareVersion => 0x8000,
        }
    }

    /// The register's address on the wire.
    #[verifier::when_used_as_spec(spec_address)]
    pub fn address(self) -> (addr: u16)
        ensures
            addr == self.spec_address(),
    {
        match self {
            CommonHoldingRegisters::UartParameters => 0x2000,
            CommonHoldingRegisters::DeviceAddress => 0x4000,
            CommonHoldingRegisters::SoftwareVersion => 0x8000,
        }
    }
}

/// The serial speeds a module can be set to.
#[derive(Debug, Copy, Clone, PartialEq, Eq)]
pub enum Baudrates {
    B4800,
    B9600,
    B19200,
    B38400,
    B57600,
    B115200,
    B128000,
    B256000,
}

impl Baudrates {
    pub open spec fn spec_code(self) -> u16 {
        match self {
            Baudrates::B4800 => 0x00,
            Baudrates::B9600 => 0x01,
            Baudrates::B19200 => 0x02,
            Baudrates::B38400 => 0x03,
            Baudrates::B57600 => 0x04,
            Baudrates::B115200 => 0x05,
            Baudrates::B128000 => 0x06,
            Baudrates::B256000 => 0x07,
        }
    }

    /// The speed that `code` stands for, if it stands for one.
    pub open spec fn spec_from_u16(code: u16) -> Option<Baudrates> {
        match code {
            0x00 => Some(Baudrates::B4800),
            0x01 => Some(Baudrates::B9600),
            0x02 => Some(Baudrates::B19200),
            0x03 => Some(Baudrates::B38400),
            0x04 => Some(Baudrates::B57600),
            0x05 => Some(Baudrates::B115200),
            0x06 => Some(Baudrates::B128000),
            0x07 => Some(Baudrates::B256000),
            _ => None,
        }
    }

    /// The code that the module knows this speed by.
    #[verifier::when_used_as_spec(spec_code)]
    pub fn code(self) -> (code: u16)
        ensures
            code == self.spec_code(),
            code <= 0x07,
    {
        match self {
            Baudrates::B4800 => 0x00,
            Baudrates::B9600 => 0x01,
            Baudrates::B19200 => 0x02,
            Baudrates::B38400 => 0x03,
            Baudrates::B57600 => 0x04,
            Baudrates::B115200 => 0x05,
            Baudrates::B128000 => 0x06,
            Baudrates::B256000 => 0x07,
        }
    }

    /// Reads a speed back from its code. A code that stands for no speed
    /// gives `None`.
    pub fn from_u16(code: u16) -> (r: Option<Baudrates>)
        ensures
            r == Self::spec_from_u16(code),
            r is Some <==> code <= 0x07,
            r matches Some(baudrate) ==> baudrate.spec_code() == code,
    {
        match code {
            0x00 => Some(Baudrates::B4800),
            0x01 => Some(Baudrates::B9600),
            0x02 => Some(Baudrates::B19200),
            0x03 => Some(Baudrates::B38400),
            0x04 => Some(Baudrates::B57600),
            0x05 => Some(Baudrates::B115200),
            0x06 => Some(Baudrates::B128000),
            0x07 => Some(Baudrates::B256000),
            _ => None,
        }
    }
}

/// The parity settings a module can be set to.
#[derive(Debug, Copy, Clone, PartialEq, Eq)]
pub enum Parity {
    NoParity,
    Even,
    Odd,
}

impl Parity {
    pub open spec fn spec_code(self) -> u16 {
        match self {
            Parity::NoParity => 0x00,
            Parity::Even => 0x01,
            Parity::Odd => 0x02,
        }
    }

    /// The parity that `code` stands for, if it stands for one.
    pub open spec fn spec_from_u16(code: u16) -> Option<Parity> {
        match code {
            0x00 => Some(Parity::NoParity),
            0x01 => Some(Parity::Even),
            0x02 => Some(Parity::Odd),
            _ => None,
        }
    }

    /// The code that the module knows this parity by.
    #[verifier::when_used_as_spec(spec_code)]
    pub fn code(self) -> (code: u16)
        ensures
            code == self.spec_code(),
            code <= 0x02,
    {
        match self {
            Parity::NoParity => 0x00,
            Parity::Even => 0x01,
            Parity::Odd => 0x02,
        }
    }

    /// Reads a parity back from its code. A code that stands for no parity
    /// gives `None`.
    pub fn from_u16(code: u16) -> (r: Option<Parity>)
        ensures
            r == Self::spec_from_u16(code),
            r is Some <==> code <= 0x02,
            r matches Some(parity) ==> parity.spec_code() == code,
    {
        match code {
            0x00 => Some(Parity::NoParity),
            0x01 => Some(Parity::Even),
            0x02 => Some(Parity::Odd),
            _ => None,
        }
    }
}

/// One of the eight channels of a module.
#[derive(Debug, Copy, Clone, PartialEq, Eq)]
pub enum Channel {
    Channel0,
    Channel1,
    Channel2,
    Channel3,
    Channel4,
    Channel5,
    Channel6,
    Channel7,
}

impl Channel {
    pub open spec fn spec_index(self) -> u16 {
        match self {
            Channel::Channel0 => 0,
            Channel::Channel1 => 1,
            Channel::Channel2 => 2,
            Channel::Channel3 => 3,
            Channel::Channel4 => 4,
            Channel::Channel5 => 5,
            Channel::Channel6 => 6,
            Channel::Channel7 => 7,
        }
    }

    /// The channel's number, which is also its offset from the base of a
    /// block of registers or coils.
    #[verifier::when_used_as_spec(spec_index)]
    pub fn index(self) -> (index: u16)
        ensures
            index == self.spec_index(),
            index <= 7,
    {
        match self {
            Channel::Channel0 => 0,
            Channel::Channel1 => 1,
            Channel::Channel2 => 2,
            Channel::Channel3 => 3,
            Channel::Channel4 => 4,
            Channel::Channel5 => 5,
            Channel::Channel6 => 6,
            Channel::Channel7 => 7,
        }
    }
}

impl TryFrom<u8> for Channel {
    type Error = &'static str;

    /// The channel with the number `value`. A number above 7 names no
    /// channel and is refused.
    fn try_from(value: u8) -> (r: Result<Self, Self::Error>)
        ensures
            r is Ok <==> value <= 7,
            r matches Ok(channel) ==> channel.spec_index() == value,
    {
        match value {
            0 => Ok(Channel::Channel0),
            1 => Ok(Channel::Channel1),
            2 => Ok(Channel::Channel2),
            3 => Ok(Channel::Channel3),
            4 => Ok(Channel::Channel4),
            5 => Ok(Channel::Channel5),
            6 => Ok(Channel::Channel6),
            7 => Ok(Channel::Channel7),
            _ => Err("Invalid Channel"),
        }
    }
}

impl vstd::std_specs::convert::TryFromSpecImpl<u8> for Channel {
    open spec fn obeys_try_from_spec() -> bool {
        true
    }

    open spec fn try_from_spec(value: u8) -> Result<Self, Self::Error> {
        match value {
            0 => Ok(Channel::Channel0),
            1 => Ok(Channel::Channel1),
            2 => Ok(Channel::Channel2),
            3 => Ok(Channel::Channel3),
            4 => Ok(Channel::Channel4),
            5 => Ok(Channel::Channel5),
            6 => Ok(Channel::Channel6),
            7 => Ok(Channel::Channel7),
            _ => Err("Invalid Channel"),
        }
    }
}

/// The address of a channel's register or coil: the base of its block plus
/// the channel's number.
pub open spec fn spec_effective_address(base: u16, channel: Channel) -> u16 {
    (base + channel.spec_index()) as u16
}

/// Forms the address of a channel's register or coil. The block has to lie
/// where all of its addresses are addresses.
pub fn effective_address(base: u16, channel: Channel) -> (addr: u16)
    requires
        base + channel.spec_index() <= u16::MAX,
    ensures
        addr == base + channel.spec_index(),
        addr == spec_effective_address(base, channel),
{
    base + channel.index()
}

/// A number from 0 to 7 names a channel, and the address of that channel in
/// a block is the block's base plus the number. A larger number names no
/// channel, so no address is ever formed from it.
pub proof fn lemma_effective_address(base: u16, number: u8)
    ensures
        number <= 7 ==> Channel::try_from_spec(number) is Ok,
        number <= 7 && base + 7 <= u16::MAX ==> spec_effective_address(
            base,
            Channel::try_from_spec(number).unwrap(),
        ) == base + number,
        number > 7 ==> Channel::try_from_spec(number) is Err,
{
}

/// The word of the UART register: the parity's code in the high byte, the
/// speed's code in the low byte.
pub open spec fn spec_uart_word(parity: Parity, baudrate: Baudrates) -> u16 {
    (parity.spec_code() * 256 + baudrate.spec_code()) as u16
}

/// The settings that a word of the UART register stands for, if both of its
/// bytes hold a known code.
pub open spec fn spec_uart_parameters(word: u16) -> Option<(Parity, Baudrates)> {
    match (Parity::spec_from_u16(word / 256), Baudrates::spec_from_u16(word % 256)) {
        (Some(parity), Some(baudrate)) => Some((parity, baudrate)),
        _ => None,
    }
}

/// Packs the two settings into the word of the UART register.
pub fn encode_uart_parameters(parity: Parity, baudrate: Baudrates) -> (word: u16)
    ensures
        word == spec_uart_word(parity, baudrate),
        word == (parity.spec_code() << 8) | baudrate.spec_code(),
        word == parity.spec_code() * 256 + baudrate.spec_code(),
{
    let high: u16 = parity.code();
    let low: u16 = baudrate.code();
    assert((high << 8) | low == high * 256 + low) by (bit_vector)
        requires
            high <= 0x02,
            low <= 0x07,
    ;
    (high << 8) | low
}

/// Unpacks a word of the UART register. A word in which either byte holds
/// no known code gives `None`.
pub fn decode_uart_parameters(word: u16) -> (r: Option<(Parity, Baudrates)>)
    ensures
        r == spec_uart_parameters(word),
{
    assert(word >> 8 == word / 256 && word & 0xFF == word % 256) by (bit_vector);
    match (Parity::from_u16(word >> 8), Baudrates::from_u16(word & 0xFF)) {
        (Some(parity), Some(baudrate)) => Some((parity, baudrate)),
        _ => None,
    }
}

/// Packing two settings and unpacking the word gives the two settings back,
/// and a word unpacks only to the settings that pack to it.
pub proof fn lemma_uart_round_trip(parity: Parity, baudrate: Baudrates, word: u16)
    ensures
        spec_uart_parameters(spec_uart_word(parity, baudrate)) == Some((parity, baudrate)),
        spec_uart_parameters(word) == Some((parity, baudrate)) <==> word == spec_uart_word(
            parity,
            baudrate,
        ),
{
}

/// The request that sets a module's serial speed and parity.
pub open spec fn spec_uart_request(baudrate: Baudrates, parity: Parity) -> RequestView {
    RequestView::WriteSingleRegister(
        CommonHoldingRegisters::UartParameters.spec_address(),
        spec_uart_word(parity, baudrate),
    )
}

/// The request that gives a module a new slave address.
pub open spec fn spec_device_address_request(address: u8) -> RequestView {
    RequestView::WriteSingleRegister(
        CommonHoldingRegisters::DeviceAddress.spec_address(),
        address as u16,
    )
}

/// The request that reads a module's firmware version.
pub open spec fn spec_software_version_request() -> RequestView {
    RequestView::ReadHoldingRegisters(CommonHoldingRegisters::SoftwareVersion.spec_address(), 1)
}

/// What every module class can do, whatever its kind.
///
/// An operation selects the device on the link and stages its one request.
/// The unit that comes back is put on the wire by whoever holds the link,
/// and the matching `decode_` function turns the reply into the operation's
/// result. A class says which device it is and how it names a failure; the
/// operations themselves are the same for all.
pub trait WaveshareModbus {
    type Error;

    spec fn spec_unit_id(&self) -> u8;

    /// The error that a reply stands for when it does not carry what was
    /// asked for.
    spec fn spec_refusal(reply: Reply) -> Self::Error;

    /// The slave address of the device.
    fn unit_id(&self) -> (unit_id: u8)
        ensures
            unit_id == self.spec_unit_id(),
    ;

    /// The error for a reply that does not carry what was asked for.
    fn refusal(reply: Reply) -> (error: Self::Error)
        ensures
            error == Self::spec_refusal(reply),
    ;

    /// Stages the write of the UART register that sets speed and parity.
    fn set_uart_parameters(
        &self,
        link: &mut ThreadSafeContext,
        baudrate: Baudrates,
        parity: Parity,
    ) -> (unit: Exchange)
        ensures
            unit.slave == self.spec_unit_id(),
            unit.request@ == spec_uart_request(baudrate, parity),
            final(link).follows(old(link), unit.slave, unit.request@),
    {
        let word = encode_uart_parameters(parity, baudrate);
        link.write_single_register(
            self.unit_id(),
            CommonHoldingRegisters::UartParameters.address(),
            word,
        )
    }

    /// Stages the write that gives the device the slave address `address`.
    fn set_device_address(&self, link: &mut ThreadSafeContext, address: u8) -> (unit: Exchange)
        ensures
            unit.slave == self.spec_unit_id(),
            unit.request@ == spec_device_address_request(address),
            final(link).follows(old(link), unit.slave, unit.request@),
    {
        link.write_single_register(
            self.unit_id(),
            CommonHoldingRegisters::DeviceAddress.address(),
            address as u16,
        )
    }

    /// Stages the read of the firmware version.
    fn read_software_version(&self, link: &mut ThreadSafeContext) -> (unit: Exchange)
        ensures
            unit.slave == self.spec_unit_id(),
            unit.request@ == spec_software_version_request(),
            final(link).follows(old(link), unit.slave, unit.request@),
    {
        link.read_holding_registers(
            self.unit_id(),
            CommonHoldingRegisters::SoftwareVersion.address(),
            1,
        )
    }

    /// The result of a write, from the reply to it: done if the reply
    /// acknowledges a write, and the reply's error if it does not.
    fn decode_write(reply: Reply) -> (r: Result<(), Self::Error>)
        ensures
            r == match reply {
                Ok(Ok(Response::Written)) => Ok::<(), Self::Error>(()),
                _ => Err(Self::spec_refusal(reply)),
            },
    {
        match take_written(reply) {
            Ok(()) => Ok(()),
            Err(other) => Err(Self::refusal(other)),
        }
    }

    /// The firmware version, from the reply to the read of it: the first
    /// word of the reply, and the reply's error if it carries none.
    fn decode_software_version(reply: Reply) -> (r: Result<u16, Self::Error>)
        ensures
            r == match spec_first_word(reply) {
                Some(version) => Ok::<u16, Self::Error>(version),
                None => Err(Self::spec_refusal(reply)),
            },
    {
        match take_first_word(reply) {
            Ok(version) => Ok(version),
            Err(other) => Err(Self::refusal(other)),
        }
    }
}

} // verus!
