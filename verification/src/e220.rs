//! The EBYTE E220-900T22D radio module: its operating modes, its
//! configuration registers and the byte exchanges that read and write them.
//! The exchanges themselves run where the serial port is; the requests they
//! send and the checks of the replies they receive are here.
use vstd::prelude::*;

use crate::errors::Error;
use crate::link::{ReadEvent, RxAction};

verus! {

/// Radio channel: 850.125 MHz + 19 MHz = 869.125 MHz.
pub const RADIO_CHANNEL: u8 = 19;

/// Address that every module listens to.
pub const BROADCAST_ADDR: u8 = 0xFF;

/// High byte of the encryption key.
pub const CRYPT_H: u8 = 50;

/// Low byte of the encryption key.
pub const CRYPT_L: u8 = 19;

/// Pins M0, M1 of each mode.
pub const MODENORMALM0M1: (bool, bool) = (false, false);

pub const MODEWORTRANSMITTINGM0M1: (bool, bool) = (false, true);

pub const MODEWORRECEIVINGM0M1: (bool, bool) = (true, false);

pub const MODEDEEPSLEEPM0M1: (bool, bool) = (true, true);

/// Largest number of bytes a received packet may grow to.
pub const RX_PACKET_LIMIT: usize = 205;

/// Code of the reply to register commands.
pub const READ_REGISTER_CODE: u8 = 0xC1;

/// Operating mode of the module, selected by pins M0 and M1.
#[derive(PartialEq, Eq, Copy, Clone, Debug, Structural)]
pub enum E220Mode {
    ModeNormal,
    ModeWORTransmitting,
    ModeWORReceiving,
    ModeDeepSleep,
}

/// The levels of pins M0, M1 that select `mode`.
pub open spec fn mode_pins(mode: E220Mode) -> (bool, bool) {
    match mode {
        E220Mode::ModeNormal => (false, false),
        E220Mode::ModeWORTransmitting => (false, true),
        E220Mode::ModeWORReceiving => (true, false),
        E220Mode::ModeDeepSleep => (true, true),
    }
}

/// Each mode has its own pin levels, so the pins tell the mode.
pub proof fn lemma_mode_pins_distinct(m1: E220Mode, m2: E220Mode)
    ensures
        mode_pins(m1) == mode_pins(m2) ==> m1 == m2,
{
}

impl E220Mode {
    /// Whether switching into this mode waits for the module to raise AUX:
    /// every mode but deep sleep, where the module does not signal.
    pub fn waits_for_aux(&self) -> (r: bool)
        ensures
            r == (*self != E220Mode::ModeDeepSleep),
    {
        *self != E220Mode::ModeDeepSleep
    }
}

impl Default for E220Mode {
    fn default() -> (r: Self)
        ensures
            r == E220Mode::ModeNormal,
    {
        E220Mode::ModeNormal
    }
}

impl From<E220Mode> for (bool, bool) {
    fn from(val: E220Mode) -> (r: (bool, bool))
        ensures
            r == mode_pins(val),
    {
        match val {
            E220Mode::ModeNormal => MODENORMALM0M1,
            E220Mode::ModeWORTransmitting => MODEWORTRANSMITTINGM0M1,
            E220Mode::ModeWORReceiving => MODEWORRECEIVINGM0M1,
            E220Mode::ModeDeepSleep => MODEDEEPSLEEPM0M1,
        }
    }
}

impl vstd::std_specs::convert::FromSpecImpl<E220Mode> for (bool, bool) {
    open spec fn obeys_from_spec() -> bool {
        true
    }

    open spec fn from_spec(v: E220Mode) -> (bool, bool) {
        mode_pins(v)
    }
}

/// Register commands.
#[derive(PartialEq, Eq, Copy, Clone, Debug, Structural)]
pub enum E220Command {
    SetRegister,
    ReadRegister,
    SetTempRegister,
}

pub open spec fn command_code(c: E220Command) -> u8 {
    match c {
        E220Command::SetRegister => 0xC0,
        E220Command::ReadRegister => 0xC1,
        E220Command::SetTempRegister => 0xC2,
    }
}

impl E220Command {
    /// The byte that starts the command.
    pub fn code(&self) -> (r: u8)
        ensures
            r == command_code(*self),
    {
        match self {
            E220Command::SetRegister => 0xC0,
            E220Command::ReadRegister => 0xC1,
            E220Command::SetTempRegister => 0xC2,
        }
    }
}

impl Default for E220Command {
    fn default() -> (r: Self)
        ensures
            r == E220Command::SetRegister,
    {
        E220Command::SetRegister
    }
}

/// Registers of the module.
#[allow(non_camel_case_types)]
#[derive(PartialEq, Eq, Copy, Clone, Debug, Structural)]
pub enum E220Registers {
    ADDH,
    ADDL,
    REG0,
    REG1,
    REG2,
    REG3,
    CRYPT_H,
    CRYPT_L,
}

pub open spec fn register_address(r: E220Registers) -> u8 {
    match r {
        E220Registers::ADDH => 0x00,
        E220Registers::ADDL => 0x01,
        E220Registers::REG0 => 0x02,
        E220Registers::REG1 => 0x03,
        E220Registers::REG2 => 0x04,
        E220Registers::REG3 => 0x05,
        E220Registers::CRYPT_H => 0x06,
        E220Registers::CRYPT_L => 0x07,
    }
}

/// The key registers, which always read back as 0.
pub open spec fn is_crypt_register(r: E220Registers) -> bool {
    r == E220Registers::CRYPT_H || r == E220Registers::CRYPT_L
}

/// The key registers are exactly `CRYPT_H` and `CRYPT_L`, at addresses 6
/// and 7. For every other register, a register write (`RegisterWrite`)
/// that reads `current` writes `to` only when `current != to`, and takes
/// the write reply `value` only when it is `to`; a key register is written
/// whatever it reads, and a reply of 0 is taken for it as well.
pub proof fn lemma_key_registers(reg: E220Registers, current: u8, to: u8, value: u8)
    ensures
        is_crypt_register(reg) <==> (reg == E220Registers::CRYPT_H || reg
            == E220Registers::CRYPT_L),
        is_crypt_register(reg) <==> (register_address(reg) == 0x06 || register_address(reg)
            == 0x07),
        reg != E220Registers::CRYPT_H && reg != E220Registers::CRYPT_L ==> {
            &&& !(current == to && !is_crypt_register(reg)) <==> current != to
            &&& (value == to || (is_crypt_register(reg) && value == 0)) <==> value == to
        },
        reg == E220Registers::CRYPT_H || reg == E220Registers::CRYPT_L ==> {
            &&& !(current == to && !is_crypt_register(reg))
            &&& (value == to || (is_crypt_register(reg) && value == 0)) <==> (value == to || value
                == 0)
        },
{
}

impl E220Registers {
    /// The register's address.
    pub fn address(&self) -> (r: u8)
        ensures
            r == register_address(*self),
    {
        match self {
            E220Registers::ADDH => 0x00,
            E220Registers::ADDL => 0x01,
            E220Registers::REG0 => 0x02,
            E220Registers::REG1 => 0x03,
            E220Registers::REG2 => 0x04,
            E220Registers::REG3 => 0x05,
            E220Registers::CRYPT_H => 0x06,
            E220Registers::CRYPT_L => 0x07,
        }
    }

    /// Whether this is one of the key registers.
    pub fn is_crypt(&self) -> (r: bool)
        ensures
            r == is_crypt_register(*self),
    {
        *self == E220Registers::CRYPT_H || *self == E220Registers::CRYPT_L
    }
}

/// REG0: serial baud rate.
#[derive(PartialEq, Eq, Copy, Clone, Debug, Structural)]
pub enum E220SerialRate {
    Rate1200,
    Rate2400,
    Rate4800,
    Rate9600,
    Rate19200,
    Rate38400,
    Rate57600,
    Rate115200,
}

impl E220SerialRate {
    /// The bits of REG0 that select the rate.
    pub fn bits(&self) -> (r: u8)
        ensures
            r == (match *self {
                E220SerialRate::Rate1200 => 0b00000000u8,
                E220SerialRate::Rate2400 => 0b00100000u8,
                E220SerialRate::Rate4800 => 0b01000000u8,
                E220SerialRate::Rate9600 => 0b01100000u8,
                E220SerialRate::Rate19200 => 0b10000000u8,
                E220SerialRate::Rate38400 => 0b10100000u8,
                E220SerialRate::Rate57600 => 0b11000000u8,
                E220SerialRate::Rate115200 => 0b11100000u8,
            }),
    {
        match self {
            E220SerialRate::Rate1200 => 0b00000000,
            E220SerialRate::Rate2400 => 0b00100000,
            E220SerialRate::Rate4800 => 0b01000000,
            E220SerialRate::Rate9600 => 0b01100000,
            E220SerialRate::Rate19200 => 0b10000000,
            E220SerialRate::Rate38400 => 0b10100000,
            E220SerialRate::Rate57600 => 0b11000000,
            E220SerialRate::Rate115200 => 0b11100000,
        }
    }
}

impl Default for E220SerialRate {
    fn default() -> (r: Self)
        ensures
            r == E220SerialRate::Rate9600,
    {
        E220SerialRate::Rate9600
    }
}

/// REG0: serial parity.
#[derive(PartialEq, Eq, Copy, Clone, Debug, Structural)]
pub enum E220SerialParity {
    P8N1,
    P8O1,
    P8E1,
    /// Same as `P8N1`.
    P8N12,
}

impl E220SerialParity {
    /// The bits of REG0 that select the parity.
    pub fn bits(&self) -> (r: u8)
        ensures
            r == (match *self {
                E220SerialParity::P8N1 => 0b00000000u8,
                E220SerialParity::P8O1 => 0b00001000u8,
                E220SerialParity::P8E1 => 0b00010000u8,
                E220SerialParity::P8N12 => 0b00011000u8,
            }),
    {
        match self {
            E220SerialParity::P8N1 => 0b00000000,
            E220SerialParity::P8O1 => 0b00001000,
            E220SerialParity::P8E1 => 0b00010000,
            E220SerialParity::P8N12 => 0b00011000,
        }
    }
}

impl Default for E220SerialParity {
    fn default() -> (r: Self)
        ensures
            r == E220SerialParity::P8N1,
    {
        E220SerialParity::P8N1
    }
}

/// REG0: air data rate.
#[derive(PartialEq, Eq, Copy, Clone, Debug, Structural)]
pub enum E220AirRate {
    Rate24001,
    Rate24002,
    Rate24003,
    Rate4800,
    Rate9600,
    Rate19200,
    Rate38400,
    Rate62500,
}

impl E220AirRate {
    /// The bits of REG0 that select the air rate.
    pub fn bits(&self) -> (r: u8)
        ensures
            r == (match *self {
                E220AirRate::Rate24001 => 0b00000000u8,
                E220AirRate::Rate24002 => 0b00000001u8,
                E220AirRate::Rate24003 => 0b00000010u8,
                E220AirRate::Rate4800 => 0b00000011u8,
                E220AirRate::Rate9600 => 0b00000100u8,
                E220AirRate::Rate19200 => 0b00000101u8,
                E220AirRate::Rate38400 => 0b00000110u8,
                E220AirRate::Rate62500 => 0b00000111u8,
            }),
    {
        match self {
            E220AirRate::Rate24001 => 0b00000000,
            E220AirRate::Rate24002 => 0b00000001,
            E220AirRate::Rate24003 => 0b00000010,
            E220AirRate::Rate4800 => 0b00000011,
            E220AirRate::Rate9600 => 0b00000100,
            E220AirRate::Rate19200 => 0b00000101,
            E220AirRate::Rate38400 => 0b00000110,
            E220AirRate::Rate62500 => 0b00000111,
        }
    }
}

impl Default for E220AirRate {
    fn default() -> (r: Self)
        ensures
            r == E220AirRate::Rate24003,
    {
        E220AirRate::Rate24003
    }
}

/// REG1: sub-packet length.
#[derive(PartialEq, Eq, Copy, Clone, Debug, Structural)]
pub enum E220SubPacket {
    Bytes200,
    Bytes128,
    Bytes64,
    Bytes32,
}

impl E220SubPacket {
    /// The bits of REG1 that select the sub-packet length.
    pub fn bits(&self) -> (r: u8)
        ensures
            r == (match *self {
                E220SubPacket::Bytes200 => 0b00000000u8,
                E220SubPacket::Bytes128 => 0b01000000u8,
                E220SubPacket::Bytes64 => 0b10000000u8,
                E220SubPacket::Bytes32 => 0b11000000u8,
            }),
    {
        match self {
            E220SubPacket::Bytes200 => 0b00000000,
            E220SubPacket::Bytes128 => 0b01000000,
            E220SubPacket::Bytes64 => 0b10000000,
            E220SubPacket::Bytes32 => 0b11000000,
        }
    }
}

impl Default for E220SubPacket {
    fn default() -> (r: Self)
        ensures
            r == E220SubPacket::Bytes200,
    {
        E220SubPacket::Bytes200
    }
}

/// REG1: ambient noise measurement.
#[derive(PartialEq, Eq, Copy, Clone, Debug, Structural)]
pub enum E220Noise {
    Disable,
    Enable,
}

impl E220Noise {
    /// The bit of REG1 that enables noise measurement.
    pub fn bits(&self) -> (r: u8)
        ensures
            r == (match *self {
                E220Noise::Disable => 0b00000000u8,
                E220Noise::Enable => 0b00100000u8,
            }),
    {
        match self {
            E220Noise::Disable => 0b00000000,
            E220Noise::Enable => 0b00100000,
        }
    }
}

impl Default for E220Noise {
    fn default() -> (r: Self)
        ensures
            r == E220Noise::Disable,
    {
        E220Noise::Disable
    }
}

/// REG1: transmit power.
#[derive(PartialEq, Eq, Copy, Clone, Debug, Structural)]
pub enum E220Power {
    Dbm22,
    Dbm17,
    Dbm13,
    Dbm10,
}

impl E220Power {
    /// The bits of REG1 that select the power.
    pub fn bits(&self) -> (r: u8)
        ensures
            r == (match *self {
                E220Power::Dbm22 => 0b00000000u8,
                E220Power::Dbm17 => 0b00000001u8,
                E220Power::Dbm13 => 0b00000010u8,
                E220Power::Dbm10 => 0b00000011u8,
            }),
    {
        match self {
            E220Power::Dbm22 => 0b00000000,
            E220Power::Dbm17 => 0b00000001,
            E220Power::Dbm13 => 0b00000010,
            E220Power::Dbm10 => 0b00000011,
        }
    }
}

impl Default for E220Power {
    fn default() -> (r: Self)
        ensures
            r == E220Power::Dbm22,
    {
        E220Power::Dbm22
    }
}

/// REG3: appending the RSSI byte to each received packet.
#[derive(PartialEq, Eq, Copy, Clone, Debug, Structural)]
pub enum E220Rssi {
    Disable,
    Enable,
}

impl E220Rssi {
    /// The bit of REG3 that enables the RSSI byte.
    pub fn bits(&self) -> (r: u8)
        ensures
            r == (match *self {
                E220Rssi::Disable => 0b00000000u8,
                E220Rssi::Enable => 0b10000000u8,
            }),
    {
        match self {
            E220Rssi::Disable => 0b00000000,
            E220Rssi::Enable => 0b10000000,
        }
    }
}

impl Default for E220Rssi {
    fn default() -> (r: Self)
        ensures
            r == E220Rssi::Disable,
    {
        E220Rssi::Disable
    }
}

/// REG3: transparent or fixed-address transmission.
#[derive(PartialEq, Eq, Copy, Clone, Debug, Structural)]
pub enum E220Transmission {
    Transparent,
    Fixed,
}

impl E220Transmission {
    /// The bit of REG3 that selects fixed-address transmission.
    pub fn bits(&self) -> (r: u8)
        ensures
            r == (match *self {
                E220Transmission::Transparent => 0b00000000u8,
                E220Transmission::Fixed => 0b01000000u8,
            }),
    {
        match self {
            E220Transmission::Transparent => 0b00000000,
            E220Transmission::Fixed => 0b01000000,
        }
    }
}

impl Default for E220Transmission {
    fn default() -> (r: Self)
        ensures
            r == E220Transmission::Transparent,
    {
        E220Transmission::Transparent
    }
}

/// REG3: listen before talk.
#[derive(PartialEq, Eq, Copy, Clone, Debug, Structural)]
pub enum E220LBT {
    Disable,
    Enable,
}

impl E220LBT {
    /// The bit of REG3 that enables listen before talk.
    pub fn bits(&self) -> (r: u8)
        ensures
            r == (match *self {
                E220LBT::Disable => 0b00000000u8,
                E220LBT::Enable => 0b00010000u8,
            }),
    {
        match self {
            E220LBT::Disable => 0b00000000,
            E220LBT::Enable => 0b00010000,
        }
    }
}

impl Default for E220LBT {
    fn default() -> (r: Self)
        ensures
            r == E220LBT::Disable,
    {
        E220LBT::Disable
    }
}

/// REG3: wake-on-radio cycle.
#[derive(PartialEq, Eq, Copy, Clone, Debug, Structural)]
pub enum E220WOR {
    Ms500,
    Ms1000,
    Ms1500,
    Ms2000,
    Ms2500,
    Ms3000,
    Ms3500,
    Ms4000,
}

impl E220WOR {
    /// The bits of REG3 that select the wake-on-radio cycle.
    pub fn bits(&self) -> (r: u8)
        ensures
            r == (match *self {
                E220WOR::Ms500 => 0b00000000u8,
                E220WOR::Ms1000 => 0b00000001u8,
                E220WOR::Ms1500 => 0b00000010u8,
                E220WOR::Ms2000 => 0b00000011u8,
                E220WOR::Ms2500 => 0b00000100u8,
                E220WOR::Ms3000 => 0b00000101u8,
                E220WOR::Ms3500 => 0b00000110u8,
                E220WOR::Ms4000 => 0b00000111u8,
            }),
    {
        match self {
            E220WOR::Ms500 => 0b00000000,
            E220WOR::Ms1000 => 0b00000001,
            E220WOR::Ms1500 => 0b00000010,
            E220WOR::Ms2000 => 0b00000011,
            E220WOR::Ms2500 => 0b00000100,
            E220WOR::Ms3000 => 0b00000101,
            E220WOR::Ms3500 => 0b00000110,
            E220WOR::Ms4000 => 0b00000111,
        }
    }
}

/// The request that reads register `reg`.
pub fn read_register_request(reg: E220Registers) -> (r: [u8; 3])
    ensures
        r@ == seq![READ_REGISTER_CODE, register_address(reg), 0x01u8],
{
    let r = [E220Command::ReadRegister.code(), reg.address(), 0x01];
    assert(r@ =~= seq![READ_REGISTER_CODE, register_address(reg), 0x01u8]);
    r
}

/// The request that writes `to` into register `reg` with `method`; reading
/// is not a way to write (`WrongCommand`).
pub fn set_register_request(method: E220Command, reg: E220Registers, to: u8) -> (r: Result<
    [u8; 4],
    Error,
>)
    ensures
        method == E220Command::ReadRegister ==> r == Err::<[u8; 4], Error>(Error::WrongCommand),
        method != E220Command::ReadRegister ==> (r matches Ok(req) && req@ == seq![
            command_code(method),
            register_address(reg),
            0x01u8,
            to,
        ]),
{
    if method == E220Command::ReadRegister {
        return Err(Error::WrongCommand);
    }
    let r = [method.code(), reg.address(), 0x01, to];
    assert(r@ =~= seq![command_code(method), register_address(reg), 0x01u8, to]);
    Ok(r)
}

/// Whether register `reg`, which now reads `old`, must be written to hold
/// `to`: unless it already does. The key registers always read 0 and are
/// always written.
pub fn register_needs_write(reg: E220Registers, old: u8, to: u8) -> (r: bool)
    ensures
        r == !(old == to && !is_crypt_register(reg)),
        reg != E220Registers::CRYPT_H && reg != E220Registers::CRYPT_L ==> (r <==> old != to),
        reg == E220Registers::CRYPT_H || reg == E220Registers::CRYPT_L ==> r,
{
    !((old == to) && !reg.is_crypt())
}

/// The outcome of a register write whose reply carried `value` as the
/// register's new content: it must be `to`, except that the key registers
/// read back 0.
pub fn set_register_outcome(reg: E220Registers, to: u8, value: u8) -> (r: Result<(), Error>)
    ensures
        r is Ok <==> (value == to || (is_crypt_register(reg) && value == 0)),
        r is Err ==> r == Err::<(), Error>(Error::WrongResp),
        reg != E220Registers::CRYPT_H && reg != E220Registers::CRYPT_L ==> (r is Ok <==> value
            == to),
        reg == E220Registers::CRYPT_H || reg == E220Registers::CRYPT_L ==> (r is Ok <==> (value
            == to || value == 0)),
{
    if value != to {
        if reg.is_crypt() && value == 0 {
            return Ok(());
        }
        return Err(Error::WrongResp);
    }
    Ok(())
}

/// The request for the channel's noise level.
pub fn noise_request() -> (r: [u8; 6])
    ensures
        r@ == seq![0xC0u8, 0xC1u8, 0xC2u8, 0xC3u8, 0x00u8, 0x01u8],
{
    let r = [0xC0, 0xC1, 0xC2, 0xC3, 0x00, 0x01];
    assert(r@ =~= seq![0xC0u8, 0xC1u8, 0xC2u8, 0xC3u8, 0x00u8, 0x01u8]);
    r
}

/// The header that goes before a packet sent to the module with address
/// `addh`, `addl` on this channel.
pub fn packet_header(addh: u8, addl: u8) -> (r: [u8; 3])
    ensures
        r@ == seq![addh, addl, RADIO_CHANNEL],
{
    let r = [addh, addl, RADIO_CHANNEL];
    assert(r@ =~= seq![addh, addl, RADIO_CHANNEL]);
    r
}

/// Whether the loop that throws away stale input from the module reads
/// (again), before each read: only while the module's AUX line is high, as
/// a low line announces a real packet; and, after a read (`last`), only if
/// that read returned something, as a timeout or an error ends it.
pub fn empty_rcv_continues(aux_high: bool, last: Option<ReadEvent>) -> (r: bool)
    ensures
        r == (aux_high && match last {
            Some(ReadEvent::Timeout) | Some(ReadEvent::Failed) => false,
            _ => true,
        }),
{
    match last {
        Some(ReadEvent::Timeout) => false,
        Some(ReadEvent::Failed) => false,
        _ => aux_high,
    }
}

/// What a reply reader does after one read.
#[derive(Debug, Clone, Copy, PartialEq, Eq, Structural)]
pub enum ReplyStep {
    /// The byte matched; read the next one.
    More,
    /// The reply is complete; this is the value it carries.
    Value(u8),
    /// The exchange failed.
    Fail(Error),
}

/// A reply of the module: three header bytes that must match, then one
/// value byte.
pub struct ReplyReader {
    header: [u8; 3],
    matched: usize,
}

/// The header that register replies start with.
pub open spec fn register_reply_header(reg: E220Registers) -> Seq<u8> {
    seq![READ_REGISTER_CODE, register_address(reg), 0x01u8]
}

/// The header that the noise reply starts with.
pub open spec fn noise_reply_header() -> Seq<u8> {
    seq![READ_REGISTER_CODE, 0x00u8, 0x01u8]
}

impl ReplyReader {
    /// The header bytes still expected.
    pub closed spec fn header(&self) -> Seq<u8> {
        self.header@
    }

    /// How many header bytes have matched.
    pub closed spec fn matched(&self) -> nat {
        self.matched as nat
    }

    pub closed spec fn wf(&self) -> bool {
        self.matched <= 3
    }

    /// A reader for the reply to reading or writing register `reg`.
    pub fn register(reg: E220Registers) -> (r: Self)
        ensures
            r.wf(),
            r.header() == register_reply_header(reg),
            r.matched() == 0,
    {
        let header = read_register_request(reg);
        ReplyReader { header, matched: 0 }
    }

    /// A reader for the reply to the noise request.
    pub fn noise() -> (r: Self)
        ensures
            r.wf(),
            r.header() == noise_reply_header(),
            r.matched() == 0,
    {
        let header = [0xC1, 0x00, 0x01];
        assert(header@ =~= noise_reply_header());
        ReplyReader { header, matched: 0 }
    }

    /// Takes the result of one byte read: an error ends the exchange with
    /// that error; a header byte must match (else `WrongResp`); the byte
    /// after the header is the value.
    pub fn feed(&mut self, read: Result<u8, Error>) -> (r: ReplyStep)
        requires
            old(self).wf(),
        ensures
            final(self).wf(),
            final(self).header() == old(self).header(),
            (final(self).matched(), r) == reply_step(old(self).header(), old(self).matched(), read),
    {
        match read {
            Err(e) => ReplyStep::Fail(e),
            Ok(b) => {
                if self.matched < 3 {
                    if b == self.header[self.matched] {
                        self.matched = self.matched + 1;
                        ReplyStep::More
                    } else {
                        ReplyStep::Fail(Error::WrongResp)
                    }
                } else {
                    ReplyStep::Value(b)
                }
            },
        }
    }
}

/// One step of reading a reply with `header` of which `matched` bytes have
/// matched: the new count and what to do.
pub open spec fn reply_step(header: Seq<u8>, matched: nat, read: Result<u8, Error>) -> (nat, ReplyStep) {
    match read {
        Err(e) => (matched, ReplyStep::Fail(e)),
        Ok(b) => if matched < 3 {
            if b == header[matched as int] {
                ((matched + 1) as nat, ReplyStep::More)
            } else {
                (matched, ReplyStep::Fail(Error::WrongResp))
            }
        } else {
            (matched, ReplyStep::Value(b))
        },
    }
}

/// A reply made of the expected three header bytes and a value byte gives
/// that value after its fourth byte; a header byte that differs fails the
/// exchange with `WrongResp` at once.
pub proof fn lemma_reply_reads_value(header: Seq<u8>, value: u8, i: nat, wrong: u8)
    requires
        header.len() == 3,
        i < 3,
        wrong != header[i as int],
    ensures
        reply_step(header, 0, Ok(header[0])) == (1nat, ReplyStep::More),
        reply_step(header, 1, Ok(header[1])) == (2nat, ReplyStep::More),
        reply_step(header, 2, Ok(header[2])) == (3nat, ReplyStep::More),
        reply_step(header, 3, Ok(value)) == (3nat, ReplyStep::Value(value)),
        reply_step(header, i, Ok(wrong)) == (i, ReplyStep::Fail(Error::WrongResp)),
{
}

/// Where a register write stands.
#[derive(Debug, Clone, Copy, PartialEq, Eq, Structural)]
pub enum WritePhase {
    /// Nothing done yet.
    Start,
    /// The register's current content is being read.
    Reading,
    /// The write request has been sent; its reply is awaited.
    Writing,
    /// The write is over.
    Done,
}

/// What a register write asks for next.
#[derive(Debug, Clone, Copy, PartialEq, Eq)]
pub enum RegisterStep {
    /// Read the register (`read_register_request`, then its reply).
    Read,
    /// Send this write request, then read its reply.
    Write([u8; 4]),
    /// The write is over, with this result.
    Finished(Result<(), Error>),
}

/// Writing one register: read it first and leave it alone when it already
/// holds the value (key registers excepted), else write it and check that the
/// reply carries the value. The first error ends the exchange.
pub struct RegisterWrite {
    method: E220Command,
    reg: E220Registers,
    to: u8,
    phase: WritePhase,
}

impl RegisterWrite {
    /// A write under way is never a read command.
    #[verifier::type_invariant]
    spec fn writes_with_a_write_command(self) -> bool {
        (self.phase == WritePhase::Reading || self.phase == WritePhase::Writing) ==> self.method
            != E220Command::ReadRegister
    }

    pub closed spec fn phase(&self) -> WritePhase {
        self.phase
    }

    pub closed spec fn method(&self) -> E220Command {
        self.method
    }

    pub closed spec fn reg(&self) -> E220Registers {
        self.reg
    }

    pub closed spec fn to(&self) -> u8 {
        self.to
    }

    /// A write of `to` into `reg` with `method`, not started.
    pub fn new(method: E220Command, reg: E220Registers, to: u8) -> (r: Self)
        ensures
            r.phase() == WritePhase::Start,
            r.method() == method,
            r.reg() == reg,
            r.to() == to,
    {
        RegisterWrite { method, reg, to, phase: WritePhase::Start }
    }

    /// The first step: reading is not a way to write (`WrongCommand`);
    /// otherwise the register is read first.
    pub fn start(&mut self) -> (r: RegisterStep)
        requires
            old(self).phase() == WritePhase::Start,
        ensures
            final(self).method() == old(self).method(),
            final(self).reg() == old(self).reg(),
            final(self).to() == old(self).to(),
            old(self).method() == E220Command::ReadRegister ==> r == RegisterStep::Finished(
                Err(Error::WrongCommand),
            ) && final(self).phase() == WritePhase::Done,
            old(self).method() != E220Command::ReadRegister ==> r == RegisterStep::Read
                && final(self).phase() == WritePhase::Reading,
    {
        if self.method == E220Command::ReadRegister {
            self.phase = WritePhase::Done;
            RegisterStep::Finished(Err(Error::WrongCommand))
        } else {
            self.phase = WritePhase::Reading;
            RegisterStep::Read
        }
    }

    /// Takes the result of reading the register: an error ends the write
    /// with it; a register that needs no write ends it with `Ok`; otherwise
    /// the write request is next.
    pub fn read_done(&mut self, read: Result<u8, Error>) -> (r: RegisterStep)
        requires
            old(self).phase() == WritePhase::Reading,
        ensures
            final(self).method() == old(self).method(),
            final(self).reg() == old(self).reg(),
            final(self).to() == old(self).to(),
            match read {
                Err(e) => r == RegisterStep::Finished(Err::<(), Error>(e)) && final(self).phase()
                    == WritePhase::Done,
                Ok(old_value) => if old_value == old(self).to() && !is_crypt_register(
                    old(self).reg(),
                ) {
                    r == RegisterStep::Finished(Ok(())) && final(self).phase() == WritePhase::Done
                } else {
                    final(self).phase() == WritePhase::Writing && (r matches RegisterStep::Write(
                        req,
                    ) && req@ == seq![
                        command_code(old(self).method()),
                        register_address(old(self).reg()),
                        0x01u8,
                        old(self).to(),
                    ])
                },
            },
    {
        proof {
            use_type_invariant(&*self);
        }
        match read {
            Err(e) => {
                self.phase = WritePhase::Done;
                RegisterStep::Finished(Err(e))
            },
            Ok(old_value) => {
                if !register_needs_write(self.reg, old_value, self.to) {
                    self.phase = WritePhase::Done;
                    RegisterStep::Finished(Ok(()))
                } else {
                    match set_register_request(self.method, self.reg, self.to) {
                        Ok(req) => {
                            self.phase = WritePhase::Writing;
                            RegisterStep::Write(req)
                        },
                        Err(e) => {
                            self.phase = WritePhase::Done;
                            RegisterStep::Finished(Err(e))
                        },
                    }
                }
            },
        }
    }

    /// Takes the reply to the write request: an error ends the write with it;
    /// otherwise the value it carries decides (`set_register_outcome`).
    pub fn write_done(&mut self, reply: Result<u8, Error>) -> (r: RegisterStep)
        requires
            old(self).phase() == WritePhase::Writing,
        ensures
            final(self).method() == old(self).method(),
            final(self).reg() == old(self).reg(),
            final(self).to() == old(self).to(),
            final(self).phase() == WritePhase::Done,
            match reply {
                Err(e) => r == RegisterStep::Finished(Err::<(), Error>(e)),
                Ok(v) => r == RegisterStep::Finished(
                    if v == old(self).to() || (is_crypt_register(old(self).reg()) && v == 0) {
                        Ok(())
                    } else {
                        Err(Error::WrongResp)
                    },
                ),
            },
    {
        self.phase = WritePhase::Done;
        match reply {
            Err(e) => RegisterStep::Finished(Err(e)),
            Ok(v) => match set_register_outcome(self.reg, self.to, v) {
                Ok(_) => RegisterStep::Finished(Ok(())),
                Err(e) => RegisterStep::Finished(Err(e)),
            },
        }
    }
}

/// What the start-up configuration asks for next.
#[derive(Debug, Clone, Copy, PartialEq, Eq)]
pub enum InitStep {
    /// Write this value into this register (a `RegisterWrite` with
    /// `SetRegister`).
    Write(E220Registers, u8),
    /// The configuration is over, with this result.
    Finished(Result<(), Error>),
}

/// The module's start-up configuration: the register writes of `init_plan`
/// in order, each after the one before succeeded; the first failure ends it.
pub struct InitSequence {
    plan: [(E220Registers, u8); 8],
    next: usize,
}

impl InitSequence {
    /// The writes, in order.
    pub closed spec fn plan(&self) -> Seq<(E220Registers, u8)> {
        self.plan@
    }

    /// The index in the plan of the write under way (8 when it is over).
    pub closed spec fn position(&self) -> nat {
        self.next as nat
    }

    /// The configuration of a module with address `addh`, `addl`.
    pub fn new(addh: u8, addl: u8) -> (r: Self)
        ensures
            r.plan() == init_plan(addh, addl),
            r.position() == 0,
    {
        InitSequence { plan: init_registers(addh, addl), next: 0 }
    }

    /// The first write.
    pub fn start(&self) -> (r: InitStep)
        requires
            self.position() == 0,
            self.plan().len() == 8,
        ensures
            r == InitStep::Write(self.plan()[0].0, self.plan()[0].1),
    {
        let (reg, value) = self.plan[0];
        InitStep::Write(reg, value)
    }

    /// Takes the result of the write under way: a failure ends the
    /// configuration with it; after the last write it ends with `Ok`;
    /// otherwise the next write of the plan follows.
    pub fn written(&mut self, result: Result<(), Error>) -> (r: InitStep)
        requires
            old(self).position() < 8,
            old(self).plan().len() == 8,
        ensures
            final(self).plan() == old(self).plan(),
            match result {
                Err(e) => r == InitStep::Finished(Err(e)) && final(self).position() == 8,
                Ok(_) => if old(self).position() + 1 == 8 {
                    r == InitStep::Finished(Ok(())) && final(self).position() == 8
                } else {
                    final(self).position() == old(self).position() + 1 && r == InitStep::Write(
                        old(self).plan()[old(self).position() + 1int].0,
                        old(self).plan()[old(self).position() + 1int].1,
                    )
                },
            },
    {
        match result {
            Err(e) => {
                self.next = 8;
                InitStep::Finished(Err(e))
            },
            Ok(_) => {
                if self.next + 1 == 8 {
                    self.next = 8;
                    InitStep::Finished(Ok(()))
                } else {
                    self.next = self.next + 1;
                    let (reg, value) = self.plan[self.next];
                    InitStep::Write(reg, value)
                }
            },
        }
    }
}

/// How many times start-up configuration is tried before the station stops.
pub const INIT_ATTEMPTS: u32 = 10;

/// After attempt `count` (counted from 1) of the start-up configuration
/// failed: the number of the next attempt, or `None` when all
/// `INIT_ATTEMPTS` have failed and the station stops.
pub fn next_init_attempt(count: u32) -> (r: Option<u32>)
    requires
        count <= INIT_ATTEMPTS,
    ensures
        r == (if count + 1 > INIT_ATTEMPTS {
            None::<u32>
        } else {
            Some((count + 1) as u32)
        }),
{
    let next = count + 1;
    if next > INIT_ATTEMPTS {
        None
    } else {
        Some(next)
    }
}

/// What reading the noise level asks for next.
#[derive(Debug, Clone, Copy, PartialEq, Eq)]
pub enum RetryStep {
    /// Make an attempt.
    Try,
    /// Over, with this result.
    Done(Result<u8, Error>),
}

/// Reading the noise level in up to `attempts` attempts: the first success
/// gives the level; when all attempts fail, `AttemptsOvf`.
pub struct NoiseAttempts {
    made: u8,
    attempts: u8,
}

impl NoiseAttempts {
    /// Failed attempts so far.
    pub closed spec fn made(&self) -> u8 {
        self.made
    }

    /// Attempts allowed.
    pub closed spec fn attempts(&self) -> u8 {
        self.attempts
    }

    pub fn new(attempts: u8) -> (r: Self)
        ensures
            r.made() == 0,
            r.attempts() == attempts,
    {
        NoiseAttempts { made: 0, attempts }
    }

    /// The first step: an attempt, unless none is allowed.
    pub fn start(&self) -> (r: RetryStep)
        requires
            self.made() == 0,
        ensures
            r == (if self.attempts() == 0 {
                RetryStep::Done(Err(Error::AttemptsOvf))
            } else {
                RetryStep::Try
            }),
    {
        if self.attempts == 0 {
            RetryStep::Done(Err(Error::AttemptsOvf))
        } else {
            RetryStep::Try
        }
    }

    /// Takes the result of an attempt: a level ends with it; a failure leads
    /// to another attempt while any is left, else to `AttemptsOvf`.
    pub fn outcome(&mut self, result: Result<u8, Error>) -> (r: RetryStep)
        requires
            old(self).made() < old(self).attempts(),
        ensures
            final(self).attempts() == old(self).attempts(),
            final(self).made() <= final(self).attempts(),
            match result {
                Ok(x) => r == RetryStep::Done(Ok(x)) && final(self).made() == old(self).made(),
                Err(_) => final(self).made() == old(self).made() + 1 && r == (if old(self).made()
                    + 1 < old(self).attempts() {
                    RetryStep::Try
                } else {
                    RetryStep::Done(Err(Error::AttemptsOvf))
                }),
            },
    {
        match result {
            Ok(x) => RetryStep::Done(Ok(x)),
            Err(_) => {
                self.made = self.made + 1;
                if self.made < self.attempts {
                    RetryStep::Try
                } else {
                    RetryStep::Done(Err(Error::AttemptsOvf))
                }
            },
        }
    }
}

/// What the receive loop of a radio packet does with one read outcome, given
/// that `held` bytes are stored and whether the module's AUX line is high:
/// a timeout ends the packet once AUX is high again (else it waits on), an
/// error ends it, and single bytes are stored up to `RX_PACKET_LIMIT`.
pub fn packet_rx_action(held: usize, ev: ReadEvent, aux_high: bool) -> (r: RxAction)
    ensures
        r == (match ev {
            ReadEvent::Timeout => if aux_high {
                RxAction::Stop
            } else {
                RxAction::Skip
            },
            ReadEvent::Failed => RxAction::Stop,
            ReadEvent::Data(count, b) => if held < RX_PACKET_LIMIT && count == 1 {
                RxAction::Store(b)
            } else {
                RxAction::Stop
            },
        }),
{
    match ev {
        ReadEvent::Timeout => {
            if aux_high {
                RxAction::Stop
            } else {
                RxAction::Skip
            }
        },
        ReadEvent::Failed => RxAction::Stop,
        ReadEvent::Data(count, b) => {
            if held < RX_PACKET_LIMIT && count == 1 {
                RxAction::Store(b)
            } else {
                RxAction::Stop
            }
        },
    }
}

/// The registers that `module_init` writes, in order, with their values:
/// the module address `addh`, `addl`; REG0 with 9600 baud, 8N1 and the
/// default air rate; REG1 with 128-byte sub-packets, noise measurement on
/// and the lowest power (10 dBm); REG2 with the channel; REG3 with fixed
/// transmission, RSSI
/// byte on, 500 ms wake-on-radio and no listen-before-talk; then the key.
pub open spec fn init_plan(addh: u8, addl: u8) -> Seq<(E220Registers, u8)> {
    seq![
        (E220Registers::ADDH, addh),
        (E220Registers::ADDL, addl),
        (E220Registers::REG0, 0x62u8),
        (E220Registers::REG1, 0x63u8),
        (E220Registers::REG2, RADIO_CHANNEL),
        (E220Registers::REG3, 0xC0u8),
        (E220Registers::CRYPT_H, CRYPT_H),
        (E220Registers::CRYPT_L, CRYPT_L),
    ]
}

/// The register writes of the module's configuration after start-up, in order.
pub fn init_registers(addh: u8, addl: u8) -> (r: [(E220Registers, u8); 8])
    ensures
        r@ == init_plan(addh, addl),
{
    let reg0 = E220SerialRate::default().bits() | E220SerialParity::default().bits()
        | E220AirRate::default().bits();
    let reg1 = E220SubPacket::Bytes128.bits() | E220Noise::Enable.bits() | E220Power::Dbm10.bits();
    let reg3 = E220Transmission::Fixed.bits() | E220Rssi::Enable.bits() | E220WOR::Ms500.bits()
        | E220LBT::default().bits();
    assert(0x60u8 | 0x00u8 | 0x02u8 == 0x62u8) by (bit_vector);
    assert(0x40u8 | 0x20u8 | 0x03u8 == 0x63u8) by (bit_vector);
    assert(0x40u8 | 0x80u8 | 0x00u8 | 0x00u8 == 0xC0u8) by (bit_vector);
    let plan = [
        (E220Registers::ADDH, addh),
        (E220Registers::ADDL, addl),
        (E220Registers::REG0, reg0),
        (E220Registers::REG1, reg1),
        (E220Registers::REG2, RADIO_CHANNEL),
        (E220Registers::REG3, reg3),
        (E220Registers::CRYPT_H, CRYPT_H),
        (E220Registers::CRYPT_L, CRYPT_L),
    ];
    assert(plan@ =~= init_plan(addh, addl));
    plan
}

/// An RSSI byte of the module in dBm: `rssi - 256`.
pub fn rssi_to_dbm(rssi: u8) -> (r: i16)
    ensures
        r == rssi - 256,
{
    -((256u16 - (rssi as u16)) as i16)
}

} // verus!
