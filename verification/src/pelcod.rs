//! The subset of the Pelco-D protocol that the rotator needs: seven-byte
//! commands with an additive checksum, speeds and the two angles.
use vstd::prelude::*;

verus! {

/// Length of a Pelco-D command message.
pub const COMMAND_SIZE: usize = 7;

/// First byte of every Pelco-D message.
pub const SYNC_BYTE: u8 = 0xFF;

/// Largest speed value that Pelco-D accepts.
pub const MAX_SPEED: u8 = 0x3F;

/// Largest azimuth, in hundredths of a degree (360 degrees).
pub const MAX_AZ: u16 = 36000;

/// Largest elevation, in hundredths of a degree (90 degrees).
pub const MAX_EL: u16 = 9000;

/// Sum of a byte sequence, as a natural number.
pub open spec fn byte_sum(s: Seq<u8>) -> nat
    decreases s.len(),
{
    if s.len() == 0 {
        0
    } else {
        byte_sum(s.drop_last()) + (s.last() as nat)
    }
}

/// The Pelco-D checksum: the sum of the bytes modulo 256.
pub open spec fn spec_checksum(s: Seq<u8>) -> u8 {
    (byte_sum(s) % 256) as u8
}

/// The seven bytes of a Pelco-D command with the given fields.
pub open spec fn command_bytes(address: u8, cmd2: u8, data1: u8, data2: u8) -> Seq<u8> {
    seq![
        SYNC_BYTE,
        address,
        0u8,
        cmd2,
        data1,
        data2,
        spec_checksum(seq![address, 0u8, cmd2, data1, data2]),
    ]
}

/// High byte of a 16-bit value, as Pelco-D sends it first.
pub open spec fn high_byte(v: u16) -> u8 {
    (v / 256) as u8
}

/// Low byte of a 16-bit value.
pub open spec fn low_byte(v: u16) -> u8 {
    (v % 256) as u8
}

/// The 16-bit value with high byte `hi` and low byte `lo`.
pub open spec fn u16_of_bytes(hi: u8, lo: u8) -> u16 {
    (hi * 256 + lo) as u16
}

/// Every Pelco-D command is seven bytes that start with `SYNC_BYTE` and end
/// with the checksum of the five bytes between.
pub proof fn lemma_command_well_formed(address: u8, cmd2: u8, data1: u8, data2: u8)
    ensures
        command_bytes(address, cmd2, data1, data2).len() == COMMAND_SIZE,
        command_bytes(address, cmd2, data1, data2)[0] == SYNC_BYTE,
        command_bytes(address, cmd2, data1, data2)[6] == spec_checksum(
            command_bytes(address, cmd2, data1, data2).subrange(1, COMMAND_SIZE - 1),
        ),
{
    let c = command_bytes(address, cmd2, data1, data2);
    assert(c.subrange(1, COMMAND_SIZE - 1) =~= seq![address, 0u8, cmd2, data1, data2]);
}

/// An angle split into its high and low byte, as `set_pan` and `set_tilt`
/// send it, is the same angle when put back together.
pub proof fn lemma_angle_bytes_roundtrip(v: u16)
    ensures
        u16_of_bytes(high_byte(v), low_byte(v)) == v,
{
}

/// Checksum algorithm used by Pelco-D: the sum of `data` modulo 256.
pub fn checksum(data: &[u8]) -> (r: u8)
    requires
        data@.len() <= 16843009,
    ensures
        r == spec_checksum(data@),
{
    let mut s: u32 = 0;
    let mut i: usize = 0;
    while i < data.len()
        invariant
            i <= data@.len(),
            data@.len() <= 16843009,
            s == byte_sum(data@.take(i as int)),
            s <= 255 * i,
        decreases data@.len() - i,
    {
        assert(data@.take(i + 1).drop_last() =~= data@.take(i as int));
        s = s + data[i] as u32;
        i = i + 1;
    }
    assert(data@.take(i as int) =~= data@);
    assert(s & 0xff == s % 256) by (bit_vector);
    (s & 0xff) as u8
}

/// The "command 2" byte of a Pelco-D message, as a set of flag bits.
#[derive(Clone, Copy, PartialEq, Eq, Debug)]
pub struct Command2(u8);

impl View for Command2 {
    type V = u8;

    closed spec fn view(&self) -> u8 {
        self.0
    }
}

impl Command2 {
    /// No flag set.
    pub fn empty() -> (r: Command2)
        ensures
            r@ == 0,
    {
        Command2(0)
    }

    pub fn down() -> (r: Command2)
        ensures
            r@ == 0x10,
    {
        Command2(0x10)
    }

    pub fn up() -> (r: Command2)
        ensures
            r@ == 0x08,
    {
        Command2(0x08)
    }

    pub fn left() -> (r: Command2)
        ensures
            r@ == 0x04,
    {
        Command2(0x04)
    }

    pub fn right() -> (r: Command2)
        ensures
            r@ == 0x02,
    {
        Command2(0x02)
    }

    pub fn query_pan() -> (r: Command2)
        ensures
            r@ == 0x51,
    {
        Command2(0x51)
    }

    pub fn query_tilt() -> (r: Command2)
        ensures
            r@ == 0x53,
    {
        Command2(0x53)
    }

    pub fn set_pan() -> (r: Command2)
        ensures
            r@ == 0x4B,
    {
        Command2(0x4B)
    }

    pub fn set_tilt() -> (r: Command2)
        ensures
            r@ == 0x4D,
    {
        Command2(0x4D)
    }

    /// The raw byte.
    pub fn bits(&self) -> (r: u8)
        ensures
            r == self@,
    {
        self.0
    }

    /// Both sets of flags together.
    pub fn union(self, other: Command2) -> (r: Command2)
        ensures
            r@ == self@ | other@,
    {
        Command2(self.0 | other.0)
    }
}

/// Reply code of the rotator to a pan position query.
pub const QUERY_PAN_RESPONSE: u8 = 0x59;

/// Reply code of the rotator to a tilt position query.
pub const QUERY_TILT_RESPONSE: u8 = 0x5B;

/// A seven-byte Pelco-D command with its checksum filled in.
#[derive(Clone, Copy, PartialEq, Debug)]
pub struct Command([u8; COMMAND_SIZE]);

impl View for Command {
    type V = Seq<u8>;

    closed spec fn view(&self) -> Seq<u8> {
        self.0@
    }
}

impl Command {
    fn new(address: u8, cmd2: Command2, data1: u8, data2: u8) -> (r: Command)
        ensures
            r@ == command_bytes(address, cmd2@, data1, data2),
    {
        let mut msg = Command([SYNC_BYTE, address, 0x00, cmd2.bits(), data1, data2, 0]);
        let ghost before = msg@;
        msg.fill_checksum();
        assert(before.subrange(1, COMMAND_SIZE - 1) =~= seq![address, 0u8, cmd2@, data1, data2]);
        assert(msg@ =~= command_bytes(address, cmd2@, data1, data2));
        msg
    }

    /// Fills the last byte with the checksum of bytes 1 to 5.
    fn fill_checksum(&mut self)
        ensures
            final(self)@ == old(self)@.update(
                COMMAND_SIZE - 1,
                spec_checksum(old(self)@.subrange(1, COMMAND_SIZE - 1)),
            ),
    {
        let c = checksum(&self.0[1..COMMAND_SIZE - 1]);
        self.0[COMMAND_SIZE - 1] = c;
    }

    pub fn pan_left(addr: u8, speed: &PelcoSpeed) -> (r: Command)
        ensures
            r@ == command_bytes(addr, 0x04, speed@, 0),
    {
        let cmd = Command::new(addr, Command2::left(), u8::from(speed), 0);
        cmd
    }

    pub fn pan_right(addr: u8, speed: &PelcoSpeed) -> (r: Command)
        ensures
            r@ == command_bytes(addr, 0x02, speed@, 0),
    {
        let cmd = Command::new(addr, Command2::right(), u8::from(speed), 0);
        cmd
    }

    pub fn pan_stop(addr: u8) -> (r: Command)
        ensures
            r@ == command_bytes(addr, 0, 0x12, 0),
    {
        let cmd = Command::new(addr, Command2::empty(), 0x12, 0);
        cmd
    }

    pub fn tilt_up(addr: u8, speed: &PelcoSpeed) -> (r: Command)
        ensures
            r@ == command_bytes(addr, 0x08, 0, speed@),
    {
        let cmd = Command::new(addr, Command2::up(), 0, u8::from(speed));
        cmd
    }

    pub fn tilt_down(addr: u8, speed: &PelcoSpeed) -> (r: Command)
        ensures
            r@ == command_bytes(addr, 0x10, 0, speed@),
    {
        let cmd = Command::new(addr, Command2::down(), 0, u8::from(speed));
        cmd
    }

    pub fn tilt_stop(addr: u8) -> (r: Command)
        ensures
            r@ == command_bytes(addr, 0, 0, 0x12),
    {
        let cmd = Command::new(addr, Command2::empty(), 0, 0x12);
        cmd
    }

    pub fn pan_right_tilt_up(addr: u8, pan_speed: &PelcoSpeed, tilt_speed: &PelcoSpeed) -> (r:
        Command)
        ensures
            r@ == command_bytes(addr, 0x0A, pan_speed@, tilt_speed@),
    {
        let flags = Command2::right().union(Command2::up());
        assert(0x02u8 | 0x08u8 == 0x0Au8) by (bit_vector);
        let cmd = Command::new(addr, flags, u8::from(pan_speed), u8::from(tilt_speed));
        cmd
    }

    pub fn pan_right_tilt_down(addr: u8, pan_speed: &PelcoSpeed, tilt_speed: &PelcoSpeed) -> (r:
        Command)
        ensures
            r@ == command_bytes(addr, 0x12, pan_speed@, tilt_speed@),
    {
        let flags = Command2::right().union(Command2::down());
        assert(0x02u8 | 0x10u8 == 0x12u8) by (bit_vector);
        let cmd = Command::new(addr, flags, u8::from(pan_speed), u8::from(tilt_speed));
        cmd
    }

    pub fn pan_left_tilt_up(addr: u8, pan_speed: &PelcoSpeed, tilt_speed: &PelcoSpeed) -> (r:
        Command)
        ensures
            r@ == command_bytes(addr, 0x0C, pan_speed@, tilt_speed@),
    {
        let flags = Command2::left().union(Command2::up());
        assert(0x04u8 | 0x08u8 == 0x0Cu8) by (bit_vector);
        let cmd = Command::new(addr, flags, u8::from(pan_speed), u8::from(tilt_speed));
        cmd
    }

    pub fn pan_left_tilt_down(addr: u8, pan_speed: &PelcoSpeed, tilt_speed: &PelcoSpeed) -> (r:
        Command)
        ensures
            r@ == command_bytes(addr, 0x14, pan_speed@, tilt_speed@),
    {
        let flags = Command2::left().union(Command2::down());
        assert(0x04u8 | 0x10u8 == 0x14u8) by (bit_vector);
        let cmd = Command::new(addr, flags, u8::from(pan_speed), u8::from(tilt_speed));
        cmd
    }

    pub fn query_pan_position(addr: u8) -> (r: Command)
        ensures
            r@ == command_bytes(addr, 0x51, 0, 0),
    {
        let cmd = Command::new(addr, Command2::query_pan(), 0, 0);
        cmd
    }

    pub fn query_tilt_position(addr: u8) -> (r: Command)
        ensures
            r@ == command_bytes(addr, 0x53, 0, 0),
    {
        let cmd = Command::new(addr, Command2::query_tilt(), 0, 0);
        cmd
    }

    pub fn set_pan(addr: u8, ang: &AzAngle) -> (r: Command)
        ensures
            r@ == command_bytes(addr, 0x4B, high_byte(ang.0), low_byte(ang.0)),
    {
        let data: u16 = u16::from(ang);
        let data1 = (data >> 8) as u8;
        let data2 = (data & 0xFF) as u8;
        assert(data >> 8 == data / 256 && data & 0xFF == data % 256) by (bit_vector);
        let cmd = Command::new(addr, Command2::set_pan(), data1, data2);
        cmd
    }

    pub fn set_tilt(addr: u8, ang: &ElAngle) -> (r: Command)
        ensures
            r@ == command_bytes(addr, 0x4D, high_byte(ang.0), low_byte(ang.0)),
    {
        let data: u16 = u16::from(ang);
        let data1 = (data >> 8) as u8;
        let data2 = (data & 0xFF) as u8;
        assert(data >> 8 == data / 256 && data & 0xFF == data % 256) by (bit_vector);
        let cmd = Command::new(addr, Command2::set_tilt(), data1, data2);
        cmd
    }
}

impl AsRef<[u8]> for Command {
    fn as_ref(&self) -> (r: &[u8])
        ensures
            r@ == self@,
    {
        self.0.as_slice()
    }
}

/// A Pelco-D speed, from 0 to `MAX_SPEED`.
#[derive(Debug, Clone, Copy, PartialEq)]
pub struct PelcoSpeed(u8);

impl View for PelcoSpeed {
    type V = u8;

    closed spec fn view(&self) -> u8 {
        self.0
    }
}

impl PelcoSpeed {
    #[verifier::type_invariant]
    spec fn within_max(self) -> bool {
        self.0 <= MAX_SPEED
    }

    /// Half the speed, rounded down.
    pub fn half(&self) -> (r: Self)
        ensures
            r@ == self@ / 2,
    {
        proof {
            use_type_invariant(self);
        }
        let v = self.0;
        let half = v >> 1;
        assert(v >> 1 == v / 2) by (bit_vector);
        PelcoSpeed(half)
    }
}

impl Default for PelcoSpeed {
    fn default() -> (r: Self)
        ensures
            r@ == 0,
    {
        PelcoSpeed(0)
    }
}

impl TryFrom<u8> for PelcoSpeed {
    type Error = ();

    fn try_from(val: u8) -> (r: Result<Self, Self::Error>)
        ensures
            r is Ok <==> val <= MAX_SPEED,
            r matches Ok(s) ==> s@ == val,
    {
        if val <= MAX_SPEED {
            Ok(PelcoSpeed(val))
        } else {
            Err(())
        }
    }
}

impl vstd::std_specs::convert::TryFromSpecImpl<u8> for PelcoSpeed {
    open spec fn obeys_try_from_spec() -> bool {
        true
    }

    closed spec fn try_from_spec(v: u8) -> Result<Self, Self::Error> {
        if v <= MAX_SPEED {
            Ok(PelcoSpeed(v))
        } else {
            Err(())
        }
    }
}

impl AsRef<u8> for PelcoSpeed {
    fn as_ref(&self) -> (r: &u8)
        ensures
            *r == self@,
    {
        &self.0
    }
}

impl From<&PelcoSpeed> for u8 {
    fn from(val: &PelcoSpeed) -> (r: u8)
        ensures
            r == val@,
            r <= MAX_SPEED,
    {
        proof {
            use_type_invariant(val);
        }
        val.0
    }
}

impl vstd::std_specs::convert::FromSpecImpl<&PelcoSpeed> for u8 {
    open spec fn obeys_from_spec() -> bool {
        true
    }

    open spec fn from_spec(v: &PelcoSpeed) -> u8 {
        v@
    }
}

/// Azimuth in hundredths of a degree, from 0 to `MAX_AZ` when built by `try_from`.
#[derive(Debug, Clone, Copy, PartialEq, PartialOrd)]
pub struct AzAngle(pub u16);

impl Default for AzAngle {
    fn default() -> (r: Self)
        ensures
            r.0 == 0,
    {
        AzAngle(0)
    }
}

impl TryFrom<u16> for AzAngle {
    type Error = ();

    fn try_from(val: u16) -> (r: Result<Self, Self::Error>)
        ensures
            r == (if val <= MAX_AZ {
                Ok::<AzAngle, ()>(AzAngle(val))
            } else {
                Err::<AzAngle, ()>(())
            }),
    {
        if val <= MAX_AZ {
            Ok(AzAngle(val))
        } else {
            Err(())
        }
    }
}

impl vstd::std_specs::convert::TryFromSpecImpl<u16> for AzAngle {
    open spec fn obeys_try_from_spec() -> bool {
        true
    }

    open spec fn try_from_spec(v: u16) -> Result<Self, Self::Error> {
        if v <= MAX_AZ {
            Ok(AzAngle(v))
        } else {
            Err(())
        }
    }
}

impl AzAngle {
    /// The azimuth in whole degrees, as the display shows it.
    pub fn whole_degrees(&self) -> (r: u16)
        ensures
            r == self.0 / 100,
    {
        self.0 / 100
    }
}

impl AsRef<u16> for AzAngle {
    fn as_ref(&self) -> (r: &u16)
        ensures
            *r == self.0,
    {
        &self.0
    }
}

impl From<&AzAngle> for u16 {
    fn from(val: &AzAngle) -> (r: u16)
        ensures
            r == val.0,
    {
        val.0
    }
}

impl vstd::std_specs::convert::FromSpecImpl<&AzAngle> for u16 {
    open spec fn obeys_from_spec() -> bool {
        true
    }

    open spec fn from_spec(v: &AzAngle) -> u16 {
        v.0
    }
}

/// Elevation in hundredths of a degree, from 0 to `MAX_EL` when built by `try_from`.
#[derive(Debug, Clone, Copy, PartialEq, PartialOrd)]
pub struct ElAngle(pub u16);

impl Default for ElAngle {
    fn default() -> (r: Self)
        ensures
            r.0 == 0,
    {
        ElAngle(0)
    }
}

impl TryFrom<u16> for ElAngle {
    type Error = ();

    fn try_from(val: u16) -> (r: Result<Self, Self::Error>)
        ensures
            r == (if val <= MAX_EL {
                Ok::<ElAngle, ()>(ElAngle(val))
            } else {
                Err::<ElAngle, ()>(())
            }),
    {
        if val <= MAX_EL {
            Ok(ElAngle(val))
        } else {
            Err(())
        }
    }
}

impl vstd::std_specs::convert::TryFromSpecImpl<u16> for ElAngle {
    open spec fn obeys_try_from_spec() -> bool {
        true
    }

    open spec fn try_from_spec(v: u16) -> Result<Self, Self::Error> {
        if v <= MAX_EL {
            Ok(ElAngle(v))
        } else {
            Err(())
        }
    }
}

impl ElAngle {
    /// The elevation in whole degrees, as the display shows it.
    pub fn whole_degrees(&self) -> (r: u16)
        ensures
            r == self.0 / 100,
    {
        self.0 / 100
    }
}

impl AsRef<u16> for ElAngle {
    fn as_ref(&self) -> (r: &u16)
        ensures
            *r == self.0,
    {
        &self.0
    }
}

impl From<&ElAngle> for u16 {
    fn from(val: &ElAngle) -> (r: u16)
        ensures
            r == val.0,
    {
        val.0
    }
}

impl vstd::std_specs::convert::FromSpecImpl<&ElAngle> for u16 {
    open spec fn obeys_from_spec() -> bool {
        true
    }

    open spec fn from_spec(v: &ElAngle) -> u16 {
        v.0
    }
}

} // verus!
