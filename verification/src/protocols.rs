//! The radio protocol between the master station and this rotator: command
//! packets that arrive by radio, and the answer packets sent back.
//!
//! A command packet (12 bytes, as the radio module hands it over):
//! `0xFF`, sequence number (u32, big endian), azimuth (u16, big endian),
//! elevation (u16, big endian), relay bits, CRC-8/LTE of the 10 bytes before,
//! and the signal RSSI that the radio module appends.
//!
//! An answer packet (13 bytes): `0xFF`, sequence number, current azimuth,
//! current elevation, signal RSSI, noise RSSI, relay bits, and the CRC-8/LTE
//! of the 12 bytes before.
use vstd::prelude::*;

use crate::answer::{
    answer_as_slice, answer_contents, ANSWER_CAPACITY, answer_extend_from_slice, answer_new, answer_push,
    AnswerPacket,
};
use crate::errors::Error;
use crate::pelcod::{high_byte, low_byte, AzAngle, ElAngle, MAX_AZ, MAX_EL};
use crate::relays::{Relays, RELAY_ALL};

verus! {

/// Length of a command packet as received.
pub const COMMAND_PACKET_LEN: usize = 12;

/// How far ahead of the current sequence number a new one may be.
pub const SEQ_WINDOW: u32 = 100;

/// The CRC-8/LTE register after one more bit: shifted left, with the
/// polynomial 0x9B added when the bit shifted out was set.
pub open spec fn crc8_shift(c: u8) -> u8 {
    if c & 0x80u8 != 0 {
        ((c << 1u8) ^ 0x9Bu8) as u8
    } else {
        (c << 1u8) as u8
    }
}

/// The CRC-8/LTE register after one more byte has been added into it.
pub open spec fn crc8_byte(c: u8) -> u8 {
    crc8_shift(crc8_shift(crc8_shift(crc8_shift(crc8_shift(crc8_shift(crc8_shift(crc8_shift(c))))))))
}

/// The CRC-8/LTE checksum of a byte sequence: polynomial 0x9B, initial
/// value 0, no reflection of input or output, no final xor.
pub open spec fn crc8_lte(data: Seq<u8>) -> u8
    decreases data.len(),
{
    if data.len() == 0 {
        0
    } else {
        crc8_byte(crc8_lte(data.drop_last()) ^ data.last())
    }
}

/// Appending the CRC-8/LTE of a sequence to it gives a sequence whose
/// CRC-8/LTE is 0: a receiver that runs the CRC over a whole packet,
/// check byte included, gets 0 exactly when the packet is intact.
pub proof fn lemma_crc8_residue(data: Seq<u8>)
    ensures
        crc8_lte(data.push(crc8_lte(data))) == 0,
{
    let d = data.push(crc8_lte(data));
    assert(d.drop_last() =~= data);
    let c = crc8_lte(data);
    assert(c ^ c == 0u8) by (bit_vector);
    assert(crc8_shift(0) == 0) by (bit_vector);
}

/// `crc::Crc::<u8>::new(&crc::CRC_8_LTE)` with one `digest`, `update` and
/// `finalize`: the CRC-8/LTE of `block`, as the crc-catalog parameters of
/// `CRC_8_LTE` define it (width 8, polynomial 0x9B, initial value 0, no
/// reflection, no final xor).
#[verifier::external_body]
fn lte_crc(block: &[u8]) -> (r: u8)
    ensures
        r == crc8_lte(block@),
{
    let crc_provider = crc::Crc::<u8>::new(&crc::CRC_8_LTE);
    let mut digest = crc_provider.digest();
    digest.update(block);
    digest.finalize()
}

/// Big-endian bytes of a 32-bit value.
pub open spec fn be_u32_bytes(v: u32) -> Seq<u8> {
    seq![
        (v / 0x1000000) as u8,
        ((v / 0x10000) % 256) as u8,
        ((v / 256) % 256) as u8,
        (v % 256) as u8,
    ]
}

/// Big-endian bytes of a 16-bit value.
pub open spec fn be_u16_bytes(v: u16) -> Seq<u8> {
    seq![high_byte(v), low_byte(v)]
}

/// The 32-bit value of the four bytes of `s` from index `i`, big endian.
pub open spec fn be_u32_at(s: Seq<u8>, i: int) -> u32 {
    (s[i] * 0x1000000 + s[i + 1] * 0x10000 + s[i + 2] * 0x100 + s[i + 3]) as u32
}

/// The 16-bit value of the two bytes of `s` from index `i`, big endian.
pub open spec fn be_u16_at(s: Seq<u8>, i: int) -> u16 {
    (s[i] * 0x100 + s[i + 1]) as u16
}

/// The first 12 bytes of an answer packet: everything but the CRC.
pub open spec fn answer_payload(seq: u32, az: u16, el: u16, s_rssi: u8, n_rssi: u8, rly: u8) -> Seq<
    u8,
> {
    seq![0xFFu8] + be_u32_bytes(seq) + be_u16_bytes(az) + be_u16_bytes(el) + seq![
        s_rssi,
        n_rssi,
        rly,
    ]
}

/// Whether a packet with sequence number `new_seq` may follow `current`: the
/// number must grow, and, unless no packet was taken yet (`current == 0`),
/// it must not jump ahead by more than `SEQ_WINDOW`.
pub open spec fn seq_acceptable(current: u32, new_seq: u32) -> bool {
    new_seq > current && (current == 0 || new_seq <= current + SEQ_WINDOW)
}

/// Why a received command packet was refused.
#[derive(Debug, Clone, Copy, PartialEq, Eq, Structural)]
pub enum PacketError {
    /// The packet is not `COMMAND_PACKET_LEN` bytes long.
    Length,
    /// The first byte is not `0xFF`.
    Sync,
    /// The CRC byte does not match.
    Crc,
    /// The sequence number is not acceptable after the current one.
    Sequence,
    /// The azimuth is above `MAX_AZ`.
    Azimuth,
    /// The elevation is above `MAX_EL`.
    Elevation,
}

/// The error that a command packet `bytes` with computed CRC `crc` gets when
/// the current sequence number is `current`, or `None` when it is taken.
pub open spec fn packet_error(current: u32, bytes: Seq<u8>, crc: u8) -> Option<PacketError> {
    if bytes.len() != COMMAND_PACKET_LEN {
        Some(PacketError::Length)
    } else if bytes[0] != 0xFF {
        Some(PacketError::Sync)
    } else if bytes[10] != crc {
        Some(PacketError::Crc)
    } else if !seq_acceptable(current, be_u32_at(bytes, 1)) {
        Some(PacketError::Sequence)
    } else if be_u16_at(bytes, 5) > MAX_AZ {
        Some(PacketError::Azimuth)
    } else if be_u16_at(bytes, 7) > MAX_EL {
        Some(PacketError::Elevation)
    } else {
        None
    }
}

/// The sequence number after a command packet has been looked at: the
/// packet's own once it has passed the sequence check (even when its angles
/// are then refused), the current one otherwise.
pub open spec fn seq_after_packet(current: u32, bytes: Seq<u8>, crc: u8) -> u32 {
    match packet_error(current, bytes, crc) {
        Some(PacketError::Length) | Some(PacketError::Sync) | Some(PacketError::Crc) | Some(
            PacketError::Sequence,
        ) => current,
        _ => be_u32_at(bytes, 1),
    }
}

/// The sequence number only grows: a packet either leaves it as it is or
/// makes it larger, and, unless no packet was taken yet, never more than
/// `SEQ_WINDOW` ahead. A packet that is taken always makes it larger, so no
/// number is taken twice.
pub proof fn lemma_seq_never_goes_back(current: u32, bytes: Seq<u8>, crc: u8)
    ensures
        seq_after_packet(current, bytes, crc) == current || seq_after_packet(current, bytes, crc)
            > current,
        packet_error(current, bytes, crc) is None ==> seq_after_packet(current, bytes, crc)
            > current,
        current != 0 ==> seq_after_packet(current, bytes, crc) <= current + SEQ_WINDOW,
{
}

/// The bytes of a command packet with the given fields, its CRC in place and
/// the RSSI byte that the radio module appends.
pub open spec fn command_packet_bytes(seq: u32, az: u16, el: u16, rly: u8, rssi: u8) -> Seq<u8> {
    let body = seq![0xFFu8] + be_u32_bytes(seq) + be_u16_bytes(az) + be_u16_bytes(el) + seq![rly];
    body + seq![crc8_lte(body), rssi]
}

/// A command packet that the master built with its CRC in place is taken,
/// when its sequence number may follow the current one and its angles are in
/// range, with exactly the fields it was built from.
pub proof fn lemma_command_packet_roundtrip(
    current: u32,
    seq: u32,
    az: u16,
    el: u16,
    rly: u8,
    rssi: u8,
)
    requires
        seq_acceptable(current, seq),
        az <= MAX_AZ,
        el <= MAX_EL,
    ensures
        ({
            let bytes = command_packet_bytes(seq, az, el, rly, rssi);
            let crc = crc8_lte(bytes.take(10));
            &&& bytes.len() == COMMAND_PACKET_LEN
            &&& packet_error(current, bytes, crc) is None
            &&& seq_after_packet(current, bytes, crc) == seq
            &&& be_u32_at(bytes, 1) == seq
            &&& be_u16_at(bytes, 5) == az
            &&& be_u16_at(bytes, 7) == el
            &&& bytes[9] == rly
            &&& bytes[11] == rssi
        }),
{
    let body = seq![0xFFu8] + be_u32_bytes(seq) + be_u16_bytes(az) + be_u16_bytes(el) + seq![rly];
    let bytes = command_packet_bytes(seq, az, el, rly, rssi);
    assert(bytes.take(10) =~= body);
    lemma_be_u32_roundtrip(seq);
    assert(be_u32_at(bytes, 1) == be_u32_at(seq![0u8] + be_u32_bytes(seq), 1));
}

/// The big-endian bytes of a 32-bit value read back as that value.
pub proof fn lemma_be_u32_roundtrip(v: u32)
    ensures
        be_u32_at(seq![0u8] + be_u32_bytes(v), 1) == v,
{
    let s = seq![0u8] + be_u32_bytes(v);
    assert(s[1] == (v / 0x1000000) as u8);
    assert(s[2] == ((v / 0x10000) % 256) as u8);
    assert(s[3] == ((v / 256) % 256) as u8);
    assert(s[4] == (v % 256) as u8);
}

/// An answer packet carries the sequence number and angles it was made from:
/// they read back from their places, its last byte is the CRC of the rest,
/// and the CRC of the whole packet is 0.
pub proof fn lemma_answer_fields(seq: u32, az: u16, el: u16, s_rssi: u8, n_rssi: u8, rly: u8)
    ensures
        ({
            let p = answer_payload(seq, az, el, s_rssi, n_rssi, rly);
            let a = p.push(crc8_lte(p));
            &&& a.len() == ANSWER_CAPACITY
            &&& a[0] == 0xFF
            &&& be_u32_at(a, 1) == seq
            &&& be_u16_at(a, 5) == az
            &&& be_u16_at(a, 7) == el
            &&& a[9] == s_rssi
            &&& a[10] == n_rssi
            &&& a[11] == rly
            &&& a[12] == crc8_lte(a.take(12))
            &&& crc8_lte(a) == 0
        }),
{
    let p = answer_payload(seq, az, el, s_rssi, n_rssi, rly);
    let a = p.push(crc8_lte(p));
    assert(a.take(12) =~= p);
    lemma_crc8_residue(p);
    lemma_be_u32_roundtrip(seq);
    assert(be_u32_at(a, 1) == be_u32_at(seq![0u8] + be_u32_bytes(seq), 1));
}

/// The fields of an accepted command packet.
#[derive(Debug, Clone, Copy, PartialEq)]
pub struct CommandPacket {
    pub seq: u32,
    pub az: AzAngle,
    pub el: ElAngle,
    pub relays: Relays,
    /// Signal strength of the packet, as the radio module reported it.
    pub rssi: u8,
}

/// Whether `p` holds the fields of the command packet `bytes`.
pub open spec fn packet_fields(p: CommandPacket, bytes: Seq<u8>) -> bool {
    &&& p.seq == be_u32_at(bytes, 1)
    &&& p.az == AzAngle(be_u16_at(bytes, 5))
    &&& p.el == ElAngle(be_u16_at(bytes, 7))
    &&& p.relays@ == bytes[9] & RELAY_ALL
    &&& p.rssi == bytes[11]
}

/// Masking a relay byte with `RELAY_ALL` keeps its PTZ bit (0x01) and its
/// LNA bit (0x02) and clears the rest.
pub proof fn lemma_relay_mask_bits(b: u8)
    ensures
        ((b & RELAY_ALL) & 0x01 != 0) <==> (b & 0x01 != 0),
        ((b & RELAY_ALL) & 0x02 != 0) <==> (b & 0x02 != 0),
        b & RELAY_ALL <= 0x03,
{
    assert(((b & 3) & 1 != 0) == (b & 1 != 0)) by (bit_vector);
    assert(((b & 3) & 2 != 0) == (b & 2 != 0)) by (bit_vector);
    assert(b & 3 <= 3) by (bit_vector);
}

/// The relays that a packet's fields carry are its relay byte (byte 9): the
/// PTZ relay is on exactly when bit 0x01 of that byte is set, the LNA relay
/// exactly when bit 0x02 is set, and no other bit is kept.
pub proof fn lemma_packet_relays(p: CommandPacket, bytes: Seq<u8>)
    requires
        packet_fields(p, bytes),
    ensures
        (p.relays@ & 0x01 != 0) <==> (bytes[9] & 0x01 != 0),
        (p.relays@ & 0x02 != 0) <==> (bytes[9] & 0x02 != 0),
        p.relays@ <= 0x03,
{
    lemma_relay_mask_bits(bytes[9]);
}

/// The fields taken from a command packet that the master built are the
/// ones it was built from: its sequence number, its angles, the PTZ and LNA
/// bits of its relay byte, and the RSSI byte.
pub proof fn lemma_command_packet_fields(
    p: CommandPacket,
    seq: u32,
    az: u16,
    el: u16,
    rly: u8,
    rssi: u8,
)
    requires
        packet_fields(p, command_packet_bytes(seq, az, el, rly, rssi)),
    ensures
        p.seq == seq,
        p.az == AzAngle(az),
        p.el == ElAngle(el),
        (p.relays@ & 0x01 != 0) <==> (rly & 0x01 != 0),
        (p.relays@ & 0x02 != 0) <==> (rly & 0x02 != 0),
        p.relays@ <= 0x03,
        p.rssi == rssi,
{
    let bytes = command_packet_bytes(seq, az, el, rly, rssi);
    lemma_be_u32_roundtrip(seq);
    assert(be_u32_at(bytes, 1) == be_u32_at(seq![0u8] + be_u32_bytes(seq), 1));
    lemma_packet_relays(p, command_packet_bytes(seq, az, el, rly, rssi));
}

/// State of the radio protocol: the sequence number of the last command taken.
pub struct Protocol {
    seq: u32,
}

impl View for Protocol {
    type V = u32;

    closed spec fn view(&self) -> u32 {
        self.seq
    }
}

impl Protocol {
    pub fn new() -> (r: Self)
        ensures
            r@ == 0,
    {
        Protocol { seq: 0 }
    }

    pub fn set_seq(&mut self, seq: u32)
        ensures
            final(self)@ == seq,
    {
        self.seq = seq;
    }

    pub fn get_seq(&self) -> (r: u32)
        ensures
            r == self@,
    {
        self.seq
    }

    /// The CRC-8/LTE of `block`.
    pub fn crc8(&mut self, block: &[u8]) -> (r: u8)
        ensures
            r == crc8_lte(block@),
            *final(self) == *old(self),
    {
        lte_crc(block)
    }

    /// The answer packet without its CRC byte.
    pub fn answer_header(&self, az: &AzAngle, el: &ElAngle, s_rssi: u8, n_rssi: u8, rly: &Relays) -> (r:
        AnswerPacket)
        ensures
            answer_contents(r) == answer_payload(self@, az.0, el.0, s_rssi, n_rssi, rly@),
    {
        let mut payload = answer_new();
        let seq = self.seq;
        let seq_bytes_be: [u8; 4] = [
            (seq / 0x1000000) as u8,
            ((seq / 0x10000) % 256) as u8,
            ((seq / 256) % 256) as u8,
            (seq % 256) as u8,
        ];
        let azu: u16 = u16::from(az);
        let az_bytes_be: [u8; 2] = [(azu / 256) as u8, (azu % 256) as u8];
        let elu: u16 = u16::from(el);
        let el_bytes_be: [u8; 2] = [(elu / 256) as u8, (elu % 256) as u8];

        answer_push(&mut payload, 0xFF).unwrap();
        answer_extend_from_slice(&mut payload, seq_bytes_be.as_slice()).unwrap();
        answer_extend_from_slice(&mut payload, az_bytes_be.as_slice()).unwrap();
        answer_extend_from_slice(&mut payload, el_bytes_be.as_slice()).unwrap();
        answer_push(&mut payload, s_rssi).unwrap();
        answer_push(&mut payload, n_rssi).unwrap();
        answer_push(&mut payload, u8::from(rly)).unwrap();
        assert(answer_contents(payload) =~= answer_payload(self@, az.0, el.0, s_rssi, n_rssi, rly@));
        payload
    }

    /// The answer packet to a command: the current angles, the signal and
    /// noise levels and the relay state, under the current sequence number,
    /// followed by their CRC-8/LTE.
    pub fn make_answer(
        &mut self,
        az: &AzAngle,
        el: &ElAngle,
        s_rssi: u8,
        n_rssi: u8,
        rly: &Relays,
    ) -> (r: Result<AnswerPacket, Error>)
        ensures
            *final(self) == *old(self),
            r matches Ok(p) && answer_contents(p) == answer_payload(
                old(self)@,
                az.0,
                el.0,
                s_rssi,
                n_rssi,
                rly@,
            ).push(crc8_lte(answer_payload(old(self)@, az.0, el.0, s_rssi, n_rssi, rly@))),
    {
        let mut payload = self.answer_header(az, el, s_rssi, n_rssi, rly);
        let crc8 = self.crc8(answer_as_slice(&payload));
        answer_push(&mut payload, crc8).unwrap();
        Ok(payload)
    }

    /// Checks a received command packet `buf` whose first 10 bytes have the
    /// CRC `crc`, and takes its sequence number once that has been checked.
    pub fn accept_packet_with_crc(&mut self, buf: &[u8], crc: u8) -> (r: Result<
        CommandPacket,
        PacketError,
    >)
        ensures
            final(self)@ == seq_after_packet(old(self)@, buf@, crc),
            match r {
                Ok(p) => packet_error(old(self)@, buf@, crc) is None && packet_fields(p, buf@)
                    && ((p.relays@ & 0x01 != 0) <==> (buf@[9] & 0x01 != 0)) && ((p.relays@ & 0x02
                    != 0) <==> (buf@[9] & 0x02 != 0)),
                Err(e) => packet_error(old(self)@, buf@, crc) == Some(e),
            },
    {
        if buf.len() != COMMAND_PACKET_LEN {
            return Err(PacketError::Length);
        }
        if buf[0] != 0xFF {
            return Err(PacketError::Sync);
        }
        if buf[10] != crc {
            return Err(PacketError::Crc);
        }
        let new_seq: u32 = (buf[1] as u32) * 0x1000000 + (buf[2] as u32) * 0x10000 + (buf[3] as u32)
            * 0x100 + (buf[4] as u32);
        let current = self.get_seq();
        if new_seq <= current || (current != 0 && (current as u64) + (SEQ_WINDOW as u64) < (
        new_seq as u64)) {
            return Err(PacketError::Sequence);
        } else {
            self.set_seq(new_seq);
        }
        let new_azu: u16 = (buf[5] as u16) * 0x100 + (buf[6] as u16);
        let new_az = match AzAngle::try_from(new_azu) {
            Ok(a) => a,
            Err(_) => {
                return Err(PacketError::Azimuth);
            },
        };
        let new_elu: u16 = (buf[7] as u16) * 0x100 + (buf[8] as u16);
        let new_el = match ElAngle::try_from(new_elu) {
            Ok(a) => a,
            Err(_) => {
                return Err(PacketError::Elevation);
            },
        };
        let rly = Relays::try_from(buf[9]).unwrap();
        proof {
            lemma_relay_mask_bits(buf[9]);
        }
        let rssi = buf[11];
        Ok(CommandPacket { seq: new_seq, az: new_az, el: new_el, relays: rly, rssi })
    }

    /// Checks a received command packet: its length, its first byte, its
    /// CRC-8/LTE, that its sequence number follows the current one (which it
    /// then becomes), and the ranges of its angles.
    pub fn accept_packet(&mut self, buf: &[u8]) -> (r: Result<CommandPacket, PacketError>)
        ensures
            buf@.len() != COMMAND_PACKET_LEN ==> r == Err::<CommandPacket, PacketError>(
                PacketError::Length,
            ) && final(self)@ == old(self)@,
            buf@.len() == COMMAND_PACKET_LEN ==> {
                let crc = crc8_lte(buf@.take(10));
                &&& final(self)@ == seq_after_packet(old(self)@, buf@, crc)
                &&& match r {
                    Ok(p) => packet_error(old(self)@, buf@, crc) is None && packet_fields(p, buf@)
                        && ((p.relays@ & 0x01 != 0) <==> (buf@[9] & 0x01 != 0)) && ((p.relays@
                        & 0x02 != 0) <==> (buf@[9] & 0x02 != 0)),
                    Err(e) => packet_error(old(self)@, buf@, crc) == Some(e),
                }
            },
    {
        if buf.len() == COMMAND_PACKET_LEN && buf[0] == 0xFF {
            let crc8 = self.crc8(&buf[0..10]);
            self.accept_packet_with_crc(buf, crc8)
        } else {
            self.accept_packet_with_crc(buf, 0)
        }
    }
}

} // verus!
