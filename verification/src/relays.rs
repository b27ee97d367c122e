//! Power relays of the remote station: one for the rotator (PTZ), one for the
//! low-noise amplifier (LNA).
use vstd::prelude::*;

verus! {

/// Bit of the PTZ relay.
pub const RELAY_PTZ: u8 = 0x01;

/// Bit of the LNA relay.
pub const RELAY_LNA: u8 = 0x02;

/// Both relay bits.
pub const RELAY_ALL: u8 = 0x03;

/// A set of relay bits.
#[derive(Debug, Clone, Copy, PartialEq, Eq, Structural, PartialOrd, Ord, Hash)]
pub struct SlaveRelay(u8);

impl View for SlaveRelay {
    type V = u8;

    closed spec fn view(&self) -> u8 {
        self.0
    }
}

impl SlaveRelay {
    /// No relay.
    pub fn empty() -> (r: SlaveRelay)
        ensures
            r@ == 0,
    {
        SlaveRelay(0)
    }

    pub fn relay_ptz() -> (r: SlaveRelay)
        ensures
            r@ == RELAY_PTZ,
    {
        SlaveRelay(RELAY_PTZ)
    }

    pub fn relay_lna() -> (r: SlaveRelay)
        ensures
            r@ == RELAY_LNA,
    {
        SlaveRelay(RELAY_LNA)
    }

    pub fn relay_all() -> (r: SlaveRelay)
        ensures
            r@ == RELAY_ALL,
    {
        SlaveRelay(RELAY_ALL)
    }

    /// The raw bits.
    pub fn bits(&self) -> (r: u8)
        ensures
            r == self@,
    {
        self.0
    }

    /// The relays of either set.
    pub fn union(self, other: SlaveRelay) -> (r: SlaveRelay)
        ensures
            r@ == self@ | other@,
    {
        SlaveRelay(self.0 | other.0)
    }

    /// The relays of both sets.
    pub fn intersection(self, other: SlaveRelay) -> (r: SlaveRelay)
        ensures
            r@ == self@ & other@,
    {
        SlaveRelay(self.0 & other.0)
    }

    /// The known relays that are not in the set.
    pub fn complement(self) -> (r: SlaveRelay)
        ensures
            r@ == !self@ & RELAY_ALL,
    {
        SlaveRelay(!self.0 & RELAY_ALL)
    }
}

/// Whether the PTZ relay bit is set.
pub open spec fn ptz_bit(bits: u8) -> bool {
    bits & RELAY_PTZ != 0
}

/// Whether the LNA relay bit is set.
pub open spec fn lna_bit(bits: u8) -> bool {
    bits & RELAY_LNA != 0
}

/// Switching one relay leaves the other as it was: `ptz_on` and `ptz_off`
/// set and clear the PTZ bit only, `lna_on` and `lna_off` the LNA bit only,
/// `all_on` sets both and `all_off` clears both.
pub proof fn lemma_relay_switches(bits: u8)
    requires
        bits <= RELAY_ALL,
    ensures
        ptz_bit(bits | RELAY_PTZ) && lna_bit(bits | RELAY_PTZ) == lna_bit(bits),
        !ptz_bit(bits & (!RELAY_PTZ & RELAY_ALL)) && lna_bit(bits & (!RELAY_PTZ & RELAY_ALL))
            == lna_bit(bits),
        lna_bit(bits | RELAY_LNA) && ptz_bit(bits | RELAY_LNA) == ptz_bit(bits),
        !lna_bit(bits & (!RELAY_LNA & RELAY_ALL)) && ptz_bit(bits & (!RELAY_LNA & RELAY_ALL))
            == ptz_bit(bits),
        ptz_bit(bits | RELAY_ALL) && lna_bit(bits | RELAY_ALL),
        !ptz_bit(0) && !lna_bit(0),
{
    assert(bits <= 3 ==> {
        &&& (bits | 1) & 1 != 0
        &&& ((bits | 1) & 2 != 0) == (bits & 2 != 0)
        &&& (bits & (!1u8 & 3u8)) & 1 == 0
        &&& ((bits & (!1u8 & 3u8)) & 2 != 0) == (bits & 2 != 0)
        &&& (bits | 2) & 2 != 0
        &&& ((bits | 2) & 1 != 0) == (bits & 1 != 0)
        &&& (bits & (!2u8 & 3u8)) & 2 == 0
        &&& ((bits & (!2u8 & 3u8)) & 1 != 0) == (bits & 1 != 0)
        &&& (bits | 3) & 1 != 0
        &&& (bits | 3) & 2 != 0
        &&& 0u8 & 1 == 0
        &&& 0u8 & 2 == 0
    }) by (bit_vector);
}

/// The relay byte of a packet is the relay state it came from: the bits of a
/// `Relays` (never above `RELAY_ALL`) pass the mask of `try_from` unchanged.
pub proof fn lemma_relay_byte_roundtrip(bits: u8)
    requires
        bits <= RELAY_ALL,
    ensures
        bits & RELAY_ALL == bits,
{
    assert(bits <= 3 ==> bits & 3 == bits) by (bit_vector);
}

/// The state of the two relays.
#[derive(Clone, Copy, PartialEq, Debug)]
pub struct Relays(SlaveRelay);

impl View for Relays {
    type V = u8;

    closed spec fn view(&self) -> u8 {
        self.0.0
    }
}

impl Relays {
    #[verifier::type_invariant]
    spec fn known_bits_only(self) -> bool {
        self.0.0 <= RELAY_ALL
    }

    /// Both relays off.
    pub fn new() -> (r: Self)
        ensures
            r@ == 0,
    {
        Relays(SlaveRelay::empty())
    }

    pub fn ptz_on(&mut self)
        ensures
            final(self)@ == old(self)@ | RELAY_PTZ,
    {
        proof {
            use_type_invariant(&*self);
        }
        let bits = self.0.0;
        assert(bits <= 3 ==> bits | 1 <= 3) by (bit_vector);
        self.0 = self.0.union(SlaveRelay::relay_ptz());
    }

    pub fn lna_on(&mut self)
        ensures
            final(self)@ == old(self)@ | RELAY_LNA,
    {
        proof {
            use_type_invariant(&*self);
        }
        let bits = self.0.0;
        assert(bits <= 3 ==> bits | 2 <= 3) by (bit_vector);
        self.0 = self.0.union(SlaveRelay::relay_lna());
    }

    pub fn all_on(&mut self)
        ensures
            final(self)@ == old(self)@ | RELAY_ALL,
    {
        proof {
            use_type_invariant(&*self);
        }
        let bits = self.0.0;
        assert(bits <= 3 ==> bits | 3 <= 3) by (bit_vector);
        self.0 = self.0.union(SlaveRelay::relay_all());
    }

    pub fn ptz_off(&mut self)
        ensures
            final(self)@ == old(self)@ & (!RELAY_PTZ & RELAY_ALL),
    {
        let bits = self.0.0;
        assert(bits & (!1u8 & 3u8) <= 3) by (bit_vector);
        self.0 = self.0.intersection(SlaveRelay::relay_ptz().complement());
    }

    pub fn lna_off(&mut self)
        ensures
            final(self)@ == old(self)@ & (!RELAY_LNA & RELAY_ALL),
    {
        let bits = self.0.0;
        assert(bits & (!2u8 & 3u8) <= 3) by (bit_vector);
        self.0 = self.0.intersection(SlaveRelay::relay_lna().complement());
    }

    pub fn all_off(&mut self)
        ensures
            final(self)@ == 0,
    {
        self.0 = SlaveRelay::empty();
    }

    pub fn is_ptz_on(&mut self) -> (r: bool)
        ensures
            *final(self) == *old(self),
            r == ptz_bit(old(self)@),
    {
        if self.0.intersection(SlaveRelay::relay_ptz()) != SlaveRelay::empty() {
            true
        } else {
            false
        }
    }

    pub fn is_lna_on(&mut self) -> (r: bool)
        ensures
            *final(self) == *old(self),
            r == lna_bit(old(self)@),
    {
        if self.0.intersection(SlaveRelay::relay_lna()) != SlaveRelay::empty() {
            true
        } else {
            false
        }
    }
}

impl From<&Relays> for u8 {
    fn from(val: &Relays) -> (r: u8)
        ensures
            r == val@,
            r <= RELAY_ALL,
    {
        proof {
            use_type_invariant(val);
        }
        val.0.bits()
    }
}

impl vstd::std_specs::convert::FromSpecImpl<&Relays> for u8 {
    open spec fn obeys_from_spec() -> bool {
        true
    }

    open spec fn from_spec(v: &Relays) -> u8 {
        v@
    }
}

impl TryFrom<u8> for Relays {
    type Error = ();

    fn try_from(val: u8) -> (r: Result<Self, Self::Error>)
        ensures
            r matches Ok(x) && x@ == val & RELAY_ALL,
    {
        let masked = val & 0b00000011;
        assert(val & 3 <= 3) by (bit_vector);
        if masked == 0x00 {
            Ok(Relays(SlaveRelay::empty()))
        } else if masked == 0x01 {
            Ok(Relays(SlaveRelay::relay_ptz()))
        } else if masked == 0x02 {
            Ok(Relays(SlaveRelay::relay_lna()))
        } else if masked == 0x03 {
            Ok(Relays(SlaveRelay::relay_all()))
        } else {
            Err(())
        }
    }
}

impl vstd::std_specs::convert::TryFromSpecImpl<u8> for Relays {
    open spec fn obeys_try_from_spec() -> bool {
        true
    }

    closed spec fn try_from_spec(v: u8) -> Result<Self, Self::Error> {
        Ok(Relays(SlaveRelay(v & RELAY_ALL)))
    }
}

} // verus!
