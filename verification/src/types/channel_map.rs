//! Defines mappings from stream channels to speaker positions.

use vstd::prelude::*;
use crate::types::sample_spec::CHANNELS_MAX;

verus! {

/// Channel position labels.
#[derive(Clone, Copy, Debug, PartialEq, Eq, Structural)]
pub enum ChannelPosition {
    Mono,
    /// Apple, Dolby call this 'Left'.
    FrontLeft,
    /// Apple, Dolby call this 'Right'.
    FrontRight,
    /// Apple, Dolby call this 'Center'.
    FrontCenter,
    /// Microsoft calls this 'Back Center', Apple calls this 'Center Surround', Dolby calls this 'Surround Rear Center'.
    RearCenter,
    /// Microsoft calls this 'Back Left', Apple calls this 'Left Surround' (!), Dolby calls this 'Surround Rear Left'.
    RearLeft,
    /// Microsoft calls this 'Back Right', Apple calls this 'Right Surround' (!), Dolby calls this 'Surround Rear Right'.
    RearRight,
    /// Microsoft calls this 'Low Frequency', Apple calls this 'LFEScreen'.
    Lfe,
    /// Apple, Dolby call this 'Left Center'.
    FrontLeftOfCenter,
    /// Apple, Dolby call this 'Right Center'.
    FrontRightOfCenter,
    /// Apple calls this 'Left Surround Direct', Dolby calls this 'Surround Left' (!).
    SideLeft,
    /// Apple calls this 'Right Surround Direct', Dolby calls this 'Surround Right' (!).
    SideRight,
    Aux0,
    Aux1,
    Aux2,
    Aux3,
    Aux4,
    Aux5,
    Aux6,
    Aux7,
    Aux8,
    Aux9,
    Aux10,
    Aux11,
    Aux12,
    Aux13,
    Aux14,
    Aux15,
    Aux16,
    Aux17,
    Aux18,
    Aux19,
    Aux20,
    Aux21,
    Aux22,
    Aux23,
    Aux24,
    Aux25,
    Aux26,
    Aux27,
    Aux28,
    Aux29,
    Aux30,
    Aux31,
    /// Apple calls this 'Top Center Surround'.
    TopCenter,
    /// Apple calls this 'Vertical Height Left'.
    TopFrontLeft,
    /// Apple calls this 'Vertical Height Right'.
    TopFrontRight,
    /// Apple calls this 'Vertical Height Center'.
    TopFrontCenter,
    /// Microsoft and Apple call this 'Top Back Left'.
    TopRearLeft,
    /// Microsoft and Apple call this 'Top Back Right'.
    TopRearRight,
    /// Microsoft and Apple call this 'Top Back Center'.
    TopRearCenter,
}

impl ChannelPosition {
    /// The number that stands for the position on the wire.
    pub open spec fn spec_as_u8(self) -> u8 {
        match self {
            ChannelPosition::Mono => 0,
            ChannelPosition::FrontLeft => 1,
            ChannelPosition::FrontRight => 2,
            ChannelPosition::FrontCenter => 3,
            ChannelPosition::RearCenter => 4,
            ChannelPosition::RearLeft => 5,
            ChannelPosition::RearRight => 6,
            ChannelPosition::Lfe => 7,
            ChannelPosition::FrontLeftOfCenter => 8,
            ChannelPosition::FrontRightOfCenter => 9,
            ChannelPosition::SideLeft => 10,
            ChannelPosition::SideRight => 11,
            ChannelPosition::Aux0 => 12,
            ChannelPosition::Aux1 => 13,
            ChannelPosition::Aux2 => 14,
            ChannelPosition::Aux3 => 15,
            ChannelPosition::Aux4 => 16,
            ChannelPosition::Aux5 => 17,
            ChannelPosition::Aux6 => 18,
            ChannelPosition::Aux7 => 19,
            ChannelPosition::Aux8 => 20,
            ChannelPosition::Aux9 => 21,
            ChannelPosition::Aux10 => 22,
            ChannelPosition::Aux11 => 23,
            ChannelPosition::Aux12 => 24,
            ChannelPosition::Aux13 => 25,
            ChannelPosition::Aux14 => 26,
            ChannelPosition::Aux15 => 27,
            ChannelPosition::Aux16 => 28,
            ChannelPosition::Aux17 => 29,
            ChannelPosition::Aux18 => 30,
            ChannelPosition::Aux19 => 31,
            ChannelPosition::Aux20 => 32,
            ChannelPosition::Aux21 => 33,
            ChannelPosition::Aux22 => 34,
            ChannelPosition::Aux23 => 35,
            ChannelPosition::Aux24 => 36,
            ChannelPosition::Aux25 => 37,
            ChannelPosition::Aux26 => 38,
            ChannelPosition::Aux27 => 39,
            ChannelPosition::Aux28 => 40,
            ChannelPosition::Aux29 => 41,
            ChannelPosition::Aux30 => 42,
            ChannelPosition::Aux31 => 43,
            ChannelPosition::TopCenter => 44,
            ChannelPosition::TopFrontLeft => 45,
            ChannelPosition::TopFrontRight => 46,
            ChannelPosition::TopFrontCenter => 47,
            ChannelPosition::TopRearLeft => 48,
            ChannelPosition::TopRearRight => 49,
            ChannelPosition::TopRearCenter => 50,
        }
    }

    /// The position that a number stands for, if it stands for one.
    pub open spec fn spec_from_u8(raw: u8) -> Option<ChannelPosition> {
        if raw == 0 {
            Some(ChannelPosition::Mono)
        } else if raw == 1 {
            Some(ChannelPosition::FrontLeft)
        } else if raw == 2 {
            Some(ChannelPosition::FrontRight)
        } else if raw == 3 {
            Some(ChannelPosition::FrontCenter)
        } else if raw == 4 {
            Some(ChannelPosition::RearCenter)
        } else if raw == 5 {
            Some(ChannelPosition::RearLeft)
        } else if raw == 6 {
            Some(ChannelPosition::RearRight)
        } else if raw == 7 {
            Some(ChannelPosition::Lfe)
        } else if raw == 8 {
            Some(ChannelPosition::FrontLeftOfCenter)
        } else if raw == 9 {
            Some(ChannelPosition::FrontRightOfCenter)
        } else if raw == 10 {
            Some(ChannelPosition::SideLeft)
        } else if raw == 11 {
            Some(ChannelPosition::SideRight)
        } else if raw == 12 {
            Some(ChannelPosition::Aux0)
        } else if raw == 13 {
            Some(ChannelPosition::Aux1)
        } else if raw == 14 {
            Some(ChannelPosition::Aux2)
        } else if raw == 15 {
            Some(ChannelPosition::Aux3)
        } else if raw == 16 {
            Some(ChannelPosition::Aux4)
        } else if raw == 17 {
            Some(ChannelPosition::Aux5)
        } else if raw == 18 {
            Some(ChannelPosition::Aux6)
        } else if raw == 19 {
            Some(ChannelPosition::Aux7)
        } else if raw == 20 {
            Some(ChannelPosition::Aux8)
        } else if raw == 21 {
            Some(ChannelPosition::Aux9)
        } else if raw == 22 {
            Some(ChannelPosition::Aux10)
        } else if raw == 23 {
            Some(ChannelPosition::Aux11)
        } else if raw == 24 {
            Some(ChannelPosition::Aux12)
        } else if raw == 25 {
            Some(ChannelPosition::Aux13)
        } else if raw == 26 {
            Some(ChannelPosition::Aux14)
        } else if raw == 27 {
            Some(ChannelPosition::Aux15)
        } else if raw == 28 {
            Some(ChannelPosition::Aux16)
        } else if raw == 29 {
            Some(ChannelPosition::Aux17)
        } else if raw == 30 {
            Some(ChannelPosition::Aux18)
        } else if raw == 31 {
            Some(ChannelPosition::Aux19)
        } else if raw == 32 {
            Some(ChannelPosition::Aux20)
        } else if raw == 33 {
            Some(ChannelPosition::Aux21)
        } else if raw == 34 {
            Some(ChannelPosition::Aux22)
        } else if raw == 35 {
            Some(ChannelPosition::Aux23)
        } else if raw == 36 {
            Some(ChannelPosition::Aux24)
        } else if raw == 37 {
            Some(ChannelPosition::Aux25)
        } else if raw == 38 {
            Some(ChannelPosition::Aux26)
        } else if raw == 39 {
            Some(ChannelPosition::Aux27)
        } else if raw == 40 {
            Some(ChannelPosition::Aux28)
        } else if raw == 41 {
            Some(ChannelPosition::Aux29)
        } else if raw == 42 {
            Some(ChannelPosition::Aux30)
        } else if raw == 43 {
            Some(ChannelPosition::Aux31)
        } else if raw == 44 {
            Some(ChannelPosition::TopCenter)
        } else if raw == 45 {
            Some(ChannelPosition::TopFrontLeft)
        } else if raw == 46 {
            Some(ChannelPosition::TopFrontRight)
        } else if raw == 47 {
            Some(ChannelPosition::TopFrontCenter)
        } else if raw == 48 {
            Some(ChannelPosition::TopRearLeft)
        } else if raw == 49 {
            Some(ChannelPosition::TopRearRight)
        } else if raw == 50 {
            Some(ChannelPosition::TopRearCenter)
        } else {
            None
        }
    }

    /// Gets the number that stands for the position on the wire.
    pub fn as_u8(self) -> (raw: u8)
        ensures
            raw == self.spec_as_u8(),
            raw <= 50,
    {
        match self {
            ChannelPosition::Mono => 0,
            ChannelPosition::FrontLeft => 1,
            ChannelPosition::FrontRight => 2,
            ChannelPosition::FrontCenter => 3,
            ChannelPosition::RearCenter => 4,
            ChannelPosition::RearLeft => 5,
            ChannelPosition::RearRight => 6,
            ChannelPosition::Lfe => 7,
            ChannelPosition::FrontLeftOfCenter => 8,
            ChannelPosition::FrontRightOfCenter => 9,
            ChannelPosition::SideLeft => 10,
            ChannelPosition::SideRight => 11,
            ChannelPosition::Aux0 => 12,
            ChannelPosition::Aux1 => 13,
            ChannelPosition::Aux2 => 14,
            ChannelPosition::Aux3 => 15,
            ChannelPosition::Aux4 => 16,
            ChannelPosition::Aux5 => 17,
            ChannelPosition::Aux6 => 18,
            ChannelPosition::Aux7 => 19,
            ChannelPosition::Aux8 => 20,
            ChannelPosition::Aux9 => 21,
            ChannelPosition::Aux10 => 22,
            ChannelPosition::Aux11 => 23,
            ChannelPosition::Aux12 => 24,
            ChannelPosition::Aux13 => 25,
            ChannelPosition::Aux14 => 26,
            ChannelPosition::Aux15 => 27,
            ChannelPosition::Aux16 => 28,
            ChannelPosition::Aux17 => 29,
            ChannelPosition::Aux18 => 30,
            ChannelPosition::Aux19 => 31,
            ChannelPosition::Aux20 => 32,
            ChannelPosition::Aux21 => 33,
            ChannelPosition::Aux22 => 34,
            ChannelPosition::Aux23 => 35,
            ChannelPosition::Aux24 => 36,
            ChannelPosition::Aux25 => 37,
            ChannelPosition::Aux26 => 38,
            ChannelPosition::Aux27 => 39,
            ChannelPosition::Aux28 => 40,
            ChannelPosition::Aux29 => 41,
            ChannelPosition::Aux30 => 42,
            ChannelPosition::Aux31 => 43,
            ChannelPosition::TopCenter => 44,
            ChannelPosition::TopFrontLeft => 45,
            ChannelPosition::TopFrontRight => 46,
            ChannelPosition::TopFrontCenter => 47,
            ChannelPosition::TopRearLeft => 48,
            ChannelPosition::TopRearRight => 49,
            ChannelPosition::TopRearCenter => 50,
        }
    }

    /// Reads a position from the number that stands for it. Numbers above 50 stand for none.
    pub fn from_u8(raw: u8) -> (position: Option<ChannelPosition>)
        ensures
            position == Self::spec_from_u8(raw),
            position is Some <==> raw <= 50,
            position matches Some(p) ==> p.spec_as_u8() == raw,
    {
        match raw {
            0 => Some(ChannelPosition::Mono),
            1 => Some(ChannelPosition::FrontLeft),
            2 => Some(ChannelPosition::FrontRight),
            3 => Some(ChannelPosition::FrontCenter),
            4 => Some(ChannelPosition::RearCenter),
            5 => Some(ChannelPosition::RearLeft),
            6 => Some(ChannelPosition::RearRight),
            7 => Some(ChannelPosition::Lfe),
            8 => Some(ChannelPosition::FrontLeftOfCenter),
            9 => Some(ChannelPosition::FrontRightOfCenter),
            10 => Some(ChannelPosition::SideLeft),
            11 => Some(ChannelPosition::SideRight),
            12 => Some(ChannelPosition::Aux0),
            13 => Some(ChannelPosition::Aux1),
            14 => Some(ChannelPosition::Aux2),
            15 => Some(ChannelPosition::Aux3),
            16 => Some(ChannelPosition::Aux4),
            17 => Some(ChannelPosition::Aux5),
            18 => Some(ChannelPosition::Aux6),
            19 => Some(ChannelPosition::Aux7),
            20 => Some(ChannelPosition::Aux8),
            21 => Some(ChannelPosition::Aux9),
            22 => Some(ChannelPosition::Aux10),
            23 => Some(ChannelPosition::Aux11),
            24 => Some(ChannelPosition::Aux12),
            25 => Some(ChannelPosition::Aux13),
            26 => Some(ChannelPosition::Aux14),
            27 => Some(ChannelPosition::Aux15),
            28 => Some(ChannelPosition::Aux16),
            29 => Some(ChannelPosition::Aux17),
            30 => Some(ChannelPosition::Aux18),
            31 => Some(ChannelPosition::Aux19),
            32 => Some(ChannelPosition::Aux20),
            33 => Some(ChannelPosition::Aux21),
            34 => Some(ChannelPosition::Aux22),
            35 => Some(ChannelPosition::Aux23),
            36 => Some(ChannelPosition::Aux24),
            37 => Some(ChannelPosition::Aux25),
            38 => Some(ChannelPosition::Aux26),
            39 => Some(ChannelPosition::Aux27),
            40 => Some(ChannelPosition::Aux28),
            41 => Some(ChannelPosition::Aux29),
            42 => Some(ChannelPosition::Aux30),
            43 => Some(ChannelPosition::Aux31),
            44 => Some(ChannelPosition::TopCenter),
            45 => Some(ChannelPosition::TopFrontLeft),
            46 => Some(ChannelPosition::TopFrontRight),
            47 => Some(ChannelPosition::TopFrontCenter),
            48 => Some(ChannelPosition::TopRearLeft),
            49 => Some(ChannelPosition::TopRearRight),
            50 => Some(ChannelPosition::TopRearCenter),
            _ => None,
        }
    }
}

/// Reading a position back from its own number gives the position again.
pub proof fn lemma_channel_position_roundtrip(position: ChannelPosition)
    ensures
        ChannelPosition::spec_from_u8(position.spec_as_u8()) == Some(position),
{
}

/// An error indicating that a channel map is already full and cannot be extended.
#[derive(Clone, Copy, Debug, PartialEq, Eq, Structural)]
pub struct MapFullError {}

/// A map from stream channels to speaker positions.
///
/// These values are relevant for conversion and mixing of streams. A map holds at most
/// `CHANNELS_MAX` positions.
#[derive(Debug)]
pub struct ChannelMap {
    /// Channel position map, one position for each channel.
    map: Vec<ChannelPosition>,
}

impl View for ChannelMap {
    type V = Seq<ChannelPosition>;

    closed spec fn view(&self) -> Seq<ChannelPosition> {
        self.map@
    }
}

impl ChannelMap {
    #[verifier::type_invariant]
    spec fn well_formed(&self) -> bool {
        self.map@.len() <= CHANNELS_MAX
    }

    /// Creates an empty channel map.
    pub fn new() -> (map: ChannelMap)
        ensures
            map@ == Seq::<ChannelPosition>::empty(),
    {
        ChannelMap { map: Vec::new() }
    }

    /// Tries to append another `ChannelPosition` to the end of this map.
    ///
    /// If the map is already at max. capacity, returns a `MapFullError` and leaves the map as it
    /// is.
    pub fn push(&mut self, position: ChannelPosition) -> (r: Result<(), MapFullError>)
        ensures
            r is Ok <==> old(self)@.len() < CHANNELS_MAX,
            r is Ok ==> final(self)@ == old(self)@.push(position),
            r is Err ==> final(self)@ == old(self)@,
    {
        proof {
            use_type_invariant(&*self);
        }
        if self.map.len() >= CHANNELS_MAX as usize {
            return Err(MapFullError {  });
        }
        let mut map: Vec<ChannelPosition> = Vec::new();
        core::mem::swap(&mut map, &mut self.map);
        map.push(position);
        self.map = map;
        Ok(())
    }

    /// Returns the number of channel mappings stored in this `ChannelMap`.
    pub fn len(&self) -> (n: u8)
        ensures
            n == self@.len(),
            n <= CHANNELS_MAX,
    {
        proof {
            use_type_invariant(self);
        }
        self.map.len() as u8
    }

    /// The positions of all channels, in the order of the channels.
    pub fn positions(&self) -> (r: &[ChannelPosition])
        ensures
            r@ == self@,
            r@.len() <= CHANNELS_MAX,
    {
        proof {
            use_type_invariant(self);
        }
        self.map.as_slice()
    }
}

impl Clone for ChannelMap {
    fn clone(&self) -> (r: Self)
        ensures
            r@ == self@,
    {
        proof {
            use_type_invariant(self);
        }
        let mut map: Vec<ChannelPosition> = Vec::new();
        let mut i: usize = 0;
        while i < self.map.len()
            invariant
                0 <= i <= self.map@.len(),
                self.map@.len() <= CHANNELS_MAX,
                map@ == self.map@.take(i as int),
            decreases self.map@.len() - i,
        {
            map.push(self.map[i]);
            proof {
                assert(self.map@.take(i as int + 1) =~= self.map@.take(i as int).push(
                    self.map@[i as int],
                ));
            }
            i = i + 1;
        }
        proof {
            assert(self.map@.take(self.map@.len() as int) =~= self.map@);
        }
        ChannelMap { map }
    }
}

} // verus!
