//! Defines volume specification data types.

use vstd::prelude::*;
use crate::types::sample_spec::CHANNELS_MAX;

verus! {

/// The raw value of the normal volume (100%, 0 dB, no attenuation, no amplification).
pub const VOLUME_NORM: u32 = 0x10000;

/// The raw value of the muted volume (0%, -Inf dB).
pub const VOLUME_MUTED: u32 = 0;

/// The highest raw value of a volume.
pub const VOLUME_MAX: u32 = 0x7FFF_FFFF;

/// The raw volume that a raw value from the wire stands for: values above the maximum stand for
/// the maximum.
pub open spec fn spec_clamp_volume(raw: u32) -> u32 {
    if raw > VOLUME_MAX {
        VOLUME_MAX
    } else {
        raw
    }
}

/// Volume specification for a single channel.
///
/// The raw value is never above `VOLUME_MAX`.
#[derive(Clone, Copy, Debug)]
pub struct Volume(u32);

impl View for Volume {
    type V = u32;

    closed spec fn view(&self) -> u32 {
        self.0
    }
}

impl Volume {
    #[verifier::type_invariant]
    spec fn well_formed(&self) -> bool {
        self.0 <= VOLUME_MAX
    }

    /// The normal volume (100%, 0 dB, no attenuation, no amplification).
    pub fn norm() -> (v: Volume)
        ensures
            v@ == VOLUME_NORM,
    {
        Volume(VOLUME_NORM)
    }

    /// The muted volume (0%, -Inf dB).
    pub fn muted() -> (v: Volume)
        ensures
            v@ == VOLUME_MUTED,
    {
        Volume(VOLUME_MUTED)
    }

    /// Gets the raw volume value as a `u32`.
    ///
    /// This is not useful for user presentation.
    pub fn as_u32(&self) -> (raw: u32)
        ensures
            raw == self@,
            raw <= VOLUME_MAX,
    {
        proof {
            use_type_invariant(self);
        }
        self.0
    }

    /// Creates a volume specification from a raw `u32` sent over the wire (or obtained via
    /// `Volume::as_u32`).
    ///
    /// If the raw value is out of the valid range, it will be clamped.
    pub fn from_u32_clamped(raw: u32) -> (v: Volume)
        ensures
            v@ == spec_clamp_volume(raw),
            v@ <= VOLUME_MAX,
    {
        if raw > VOLUME_MAX {
            Volume(VOLUME_MAX)
        } else {
            Volume(raw)
        }
    }
}

/// Clamping leaves a raw value in range as it is, and so the raw value of any volume.
pub proof fn lemma_clamp_volume_idempotent(raw: u32)
    ensures
        spec_clamp_volume(raw) <= VOLUME_MAX,
        raw <= VOLUME_MAX ==> spec_clamp_volume(raw) == raw,
        spec_clamp_volume(spec_clamp_volume(raw)) == spec_clamp_volume(raw),
{
}

/// An error returned by `CVolume::push`, indicating that the maximum number of channel has been
/// reached.
#[derive(Clone, Copy, Debug, PartialEq, Eq, Structural)]
pub struct PushError {}

/// Whether a list of raw volumes can be the content of a `CVolume`.
pub open spec fn valid_cvolume(v: Seq<u32>) -> bool {
    &&& v.len() <= CHANNELS_MAX
    &&& forall|i: int| 0 <= i < v.len() ==> v[i] <= VOLUME_MAX
}

/// Per-channel volume setting: at most `CHANNELS_MAX` volumes, seen as their raw values.
#[derive(Debug)]
pub struct CVolume {
    volumes: Vec<Volume>,
}

impl View for CVolume {
    type V = Seq<u32>;

    closed spec fn view(&self) -> Seq<u32> {
        Seq::new(self.volumes@.len(), |i: int| self.volumes@[i]@)
    }
}

impl CVolume {
    #[verifier::type_invariant]
    spec fn well_formed(&self) -> bool {
        valid_cvolume(self@)
    }

    /// Creates an empty `CVolume` specifying no volumes for any channel.
    pub fn new() -> (v: CVolume)
        ensures
            v@ == Seq::<u32>::empty(),
    {
        let v = CVolume { volumes: Vec::new() };
        assert(v@ =~= Seq::<u32>::empty());
        v
    }

    /// Append a new volume to the list.
    ///
    /// Returns the channel for which the volume was added. If the list is full, returns a
    /// `PushError` and leaves the list as it is.
    pub fn push(&mut self, volume: Volume) -> (r: Result<u8, PushError>)
        ensures
            r is Ok <==> old(self)@.len() < CHANNELS_MAX,
            r matches Ok(channel) ==> channel == old(self)@.len() && final(self)@ == old(
                self,
            )@.push(volume@),
            r is Err ==> final(self)@ == old(self)@,
    {
        proof {
            use_type_invariant(&*self);
            use_type_invariant(&volume);
        }
        let channel = self.volumes.len();
        if channel >= CHANNELS_MAX as usize {
            return Err(PushError {  });
        }
        let ghost before = self@;
        let mut volumes: Vec<Volume> = Vec::new();
        core::mem::swap(&mut volumes, &mut self.volumes);
        proof {
            assert(self@ =~= Seq::<u32>::empty());
        }
        volumes.push(volume);
        proof {
            let after = Seq::new(volumes@.len(), |i: int| volumes@[i]@);
            assert(after =~= before.push(volume@));
        }
        self.volumes = volumes;
        Ok(channel as u8)
    }

    /// Returns the number of channel volumes stored in `self`.
    pub fn len(&self) -> (n: u8)
        ensures
            n == self@.len(),
            n <= CHANNELS_MAX,
    {
        proof {
            use_type_invariant(self);
        }
        self.volumes.len() as u8
    }

    /// The volumes of all channels, in the order of the channels.
    pub fn volumes(&self) -> (r: &[Volume])
        ensures
            r@.len() == self@.len(),
            forall|i: int| 0 <= i < r@.len() ==> r@[i]@ == self@[i],
            valid_cvolume(self@),
    {
        proof {
            use_type_invariant(self);
        }
        self.volumes.as_slice()
    }
}

impl Clone for CVolume {
    fn clone(&self) -> (r: Self)
        ensures
            r@ == self@,
    {
        proof {
            use_type_invariant(self);
        }
        proof {
            assert forall|j: int| 0 <= j < self.volumes@.len() implies (
            #[trigger] self.volumes@[j])@ <= VOLUME_MAX by {
                assert(self@[j] <= VOLUME_MAX);
            }
        }
        let mut volumes: Vec<Volume> = Vec::new();
        let mut i: usize = 0;
        while i < self.volumes.len()
            invariant
                0 <= i <= self.volumes@.len(),
                self.volumes@.len() <= CHANNELS_MAX,
                forall|j: int| 0 <= j < self.volumes@.len() ==> (#[trigger] self.volumes@[j])@
                    <= VOLUME_MAX,
                volumes@ == self.volumes@.take(i as int),
            decreases self.volumes@.len() - i,
        {
            volumes.push(self.volumes[i]);
            proof {
                assert(self.volumes@.take(i as int + 1) =~= self.volumes@.take(i as int).push(
                    self.volumes@[i as int],
                ));
            }
            i = i + 1;
        }
        proof {
            assert(self.volumes@.take(self.volumes@.len() as int) =~= self.volumes@);
        }
        CVolume { volumes }
    }
}

} // verus!
