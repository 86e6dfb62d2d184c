//! Intermediate buffer manager: the scratch buffer that carries the signal
//! from the downsampling stage to the upsampling stage.

use crate::limits::CHANNELS;
use vstd::prelude::*;

verus! {

/// `channel`, extended with `silence` to `frames` frames where it is shorter.
pub open spec fn grown_channel<T>(channel: Seq<T>, frames: nat, silence: T) -> Seq<T> {
    if channel.len() >= frames {
        channel
    } else {
        channel + Seq::new((frames - channel.len()) as nat, |i: int| silence)
    }
}

/// Every channel grown to at least `frames` frames.
pub open spec fn grown<T>(channels: Seq<Seq<T>>, frames: nat, silence: T) -> Seq<Seq<T>> {
    Seq::new(channels.len(), |c: int| grown_channel(channels[c], frames, silence))
}

/// The samples of each channel of `channels`.
pub open spec fn samples_of<T>(channels: Seq<Vec<T>>) -> Seq<Seq<T>> {
    Seq::new(channels.len(), |c: int| channels[c]@)
}

/// Frames of a scratch buffer: the length of its first channel.
pub open spec fn frames_of<T>(channels: Seq<Seq<T>>) -> nat {
    if channels.len() == 0 {
        0
    } else {
        channels[0].len()
    }
}

/// A scratch buffer as the engine keeps it: one channel per channel of the
/// signal, all of one length.
pub open spec fn well_formed<T>(channels: Seq<Seq<T>>) -> bool {
    &&& channels.len() == CHANNELS
    &&& forall|c: int|
        0 <= c < channels.len() ==> (#[trigger] channels[c]).len() == frames_of(channels)
}

/// `later` has the channels of `earlier`, each with the same samples in
/// front and possibly more behind.
pub open spec fn extends<T>(later: Seq<Seq<T>>, earlier: Seq<Seq<T>>) -> bool {
    &&& later.len() == earlier.len()
    &&& forall|c: int| 0 <= c < earlier.len() ==> #[trigger] earlier[c].is_prefix_of(later[c])
}

/// Every scratch buffer extends itself, and extending is transitive.
pub proof fn lemma_extends_is_an_order<T>(a: Seq<Seq<T>>, b: Seq<Seq<T>>, c: Seq<Seq<T>>)
    ensures
        extends(a, a),
        extends(c, b) && extends(b, a) ==> extends(c, a),
{
    assert forall|k: int| 0 <= k < a.len() implies #[trigger] a[k].is_prefix_of(a[k]) by {
        assert(a[k].subrange(0, a[k].len() as int) =~= a[k]);
    }
    if extends(c, b) && extends(b, a) {
        assert forall|k: int| 0 <= k < a.len() implies #[trigger] a[k].is_prefix_of(c[k]) by {
            assert(a[k].is_prefix_of(b[k]));
            assert(b[k].is_prefix_of(c[k]));
        }
    }
}

/// Growing a scratch buffer keeps what it holds and leaves every channel
/// with at least the frames asked for.
pub proof fn lemma_grown_extends<T>(channels: Seq<Seq<T>>, frames: nat, silence: T)
    ensures
        extends(grown(channels, frames, silence), channels),
        forall|c: int|
            0 <= c < channels.len() ==> (#[trigger] grown(channels, frames, silence)[c]).len()
                == if channels[c].len() >= frames {
                channels[c].len()
            } else {
                frames
            },
{
    let after = grown(channels, frames, silence);
    assert forall|c: int| 0 <= c < channels.len() implies #[trigger] channels[c].is_prefix_of(
        after[c],
    ) by {
        assert(after[c] == grown_channel(channels[c], frames, silence));
    }
}

/// Growing a well-formed scratch buffer leaves it well formed, with the
/// larger of its frames and the frames asked for.
pub proof fn lemma_grown_well_formed<T>(channels: Seq<Seq<T>>, frames: nat, silence: T)
    requires
        well_formed(channels),
    ensures
        well_formed(grown(channels, frames, silence)),
        frames_of(grown(channels, frames, silence)) == if frames_of(channels) >= frames {
            frames_of(channels)
        } else {
            frames
        },
{
    lemma_grown_extends(channels, frames, silence);
}

/// One buffer of samples per channel, shared by the two stages.
pub struct ScratchBuffer<T> {
    channels: Vec<Vec<T>>,
    silence: T,
}

impl<T> View for ScratchBuffer<T> {
    type V = Seq<Seq<T>>;

    closed spec fn view(&self) -> Seq<Seq<T>> {
        samples_of(self.channels@)
    }
}

impl<T: Copy> ScratchBuffer<T> {
    /// The sample that extensions are filled with.
    pub closed spec fn silence(&self) -> T {
        self.silence
    }

    /// A buffer of `CHANNELS` channels, each holding `frames` frames of
    /// `silence`.
    pub fn new(frames: usize, silence: T) -> (buffer: Self)
        ensures
            buffer@ == Seq::new(CHANNELS as nat, |c: int| Seq::new(frames as nat, |i: int| silence)),
            buffer.silence() == silence,
            well_formed(buffer@),
    {
        let mut channels: Vec<Vec<T>> = Vec::new();
        while channels.len() < CHANNELS
            invariant
                channels@.len() <= CHANNELS,
                forall|k: int|
                    0 <= k < channels@.len() ==> (#[trigger] channels@[k])@ == Seq::new(
                        frames as nat,
                        |i: int| silence,
                    ),
            decreases CHANNELS - channels@.len(),
        {
            let mut channel: Vec<T> = Vec::new();
            grow_channel(&mut channel, frames, silence);
            channels.push(channel);
        }
        ScratchBuffer { channels, silence }
    }

    /// Frames the buffer holds per channel.
    pub fn frames(&self) -> (frames: usize)
        ensures
            frames == frames_of(self@),
    {
        if self.channels.len() == 0 {
            0
        } else {
            self.channels[0].len()
        }
    }

    /// The channels, for a stage to read from.
    pub fn channels(&self) -> (channels: &[Vec<T>])
        ensures
            samples_of(channels@) == self@,
    {
        self.channels.as_slice()
    }

    /// The channels, for a stage to write into.
    pub fn channels_mut(&mut self) -> (channels: &mut [Vec<T>])
        ensures
            samples_of(channels@) == old(self)@,
            final(self)@ == samples_of(final(channels)@),
            final(self).silence() == old(self).silence(),
    {
        self.channels.as_mut_slice()
    }

    /// Grows every channel that is shorter than `frames` to `frames`
    /// frames, filling the extension with silence. No channel shrinks.
    pub fn ensure_frames(&mut self, frames: usize)
        ensures
            final(self)@ == grown(old(self)@, frames as nat, old(self).silence()),
            final(self).silence() == old(self).silence(),
            well_formed(old(self)@) ==> well_formed(final(self)@),
    {
        let count = self.channels.len();
        let silence = self.silence;
        let mut c: usize = 0;
        while c < count
            invariant
                c <= count,
                count == self.channels@.len(),
                count == old(self).channels@.len(),
                silence == old(self).silence,
                self.silence == old(self).silence,
                forall|k: int|
                    0 <= k < c ==> (#[trigger] self.channels@[k])@ == grown_channel(
                        old(self).channels@[k]@,
                        frames as nat,
                        silence,
                    ),
                forall|k: int| c <= k < count ==> #[trigger] self.channels@[k] == old(self).channels@[k],
            decreases count - c,
        {
            grow_channel(&mut self.channels[c], frames, silence);
            c = c + 1;
        }
        proof {
            if well_formed(old(self)@) {
                lemma_grown_well_formed(old(self)@, frames as nat, silence);
            }
        }
    }
}

/// Pushes `silence` onto `channel` until it holds `frames` frames.
fn grow_channel<T: Copy>(channel: &mut Vec<T>, frames: usize, silence: T)
    ensures
        final(channel)@ == grown_channel(old(channel)@, frames as nat, silence),
{
    while channel.len() < frames
        invariant
            old(channel)@.len() <= channel@.len(),
            channel@.len() <= frames || channel@ == old(channel)@,
            channel@ == old(channel)@ + Seq::new(
                (channel@.len() - old(channel)@.len()) as nat,
                |i: int| silence,
            ),
        decreases frames - channel@.len(),
    {
        channel.push(silence);
    }
}

} // verus!
