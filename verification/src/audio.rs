//! The interleaved audio buffer the host lends for one processing call:
//! one 16-bit signed sample per channel per tick, channels interleaved.

use vstd::prelude::*;

verus! {

/// An interleaved audio sample buffer. Sample `k` of channel `c` sits at
/// index `k * channels + c`.
pub struct AudioBuffer {
    data: Vec<i16>,
    total_samples: usize,
    channels: usize,
}

impl AudioBuffer {
    /// The interleaved samples.
    pub closed spec fn samples(&self) -> Seq<i16> {
        self.data@
    }

    /// The number of channels.
    pub closed spec fn channel_count(&self) -> int {
        self.channels as int
    }

    /// The per-channel tick count the host reported.
    pub closed spec fn total(&self) -> int {
        self.total_samples as int
    }

    /// A buffer is well formed when it has at least one channel and holds
    /// exactly one sample per channel per tick.
    pub open spec fn wf(&self) -> bool {
        &&& self.channel_count() >= 1
        &&& self.samples().len() == self.total() * self.channel_count()
    }

    /// Builds a buffer from interleaved samples and a channel count,
    /// refusing a zero channel count or a length that is not a whole number
    /// of ticks.
    pub fn from_parts(data: Vec<i16>, channels: usize) -> (r: Option<Self>)
        ensures
            match r {
                Some(b) => b.wf() && b.samples() == data@ && b.channel_count() == channels,
                None => channels == 0 || (data@.len() as int) % (channels as int) != 0,
            },
    {
        if channels == 0 || data.len() % channels != 0 {
            return None;
        }
        let total_samples = data.len() / channels;
        proof {
            vstd::arithmetic::div_mod::lemma_fundamental_div_mod(data@.len() as int, channels as int);
            vstd::arithmetic::mul::lemma_mul_is_commutative(total_samples as int, channels as int);
        }
        Some(AudioBuffer { data, total_samples, channels })
    }

    /// The number of channels.
    pub fn channels(&self) -> (r: usize)
        ensures
            r == self.channel_count(),
    {
        self.channels
    }

    /// How many ticks each channel holds: one sample per channel per
    /// tick, so the tick count is the sample count divided by the channel
    /// count once.
    pub fn samples_per_channel(&self) -> (r: usize)
        ensures
            r == self.total(),
    {
        self.total_samples
    }

    /// Reads sample `k` of one channel.
    pub fn sample(&self, channel: usize, k: usize) -> (r: i16)
        requires
            self.wf(),
            channel < self.channel_count(),
            k < self.total(),
        ensures
            r == self.samples()[k * self.channel_count() + channel],
    {
        let n = self.data.len();
        proof {
            lemma_interleaved_index_in_range(
                self.total(),
                self.channel_count(),
                k as int,
                channel as int,
            );
        }
        self.data[k * self.channels + channel]
    }

    /// Writes sample `k` of one channel; every other sample is untouched.
    pub fn set_sample(&mut self, channel: usize, k: usize, v: i16)
        requires
            old(self).wf(),
            channel < old(self).channel_count(),
            k < old(self).total(),
        ensures
            final(self).wf(),
            final(self).channel_count() == old(self).channel_count(),
            final(self).total() == old(self).total(),
            final(self).samples() == old(self).samples().update(
                k * old(self).channel_count() + channel,
                v,
            ),
    {
        let n = self.data.len();
        proof {
            lemma_interleaved_index_in_range(
                self.total(),
                self.channel_count(),
                k as int,
                channel as int,
            );
        }
        let i = k * self.channels + channel;
        self.data[i] = v;
    }

    /// All samples of one channel, in tick order. A channel index at or
    /// past the channel count yields nothing.
    pub fn samples_by_channel(&self, channel: usize) -> (r: Vec<i16>)
        requires
            self.wf(),
        ensures
            channel < self.channel_count() ==> r@ == Seq::new(
                self.total() as nat,
                |k: int| self.samples()[k * self.channel_count() + channel],
            ),
            channel >= self.channel_count() ==> r@.len() == 0,
    {
        let mut out: Vec<i16> = Vec::new();
        if channel >= self.channels {
            return out;
        }
        let mut k: usize = 0;
        while k < self.total_samples
            invariant
                self.wf(),
                channel < self.channel_count(),
                k <= self.total(),
                out@.len() == k,
                forall|j: int|
                    0 <= j < k ==> out@[j] == self.samples()[j * self.channel_count() + channel],
            decreases self.total_samples - k,
        {
            let v = self.sample(channel, k);
            out.push(v);
            k += 1;
        }
        proof {
            assert(out@ =~= Seq::new(
                self.total() as nat,
                |j: int| self.samples()[j * self.channel_count() + channel],
            ));
        }
        out
    }
}

/// Sample `k` of a channel sits inside the interleaved buffer.
proof fn lemma_interleaved_index_in_range(total: int, channels: int, k: int, channel: int)
    requires
        channels >= 1,
        0 <= channel < channels,
        0 <= k < total,
    ensures
        0 <= k * channels + channel < total * channels,
{
    assert(k * channels + channel < total * channels) by (nonlinear_arith)
        requires
            k < total,
            channel < channels,
            channels >= 1,
            k >= 0,
    ;
    vstd::arithmetic::mul::lemma_mul_nonnegative(k, channels);
}

} // verus!
