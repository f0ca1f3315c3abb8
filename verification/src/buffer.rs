use vstd::prelude::*;

use crate::error::AudioBufferError;

verus! {

/// A multi-channel sample buffer.
///
/// Each channel is one independent stream of samples. All channels always
/// hold the same number of valid samples. The buffer is created in one of
/// two modes: owned (it allocated its storage itself and may grow) or
/// borrowed (its storage was handed over by an external owner and its
/// length is fixed for the buffer's lifetime).
///
/// The element type is opaque to the buffer: samples are stored, handed
/// out and appended, never inspected, so the buffer works for any copyable
/// sample format (a 32-bit or 64-bit IEEE value would be carried through
/// unchanged). For the same reason the sample rate is carried as the bit
/// pattern of a 64-bit IEEE value: the buffer never computes with it, it
/// only keeps it for callers that derive a duration from it.
pub struct AudioBuffer<T> {
    data: Vec<Vec<T>>,
    sample_rate_bits: u64,
    channels: usize,
    length: usize,
    owns_storage: bool,
}

impl<T> View for AudioBuffer<T> {
    type V = Seq<Seq<T>>;

    /// The abstract value of the buffer: one sequence of samples per channel.
    closed spec fn view(&self) -> Seq<Seq<T>> {
        Seq::new(self.data@.len(), |c: int| self.data@[c]@)
    }
}

impl<T> AudioBuffer<T> {
    /// The number of channels fixed at construction.
    pub closed spec fn spec_channel_count(&self) -> usize {
        self.channels
    }

    /// The number of samples currently valid in every channel.
    pub closed spec fn spec_length(&self) -> usize {
        self.length
    }

    /// The bit pattern of the 64-bit IEEE sample rate given at construction.
    pub closed spec fn spec_sample_rate_bits(&self) -> u64 {
        self.sample_rate_bits
    }

    /// Whether the buffer allocated its own storage (and so may grow).
    pub closed spec fn spec_owns_storage(&self) -> bool {
        self.owns_storage
    }

    /// Well-formedness: there are exactly `channel_count` channels and every
    /// channel holds exactly `length_samples` valid samples. Both
    /// constructors establish this and every method preserves it.
    pub open spec fn wf(&self) -> bool {
        &&& self@.len() == self.spec_channel_count()
        &&& forall|c: int| 0 <= c < self@.len() ==> (#[trigger] self@[c]).len() == self.spec_length()
    }

    /// The number of channels.
    #[verifier::when_used_as_spec(spec_channel_count)]
    pub fn channel_count(&self) -> (n: usize)
        ensures
            n == self.spec_channel_count(),
    {
        self.channels
    }

    /// The number of samples currently valid in every channel.
    #[verifier::when_used_as_spec(spec_length)]
    pub fn length_samples(&self) -> (n: usize)
        ensures
            n == self.spec_length(),
    {
        self.length
    }

    /// The bit pattern of the 64-bit IEEE sample rate given at construction.
    /// The buffer never computes with the rate; callers that want the
    /// duration in seconds divide the sample count by the decoded rate.
    #[verifier::when_used_as_spec(spec_sample_rate_bits)]
    pub fn sample_rate_bits(&self) -> (bits: u64)
        ensures
            bits == self.spec_sample_rate_bits(),
    {
        self.sample_rate_bits
    }

    /// Whether the buffer owns its storage, and so may grow.
    #[verifier::when_used_as_spec(spec_owns_storage)]
    pub fn owns_storage(&self) -> (owned: bool)
        ensures
            owned == self.spec_owns_storage(),
    {
        self.owns_storage
    }

    /// Constructs an owned, empty, growable buffer: `channels` independent
    /// channels of zero samples each. Only sample-container headers are
    /// allocated; no sample storage exists until the buffer grows.
    pub fn new(sample_rate_bits: u64, channels: usize) -> (buf: Self)
        ensures
            buf.wf(),
            buf@ == Seq::new(channels as nat, |c: int| Seq::<T>::empty()),
            buf.spec_channel_count() == channels,
            buf.spec_length() == 0,
            buf.spec_sample_rate_bits() == sample_rate_bits,
            buf.spec_owns_storage(),
    {
        let mut data: Vec<Vec<T>> = Vec::new();
        let mut c: usize = 0;
        while c < channels
            invariant
                c <= channels,
                data@.len() == c,
                forall|i: int| 0 <= i < c ==> (#[trigger] data@[i])@.len() == 0,
            decreases channels - c,
        {
            data.push(Vec::new());
            c = c + 1;
        }
        let buf = AudioBuffer {
            data,
            sample_rate_bits,
            channels,
            length: 0,
            owns_storage: true,
        };
        proof {
            assert(buf@ =~~= Seq::new(channels as nat, |c: int| Seq::<T>::empty()));
        }
        buf
    }

    /// Constructs a borrowed-mode buffer over per-channel sample blocks
    /// whose allocation an external owner has handed over. Nothing is
    /// copied: the supplied blocks become the buffer's channels. The
    /// descriptor is validated: it must hold exactly `channels` blocks of
    /// exactly `length` samples each, else the construction is rejected
    /// with `InvalidBufferDescriptor` and nothing is built. A borrowed
    /// buffer never grows.
    pub fn from_raw_data(data: Vec<Vec<T>>, sample_rate_bits: u64, channels: usize, length: usize)
        -> (r: Result<Self, AudioBufferError>)
        ensures
            r is Ok <==> (data@.len() == channels
                && forall|c: int| 0 <= c < data@.len() ==> (#[trigger] data@[c])@.len() == length),
            r matches Ok(buf) ==> {
                &&& buf.wf()
                &&& buf@ == Seq::new(data@.len(), |c: int| data@[c]@)
                &&& buf.spec_channel_count() == channels
                &&& buf.spec_length() == length
                &&& buf.spec_sample_rate_bits() == sample_rate_bits
                &&& !buf.spec_owns_storage()
            },
            r is Err ==> r == Err::<Self, AudioBufferError>(AudioBufferError::InvalidBufferDescriptor),
    {
        if data.len() != channels {
            return Err(AudioBufferError::InvalidBufferDescriptor);
        }
        let mut c: usize = 0;
        while c < channels
            invariant
                c <= channels,
                data@.len() == channels,
                forall|i: int| 0 <= i < c ==> (#[trigger] data@[i])@.len() == length,
            decreases channels - c,
        {
            if data[c].len() != length {
                return Err(AudioBufferError::InvalidBufferDescriptor);
            }
            c = c + 1;
        }
        Ok(AudioBuffer {
            data,
            sample_rate_bits,
            channels,
            length,
            owns_storage: false,
        })
    }

    /// Read-only access to one channel: a view of exactly `length_samples`
    /// samples. A channel index at or beyond the channel count is rejected
    /// with `IndexOutOfRange`; valid indices always succeed.
    pub fn get_reader(&self, channel: usize) -> (r: Result<&Vec<T>, AudioBufferError>)
        requires
            self.wf(),
        ensures
            r is Ok <==> channel < self.spec_channel_count(),
            r matches Ok(samples) ==> samples@ == self@[channel as int],
            r is Err ==> r == Err::<&Vec<T>, AudioBufferError>(AudioBufferError::IndexOutOfRange),
    {
        if channel < self.channels {
            Ok(&self.data[channel])
        } else {
            Err(AudioBufferError::IndexOutOfRange)
        }
    }

    /// Mutable access to one channel: writing through the returned handle
    /// mutates the buffer's own storage in place, nothing is copied. A
    /// channel index at or beyond the channel count is rejected with
    /// `IndexOutOfRange`; valid indices always succeed.
    pub fn get_writer(&mut self, channel: usize) -> (r: Result<&mut Vec<T>, AudioBufferError>)
        requires
            old(self).wf(),
        ensures
            r is Ok <==> channel < old(self).spec_channel_count(),
            r matches Ok(samples) ==> {
                &&& samples@ == old(self)@[channel as int]
                &&& final(self)@ == old(self)@.update(channel as int, final(samples)@)
                &&& final(self).spec_channel_count() == old(self).spec_channel_count()
                &&& final(self).spec_length() == old(self).spec_length()
                &&& final(self).spec_sample_rate_bits() == old(self).spec_sample_rate_bits()
                &&& final(self).spec_owns_storage() == old(self).spec_owns_storage()
            },
            r is Err ==> {
                &&& r == Err::<&mut Vec<T>, AudioBufferError>(AudioBufferError::IndexOutOfRange)
                &&& *final(self) == *old(self)
            },
    {
        if channel < self.channels {
            Ok(&mut self.data[channel])
        } else {
            Err(AudioBufferError::IndexOutOfRange)
        }
    }
}

impl<T: Copy> AudioBuffer<T> {
    /// Grows an owned buffer: appends `samples` samples, each equal to the
    /// given zero sample, to every channel, and advances the length by the
    /// same amount; existing samples are kept unchanged. On a borrowed-mode
    /// buffer growth is illegal: the call is rejected with
    /// `IllegalGrowthOnBorrowedBuffer` and the buffer is left untouched.
    pub fn extend(&mut self, samples: usize, zero: T) -> (r: Result<(), AudioBufferError>)
        requires
            old(self).wf(),
            old(self).spec_owns_storage() ==> old(self).spec_length() + samples <= usize::MAX,
        ensures
            r is Ok <==> old(self).spec_owns_storage(),
            r is Ok ==> {
                &&& final(self).wf()
                &&& final(self).spec_length() == old(self).spec_length() + samples
                &&& final(self)@.len() == old(self)@.len()
                &&& forall|c: int| 0 <= c < old(self)@.len()
                    ==> #[trigger] final(self)@[c]
                        == old(self)@[c] + Seq::new(samples as nat, |j: int| zero)
                &&& final(self).spec_channel_count() == old(self).spec_channel_count()
                &&& final(self).spec_sample_rate_bits() == old(self).spec_sample_rate_bits()
                &&& final(self).spec_owns_storage()
            },
            r is Err ==> {
                &&& r == Err::<(), AudioBufferError>(AudioBufferError::IllegalGrowthOnBorrowedBuffer)
                &&& *final(self) == *old(self)
                &&& !old(self).spec_owns_storage()
            },
    {
        if !self.owns_storage {
            return Err(AudioBufferError::IllegalGrowthOnBorrowedBuffer);
        }
        let ghost orig = *self;
        let channels: usize = self.data.len();
        let mut c: usize = 0;
        while c < channels
            invariant
                c <= channels,
                channels == orig.data@.len(),
                self.data@.len() == orig.data@.len(),
                self.channels == orig.channels,
                self.sample_rate_bits == orig.sample_rate_bits,
                self.length == orig.length,
                self.owns_storage == orig.owns_storage,
                forall|i: int| 0 <= i < c
                    ==> #[trigger] self.data@[i]@
                        == orig.data@[i]@ + Seq::new(samples as nat, |j: int| zero),
                forall|i: int| c <= i < channels ==> #[trigger] self.data@[i]@ == orig.data@[i]@,
            decreases channels - c,
        {
            let mut j: usize = 0;
            while j < samples
                invariant
                    j <= samples,
                    c < channels,
                    channels == orig.data@.len(),
                    self.data@.len() == orig.data@.len(),
                    self.channels == orig.channels,
                    self.sample_rate_bits == orig.sample_rate_bits,
                    self.length == orig.length,
                    self.owns_storage == orig.owns_storage,
                    self.data@[c as int]@ == orig.data@[c as int]@ + Seq::new(j as nat, |k: int| zero),
                    forall|i: int| 0 <= i < c
                        ==> #[trigger] self.data@[i]@
                            == orig.data@[i]@ + Seq::new(samples as nat, |k: int| zero),
                    forall|i: int| c < i < channels ==> #[trigger] self.data@[i]@ == orig.data@[i]@,
                decreases samples - j,
            {
                self.data[c].push(zero);
                j = j + 1;
                proof {
                    assert(self.data@[c as int]@
                        =~= orig.data@[c as int]@ + Seq::new(j as nat, |k: int| zero));
                }
            }
            c = c + 1;
        }
        self.length = self.length + samples;
        proof {
            assert forall|i: int| 0 <= i < self@.len() implies (#[trigger] self@[i]).len()
                == self.spec_length() by {
                assert(self.data@[i]@ == orig.data@[i]@ + Seq::new(samples as nat, |k: int| zero));
                assert(orig.data@[i]@ == orig@[i]);
            }
        }
        Ok(())
    }
}

} // verus!
