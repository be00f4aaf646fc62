//! The audio side of the renderer: decoding captured bytes into per-channel
//! sample words, the half-spectrum length policy, the capture pipeline's
//! idle wait, and the single-slot mailbox that carries the latest waveform
//! and spectrum from the capture thread to the renderer.
//!
//! A sample crosses this module as the 32-bit word that the capture device
//! delivered (the bit pattern of one native-endian 32-bit float). The
//! numeric transform itself (the forward FFT and the magnitudes) is floating
//! point and runs outside this crate; everything that decides which word
//! lands where is verified here.

use vstd::prelude::*;

verus! {

/// The 32-bit little-endian word starting at byte `4 * i`.
pub open spec fn spec_word_at(bytes: Seq<u8>, i: int) -> u32 {
    (bytes[4 * i] + 256 * bytes[4 * i + 1] + 65536 * bytes[4 * i + 2] + 16777216 * bytes[4 * i
        + 3]) as u32
}

/// Regroups a captured byte buffer into 32-bit sample words, little-endian,
/// four bytes a word; trailing bytes that do not fill a word are dropped.
pub fn sample_words(bytes: &Vec<u8>) -> (r: Vec<u32>)
    ensures
        r@.len() == bytes@.len() / 4,
        forall|i: int| 0 <= i < r@.len() ==> r@[i] == spec_word_at(bytes@, i),
{
    let blen = bytes.len();
    let n = blen / 4;
    let mut r: Vec<u32> = Vec::new();
    let mut k: usize = 0;
    proof {
        assert(4 * (bytes@.len() as int / 4) <= bytes@.len());
    }
    while k < n
        invariant
            k <= n,
            blen == bytes@.len(),
            n == bytes@.len() / 4,
            4 * n <= bytes@.len(),
            r@.len() == k,
            forall|i: int| 0 <= i < k ==> r@[i] == spec_word_at(bytes@, i),
        decreases n - k,
    {
        let b0 = bytes[4 * k] as u32;
        let b1 = bytes[4 * k + 1] as u32;
        let b2 = bytes[4 * k + 2] as u32;
        let b3 = bytes[4 * k + 3] as u32;
        let w = b0 + 256 * b1 + 65536 * b2 + 16777216 * b3;
        r.push(w);
        k = k + 1;
    }
    r
}

/// Splits a buffer of interleaved sample words into one waveform per
/// channel: the device stores one frame as `channels` consecutive words, one
/// per channel, so channel `c` receives the words at `frame * channels + c`.
/// Words of a trailing incomplete frame are dropped.
pub fn deinterleave(words: &Vec<u32>, channels: usize) -> (r: Vec<Vec<u32>>)
    requires
        channels >= 1,
    ensures
        r@.len() == channels,
        forall|c: int| 0 <= c < channels ==> #[trigger] r@[c]@.len() == words@.len() as int / channels as int,
        forall|c: int, j: int|
            0 <= c < channels && 0 <= j < words@.len() as int / channels as int ==> #[trigger] r@[c]@[j]
                == words@[j * channels + c],
{
    let wlen = words.len();
    let frames = wlen / channels;
    proof {
        assert(frames * channels <= words@.len()) by (nonlinear_arith)
            requires
                channels >= 1,
                frames == words@.len() as int / channels as int,
                words@.len() >= 0,
        {
            vstd::arithmetic::div_mod::lemma_fundamental_div_mod(
                words@.len() as int,
                channels as int,
            );
            vstd::arithmetic::div_mod::lemma_mod_division_less_than_divisor(
                words@.len() as int,
                channels as int,
            );
        }
    }
    let mut r: Vec<Vec<u32>> = Vec::new();
    let mut c: usize = 0;
    while c < channels
        invariant
            c <= channels,
            channels >= 1,
            wlen == words@.len(),
            frames == words@.len() as int / channels as int,
            frames * channels <= words@.len(),
            r@.len() == c,
            forall|c2: int| 0 <= c2 < c ==> #[trigger] r@[c2]@.len() == frames,
            forall|c2: int, j: int|
                0 <= c2 < c && 0 <= j < frames ==> #[trigger] r@[c2]@[j] == words@[j * channels
                    + c2],
        decreases channels - c,
    {
        let mut wave: Vec<u32> = Vec::new();
        let mut j: usize = 0;
        while j < frames
            invariant
                j <= frames,
                c < channels,
                wlen == words@.len(),
                frames * channels <= words@.len(),
                wave@.len() == j,
                forall|j2: int| 0 <= j2 < j ==> #[trigger] wave@[j2] == words@[j2 * channels + c],
            decreases frames - j,
        {
            proof {
                assert(j * channels + c < frames * channels) by (nonlinear_arith)
                    requires
                        0 <= j < frames,
                        0 <= c < channels,
                ;
            }
            wave.push(words[j * channels + c]);
            j = j + 1;
        }
        r.push(wave);
        c = c + 1;
    }
    r
}

/// How many spectrum bins a waveform of the given length yields: the first
/// half of the transform's output, the mirrored negative-frequency half
/// discarded. A waveform of no or one sample yields an empty spectrum.
pub fn spectrum_len(waveform_len: usize) -> (r: usize)
    ensures
        r == waveform_len / 2,
{
    waveform_len / 2
}

/// How long the capture pipeline idles, in milliseconds, before it re-checks
/// whether the renderer has consumed the previous publication.
pub fn capture_idle_millis(sample_rate: u32, buffer_size: u32) -> (r: u64)
    requires
        buffer_size >= 1,
    ensures
        r == sample_rate as int / buffer_size as int,
{
    sample_rate as u64 / buffer_size as u64
}

/// The mathematical content of the mailbox: the latest per-channel waveforms
/// and spectra, and whether they are still unread.
pub struct MailboxView {
    pub waveforms: Seq<Seq<u32>>,
    pub spectra: Seq<Seq<u32>>,
    pub fresh: bool,
}

/// What a publish leaves in the slot: the published buffers, marked fresh.
/// An unconsumed earlier publication is overwritten (latest wins; there is
/// no queue).
pub open spec fn spec_publish(m: MailboxView, w: Seq<Seq<u32>>, s: Seq<Seq<u32>>) -> MailboxView {
    MailboxView { waveforms: w, spectra: s, fresh: true }
}

/// What a consume leaves in the slot: the buffers stay readable, but the
/// freshness is cleared, so the capture side may resume work.
pub open spec fn spec_consume(m: MailboxView) -> MailboxView {
    MailboxView { fresh: false, ..m }
}

/// The slot shared between the capture thread and the renderer. The embedding
/// program holds it behind one lock and keeps each publish and each
/// read-and-consume inside a single critical section; this type supplies the
/// transitions that happen under that lock.
pub struct AudioMailbox {
    waveforms: Vec<Vec<u32>>,
    spectra: Vec<Vec<u32>>,
    fresh: bool,
}

impl View for AudioMailbox {
    type V = MailboxView;

    closed spec fn view(&self) -> MailboxView {
        MailboxView {
            waveforms: self.waveforms.deep_view(),
            spectra: self.spectra.deep_view(),
            fresh: self.fresh,
        }
    }
}

impl AudioMailbox {
    /// An empty slot with nothing to consume: the capture side may publish
    /// at once.
    pub fn new() -> (r: AudioMailbox)
        ensures
            !r@.fresh,
            r@.waveforms == Seq::<Seq<u32>>::empty(),
            r@.spectra == Seq::<Seq<u32>>::empty(),
    {
        let r = AudioMailbox { waveforms: Vec::new(), spectra: Vec::new(), fresh: false };
        proof {
            assert(r@.waveforms =~= Seq::<Seq<u32>>::empty());
            assert(r@.spectra =~= Seq::<Seq<u32>>::empty());
        }
        r
    }

    /// Whether the previous publication has been consumed: the capture
    /// pipeline does no new work while this is false (backpressure by
    /// skipping, not queueing).
    pub fn ready_for_publish(&self) -> (r: bool)
        ensures
            r == !self@.fresh,
    {
        !self.fresh
    }

    /// Stores a waveform/spectrum pair and marks the slot fresh.
    pub fn publish(&mut self, waveforms: Vec<Vec<u32>>, spectra: Vec<Vec<u32>>)
        ensures
            final(self)@ == spec_publish(old(self)@, waveforms.deep_view(), spectra.deep_view()),
    {
        self.waveforms = waveforms;
        self.spectra = spectra;
        self.fresh = true;
    }

    /// The latest published waveforms, fresh or stale.
    pub fn waveforms(&self) -> (r: &Vec<Vec<u32>>)
        ensures
            r.deep_view() == self@.waveforms,
    {
        &self.waveforms
    }

    /// The latest published spectra, fresh or stale.
    pub fn spectra(&self) -> (r: &Vec<Vec<u32>>)
        ensures
            r.deep_view() == self@.spectra,
    {
        &self.spectra
    }

    /// Clears the freshness and reports whether the slot was fresh: true
    /// exactly once per publish, however often the renderer polls.
    pub fn consume(&mut self) -> (was_fresh: bool)
        ensures
            was_fresh == old(self)@.fresh,
            final(self)@ == spec_consume(old(self)@),
    {
        let was_fresh = self.fresh;
        self.fresh = false;
        was_fresh
    }

    /// One publish is consumed at most once: consuming clears the freshness,
    /// so a second consume with no publish in between finds the slot stale,
    /// and consuming a stale slot changes nothing.
    pub proof fn lemma_consume_at_most_once(m: MailboxView)
        ensures
            !spec_consume(m).fresh,
            spec_consume(spec_consume(m)) == spec_consume(m),
    {
    }

    /// A publication never starves a polling consumer: a publish leaves the
    /// slot fresh, the very next consume observes that freshness (it returns
    /// exactly the slot's freshness) and reads the published buffers
    /// unchanged.
    pub proof fn lemma_publish_reaches_consumer(m: MailboxView, w: Seq<Seq<u32>>, s: Seq<Seq<u32>>)
        ensures
            spec_publish(m, w, s).fresh,
            spec_publish(m, w, s).waveforms == w,
            spec_publish(m, w, s).spectra == s,
            spec_consume(spec_publish(m, w, s)).waveforms == w,
            spec_consume(spec_publish(m, w, s)).spectra == s,
    {
    }
}

} // verus!
