//! The integer side of the spectrum visualizer: batching tapped samples
//! into fixed-size chunks, and turning the log-spaced bar edges into
//! non-overlapping bin ranges.

use vstd::prelude::*;

verus! {

/// Interleaved samples per chunk handed from the audio thread.
pub const CHUNK_SAMPLES: usize = 1024;

/// FFT window size.
pub const FFT_SIZE: usize = 2048;

/// Number of visualizer bars.
pub const BAR_COUNT: usize = 32;

/// A batch of interleaved samples; only the first `len` are meaningful.
#[derive(Clone, Copy)]
pub struct SampleChunk {
    pub data: [i16; 1024],
    pub len: usize,
    pub channels: u16,
    pub sample_rate: u32,
}

impl SampleChunk {
    /// The meaningful samples of the chunk.
    pub open spec fn samples(&self) -> Seq<i16> {
        self.data@.take(self.len as int)
    }
}

/// Batches the samples flowing to the audio device into chunks for the
/// visualizer, without altering them: every sample pushed comes out, in
/// order, in exactly one chunk.
pub struct SpectrumTap {
    pub buf: [i16; 1024],
    pub buf_len: usize,
    pub channels: u16,
    pub sample_rate: u32,
}

impl SpectrumTap {
    /// The samples buffered and not yet emitted.
    pub open spec fn buffered(&self) -> Seq<i16> {
        self.buf@.take(self.buf_len as int)
    }

    /// Whether the buffer bookkeeping is consistent.
    pub open spec fn wf(&self) -> bool {
        self.buf_len < CHUNK_SAMPLES
    }

    /// An empty tap for a source with this layout.
    pub fn new(channels: u16, sample_rate: u32) -> (r: SpectrumTap)
        ensures
            r.wf(),
            r.buffered() == Seq::<i16>::empty(),
            r.channels == channels,
            r.sample_rate == sample_rate,
    {
        SpectrumTap { buf: [0i16; 1024], buf_len: 0, channels, sample_rate }
    }

    /// Emits the buffered samples as a chunk, if there are any.
    pub fn flush(&mut self) -> (r: Option<SampleChunk>)
        requires
            old(self).wf(),
        ensures
            final(self).wf(),
            final(self).buffered() == Seq::<i16>::empty(),
            final(self).channels == old(self).channels,
            final(self).sample_rate == old(self).sample_rate,
            old(self).buf_len == 0 ==> r is None,
            old(self).buf_len > 0 ==> (r matches Some(c) && c.samples() == old(self).buffered()
                && c.channels == old(self).channels && c.sample_rate == old(self).sample_rate),
    {
        if self.buf_len == 0 {
            return None;
        }
        let chunk = SampleChunk {
            data: self.buf,
            len: self.buf_len,
            channels: self.channels,
            sample_rate: self.sample_rate,
        };
        self.buf_len = 0;
        Some(chunk)
    }

    /// Records one sample; emits a chunk when the buffer fills. What was
    /// buffered, followed by `sample`, is exactly what was emitted followed
    /// by what is buffered now.
    pub fn push(&mut self, sample: i16) -> (r: Option<SampleChunk>)
        requires
            old(self).wf(),
        ensures
            final(self).wf(),
            final(self).channels == old(self).channels,
            final(self).sample_rate == old(self).sample_rate,
            match r {
                Some(c) => c.samples() + final(self).buffered() == old(self).buffered().push(sample)
                    && c.len == CHUNK_SAMPLES && final(self).buf_len == 0,
                None => final(self).buffered() == old(self).buffered().push(sample),
            },
    {
        let ghost before = self.buffered();
        let i = self.buf_len;
        self.buf[i] = sample;
        self.buf_len = i + 1;
        assert(self.buffered() =~= before.push(sample));
        if self.buf_len == CHUNK_SAMPLES {
            let chunk = SampleChunk {
                data: self.buf,
                len: self.buf_len,
                channels: self.channels,
                sample_rate: self.sample_rate,
            };
            self.buf_len = 0;
            assert(self.buffered() =~= Seq::<i16>::empty());
            assert(chunk.samples() + self.buffered() =~= before.push(sample));
            return Some(chunk);
        }
        None
    }
}

/// Edges after the nudge pass: each edge that does not rise above its
/// predecessor is moved one bin past it, capped at `max_bin - 1`.
pub open spec fn nudged_edges(raw: Seq<usize>, max_bin: int) -> Seq<int>
    decreases raw.len(),
{
    if raw.len() == 0 {
        Seq::empty()
    } else {
        let prev = nudged_edges(raw.drop_last(), max_bin);
        let e = raw.last() as int;
        if prev.len() > 0 && e <= prev.last() {
            prev.push(if prev.last() + 1 < max_bin - 1 { prev.last() + 1 } else { max_bin - 1 })
        } else {
            prev.push(e)
        }
    }
}

/// `nudged_edges` keeps one edge per raw edge.
proof fn lemma_nudged_len(raw: Seq<usize>, max_bin: int)
    ensures
        nudged_edges(raw, max_bin).len() == raw.len(),
    decreases raw.len(),
{
    if raw.len() > 0 {
        lemma_nudged_len(raw.drop_last(), max_bin);
    }
}

/// Bins of bar `i`: from edge `i` up to edge `i + 1`.
pub open spec fn spec_bar_bins(raw: Seq<usize>, max_bin: int) -> Seq<(int, int)> {
    let e = nudged_edges(raw, max_bin);
    Seq::new(if raw.len() == 0 { 0 } else { (raw.len() - 1) as nat }, |i: int| (e[i], e[i + 1]))
}

/// Turns raw log-spaced edges (already clamped to `1..max_bin`) into
/// contiguous bin ranges `[start, end)`, one per consecutive pair of edges,
/// nudged so no bar collapses onto its predecessor's edge where possible.
pub fn bar_bins_from_edges(raw: &Vec<usize>, max_bin: usize) -> (r: Vec<(usize, usize)>)
    requires
        max_bin >= 2,
        forall|i: int| 0 <= i < raw@.len() ==> 1 <= #[trigger] raw@[i] <= max_bin - 1,
    ensures
        r@.map_values(|p: (usize, usize)| (p.0 as int, p.1 as int)) == spec_bar_bins(raw@, max_bin as int),
        forall|i: int| 0 <= i < r@.len() ==> 1 <= (#[trigger] r@[i]).0 <= r@[i].1 <= max_bin - 1,
        forall|i: int| 0 <= i < r@.len() - 1 ==> (#[trigger] r@[i]).1 == r@[i + 1].0,
{
    let mut edges: Vec<usize> = Vec::new();
    let mut i: usize = 0;
    while i < raw.len()
        invariant
            i <= raw.len(),
            max_bin >= 2,
            forall|k: int| 0 <= k < raw@.len() ==> 1 <= #[trigger] raw@[k] <= max_bin - 1,
            edges@.map_values(|x: usize| x as int) == nudged_edges(raw@.take(i as int), max_bin as int),
            forall|k: int| 0 <= k < edges@.len() ==> 1 <= #[trigger] edges@[k] <= max_bin - 1,
            forall|k: int, j: int| 0 <= k <= j < edges@.len() ==> edges@[k] <= edges@[j],
            edges@.len() == i,
        decreases raw.len() - i,
    {
        let e = raw[i];
        assert(raw@.take(i + 1).drop_last() =~= raw@.take(i as int));
        let ghost prev = edges@.map_values(|x: usize| x as int);
        let value = if i > 0 && e <= edges[i - 1] {
            let p = edges[i - 1];
            if p + 1 < max_bin - 1 { p + 1 } else { max_bin - 1 }
        } else {
            e
        };
        edges.push(value);
        assert(edges@.map_values(|x: usize| x as int) =~= prev.push(value as int));
        i = i + 1;
    }
    assert(raw@.take(raw.len() as int) =~= raw@);
    let mut r: Vec<(usize, usize)> = Vec::new();
    let mut j: usize = 0;
    let n = if edges.len() == 0 { 0 } else { edges.len() - 1 };
    while j < n
        invariant
            j <= n,
            n == if edges@.len() == 0 { 0 } else { edges@.len() - 1 },
            edges@.map_values(|x: usize| x as int) == nudged_edges(raw@, max_bin as int),
            edges@.len() == raw@.len(),
            forall|k: int| 0 <= k < edges@.len() ==> 1 <= #[trigger] edges@[k] <= max_bin - 1,
            forall|k: int, q: int| 0 <= k <= q < edges@.len() ==> edges@[k] <= edges@[q],
            r@.len() == j,
            forall|k: int| 0 <= k < j ==> #[trigger] r@[k] == (edges@[k], edges@[k + 1]),
        decreases n - j,
    {
        r.push((edges[j], edges[j + 1]));
        j = j + 1;
    }
    assert(r@.map_values(|p: (usize, usize)| (p.0 as int, p.1 as int)) =~= spec_bar_bins(raw@, max_bin as int)) by {
        let e = nudged_edges(raw@, max_bin as int);
        assert forall|k: int| 0 <= k < r@.len() implies
            (r@[k].0 as int, r@[k].1 as int) == (e[k], e[k + 1]) by {
            assert(e[k] == edges@.map_values(|x: usize| x as int)[k]);
            assert(e[k + 1] == edges@.map_values(|x: usize| x as int)[k + 1]);
        }
    }
    r
}

} // verus!
