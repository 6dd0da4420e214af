use vstd::prelude::*;

use crate::error::AudioError;

verus! {

/// The samples that a capture stream has delivered so far, in canonical form.
///
/// The input callback appends each block it receives; the control thread
/// takes the whole buffer out when the recording is finalized.
pub struct CaptureBuffer<T> {
    samples: Vec<T>,
}

impl<T> View for CaptureBuffer<T> {
    type V = Seq<T>;

    closed spec fn view(&self) -> Seq<T> {
        self.samples@
    }
}

impl<T> CaptureBuffer<T> {
    pub fn new() -> (r: Self)
        ensures
            r@ == Seq::<T>::empty(),
    {
        CaptureBuffer { samples: Vec::new() }
    }

    pub fn len(&self) -> (r: usize)
        ensures
            r == self@.len(),
    {
        self.samples.len()
    }

    /// Drops every sample held.
    pub fn clear(&mut self)
        ensures
            final(self)@ == Seq::<T>::empty(),
    {
        self.samples = Vec::new();
    }

    /// Appends one block of raw samples, each converted by `convert`.
    pub fn append_block<R: Copy, F: Fn(R) -> T>(&mut self, data: &[R], convert: F)
        requires
            forall|x: R| convert.requires((x,)),
        ensures
            final(self)@.len() == old(self)@.len() + data@.len(),
            final(self)@.subrange(0, old(self)@.len() as int) == old(self)@,
            forall|i: int|
                0 <= i < data@.len() ==> convert.ensures(
                    (data@[i],),
                    #[trigger] final(self)@[old(self)@.len() + i],
                ),
    {
        let mut i: usize = 0;
        while i < data.len()
            invariant
                forall|x: R| convert.requires((x,)),
                i <= data@.len(),
                self@.len() == old(self)@.len() + i,
                self@.subrange(0, old(self)@.len() as int) == old(self)@,
                forall|k: int|
                    0 <= k < i ==> convert.ensures(
                        (data@[k],),
                        #[trigger] self@[old(self)@.len() + k],
                    ),
            decreases data@.len() - i,
        {
            let v = convert(data[i]);
            self.samples.push(v);
            i = i + 1;
        }
    }

    /// Detaches the samples, leaving the buffer empty.
    pub fn take(&mut self) -> (r: Vec<T>)
        ensures
            r@ == old(self)@,
            final(self)@ == Seq::<T>::empty(),
    {
        let mut taken = Vec::new();
        std::mem::swap(&mut taken, &mut self.samples);
        taken
    }
}

/// The part of a playback session that decides what a callback does: how
/// many samples there are, where the cursor stands, whether output is paused
/// and whether completion has been signalled.
pub struct CursorState {
    pub len: nat,
    pub position: nat,
    pub paused: bool,
    pub signalled: bool,
}

/// The session after one callback with an output window of `window` samples,
/// and whether that callback signals completion.
///
/// A paused session emits silence and changes nothing. Otherwise the cursor
/// advances by as many samples as fit, and completion is signalled when the
/// cursor stands at the end and it has not been signalled before.
pub open spec fn after_block(s: CursorState, window: nat) -> (CursorState, bool) {
    if s.paused {
        (s, false)
    } else {
        let remaining = (s.len - s.position) as nat;
        let n = if window < remaining {
            window
        } else {
            remaining
        };
        let p = s.position + n;
        let signal = !s.signalled && p == s.len;
        (CursorState { position: p, signalled: s.signalled || signal, ..s }, signal)
    }
}

/// The session after callbacks with the given output windows, in order.
pub open spec fn after_blocks(s: CursorState, windows: Seq<nat>) -> CursorState
    decreases windows.len(),
{
    if windows.len() == 0 {
        s
    } else {
        after_blocks(after_block(s, windows[0]).0, windows.drop_first())
    }
}

/// How many of those callbacks signal completion.
pub open spec fn signals_over(s: CursorState, windows: Seq<nat>) -> nat
    decreases windows.len(),
{
    if windows.len() == 0 {
        0
    } else {
        (if after_block(s, windows[0]).1 {
            1nat
        } else {
            0nat
        }) + signals_over(after_block(s, windows[0]).0, windows.drop_first())
    }
}

/// Completion is signalled once: from a session that has not signalled yet,
/// any run of callbacks signals at most once, signals exactly when the session
/// ends up marked as signalled, and, while playing, signals once the buffer is
/// fully consumed however many callbacks follow.
pub proof fn lemma_completion_signalled_once(s: CursorState, windows: Seq<nat>)
    requires
        s.position <= s.len,
        !s.signalled,
    ensures
        signals_over(s, windows) <= 1,
        signals_over(s, windows) == 1 <==> after_blocks(s, windows).signalled,
        !s.paused && windows.len() > 0 && after_blocks(s, windows).position == s.len
            ==> signals_over(s, windows) == 1,
    decreases windows.len(),
{
    if windows.len() > 0 {
        let (t, sig) = after_block(s, windows[0]);
        let rest = windows.drop_first();
        if sig {
            lemma_no_signal_after_signalled(t, rest);
        } else {
            lemma_completion_signalled_once(t, rest);
            if !s.paused && rest.len() == 0 && after_blocks(s, windows).position == s.len {
                assert(after_blocks(t, rest) == t);
            }
        }
    }
}

/// Once completion has been signalled, no later callback signals again, and
/// the session stays marked as signalled.
pub proof fn lemma_no_signal_after_signalled(s: CursorState, windows: Seq<nat>)
    requires
        s.position <= s.len,
        s.signalled,
    ensures
        signals_over(s, windows) == 0,
        after_blocks(s, windows).signalled,
    decreases windows.len(),
{
    if windows.len() > 0 {
        lemma_no_signal_after_signalled(after_block(s, windows[0]).0, windows.drop_first());
    }
}

/// The samples of one loaded file with the realtime playback cursor.
///
/// The output callback fills each window it is handed through `fill_block`;
/// the control thread pauses, resumes and resets the session.
pub struct PlaybackSession<T> {
    samples: Vec<T>,
    position: usize,
    paused: bool,
    signalled: bool,
}

impl<T> PlaybackSession<T> {
    /// The loaded samples.
    pub closed spec fn samples(&self) -> Seq<T> {
        self.samples@
    }

    /// The cursor, in samples, and the flags, as a `CursorState`.
    pub closed spec fn cursor(&self) -> CursorState {
        CursorState {
            len: self.samples@.len(),
            position: self.position as nat,
            paused: self.paused,
            signalled: self.signalled,
        }
    }

    /// The cursor never passes the end of the samples.
    pub open spec fn wf(&self) -> bool {
        &&& self.cursor().len == self.samples().len()
        &&& self.cursor().position <= self.cursor().len
    }

    /// An empty session, not paused.
    pub fn new() -> (r: Self)
        ensures
            r.wf(),
            r.samples() == Seq::<T>::empty(),
            r.cursor() == (CursorState { len: 0, position: 0, paused: false, signalled: false }),
    {
        PlaybackSession { samples: Vec::new(), position: 0, paused: false, signalled: false }
    }

    /// Loads the samples of a file, with the cursor at the start, not paused
    /// and completion not signalled. An empty file is refused and leaves the
    /// session as it was.
    pub fn load(&mut self, samples: Vec<T>) -> (r: Result<(), AudioError>)
        ensures
            samples@.len() == 0 ==> r == Err::<(), AudioError>(AudioError::EmptyFile)
                && *final(self) == *old(self),
            samples@.len() > 0 ==> r is Ok && final(self).wf() && final(self).samples()
                == samples@ && final(self).cursor() == (CursorState {
                len: samples@.len(),
                position: 0,
                paused: false,
                signalled: false,
            }),
    {
        if samples.len() == 0 {
            return Err(AudioError::EmptyFile);
        }
        self.samples = samples;
        self.position = 0;
        self.paused = false;
        self.signalled = false;
        Ok(())
    }

    pub fn position(&self) -> (r: usize)
        ensures
            r == self.cursor().position,
    {
        self.position
    }

    pub fn len(&self) -> (r: usize)
        ensures
            r == self.cursor().len,
    {
        self.samples.len()
    }

    pub fn is_paused(&self) -> (r: bool)
        ensures
            r == self.cursor().paused,
    {
        self.paused
    }

    /// Whether completion has been signalled.
    pub fn is_signalled(&self) -> (r: bool)
        ensures
            r == self.cursor().signalled,
    {
        self.signalled
    }

    /// Sets the paused flag; nothing else changes.
    pub fn set_paused(&mut self, paused: bool)
        ensures
            final(self).samples() == old(self).samples(),
            final(self).cursor() == (CursorState { paused, ..old(self).cursor() }),
    {
        self.paused = paused;
    }

    /// Puts the cursor back at the start and clears the paused flag. The
    /// samples and the completion mark stay.
    pub fn reset(&mut self)
        ensures
            final(self).samples() == old(self).samples(),
            final(self).cursor() == (CursorState {
                position: 0,
                paused: false,
                ..old(self).cursor()
            }),
    {
        self.position = 0;
        self.paused = false;
    }

    /// Fills one output window; returns true when this call signals that
    /// playback is complete.
    ///
    /// Paused: the whole window is `silence` and the cursor stays. Otherwise
    /// the next samples that fit are written through `convert`, which also
    /// receives the index in the window; the rest of the window is `silence`
    /// and the cursor advances past what was written.
    pub fn fill_block<S: Copy, F: Fn(T, usize) -> S>(
        &mut self,
        out: &mut [S],
        silence: S,
        convert: F,
    ) -> (signal: bool) where T: Copy
        requires
            old(self).wf(),
            forall|x: T, i: usize| convert.requires((x, i)),
        ensures
            final(self).wf(),
            final(self).samples() == old(self).samples(),
            (final(self).cursor(), signal) == after_block(old(self).cursor(), old(out)@.len()),
            final(out)@.len() == old(out)@.len(),
            forall|i: int|
                0 <= i < old(out)@.len() && final(self).cursor().position - old(self).cursor().position
                    <= i ==> #[trigger] final(out)@[i] == silence,
            forall|i: int|
                0 <= i < final(self).cursor().position - old(self).cursor().position
                    ==> convert.ensures(
                    (old(self).samples()[old(self).cursor().position + i], i as usize),
                    #[trigger] final(out)@[i],
                ),
    {
        if self.paused {
            let mut k: usize = 0;
            while k < out.len()
                invariant
                    k <= out@.len(),
                    out@.len() == old(out)@.len(),
                    forall|i: int| 0 <= i < k ==> #[trigger] out@[i] == silence,
                decreases out@.len() - k,
            {
                out[k] = silence;
                k = k + 1;
            }
            return false;
        }
        let total = self.samples.len();
        let remaining = total - self.position;
        let n = if out.len() < remaining {
            out.len()
        } else {
            remaining
        };
        let start = self.position;
        let mut k: usize = 0;
        while k < out.len()
            invariant
                forall|x: T, i: usize| convert.requires((x, i)),
                start == self.position,
                total == self.samples@.len(),
                start + n <= total,
                n <= out@.len(),
                k <= out@.len(),
                out@.len() == old(out)@.len(),
                forall|i: int| n <= i < k ==> #[trigger] out@[i] == silence,
                forall|i: int|
                    0 <= i < k && i < n ==> convert.ensures(
                        (self.samples@[start + i], i as usize),
                        #[trigger] out@[i],
                    ),
            decreases out@.len() - k,
        {
            if k < n {
                let x = self.samples[start + k];
                out[k] = convert(x, k);
            } else {
                out[k] = silence;
            }
            k = k + 1;
        }
        self.position = start + n;
        let signal = !self.signalled && self.position == self.samples.len();
        if signal {
            self.signalled = true;
        }
        signal
    }
}

} // verus!
