use vstd::prelude::*;

use crate::audio::error::{outcome_of, Error};

verus! {

/// One status sample of the current sound.
#[derive(Debug, Clone, Copy, PartialEq, Eq, Structural)]
pub struct PlaybackPayload {
    pub progress_frames: u64,
    pub total_frames: u64,
    pub is_finished: bool,
}

/// The sample reported when no sound is loaded.
pub open spec fn idle_payload() -> PlaybackPayload {
    PlaybackPayload { progress_frames: 0, total_frames: 0, is_finished: false }
}

/// The generation that follows `g`: one more, wrapping to zero after the
/// largest value.
pub open spec fn next_generation(g: u64) -> u64 {
    if g == u64::MAX {
        0
    } else {
        (g + 1) as u64
    }
}

/// The generation reached from `g` after `n` successful starts.
pub open spec fn advance_generation(g: u64, n: nat) -> u64 {
    ((g + n) % 0x1_0000_0000_0000_0000) as u64
}

/// Each successful start moves the generation to a different value, one
/// step further along the wrapping counter.
pub proof fn lemma_start_changes_generation(g: u64)
    ensures
        next_generation(g) != g,
        next_generation(g) == advance_generation(g, 1),
{
}

/// After `n` more starts, the generation stands `n + 1` steps further along.
pub proof fn lemma_advance_after_start(g: u64, n: nat)
    ensures
        advance_generation(next_generation(g), n) == advance_generation(g, n + 1),
{
    if g == u64::MAX {
        assert((g + n + 1) % 0x1_0000_0000_0000_0000 == n % 0x1_0000_0000_0000_0000) by {
            vstd::arithmetic::div_mod::lemma_mod_add_multiples_vanish(n as int, 0x1_0000_0000_0000_0000);
        }
    }
}

/// Sessions fewer than a full wrap of the counter apart never share a
/// generation.
pub proof fn lemma_generations_distinct(g: u64, n: nat)
    requires
        0 < n < 0x1_0000_0000_0000_0000,
    ensures
        advance_generation(g, n) != g,
{
    if g + n >= 0x1_0000_0000_0000_0000 {
        vstd::arithmetic::div_mod::lemma_mod_sub_multiples_vanish(g + n, 0x1_0000_0000_0000_0000);
        vstd::arithmetic::div_mod::lemma_small_mod((g + n - 0x1_0000_0000_0000_0000) as nat, 0x1_0000_0000_0000_0000);
    } else {
        vstd::arithmetic::div_mod::lemma_small_mod((g + n) as nat, 0x1_0000_0000_0000_0000);
    }
}

/// The frame a forward seek lands on: the cursor moved by `seconds` at
/// `sample_rate`, kept strictly before the end of the sound (one frame before
/// it at most), or zero for an empty sound.
pub open spec fn forward_target(cursor: u64, length: u64, seconds: u64, sample_rate: u32) -> u64 {
    if length == 0 {
        0
    } else if cursor + seconds * sample_rate >= length {
        (length - 1) as u64
    } else {
        (cursor + seconds * sample_rate) as u64
    }
}

/// The frame a backward seek lands on: the cursor moved back by `seconds` at
/// `sample_rate`, or zero where that would pass the start.
pub open spec fn backward_target(cursor: u64, seconds: u64, sample_rate: u32) -> u64 {
    if seconds * sample_rate >= cursor {
        0
    } else {
        (cursor - seconds * sample_rate) as u64
    }
}

/// A forward seek that would reach or pass the end lands one frame before
/// it, never on or after it.
pub proof fn lemma_forward_seek_clamped(cursor: u64, length: u64, seconds: u64, sample_rate: u32)
    requires
        length > 0,
        cursor + seconds * sample_rate >= length,
    ensures
        length - 1 <= forward_target(cursor, length, seconds, sample_rate) < length,
{
}

/// A backward seek that would reach or pass the start lands exactly on it.
pub proof fn lemma_backward_seek_clamped(cursor: u64, seconds: u64, sample_rate: u32)
    requires
        seconds * sample_rate >= cursor,
    ensures
        backward_target(cursor, seconds, sample_rate) == 0,
{
}

/// `path` followed by the terminating zero byte the native engine expects.
pub open spec fn terminated(path: Seq<u8>) -> Seq<u8> {
    path.push(0u8)
}

/// Computes `forward_target` without overflow.
fn forward_frame(cursor: u64, length: u64, seconds: u64, sample_rate: u32) -> (r: u64)
    ensures
        r == forward_target(cursor, length, seconds, sample_rate),
{
    if length == 0 {
        return 0;
    }
    let last: u64 = length - 1;
    match seconds.checked_mul(sample_rate as u64) {
        None => {
            assert(seconds * sample_rate >= length) by (nonlinear_arith)
                requires
                    seconds * sample_rate > u64::MAX,
                    length <= u64::MAX,
            ;
            last
        },
        Some(delta) => match cursor.checked_add(delta) {
            None => last,
            Some(target) => {
                if target >= length {
                    last
                } else {
                    target
                }
            },
        },
    }
}

/// Computes `backward_target` without overflow.
fn backward_frame(cursor: u64, seconds: u64, sample_rate: u32) -> (r: u64)
    ensures
        r == backward_target(cursor, seconds, sample_rate),
{
    match seconds.checked_mul(sample_rate as u64) {
        None => {
            assert(seconds * sample_rate >= cursor) by (nonlinear_arith)
                requires
                    seconds * sample_rate > u64::MAX,
                    cursor <= u64::MAX,
            ;
            0
        },
        Some(delta) => {
            if delta >= cursor {
                0
            } else {
                cursor - delta
            }
        },
    }
}

/// Where the engine stands in a conversation with the native side.
#[derive(Debug, Clone, Copy, PartialEq, Eq, Structural)]
pub enum Phase {
    /// Nothing is in flight: a new operation may begin.
    Idle,
    /// `start`: the old sound is being destroyed; the new path waits.
    Releasing,
    /// `start`: a streaming sound is being created from the installed path.
    Loading,
    /// `start`: the new sound is being started.
    Starting,
    /// `start`: the new sound failed to start with `code` and is being
    /// destroyed, so that no half-started sound is left behind.
    Discarding { code: i32 },
    /// `play` or `pause`: the sound is being started or stopped.
    Toggling,
    /// A seek waits for the cursor, the length and the sample rate.
    Locating { forward: bool, seconds: u64 },
    /// A seek waits for the native seek to finish.
    Seeking,
    /// `close`: the sound is being destroyed.
    ClosingSound,
    /// `close`: the engine is being destroyed.
    ClosingEngine,
    /// Both native resources are gone; nothing more may be asked.
    Closed,
}

/// The next native operation the caller performs for the engine, reporting
/// its result back with `resume`; or the end of the operation.
#[derive(Debug, PartialEq, Eq)]
pub enum NativeStep {
    /// Destroy the current native sound.
    ReleaseSound,
    /// Create a streaming native sound from `path_buffer`.
    LoadSound,
    /// Start (or resume) the native sound.
    StartSound,
    /// Stop (pause) the native sound.
    StopSound,
    /// Read the sound's cursor and length in frames and its sample rate.
    ReadPosition,
    /// Move the sound's cursor to this frame.
    SeekTo(u64),
    /// Destroy the native engine.
    ReleaseEngine,
    /// The operation is over, with this outcome.
    Done(Result<(), Error>),
}

/// What the native side reports after a step.
#[derive(Debug, Clone, Copy, PartialEq, Eq)]
pub enum NativeEvent {
    /// The step ended with this native status code (zero for a step that
    /// reports none).
    Status(i32),
    /// The cursor and length, in frames, and the sample rate of the sound.
    Position { cursor: u64, length: u64, sample_rate: u32 },
}

/// The mathematical state of an `Engine`.
pub struct EngineView {
    /// Whether a native sound is alive.
    pub loaded: bool,
    /// The owned buffer the native sound reads its path from.
    pub path: Seq<u8>,
    /// The path a `start` installs once the old sound is gone.
    pub pending: Seq<u8>,
    pub generation: u64,
    pub phase: Phase,
}

/// Control state of the playback engine: whether a sound is alive, the
/// buffer its path lives in, and the generation of the current session.
pub struct Engine {
    is_sound_init: bool,
    sound_str: Vec<u8>,
    pending: Vec<u8>,
    generation: u64,
    phase: Phase,
}

impl View for Engine {
    type V = EngineView;

    closed spec fn view(&self) -> EngineView {
        EngineView {
            loaded: self.is_sound_init,
            path: self.sound_str@,
            pending: self.pending@,
            generation: self.generation,
            phase: self.phase,
        }
    }
}

/// Whether `phase` waits for a status code.
pub open spec fn awaits_status(phase: Phase) -> bool {
    match phase {
        Phase::Idle | Phase::Closed | Phase::Locating { .. } => false,
        _ => true,
    }
}

/// Whether `phase` accepts `event`.
pub open spec fn accepts_event(phase: Phase, event: NativeEvent) -> bool {
    match event {
        NativeEvent::Status(_) => awaits_status(phase),
        NativeEvent::Position { .. } => phase is Locating,
    }
}

impl EngineView {
    /// The engine's invariant: a live sound always has a terminated path to
    /// read, and only a `start` holds a pending path.
    pub open spec fn wf(self) -> bool {
        &&& (self.loaded || self.phase == Phase::Loading) ==> self.path.len() > 0 && self.path.last() == 0
        &&& self.phase != Phase::Releasing ==> self.pending.len() == 0
        &&& self.phase == Phase::Releasing ==> self.loaded && self.pending.len() > 0 && self.pending.last() == 0
        &&& (self.phase == Phase::Starting || self.phase is Discarding || self.phase == Phase::Seeking
            || self.phase is Locating || self.phase == Phase::ClosingSound) ==> self.loaded
        &&& (self.phase == Phase::ClosingEngine || self.phase == Phase::Closed) ==> !self.loaded
    }
}

impl Engine {
    /// Builds the engine's control state from the status code with which the
    /// native engine was acquired: no sound loaded, generation zero.
    pub fn init(code: i32) -> (r: Result<Engine, Error>)
        ensures
            code == 0 <==> r is Ok,
            code != 0 ==> r == Err::<Engine, Error>(outcome_of(code)->Err_0),
            r matches Ok(e) ==> e@.wf() && !e@.loaded && e@.generation == 0 && e@.phase == Phase::Idle
                && e@.path.len() == 0 && e@.pending.len() == 0,
    {
        match Error::from_i32(code) {
            Ok(()) => Ok(
                Engine {
                    is_sound_init: false,
                    sound_str: Vec::new(),
                    pending: Vec::new(),
                    generation: 0,
                    phase: Phase::Idle,
                },
            ),
            Err(e) => Err(e),
        }
    }

    /// The generation of the current session.
    pub fn generation(&self) -> (r: u64)
        ensures
            r == self@.generation,
    {
        self.generation
    }

    /// Whether a native sound is alive.
    pub fn is_sound_init(&self) -> (r: bool)
        ensures
            r == self@.loaded,
    {
        self.is_sound_init
    }

    /// Where the engine stands.
    pub fn phase(&self) -> (r: Phase)
        ensures
            r == self@.phase,
    {
        self.phase
    }

    /// The terminated path the current (or loading) native sound reads.
    pub fn path_buffer(&self) -> (r: &[u8])
        ensures
            r@ == self@.path,
    {
        self.sound_str.as_slice()
    }

    /// Whether `resume` takes `event` now.
    pub fn accepts(&self, event: &NativeEvent) -> (r: bool)
        ensures
            r == accepts_event(self@.phase, *event),
    {
        match event {
            NativeEvent::Status(_) => match self.phase {
                Phase::Idle | Phase::Closed | Phase::Locating { .. } => false,
                _ => true,
            },
            NativeEvent::Position { .. } => match self.phase {
                Phase::Locating { .. } => true,
                _ => false,
            },
        }
    }

    /// Begins playing the file at `path`. A live sound is destroyed first;
    /// the new path is installed only after that, so the buffer the old sound
    /// reads stays alive until the sound is gone.
    pub fn start(&mut self, path: Vec<u8>) -> (r: NativeStep)
        requires
            old(self)@.wf(),
            old(self)@.phase == Phase::Idle,
        ensures
            final(self)@.wf(),
            final(self)@.path != old(self)@.path ==> !old(self)@.loaded,
            old(self)@.loaded ==> r == NativeStep::ReleaseSound && final(self)@ == (EngineView {
                phase: Phase::Releasing,
                pending: terminated(path@),
                ..old(self)@
            }),
            !old(self)@.loaded ==> r == NativeStep::LoadSound && final(self)@ == (EngineView {
                phase: Phase::Loading,
                path: terminated(path@),
                ..old(self)@
            }),
    {
        let mut buffer = path;
        buffer.push(0u8);
        if self.is_sound_init {
            self.pending = buffer;
            self.phase = Phase::Releasing;
            NativeStep::ReleaseSound
        } else {
            self.sound_str = buffer;
            self.phase = Phase::Loading;
            NativeStep::LoadSound
        }
    }

    /// Resumes the current sound; with no sound loaded there is nothing to
    /// resume and the call succeeds at once.
    pub fn play(&mut self) -> (r: NativeStep)
        requires
            old(self)@.wf(),
            old(self)@.phase == Phase::Idle,
        ensures
            final(self)@.wf(),
            old(self)@.loaded ==> r == NativeStep::StartSound && final(self)@ == (EngineView {
                phase: Phase::Toggling,
                ..old(self)@
            }),
            !old(self)@.loaded ==> r == NativeStep::Done(Ok(())) && final(self)@ == old(self)@,
    {
        if self.is_sound_init {
            self.phase = Phase::Toggling;
            NativeStep::StartSound
        } else {
            NativeStep::Done(Ok(()))
        }
    }

    /// Pauses the current sound; with no sound loaded the call succeeds at
    /// once.
    pub fn pause(&mut self) -> (r: NativeStep)
        requires
            old(self)@.wf(),
            old(self)@.phase == Phase::Idle,
        ensures
            final(self)@.wf(),
            old(self)@.loaded ==> r == NativeStep::StopSound && final(self)@ == (EngineView {
                phase: Phase::Toggling,
                ..old(self)@
            }),
            !old(self)@.loaded ==> r == NativeStep::Done(Ok(())) && final(self)@ == old(self)@,
    {
        if self.is_sound_init {
            self.phase = Phase::Toggling;
            NativeStep::StopSound
        } else {
            NativeStep::Done(Ok(()))
        }
    }

    /// Moves the cursor `seconds` forward, stopping one frame before the end.
    /// Seeking with no sound loaded is refused with `InvalidOperation`.
    pub fn seek_forward(&mut self, seconds: u64) -> (r: NativeStep)
        requires
            old(self)@.wf(),
            old(self)@.phase == Phase::Idle,
        ensures
            final(self)@.wf(),
            old(self)@.loaded ==> r == NativeStep::ReadPosition && final(self)@ == (EngineView {
                phase: Phase::Locating { forward: true, seconds },
                ..old(self)@
            }),
            !old(self)@.loaded ==> r == NativeStep::Done(Err(Error::InvalidOperation))
                && final(self)@ == old(self)@,
    {
        self.seek(true, seconds)
    }

    /// Moves the cursor `seconds` backward, stopping at the start. Seeking
    /// with no sound loaded is refused with `InvalidOperation`.
    pub fn seek_backward(&mut self, seconds: u64) -> (r: NativeStep)
        requires
            old(self)@.wf(),
            old(self)@.phase == Phase::Idle,
        ensures
            final(self)@.wf(),
            old(self)@.loaded ==> r == NativeStep::ReadPosition && final(self)@ == (EngineView {
                phase: Phase::Locating { forward: false, seconds },
                ..old(self)@
            }),
            !old(self)@.loaded ==> r == NativeStep::Done(Err(Error::InvalidOperation))
                && final(self)@ == old(self)@,
    {
        self.seek(false, seconds)
    }

    fn seek(&mut self, forward: bool, seconds: u64) -> (r: NativeStep)
        requires
            old(self)@.wf(),
            old(self)@.phase == Phase::Idle,
        ensures
            final(self)@.wf(),
            old(self)@.loaded ==> r == NativeStep::ReadPosition && final(self)@ == (EngineView {
                phase: Phase::Locating { forward, seconds },
                ..old(self)@
            }),
            !old(self)@.loaded ==> r == NativeStep::Done(Err(Error::InvalidOperation))
                && final(self)@ == old(self)@,
    {
        if self.is_sound_init {
            self.phase = Phase::Locating { forward, seconds };
            NativeStep::ReadPosition
        } else {
            NativeStep::Done(Err(Error::InvalidOperation))
        }
    }

    /// Begins tearing the engine down: the sound, if alive, before the
    /// native engine.
    pub fn close(&mut self) -> (r: NativeStep)
        requires
            old(self)@.wf(),
            old(self)@.phase == Phase::Idle,
        ensures
            final(self)@.wf(),
            old(self)@.loaded ==> r == NativeStep::ReleaseSound && final(self)@ == (EngineView {
                phase: Phase::ClosingSound,
                ..old(self)@
            }),
            !old(self)@.loaded ==> r == NativeStep::ReleaseEngine && final(self)@ == (EngineView {
                phase: Phase::ClosingEngine,
                ..old(self)@
            }),
    {
        if self.is_sound_init {
            self.phase = Phase::ClosingSound;
            NativeStep::ReleaseSound
        } else {
            self.phase = Phase::ClosingEngine;
            NativeStep::ReleaseEngine
        }
    }

    /// Takes what the native side reported for the last step and decides
    /// the next one.
    pub fn resume(&mut self, event: NativeEvent) -> (r: NativeStep)
        requires
            old(self)@.wf(),
            accepts_event(old(self)@.phase, event),
        ensures
            final(self)@.wf(),
            final(self)@.path != old(self)@.path ==> old(self)@.phase == Phase::Releasing
                && !final(self)@.loaded,
            old(self)@.phase == Phase::Releasing ==> r == NativeStep::LoadSound && final(self)@ == (EngineView {
                loaded: false,
                path: old(self)@.pending,
                pending: Seq::<u8>::empty(),
                phase: Phase::Loading,
                ..old(self)@
            }),
            old(self)@.phase == Phase::Loading && event->Status_0 == 0 ==> r == NativeStep::StartSound
                && final(self)@ == (EngineView { loaded: true, phase: Phase::Starting, ..old(self)@ }),
            old(self)@.phase == Phase::Loading && event->Status_0 != 0 ==> r == NativeStep::Done(
                outcome_of(event->Status_0),
            ) && final(self)@ == (EngineView { loaded: false, phase: Phase::Idle, ..old(self)@ }),
            old(self)@.phase == Phase::Starting && event->Status_0 == 0 ==> r == NativeStep::Done(Ok(()))
                && final(self)@ == (EngineView {
                generation: next_generation(old(self)@.generation),
                phase: Phase::Idle,
                ..old(self)@
            }),
            old(self)@.phase == Phase::Starting && event->Status_0 != 0 ==> r == NativeStep::ReleaseSound
                && final(self)@ == (EngineView {
                phase: Phase::Discarding { code: event->Status_0 },
                ..old(self)@
            }),
            old(self)@.phase matches Phase::Discarding { code } ==> r == NativeStep::Done(outcome_of(code))
                && final(self)@ == (EngineView { loaded: false, phase: Phase::Idle, ..old(self)@ }),
            (old(self)@.phase == Phase::Toggling || old(self)@.phase == Phase::Seeking) ==> r
                == NativeStep::Done(
                outcome_of(event->Status_0),
            ) && final(self)@ == (EngineView { phase: Phase::Idle, ..old(self)@ }),
            old(self)@.phase matches Phase::Locating { forward, seconds } ==> r == NativeStep::SeekTo(
                if forward {
                    forward_target(event->cursor, event->length, seconds, event->sample_rate)
                } else {
                    backward_target(event->cursor, seconds, event->sample_rate)
                },
            ) && final(self)@ == (EngineView { phase: Phase::Seeking, ..old(self)@ }),
            old(self)@.phase == Phase::ClosingSound ==> r == NativeStep::ReleaseEngine && final(self)@
                == (EngineView { loaded: false, phase: Phase::ClosingEngine, ..old(self)@ }),
            old(self)@.phase == Phase::ClosingEngine ==> r == NativeStep::Done(Ok(())) && final(self)@
                == (EngineView { phase: Phase::Closed, ..old(self)@ }),
    {
        match self.phase {
            Phase::Releasing => {
                self.is_sound_init = false;
                core::mem::swap(&mut self.sound_str, &mut self.pending);
                self.pending = Vec::new();
                self.phase = Phase::Loading;
                NativeStep::LoadSound
            },
            Phase::Loading => {
                let code = match event {
                    NativeEvent::Status(c) => c,
                    NativeEvent::Position { .. } => 0,
                };
                match Error::from_i32(code) {
                    Ok(()) => {
                        self.is_sound_init = true;
                        self.phase = Phase::Starting;
                        NativeStep::StartSound
                    },
                    Err(e) => {
                        self.is_sound_init = false;
                        self.phase = Phase::Idle;
                        NativeStep::Done(Err(e))
                    },
                }
            },
            Phase::Starting => {
                let code = match event {
                    NativeEvent::Status(c) => c,
                    NativeEvent::Position { .. } => 0,
                };
                if code == 0 {
                    self.generation = self.generation.wrapping_add(1);
                    self.phase = Phase::Idle;
                    NativeStep::Done(Ok(()))
                } else {
                    self.phase = Phase::Discarding { code };
                    NativeStep::ReleaseSound
                }
            },
            Phase::Discarding { code } => {
                self.is_sound_init = false;
                self.phase = Phase::Idle;
                NativeStep::Done(Error::from_i32(code))
            },
            Phase::Locating { forward, seconds } => {
                let target = match event {
                    NativeEvent::Position { cursor, length, sample_rate } => {
                        if forward {
                            forward_frame(cursor, length, seconds, sample_rate)
                        } else {
                            backward_frame(cursor, seconds, sample_rate)
                        }
                    },
                    NativeEvent::Status(_) => 0,
                };
                self.phase = Phase::Seeking;
                NativeStep::SeekTo(target)
            },
            Phase::ClosingSound => {
                self.is_sound_init = false;
                self.phase = Phase::ClosingEngine;
                NativeStep::ReleaseEngine
            },
            Phase::ClosingEngine => {
                self.phase = Phase::Closed;
                NativeStep::Done(Ok(()))
            },
            _ => {
                let code = match event {
                    NativeEvent::Status(c) => c,
                    NativeEvent::Position { .. } => 0,
                };
                self.phase = Phase::Idle;
                NativeStep::Done(Error::from_i32(code))
            },
        }
    }

    /// A status sample paired with the current generation. The native
    /// readings count only while a sound is alive; with none, the sample is
    /// zeroed.
    pub fn get_status(&self, cursor: u64, length: u64, at_end: bool) -> (r: (PlaybackPayload, u64))
        ensures
            r.1 == self@.generation,
            self@.loaded ==> r.0 == (PlaybackPayload {
                progress_frames: cursor,
                total_frames: length,
                is_finished: at_end,
            }),
            !self@.loaded ==> r.0 == idle_payload(),
    {
        let payload = if self.is_sound_init {
            PlaybackPayload { progress_frames: cursor, total_frames: length, is_finished: at_end }
        } else {
            PlaybackPayload { progress_frames: 0, total_frames: 0, is_finished: false }
        };
        (payload, self.generation)
    }
}

} // verus!
