use vstd::prelude::*;

use crate::error::AudioError;
use crate::format::{recording_header, recording_wav_format, SampleEncoding, StreamFormat, WavFormat};
use crate::names::{
    file_name_from_input, recording_file_name, recording_name, same_chars, strip_wav_suffix, trimmed,
    with_wav, without_wav_suffix,
};
use crate::negotiate::OutputChoice;
use crate::session::{CaptureBuffer, CursorState, PlaybackSession};
use crate::status::{status_text, Status};

verus! {

/// The capture side: idle, recording since a time, or in the grace period
/// that lets the last input callback finish before the buffer is read.
#[derive(Clone, Copy, Debug, PartialEq, Eq, Structural)]
pub enum CaptureState {
    Idle,
    Recording { since: u64 },
    Stopping { since: u64 },
}

/// The playback side: stopped, playing since a time, or paused.
#[derive(Clone, Copy, Debug, PartialEq, Eq, Structural)]
pub enum PlaybackState {
    Stopped,
    Playing { since: u64 },
    Paused,
}

/// Everything the control thread knows; times are milliseconds on one clock.
pub struct RecorderState {
    pub capture: CaptureState,
    pub playback: PlaybackState,
    /// The file being played or paused.
    pub playing_file: Option<String>,
    pub status: Status,
    /// The time shown to the user.
    pub elapsed_ms: u64,
    /// Playing time accumulated before the current run of playback.
    pub clock_base_ms: u64,
    /// The recordings listed in the working directory.
    pub files: Vec<String>,
    /// The file being renamed, and the name being edited for it.
    pub renaming: Option<String>,
    pub new_name: String,
    /// The format of the current or last recording.
    pub recording_format: StreamFormat,
    /// How long the grace period after a stop lasts.
    pub grace_ms: u64,
}

impl RecorderState {
    /// Capture and playback are never active together, a file is named
    /// exactly while playback is not stopped, and the recording format is
    /// valid.
    pub open spec fn wf(&self) -> bool {
        &&& !(!(self.capture is Idle) && !(self.playback is Stopped))
        &&& (self.playback is Stopped <==> self.playing_file is None)
        &&& self.recording_format.valid()
    }
}

/// What a file that is saved after a recording holds.
pub struct SavePlan<T> {
    pub file_name: String,
    pub header: WavFormat,
    pub samples: Vec<T>,
}

/// The state of the record button.
#[derive(Clone, Copy, Debug, PartialEq, Eq, Structural)]
pub enum RecordButton {
    Stop,
    Record,
    Disabled,
}

/// The main action offered on a row of the file list.
#[derive(Clone, Copy, Debug, PartialEq, Eq, Structural)]
pub enum RowAction {
    Pause,
    Resume,
    Play,
    PlayDisabled,
}

/// What a row of the file list shows and offers.
#[derive(Clone, Copy, Debug, PartialEq, Eq, Structural)]
pub struct FileRow {
    /// The file is being renamed: the row shows the name editor.
    pub editing: bool,
    /// The file is the one playing or paused.
    pub current: bool,
    pub action: RowAction,
    pub stop_enabled: bool,
    pub rename_enabled: bool,
    pub delete_enabled: bool,
}

/// The default grace period after a recording stops.
pub const DEFAULT_GRACE_MS: u64 = 200;

/// The rate of the capture format assumed before any recording, which is
/// mono and float.
pub const DEFAULT_RATE: u32 = 48000;

/// The clock after `base` plus the time from `since` to `now`, saturating.
pub open spec fn clock_at(base: u64, since: u64, now: u64) -> u64 {
    base.saturating_add(now.saturating_sub(since))
}

/// The state after a recording is stopped at `now`: the grace period starts
/// and the clock keeps the time last shown.
pub open spec fn stopped_recording(st: RecorderState, now: u64) -> RecorderState {
    match st.capture {
        CaptureState::Recording { .. } => RecorderState {
            capture: CaptureState::Stopping { since: now },
            status: Status::Stopping,
            ..st
        },
        _ => st,
    }
}

/// The state after playback is paused at `now`: the clock keeps the time
/// last shown, and playing on after a resume counts from it.
pub open spec fn paused_playback(st: RecorderState, now: u64) -> RecorderState {
    match st.playback {
        PlaybackState::Playing { .. } => RecorderState {
            playback: PlaybackState::Paused,
            clock_base_ms: st.elapsed_ms,
            status: Status::Paused(st.playing_file->0),
            ..st
        },
        _ => st,
    }
}

/// The state after playback is resumed at `now`.
pub open spec fn resumed_playback(st: RecorderState, now: u64) -> RecorderState {
    match st.playback {
        PlaybackState::Paused => RecorderState {
            playback: PlaybackState::Playing { since: now },
            status: Status::Playing(st.playing_file->0),
            ..st
        },
        _ => st,
    }
}

/// The state after playback is stopped, with `status` shown.
pub open spec fn stopped_playback(st: RecorderState, status: Status) -> RecorderState {
    RecorderState {
        playback: PlaybackState::Stopped,
        playing_file: None,
        status,
        elapsed_ms: 0,
        clock_base_ms: 0,
        ..st
    }
}

/// The time shown after a tick at `now`: the running clock of an active
/// recording or playback, else what was shown.
pub open spec fn ticked_elapsed(st: RecorderState, now: u64) -> u64 {
    match st.capture {
        CaptureState::Recording { since } => clock_at(st.clock_base_ms, since, now),
        _ => match st.playback {
            PlaybackState::Playing { since } => clock_at(st.clock_base_ms, since, now),
            _ => st.elapsed_ms,
        },
    }
}

/// The status shown when playback starts: the channel fallback when no
/// output range had the file's channel count, else the file being played,
/// whatever rate the device plays at.
pub open spec fn start_status(file: String, requested_channels: u16, choice: OutputChoice) -> Status {
    if !choice.channels_matched {
        Status::ChannelFallback { requested: requested_channels, used: choice.format.channels }
    } else {
        Status::Playing(file)
    }
}

/// The state machine that drives recording and playback from the control
/// thread.
pub struct Recorder {
    st: RecorderState,
}

impl View for Recorder {
    type V = RecorderState;

    closed spec fn view(&self) -> RecorderState {
        self.st
    }
}

impl Recorder {
    pub open spec fn wf(&self) -> bool {
        self@.wf()
    }

    /// Whether a recording may start: capture idle and playback stopped.
    pub open spec fn may_start(&self) -> bool {
        self@.capture is Idle && self@.playback is Stopped
    }

    /// A recorder with nothing running, listing `files`.
    pub fn new(files: Vec<String>) -> (r: Self)
        ensures
            r.wf(),
            r@.capture == CaptureState::Idle,
            r@.playback == PlaybackState::Stopped,
            r@.playing_file is None,
            r@.status == Status::Ready,
            r@.elapsed_ms == 0,
            r@.clock_base_ms == 0,
            r@.files == files,
            r@.renaming is None,
            r@.new_name@ == Seq::<char>::empty(),
            r@.recording_format == (StreamFormat {
                channels: 1,
                sample_rate: DEFAULT_RATE,
                encoding: SampleEncoding::Float32,
            }),
            r@.grace_ms == DEFAULT_GRACE_MS,
    {
        Recorder {
            st: RecorderState {
                capture: CaptureState::Idle,
                playback: PlaybackState::Stopped,
                playing_file: None,
                status: Status::Ready,
                elapsed_ms: 0,
                clock_base_ms: 0,
                files,
                renaming: None,
                new_name: String::new(),
                recording_format: StreamFormat {
                    channels: 1,
                    sample_rate: DEFAULT_RATE,
                    encoding: SampleEncoding::Float32,
                },
                grace_ms: DEFAULT_GRACE_MS,
            },
        }
    }

    /// The same recorder with a grace period of `ms` after each stop.
    pub fn with_grace_ms(self, ms: u64) -> (r: Self)
        ensures
            r@ == (RecorderState { grace_ms: ms, ..self@ }),
    {
        let mut s = self;
        s.st.grace_ms = ms;
        s
    }

    pub fn can_start_recording(&self) -> (r: bool)
        ensures
            r == self.may_start(),
    {
        self.st.capture == CaptureState::Idle && self.st.playback == PlaybackState::Stopped
    }

    /// Empties the capture buffer before a recording stream is opened, when
    /// a recording may start; returns whether it may.
    pub fn prepare_recording<T>(&self, buffer: &mut CaptureBuffer<T>) -> (r: bool)
        ensures
            r == self.may_start(),
            r ==> final(buffer)@ == Seq::<T>::empty(),
            !r ==> final(buffer)@ == old(buffer)@,
    {
        if self.can_start_recording() {
            buffer.clear();
            true
        } else {
            false
        }
    }

    /// The capture stream is running in `format` since `now`: the recorder
    /// enters `Recording` with the clock at zero. Refused, with nothing
    /// changed, when a recording may not start or the format is invalid.
    pub fn recording_started(&mut self, format: StreamFormat, now: u64) -> (r: bool)
        requires
            old(self).wf(),
        ensures
            final(self).wf(),
            r == (old(self).may_start() && format.valid()),
            r ==> final(self)@ == (RecorderState {
                capture: CaptureState::Recording { since: now },
                recording_format: format,
                elapsed_ms: 0,
                clock_base_ms: 0,
                status: Status::Recording,
                ..old(self)@
            }),
            !r ==> final(self)@ == old(self)@,
    {
        if !self.can_start_recording() || format.channels == 0 || format.sample_rate == 0 {
            return false;
        }
        self.st.capture = CaptureState::Recording { since: now };
        self.st.recording_format = format;
        self.st.elapsed_ms = 0;
        self.st.clock_base_ms = 0;
        self.st.status = Status::Recording;
        true
    }

    /// Shows `e`; nothing else changes, so a failed operation leaves the
    /// recorder in the idle or stopped state it was in.
    pub fn report_error(&mut self, e: AudioError)
        ensures
            final(self)@ == (RecorderState { status: Status::Failed(e), ..old(self)@ }),
    {
        self.st.status = Status::Failed(e);
    }

    /// Stops a recording: it enters the grace period at `now`, with the clock
    /// frozen at the time last shown. Does nothing when not recording.
    pub fn stop_recording(&mut self, now: u64)
        requires
            old(self).wf(),
        ensures
            final(self).wf(),
            final(self)@ == stopped_recording(old(self)@, now),
            !(old(self)@.capture is Recording) ==> final(self)@ == old(self)@,
    {
        match self.st.capture {
            CaptureState::Recording { .. } => {
                self.st.capture = CaptureState::Stopping { since: now };
                self.st.status = Status::Stopping;
            },
            _ => {},
        }
    }

    /// Advances the clock to `now` and takes in a completion signal from the
    /// playback stream. Returns whether the grace period after a stop has
    /// run out, so that the recording is due to be finalized.
    ///
    /// On completion while playback is active, playback stops, the session's
    /// cursor is reset and the status says playback finished. A completion
    /// signal counts only when `session` has signalled completion: one left
    /// over from a file played before cannot stop the file now loaded.
    pub fn tick<T>(&mut self, session: &mut PlaybackSession<T>, now: u64, completed: bool) -> (due:
        bool)
        requires
            old(self).wf(),
        ensures
            final(self).wf(),
            due == match old(self)@.capture {
                CaptureState::Stopping { since } => now.saturating_sub(since) >= old(self)@.grace_ms,
                _ => false,
            },
            completed && old(session).cursor().signalled && !(old(self)@.playback is Stopped) ==> {
                &&& final(self)@ == stopped_playback(old(self)@, Status::PlaybackFinished)
                &&& final(session).samples() == old(session).samples()
                &&& final(session).cursor() == (CursorState {
                    position: 0,
                    paused: false,
                    ..old(session).cursor()
                })
            },
            !(completed && old(session).cursor().signalled && !(old(self)@.playback is Stopped))
                ==> {
                &&& final(self)@ == (RecorderState {
                    elapsed_ms: ticked_elapsed(old(self)@, now),
                    ..old(self)@
                })
                &&& *final(session) == *old(session)
            },
    {
        match self.st.capture {
            CaptureState::Recording { since } => {
                self.st.elapsed_ms = self.st.clock_base_ms.saturating_add(
                    now.saturating_sub(since),
                );
            },
            _ => match self.st.playback {
                PlaybackState::Playing { since } => {
                    self.st.elapsed_ms = self.st.clock_base_ms.saturating_add(
                        now.saturating_sub(since),
                    );
                },
                _ => {},
            },
        }
        let due = match self.st.capture {
            CaptureState::Stopping { since } => now.saturating_sub(since) >= self.st.grace_ms,
            _ => false,
        };
        if completed && session.is_signalled() && self.st.playback != PlaybackState::Stopped {
            self.halt_playback(session, Status::PlaybackFinished);
        }
        due
    }

    fn halt_playback<T>(&mut self, session: &mut PlaybackSession<T>, status: Status)
        requires
            old(self).wf(),
        ensures
            final(self).wf(),
            final(self)@ == stopped_playback(old(self)@, status),
            final(session).samples() == old(session).samples(),
            final(session).cursor() == (CursorState {
                position: 0,
                paused: false,
                ..old(session).cursor()
            }),
    {
        self.st.playback = PlaybackState::Stopped;
        self.st.playing_file = None;
        self.st.status = status;
        self.st.elapsed_ms = 0;
        self.st.clock_base_ms = 0;
        session.reset();
    }

    /// Ends the grace period: the capture buffer is detached and the
    /// recorder goes back to idle. With no samples captured the result is
    /// `EmptyRecording`, also shown as the status; otherwise it is the file
    /// to write: `recording_<n + 1>.wav` for `n` listed files, 32-bit float
    /// at the recording's channels and rate, holding the samples. Outside
    /// the grace period the result is `NothingToFinalize` and nothing
    /// changes.
    pub fn finalize_recording<T>(&mut self, buffer: &mut CaptureBuffer<T>) -> (r: Result<
        SavePlan<T>,
        AudioError,
    >)
        requires
            old(self).wf(),
        ensures
            final(self).wf(),
            !(old(self)@.capture is Stopping) ==> {
                &&& r == Err::<SavePlan<T>, AudioError>(AudioError::NothingToFinalize)
                &&& final(self)@ == old(self)@
                &&& final(buffer)@ == old(buffer)@
            },
            old(self)@.capture is Stopping ==> {
                &&& final(buffer)@ == Seq::<T>::empty()
                &&& old(buffer)@.len() == 0 ==> {
                    &&& r == Err::<SavePlan<T>, AudioError>(AudioError::EmptyRecording)
                    &&& final(self)@ == (RecorderState {
                        capture: CaptureState::Idle,
                        status: Status::Failed(AudioError::EmptyRecording),
                        ..old(self)@
                    })
                }
                &&& old(buffer)@.len() > 0 ==> {
                    &&& r is Ok
                    &&& r->Ok_0.file_name@ == recording_name(old(self)@.files@.len())
                    &&& r->Ok_0.header == recording_header(old(self)@.recording_format)
                    &&& r->Ok_0.samples@ == old(buffer)@
                    &&& final(self)@ == (RecorderState {
                        capture: CaptureState::Idle,
                        ..old(self)@
                    })
                }
            },
    {
        match self.st.capture {
            CaptureState::Stopping { .. } => {},
            _ => {
                return Err(AudioError::NothingToFinalize);
            },
        }
        self.st.capture = CaptureState::Idle;
        let samples = buffer.take();
        if samples.len() == 0 {
            self.st.status = Status::Failed(AudioError::EmptyRecording);
            return Err(AudioError::EmptyRecording);
        }
        Ok(
            SavePlan {
                file_name: recording_file_name(self.st.files.len()),
                header: recording_wav_format(self.st.recording_format),
                samples,
            },
        )
    }

    /// A recording was written as `file_name`; `files` is the new listing.
    pub fn recording_saved(&mut self, file_name: String, files: Vec<String>)
        requires
            old(self).wf(),
        ensures
            final(self).wf(),
            final(self)@ == (RecorderState {
                status: Status::Saved(file_name),
                files,
                ..old(self)@
            }),
    {
        self.st.status = Status::Saved(file_name);
        self.st.files = files;
    }

    /// Whether playback may start: capture idle and playback stopped.
    pub fn can_play(&self) -> (r: bool)
        ensures
            r == self.may_start(),
    {
        self.can_start_recording()
    }

    /// The output stream for `file` runs since `now` with the negotiated
    /// `choice`: playback enters `Playing` with the clock at zero. The status
    /// names the channel fallback when there was one, else the file. Refused,
    /// with nothing changed, when playback may not start.
    pub fn playback_started(
        &mut self,
        file: String,
        requested_channels: u16,
        choice: OutputChoice,
        now: u64,
    ) -> (r: bool)
        requires
            old(self).wf(),
        ensures
            final(self).wf(),
            r == old(self).may_start(),
            r ==> final(self)@ == (RecorderState {
                playback: PlaybackState::Playing { since: now },
                playing_file: Some(file),
                elapsed_ms: 0,
                clock_base_ms: 0,
                status: start_status(file, requested_channels, choice),
                ..old(self)@
            }),
            !r ==> final(self)@ == old(self)@,
    {
        if !self.can_play() {
            return false;
        }
        let status = if !choice.channels_matched {
            Status::ChannelFallback { requested: requested_channels, used: choice.format.channels }
        } else {
            Status::Playing(file.clone())
        };
        self.st.playback = PlaybackState::Playing { since: now };
        self.st.playing_file = Some(file);
        self.st.elapsed_ms = 0;
        self.st.clock_base_ms = 0;
        self.st.status = status;
        true
    }

    /// Pauses playback at `now`: the session emits silence from its next
    /// callback on, and the clock stays at the time last shown. Does nothing
    /// unless playing.
    pub fn pause<T>(&mut self, session: &mut PlaybackSession<T>, now: u64) -> (r: bool)
        requires
            old(self).wf(),
        ensures
            final(self).wf(),
            r == old(self)@.playback is Playing,
            final(self)@ == paused_playback(old(self)@, now),
            final(session).samples() == old(session).samples(),
            r ==> final(session).cursor() == (CursorState { paused: true, ..old(session).cursor() }),
            !r ==> *final(session) == *old(session),
    {
        match self.st.playback {
            PlaybackState::Playing { .. } => {
                let file = match &self.st.playing_file {
                    Some(f) => f.clone(),
                    None => String::new(),
                };
                self.st.playback = PlaybackState::Paused;
                self.st.clock_base_ms = self.st.elapsed_ms;
                self.st.status = Status::Paused(file);
                session.set_paused(true);
                true
            },
            _ => false,
        }
    }

    /// Resumes paused playback at `now`, from the same cursor and with the
    /// time played so far kept. Does nothing unless paused.
    pub fn resume<T>(&mut self, session: &mut PlaybackSession<T>, now: u64) -> (r: bool)
        requires
            old(self).wf(),
        ensures
            final(self).wf(),
            r == old(self)@.playback is Paused,
            final(self)@ == resumed_playback(old(self)@, now),
            final(session).samples() == old(session).samples(),
            r ==> final(session).cursor() == (CursorState { paused: false, ..old(session).cursor() }),
            !r ==> *final(session) == *old(session),
    {
        match self.st.playback {
            PlaybackState::Paused => {
                let file = match &self.st.playing_file {
                    Some(f) => f.clone(),
                    None => String::new(),
                };
                self.st.playback = PlaybackState::Playing { since: now };
                self.st.status = Status::Playing(file);
                session.set_paused(false);
                true
            },
            _ => false,
        }
    }

    /// Stops playing or paused playback: the session's cursor goes back to
    /// the start, no file is current and the clock reads zero. Does nothing
    /// when already stopped.
    pub fn stop_playback<T>(&mut self, session: &mut PlaybackSession<T>) -> (r: bool)
        requires
            old(self).wf(),
        ensures
            final(self).wf(),
            r == !(old(self)@.playback is Stopped),
            r ==> final(self)@ == stopped_playback(old(self)@, Status::PlaybackStopped),
            r ==> final(session).samples() == old(session).samples(),
            r ==> final(session).cursor() == (CursorState {
                position: 0,
                paused: false,
                ..old(session).cursor()
            }),
            !r ==> final(self)@ == old(self)@ && *final(session) == *old(session),
    {
        if self.st.playback == PlaybackState::Stopped {
            return false;
        }
        self.halt_playback(session, Status::PlaybackStopped);
        true
    }

    /// Whether a delete or rename may go ahead. While a recording is in
    /// progress it may not, and the status says so; otherwise, the grace
    /// period after a stop included, it may when playback is stopped and no
    /// rename is in progress, and nothing changes.
    pub fn allow_file_operation(&mut self) -> (r: bool)
        requires
            old(self).wf(),
        ensures
            final(self).wf(),
            old(self)@.capture is Recording ==> !r && final(self)@ == (RecorderState {
                status: Status::BusyRecording,
                ..old(self)@
            }),
            !(old(self)@.capture is Recording) ==> r == (old(self)@.playback is Stopped
                && old(self)@.renaming is None) && final(self)@ == old(self)@,
    {
        if self.is_recording() {
            self.st.status = Status::BusyRecording;
            return false;
        }
        self.st.playback == PlaybackState::Stopped && self.st.renaming.is_none()
    }

    /// `name` was deleted; `files` is the new listing.
    pub fn file_deleted(&mut self, name: String, files: Vec<String>)
        requires
            old(self).wf(),
        ensures
            final(self).wf(),
            final(self)@ == (RecorderState { status: Status::Deleted(name), files, ..old(self)@ }),
    {
        self.st.status = Status::Deleted(name);
        self.st.files = files;
    }

    /// Starts renaming `file`, when a file operation may go ahead (see
    /// `allow_file_operation`): the name offered for editing is the file
    /// name without its `.wav` extension.
    pub fn start_rename(&mut self, file: String) -> (r: bool)
        requires
            old(self).wf(),
        ensures
            final(self).wf(),
            old(self)@.capture is Recording ==> !r && final(self)@ == (RecorderState {
                status: Status::BusyRecording,
                ..old(self)@
            }),
            !(old(self)@.capture is Recording) ==> r == (old(self)@.playback is Stopped
                && old(self)@.renaming is None),
            !(old(self)@.capture is Recording) && !r ==> final(self)@ == old(self)@,
            r ==> final(self)@.new_name@ == without_wav_suffix(file@) && final(self)@
                == (RecorderState {
                renaming: Some(file),
                new_name: final(self)@.new_name,
                ..old(self)@
            }),
    {
        if !self.allow_file_operation() {
            return false;
        }
        self.st.new_name = strip_wav_suffix(file.as_str());
        self.st.renaming = Some(file);
        true
    }

    /// Replaces the name being edited.
    pub fn set_new_name(&mut self, name: String)
        requires
            old(self).wf(),
        ensures
            final(self).wf(),
            final(self)@ == (RecorderState { new_name: name, ..old(self)@ }),
    {
        self.st.new_name = name;
    }

    /// Abandons a rename.
    pub fn cancel_rename(&mut self)
        requires
            old(self).wf(),
        ensures
            final(self).wf(),
            final(self)@.new_name@ == Seq::<char>::empty(),
            final(self)@ == (RecorderState {
                renaming: None,
                new_name: final(self)@.new_name,
                status: Status::RenameCancelled,
                ..old(self)@
            }),
    {
        self.st.renaming = None;
        self.st.new_name = String::new();
        self.st.status = Status::RenameCancelled;
    }

    /// The file name that the edited name stands for (see
    /// `file_name_from_input`). `None` when no rename is in progress, with
    /// nothing changed; while a recording is in progress, with the status
    /// saying so; or when the name is blank, with `RenameEmptyName` shown.
    pub fn rename_target(&mut self) -> (r: Option<String>)
        requires
            old(self).wf(),
        ensures
            final(self).wf(),
            old(self)@.renaming is None ==> r is None && final(self)@ == old(self)@,
            old(self)@.renaming is Some && old(self)@.capture is Recording ==> r is None
                && final(self)@ == (RecorderState { status: Status::BusyRecording, ..old(self)@ }),
            old(self)@.renaming is Some && !(old(self)@.capture is Recording) && trimmed(
                old(self)@.new_name@,
            ).len() == 0 ==> r is None && final(self)@ == (RecorderState {
                status: Status::Failed(AudioError::RenameEmptyName),
                ..old(self)@
            }),
            old(self)@.renaming is Some && !(old(self)@.capture is Recording) && trimmed(
                old(self)@.new_name@,
            ).len() > 0 ==> r is Some && r->0@ == with_wav(trimmed(old(self)@.new_name@))
                && final(self)@ == old(self)@,
    {
        if self.st.renaming.is_none() {
            return None;
        }
        if self.is_recording() {
            self.st.status = Status::BusyRecording;
            return None;
        }
        let target = file_name_from_input(self.st.new_name.as_str());
        if target.is_none() {
            self.st.status = Status::Failed(AudioError::RenameEmptyName);
        }
        target
    }

    /// Whether the file being renamed may take the name `target`, given
    /// whether a file of that name exists: it may unless another file has
    /// that name, in which case `RenameConflict` is shown. False with
    /// nothing changed when no rename is in progress.
    pub fn approve_rename(&mut self, target: &String, target_exists: bool) -> (r: bool)
        requires
            old(self).wf(),
        ensures
            final(self).wf(),
            old(self)@.renaming is None ==> !r && final(self)@ == old(self)@,
            old(self)@.renaming is Some ==> r == (target@ == old(self)@.renaming->0@
                || !target_exists),
            old(self)@.renaming is Some && r ==> final(self)@ == old(self)@,
            old(self)@.renaming is Some && !r ==> final(self)@ == (RecorderState {
                status: Status::Failed(AudioError::RenameConflict),
                ..old(self)@
            }),
    {
        match &self.st.renaming {
            None => false,
            Some(current) => {
                if *target != *current && target_exists {
                    self.st.status = Status::Failed(AudioError::RenameConflict);
                    false
                } else {
                    true
                }
            },
        }
    }

    /// The file being renamed now bears the name `target`; `files` is the
    /// new listing. The rename ends. Nothing changes when no rename is in
    /// progress.
    pub fn rename_finished(&mut self, target: String, files: Vec<String>)
        requires
            old(self).wf(),
        ensures
            final(self).wf(),
            old(self)@.renaming is None ==> final(self)@ == old(self)@,
            old(self)@.renaming is Some ==> final(self)@.new_name@ == Seq::<char>::empty() && final(self)@ == (RecorderState {
                status: Status::Renamed(old(self)@.renaming->0, target),
                renaming: None,
                new_name: final(self)@.new_name,
                files,
                ..old(self)@
            }),
    {
        let mut taken: Option<String> = None;
        std::mem::swap(&mut taken, &mut self.st.renaming);
        match taken {
            None => {},
            Some(from) => {
                self.st.status = Status::Renamed(from, target);
                self.st.new_name = String::new();
                self.st.files = files;
            },
        }
    }

    /// Whether the row of file `name` accepts play, rename and delete: not
    /// while a recording is in progress, not for the file playing or paused,
    /// and not while any file is being renamed.
    pub fn can_interact_with_file(&self, name: &str) -> (r: bool)
        ensures
            r == (!(self@.capture is Recording) && !(self@.playing_file is Some
                && self@.playing_file->0@ == name@ && !(self@.playback is Stopped))
                && self@.renaming is None),
    {
        if self.is_recording() {
            return false;
        }
        match &self.st.playing_file {
            Some(f) => {
                if self.st.playback != PlaybackState::Stopped && same_chars(f.as_str(), name) {
                    return false;
                }
            },
            None => {},
        }
        self.st.renaming.is_none()
    }

    /// The space key: stops a recording, pauses or resumes playback, and
    /// otherwise asks for a recording to start. Returns true exactly in that
    /// last case, when a recording may start.
    pub fn toggle<T>(&mut self, session: &mut PlaybackSession<T>, now: u64) -> (start: bool)
        requires
            old(self).wf(),
        ensures
            final(self).wf(),
            old(self)@.capture is Recording ==> !start && final(self)@ == stopped_recording(
                old(self)@,
                now,
            ) && *final(session) == *old(session),
            old(self)@.playback is Playing ==> !start && final(self)@ == paused_playback(
                old(self)@,
                now,
            ) && final(session).samples() == old(session).samples() && final(session).cursor()
                == (CursorState { paused: true, ..old(session).cursor() }),
            old(self)@.playback is Paused ==> !start && final(self)@ == resumed_playback(
                old(self)@,
                now,
            ) && final(session).samples() == old(session).samples() && final(session).cursor()
                == (CursorState { paused: false, ..old(session).cursor() }),
            !(old(self)@.capture is Recording) && old(self)@.playback is Stopped ==> start
                == old(self).may_start() && final(self)@ == old(self)@ && *final(session) == *old(session),
    {
        match self.st.capture {
            CaptureState::Recording { .. } => {
                self.stop_recording(now);
                return false;
            },
            _ => {},
        }
        match self.st.playback {
            PlaybackState::Playing { .. } => {
                self.pause(session, now);
                false
            },
            PlaybackState::Paused => {
                self.resume(session, now);
                false
            },
            PlaybackState::Stopped => self.can_start_recording(),
        }
    }

    /// Whether the clock must be ticked: something is running, or a stop is
    /// in its grace period.
    pub fn needs_tick(&self) -> (r: bool)
        ensures
            r == (!(self@.capture is Idle) || !(self@.playback is Stopped)),
    {
        self.st.capture != CaptureState::Idle || self.st.playback != PlaybackState::Stopped
    }

    /// The record button stops a recording, starts one when nothing runs,
    /// and is disabled otherwise.
    pub fn record_button(&self) -> (r: RecordButton)
        ensures
            self@.capture is Recording ==> r == RecordButton::Stop,
            !(self@.capture is Recording) && self.may_start() ==> r == RecordButton::Record,
            !(self@.capture is Recording) && !self.may_start() ==> r == RecordButton::Disabled,
    {
        match self.st.capture {
            CaptureState::Recording { .. } => RecordButton::Stop,
            _ => if self.can_start_recording() {
                RecordButton::Record
            } else {
                RecordButton::Disabled
            },
        }
    }

    /// What the row of file `name` shows: the name editor while it is being
    /// renamed; pause, resume and stop for the current file; play, rename
    /// and delete as `can_interact_with_file` allows.
    pub fn file_row(&self, name: &str) -> (r: FileRow)
        ensures
            r.editing == (self@.renaming is Some && self@.renaming->0@ == name@),
            r.current == (self@.playing_file is Some && self@.playing_file->0@ == name@
                && !(self@.playback is Stopped)),
            r.current && self@.playback is Playing ==> r.action == RowAction::Pause,
            r.current && self@.playback is Paused ==> r.action == RowAction::Resume,
            !r.current && self.interacts(name@) ==> r.action == RowAction::Play,
            !r.current && !self.interacts(name@) ==> r.action == RowAction::PlayDisabled,
            r.stop_enabled == r.current,
            r.rename_enabled == self.interacts(name@),
            r.delete_enabled == self.interacts(name@),
    {
        let editing = match &self.st.renaming {
            Some(f) => same_chars(f.as_str(), name),
            None => false,
        };
        let current = self.st.playback != PlaybackState::Stopped && match &self.st.playing_file {
            Some(f) => same_chars(f.as_str(), name),
            None => false,
        };
        let open = self.can_interact_with_file(name);
        let action = if current {
            match self.st.playback {
                PlaybackState::Paused => RowAction::Resume,
                _ => RowAction::Pause,
            }
        } else if open {
            RowAction::Play
        } else {
            RowAction::PlayDisabled
        };
        FileRow {
            editing,
            current,
            action,
            stop_enabled: current,
            rename_enabled: open,
            delete_enabled: open,
        }
    }

    /// The condition of `can_interact_with_file` for a name with characters `name`.
    pub open spec fn interacts(&self, name: Seq<char>) -> bool {
        !(self@.capture is Recording) && !(self@.playing_file is Some && self@.playing_file->0@ == name
            && !(self@.playback is Stopped)) && self@.renaming is None
    }

    pub fn status(&self) -> (r: &Status)
        ensures
            *r == self@.status,
    {
        &self.st.status
    }

    /// The status as the text shown to the user.
    pub fn status_message(&self) -> (r: String)
        ensures
            r@ == status_text(self@.status),
    {
        self.st.status.message()
    }

    pub fn elapsed_ms(&self) -> (r: u64)
        ensures
            r == self@.elapsed_ms,
    {
        self.st.elapsed_ms
    }

    pub fn files(&self) -> (r: &Vec<String>)
        ensures
            *r == self@.files,
    {
        &self.st.files
    }

    pub fn capture_state(&self) -> (r: CaptureState)
        ensures
            r == self@.capture,
    {
        self.st.capture
    }

    pub fn playback_state(&self) -> (r: PlaybackState)
        ensures
            r == self@.playback,
    {
        self.st.playback
    }

    pub fn is_recording(&self) -> (r: bool)
        ensures
            r == self@.capture is Recording,
    {
        match self.st.capture {
            CaptureState::Recording { .. } => true,
            _ => false,
        }
    }

    pub fn playing_file(&self) -> (r: Option<&String>)
        ensures
            r is None <==> self@.playing_file is None,
            r is Some ==> *r->0 == self@.playing_file->0,
    {
        match &self.st.playing_file {
            Some(f) => Some(f),
            None => None,
        }
    }

    pub fn renaming_file(&self) -> (r: Option<&String>)
        ensures
            r is None <==> self@.renaming is None,
            r is Some ==> *r->0 == self@.renaming->0,
    {
        match &self.st.renaming {
            Some(f) => Some(f),
            None => None,
        }
    }

    pub fn new_name(&self) -> (r: &String)
        ensures
            *r == self@.new_name,
    {
        &self.st.new_name
    }

    pub fn recording_format(&self) -> (r: StreamFormat)
        ensures
            r == self@.recording_format,
    {
        self.st.recording_format
    }

    pub fn grace_ms(&self) -> (r: u64)
        ensures
            r == self@.grace_ms,
    {
        self.st.grace_ms
    }
}

/// Capture and playback are never active together: in every well-formed
/// state, which every operation of `Recorder` preserves, a recording in
/// progress means playback is stopped, and playing or paused playback means
/// no recording is in progress.
pub proof fn lemma_capture_excludes_playback(st: RecorderState)
    requires
        st.wf(),
    ensures
        st.capture is Recording ==> st.playback is Stopped,
        (st.playback is Playing || st.playback is Paused) ==> st.capture is Idle,
{
}

/// An elapsed time split into minutes, seconds within the minute and
/// hundredths of a second, as the clock shows it.
pub fn clock_parts(ms: u64) -> (r: (u64, u64, u64))
    ensures
        r.0 == ms / 1000 / 60,
        r.1 == ms / 1000 % 60,
        r.2 == ms % 1000 / 10,
{
    let secs = ms / 1000;
    (secs / 60, secs % 60, ms % 1000 / 10)
}

} // verus!
