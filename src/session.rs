//! The playback session: the state machine that the audio thread of one
//! playing cue runs over its command queue.
use vstd::prelude::*;

use crate::gain::{
    clamp_local, clamp_master, clamp_spec, local_in_range, master_in_range, mixed, mixed_spec,
    LOCAL_MAX, LOCAL_MIN, MASTER_MAX, MASTER_MIN,
};

verus! {

/// A command for the session that owns the audio output.
#[derive(Clone, Copy, Debug, PartialEq, Eq, Structural)]
pub enum MusicState {
    /// Toggles between playing and paused.
    PlayResume,
    /// Stops the session for good.
    Remove,
    /// New master gain.
    VolumeChanged(i32),
    /// New gain offset of the playing cue.
    LocalVolumeChanged(i32),
}

/// Where a session is in its life.
#[derive(Clone, Copy, Debug, PartialEq, Eq, Structural)]
pub enum SessionPhase {
    /// The device is being opened and the file decoded.
    Starting,
    Playing,
    Paused,
    Ended,
}

impl SessionPhase {
    /// A session that is audible or may become audible again without a restart.
    pub open spec fn is_live(self) -> bool {
        self is Playing || self is Paused
    }
}

/// What the audio thread must do to the device after a command.
#[derive(Clone, Copy, Debug, PartialEq, Eq, Structural)]
pub enum SessionAction {
    /// Set the device volume, then acknowledge it.
    Apply(i32),
    Pause,
    Resume,
    /// Clear the output, acknowledge the last applied volume, and end.
    Halt(i32),
    /// Nothing to do.
    Idle,
}

/// The state a playing cue's audio thread keeps: the gains it mixes and the
/// volume last applied to the device.
#[derive(Clone, Copy, Debug, PartialEq, Eq, Structural)]
pub struct PlaybackSession {
    pub phase: SessionPhase,
    pub master: i32,
    pub local: i32,
    pub applied: i32,
}

impl PlaybackSession {
    pub open spec fn wf(&self) -> bool {
        &&& master_in_range(self.master as int)
        &&& local_in_range(self.local as int)
        &&& self.applied >= 0
    }

    /// A session about to open its device, with the gains captured when it
    /// was spawned (clamped into their ranges).
    pub fn new(master: i32, local: i32) -> (r: PlaybackSession)
        ensures
            r.wf(),
            r.phase == SessionPhase::Starting,
            r.master == clamp_spec(master as int, MASTER_MIN as int, MASTER_MAX as int),
            r.local == clamp_spec(local as int, LOCAL_MIN as int, LOCAL_MAX as int),
            r.applied == 0,
    {
        PlaybackSession {
            phase: SessionPhase::Starting,
            master: clamp_master(master as i64),
            local: clamp_local(local as i64),
            applied: 0,
        }
    }

    /// The device opened: the session plays at the mixed volume of its
    /// captured gains, which is returned for the device.
    pub fn opened(&mut self) -> (r: i32)
        requires
            old(self).wf(),
            old(self).phase == SessionPhase::Starting,
        ensures
            final(self).wf(),
            final(self).phase == SessionPhase::Playing,
            final(self).master == old(self).master,
            final(self).local == old(self).local,
            r == mixed_spec(old(self).master as int, old(self).local as int),
            final(self).applied == r,
    {
        let v = mixed(self.master, self.local);
        self.phase = SessionPhase::Playing;
        self.applied = v;
        v
    }

    /// The device could not be opened or the file not decoded: the session
    /// ends without playing.
    pub fn failed(&mut self)
        requires
            old(self).phase == SessionPhase::Starting,
        ensures
            *final(self) == (PlaybackSession { phase: SessionPhase::Ended, ..*old(self) }),
    {
        self.phase = SessionPhase::Ended;
    }

    /// The media reached its end: the session ends on its own.
    pub fn media_finished(&mut self)
        ensures
            *final(self) == (PlaybackSession { phase: SessionPhase::Ended, ..*old(self) }),
    {
        self.phase = SessionPhase::Ended;
    }

    /// Spec of one command taken from the queue.
    pub open spec fn handle_spec(self, cmd: MusicState) -> (PlaybackSession, SessionAction) {
        if !self.phase.is_live() {
            (self, SessionAction::Idle)
        } else {
            match cmd {
                MusicState::Remove => (
                    PlaybackSession { phase: SessionPhase::Ended, ..self },
                    SessionAction::Halt(self.applied),
                ),
                MusicState::PlayResume => if self.phase is Playing {
                    (PlaybackSession { phase: SessionPhase::Paused, ..self }, SessionAction::Pause)
                } else {
                    (PlaybackSession { phase: SessionPhase::Playing, ..self }, SessionAction::Resume)
                },
                MusicState::VolumeChanged(g) => {
                    let m = clamp_spec(g as int, MASTER_MIN as int, MASTER_MAX as int);
                    let v = mixed_spec(m, self.local as int);
                    (
                        PlaybackSession { master: m as i32, applied: v as i32, ..self },
                        SessionAction::Apply(v as i32),
                    )
                },
                MusicState::LocalVolumeChanged(l) => {
                    let lc = clamp_spec(l as int, LOCAL_MIN as int, LOCAL_MAX as int);
                    let v = mixed_spec(self.master as int, lc);
                    (
                        PlaybackSession { local: lc as i32, applied: v as i32, ..self },
                        SessionAction::Apply(v as i32),
                    )
                },
            }
        }
    }

    /// Takes one command from the queue and says what the device must do.
    /// A session that is not playing or paused ignores every command.
    pub fn handle(&mut self, cmd: MusicState) -> (r: SessionAction)
        requires
            old(self).wf(),
        ensures
            final(self).wf(),
            (*final(self), r) == old(self).handle_spec(cmd),
    {
        match self.phase {
            SessionPhase::Playing | SessionPhase::Paused => {},
            _ => {
                return SessionAction::Idle;
            },
        }
        match cmd {
            MusicState::Remove => {
                self.phase = SessionPhase::Ended;
                SessionAction::Halt(self.applied)
            },
            MusicState::PlayResume => {
                match self.phase {
                    SessionPhase::Playing => {
                        self.phase = SessionPhase::Paused;
                        SessionAction::Pause
                    },
                    _ => {
                        self.phase = SessionPhase::Playing;
                        SessionAction::Resume
                    },
                }
            },
            MusicState::VolumeChanged(g) => {
                self.master = clamp_master(g as i64);
                let v = mixed(self.master, self.local);
                self.applied = v;
                SessionAction::Apply(v)
            },
            MusicState::LocalVolumeChanged(l) => {
                self.local = clamp_local(l as i64);
                let v = mixed(self.master, self.local);
                self.applied = v;
                SessionAction::Apply(v)
            },
        }
    }
}

} // verus!
