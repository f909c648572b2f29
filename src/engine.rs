//! The cue engine: replaces the playing session, and turns every mutation of
//! gains or transport into commands for the one live session.
use vstd::prelude::*;

use crate::fade::{FadeDirection, FadeJob};
use crate::gain::{
    clamp_master, clamp_spec, master_in_range, LOCAL_MAX, LOCAL_MIN, MASTER_MAX, MASTER_MIN, UNITY,
};
use crate::library::{IndexError, SoundItem, SoundList};
use crate::session::{MusicState, SessionPhase};

verus! {

/// The session the engine currently publishes as playing.
#[derive(Clone, Debug, PartialEq, Eq)]
pub struct ActiveSession {
    pub id: u64,
    /// Index of its cue in the library when it started.
    pub cue: usize,
    pub name: String,
    pub paused: bool,
}

/// Everything the audio thread of a new session owns from the start.
#[derive(Clone, Debug, PartialEq, Eq)]
pub struct SpawnPlan {
    pub session: u64,
    pub cue: usize,
    pub name: String,
    pub master: i32,
    pub local: i32,
    pub trim_in_ms: u64,
    pub fade_in: Option<FadeJob>,
    pub fade_out: Option<FadeJob>,
}

/// Work the engine hands to the threads around it, in order.
#[derive(Clone, Debug, PartialEq, Eq)]
pub enum EngineEffect {
    /// Send a command to the queue of a session.
    Send { session: u64, command: MusicState },
    /// Send `Remove` to a session and wait until its thread has ended.
    Retire { session: u64 },
    /// Start the audio thread (and fade threads) of a new session.
    Spawn(SpawnPlan),
}

/// Why a cue could not be started.
#[derive(Clone, Copy, Debug, PartialEq, Eq, Structural)]
pub enum EngineError {
    EmptyLibrary,
    OutOfRange { index: usize, len: usize },
    /// Every session number has been used.
    SessionIdsExhausted,
    /// The session could not open its audio device or decode its file.
    DeviceError { session: u64 },
}

/// The fade job for a requested window, if the window is non-zero.
pub open spec fn fade_spec(dir_in: bool, window: Option<u64>, target: i32, song: u64) -> Option<
    FadeJob,
> {
    match window {
        Some(w) => if w > 0 {
            Some(
                if dir_in {
                    FadeJob { direction: FadeDirection::In, target, window_ms: w, song_ms: song }
                } else {
                    FadeJob { direction: FadeDirection::Out, target, window_ms: w, song_ms: song }
                },
            )
        } else {
            None
        },
        None => None,
    }
}

pub struct CueEngine {
    pub library: SoundList,
    pub master_gain: i32,
    pub active: Option<ActiveSession>,
    /// Number of sessions started so far; also the id of the next one.
    pub next_id: u64,
    pub outbox: Vec<EngineEffect>,
    /// Phase of every session ever started, by id.
    pub phases: Ghost<Map<u64, SessionPhase>>,
}

impl CueEngine {
    pub open spec fn wf(&self) -> bool {
        &&& self.library.wf()
        &&& master_in_range(self.master_gain as int)
        &&& forall|id: u64| #[trigger] self.phases@.contains_key(id) <==> id < self.next_id
        &&& self.active matches Some(a) ==> {
            &&& a.id < self.next_id
            &&& self.phases@[a.id] == (if a.paused {
                SessionPhase::Paused
            } else {
                SessionPhase::Playing
            })
        }
        &&& forall|id: u64|
            #![trigger self.phases@[id]]
            self.phases@.contains_key(id) && !(self.active matches Some(a) && a.id == id)
                ==> self.phases@[id] == SessionPhase::Ended
    }

    /// What `set_master_gain(v)` returns and leaves behind.
    pub open spec fn master_set_post(old: CueEngine, new: CueEngine, v: i64, r: i32) -> bool {
        &&& r == clamp_spec(v as int, MASTER_MIN as int, MASTER_MAX as int)
        &&& new.master_gain == r
        &&& new.outbox@ == (match old.active {
            Some(a) => old.outbox@.push(
                EngineEffect::Send { session: a.id, command: MusicState::VolumeChanged(r) },
            ),
            None => old.outbox@,
        })
        &&& new.library == old.library
        &&& new.active == old.active
        &&& new.next_id == old.next_id
        &&& new.phases == old.phases
    }

    /// What `set_local_gain(index, v)` returns and leaves behind.
    pub open spec fn local_set_post(
        old: CueEngine,
        new: CueEngine,
        index: usize,
        v: i64,
        r: Result<(), IndexError>,
    ) -> bool {
        &&& index >= old.library.sound_files@.len() ==> {
            &&& r == Err::<(), IndexError>(
                IndexError::OutOfRange { index, len: old.library.sound_files@.len() as usize },
            )
            &&& new.library == old.library
            &&& new.outbox == old.outbox
        }
        &&& index < old.library.sound_files@.len() ==> {
            let l = clamp_spec(v as int, LOCAL_MIN as int, LOCAL_MAX as int) as i32;
            &&& r is Ok
            &&& new.library.sound_files@ == old.library.sound_files@.update(
                index as int,
                SoundItem { local_volume: l, ..old.library.sound_files@[index as int] },
            )
            &&& new.outbox@ == (match old.active {
                Some(a) => if a.cue == index {
                    old.outbox@.push(
                        EngineEffect::Send {
                            session: a.id,
                            command: MusicState::LocalVolumeChanged(l),
                        },
                    )
                } else {
                    old.outbox@
                },
                None => old.outbox@,
            })
        }
        &&& new.library.selected == old.library.selected
        &&& new.library.current_dir == old.library.current_dir
        &&& new.master_gain == old.master_gain
        &&& new.active == old.active
        &&& new.next_id == old.next_id
        &&& new.phases == old.phases
    }

    /// What `stop()` leaves behind.
    pub open spec fn stop_post(old: CueEngine, new: CueEngine) -> bool {
        &&& new.active is None
        &&& new.library == old.library
        &&& new.master_gain == old.master_gain
        &&& new.next_id == old.next_id
        &&& new.outbox@ == (match old.active {
            Some(a) => old.outbox@.push(EngineEffect::Retire { session: a.id }),
            None => old.outbox@,
        })
    }

    /// What `start(index, fade_in, fade_out)` returns and leaves behind.
    pub open spec fn start_post(
        old: CueEngine,
        new: CueEngine,
        index: usize,
        fade_in: Option<u64>,
        fade_out: Option<u64>,
        r: Result<(), EngineError>,
    ) -> bool {
        &&& new.library == old.library
        &&& new.master_gain == old.master_gain
        &&& old.library.sound_files@.len() == 0 ==> r == Err::<(), EngineError>(
            EngineError::EmptyLibrary,
        )
        &&& 0 < old.library.sound_files@.len() <= index ==> r == Err::<(), EngineError>(
            EngineError::OutOfRange { index, len: old.library.sound_files@.len() as usize },
        )
        &&& index < old.library.sound_files@.len() && old.next_id == u64::MAX ==> r == Err::<
            (),
            EngineError,
        >(EngineError::SessionIdsExhausted)
        &&& r is Err ==> {
            &&& new.active == old.active
            &&& new.outbox == old.outbox
            &&& new.next_id == old.next_id
        }
        &&& index < old.library.sound_files@.len() && old.next_id < u64::MAX ==> {
            let id = old.next_id;
            let plan = old.plan_spec(index, fade_in, fade_out, id);
            &&& r is Ok
            &&& new.next_id == id + 1
            &&& new.active == Some(ActiveSession { id, cue: index, name: plan.name, paused: false })
            &&& new.outbox@ == (match old.active {
                Some(a) => old.outbox@.push(EngineEffect::Retire { session: a.id }),
                None => old.outbox@,
            }).push(EngineEffect::Spawn(plan))
        }
    }

    /// What `toggle_pause()` leaves behind.
    pub open spec fn toggle_post(old: CueEngine, new: CueEngine) -> bool {
        &&& new.library == old.library
        &&& new.master_gain == old.master_gain
        &&& new.next_id == old.next_id
        &&& match old.active {
            Some(a) => {
                &&& new.active == Some(ActiveSession { paused: !a.paused, ..a })
                &&& new.outbox@ == old.outbox@.push(
                    EngineEffect::Send { session: a.id, command: MusicState::PlayResume },
                )
            },
            None => new.active is None && new.outbox == old.outbox,
        }
    }

    /// An engine over `library`, at unity master gain, with nothing playing.
    pub fn new(library: SoundList) -> (r: CueEngine)
        requires
            library.wf(),
        ensures
            r.wf(),
            r.library == library,
            r.master_gain == UNITY,
            r.active is None,
            r.next_id == 0,
            r.outbox@.len() == 0,
    {
        CueEngine {
            library,
            master_gain: UNITY,
            active: None,
            next_id: 0,
            outbox: Vec::new(),
            phases: Ghost(Map::empty()),
        }
    }

    /// Hands out the pending effects, oldest first, and forgets them.
    pub fn take_effects(&mut self) -> (r: Vec<EngineEffect>)
        requires
            old(self).wf(),
        ensures
            final(self).wf(),
            r@ == old(self).outbox@,
            final(self).outbox@.len() == 0,
            final(self).library == old(self).library,
            final(self).master_gain == old(self).master_gain,
            final(self).active == old(self).active,
            final(self).next_id == old(self).next_id,
            final(self).phases == old(self).phases,
    {
        let mut out: Vec<EngineEffect> = Vec::new();
        std::mem::swap(&mut out, &mut self.outbox);
        out
    }

    /// Sets the master gain, clamped to `[MASTER_MIN, MASTER_MAX]`, and
    /// forwards it to the live session. Returns the gain applied.
    pub fn set_master_gain(&mut self, v: i64) -> (r: i32)
        requires
            old(self).wf(),
        ensures
            final(self).wf(),
            Self::master_set_post(*old(self), *final(self), v, r),

    {
        let g = clamp_master(v);
        self.master_gain = g;
        match &self.active {
            Some(a) => {
                let id = a.id;
                self.outbox.push(
                    EngineEffect::Send { session: id, command: MusicState::VolumeChanged(g) },
                );
            },
            None => {},
        }
        g
    }

    /// Sets the gain offset of cue `index`, clamped to `[LOCAL_MIN,
    /// LOCAL_MAX]`; when that cue is the one playing, the live session gets
    /// it at once.
    pub fn set_local_gain(&mut self, index: usize, v: i64) -> (r: Result<(), IndexError>)
        requires
            old(self).wf(),
        ensures
            final(self).wf(),
            Self::local_set_post(*old(self), *final(self), index, v, r),

    {
        let res = self.library.modify_local_volume(index, v);
        match res {
            Ok(()) => {
                let l = self.library.sound_files[index].local_volume;
                match &self.active {
                    Some(a) => {
                        if a.cue == index {
                            let id = a.id;
                            self.outbox.push(
                                EngineEffect::Send {
                                    session: id,
                                    command: MusicState::LocalVolumeChanged(l),
                                },
                            );
                        }
                    },
                    None => {},
                }
                Ok(())
            },
            Err(e) => Err(e),
        }
    }

    /// Pauses the live session, or resumes it if it is paused.
    pub fn toggle_pause(&mut self)
        requires
            old(self).wf(),
        ensures
            final(self).wf(),
            Self::toggle_post(*old(self), *final(self)),

    {
        match self.active.take() {
            Some(a) => {
                let id = a.id;
                let paused = !a.paused;
                self.outbox.push(EngineEffect::Send { session: id, command: MusicState::PlayResume });
                proof {
                    self.phases@ = self.phases@.insert(
                        id,
                        if paused {
                            SessionPhase::Paused
                        } else {
                            SessionPhase::Playing
                        },
                    );
                }
                self.active = Some(ActiveSession { id, cue: a.cue, name: a.name, paused });
            },
            None => {},
        }
    }

    /// Stops the live session; afterwards nothing plays.
    pub fn stop(&mut self)
        requires
            old(self).wf(),
        ensures
            final(self).wf(),
            Self::stop_post(*old(self), *final(self)),

    {
        match self.active.take() {
            Some(a) => {
                self.outbox.push(EngineEffect::Retire { session: a.id });
                proof {
                    self.phases@ = self.phases@.insert(a.id, SessionPhase::Ended);
                }
            },
            None => {},
        }
    }

    /// The audio thread of session `id` reached the end of its media.
    pub fn session_finished(&mut self, id: u64)
        requires
            old(self).wf(),
        ensures
            final(self).wf(),
            final(self).active == (match old(self).active {
                Some(a) => if a.id == id {
                    None
                } else {
                    Some(a)
                },
                None => None,
            }),
            final(self).library == old(self).library,
            final(self).master_gain == old(self).master_gain,
            final(self).next_id == old(self).next_id,
            final(self).outbox == old(self).outbox,
    {
        let finished = match &self.active {
            Some(a) => a.id == id,
            None => false,
        };
        if finished {
            self.active = None;
            proof {
                self.phases@ = self.phases@.insert(id, SessionPhase::Ended);
            }
        }
    }

    /// Session `id` could not open its audio device or decode its file: it
    /// ends without playing, and the failure is returned as a device error.
    pub fn session_failed(&mut self, id: u64) -> (r: Result<(), EngineError>)
        requires
            old(self).wf(),
        ensures
            final(self).wf(),
            r == Err::<(), EngineError>(EngineError::DeviceError { session: id }),
            final(self).active == (match old(self).active {
                Some(a) => if a.id == id {
                    None
                } else {
                    Some(a)
                },
                None => None,
            }),
            final(self).library == old(self).library,
            final(self).master_gain == old(self).master_gain,
            final(self).next_id == old(self).next_id,
            final(self).outbox == old(self).outbox,
    {
        self.session_finished(id);
        Err(EngineError::DeviceError { session: id })
    }

    /// What `start` spawns for cue `index` as session `id`.
    pub open spec fn plan_spec(
        &self,
        index: usize,
        fade_in: Option<u64>,
        fade_out: Option<u64>,
        id: u64,
    ) -> SpawnPlan {
        let cue = self.library.sound_files@[index as int];
        SpawnPlan {
            session: id,
            cue: index,
            name: cue.name,
            master: self.master_gain,
            local: cue.local_volume,
            trim_in_ms: cue.trim_in_ms,
            fade_in: fade_spec(true, fade_in, self.master_gain, cue.max_duration_ms),
            fade_out: fade_spec(false, fade_out, self.master_gain, cue.max_duration_ms),
        }
    }

    /// Starts cue `index`: the live session, if any, is retired first, then
    /// a new session is spawned with fade jobs for the non-zero windows.
    pub fn start(&mut self, index: usize, fade_in: Option<u64>, fade_out: Option<u64>) -> (r:
        Result<(), EngineError>)
        requires
            old(self).wf(),
        ensures
            final(self).wf(),
            Self::start_post(*old(self), *final(self), index, fade_in, fade_out, r),

    {
        let len = self.library.sound_files.len();
        if len == 0 {
            return Err(EngineError::EmptyLibrary);
        }
        if index >= len {
            return Err(EngineError::OutOfRange { index, len });
        }
        if self.next_id == u64::MAX {
            return Err(EngineError::SessionIdsExhausted);
        }
        let id = self.next_id;
        let ghost pre = *self;
        self.stop();
        let cue = &self.library.sound_files[index];
        let master = self.master_gain;
        let fi = match fade_in {
            Some(w) => if w > 0 {
                Some(FadeJob::fade_in(master, w, cue.max_duration_ms))
            } else {
                None
            },
            None => None,
        };
        let fo = match fade_out {
            Some(w) => if w > 0 {
                Some(FadeJob::fade_out(master, w, cue.max_duration_ms))
            } else {
                None
            },
            None => None,
        };
        let plan = SpawnPlan {
            session: id,
            cue: index,
            name: cue.name.clone(),
            master,
            local: cue.local_volume,
            trim_in_ms: cue.trim_in_ms,
            fade_in: fi,
            fade_out: fo,
        };
        let name = cue.name.clone();
        assert(plan == pre.plan_spec(index, fade_in, fade_out, id));
        self.outbox.push(EngineEffect::Spawn(plan));
        self.active = Some(ActiveSession { id, cue: index, name, paused: false });
        self.next_id = id + 1;
        proof {
            self.phases@ = self.phases@.insert(id, SessionPhase::Playing);
        }
        Ok(())
    }

    /// The master gain in force.
    pub fn master_gain(&self) -> (r: i32)
        ensures
            r == self.master_gain,
    {
        self.master_gain
    }

    /// Index of the cue playing, if any.
    pub fn active_cue(&self) -> (r: Option<usize>)
        ensures
            r == (match self.active {
                Some(a) => Some(a.cue),
                None => None,
            }),
    {
        match &self.active {
            Some(a) => Some(a.cue),
            None => None,
        }
    }

    /// Whether the playing cue is paused; `false` when nothing plays.
    pub fn is_paused(&self) -> (r: bool)
        ensures
            r == (match self.active {
                Some(a) => a.paused,
                None => false,
            }),
    {
        match &self.active {
            Some(a) => a.paused,
            None => false,
        }
    }
}

/// However the engine got where it is, at most one session is playing or
/// paused: two sessions that are both live are the same session.
pub proof fn lemma_at_most_one_live_session(engine: &CueEngine, i: u64, j: u64)
    requires
        engine.wf(),
        engine.phases@.contains_key(i),
        engine.phases@.contains_key(j),
        engine.phases@[i].is_live(),
        engine.phases@[j].is_live(),
    ensures
        i == j,
        engine.active matches Some(a) && a.id == i,
{
}

} // verus!
