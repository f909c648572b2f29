//! The cue library: the ordered sound files of one directory, and the
//! selection pointer into them.
use vstd::prelude::*;

use vstd::arithmetic::div_mod::{lemma_mod_self_0, lemma_small_mod};

use crate::gain::{clamp_local, clamp_spec, local_in_range, LOCAL_MAX, LOCAL_MIN};
use crate::text::{push_decimal, digits_spec};

verus! {

/// One sound file of the library, with its own gain offset and fades.
#[derive(Clone, Debug)]
pub struct SoundItem {
    pub name: String,
    /// Gain offset added to the master gain while this cue plays.
    pub local_volume: i32,
    pub fade_in_ms: u64,
    pub fade_out_ms: u64,
    pub trim_in_ms: u64,
    pub max_duration_ms: u64,
}

impl SoundItem {
    /// A freshly scanned cue: no gain offset, no fades, no trim.
    pub fn new(name: String, max_duration_ms: u64) -> (r: SoundItem)
        ensures
            r.name@ == name@,
            r.local_volume == 0,
            r.fade_in_ms == 0,
            r.fade_out_ms == 0,
            r.trim_in_ms == 0,
            r.max_duration_ms == max_duration_ms,
    {
        SoundItem {
            name,
            local_volume: 0,
            fade_in_ms: 0,
            fade_out_ms: 0,
            trim_in_ms: 0,
            max_duration_ms,
        }
    }
}

/// A cue index that does not name a cue of the library.
#[derive(Clone, Copy, Debug, PartialEq, Eq, Structural)]
pub enum IndexError {
    OutOfRange { index: usize, len: usize },
}

/// Text of an out-of-range error, as shown to the operator.
pub open spec fn index_error_text(index: nat, len: nat) -> Seq<char> {
    let last = if len == 0 { 0 } else { (len - 1) as nat };
    "Index : ["@ + digits_spec(index) + "] is out of bound \n    => Length : "@
        + digits_spec(last) + "\n    "@ + digits_spec(index) + " <= "@ + digits_spec(last)
}

impl IndexError {
    /// The diagnostic shown to the operator.
    pub fn message(&self) -> (r: String)
        ensures
            match *self {
                IndexError::OutOfRange { index, len } => r@ == index_error_text(
                    index as nat,
                    len as nat,
                ),
            },
    {
        match *self {
            IndexError::OutOfRange { index, len } => {
                let last: usize = if len == 0 { 0 } else { len - 1 };
                let mut r = String::new();
                r.append("Index : [");
                push_decimal(&mut r, index as u64);
                r.append("] is out of bound \n    => Length : ");
                push_decimal(&mut r, last as u64);
                r.append("\n    ");
                push_decimal(&mut r, index as u64);
                r.append(" <= ");
                push_decimal(&mut r, last as u64);
                r
            },
        }
    }
}

/// The cues of one directory, in the order the directory listed them, and
/// which of them is selected.
#[derive(Clone, Debug)]
pub struct SoundList {
    pub sound_files: Vec<SoundItem>,
    /// Index of the selected cue, if any.
    pub selected: Option<usize>,
    pub current_dir: String,
}

impl SoundList {
    /// Every cue's gain offset is in range and the selection names a cue.
    pub open spec fn wf(&self) -> bool {
        &&& forall|i: int|
            0 <= i < self.sound_files@.len() ==> local_in_range(
                #[trigger] self.sound_files@[i].local_volume as int,
            )
        &&& self.selected matches Some(i) ==> i < self.sound_files@.len()
    }

    pub open spec fn len_spec(&self) -> nat {
        self.sound_files@.len()
    }

    /// A library over the cues scanned from `dir`, with nothing selected.
    /// Gain offsets outside the allowed range are clamped.
    pub fn from_dir(dir: String, scanned: Vec<SoundItem>) -> (r: SoundList)
        ensures
            r.wf(),
            r.selected is None,
            r.current_dir@ == dir@,
            r.sound_files@.len() == scanned@.len(),
            forall|i: int|
                0 <= i < scanned@.len() ==> {
                    let a = #[trigger] r.sound_files@[i];
                    let b = scanned@[i];
                    &&& a.name@ == b.name@
                    &&& a.local_volume == clamp_spec(
                        b.local_volume as int,
                        LOCAL_MIN as int,
                        LOCAL_MAX as int,
                    )
                    &&& a.fade_in_ms == b.fade_in_ms
                    &&& a.fade_out_ms == b.fade_out_ms
                    &&& a.trim_in_ms == b.trim_in_ms
                    &&& a.max_duration_ms == b.max_duration_ms
                },
    {
        let mut list = SoundList { sound_files: Vec::new(), selected: None, current_dir: dir };
        list.update(scanned);
        list
    }

    /// Replaces the cues after a rescan. The selection is kept when it still
    /// names a cue and dropped otherwise.
    pub fn update(&mut self, scanned: Vec<SoundItem>)
        ensures
            final(self).wf(),
            final(self).current_dir == old(self).current_dir,
            final(self).selected == (match old(self).selected {
                Some(i) => if i < scanned@.len() { Some(i) } else { None },
                None => None,
            }),
            final(self).sound_files@.len() == scanned@.len(),
            forall|i: int|
                0 <= i < scanned@.len() ==> {
                    let a = #[trigger] final(self).sound_files@[i];
                    let b = scanned@[i];
                    &&& a.name@ == b.name@
                    &&& a.local_volume == clamp_spec(
                        b.local_volume as int,
                        LOCAL_MIN as int,
                        LOCAL_MAX as int,
                    )
                    &&& a.fade_in_ms == b.fade_in_ms
                    &&& a.fade_out_ms == b.fade_out_ms
                    &&& a.trim_in_ms == b.trim_in_ms
                    &&& a.max_duration_ms == b.max_duration_ms
                },
    {
        let mut cues: Vec<SoundItem> = Vec::new();
        let mut i: usize = 0;
        while i < scanned.len()
            invariant
                i <= scanned@.len(),
                cues@.len() == i,
                forall|k: int|
                    0 <= k < i ==> {
                        let a = #[trigger] cues@[k];
                        let b = scanned@[k];
                        &&& a.name@ == b.name@
                        &&& a.local_volume == clamp_spec(
                            b.local_volume as int,
                            LOCAL_MIN as int,
                            LOCAL_MAX as int,
                        )
                        &&& a.fade_in_ms == b.fade_in_ms
                        &&& a.fade_out_ms == b.fade_out_ms
                        &&& a.trim_in_ms == b.trim_in_ms
                        &&& a.max_duration_ms == b.max_duration_ms
                    },
            decreases scanned@.len() - i,
        {
            let b = &scanned[i];
            let item = SoundItem {
                name: b.name.clone(),
                local_volume: clamp_local(b.local_volume as i64),
                fade_in_ms: b.fade_in_ms,
                fade_out_ms: b.fade_out_ms,
                trim_in_ms: b.trim_in_ms,
                max_duration_ms: b.max_duration_ms,
            };
            cues.push(item);
            i = i + 1;
        }
        self.sound_files = cues;
        match self.selected {
            Some(s) => {
                if s >= self.sound_files.len() {
                    self.selected = None;
                }
            },
            None => {},
        }
    }

    pub fn len(&self) -> (r: usize)
        ensures
            r == self.sound_files@.len(),
    {
        self.sound_files.len()
    }

    pub fn is_empty(&self) -> (r: bool)
        ensures
            r == (self.sound_files@.len() == 0),
    {
        self.sound_files.len() == 0
    }

    /// Selects the cue at `index`; an index past the end is refused and the
    /// selection stays as it was.
    pub fn select_song(&mut self, index: usize) -> (r: Result<(), IndexError>)
        requires
            old(self).wf(),
        ensures
            final(self).wf(),
            final(self).sound_files == old(self).sound_files,
            final(self).current_dir == old(self).current_dir,
            index < old(self).sound_files@.len() ==> r is Ok && final(self).selected == Some(
                index,
            ),
            index >= old(self).sound_files@.len() ==> r == Err::<(), IndexError>(
                IndexError::OutOfRange { index, len: old(self).sound_files@.len() as usize },
            ) && final(self).selected == old(self).selected,
    {
        if index < self.sound_files.len() {
            self.selected = Some(index);
            Ok(())
        } else {
            Err(IndexError::OutOfRange { index, len: self.sound_files.len() })
        }
    }

    /// Clears the selection.
    pub fn unselect(&mut self)
        requires
            old(self).wf(),
        ensures
            final(self).wf(),
            final(self).selected is None,
            final(self).sound_files == old(self).sound_files,
            final(self).current_dir == old(self).current_dir,
    {
        self.selected = None;
    }

    /// Selects the first cue, if there is one.
    pub fn prompt_selection(&mut self)
        requires
            old(self).wf(),
        ensures
            final(self).wf(),
            final(self).selected == (if old(self).sound_files@.len() > 0 {
                Some(0usize)
            } else {
                None
            }),
            final(self).sound_files == old(self).sound_files,
            final(self).current_dir == old(self).current_dir,
    {
        if self.sound_files.len() > 0 {
            self.selected = Some(0);
        } else {
            self.selected = None;
        }
    }

    /// Moves the selection one cue down, wrapping from the last to the
    /// first; with nothing selected, selects the first cue.
    pub fn next_song(&mut self)
        requires
            old(self).wf(),
        ensures
            final(self).wf(),
            final(self).selected == (if old(self).sound_files@.len() == 0 {
                old(self).selected
            } else {
                match old(self).selected {
                    Some(i) => Some(((i + 1) % old(self).sound_files@.len() as int) as usize),
                    None => Some(0usize),
                }
            }),
            final(self).sound_files == old(self).sound_files,
            final(self).current_dir == old(self).current_dir,
    {
        let n = self.sound_files.len();
        if n == 0 {
            return;
        }
        match self.selected {
            Some(i) => {
                if i + 1 >= n {
                    assert((i + 1) % (n as int) == 0) by {
                        lemma_mod_self_0(n as int);
                    }
                    self.selected = Some(0);
                } else {
                    assert((i + 1) % (n as int) == i + 1) by {
                        lemma_small_mod((i + 1) as nat, n as nat);
                    }
                    self.selected = Some(i + 1);
                }
            },
            None => {
                self.selected = Some(0);
            },
        }
    }

    /// Moves the selection one cue up, wrapping from the first to the last;
    /// with nothing selected, selects the last cue.
    pub fn previous_song(&mut self)
        requires
            old(self).wf(),
        ensures
            final(self).wf(),
            final(self).selected == (if old(self).sound_files@.len() == 0 {
                old(self).selected
            } else {
                match old(self).selected {
                    Some(i) => Some(
                        (if i == 0 {
                            old(self).sound_files@.len() - 1
                        } else {
                            i - 1
                        }) as usize,
                    ),
                    None => Some((old(self).sound_files@.len() - 1) as usize),
                }
            }),
            final(self).sound_files == old(self).sound_files,
            final(self).current_dir == old(self).current_dir,
    {
        let n = self.sound_files.len();
        if n == 0 {
            return;
        }
        match self.selected {
            Some(i) => {
                if i == 0 {
                    self.selected = Some(n - 1);
                } else {
                    self.selected = Some(i - 1);
                }
            },
            None => {
                self.selected = Some(n - 1);
            },
        }
    }

    /// The gain offset of the cue at `index`.
    pub fn get_local_volume_of_item_index(&self, index: usize) -> (r: Result<i32, IndexError>)
        ensures
            index < self.sound_files@.len() ==> r == Ok::<i32, IndexError>(
                self.sound_files@[index as int].local_volume,
            ),
            index >= self.sound_files@.len() ==> r == Err::<i32, IndexError>(
                IndexError::OutOfRange { index, len: self.sound_files@.len() as usize },
            ),
    {
        if index < self.sound_files.len() {
            Ok(self.sound_files[index].local_volume)
        } else {
            Err(IndexError::OutOfRange { index, len: self.sound_files.len() })
        }
    }

    /// The gain offset of the selected cue, if one is selected.
    pub fn get_local_volume_of_selected_item(&self) -> (r: Option<i32>)
        requires
            self.wf(),
        ensures
            r == (match self.selected {
                Some(i) => Some(self.sound_files@[i as int].local_volume),
                None => None,
            }),
    {
        match self.selected {
            Some(i) => Some(self.sound_files[i].local_volume),
            None => None,
        }
    }

    /// Sets the fade-in, fade-out and trim-in of the cue at `index`; each is
    /// cut to the cue's duration.
    pub fn set_fades(&mut self, index: usize, fade_in_ms: u64, fade_out_ms: u64, trim_in_ms: u64) -> (r:
        Result<(), IndexError>)
        requires
            old(self).wf(),
        ensures
            final(self).wf(),
            final(self).selected == old(self).selected,
            final(self).current_dir == old(self).current_dir,
            index < old(self).sound_files@.len() ==> {
                let c = old(self).sound_files@[index as int];
                let d = c.max_duration_ms;
                &&& r is Ok
                &&& final(self).sound_files@ == old(self).sound_files@.update(
                    index as int,
                    SoundItem {
                        fade_in_ms: if fade_in_ms > d { d } else { fade_in_ms },
                        fade_out_ms: if fade_out_ms > d { d } else { fade_out_ms },
                        trim_in_ms: if trim_in_ms > d { d } else { trim_in_ms },
                        ..c
                    },
                )
            },
            index >= old(self).sound_files@.len() ==> r == Err::<(), IndexError>(
                IndexError::OutOfRange { index, len: old(self).sound_files@.len() as usize },
            ) && final(self).sound_files == old(self).sound_files,
    {
        if index >= self.sound_files.len() {
            return Err(IndexError::OutOfRange { index, len: self.sound_files.len() });
        }
        let c = &self.sound_files[index];
        let d = c.max_duration_ms;
        let item = SoundItem {
            name: c.name.clone(),
            local_volume: c.local_volume,
            fade_in_ms: if fade_in_ms > d { d } else { fade_in_ms },
            fade_out_ms: if fade_out_ms > d { d } else { fade_out_ms },
            trim_in_ms: if trim_in_ms > d { d } else { trim_in_ms },
            max_duration_ms: d,
        };
        self.sound_files.set(index, item);
        Ok(())
    }

    /// Sets the gain offset of the cue at `index`, clamped to
    /// `[LOCAL_MIN, LOCAL_MAX]`.
    pub fn modify_local_volume(&mut self, index: usize, new_volume: i64) -> (r: Result<
        (),
        IndexError,
    >)
        requires
            old(self).wf(),
        ensures
            final(self).wf(),
            final(self).selected == old(self).selected,
            final(self).current_dir == old(self).current_dir,
            final(self).sound_files@.len() == old(self).sound_files@.len(),
            index < old(self).sound_files@.len() ==> {
                &&& r is Ok
                &&& final(self).sound_files@ == old(self).sound_files@.update(
                    index as int,
                    SoundItem {
                        local_volume: clamp_spec(
                            new_volume as int,
                            LOCAL_MIN as int,
                            LOCAL_MAX as int,
                        ) as i32,
                        ..old(self).sound_files@[index as int]
                    },
                )
            },
            index >= old(self).sound_files@.len() ==> r == Err::<(), IndexError>(
                IndexError::OutOfRange { index, len: old(self).sound_files@.len() as usize },
            ) && final(self).sound_files == old(self).sound_files,
    {
        if index < self.sound_files.len() {
            let v = clamp_local(new_volume);
            let old_item = &self.sound_files[index];
            let item = SoundItem {
                name: old_item.name.clone(),
                local_volume: v,
                fade_in_ms: old_item.fade_in_ms,
                fade_out_ms: old_item.fade_out_ms,
                trim_in_ms: old_item.trim_in_ms,
                max_duration_ms: old_item.max_duration_ms,
            };
            self.sound_files.set(index, item);
            Ok(())
        } else {
            Err(IndexError::OutOfRange { index, len: self.sound_files.len() })
        }
    }
}

} // verus!
