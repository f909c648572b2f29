//! The lighting faders: four channel levels patched at consecutive
//! addresses of the lighting universe.
use vstd::prelude::*;
use vstd::arithmetic::div_mod::{lemma_mod_self_0, lemma_small_mod};

use crate::lighting::DMX_CHANNELS;

verus! {

/// Number of faders in the bank.
pub const FADER_COUNT: usize = 4;

/// Highest start address: the last fader then sits on the last channel.
pub const MAX_ADDRESS: usize = DMX_CHANNELS - FADER_COUNT + 1;

/// One fader: a channel level.
#[derive(Clone, Copy, Debug, PartialEq, Eq, Structural)]
pub struct DMXInput {
    pub value: u8,
}

impl DMXInput {
    /// Raises the level by `v`, stopping at full.
    pub fn increment(&mut self, v: u8)
        ensures
            final(self).value == (if old(self).value + v > 255 {
                255
            } else {
                old(self).value + v
            }),
    {
        self.value = self.value.saturating_add(v);
    }

    /// Lowers the level by `v`, stopping at zero.
    pub fn decrement(&mut self, v: u8)
        ensures
            final(self).value == (if old(self).value < v {
                0
            } else {
                old(self).value - v
            }),
    {
        self.value = self.value.saturating_sub(v);
    }
}

/// Level after typing digit `d` on a fader at `value`: the digit is
/// appended to the decimal level, which saturates at full.
pub open spec fn typed_level(value: int, d: int) -> int {
    if value * 10 + d > 255 {
        255
    } else {
        value * 10 + d
    }
}

/// Four faders on channels `address` to `address + 3`, one of which has
/// the focus.
#[derive(Clone, Debug)]
pub struct FaderBank {
    pub faders: Vec<DMXInput>,
    pub address: usize,
    pub focus: usize,
}

impl FaderBank {
    pub open spec fn wf(&self) -> bool {
        &&& self.faders@.len() == FADER_COUNT
        &&& 1 <= self.address <= MAX_ADDRESS
        &&& self.focus < FADER_COUNT
    }

    /// All faders at zero on channels 1 to 4, the first one focused.
    pub fn new() -> (r: FaderBank)
        ensures
            r.wf(),
            r.address == 1,
            r.focus == 0,
            forall|i: int| 0 <= i < FADER_COUNT ==> (#[trigger] r.faders@[i]).value == 0,
    {
        let mut faders: Vec<DMXInput> = Vec::new();
        let mut i: usize = 0;
        while i < FADER_COUNT
            invariant
                i <= FADER_COUNT,
                faders@.len() == i,
                forall|k: int| 0 <= k < i ==> (#[trigger] faders@[k]).value == 0,
            decreases FADER_COUNT - i,
        {
            faders.push(DMXInput { value: 0 });
            i = i + 1;
        }
        FaderBank { faders, address: 1, focus: 0 }
    }

    /// Moves the focus to the next fader, from the last back to the first.
    pub fn next_content_element(&mut self)
        requires
            old(self).wf(),
        ensures
            final(self).wf(),
            final(self).focus == (old(self).focus + 1) % (FADER_COUNT as int),
            final(self).faders == old(self).faders,
            final(self).address == old(self).address,
    {
        if self.focus + 1 == FADER_COUNT {
            assert(FADER_COUNT as int % FADER_COUNT as int == 0) by {
                lemma_mod_self_0(FADER_COUNT as int);
            }
            self.focus = 0;
        } else {
            assert((self.focus + 1) % (FADER_COUNT as int) == self.focus + 1) by {
                lemma_small_mod((self.focus + 1) as nat, FADER_COUNT as nat);
            }
            self.focus = self.focus + 1;
        }
    }

    /// Moves the focus to the previous fader, from the first to the last.
    pub fn previous_content_element(&mut self)
        requires
            old(self).wf(),
        ensures
            final(self).wf(),
            final(self).focus == (old(self).focus + FADER_COUNT - 1) % (FADER_COUNT as int),
            final(self).faders == old(self).faders,
            final(self).address == old(self).address,
    {
        if self.focus == 0 {
            assert((FADER_COUNT - 1) as int % FADER_COUNT as int == FADER_COUNT - 1) by {
                lemma_small_mod((FADER_COUNT - 1) as nat, FADER_COUNT as nat);
            }
            self.focus = FADER_COUNT - 1;
        } else {
            assert((self.focus + FADER_COUNT - 1) % (FADER_COUNT as int) == self.focus - 1) by {
                lemma_small_mod((self.focus - 1) as nat, FADER_COUNT as nat);
                vstd::arithmetic::div_mod::lemma_mod_add_multiples_vanish(
                    (self.focus - 1) as int,
                    FADER_COUNT as int,
                );
            }
            self.focus = self.focus - 1;
        }
    }

    /// Sets the focused fader's level.
    pub fn set_focused(&mut self, value: u8)
        requires
            old(self).wf(),
        ensures
            final(self).wf(),
            final(self).faders@ == old(self).faders@.update(
                old(self).focus as int,
                DMXInput { value },
            ),
            final(self).address == old(self).address,
            final(self).focus == old(self).focus,
    {
        self.faders.set(self.focus, DMXInput { value });
    }

    /// Raises the focused fader by `v`, stopping at full.
    pub fn increment_focused(&mut self, v: u8)
        requires
            old(self).wf(),
        ensures
            final(self).wf(),
            final(self).faders@ == old(self).faders@.update(
                old(self).focus as int,
                DMXInput {
                    value: (if old(self).faders@[old(self).focus as int].value + v > 255 {
                        255
                    } else {
                        old(self).faders@[old(self).focus as int].value + v
                    }) as u8,
                },
            ),
            final(self).address == old(self).address,
            final(self).focus == old(self).focus,
    {
        let mut f = self.faders[self.focus];
        f.increment(v);
        self.faders.set(self.focus, f);
    }

    /// Lowers the focused fader by `v`, stopping at zero.
    pub fn decrement_focused(&mut self, v: u8)
        requires
            old(self).wf(),
        ensures
            final(self).wf(),
            final(self).faders@ == old(self).faders@.update(
                old(self).focus as int,
                DMXInput {
                    value: (if old(self).faders@[old(self).focus as int].value < v {
                        0
                    } else {
                        old(self).faders@[old(self).focus as int].value - v
                    }) as u8,
                },
            ),
            final(self).address == old(self).address,
            final(self).focus == old(self).focus,
    {
        let mut f = self.faders[self.focus];
        f.decrement(v);
        self.faders.set(self.focus, f);
    }

    /// Types digit `d` on the focused fader.
    pub fn type_digit(&mut self, d: u8)
        requires
            old(self).wf(),
            d <= 9,
        ensures
            final(self).wf(),
            final(self).faders@ == old(self).faders@.update(
                old(self).focus as int,
                DMXInput {
                    value: typed_level(
                        old(self).faders@[old(self).focus as int].value as int,
                        d as int,
                    ) as u8,
                },
            ),
            final(self).address == old(self).address,
            final(self).focus == old(self).focus,
    {
        let current = self.faders[self.focus].value as u32;
        let typed = current * 10 + d as u32;
        let value: u8 = if typed > 255 {
            255
        } else {
            typed as u8
        };
        self.faders.set(self.focus, DMXInput { value });
    }

    /// Moves the bank one channel up, unless its last fader is on the last
    /// channel.
    pub fn raise_address(&mut self)
        requires
            old(self).wf(),
        ensures
            final(self).wf(),
            final(self).address == (if old(self).address < MAX_ADDRESS {
                old(self).address + 1
            } else {
                old(self).address as int
            }),
            final(self).faders == old(self).faders,
            final(self).focus == old(self).focus,
    {
        if self.address < MAX_ADDRESS {
            self.address = self.address + 1;
        }
    }

    /// Moves the bank one channel down, unless it starts on channel 1.
    pub fn lower_address(&mut self)
        requires
            old(self).wf(),
        ensures
            final(self).wf(),
            final(self).address == (if old(self).address > 1 {
                old(self).address - 1
            } else {
                old(self).address as int
            }),
            final(self).faders == old(self).faders,
            final(self).focus == old(self).focus,
    {
        if self.address > 1 {
            self.address = self.address - 1;
        }
    }

    /// Puts the bank back on channel 1.
    pub fn reset_address(&mut self)
        requires
            old(self).wf(),
        ensures
            final(self).wf(),
            final(self).address == 1,
            final(self).faders == old(self).faders,
            final(self).focus == old(self).focus,
    {
        self.address = 1;
    }

    /// The channel writes that put every fader's level on its channel,
    /// first fader first.
    pub fn update_dmx(&self) -> (r: Vec<(usize, u8)>)
        requires
            self.wf(),
        ensures
            r@.len() == FADER_COUNT,
            forall|i: int|
                0 <= i < FADER_COUNT ==> #[trigger] r@[i] == (
                    (self.address + i) as usize,
                    self.faders@[i].value,
                ),
            forall|i: int| 0 <= i < FADER_COUNT ==> 1 <= (#[trigger] r@[i]).0 <= DMX_CHANNELS,
    {
        let mut r: Vec<(usize, u8)> = Vec::new();
        let mut i: usize = 0;
        while i < FADER_COUNT
            invariant
                self.wf(),
                i <= FADER_COUNT,
                r@.len() == i,
                forall|k: int|
                    0 <= k < i ==> #[trigger] r@[k] == (
                        (self.address + k) as usize,
                        self.faders@[k].value,
                    ),
            decreases FADER_COUNT - i,
        {
            r.push((self.address + i, self.faders[i].value));
            i = i + 1;
        }
        r
    }
}

} // verus!
