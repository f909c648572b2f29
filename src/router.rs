//! The command router: turns remote-control messages into validated engine
//! and lighting operations, or into the diagnostic the operator sees.
use vstd::prelude::*;
use vstd::string::*;

use crate::engine::CueEngine;
use crate::gain::UNITY;
use crate::library::{index_error_text, IndexError, SoundList};
use crate::lighting::DMX_CHANNELS;
use crate::text::{
    chars_eq, chars_of, int_text, parse_usize, parse_usize_spec, push_chars, push_int,
    split_chars, split_spec,
};

verus! {

/// A float argument, as the values the router reads from it.
#[derive(Clone, Debug, PartialEq, Eq)]
pub struct FloatArg {
    /// The value in hundredths, rounded to the nearest.
    pub hundredths: i64,
    /// The value as `Debug` writes it.
    pub debug: String,
}

/// One argument of a remote-control message.
#[derive(Clone, Debug, PartialEq, Eq)]
pub enum OscType {
    Int(i32),
    Float(FloatArg),
    String(String),
    /// Any other kind of argument, by its `Debug` text.
    Other(String),
}

/// A remote-control message: a `/`-separated address and its arguments.
#[derive(Clone, Debug, PartialEq, Eq)]
pub struct OscMessage {
    pub addr: String,
    pub args: Vec<OscType>,
}

/// The quoted and escaped form of a string, as `Debug` writes it.
pub uninterp spec fn str_debug_of(s: Seq<char>) -> Seq<char>;

/// Relies on `<str as Debug>::fmt`: the string in quotes, with quotes,
/// backslashes and control characters escaped.
#[verifier::external_body]
fn str_debug(s: &String) -> (r: String)
    ensures
        r@ == str_debug_of(s@),
{
    format!("{:?}", s)
}

/// How an argument is written in a diagnostic.
pub open spec fn arg_debug(a: OscType) -> Seq<char> {
    match a {
        OscType::Int(i) => "Int("@ + int_text(i as int) + ")"@,
        OscType::Float(f) => "Float("@ + f.debug@ + ")"@,
        OscType::String(s) => "String("@ + str_debug_of(s@) + ")"@,
        OscType::Other(t) => t@,
    }
}

/// Writes an argument as diagnostics show it.
pub fn arg_debug_text(a: &OscType) -> (r: String)
    ensures
        r@ == arg_debug(*a),
{
    match a {
        OscType::Int(i) => {
            let mut r = String::from_str("Int(");
            push_int(&mut r, *i as i64);
            r.append(")");
            r
        },
        OscType::Float(f) => {
            let mut r = String::from_str("Float(");
            r.append(f.debug.as_str());
            r.append(")");
            r
        },
        OscType::String(s) => {
            let mut r = String::from_str("String(");
            let q = str_debug(s);
            r.append(q.as_str());
            r.append(")");
            r
        },
        OscType::Other(t) => t.clone(),
    }
}

pub open spec fn seg_views(segs: Seq<Vec<char>>) -> Seq<Seq<char>> {
    segs.map_values(|v: Vec<char>| v@)
}

pub open spec fn err_is(r: Result<(), String>, msg: Seq<char>) -> bool {
    r matches Err(e) && e@ == msg
}

pub open spec fn missing_item_text() -> Seq<char> {
    "Missing OSC path index of item, ex : Selected | 1 | 125 <= Sound Index"@
}

pub open spec fn missing_play_text() -> Seq<char> {
    "Missing OSC path index of item, ex : Next | Previous | 1 <= Sound Index"@
}

pub open spec fn missing_channel_text() -> Seq<char> {
    "Missing OSC path index of DMX channel, ex : 1 | 512 <= DMX Channel"@
}

pub open spec fn empty_library_text() -> Seq<char> {
    "No Sound Files in the Sound List"@
}

pub open spec fn exhausted_text() -> Seq<char> {
    "No more cues can be started"@
}

/// Routes remote-control messages to the cue engine and to the lighting
/// channel.
pub struct CommandRouter {
    pub engine: CueEngine,
    /// Whether a lighting connection is open.
    pub dmx_connected: bool,
    /// Channel writes accepted for the lighting connection, oldest first.
    pub dmx_writes: Vec<(usize, u8)>,
}

impl CommandRouter {
    pub open spec fn wf(&self) -> bool {
        self.engine.wf()
    }

    /// The router with its engine's library selection replaced.
    pub open spec fn with_selection(self, sel: Option<usize>) -> CommandRouter {
        CommandRouter {
            engine: CueEngine {
                library: SoundList { selected: sel, ..self.engine.library },
                ..self.engine
            },
            ..self
        }
    }

    /// Outcome of a `Volume` message.
    pub open spec fn volume_post(
        old: CommandRouter,
        new: CommandRouter,
        args: Seq<OscType>,
        r: Result<(), String>,
    ) -> bool {
        if args.len() == 0 {
            err_is(r, "No Volume Value provided"@) && new == old
        } else {
            match args[0] {
                OscType::Float(f) => {
                    &&& r is Ok
                    &&& new.dmx_connected == old.dmx_connected
                    &&& new.dmx_writes == old.dmx_writes
                    &&& CueEngine::master_set_post(
                        old.engine,
                        new.engine,
                        f.hundredths,
                        new.engine.master_gain,
                    )
                },
                _ => err_is(r, arg_debug(args[0]) + ", is not a float"@) && new == old,
            }
        }
    }

    /// Outcome of a `LocalVolume` message.
    pub open spec fn local_volume_post(
        old: CommandRouter,
        new: CommandRouter,
        segs: Seq<Seq<char>>,
        args: Seq<OscType>,
        r: Result<(), String>,
    ) -> bool {
        let len = old.engine.library.sound_files@.len();
        if args.len() == 0 {
            err_is(r, "Argument Value not provided"@) && new == old
        } else if !(args[0] is Float) {
            err_is(r, "Argument Value "@ + arg_debug(args[0]) + " is not a Float"@) && new == old
        } else if segs.len() <= 3 {
            err_is(r, missing_item_text()) && new == old
        } else if len == 0 {
            err_is(r, empty_library_text()) && new == old
        } else {
            let v = args[0]->Float_0.hundredths;
            if segs[3] == "Selected"@ {
                let index: usize = match old.engine.library.selected {
                    Some(i) => i,
                    None => 0,
                };
                let mid = old.with_selection(Some(index));
                &&& r is Ok
                &&& new.dmx_connected == old.dmx_connected
                &&& new.dmx_writes == old.dmx_writes
                &&& CueEngine::local_set_post(mid.engine, new.engine, index, v, Ok(()))
            } else {
                match parse_usize_spec(segs[3]) {
                    None => err_is(r, missing_item_text()) && new == old,
                    Some(n) => if n >= len {
                        err_is(r, index_error_text(n as nat, len)) && new == old
                    } else {
                        &&& r is Ok
                        &&& new.dmx_connected == old.dmx_connected
                        &&& new.dmx_writes == old.dmx_writes
                        &&& CueEngine::local_set_post(old.engine, new.engine, n, v, Ok(()))
                    },
                }
            }
        }
    }

    /// Outcome of a `Stop` message.
    pub open spec fn stop_post(old: CommandRouter, new: CommandRouter, r: Result<(), String>) -> bool {
        &&& r is Ok
        &&& new.dmx_connected == old.dmx_connected
        &&& new.dmx_writes == old.dmx_writes
        &&& CueEngine::stop_post(old.engine, new.engine)
    }

    /// The cue a `Play` message names, and the selection it leaves.
    pub open spec fn play_target(old: CommandRouter, seg: Seq<char>) -> Option<
        (usize, Option<usize>),
    > {
        let len = old.engine.library.sound_files@.len();
        let sel = old.engine.library.selected;
        if seg == "Next"@ {
            let i: usize = match sel {
                Some(i) => ((i + 1) % len as int) as usize,
                None => 0,
            };
            Some((i, Some(i)))
        } else if seg == "Previous"@ {
            let i: usize = match sel {
                Some(i) => (if i == 0 {
                    len - 1
                } else {
                    i - 1
                }) as usize,
                None => 0,
            };
            Some((i, Some(i)))
        } else {
            match parse_usize_spec(seg) {
                Some(n) => if n < len {
                    Some((n, sel))
                } else {
                    None
                },
                None => None,
            }
        }
    }

    /// Outcome of a `Play` message.
    pub open spec fn play_post(
        old: CommandRouter,
        new: CommandRouter,
        segs: Seq<Seq<char>>,
        r: Result<(), String>,
    ) -> bool {
        let len = old.engine.library.sound_files@.len();
        if segs.len() <= 3 {
            err_is(r, missing_play_text()) && new == old
        } else if len == 0 {
            err_is(r, empty_library_text()) && new == old
        } else {
            match Self::play_target(old, segs[3]) {
                None => match parse_usize_spec(segs[3]) {
                    Some(n) => err_is(r, index_error_text(n as nat, len)) && new == old,
                    None => err_is(r, missing_play_text()) && new == old,
                },
                Some((index, sel)) => {
                    let mid = old.with_selection(sel);
                    let cue = old.engine.library.sound_files@[index as int];
                    let fi = Some(cue.fade_in_ms);
                    let fo = Some(cue.fade_out_ms);
                    if old.engine.next_id == u64::MAX {
                        err_is(r, exhausted_text()) && new == old
                    } else {
                        &&& r is Ok
                        &&& new.dmx_connected == old.dmx_connected
                        &&& new.dmx_writes == old.dmx_writes
                        &&& CueEngine::start_post(mid.engine, new.engine, index, fi, fo, Ok(()))
                    }
                },
            }
        }
    }

    /// Outcome of a lighting write of `value` to channel `ch`, once both
    /// are known to be in their domains: accepted while a connection is open.
    pub open spec fn dmx_write_post(
        old: CommandRouter,
        new: CommandRouter,
        ch: usize,
        value: int,
        r: Result<(), String>,
    ) -> bool {
        if !old.dmx_connected {
            err_is(r, "No DMX connection found !"@) && new == old
        } else {
            &&& r is Ok
            &&& new.engine == old.engine
            &&& new.dmx_connected == old.dmx_connected
            &&& new.dmx_writes@ == old.dmx_writes@.push((ch, value as u8))
        }
    }

    /// Outcome of a `DMXChan` message.
    pub open spec fn dmx_post(
        old: CommandRouter,
        new: CommandRouter,
        segs: Seq<Seq<char>>,
        args: Seq<OscType>,
        r: Result<(), String>,
    ) -> bool {
        if segs.len() <= 3 {
            err_is(r, missing_channel_text()) && new == old
        } else if args.len() == 0 {
            err_is(r, "No DMX Value provided"@) && new == old
        } else {
            let ch = parse_usize_spec(segs[3]);
            if !(ch matches Some(c) && 1 <= c <= DMX_CHANNELS) {
                &&& err_is(
                    r,
                    "Invalid channel or value : "@ + segs[3]
                        + " <= This must be between 1 and 512 "@ + arg_debug(args[0]),
                )
                &&& new == old
            } else {
                let c = ch->Some_0;
                match args[0] {
                    OscType::Int(v) => if 0 <= v <= 255 {
                        Self::dmx_write_post(old, new, c, v as int, r)
                    } else {
                        err_is(r, int_text(v as int) + " is not in range 0..=255"@) && new == old
                    },
                    _ => err_is(r, arg_debug(args[0]) + " is not an Int !"@) && new == old,
                }
            }
        }
    }

    /// Outcome of any message, by the family its third address segment names.
    pub open spec fn interaction_post(
        old: CommandRouter,
        new: CommandRouter,
        addr: Seq<char>,
        args: Seq<OscType>,
        r: Result<(), String>,
    ) -> bool {
        let segs = split_spec(addr, '/');
        let family = if segs.len() > 2 {
            segs[2]
        } else {
            Seq::<char>::empty()
        };
        if family == "LocalVolume"@ {
            Self::local_volume_post(old, new, segs, args, r)
        } else if family == "Volume"@ {
            Self::volume_post(old, new, args, r)
        } else if family == "Stop"@ {
            Self::stop_post(old, new, r)
        } else if family == "Play"@ {
            Self::play_post(old, new, segs, r)
        } else if family == "DMXChan"@ {
            Self::dmx_post(old, new, segs, args, r)
        } else {
            err_is(r, "Invalid OSC path : "@ + family) && new == old
        }
    }

    /// A router over `engine`; `dmx_connected` says whether a lighting
    /// connection is open.
    pub fn new(engine: CueEngine, dmx_connected: bool) -> (r: CommandRouter)
        requires
            engine.wf(),
        ensures
            r.wf(),
            r.engine == engine,
            r.dmx_connected == dmx_connected,
            r.dmx_writes@.len() == 0,
    {
        CommandRouter { engine, dmx_connected, dmx_writes: Vec::new() }
    }

    /// Records whether the lighting connection is open.
    pub fn set_dmx_connected(&mut self, connected: bool)
        requires
            old(self).wf(),
        ensures
            final(self).wf(),
            *final(self) == (CommandRouter { dmx_connected: connected, ..*old(self) }),
    {
        self.dmx_connected = connected;
    }

    /// Hands out the accepted lighting writes, oldest first, and forgets them.
    pub fn take_dmx_writes(&mut self) -> (r: Vec<(usize, u8)>)
        requires
            old(self).wf(),
        ensures
            final(self).wf(),
            r@ == old(self).dmx_writes@,
            final(self).dmx_writes@.len() == 0,
            final(self).engine == old(self).engine,
            final(self).dmx_connected == old(self).dmx_connected,
    {
        let mut out: Vec<(usize, u8)> = Vec::new();
        std::mem::swap(&mut out, &mut self.dmx_writes);
        out
    }

    fn osc_volume(&mut self, args: &Vec<OscType>) -> (r: Result<(), String>)
        requires
            old(self).wf(),
        ensures
            final(self).wf(),
            Self::volume_post(*old(self), *final(self), args@, r),
    {
        if args.len() == 0 {
            return Err(String::from_str("No Volume Value provided"));
        }
        match &args[0] {
            OscType::Float(f) => {
                let _ = self.engine.set_master_gain(f.hundredths);
                Ok(())
            },
            a => {
                let mut e = arg_debug_text(a);
                e.append(", is not a float");
                Err(e)
            },
        }
    }

    fn osc_local_volume(&mut self, segs: &Vec<Vec<char>>, args: &Vec<OscType>) -> (r: Result<
        (),
        String,
    >)
        requires
            old(self).wf(),
        ensures
            final(self).wf(),
            Self::local_volume_post(*old(self), *final(self), seg_views(segs@), args@, r),
    {
        if args.len() == 0 {
            return Err(String::from_str("Argument Value not provided"));
        }
        let v = match &args[0] {
            OscType::Float(f) => f.hundredths,
            a => {
                let mut e = String::from_str("Argument Value ");
                let d = arg_debug_text(a);
                e.append(d.as_str());
                e.append(" is not a Float");
                return Err(e);
            },
        };
        if segs.len() <= 3 {
            return Err(
                String::from_str(
                    "Missing OSC path index of item, ex : Selected | 1 | 125 <= Sound Index",
                ),
            );
        }
        let len = self.engine.library.len();
        if len == 0 {
            return Err(String::from_str("No Sound Files in the Sound List"));
        }
        assert(seg_views(segs@)[3] == segs@[3]@);
        let index: usize;
        if chars_eq(&segs[3], "Selected") {
            index = match self.engine.library.selected {
                Some(i) => i,
                None => {
                    self.engine.library.prompt_selection();
                    0
                },
            };
        } else {
            match parse_usize(&segs[3]) {
                None => {
                    return Err(
                        String::from_str(
                            "Missing OSC path index of item, ex : Selected | 1 | 125 <= Sound Index",
                        ),
                    );
                },
                Some(n) => {
                    if n >= len {
                        return Err(IndexError::OutOfRange { index: n, len }.message());
                    }
                    index = n;
                },
            }
        }
        match self.engine.set_local_gain(index, v) {
            Ok(()) => Ok(()),
            Err(e) => Err(e.message()),
        }
    }

    fn osc_stop(&mut self) -> (r: Result<(), String>)
        requires
            old(self).wf(),
        ensures
            final(self).wf(),
            Self::stop_post(*old(self), *final(self), r),
    {
        self.engine.stop();
        Ok(())
    }

    fn osc_play(&mut self, segs: &Vec<Vec<char>>) -> (r: Result<(), String>)
        requires
            old(self).wf(),
        ensures
            final(self).wf(),
            Self::play_post(*old(self), *final(self), seg_views(segs@), r),
    {
        if segs.len() <= 3 {
            return Err(
                String::from_str(
                    "Missing OSC path index of item, ex : Next | Previous | 1 <= Sound Index",
                ),
            );
        }
        let len = self.engine.library.len();
        if len == 0 {
            return Err(String::from_str("No Sound Files in the Sound List"));
        }
        assert(seg_views(segs@)[3] == segs@[3]@);
        let is_next = chars_eq(&segs[3], "Next");
        let is_previous = !is_next && chars_eq(&segs[3], "Previous");
        let mut named: usize = 0;
        if !is_next && !is_previous {
            match parse_usize(&segs[3]) {
                None => {
                    return Err(
                        String::from_str(
                            "Missing OSC path index of item, ex : Next | Previous | 1 <= Sound Index",
                        ),
                    );
                },
                Some(n) => {
                    if n >= len {
                        return Err(IndexError::OutOfRange { index: n, len }.message());
                    }
                    named = n;
                },
            }
        }
        if self.engine.next_id == u64::MAX {
            return Err(String::from_str("No more cues can be started"));
        }
        let index: usize;
        if is_next {
            match self.engine.library.selected {
                Some(_) => self.engine.library.next_song(),
                None => self.engine.library.prompt_selection(),
            }
            index = match self.engine.library.selected {
                Some(i) => i,
                None => 0,
            };
        } else if is_previous {
            match self.engine.library.selected {
                Some(_) => self.engine.library.previous_song(),
                None => self.engine.library.prompt_selection(),
            }
            index = match self.engine.library.selected {
                Some(i) => i,
                None => 0,
            };
        } else {
            index = named;
        }
        let fi = self.engine.library.sound_files[index].fade_in_ms;
        let fo = self.engine.library.sound_files[index].fade_out_ms;
        match self.engine.start(index, Some(fi), Some(fo)) {
            Ok(()) => Ok(()),
            Err(_) => Err(String::from_str("No more cues can be started")),
        }
    }

    fn dmx_write(&mut self, ch: usize, value: u8) -> (r: Result<(), String>)
        requires
            old(self).wf(),
        ensures
            final(self).wf(),
            Self::dmx_write_post(*old(self), *final(self), ch, value as int, r),
    {
        if !self.dmx_connected {
            return Err(String::from_str("No DMX connection found !"));
        }
        self.dmx_writes.push((ch, value));
        Ok(())
    }

    fn osc_message_dmx(&mut self, segs: &Vec<Vec<char>>, args: &Vec<OscType>) -> (r: Result<
        (),
        String,
    >)
        requires
            old(self).wf(),
        ensures
            final(self).wf(),
            Self::dmx_post(*old(self), *final(self), seg_views(segs@), args@, r),
    {
        if segs.len() <= 3 {
            return Err(
                String::from_str(
                    "Missing OSC path index of DMX channel, ex : 1 | 512 <= DMX Channel",
                ),
            );
        }
        if args.len() == 0 {
            return Err(String::from_str("No DMX Value provided"));
        }
        assert(seg_views(segs@)[3] == segs@[3]@);
        let ch = match parse_usize(&segs[3]) {
            Some(c) => if 1 <= c && c <= DMX_CHANNELS {
                Some(c)
            } else {
                None
            },
            None => None,
        };
        let c = match ch {
            Some(c) => c,
            None => {
                let mut e = String::from_str("Invalid channel or value : ");
                push_chars(&mut e, &segs[3]);
                e.append(" <= This must be between 1 and 512 ");
                let d = arg_debug_text(&args[0]);
                e.append(d.as_str());
                return Err(e);
            },
        };
        match &args[0] {
            OscType::Int(v) => {
                if 0 <= *v && *v <= 255 {
                    self.dmx_write(c, *v as u8)
                } else {
                    let mut e = String::new();
                    push_int(&mut e, *v as i64);
                    e.append(" is not in range 0..=255");
                    Err(e)
                }
            },
            a => {
                let mut e = arg_debug_text(a);
                e.append(" is not an Int !");
                Err(e)
            },
        }
    }

    /// Carries out one remote-control message. The third segment of its
    /// address names the command family; the result is the diagnostic the
    /// operator sees when the message is refused.
    pub fn osc_message_interaction(&mut self, osc_message: OscMessage) -> (r: Result<(), String>)
        requires
            old(self).wf(),
        ensures
            final(self).wf(),
            Self::interaction_post(
                *old(self),
                *final(self),
                osc_message.addr@,
                osc_message.args@,
                r,
            ),
    {
        let chars = chars_of(osc_message.addr.as_str());
        let segs = split_chars(&chars, '/');
        assert(seg_views(segs@) =~= split_spec(osc_message.addr@, '/'));
        let empty: Vec<char> = Vec::new();
        let family: &Vec<char> = if segs.len() > 2 {
            &segs[2]
        } else {
            &empty
        };
        assert(family@ == (if split_spec(osc_message.addr@, '/').len() > 2 {
            split_spec(osc_message.addr@, '/')[2]
        } else {
            Seq::<char>::empty()
        }));
        if chars_eq(family, "LocalVolume") {
            self.osc_local_volume(&segs, &osc_message.args)
        } else if chars_eq(family, "Volume") {
            self.osc_volume(&osc_message.args)
        } else if chars_eq(family, "Stop") {
            self.osc_stop()
        } else if chars_eq(family, "Play") {
            self.osc_play(&segs)
        } else if chars_eq(family, "DMXChan") {
            self.osc_message_dmx(&segs, &osc_message.args)
        } else {
            let mut e = String::from_str("Invalid OSC path : ");
            push_chars(&mut e, family);
            Err(e)
        }
    }
}

impl Default for CommandRouter {
    /// A router over an empty library, with no lighting connection.
    fn default() -> (r: CommandRouter)
        ensures
            r.wf(),
            r.engine.library.sound_files@.len() == 0,
            r.engine.library.selected is None,
            r.engine.master_gain == UNITY,
            r.engine.active is None,
            r.engine.next_id == 0,
            r.engine.outbox@.len() == 0,
            !r.dmx_connected,
            r.dmx_writes@.len() == 0,
    {
        let library = SoundList::from_dir(String::new(), Vec::new());
        CommandRouter::new(CueEngine::new(library), false)
    }
}

} // verus!
