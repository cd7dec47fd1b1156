//! The cursor: where playback of a pattern stands, and what the device is
//! told at each tick.
use vstd::prelude::*;

use crate::color::Color;
use crate::pattern::{Frame, Pattern};

verus! {

/// What the device is asked to do.
#[derive(Clone, Copy, Debug, PartialEq, Eq, Structural)]
pub enum Message {
    /// Turn every light off.
    Off,
    /// Show a color at once, on one channel or on all of them.
    Immediate(Color, Option<u8>),
}

/// The abstract state of a cursor.
pub struct CursorState {
    pub frame: u8,
    pub running: bool,
    pub pattern: Map<u8, Map<u8, Color>>,
}

/// The messages for the channels below `k` of a frame, in channel order.
pub open spec fn channel_messages(frame: Map<u8, Color>, k: int) -> Seq<Message>
    decreases k,
{
    if k <= 0 {
        seq![]
    } else {
        let c = (k - 1) as u8;
        let before = channel_messages(frame, k - 1);
        if frame.contains_key(c) {
            before.push(Message::Immediate(frame[c], Some(c)))
        } else {
            before
        }
    }
}

/// One message per channel of a frame, in channel order.
pub open spec fn frame_messages(frame: Map<u8, Color>) -> Seq<Message> {
    channel_messages(frame, 256)
}

/// The frame that a running cursor plays: its index taken modulo the number
/// of frames. None when the pattern is empty.
pub open spec fn current_frame(s: CursorState) -> Option<u8> {
    if s.pattern.dom().len() == 0 {
        None
    } else {
        Some((s.frame as int % s.pattern.dom().len() as int) as u8)
    }
}

/// What the device is told at a tick: while stopped, one off message at the
/// first tick and nothing after; while running, the colors of the current
/// frame, or nothing where there is no such frame.
pub open spec fn messages_of(s: CursorState) -> Seq<Message> {
    if !s.running {
        if s.frame == 0 {
            seq![Message::Off]
        } else {
            seq![]
        }
    } else {
        match current_frame(s) {
            Some(f) => if s.pattern.contains_key(f) {
                frame_messages(s.pattern[f])
            } else {
                seq![]
            },
            None => seq![],
        }
    }
}

/// `start`: a stopped cursor rewinds to the first frame.
pub open spec fn started(s: CursorState) -> CursorState {
    CursorState { frame: if s.running { s.frame } else { 0 }, running: true, pattern: s.pattern }
}

/// `stop`: a running cursor rewinds to the first frame, which while stopped
/// means that the off message is still owed.
pub open spec fn stopped(s: CursorState) -> CursorState {
    CursorState { frame: if s.running { 0 } else { s.frame }, running: false, pattern: s.pattern }
}

/// `advance`: a running cursor moves one frame on, wrapping after 255; a
/// stopped one notes that the off message went out.
pub open spec fn advanced(s: CursorState) -> CursorState {
    if s.running {
        CursorState { frame: ((s.frame + 1) % 256) as u8, ..s }
    } else if s.frame == 0 {
        CursorState { frame: 1, ..s }
    } else {
        s
    }
}

/// `seek`: a new pattern plays from its first frame.
pub open spec fn seeked(p: Map<u8, Map<u8, Color>>) -> CursorState {
    CursorState { frame: 0, running: true, pattern: p }
}

/// The state after `k` ticks with nothing else happening.
pub open spec fn ticks(s: CursorState, k: nat) -> CursorState
    decreases k,
{
    if k == 0 {
        s
    } else {
        advanced(ticks(s, (k - 1) as nat))
    }
}

/// Playback position, run state and the pattern being played.
pub struct Cursor {
    frame: u8,
    running: bool,
    pattern: Pattern,
}

impl View for Cursor {
    type V = CursorState;

    closed spec fn view(&self) -> CursorState {
        CursorState { frame: self.frame, running: self.running, pattern: self.pattern@ }
    }
}

impl Cursor {
    pub closed spec fn wf(&self) -> bool {
        self.pattern.wf()
    }

    /// A running cursor at the first frame of an empty pattern.
    pub fn new() -> (r: Cursor)
        ensures
            r.wf(),
            r@.frame == 0,
            r@.running,
            r@.pattern == Map::<u8, Map<u8, Color>>::empty(),
    {
        Cursor { frame: 0, running: true, pattern: Pattern::new() }
    }

    pub fn frame_index(&self) -> (r: u8)
        ensures
            r == self@.frame,
    {
        self.frame
    }

    pub fn is_running(&self) -> (r: bool)
        ensures
            r == self@.running,
    {
        self.running
    }

    pub fn pattern(&self) -> (r: &Pattern)
        requires
            self.wf(),
        ensures
            r.wf(),
            r@ == self@.pattern,
    {
        &self.pattern
    }

    pub fn start(&mut self)
        requires
            old(self).wf(),
        ensures
            final(self).wf(),
            final(self)@ == started(old(self)@),
    {
        if !self.running {
            self.frame = 0;
        }
        self.running = true;
    }

    pub fn stop(&mut self)
        requires
            old(self).wf(),
        ensures
            final(self).wf(),
            final(self)@ == stopped(old(self)@),
    {
        if self.running {
            self.frame = 0;
        }
        self.running = false;
    }

    /// Moves on by one tick.
    pub fn inc(&mut self)
        requires
            old(self).wf(),
        ensures
            final(self).wf(),
            final(self)@ == advanced(old(self)@),
    {
        if !self.running && self.frame == 0 {
            self.frame = 1;
            return ;
        }
        if self.running {
            self.frame = self.frame.wrapping_add(1);
        }
    }

    /// Replaces the pattern and plays it from its first frame, running, even
    /// when the cursor was stopped: loading resets the play position rather
    /// than resuming it.
    pub fn seek(&mut self, pattern: Pattern)
        requires
            old(self).wf(),
            pattern.wf(),
        ensures
            final(self).wf(),
            final(self)@ == seeked(pattern@),
    {
        self.frame = 0;
        self.running = true;
        self.pattern = pattern;
    }

    /// The messages for the device at this tick.
    pub fn messages(&self) -> (r: Vec<Message>)
        requires
            self.wf(),
        ensures
            r@ == messages_of(self@),
    {
        if !self.running {
            if self.frame == 0 {
                return vec![Message::Off];
            }
            return Vec::new();
        }
        let n = self.pattern.len();
        if n == 0 {
            return Vec::new();
        }
        let index = ((self.frame as usize) % n) as u8;
        match self.pattern.frame(index) {
            Some(frame) => frame_messages_exec(frame),
            None => Vec::new(),
        }
    }
}

impl Default for Cursor {
    fn default() -> (r: Cursor)
        ensures
            r.wf(),
            r@.frame == 0,
            r@.running,
            r@.pattern == Map::<u8, Map<u8, Color>>::empty(),
    {
        Cursor::new()
    }
}

fn frame_messages_exec(frame: &Frame) -> (r: Vec<Message>)
    requires
        frame.wf(),
    ensures
        r@ == frame_messages(frame@),
{
    let mut out: Vec<Message> = Vec::new();
    let mut c: u32 = 0;
    while c < 256
        invariant
            frame.wf(),
            c <= 256,
            out@ == channel_messages(frame@, c as int),
        decreases 256 - c,
    {
        if let Some(color) = frame.color(c as u8) {
            out.push(Message::Immediate(color, Some(c as u8)));
        }
        c = c + 1;
    }
    out
}

/// A stopped cursor that has sent its off message stays as it is, tick after tick.
pub proof fn lemma_quiet_stays_quiet(s: CursorState, k: nat)
    requires
        !s.running,
        s.frame != 0,
    ensures
        ticks(s, k) == s,
    decreases k,
{
    if k > 0 {
        lemma_quiet_stays_quiet(s, (k - 1) as nat);
    }
}

/// One off signal: a running cursor that is stopped asks for exactly one
/// off message at the next tick, and for nothing at every tick after that
/// until it is started again.
pub proof fn lemma_stop_signals_off_once(s: CursorState, k: nat)
    requires
        s.running,
    ensures
        messages_of(stopped(s)) == seq![Message::Off],
        k >= 1 ==> messages_of(ticks(stopped(s), k)) == Seq::<Message>::empty(),
        k >= 1 ==> !ticks(stopped(s), k).running,
{
    let once = advanced(stopped(s));
    assert(ticks(stopped(s), 1) == once) by {
        assert(ticks(stopped(s), 0) == stopped(s));
    }
    if k >= 1 {
        lemma_quiet_stays_quiet(once, (k - 1) as nat);
        lemma_ticks_split(stopped(s), 1, (k - 1) as nat);
    }
}

proof fn lemma_ticks_split(s: CursorState, a: nat, b: nat)
    ensures
        ticks(s, a + b) == ticks(ticks(s, a), b),
    decreases b,
{
    if b > 0 {
        lemma_ticks_split(s, a, (b - 1) as nat);
        assert((a + b - 1) as nat == a + (b - 1) as nat);
    }
}

/// Starting a stopped cursor rewinds it to the first frame.
pub proof fn lemma_start_after_stop_rewinds(s: CursorState)
    ensures
        started(stopped(s)).frame == 0,
        started(stopped(s)).running,
        started(stopped(s)).pattern == s.pattern,
{
}

/// With no frames to play, a running cursor asks for nothing and keeps
/// counting ticks modulo 256.
pub proof fn lemma_empty_pattern_plays_nothing(s: CursorState)
    requires
        s.running,
        s.pattern.dom().len() == 0,
    ensures
        messages_of(s) == Seq::<Message>::empty(),
        advanced(s).frame as int == (s.frame as int + 1) % 256,
        advanced(s).running,
{
}

} // verus!
