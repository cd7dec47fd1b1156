//! The decisions of the effect loop. The loop itself (the mailbox, the
//! clock, the device) lives with the caller, who hands each outcome back.
use vstd::prelude::*;
use vstd::utf8::valid_utf8;

use crate::cursor::{
    advanced, lemma_quiet_stays_quiet, messages_of, seeked, stopped, started, ticks, Cursor, CursorState, Message,
};
use crate::pattern::{parse_pattern, pattern_of, PatternError};

verus! {

/// A directive for the effect loop.
#[derive(Debug)]
pub enum HeartControl {
    Stop,
    Start,
    /// Play the pattern stored under this name.
    Load(String),
}

impl Cursor {
    /// Applies a directive. `Stop` and `Start` take effect at once; for
    /// `Load` the cursor is left as it is and the name of the pattern to
    /// read is handed back, for the caller to read and give to `load`.
    pub fn handle(&mut self, control: HeartControl) -> (r: Option<String>)
        requires
            old(self).wf(),
        ensures
            final(self).wf(),
            match control {
                HeartControl::Stop => r is None && final(self)@ == stopped(old(self)@),
                HeartControl::Start => r is None && final(self)@ == started(old(self)@),
                HeartControl::Load(name) => r == Some(name) && final(self)@ == old(self)@,
            },
    {
        match control {
            HeartControl::Stop => {
                self.stop();
                None
            },
            HeartControl::Start => {
                self.start();
                None
            },
            HeartControl::Load(name) => Some(name),
        }
    }

    /// Plays the pattern that `source` describes for the channels
    /// `first..=last`, from its first frame. A source that is not text
    /// leaves the cursor as it was.
    pub fn load(&mut self, source: &[u8], first: u8, last: u8) -> (r: Result<(), PatternError>)
        requires
            old(self).wf(),
        ensures
            final(self).wf(),
            r is Ok <==> valid_utf8(source@),
            r is Ok ==> final(self)@ == seeked(pattern_of(source@, first, last)),
            r is Err ==> final(self)@ == old(self)@,
    {
        match parse_pattern(source, first, last) {
            Ok(pattern) => {
                self.seek(pattern);
                Ok(())
            },
            Err(e) => Err(e),
        }
    }

    /// Ends a tick. A failed send stops playback, so that a dead device is
    /// not written to again and again; then the cursor moves on.
    pub fn end_tick(&mut self, send_failed: bool)
        requires
            old(self).wf(),
        ensures
            final(self).wf(),
            final(self)@ == advanced(
                if send_failed {
                    stopped(old(self)@)
                } else {
                    old(self)@
                },
            ),
    {
        if send_failed {
            self.stop();
        }
        self.inc();
    }
}

/// A failed send silences the engine: after the tick that failed, no tick
/// asks for any message until the cursor is started or given a pattern.
pub proof fn lemma_failed_send_silences(s: CursorState, k: nat)
    ensures
        messages_of(ticks(advanced(stopped(s)), k)) == Seq::<Message>::empty(),
        !ticks(advanced(stopped(s)), k).running,
{
    lemma_quiet_stays_quiet(advanced(stopped(s)), k);
}

} // verus!
