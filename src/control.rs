//! What the control plane's requests ask of the engine.
use vstd::prelude::*;

use crate::color::{hex_color, parse_hex, Color};
use crate::heart::HeartControl;
use crate::link::{BasicColor, Command, Effects};
use crate::pattern::{Frame, Pattern};
use crate::text::same_text;

verus! {

/// Why a control request could not be turned into a directive.
#[derive(Clone, Copy, Debug, PartialEq, Eq, Structural)]
pub enum ControlError {
    /// A load request named no pattern.
    MissingName,
}

/// The directive that a control request asks for: mode `off` stops, `on`
/// starts, `load` plays the pattern named in the request. Any other mode
/// asks for nothing.
pub fn directive_for(mode: &str, pattern: Option<String>) -> (r: Result<Option<HeartControl>, ControlError>)
    ensures
        mode@ == "off"@ ==> r matches Ok(Some(HeartControl::Stop)),
        mode@ == "on"@ ==> r matches Ok(Some(HeartControl::Start)),
        mode@ == "load"@ ==> match pattern {
            Some(name) => r matches Ok(Some(HeartControl::Load(n))) && n == name,
            None => r == Err::<Option<HeartControl>, ControlError>(ControlError::MissingName),
        },
        mode@ != "off"@ && mode@ != "on"@ && mode@ != "load"@ ==> r matches Ok(None),
{
    proof {
        reveal_strlit("off");
        reveal_strlit("on");
        reveal_strlit("load");
        assert("off"@.len() == 3);
        assert("on"@.len() == 2);
        assert("load"@.len() == 4);
    }
    if same_text(mode, "off") {
        Ok(Some(HeartControl::Stop))
    } else if same_text(mode, "on") {
        Ok(Some(HeartControl::Start))
    } else if same_text(mode, "load") {
        match pattern {
            Some(name) => Ok(Some(HeartControl::Load(name))),
            None => Err(ControlError::MissingName),
        }
    } else {
        Ok(None)
    }
}

/// A request of the direct control interface.
#[derive(Clone, Copy, Debug, PartialEq, Eq, Structural)]
pub enum ControlQuery {
    /// Lights on or off.
    State(bool),
    /// One of the named colors.
    BasicColor(BasicColor),
}

/// The light effect that a direct control request asks for.
pub fn effect_for(query: ControlQuery) -> (r: Effects)
    ensures
        match query {
            ControlQuery::State(true) => r matches Effects::Lights(Command::On),
            ControlQuery::State(false) => r matches Effects::Lights(Command::Off),
            ControlQuery::BasicColor(c) => r matches Effects::Lights(Command::BasicColor(d)) && d
                == c,
        },
{
    match query {
        ControlQuery::State(on) => if on {
            Effects::Lights(Command::On)
        } else {
            Effects::Lights(Command::Off)
        },
        ControlQuery::BasicColor(c) => Effects::Lights(Command::BasicColor(c)),
    }
}

/// A color for a channel, written in hex, as a pattern editor sends it.
#[derive(Debug)]
pub struct ColorAssignment {
    pub hex: String,
    pub ledn: u8,
}

/// The frame that a list of assignments describes: each assignment whose hex
/// reads as a color sets its channel, a later one over an earlier one.
pub open spec fn hex_frame(cs: Seq<ColorAssignment>) -> Map<u8, Color>
    decreases cs.len(),
{
    if cs.len() == 0 {
        Map::empty()
    } else {
        let before = hex_frame(cs.drop_last());
        match hex_color(cs.last().hex@) {
            Some(rgb) => before.insert(cs.last().ledn, Color { red: rgb.0, green: rgb.1, blue: rgb.2 }),
            None => before,
        }
    }
}

/// The number of frames that an edited pattern may hold.
pub const MAX_EDITED_FRAMES: usize = 255;

/// The pattern that an editor's frames describe: frame `i` is the `i`-th
/// list of assignments, for the first 255 lists.
pub open spec fn hex_pattern(frames: Seq<Vec<ColorAssignment>>) -> Map<u8, Map<u8, Color>> {
    Map::new(
        |f: u8| (f as int) < frames.len() && (f as int) < MAX_EDITED_FRAMES,
        |f: u8| hex_frame(frames[f as int]@),
    )
}

fn frame_from_hex(colors: &Vec<ColorAssignment>) -> (r: Frame)
    ensures
        r.wf(),
        r@ == hex_frame(colors@),
{
    let mut frame = Frame::empty();
    let mut k: usize = 0;
    while k < colors.len()
        invariant
            k <= colors@.len(),
            frame.wf(),
            frame@ == hex_frame(colors@.take(k as int)),
        decreases colors@.len() - k,
    {
        let assignment = &colors[k];
        assert(colors@.take(k + 1).drop_last() =~= colors@.take(k as int));
        assert(colors@.take(k + 1).last() == colors@[k as int]);
        match parse_hex(&assignment.hex) {
            Some(rgb) => frame.put(assignment.ledn, Color::rgb(rgb.0, rgb.1, rgb.2)),
            None => {},
        }
        k = k + 1;
    }
    assert(colors@.take(colors@.len() as int) =~= colors@);
    frame
}

/// Builds the pattern that an editor sent as lists of hex colors, one list
/// per frame. Colors that do not read are left out; lists past the 255th
/// are dropped.
pub fn pattern_from_hex_frames(frames: &Vec<Vec<ColorAssignment>>) -> (r: Pattern)
    ensures
        r.wf(),
        r@ == hex_pattern(frames@),
{
    let mut pattern = Pattern::new();
    let mut i: usize = 0;
    while i < frames.len() && i < MAX_EDITED_FRAMES
        invariant
            i <= frames@.len(),
            i <= MAX_EDITED_FRAMES,
            pattern.wf(),
            pattern@ == Map::new(
                |f: u8| (f as int) < i,
                |f: u8| hex_frame(frames@[f as int]@),
            ),
        decreases frames@.len() - i,
    {
        let frame = frame_from_hex(&frames[i]);
        let ghost before = pattern@;
        pattern.insert_frame(i as u8, frame);
        assert(pattern@ =~= Map::new(
            |f: u8| (f as int) < i + 1,
            |f: u8| hex_frame(frames@[f as int]@),
        ));
        i = i + 1;
    }
    assert(pattern@ =~= hex_pattern(frames@));
    pattern
}

} // verus!
