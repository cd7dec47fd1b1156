//! Patterns: for each frame number, the color of each channel.
//!
//! A pattern is written as text, one assignment per line:
//! `F<frame> L<channel> <red> <green> <blue>`, each number a byte in decimal.
//! Lines that do not have this shape (blank lines, `#` comments, typos) are
//! passed over, and a later line for the same frame and channel wins.
use vstd::prelude::*;
use vstd::set_lib::lemma_len_subset;
use vstd::utf8::valid_utf8;

use crate::color::Color;
use crate::text::{
    as_text, decimal_u8, decimal_u8_exec, field_bounds, fields, marked_u8, marked_u8_exec,
};

verus! {

/// One well-formed line of pattern text.
#[derive(Clone, Copy, Debug, PartialEq, Eq, Structural)]
pub struct Record {
    pub frame: u8,
    pub channel: u8,
    pub color: Color,
}

/// The assignment that a line makes, if it is well formed.
pub open spec fn line_record(line: Seq<u8>) -> Option<Record> {
    let fs = fields(line);
    if fs.len() >= 5 && marked_u8(fs[0], 0x46) is Some && marked_u8(fs[1], 0x4c) is Some
        && forall|k: int| 2 <= k < fs.len() ==> (#[trigger] decimal_u8(fs[k])) is Some {
        Some(
            Record {
                frame: marked_u8(fs[0], 0x46)->0,
                channel: marked_u8(fs[1], 0x4c)->0,
                color: Color {
                    red: decimal_u8(fs[2])->0,
                    green: decimal_u8(fs[3])->0,
                    blue: decimal_u8(fs[4])->0,
                },
            },
        )
    } else {
        None
    }
}

pub open spec fn optional_record(line: Seq<u8>) -> Seq<Record> {
    match line_record(line) {
        Some(r) => seq![r],
        None => seq![],
    }
}

/// The assignments made by the lines of `text` from position `i` on, where
/// the current line began at `start`. Lines end at a newline byte.
pub open spec fn records_from(text: Seq<u8>, start: int, i: int) -> Seq<Record>
    decreases text.len() - i,
{
    if i >= text.len() {
        optional_record(text.subrange(start, text.len() as int))
    } else if text[i] == 0x0a {
        optional_record(text.subrange(start, i)) + records_from(text, i + 1, i + 1)
    } else {
        records_from(text, start, i + 1)
    }
}

/// The assignments that a text makes, in the order of its lines.
pub open spec fn records(text: Seq<u8>) -> Seq<Record> {
    records_from(text, 0, 0)
}

/// A table after one more assignment.
pub open spec fn assign(t: Map<u8, Map<u8, Color>>, r: Record) -> Map<u8, Map<u8, Color>> {
    let frame = if t.contains_key(r.frame) {
        t[r.frame]
    } else {
        Map::empty()
    };
    t.insert(r.frame, frame.insert(r.channel, r.color))
}

/// The table that a run of assignments builds, each over the ones before it.
pub open spec fn table_of(recs: Seq<Record>) -> Map<u8, Map<u8, Color>>
    decreases recs.len(),
{
    if recs.len() == 0 {
        Map::empty()
    } else {
        assign(table_of(recs.drop_last()), recs.last())
    }
}

pub open spec fn black() -> Color {
    Color { red: 0, green: 0, blue: 0 }
}

/// A frame with every channel of `first..=last` given a color, black where it had none.
pub open spec fn filled(frame: Map<u8, Color>, first: u8, last: u8) -> Map<u8, Color> {
    Map::new(
        |c: u8| frame.contains_key(c) || (first <= c && c <= last),
        |c: u8|
            if frame.contains_key(c) {
                frame[c]
            } else {
                black()
            },
    )
}

/// A table with each of its frames filled over `first..=last`.
pub open spec fn normalized(t: Map<u8, Map<u8, Color>>, first: u8, last: u8) -> Map<
    u8,
    Map<u8, Color>,
> {
    Map::new(|f: u8| t.contains_key(f), |f: u8| filled(t[f], first, last))
}

/// The pattern that a text describes for the channels `first..=last`.
pub open spec fn pattern_of(text: Seq<u8>, first: u8, last: u8) -> Map<u8, Map<u8, Color>> {
    normalized(table_of(records(text)), first, last)
}

/// The colors of one frame, by channel.
pub struct Frame {
    colors: Vec<Option<Color>>,
}

impl View for Frame {
    type V = Map<u8, Color>;

    closed spec fn view(&self) -> Map<u8, Color> {
        Map::new(|c: u8| self.colors@[c as int] is Some, |c: u8| self.colors@[c as int]->0)
    }
}

impl Frame {
    pub closed spec fn wf(&self) -> bool {
        self.colors@.len() == 256
    }

    /// A frame that gives no channel a color.
    pub fn empty() -> (r: Frame)
        ensures
            r.wf(),
            r@ == Map::<u8, Color>::empty(),
    {
        let mut colors: Vec<Option<Color>> = Vec::new();
        let mut k: usize = 0;
        while k < 256
            invariant
                k <= 256,
                colors@.len() == k,
                forall|j: int| 0 <= j < k ==> colors@[j] is None,
            decreases 256 - k,
        {
            colors.push(None);
            k = k + 1;
        }
        let r = Frame { colors };
        assert(r@ =~= Map::<u8, Color>::empty());
        r
    }

    /// The color of a channel, if this frame gives it one.
    pub fn color(&self, channel: u8) -> (r: Option<Color>)
        requires
            self.wf(),
        ensures
            r == (if self@.contains_key(channel) {
                Some(self@[channel])
            } else {
                None
            }),
    {
        self.colors[channel as usize]
    }

    /// Gives a channel a color.
    pub fn put(&mut self, channel: u8, color: Color)
        requires
            old(self).wf(),
        ensures
            final(self).wf(),
            final(self)@ == old(self)@.insert(channel, color),
    {
        self.colors.set(channel as usize, Some(color));
        assert(self@ =~= old(self)@.insert(channel, color));
    }

    /// Gives black to each channel of `first..=last` that has no color.
    fn fill(&mut self, first: u8, last: u8)
        requires
            old(self).wf(),
        ensures
            final(self).wf(),
            final(self)@ == filled(old(self)@, first, last),
    {
        let ghost before = self@;
        let mut c: u32 = first as u32;
        while c <= last as u32
            invariant
                self.wf(),
                first <= c <= 256,
                (first <= last && c <= last as u32 + 1) || c == first,
                forall|x: u8|
                    (#[trigger] self.colors@[x as int] is Some) == (before.contains_key(x) || (
                    first <= x && (x as u32) < c)),
                forall|x: u8|
                    #![trigger self.colors@[x as int]]
                    self.colors@[x as int] is Some ==> self.colors@[x as int]->0 == if before.contains_key(x) {
                        before[x]
                    } else {
                        black()
                    },
            decreases last as u32 + 1 - c,
        {
            if self.colors[c as usize].is_none() {
                self.colors.set(c as usize, Some(Color::black()));
            }
            c = c + 1;
        }
        assert forall|x: u8| #[trigger] self@.contains_key(x) == filled(before, first, last).contains_key(x) by {
            assert(self@.contains_key(x) == self.colors@[x as int] is Some);
            assert((self.colors@[x as int] is Some) == (before.contains_key(x) || (first <= x && (x as u32) < c)));
        }
        assert forall|x: u8| #[trigger] self@.contains_key(x) implies self@[x] == filled(before, first, last)[x] by {
            assert(self@[x] == self.colors@[x as int]->0);
        }
        assert(self@ =~= filled(before, first, last));
    }
}

/// A table of frames, by frame number.
pub struct Pattern {
    frames: Vec<Option<Frame>>,
    count: usize,
}

impl View for Pattern {
    type V = Map<u8, Map<u8, Color>>;

    closed spec fn view(&self) -> Map<u8, Map<u8, Color>> {
        Map::new(|f: u8| self.frames@[f as int] is Some, |f: u8| self.frames@[f as int]->0@)
    }
}

/// A set of bytes that misses one is finite and has fewer than 256 members.
proof fn lemma_byte_set_len(s: Set<u8>, missing: u8)
    requires
        !s.contains(missing),
    ensures
        s.finite(),
        s.len() < 256,
{
    <u8 as vstd::set_lib::FiniteRange>::range_properties(0u8, 255u8);
    let all = Set::<u8>::range(0u8, 255u8).insert(255u8);
    assert(!Set::<u8>::range(0u8, 255u8).contains(255u8));
    let rest = all.remove(missing);
    assert(s.subset_of(rest));
    lemma_len_subset(s, rest);
}

impl Pattern {
    pub closed spec fn wf(&self) -> bool {
        &&& self.frames@.len() == 256
        &&& forall|f: int|
            0 <= f < 256 && (#[trigger] self.frames@[f]) is Some ==> self.frames@[f]->0.wf()
        &&& self@.dom().finite()
        &&& self@.dom().len() == self.count
        &&& self.count <= 256
    }

    /// The pattern with no frames.
    pub fn new() -> (r: Pattern)
        ensures
            r.wf(),
            r@ == Map::<u8, Map<u8, Color>>::empty(),
    {
        let mut frames: Vec<Option<Frame>> = Vec::new();
        let mut k: usize = 0;
        while k < 256
            invariant
                k <= 256,
                frames@.len() == k,
                forall|j: int| 0 <= j < k ==> frames@[j] is None,
            decreases 256 - k,
        {
            frames.push(None);
            k = k + 1;
        }
        let r = Pattern { frames, count: 0 };
        assert(r@ =~= Map::<u8, Map<u8, Color>>::empty());
        r
    }

    /// The number of frames.
    pub fn len(&self) -> (r: usize)
        requires
            self.wf(),
        ensures
            r == self@.dom().len(),
            r <= 256,
    {
        self.count
    }

    /// The frame numbered `frame`, if there is one.
    pub fn frame(&self, frame: u8) -> (r: Option<&Frame>)
        requires
            self.wf(),
        ensures
            r is Some <==> self@.contains_key(frame),
            r matches Some(fr) ==> fr.wf() && fr@ == self@[frame],
    {
        match &self.frames[frame as usize] {
            Some(fr) => Some(fr),
            None => None,
        }
    }

    /// The color of a channel in a frame, if the pattern gives it one.
    pub fn color(&self, frame: u8, channel: u8) -> (r: Option<Color>)
        requires
            self.wf(),
        ensures
            r == (if self@.contains_key(frame) && self@[frame].contains_key(channel) {
                Some(self@[frame][channel])
            } else {
                None
            }),
    {
        match self.frame(frame) {
            Some(fr) => fr.color(channel),
            None => None,
        }
    }

    /// Makes one assignment.
    fn put(&mut self, r: Record)
        requires
            old(self).wf(),
        ensures
            final(self).wf(),
            final(self)@ == assign(old(self)@, r),
    {
        let f = r.frame as usize;
        let ghost before = self@;
        if self.frames[f].is_none() {
            proof {
                lemma_byte_set_len(self@.dom(), r.frame);
            }
            self.frames.set(f, Some(Frame::empty()));
            self.count = self.count + 1;
            assert(self@ =~= before.insert(r.frame, Map::empty()));
        }
        let ghost mid = self@;
        let mut slot: Option<Frame> = None;
        self.frames.set_and_swap(f, &mut slot);
        let mut fr = match slot {
            Some(fr) => fr,
            None => Frame::empty(),
        };
        fr.put(r.channel, r.color);
        self.frames.set(f, Some(fr));
        assert(self@ =~= mid.insert(r.frame, mid[r.frame].insert(r.channel, r.color)));
        assert(self@ =~= assign(before, r));
    }

    /// Sets a whole frame, replacing any frame of that number.
    pub fn insert_frame(&mut self, number: u8, frame: Frame)
        requires
            old(self).wf(),
            frame.wf(),
        ensures
            final(self).wf(),
            final(self)@ == old(self)@.insert(number, frame@),
    {
        let ghost before = self@;
        let ghost contents = frame@;
        if self.frames[number as usize].is_none() {
            proof {
                lemma_byte_set_len(self@.dom(), number);
            }
            self.count = self.count + 1;
        }
        self.frames.set(number as usize, Some(frame));
        assert(self@.dom() =~= before.dom().insert(number));
        assert(self@ =~= before.insert(number, contents));
    }

    /// Fills every frame over the channels `first..=last`.
    fn fill(&mut self, first: u8, last: u8)
        requires
            old(self).wf(),
        ensures
            final(self).wf(),
            final(self)@ == normalized(old(self)@, first, last),
    {
        let ghost before = self@;
        let mut f: usize = 0;
        while f < 256
            invariant
                self.wf(),
                f <= 256,
                self@.dom() == before.dom(),
                forall|g: u8|
                    #[trigger] before.contains_key(g) ==> self@[g] == if (g as int) < f {
                        filled(before[g], first, last)
                    } else {
                        before[g]
                    },
            decreases 256 - f,
        {
            if self.frames[f].is_some() {
                let ghost prev = self@;
                let mut slot: Option<Frame> = None;
                self.frames.set_and_swap(f, &mut slot);
                let mut fr = match slot {
                    Some(fr) => fr,
                    None => Frame::empty(),
                };
                fr.fill(first, last);
                self.frames.set(f, Some(fr));
                assert(self@ =~= prev.insert(f as u8, filled(prev[f as u8], first, last)));
            }
            f = f + 1;
        }
        assert(self@ =~= normalized(before, first, last));
    }
}

/// The assignment that a line makes, if it is well formed.
pub fn read_line(line: &[u8]) -> (r: Option<Record>)
    ensures
        r == line_record(line@),
{
    let ghost fs = fields(line@);
    let bounds = field_bounds(line);
    let n = bounds.len();
    if n < 5 {
        return None;
    }
    let frame = match marked_u8_exec(&line[bounds[0].0..bounds[0].1], 0x46) {
        Some(v) => v,
        None => return None,
    };
    let channel = match marked_u8_exec(&line[bounds[1].0..bounds[1].1], 0x4c) {
        Some(v) => v,
        None => return None,
    };
    let mut values: Vec<u8> = Vec::new();
    let mut k: usize = 2;
    while k < n
        invariant
            2 <= k <= n,
            n == bounds@.len(),
            n == fs.len(),
            fs == fields(line@),
            forall|j: int|
                0 <= j < n ==> {
                    &&& (#[trigger] bounds@[j]).0 < bounds@[j].1 <= line@.len()
                    &&& line@.subrange(bounds@[j].0 as int, bounds@[j].1 as int) == fs[j]
                },
            values@.len() == k - 2,
            forall|j: int| 2 <= j < k ==> (#[trigger] decimal_u8(fs[j])) == Some(values@[j - 2]),
        decreases n - k,
    {
        match decimal_u8_exec(&line[bounds[k].0..bounds[k].1]) {
            Some(v) => values.push(v),
            None => return None,
        }
        k = k + 1;
    }
    assert(decimal_u8(fs[2]) == Some(values@[0]));
    assert(decimal_u8(fs[3]) == Some(values@[1]));
    assert(decimal_u8(fs[4]) == Some(values@[2]));
    Some(Record { frame, channel, color: Color::rgb(values[0], values[1], values[2]) })
}

/// Why a pattern could not be read.
#[derive(Clone, Copy, Debug, PartialEq, Eq, Structural)]
pub enum PatternError {
    /// The source is not UTF-8 text.
    NotText,
}

/// Builds the table that the lines of `source` describe, each well-formed
/// line over the ones before it. No channel is filled.
pub fn read_table(source: &[u8]) -> (r: Pattern)
    ensures
        r.wf(),
        r@ == table_of(records(source@)),
{
    let n = source.len();
    let mut table = Pattern::new();
    let ghost mut done: Seq<Record> = seq![];
    let mut start: usize = 0;
    let mut i: usize = 0;
    while i < n
        invariant
            start <= i <= n,
            n == source@.len(),
            table.wf(),
            table@ == table_of(done),
            records(source@) == done + records_from(source@, start as int, i as int),
        decreases n - i,
    {
        if source[i] == 0x0a {
            let line = &source[start..i];
            let found = read_line(line);
            let ghost here = optional_record(source@.subrange(start as int, i as int));
            let ghost rest = records_from(source@, i + 1, i + 1);
            assert(records_from(source@, start as int, i as int) == here + rest);
            assert(done + (here + rest) =~= (done + here) + rest);
            match found {
                Some(r) => {
                    table.put(r);
                    assert(done.push(r).drop_last() =~= done);
                    assert(done + here =~= done.push(r));
                    proof {
                        done = done.push(r);
                    }
                },
                None => {
                    assert(done + here =~= done);
                },
            }
            start = i + 1;
        }
        i = i + 1;
    }
    let line = &source[start..n];
    let found = read_line(line);
    let ghost here = optional_record(source@.subrange(start as int, n as int));
    match found {
        Some(r) => {
            table.put(r);
            assert(done.push(r).drop_last() =~= done);
            assert(done + here =~= done.push(r));
        },
        None => {
            assert(done + here =~= done);
        },
    }
    table
}

/// Reads pattern text: each well-formed line assigns a color to a channel of
/// a frame, a later line overriding an earlier one, and then every frame
/// gives each channel of `first..=last` that it left out the color black.
/// Fails only when the source is not UTF-8 text.
pub fn parse_pattern(source: &[u8], first: u8, last: u8) -> (r: Result<Pattern, PatternError>)
    ensures
        r is Err <==> !valid_utf8(source@),
        r matches Err(e) ==> e == PatternError::NotText,
        r matches Ok(p) ==> p.wf() && p@ == pattern_of(source@, first, last),
{
    if as_text(source).is_none() {
        return Err(PatternError::NotText);
    }
    let mut table = read_table(source);
    table.fill(first, last);
    Ok(table)
}

proof fn lemma_table_keeps_last(recs: Seq<Record>, i: int)
    requires
        0 <= i < recs.len(),
        forall|j: int|
            i < j < recs.len() ==> !((#[trigger] recs[j]).frame == recs[i].frame && recs[j].channel
                == recs[i].channel),
    ensures
        table_of(recs).contains_key(recs[i].frame),
        table_of(recs)[recs[i].frame].contains_key(recs[i].channel),
        table_of(recs)[recs[i].frame][recs[i].channel] == recs[i].color,
    decreases recs.len(),
{
    let r = recs[i];
    if i < recs.len() - 1 {
        let before = recs.drop_last();
        assert(forall|j: int| i < j < before.len() ==> before[j] == recs[j]);
        lemma_table_keeps_last(before, i);
        let last = recs.last();
        assert(recs[recs.len() - 1] == last);
        let t = table_of(before);
        if last.frame == r.frame {
            assert(last.channel != r.channel);
        }
        assert(table_of(recs) == assign(t, last));
    }
}

/// The last word: after reading a text, a channel of a frame has the color
/// that the last line assigning that frame and channel gives it.
pub proof fn lemma_last_assignment_wins(text: Seq<u8>, first: u8, last: u8, i: int)
    requires
        0 <= i < records(text).len(),
        forall|j: int|
            i < j < records(text).len() ==> !((#[trigger] records(text)[j]).frame
                == records(text)[i].frame && records(text)[j].channel == records(text)[i].channel),
    ensures
        pattern_of(text, first, last).contains_key(records(text)[i].frame),
        pattern_of(text, first, last)[records(text)[i].frame].contains_key(
            records(text)[i].channel,
        ),
        pattern_of(text, first, last)[records(text)[i].frame][records(text)[i].channel]
            == records(text)[i].color,
{
    lemma_table_keeps_last(records(text), i);
}

/// Density: every frame of a pattern read from text gives a color to every
/// channel of the configured range.
pub proof fn lemma_frames_dense(text: Seq<u8>, first: u8, last: u8, frame: u8, channel: u8)
    requires
        pattern_of(text, first, last).contains_key(frame),
        first <= channel <= last,
    ensures
        pattern_of(text, first, last)[frame].contains_key(channel),
{
}

} // verus!
