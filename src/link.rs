//! The connection to a serial light strip: when to connect, what to write,
//! and when to give a handle up. The caller owns the port and reports what
//! happened to it; this state machine decides.
use vstd::prelude::*;

verus! {

/// Where the light strip is attached.
#[derive(Debug)]
pub struct LightConfiguration {
    pub device: String,
    pub baud: u32,
}

impl LightConfiguration {
    pub fn duplicate(&self) -> (r: LightConfiguration)
        ensures
            r == *self,
    {
        LightConfiguration { device: self.device.clone(), baud: self.baud }
    }
}

/// The colors that the strip knows by name.
#[derive(Clone, Copy, Debug, PartialEq, Eq, Structural)]
pub enum BasicColor {
    Red,
    Green,
    Blue,
}

/// A request for the light strip.
#[derive(Debug)]
pub enum Command {
    /// Use another port from now on.
    Configure(LightConfiguration),
    On,
    BasicColor(BasicColor),
    Off,
}

/// Side effects that the rest of the system asks for.
#[derive(Debug)]
pub enum Effects {
    Lights(Command),
}

impl BasicColor {
    /// The color's name in the serial protocol.
    pub fn name(&self) -> (r: &'static str)
        ensures
            r@ == match self {
                BasicColor::Red => "red"@,
                BasicColor::Green => "green"@,
                BasicColor::Blue => "blue"@,
            },
    {
        match self {
            BasicColor::Red => "red",
            BasicColor::Green => "green",
            BasicColor::Blue => "blue",
        }
    }
}

/// The line that a command puts on the wire, if it is one that is written.
pub open spec fn wire_text(c: Command) -> Option<Seq<char>> {
    match c {
        Command::On => Some("on:"@),
        Command::Off => Some("off:"@),
        Command::BasicColor(BasicColor::Red) => Some("red:"@),
        Command::BasicColor(BasicColor::Green) => Some("green:"@),
        Command::BasicColor(BasicColor::Blue) => Some("blue:"@),
        Command::Configure(_) => None,
    }
}

impl Command {
    /// The text written to the strip for this command: `on:`, `off:`, or a
    /// color name followed by `:`. A configuration is not written.
    pub fn wire(&self) -> (r: Option<&'static str>)
        ensures
            r matches Some(t) ==> wire_text(*self) == Some(t@),
            r is None ==> wire_text(*self) is None,
    {
        match self {
            Command::On => Some("on:"),
            Command::Off => Some("off:"),
            Command::BasicColor(BasicColor::Red) => Some("red:"),
            Command::BasicColor(BasicColor::Green) => Some("green:"),
            Command::BasicColor(BasicColor::Blue) => Some("blue:"),
            Command::Configure(_) => None,
        }
    }
}

/// The minimum time between two connection attempts, and between a failure
/// of the handle and the next attempt, in milliseconds.
pub const RECONNECT_COOLDOWN_MS: u64 = 5000;

/// Where the connection stands.
#[derive(Clone, Copy, Debug, PartialEq, Eq, Structural)]
pub enum Phase {
    /// No handle: never connected, lost, or given up.
    Absent,
    /// An attempt was asked for and its outcome is awaited.
    Connecting,
    /// A handle is open.
    Open,
}

/// What happened since the last step.
#[derive(Debug)]
pub enum LinkEvent {
    /// The clock reads this many milliseconds.
    Tick(u64),
    /// The attempt that was asked for succeeded, or not.
    Opened(bool),
    /// A command arrived.
    Command(Command),
    /// Writing to the open handle failed at this time (milliseconds).
    WriteFailed(u64),
    /// Reading from the open handle failed at this time (milliseconds);
    /// `true` when it only timed out.
    ReadFailed(bool, u64),
}

/// What the caller is to do next.
#[derive(Debug)]
pub enum LinkAction {
    Nothing,
    /// Try to open the port so configured, and report with `Opened`.
    Connect(LightConfiguration),
    /// Write this text to the open handle.
    Write(&'static str),
}

/// The abstract state of a link.
pub struct LinkState {
    pub config: Option<LightConfiguration>,
    pub phase: Phase,
    /// When the current cooldown began: the last connection attempt or the
    /// last failure of the handle, whichever came later. None after a new
    /// configuration, when no attempt has been made yet.
    pub cooldown_from: Option<u64>,
}

/// Whether an attempt may be made at time `now`: no cooldown runs, or the
/// cooldown has passed since it began.
pub open spec fn cooled_down(cooldown_from: Option<u64>, now: u64) -> bool {
    match cooldown_from {
        None => true,
        Some(t) => now as int >= t as int + RECONNECT_COOLDOWN_MS as int,
    }
}

/// The start of a cooldown after a failure at `now`; one that began later
/// is kept.
pub open spec fn cooldown_after_failure(cooldown_from: Option<u64>, now: u64) -> Option<u64> {
    match cooldown_from {
        Some(t) => if t >= now {
            Some(t)
        } else {
            Some(now)
        },
        None => Some(now),
    }
}

/// An action as the contracts see it.
pub enum Act {
    Nothing,
    Connect(LightConfiguration),
    Write(Seq<char>),
}

pub open spec fn act_of(a: LinkAction) -> Act {
    match a {
        LinkAction::Nothing => Act::Nothing,
        LinkAction::Connect(c) => Act::Connect(c),
        LinkAction::Write(t) => Act::Write(t@),
    }
}

/// One step of the link: the next state, and the action for the caller.
/// - A tick makes an attempt when a port is configured, no handle is open
///   or awaited, and the cooldown has passed.
/// - An attempt starts a cooldown, and so does any failure of the handle
///   but a read timeout, which also drops the handle.
/// - A new configuration drops any handle and clears the cooldown.
/// - Commands are written only to an open handle; others are dropped.
pub open spec fn link_step(s: LinkState, e: LinkEvent) -> (LinkState, Act) {
    match e {
        LinkEvent::Tick(now) => match s.config {
            Some(c) => if s.phase == Phase::Absent && cooled_down(s.cooldown_from, now) {
                (
                    LinkState { config: s.config, phase: Phase::Connecting, cooldown_from: Some(now) },
                    Act::Connect(c),
                )
            } else {
                (s, Act::Nothing)
            },
            None => (s, Act::Nothing),
        },
        LinkEvent::Opened(ok) => if s.phase == Phase::Connecting {
            (
                LinkState {
                    phase: if ok {
                        Phase::Open
                    } else {
                        Phase::Absent
                    },
                    ..s
                },
                Act::Nothing,
            )
        } else {
            (s, Act::Nothing)
        },
        LinkEvent::Command(Command::Configure(c)) => (
            LinkState { config: Some(c), phase: Phase::Absent, cooldown_from: None },
            Act::Nothing,
        ),
        LinkEvent::Command(c) => if s.phase == Phase::Open {
            match wire_text(c) {
                Some(t) => (s, Act::Write(t)),
                None => (s, Act::Nothing),
            }
        } else {
            (s, Act::Nothing)
        },
        LinkEvent::WriteFailed(now) => (
            LinkState {
                phase: Phase::Absent,
                cooldown_from: cooldown_after_failure(s.cooldown_from, now),
                ..s
            },
            Act::Nothing,
        ),
        LinkEvent::ReadFailed(timed_out, now) => if timed_out {
            (s, Act::Nothing)
        } else {
            (
                LinkState {
                    phase: Phase::Absent,
                    cooldown_from: cooldown_after_failure(s.cooldown_from, now),
                    ..s
                },
                Act::Nothing,
            )
        },
    }
}

/// The connection manager of one serial light strip.
pub struct DeviceLink {
    config: Option<LightConfiguration>,
    phase: Phase,
    cooldown_from: Option<u64>,
}

impl View for DeviceLink {
    type V = LinkState;

    closed spec fn view(&self) -> LinkState {
        LinkState { config: self.config, phase: self.phase, cooldown_from: self.cooldown_from }
    }
}

impl DeviceLink {
    /// A link with no port configured.
    pub fn new() -> (r: DeviceLink)
        ensures
            r@.config is None,
            r@.phase == Phase::Absent,
            r@.cooldown_from is None,
    {
        DeviceLink { config: None, phase: Phase::Absent, cooldown_from: None }
    }

    pub fn phase(&self) -> (r: Phase)
        ensures
            r == self@.phase,
    {
        self.phase
    }

    /// Whether the caller should hold an open handle.
    pub fn is_open(&self) -> (r: bool)
        ensures
            r == (self@.phase == Phase::Open),
    {
        self.phase == Phase::Open
    }

    fn may_attempt(&self, now: u64) -> (r: bool)
        ensures
            r == cooled_down(self@.cooldown_from, now),
    {
        match self.cooldown_from {
            None => true,
            Some(t) => now >= t && now - t >= RECONNECT_COOLDOWN_MS,
        }
    }

    /// Gives the handle up and starts a cooldown at `now`.
    fn fail(&mut self, now: u64)
        ensures
            final(self)@ == (LinkState {
                phase: Phase::Absent,
                cooldown_from: cooldown_after_failure(old(self)@.cooldown_from, now),
                ..old(self)@
            }),
    {
        self.phase = Phase::Absent;
        self.cooldown_from = match self.cooldown_from {
            Some(t) => if t >= now {
                Some(t)
            } else {
                Some(now)
            },
            None => Some(now),
        };
    }

    /// Takes one event and says what to do about it.
    pub fn step(&mut self, event: LinkEvent) -> (r: LinkAction)
        ensures
            link_step(old(self)@, event) == (final(self)@, act_of(r)),
    {
        match event {
            LinkEvent::Tick(now) => {
                if self.phase == Phase::Absent && self.may_attempt(now) {
                    match &self.config {
                        Some(c) => {
                            let target = c.duplicate();
                            self.phase = Phase::Connecting;
                            self.cooldown_from = Some(now);
                            LinkAction::Connect(target)
                        },
                        None => LinkAction::Nothing,
                    }
                } else {
                    LinkAction::Nothing
                }
            },
            LinkEvent::Opened(ok) => {
                if self.phase == Phase::Connecting {
                    self.phase = if ok {
                        Phase::Open
                    } else {
                        Phase::Absent
                    };
                }
                LinkAction::Nothing
            },
            LinkEvent::Command(Command::Configure(c)) => {
                self.config = Some(c);
                self.phase = Phase::Absent;
                self.cooldown_from = None;
                LinkAction::Nothing
            },
            LinkEvent::Command(c) => {
                if self.phase == Phase::Open {
                    match c.wire() {
                        Some(t) => LinkAction::Write(t),
                        None => LinkAction::Nothing,
                    }
                } else {
                    LinkAction::Nothing
                }
            },
            LinkEvent::WriteFailed(now) => {
                self.fail(now);
                LinkAction::Nothing
            },
            LinkEvent::ReadFailed(timed_out, now) => {
                if !timed_out {
                    self.fail(now);
                }
                LinkAction::Nothing
            },
        }
    }
}

/// The state after a run of events.
pub open spec fn run(s: LinkState, es: Seq<LinkEvent>) -> LinkState
    decreases es.len(),
{
    if es.len() == 0 {
        s
    } else {
        link_step(run(s, es.drop_last()), es.last()).0
    }
}

/// The action taken at event `i` of a run.
pub open spec fn action_at(s: LinkState, es: Seq<LinkEvent>, i: int) -> Act {
    link_step(run(s, es.take(i)), es[i]).1
}

pub open spec fn tick_time(e: LinkEvent) -> int {
    match e {
        LinkEvent::Tick(t) => t as int,
        _ => 0,
    }
}

/// When an event reports a failure that drops the handle, its time.
pub open spec fn failure_time(e: LinkEvent) -> Option<u64> {
    match e {
        LinkEvent::WriteFailed(t) => Some(t),
        LinkEvent::ReadFailed(false, t) => Some(t),
        _ => None,
    }
}

pub open spec fn reconfigures(e: LinkEvent) -> bool {
    e matches LinkEvent::Command(Command::Configure(_))
}

proof fn lemma_run_one_more(s: LinkState, es: Seq<LinkEvent>, k: int)
    requires
        0 <= k < es.len(),
    ensures
        run(s, es.take(k + 1)) == link_step(run(s, es.take(k)), es[k]).0,
{
    assert(es.take(k + 1).drop_last() =~= es.take(k));
    assert(es.take(k + 1).last() == es[k]);
}

/// Once a cooldown has begun at `t0` or later, it never begins earlier
/// again until a new configuration arrives.
proof fn lemma_cooldown_kept(s: LinkState, es: Seq<LinkEvent>, i: int, k: int, t0: int)
    requires
        0 <= i < k <= es.len(),
        run(s, es.take(i + 1)).cooldown_from matches Some(t) && t as int >= t0,
        forall|m: int| i < m < k ==> !reconfigures(#[trigger] es[m]),
    ensures
        run(s, es.take(k)).cooldown_from matches Some(t) && t as int >= t0,
    decreases k,
{
    if k - 1 > i {
        lemma_cooldown_kept(s, es, i, k - 1, t0);
        lemma_run_one_more(s, es, k - 1);
        assert(!reconfigures(es[k - 1]));
    }
}

/// Backoff: with no new configuration between them, two connection attempts
/// are at least the cooldown apart.
pub proof fn lemma_attempts_spaced(s: LinkState, es: Seq<LinkEvent>, i: int, j: int)
    requires
        0 <= i < j < es.len(),
        action_at(s, es, i) is Connect,
        action_at(s, es, j) is Connect,
        forall|m: int| i < m < j ==> !reconfigures(#[trigger] es[m]),
    ensures
        tick_time(es[j]) >= tick_time(es[i]) + RECONNECT_COOLDOWN_MS,
{
    lemma_run_one_more(s, es, i);
    lemma_cooldown_kept(s, es, i, j, tick_time(es[i]));
}

/// Hold-off: after the handle fails at `t0`, and with no new configuration
/// since, no connection attempt is made before `t0` plus the cooldown.
pub proof fn lemma_failure_holds_off(s: LinkState, es: Seq<LinkEvent>, i: int, j: int)
    requires
        0 <= i < j < es.len(),
        failure_time(es[i]) is Some,
        action_at(s, es, j) is Connect,
        forall|m: int| i < m < j ==> !reconfigures(#[trigger] es[m]),
    ensures
        tick_time(es[j]) >= failure_time(es[i])->0 + RECONNECT_COOLDOWN_MS,
{
    lemma_run_one_more(s, es, i);
    lemma_cooldown_kept(s, es, i, j, failure_time(es[i])->0 as int);
}

proof fn lemma_stays_absent(s: LinkState, es: Seq<LinkEvent>, i: int, k: int)
    requires
        0 <= i < k <= es.len(),
        failure_time(es[i]) is Some,
        forall|m: int| i < m < k ==> !(#[trigger] action_at(s, es, m) is Connect),
    ensures
        run(s, es.take(k)).phase == Phase::Absent,
    decreases k,
{
    lemma_run_one_more(s, es, k - 1);
    if k - 1 > i {
        lemma_stays_absent(s, es, i, k - 1);
        assert(!(action_at(s, es, k - 1) is Connect));
    }
}

/// Failure containment: after the handle fails, nothing is written again
/// until a new connection attempt has been made.
pub proof fn lemma_failure_silences(s: LinkState, es: Seq<LinkEvent>, i: int, j: int)
    requires
        0 <= i < j < es.len(),
        failure_time(es[i]) is Some,
        action_at(s, es, j) is Write,
    ensures
        exists|k: int| i < k < j && (#[trigger] action_at(s, es, k)) is Connect,
{
    if !(exists|k: int| i < k < j && (#[trigger] action_at(s, es, k)) is Connect) {
        lemma_stays_absent(s, es, i, j);
    }
}

/// Failure containment in time: after the handle fails at `t0`, and with no
/// new configuration since, the next write comes only after a connection
/// attempt made at `t0` plus the cooldown or later.
pub proof fn lemma_failure_silences_for_cooldown(s: LinkState, es: Seq<LinkEvent>, i: int, j: int)
    requires
        0 <= i < j < es.len(),
        failure_time(es[i]) is Some,
        action_at(s, es, j) is Write,
        forall|m: int| i < m < j ==> !reconfigures(#[trigger] es[m]),
    ensures
        exists|k: int|
            i < k < j && (#[trigger] action_at(s, es, k)) is Connect && tick_time(es[k])
                >= failure_time(es[i])->0 + RECONNECT_COOLDOWN_MS,
{
    lemma_failure_silences(s, es, i, j);
    let k = choose|k: int| i < k < j && (#[trigger] action_at(s, es, k)) is Connect;
    lemma_failure_holds_off(s, es, i, k);
}

} // verus!
