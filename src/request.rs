//! The requests that the light strip's firmware accepts over its serial
//! line, and its replies.
use vstd::prelude::*;
use vstd::utf8::{decode_utf8, valid_utf8};

use crate::color::Color;
use crate::text::{as_text, same_text};

verus! {

/// A state the strip can be asked to take.
#[derive(Clone, Copy, Debug, PartialEq, Eq, Structural)]
pub enum StateRequest {
    On,
    Off,
    Red,
    Green,
    Blue,
}

/// Why a request could not be read.
#[derive(Clone, Copy, Debug, PartialEq, Eq, Structural)]
pub enum StateRequestParseError {
    /// The text is none of the known words.
    Unrecognized,
}

/// A word in lower case, capitalized, or upper case.
pub open spec fn spelled(s: Seq<char>, lower: Seq<char>, capital: Seq<char>, upper: Seq<char>) -> bool {
    s == lower || s == capital || s == upper
}

/// The request that a word names.
pub open spec fn request_named(s: Seq<char>) -> Option<StateRequest> {
    if spelled(s, "on"@, "On"@, "ON"@) {
        Some(StateRequest::On)
    } else if spelled(s, "off"@, "Off"@, "OFF"@) {
        Some(StateRequest::Off)
    } else if spelled(s, "red"@, "Red"@, "RED"@) {
        Some(StateRequest::Red)
    } else if spelled(s, "blue"@, "Blue"@, "BLUE"@) {
        Some(StateRequest::Blue)
    } else if spelled(s, "green"@, "Green"@, "GREEN"@) {
        Some(StateRequest::Green)
    } else {
        None
    }
}

fn spelled_exec(s: &str, lower: &str, capital: &str, upper: &str) -> (r: bool)
    ensures
        r == spelled(s@, lower@, capital@, upper@),
{
    same_text(s, lower) || same_text(s, capital) || same_text(s, upper)
}

impl StateRequest {
    /// Reads a request word: `on`, `off`, `red`, `green` or `blue`, in lower
    /// case, capitalized or in upper case.
    pub fn from_text(input: &str) -> (r: Result<StateRequest, StateRequestParseError>)
        ensures
            r == match request_named(input@) {
                Some(q) => Ok(q),
                None => Err(StateRequestParseError::Unrecognized),
            },
    {
        if spelled_exec(input, "on", "On", "ON") {
            Ok(StateRequest::On)
        } else if spelled_exec(input, "off", "Off", "OFF") {
            Ok(StateRequest::Off)
        } else if spelled_exec(input, "red", "Red", "RED") {
            Ok(StateRequest::Red)
        } else if spelled_exec(input, "blue", "Blue", "BLUE") {
            Ok(StateRequest::Blue)
        } else if spelled_exec(input, "green", "Green", "GREEN") {
            Ok(StateRequest::Green)
        } else {
            Err(StateRequestParseError::Unrecognized)
        }
    }

    /// Reads a request from the bytes of a serial packet.
    pub fn from_bytes(input: &[u8]) -> (r: Option<StateRequest>)
        ensures
            r == (if valid_utf8(input@) {
                request_named(decode_utf8(input@))
            } else {
                None
            }),
    {
        match as_text(input) {
            Some(text) => match StateRequest::from_text(text) {
                Ok(q) => Some(q),
                Err(_) => None,
            },
            None => None,
        }
    }

    /// The color that each light shows for a request, at full brightness.
    pub open spec fn color_spec(&self) -> Color {
        match self {
            StateRequest::On => Color { red: 255, green: 255, blue: 255 },
            StateRequest::Off => Color { red: 0, green: 0, blue: 0 },
            StateRequest::Red => Color { red: 255, green: 0, blue: 0 },
            StateRequest::Green => Color { red: 0, green: 255, blue: 0 },
            StateRequest::Blue => Color { red: 0, green: 0, blue: 255 },
        }
    }

    /// The color that each light shows for this request, at full brightness.
    pub fn color(&self) -> (r: Color)
        ensures
            r == self.color_spec(),
    {
        match self {
            StateRequest::On => Color::rgb(255, 255, 255),
            StateRequest::Off => Color::rgb(0, 0, 0),
            StateRequest::Red => Color::rgb(255, 0, 0),
            StateRequest::Green => Color::rgb(0, 255, 0),
            StateRequest::Blue => Color::rgb(0, 0, 255),
        }
    }
}

impl std::str::FromStr for StateRequest {
    type Err = StateRequestParseError;

    fn from_str(input: &str) -> Result<StateRequest, StateRequestParseError> {
        StateRequest::from_text(input)
    }
}

/// The firmware's reply to a request.
#[derive(Clone, Copy, Debug, PartialEq, Eq, Structural)]
pub enum Response {
    /// The request was carried out.
    Roger,
    /// The request failed.
    Failed,
}

impl Response {
    /// The line sent back over the serial connection.
    pub fn text(&self) -> (r: &'static str)
        ensures
            r@ == match self {
                Response::Roger => "ok\r\n"@,
                Response::Failed => "failed\r\n"@,
            },
    {
        match self {
            Response::Roger => "ok\r\n",
            Response::Failed => "failed\r\n",
        }
    }
}

/// The request that a packet's bytes spell, if any.
pub open spec fn packet_request(bytes: Seq<u8>) -> Option<StateRequest> {
    if valid_utf8(bytes) {
        request_named(decode_utf8(bytes))
    } else {
        None
    }
}

/// The most bytes that a packet may hold before its terminator.
pub const PACKET_CAPACITY: usize = 128;

/// Where the firmware's reading of the serial line stands.
#[derive(Debug)]
pub enum LedState {
    /// Nothing pending.
    Empty,
    /// Bytes of a packet have come in; its terminator has not.
    Requesting(Vec<u8>),
    /// A request was read and waits to be shown.
    Requested(StateRequest),
    /// Something went wrong; the count drives the failure blink.
    Failed(u8),
}

/// The abstract form of `LedState`.
pub enum LedPhase {
    Empty,
    Requesting(Seq<u8>),
    Requested(StateRequest),
    Failed(u8),
}

pub open spec fn phase_of(s: LedState) -> LedPhase {
    match s {
        LedState::Empty => LedPhase::Empty,
        LedState::Requesting(buffer) => LedPhase::Requesting(buffer@),
        LedState::Requested(q) => LedPhase::Requested(q),
        LedState::Failed(n) => LedPhase::Failed(n),
    }
}

pub open spec fn is_terminator(b: u8) -> bool {
    b == 0x0a || b == 0x3a
}

/// One byte from the serial line: the next state, and the reply to send.
/// A newline or `:` ends a packet, which is then read as a request; any
/// other byte is buffered. A byte that comes while no packet is open starts
/// one. A packet that outgrows the buffer fails, without a reply.
pub open spec fn byte_step(s: LedPhase, b: u8) -> (LedPhase, Option<Response>) {
    match s {
        LedPhase::Requesting(buffer) => if is_terminator(b) {
            match packet_request(buffer) {
                Some(q) => (LedPhase::Requested(q), Some(Response::Roger)),
                None => (LedPhase::Failed(0), Some(Response::Failed)),
            }
        } else if buffer.len() < PACKET_CAPACITY {
            (LedPhase::Requesting(buffer.push(b)), None)
        } else {
            (LedPhase::Failed(0), None)
        },
        _ => (LedPhase::Requesting(seq![b]), None),
    }
}

impl LedState {
    /// Takes one byte from the serial line; gives the reply to send, if any.
    pub fn feed(&mut self, b: u8) -> (r: Option<Response>)
        ensures
            byte_step(phase_of(*old(self)), b) == (phase_of(*final(self)), r),
    {
        let mut current = LedState::Empty;
        std::mem::swap(&mut current, self);
        match current {
            LedState::Requesting(mut buffer) => {
                if b == 0x0a || b == 0x3a {
                    match StateRequest::from_bytes(buffer.as_slice()) {
                        Some(q) => {
                            *self = LedState::Requested(q);
                            Some(Response::Roger)
                        },
                        None => {
                            *self = LedState::Failed(0);
                            Some(Response::Failed)
                        },
                    }
                } else if buffer.len() < PACKET_CAPACITY {
                    buffer.push(b);
                    *self = LedState::Requesting(buffer);
                    None
                } else {
                    *self = LedState::Failed(0);
                    None
                }
            },
            _ => {
                let mut buffer: Vec<u8> = Vec::new();
                buffer.push(b);
                assert(buffer@ =~= seq![b]);
                *self = LedState::Requesting(buffer);
                None
            },
        }
    }

    /// What the lights should show now: the color of a request that waits,
    /// or the failure blink, red on even counts and dark on odd ones.
    pub fn display(&self) -> (r: Option<Color>)
        ensures
            match *self {
                LedState::Requested(q) => r matches Some(c) && c == q.color_spec(),
                LedState::Failed(n) => r == Some(
                    if n % 2 == 0 {
                        Color { red: 255, green: 0, blue: 0 }
                    } else {
                        Color { red: 0, green: 0, blue: 0 }
                    },
                ),
                _ => r is None,
            },
    {
        match self {
            LedState::Requested(q) => Some(q.color()),
            LedState::Failed(n) => if *n % 2 == 0 {
                Some(Color::rgb(255, 0, 0))
            } else {
                Some(Color::rgb(0, 0, 0))
            },
            _ => None,
        }
    }

    /// Records whether showing `display` worked: a shown request is done, a
    /// request that could not be shown fails, and the failure blink counts
    /// on, starting over after 100.
    pub fn shown(&mut self, ok: bool)
        ensures
            match *old(self) {
                LedState::Requested(_) => if ok {
                    *final(self) matches LedState::Empty
                } else {
                    *final(self) matches LedState::Failed(0)
                },
                LedState::Failed(n) => *final(self) matches LedState::Failed(m) && m == (if n > 100 {
                    0
                } else {
                    n
                }) + 1,
                _ => phase_of(*final(self)) == phase_of(*old(self)),
            },
    {
        let next = match self {
            LedState::Requested(_) => if ok {
                Some(LedState::Empty)
            } else {
                Some(LedState::Failed(0))
            },
            LedState::Failed(n) => {
                let count = if *n > 100 {
                    0
                } else {
                    *n
                };
                Some(LedState::Failed(count + 1))
            },
            _ => None,
        };
        if let Some(state) = next {
            *self = state;
        }
    }

    /// The packet timer ran out: a packet still open has failed; anything
    /// else is cleared.
    pub fn timeout(&mut self)
        ensures
            match *old(self) {
                LedState::Requesting(_) => *final(self) matches LedState::Failed(0),
                _ => *final(self) matches LedState::Empty,
            },
    {
        let failed = match self {
            LedState::Requesting(_) => true,
            _ => false,
        };
        *self = if failed {
            LedState::Failed(0)
        } else {
            LedState::Empty
        };
    }
}

} // verus!
