//! Print-server notifications, and the light signal that each one gets.
use vstd::prelude::*;

use crate::color::Color;
use crate::cursor::Message;
use crate::text::same_text;

verus! {

#[derive(Debug)]
pub struct HookProgressPayload {
    pub print_time_left: Option<u64>,
    pub print_time: Option<u64>,
}

#[derive(Debug)]
pub struct HookStatePayload {
    pub text: Option<String>,
}

/// A notification as it arrives, every part optional.
#[derive(Debug)]
pub struct HookPayload {
    pub device_identifier: Option<String>,
    pub topic: Option<String>,
    pub message: Option<String>,
    pub state: Option<HookStatePayload>,
    pub progress: Option<HookProgressPayload>,
}

/// A notification that names its topic, its device and its message.
#[derive(Debug)]
pub struct QualifiedPayload {
    pub topic: String,
    pub device_identifier: String,
    pub message: String,
}

impl HookPayload {
    /// Takes the topic, device and message out of the notification; gives
    /// them back together when all three were there.
    pub fn qualified(&mut self) -> (r: Option<QualifiedPayload>)
        ensures
            final(self).topic is None,
            final(self).device_identifier is None,
            final(self).message is None,
            final(self).state == old(self).state,
            final(self).progress == old(self).progress,
            r is Some <==> (old(self).topic is Some && old(self).device_identifier is Some && old(
                self,
            ).message is Some),
            r matches Some(q) ==> q.topic == old(self).topic->0 && q.device_identifier == old(
                self,
            ).device_identifier->0 && q.message == old(self).message->0,
    {
        let top = self.topic.take();
        let dev = self.device_identifier.take();
        let mes = self.message.take();
        match (top, dev, mes) {
            (Some(topic), Some(device_identifier), Some(message)) => Some(
                QualifiedPayload { topic, device_identifier, message },
            ),
            _ => None,
        }
    }
}

/// Whether a topic reports the progress of a print: started, going, done.
pub open spec fn print_topic(topic: Seq<char>) -> bool {
    topic == "Print Done"@ || topic == "Print Started"@ || topic == "Print Progress"@
}

/// The signal for a notification topic: green on every light for the
/// progress of a print, a pale yellow for anything else.
pub fn signal_for_topic(topic: &str) -> (r: Message)
    ensures
        r == (if print_topic(topic@) {
            Message::Immediate(Color { red: 0, green: 255, blue: 0 }, None)
        } else {
            Message::Immediate(Color { red: 255, green: 255, blue: 100 }, None)
        }),
{
    if same_text(topic, "Print Done") || same_text(topic, "Print Started") || same_text(
        topic,
        "Print Progress",
    ) {
        Message::Immediate(Color::rgb(0, 255, 0), None)
    } else {
        Message::Immediate(Color::rgb(255, 255, 100), None)
    }
}

} // verus!
