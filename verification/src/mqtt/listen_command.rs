use vstd::prelude::*;
use vstd::string::*;
use crate::device_registry::device::{channel_text, channel_to_string};
use crate::mqtt::send_command::{command_topic_text, CommandTopic};

verus! {

/// The topics that devices report on.
#[derive(Copy, Clone, PartialEq, Eq, Debug, Structural)]
pub enum ListenTopic {
    /// `stat/{device_name}/RESULT`
    Result,
    /// `tele/{device_name}/SENSOR`
    Sensor,
}

/// The topic on which the device named `device_name` reports.
pub open spec fn listen_topic_text(pattern: ListenTopic, device_name: Seq<char>) -> Seq<char> {
    match pattern {
        ListenTopic::Result => "stat/"@ + device_name + "/RESULT"@,
        ListenTopic::Sensor => "tele/"@ + device_name + "/SENSOR"@,
    }
}

/// A subscription to set up: the topic to listen on and the text of the
/// channel whose reports are wanted.
#[derive(Clone, Debug)]
pub struct StatusListen {
    pub topic: String,
    pub channel: String,
}

/// The topic on which the device named `device_name` reports.
pub fn listen_topic(pattern: ListenTopic, device_name: &str) -> (r: String)
    ensures
        r@ == listen_topic_text(pattern, device_name@),
{
    match pattern {
        ListenTopic::Result => {
            let mut topic = String::from_str("stat/");
            topic.append(device_name);
            topic.append("/RESULT");
            topic
        },
        ListenTopic::Sensor => {
            let mut topic = String::from_str("tele/");
            topic.append(device_name);
            topic.append("/SENSOR");
            topic
        },
    }
}

/// The subscription for the reports of the device named `device_name` on
/// `channel`.
pub fn listen_command(pattern: ListenTopic, device_name: &str, channel: Option<u8>) -> (r: StatusListen)
    ensures
        r.topic@ == listen_topic_text(pattern, device_name@),
        r.channel@ == channel_text(channel),
{
    StatusListen { topic: listen_topic(pattern, device_name), channel: channel_to_string(channel) }
}

/// A report topic is the whole of its parts, nothing cut: `stat/` or
/// `tele/`, the device name, then `/RESULT` or `/SENSOR`.
pub proof fn law_listen_topic_is_whole(pattern: ListenTopic, device_name: Seq<char>)
    ensures
        ({
            let t = listen_topic_text(pattern, device_name);
            let n: int = device_name.len() as int;
            &&& t.len() == n + 12
            &&& t.subrange(0, 5) == match pattern {
                ListenTopic::Result => "stat/"@,
                ListenTopic::Sensor => "tele/"@,
            }
            &&& t.subrange(5, 5 + n) == device_name
            &&& t.subrange(5 + n, n + 12) == match pattern {
                ListenTopic::Result => "/RESULT"@,
                ListenTopic::Sensor => "/SENSOR"@,
            }
        }),
{
    reveal_strlit("stat/");
    reveal_strlit("tele/");
    reveal_strlit("/RESULT");
    reveal_strlit("/SENSOR");
    let t = listen_topic_text(pattern, device_name);
    let n: int = device_name.len() as int;
    match pattern {
        ListenTopic::Result => {
            assert(t.subrange(0, 5) =~= "stat/"@);
            assert(t.subrange(5, 5 + n) =~= device_name);
            assert(t.subrange(5 + n, n + 12) =~= "/RESULT"@);
        },
        ListenTopic::Sensor => {
            assert(t.subrange(0, 5) =~= "tele/"@);
            assert(t.subrange(5, 5 + n) =~= device_name);
            assert(t.subrange(5 + n, n + 12) =~= "/SENSOR"@);
        },
    }
}

/// A report topic is never a command topic: a client listening to the
/// devices does not hear its own commands.
pub proof fn law_report_topics_are_not_commands(
    pattern: ListenTopic,
    command: CommandTopic,
    name: Seq<char>,
    other: Seq<char>,
    channel: Seq<char>,
)
    ensures
        listen_topic_text(pattern, name) != command_topic_text(command, other, channel),
{
    reveal_strlit("cmnd/");
    reveal_strlit("stat/");
    reveal_strlit("tele/");
    let l = listen_topic_text(pattern, name);
    let c = command_topic_text(command, other, channel);
    assert(c[0] == 'c');
    assert(l[0] == 's' || l[0] == 't');
}

} // verus!
