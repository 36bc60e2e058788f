use vstd::prelude::*;
use vstd::string::*;
use crate::device_registry::device::{channel_text, channel_to_string};

verus! {

/// The command topics of the devices: `cmnd/{device_name}/<command>{channel}`.
#[derive(Copy, Clone, PartialEq, Eq, Debug, Structural)]
pub enum CommandTopic {
    /// `cmnd/{device_name}/power{channel}`
    Power,
    /// `cmnd/{device_name}/channel{channel}`
    Channel,
    /// `cmnd/{device_name}/shutterposition{channel}`
    ShutterPosition,
}

/// The part of a command topic between the device name and the channel.
pub open spec fn command_infix(pattern: CommandTopic) -> Seq<char> {
    match pattern {
        CommandTopic::Power => "/power"@,
        CommandTopic::Channel => "/channel"@,
        CommandTopic::ShutterPosition => "/shutterposition"@,
    }
}

/// The topic of a command to the device named `device_name` on `channel`.
pub open spec fn command_topic_text(pattern: CommandTopic, device_name: Seq<char>, channel: Seq<char>) -> Seq<char> {
    "cmnd/"@ + device_name + command_infix(pattern) + channel
}

/// A publication to make: a payload on a topic.
#[derive(Clone, Debug)]
pub struct MqttPublish {
    pub topic: String,
    pub payload: String,
}

/// The topic of a command to the device named `device_name` on the channel
/// whose text is `channel`.
pub fn command_topic(pattern: CommandTopic, device_name: &str, channel: &str) -> (r: String)
    ensures
        r@ == command_topic_text(pattern, device_name@, channel@),
{
    let mut topic = String::from_str("cmnd/");
    topic.append(device_name);
    match pattern {
        CommandTopic::Power => topic.append("/power"),
        CommandTopic::Channel => topic.append("/channel"),
        CommandTopic::ShutterPosition => topic.append("/shutterposition"),
    }
    topic.append(channel);
    topic
}

/// The publication of `payload` as a command to the device named
/// `device_name` on `channel`.
pub fn send_command(pattern: CommandTopic, device_name: &str, channel: Option<u8>, payload: String) -> (r: MqttPublish)
    ensures
        r.topic@ == command_topic_text(pattern, device_name@, channel_text(channel)),
        r.payload == payload,
{
    let channel_text = channel_to_string(channel);
    let topic = command_topic(pattern, device_name, channel_text.as_str());
    MqttPublish { topic, payload }
}


/// A command topic is the whole of its parts, nothing cut: `cmnd/`, the
/// device name, the command's word (`/power`, `/channel` or
/// `/shutterposition`) and the channel, one after the other.
pub proof fn law_command_topic_is_whole(pattern: CommandTopic, device_name: Seq<char>, channel: Seq<char>)
    ensures
        ({
            let t = command_topic_text(pattern, device_name, channel);
            let word = match pattern {
                CommandTopic::Power => "/power"@,
                CommandTopic::Channel => "/channel"@,
                CommandTopic::ShutterPosition => "/shutterposition"@,
            };
            let word_len: int = match pattern {
                CommandTopic::Power => 6,
                CommandTopic::Channel => 8,
                CommandTopic::ShutterPosition => 16,
            };
            &&& t.len() == 5 + device_name.len() + word_len + channel.len()
            &&& t.subrange(0, 5) == "cmnd/"@
            &&& t.subrange(5, 5 + device_name.len() as int) == device_name
            &&& t.subrange(5 + device_name.len() as int, 5 + device_name.len() + word_len) == word
            &&& t.subrange(t.len() - channel.len(), t.len() as int) == channel
        }),
{
    reveal_strlit("cmnd/");
    reveal_strlit("/power");
    reveal_strlit("/channel");
    reveal_strlit("/shutterposition");
    let t = command_topic_text(pattern, device_name, channel);
    let word = command_infix(pattern);
    let n: int = device_name.len() as int;
    let w = word.len();
    assert(t == "cmnd/"@ + device_name + word + channel);
    assert(t.subrange(0, 5) =~= "cmnd/"@);
    assert(t.subrange(5, 5 + n) =~= device_name);
    assert(t.subrange(5 + n, 5 + n + w) =~= word);
    assert(t.subrange(t.len() - channel.len(), t.len() as int) =~= channel);
}

} // verus!
