use vstd::prelude::*;
use vstd::string::*;
use crate::decimal::{parse_u16, parse_u16_spec};

verus! {

/// The MQTT port when none is configured.
pub const DEFAULT_MQTT_PORT: u16 = 1883;

/// The MQTT port from the configured text: the default without one, the
/// text read as a `u16` with one, and `None` when the text is not a `u16`
/// (which the program refuses to start with).
pub fn mqtt_port(configured: Option<&str>) -> (r: Option<u16>)
    ensures
        match configured {
            None => r == Some(DEFAULT_MQTT_PORT),
            Some(text) => r == parse_u16_spec(text@),
        },
{
    match configured {
        None => Some(DEFAULT_MQTT_PORT),
        Some(text) => parse_u16(text),
    }
}

/// The MQTT host from the configured text, `127.0.0.1` without one.
pub fn mqtt_hostname(configured: Option<String>) -> (r: String)
    ensures
        match configured {
            None => r@ == "127.0.0.1"@,
            Some(text) => r == text,
        },
{
    match configured {
        None => String::from_str("127.0.0.1"),
        Some(text) => text,
    }
}

/// The address the API listens on from the configured text,
/// `127.0.0.1:8080` without one.
pub fn web_host(configured: Option<String>) -> (r: String)
    ensures
        match configured {
            None => r@ == "127.0.0.1:8080"@,
            Some(text) => r == text,
        },
{
    match configured {
        None => String::from_str("127.0.0.1:8080"),
        Some(text) => text,
    }
}

} // verus!
