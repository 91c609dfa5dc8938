//! What the HTTP and WebSocket side decides: the configuration served to
//! viewers, the routes, the rate messages, and the pacing of frames.

use vstd::prelude::*;
use crate::settings::Settings;
use vstd::string::StringExecFns;
use crate::text::{decimal_string, hex_string, push_char, push_decimal, push_hex, str_equal};

verus! {

/// The time between two frames sent to a viewer: a second over 15, in nanoseconds.
pub const FRAME_INTERVAL_NANOS: u64 = 66_666_666;

/// The pause after a frame that took longer than the interval, in nanoseconds.
pub const COOLDOWN_NANOS: u64 = 100_000_000;

/// What is served as `/config.json`.
pub struct ServerConfigInfo {
    /// The address template viewers draw with, such as `2602:fa9b:42::SXXX:YYY:RR:GG:BB`.
    pub ipv6_prefix: String,
    pub canvas_size: u16,
}

/// The address template under a /48 prefix: its three segments in lower-case
/// hexadecimal, then the placeholders of the draw fields.
pub open spec fn prefix_template(p: Seq<u16>) -> Seq<char> {
    hex_string(p[0] as nat) + seq![':'] + hex_string(p[1] as nat) + seq![':'] + hex_string(p[2] as nat)
        + "::SXXX:YYY:RR:GG:BB"@
}

impl ServerConfigInfo {
    pub fn new(settings: &Settings) -> (info: ServerConfigInfo)
        ensures
            info.ipv6_prefix@ == prefix_template(settings.backend.prefix48@),
            info.canvas_size == settings.canvas.size.value(),
    {
        let prefix48 = &settings.backend.prefix48;
        let mut s = String::new();
        push_hex(&mut s, prefix48[0] as u32);
        push_char(&mut s, ':');
        push_hex(&mut s, prefix48[1] as u32);
        push_char(&mut s, ':');
        push_hex(&mut s, prefix48[2] as u32);
        s.append("::SXXX:YYY:RR:GG:BB");
        assert(s@ =~= prefix_template(prefix48@));
        ServerConfigInfo { ipv6_prefix: s, canvas_size: settings.canvas.size.get() }
    }
}

/// The text message that tells a viewer the packet rate.
pub open spec fn event_text(pps: u32) -> Seq<char> {
    "{\"evt\":"@ + decimal_string(pps as nat) + "}"@
}

/// The message `{"evt":<pps>}`.
pub fn pps_event_message(pps: u32) -> (m: String)
    ensures
        m@ == event_text(pps),
{
    let mut s = String::new();
    s.append("{\"evt\":");
    push_decimal(&mut s, pps);
    s.append("}");
    s
}

/// Where an HTTP request goes.
#[derive(Debug, Clone, Copy, PartialEq, Eq, Structural)]
pub enum Route {
    /// Upgrade to a WebSocket that streams the canvas.
    WebSocket,
    /// Serve the configuration as JSON.
    Config,
    /// Answer `404 Not Found`.
    NotFound,
}

/// An upgrade request for `/ws` opens a stream, a plain request for
/// `/config.json` gets the configuration, and anything else is not found.
pub fn route_request(is_upgrade: bool, path: &str) -> (r: Route)
    ensures
        r == (if is_upgrade && path@ == "/ws"@ {
            Route::WebSocket
        } else if !is_upgrade && path@ == "/config.json"@ {
            Route::Config
        } else {
            Route::NotFound
        }),
{
    if is_upgrade {
        if str_equal(path, "/ws") {
            return Route::WebSocket;
        }
    } else if str_equal(path, "/config.json") {
        return Route::Config;
    }
    Route::NotFound
}

/// How long to sleep after a frame cycle that took `elapsed_nanos`: the rest
/// of the frame interval, or the cooldown when the cycle overran it.
pub fn frame_delay_nanos(elapsed_nanos: u64) -> (d: u64)
    ensures
        d == if elapsed_nanos < FRAME_INTERVAL_NANOS { FRAME_INTERVAL_NANOS - elapsed_nanos } else { COOLDOWN_NANOS as int },
{
    if elapsed_nanos < FRAME_INTERVAL_NANOS {
        FRAME_INTERVAL_NANOS - elapsed_nanos
    } else {
        COOLDOWN_NANOS
    }
}

} // verus!
