//! The configuration record of the service and the checks made on it.

use vstd::prelude::*;
use crate::utils::{Color, RangedU16};

verus! {

/// The smallest and largest canvas sizes, in pixels.
pub const MIN_CANVAS_SIZE: u16 = 16;
pub const MAX_CANVAS_SIZE: u16 = 4096;

pub struct Settings {
    pub backend: BackendSettings,
    pub canvas: CanvasSettings,
    pub websocket: WebSocketSettings,
}

pub struct CanvasSettings {
    /// Size of the canvas in pixels, 16 to 4096.
    pub size: RangedU16<16, 4096>,
    /// The color of a blank canvas.
    pub background_color: Color,
    /// The file the canvas is kept in.
    pub filename: String,
}

impl CanvasSettings {
    pub fn default_size() -> (r: RangedU16<16, 4096>)
        ensures
            r.value() == 512,
    {
        RangedU16::new(512).unwrap()
    }

    pub fn default_background_color() -> (r: Color)
        ensures
            r == (Color { r: 255, g: 255, b: 255, a: 255 }),
    {
        Color::rgb(255, 255, 255)
    }

    pub fn default_filename() -> (r: String)
        ensures
            r@ == "place.png"@,
    {
        "place.png".to_owned()
    }
}

#[derive(Debug, Clone, Copy, PartialEq, Eq, Structural)]
pub enum BackendType {
    Smoltcp,
}

pub struct BackendSettings {
    /// The /48 prefix to answer on, as eight segments; all but the first three are zero.
    pub prefix48: [u16; 8],
    /// The backend that receives the packets.
    pub backend_type: BackendType,
    /// Settings of the smoltcp backend.
    pub smoltcp: SmoltcpSettings,
}

pub struct SmoltcpSettings {
    /// Name of the TUN interface.
    pub tun_iface: String,
    /// Size of each receive buffer, in packets.
    pub recv_buffer_size: usize,
}

impl SmoltcpSettings {
    pub fn default_tun_iface() -> (r: String)
        ensures
            r@ == "tun0"@,
    {
        "tun0".to_owned()
    }

    pub fn default_recv_buffer_size() -> (r: usize)
        ensures
            r == 65536,
    {
        65536
    }
}

pub struct WebSocketSettings {
    /// Listening address and port of the HTTP and WebSocket server.
    pub listen_addr: String,
}

impl WebSocketSettings {
    pub fn default_listen_addr() -> (r: String)
        ensures
            r@ == "[::]:2137"@,
    {
        "[::]:2137".to_owned()
    }
}

/// Why a configuration was refused.
#[derive(Debug, Clone, Copy, PartialEq, Eq, Structural)]
pub enum SettingsError {
    /// Some bit below the first 48 of the prefix is set.
    PrefixLowBitsSet,
}

/// Whether only the first three segments of an address may be non-zero.
pub open spec fn is_prefix48(s: Seq<u16>) -> bool {
    forall|i: int| 3 <= i < 8 ==> s[i] == 0
}

impl Settings {
    /// Refuses a prefix that has any bit set below its first 48.
    pub fn sanity_check(&self) -> (r: Result<(), SettingsError>)
        ensures
            r is Ok <==> is_prefix48(self.backend.prefix48@),
            r is Err ==> r == Err::<(), SettingsError>(SettingsError::PrefixLowBitsSet),
    {
        let addr = &self.backend.prefix48;
        let mut i: usize = 3;
        while i < 8
            invariant
                3 <= i <= 8,
                addr@ == self.backend.prefix48@,
                forall|j: int| 3 <= j < i ==> addr@[j] == 0,
            decreases 8 - i,
        {
            if addr[i] != 0 {
                assert(self.backend.prefix48@[i as int] != 0);
                return Err(SettingsError::PrefixLowBitsSet);
            }
            i += 1;
        }
        Ok(())
    }
}

} // verus!
