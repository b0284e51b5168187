//! The settings of one installation, made once at startup and handed to
//! whoever needs them.

use vstd::prelude::*;
use vstd::string::*;
use crate::schedule::DayWindow;
use crate::usb::UsbId;

verus! {

/// An IPv4 address, most significant byte first.
#[derive(Clone, Copy, Debug, PartialEq, Eq, Structural)]
pub struct Address {
    pub a: u8,
    pub b: u8,
    pub c: u8,
    pub d: u8,
}

/// Everything that differs from one installation to the next.
#[derive(Debug)]
pub struct Config {
    /// Address of the display device and port of its command channel.
    pub device_address: Address,
    pub device_port: u16,
    pub username: String,
    pub password: String,
    /// Milliseconds allowed for a connection to come about.
    pub connect_timeout_ms: u64,
    /// Name of the interface towards the device, the address that the host
    /// has on it, and the length of that address's prefix.
    pub interface: String,
    pub host_address: Address,
    pub prefix_len: u8,
    /// What the device calls itself on the bus.
    pub device_id: UsbId,
    /// The hours of the day during which every tick is delivered.
    pub day: DayWindow,
    /// Seconds after which a weather report is fetched anew.
    pub cache_ttl_secs: u32,
    /// The station whose reports are shown.
    pub station: String,
    /// Width and height of the panel in pixels, as it is mounted.
    pub width: u32,
    pub height: u32,
}

impl Config {
    /// The settings of the clock as it was built: a reader in a frame on a
    /// gadget link, refreshed every minute between seven and ten at night.
    pub fn standard() -> (config: Config)
        ensures
            config.device_address == (Address { a: 192, b: 168, c: 2, d: 2 }),
            config.device_port == 22,
            config.username@ == "root"@,
            config.password@ == "root"@,
            config.connect_timeout_ms == 1000,
            config.interface@ == "usb0"@,
            config.host_address == (Address { a: 192, b: 168, c: 2, d: 1 }),
            config.prefix_len == 24,
            config.device_id == (UsbId { vendor: 0x0525, product: 0xa4a2 }),
            config.day == (DayWindow { first_hour: 7, last_hour: 22 }),
            config.cache_ttl_secs == 300,
            config.station@ == "KTPA"@,
            config.width == 1200,
            config.height == 824,
    {
        Config {
            device_address: Address { a: 192, b: 168, c: 2, d: 2 },
            device_port: 22,
            username: String::from_str("root"),
            password: String::from_str("root"),
            connect_timeout_ms: 1000,
            interface: String::from_str("usb0"),
            host_address: Address { a: 192, b: 168, c: 2, d: 1 },
            prefix_len: 24,
            device_id: UsbId { vendor: 0x0525, product: 0xa4a2 },
            day: DayWindow { first_hour: 7, last_hour: 22 },
            cache_ttl_secs: 300,
            station: String::from_str("KTPA"),
            width: 1200,
            height: 824,
        }
    }
}

} // verus!
