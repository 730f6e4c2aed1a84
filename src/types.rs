//! Small value types of the protocol: numeric identifiers, devices, buttons, regions and pixel
//! formats, with their integer codes.
use vstd::prelude::*;

verus! {

/// Identifier of a "special" game type, as passed to `load_game_special`.
#[derive(Clone, Copy, Debug, PartialEq, Eq, Hash)]
pub struct GameType(pub u32);

impl GameType {
    pub fn new(n: u32) -> (r: Self)
        ensures
            r.0 == n,
    {
        GameType(n)
    }

    pub fn into_inner(self) -> (r: u32)
        ensures
            r == self.0,
    {
        self.0
    }
}

impl From<u32> for GameType {
    fn from(n: u32) -> (r: Self) {
        GameType(n)
    }
}

impl vstd::std_specs::convert::FromSpecImpl<u32> for GameType {
    open spec fn obeys_from_spec() -> bool {
        true
    }

    open spec fn from_spec(n: u32) -> GameType {
        GameType(n)
    }
}

impl From<GameType> for u32 {
    fn from(game_type: GameType) -> (r: u32) {
        game_type.into_inner()
    }
}

impl vstd::std_specs::convert::FromSpecImpl<GameType> for u32 {
    open spec fn obeys_from_spec() -> bool {
        true
    }

    open spec fn from_spec(game_type: GameType) -> u32 {
        game_type.0
    }
}

/// Identifier of a memory region of the core (save RAM, system RAM, ...).
#[derive(Clone, Copy, Debug, PartialEq, Eq, Hash)]
pub struct MemoryType(pub u32);

impl MemoryType {
    pub fn new(n: u32) -> (r: Self)
        ensures
            r.0 == n,
    {
        MemoryType(n)
    }

    pub fn into_inner(self) -> (r: u32)
        ensures
            r == self.0,
    {
        self.0
    }
}

impl From<u32> for MemoryType {
    fn from(n: u32) -> (r: Self) {
        MemoryType(n)
    }
}

impl vstd::std_specs::convert::FromSpecImpl<u32> for MemoryType {
    open spec fn obeys_from_spec() -> bool {
        true
    }

    open spec fn from_spec(n: u32) -> MemoryType {
        MemoryType(n)
    }
}

impl From<MemoryType> for u32 {
    fn from(memory_type: MemoryType) -> (r: u32) {
        memory_type.into_inner()
    }
}

impl vstd::std_specs::convert::FromSpecImpl<MemoryType> for u32 {
    open spec fn obeys_from_spec() -> bool {
        true
    }

    open spec fn from_spec(memory_type: MemoryType) -> u32 {
        memory_type.0
    }
}

/// A device port of the frontend.
#[derive(Clone, Copy, Debug, PartialEq, Eq, Hash, PartialOrd, Ord)]
pub struct DevicePort(pub u8);

impl DevicePort {
    pub fn new(port_number: u8) -> (r: Self)
        ensures
            r.0 == port_number,
    {
        DevicePort(port_number)
    }

    pub fn into_inner(self) -> (r: u8)
        ensures
            r == self.0,
    {
        self.0
    }
}

impl From<u8> for DevicePort {
    fn from(port_number: u8) -> (r: Self) {
        DevicePort::new(port_number)
    }
}

impl vstd::std_specs::convert::FromSpecImpl<u8> for DevicePort {
    open spec fn obeys_from_spec() -> bool {
        true
    }

    open spec fn from_spec(port_number: u8) -> DevicePort {
        DevicePort(port_number)
    }
}

impl From<DevicePort> for u8 {
    fn from(port: DevicePort) -> (r: u8) {
        port.into_inner()
    }
}

impl vstd::std_specs::convert::FromSpecImpl<DevicePort> for u8 {
    open spec fn obeys_from_spec() -> bool {
        true
    }

    open spec fn from_spec(port: DevicePort) -> u8 {
        port.0
    }
}

/// The kinds of input device a frontend can plug into a port.
#[non_exhaustive]
#[derive(Clone, Copy, Debug, Default, PartialEq, Eq, Hash, Structural)]
pub enum Device {
    #[default]
    NoDevice,
    Joypad,
    Mouse,
    Keyboard,
    LightGun,
    Analog,
    Pointer,
}

/// The device whose protocol code is `code`, if there is one.
pub open spec fn device_of_code(code: u32) -> Option<Device> {
    if code == 0 {
        Some(Device::NoDevice)
    } else if code == 1 {
        Some(Device::Joypad)
    } else if code == 2 {
        Some(Device::Mouse)
    } else if code == 3 {
        Some(Device::Keyboard)
    } else if code == 4 {
        Some(Device::LightGun)
    } else if code == 5 {
        Some(Device::Analog)
    } else if code == 6 {
        Some(Device::Pointer)
    } else {
        None
    }
}

/// Protocol code of the joypad device class, used when querying input state.
pub const RETRO_DEVICE_JOYPAD: u32 = 1;

impl Device {
    /// The device whose protocol code is `val`, which must be a known code (0 to 6).
    pub fn from(val: u32) -> (r: Self)
        requires
            val <= 6,
        ensures
            device_of_code(val) == Some(r),
    {
        match val {
            0 => Device::NoDevice,
            1 => Device::Joypad,
            2 => Device::Mouse,
            3 => Device::Keyboard,
            4 => Device::LightGun,
            5 => Device::Analog,
            _ => Device::Pointer,
        }
    }
}

impl TryFrom<u32> for Device {
    type Error = ();

    fn try_from(val: u32) -> (r: Result<Self, Self::Error>) {
        match val {
            0 => Ok(Device::NoDevice),
            1 => Ok(Device::Joypad),
            2 => Ok(Device::Mouse),
            3 => Ok(Device::Keyboard),
            4 => Ok(Device::LightGun),
            5 => Ok(Device::Analog),
            6 => Ok(Device::Pointer),
            _ => Err(()),
        }
    }
}

impl vstd::std_specs::convert::TryFromSpecImpl<u32> for Device {
    open spec fn obeys_try_from_spec() -> bool {
        true
    }

    open spec fn try_from_spec(val: u32) -> Result<Device, ()> {
        match device_of_code(val) {
            Some(d) => Ok(d),
            None => Err(()),
        }
    }
}

/// The buttons of a joypad.
#[non_exhaustive]
#[derive(Clone, Copy, Debug, Default, PartialEq, Eq, Hash, Structural)]
pub enum JoypadButton {
    #[default]
    B,
    Y,
    Select,
    Start,
    Up,
    Down,
    Left,
    Right,
    A,
    X,
    L1,
    R1,
    L2,
    R2,
    L3,
    R3,
}

/// The protocol id of a joypad button.
pub open spec fn button_id(button: JoypadButton) -> u32 {
    match button {
        JoypadButton::B => 0,
        JoypadButton::Y => 1,
        JoypadButton::Select => 2,
        JoypadButton::Start => 3,
        JoypadButton::Up => 4,
        JoypadButton::Down => 5,
        JoypadButton::Left => 6,
        JoypadButton::Right => 7,
        JoypadButton::A => 8,
        JoypadButton::X => 9,
        JoypadButton::L1 => 10,
        JoypadButton::R1 => 11,
        JoypadButton::L2 => 12,
        JoypadButton::R2 => 13,
        JoypadButton::L3 => 14,
        JoypadButton::R3 => 15,
    }
}

impl From<JoypadButton> for u32 {
    fn from(button: JoypadButton) -> (r: u32) {
        match button {
            JoypadButton::B => 0,
            JoypadButton::Y => 1,
            JoypadButton::Select => 2,
            JoypadButton::Start => 3,
            JoypadButton::Up => 4,
            JoypadButton::Down => 5,
            JoypadButton::Left => 6,
            JoypadButton::Right => 7,
            JoypadButton::A => 8,
            JoypadButton::X => 9,
            JoypadButton::L1 => 10,
            JoypadButton::R1 => 11,
            JoypadButton::L2 => 12,
            JoypadButton::R2 => 13,
            JoypadButton::L3 => 14,
            JoypadButton::R3 => 15,
        }
    }
}

impl vstd::std_specs::convert::FromSpecImpl<JoypadButton> for u32 {
    open spec fn obeys_from_spec() -> bool {
        true
    }

    open spec fn from_spec(button: JoypadButton) -> u32 {
        button_id(button)
    }
}

/// The video standards a game can run under.
#[non_exhaustive]
#[derive(Clone, Copy, Debug, Default, PartialEq, Eq, Hash, Structural)]
pub enum Region {
    /// A 30 frames/second (60 fields/second) video system.
    #[default]
    NTSC,
    /// A 25 frames/second (50 fields/second) video system.
    PAL,
}

/// The protocol code of a region.
pub open spec fn region_code(region: Region) -> u32 {
    match region {
        Region::NTSC => 0,
        Region::PAL => 1,
    }
}

impl From<Region> for u32 {
    fn from(region: Region) -> (r: u32) {
        match region {
            Region::NTSC => 0,
            Region::PAL => 1,
        }
    }
}

impl vstd::std_specs::convert::FromSpecImpl<Region> for u32 {
    open spec fn obeys_from_spec() -> bool {
        true
    }

    open spec fn from_spec(region: Region) -> u32 {
        region_code(region)
    }
}

/// The pixel layouts a core can ask the frontend to accept.
#[non_exhaustive]
#[derive(Clone, Copy, Debug, Default, PartialEq, Eq, Hash, Structural)]
pub enum PixelFormat {
    #[default]
    RGB1555,
    XRGB8888,
    RGB565,
}

/// The protocol code of a pixel format.
pub open spec fn pixel_format_code(format: PixelFormat) -> u32 {
    match format {
        PixelFormat::RGB1555 => 0,
        PixelFormat::XRGB8888 => 1,
        PixelFormat::RGB565 => 2,
    }
}

impl From<PixelFormat> for u32 {
    fn from(format: PixelFormat) -> (r: u32) {
        match format {
            PixelFormat::RGB1555 => 0,
            PixelFormat::XRGB8888 => 1,
            PixelFormat::RGB565 => 2,
        }
    }
}

impl vstd::std_specs::convert::FromSpecImpl<PixelFormat> for u32 {
    open spec fn obeys_from_spec() -> bool {
        true
    }

    open spec fn from_spec(format: PixelFormat) -> u32 {
        pixel_format_code(format)
    }
}

/// Alternative name of [`Device`].
pub type RetroDevice = Device;

/// Alternative name of [`JoypadButton`].
pub type RetroJoypadButton = JoypadButton;

/// Alternative name of [`Region`].
pub type RetroRegion = Region;

/// Alternative name of [`PixelFormat`].
pub type RetroPixelFormat = PixelFormat;

} // verus!
