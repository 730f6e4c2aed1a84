//! A verified bridge between a libretro-style frontend and a game or emulator core.
//!
//! The frontend drives the bridge ([`Instance`]) through a fixed sequence of entry points; the
//! bridge tracks where that sequence stands ([`Phase`]), forwards each call to the core
//! ([`Core`]), and offers the core typed access to the frontend's environment callback
//! ([`RetroEnvironment`]) and, during a frame, to its audio, video and input callbacks
//! ([`Runtime`]).
pub mod av_info;
pub mod environment;
pub mod game;
pub mod instance;
pub mod runtime;
pub mod system_info;
pub mod text;
pub mod types;

pub use av_info::{GameGeometry, SystemAVInfo, SystemTiming};
pub use environment::{EnvPayload, EnvReply, RetroEnvironment};
pub use game::{Game, GameInfo, RetroGame};
pub use instance::{region_size, Core, EntryPoint, Instance, LoadGameResult, LoadedGame, Phase};
pub use runtime::{Frontend, Runtime};
pub use system_info::RetroSystemInfo;
pub use types::{
    Device, DevicePort, GameType, JoypadButton, MemoryType, PixelFormat, Region, RetroDevice,
    RetroJoypadButton, RetroPixelFormat, RetroRegion, RETRO_DEVICE_JOYPAD,
};
