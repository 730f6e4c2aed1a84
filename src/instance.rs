//! The lifecycle bridge: the state that the frontend's entry points move through, the contract a
//! core implements, and the dispatch of each entry point to that core.
use crate::av_info::SystemAVInfo;
use crate::environment::{
    EnvPayload, EnvReply, RetroEnvironment, RETRO_ENVIRONMENT_SET_PIXEL_FORMAT,
    RETRO_ENVIRONMENT_SET_SUPPORT_NO_GAME,
};
use crate::game::{Game, GameInfo};
use crate::runtime::{
    audio_sample_batch_callable, audio_sample_callable, input_poll_callable, input_state_callable,
    video_refresh_callable, Frontend, Runtime,
};
use crate::system_info::RetroSystemInfo;
use crate::types::{
    device_of_code, pixel_format_code, region_code, Device, DevicePort, GameType, MemoryType,
    PixelFormat, Region,
};
use vstd::prelude::*;

verus! {

/// What a core reports when a game has loaded: its region, its audio/video settings and the
/// pixel format of its frames.
#[derive(Clone, Copy, Debug, PartialEq, Eq, Structural)]
pub struct LoadedGame {
    pub region: Region,
    pub av_info: SystemAVInfo,
    pub pixel_format: PixelFormat,
}

/// The outcome of loading a game.
#[must_use]
#[derive(Debug, PartialEq, Eq)]
pub enum LoadGameResult<T> {
    Failure,
    Success(T),
}

impl<T> From<LoadGameResult<T>> for Option<T> {
    fn from(result: LoadGameResult<T>) -> (r: Self) {
        match result {
            LoadGameResult::Failure => None,
            LoadGameResult::Success(value) => Some(value),
        }
    }
}

impl<T> vstd::std_specs::convert::FromSpecImpl<LoadGameResult<T>> for Option<T> {
    open spec fn obeys_from_spec() -> bool {
        true
    }

    open spec fn from_spec(result: LoadGameResult<T>) -> Option<T> {
        match result {
            LoadGameResult::Failure => None,
            LoadGameResult::Success(value) => Some(value),
        }
    }
}

impl<T> From<Option<T>> for LoadGameResult<T> {
    fn from(option: Option<T>) -> (r: Self) {
        match option {
            None => LoadGameResult::Failure,
            Some(value) => LoadGameResult::Success(value),
        }
    }
}

impl<T> vstd::std_specs::convert::FromSpecImpl<Option<T>> for LoadGameResult<T> {
    open spec fn obeys_from_spec() -> bool {
        true
    }

    open spec fn from_spec(option: Option<T>) -> LoadGameResult<T> {
        match option {
            None => LoadGameResult::Failure,
            Some(value) => LoadGameResult::Success(value),
        }
    }
}

impl<T, E> From<Result<T, E>> for LoadGameResult<T> {
    fn from(result: Result<T, E>) -> (r: Self) {
        match result {
            Err(_) => LoadGameResult::Failure,
            Ok(value) => LoadGameResult::Success(value),
        }
    }
}

impl<T, E> vstd::std_specs::convert::FromSpecImpl<Result<T, E>> for LoadGameResult<T> {
    open spec fn obeys_from_spec() -> bool {
        true
    }

    open spec fn from_spec(result: Result<T, E>) -> LoadGameResult<T> {
        match result {
            Err(_) => LoadGameResult::Failure,
            Ok(value) => LoadGameResult::Success(value),
        }
    }
}

impl<T> From<LoadGameResult<T>> for Result<T, ()> {
    fn from(result: LoadGameResult<T>) -> (r: Self) {
        match result {
            LoadGameResult::Failure => Err(()),
            LoadGameResult::Success(value) => Ok(value),
        }
    }
}

impl<T> vstd::std_specs::convert::FromSpecImpl<LoadGameResult<T>> for Result<T, ()> {
    open spec fn obeys_from_spec() -> bool {
        true
    }

    open spec fn from_spec(result: LoadGameResult<T>) -> Result<T, ()> {
        match result {
            LoadGameResult::Failure => Err(()),
            LoadGameResult::Success(value) => Ok(value),
        }
    }
}

/// The operations a game or emulator core provides. Those with a body have a default that does
/// nothing or declines.
#[allow(unused_variables)]
pub trait Core: Sized {
    /// Whether the core can run without a game. It is told to the frontend once, when the
    /// environment callback is set.
    const SUPPORT_NO_GAME: bool = false;

    /// Creates the core. `env` can be used to query the frontend.
    fn init<E: Fn(u32, EnvPayload) -> EnvReply>(env: &RetroEnvironment<E>) -> Self;

    /// Describes the core; needs no instance.
    fn get_system_info() -> RetroSystemInfo;

    /// Associates a device with a port. A core may ignore it.
    fn set_controller_port_device<E: Fn(u32, EnvPayload) -> EnvReply>(
        &mut self,
        env: &RetroEnvironment<E>,
        port: DevicePort,
        device: Device,
    ) {
    }

    /// Resets the running game.
    fn reset<E: Fn(u32, EnvPayload) -> EnvReply>(&mut self, env: &RetroEnvironment<E>);

    /// Advances the game by one frame.
    fn run<F: Frontend>(&mut self, env: &RetroEnvironment<F::Environment>, runtime: &Runtime<F>);

    /// The size of a saved state.
    fn serialize_size<E: Fn(u32, EnvPayload) -> EnvReply>(&self, env: &RetroEnvironment<E>) -> usize {
        0
    }

    /// Saves the state into `data`; `false` when unsupported or failed.
    fn serialize<E: Fn(u32, EnvPayload) -> EnvReply>(
        &self,
        env: &RetroEnvironment<E>,
        data: &mut [u8],
    ) -> bool {
        false
    }

    /// Restores the state from `data`; `false` when unsupported or failed.
    fn unserialize<E: Fn(u32, EnvPayload) -> EnvReply>(
        &mut self,
        env: &RetroEnvironment<E>,
        data: &[u8],
    ) -> bool {
        false
    }

    fn cheat_reset<E: Fn(u32, EnvPayload) -> EnvReply>(&mut self, env: &RetroEnvironment<E>) {
    }

    fn cheat_set<E: Fn(u32, EnvPayload) -> EnvReply>(
        &mut self,
        env: &RetroEnvironment<E>,
        index: u32,
        enabled: bool,
        code: &str,
    ) {
    }

    /// Loads a game and reports its settings.
    fn load_game<E: Fn(u32, EnvPayload) -> EnvReply>(
        &mut self,
        env: &RetroEnvironment<E>,
        game: Game,
    ) -> LoadGameResult<LoadedGame>;

    /// Loads a game of a special type; unsupported by default.
    fn load_game_special<E: Fn(u32, EnvPayload) -> EnvReply>(
        &mut self,
        env: &RetroEnvironment<E>,
        game_type: GameType,
        info: Game,
    ) -> LoadGameResult<LoadedGame> {
        LoadGameResult::Failure
    }

    fn unload_game<E: Fn(u32, EnvPayload) -> EnvReply>(&mut self, env: &RetroEnvironment<E>) {
    }

    /// A memory region of the core, which the frontend may read and write; none by default.
    fn get_memory_data<E: Fn(u32, EnvPayload) -> EnvReply>(
        &mut self,
        env: &RetroEnvironment<E>,
        id: MemoryType,
    ) -> Option<&mut [u8]> {
        None
    }
}

/// Where the bridge stands in the lifecycle that the frontend drives.
#[derive(Clone, Copy, Debug, PartialEq, Eq, Structural)]
pub enum Phase {
    /// No environment callback yet.
    Unconfigured,
    /// The environment callback is set; no core exists.
    EnvironmentBound,
    /// The core exists; no game has been loaded.
    Initialized,
    /// A game is loaded and its settings are cached.
    GameLoaded,
    /// The game was unloaded; another may be loaded.
    GameUnloaded,
    /// Everything was released.
    Deinitialized,
}

impl Phase {
    /// A core exists in this phase.
    pub open spec fn has_core(self) -> bool {
        self is Initialized || self is GameLoaded || self is GameUnloaded
    }
}

/// The entry points of the frontend protocol.
#[derive(Clone, Copy, Debug, PartialEq, Eq, Structural)]
pub enum EntryPoint {
    SetEnvironment,
    Init,
    Deinit,
    GetSystemInfo,
    GetSystemAvInfo,
    SetControllerPortDevice,
    Reset,
    Run,
    SerializeSize,
    Serialize,
    Unserialize,
    CheatReset,
    CheatSet,
    LoadGame,
    LoadGameSpecial,
    UnloadGame,
    GetRegion,
    GetMemoryData,
    GetMemorySize,
    SetAudioSample,
    SetAudioSampleBatch,
    SetInputPoll,
    SetInputState,
    SetVideoRefresh,
}

/// The bridge between the frontend's entry points and a core.
pub struct Instance<T, F: Frontend> {
    pub system: Option<T>,
    pub environment: Option<RetroEnvironment<F::Environment>>,
    pub audio_sample: Option<F::AudioSample>,
    pub audio_sample_batch: Option<F::AudioSampleBatch>,
    pub input_poll: Option<F::InputPoll>,
    pub input_state: Option<F::InputState>,
    pub video_refresh: Option<F::VideoRefresh>,
    /// The settings reported by the last successful load, until the game is unloaded.
    pub loaded_game: Option<LoadedGame>,
    pub phase: Phase,
}

impl<T: Core, F: Frontend> Instance<T, F> {
    /// Every callback held may be called with any arguments.
    pub open spec fn callbacks_callable(&self) -> bool {
        &&& self.environment matches Some(e) ==> e.wf()
        &&& self.audio_sample matches Some(f) ==> audio_sample_callable(f)
        &&& self.audio_sample_batch matches Some(f) ==> audio_sample_batch_callable(f)
        &&& self.input_poll matches Some(f) ==> input_poll_callable(f)
        &&& self.input_state matches Some(f) ==> input_state_callable(f)
        &&& self.video_refresh matches Some(f) ==> video_refresh_callable(f)
    }

    /// The fields agree with the phase: the environment is held from `EnvironmentBound` on, the
    /// core while it exists, and the cached settings exactly while a game is loaded.
    pub open spec fn wf(&self) -> bool {
        &&& self.callbacks_callable()
        &&& match self.phase {
            Phase::Unconfigured | Phase::Deinitialized => {
                &&& self.environment.is_none()
                &&& self.system.is_none()
                &&& self.loaded_game.is_none()
            },
            Phase::EnvironmentBound => {
                &&& self.environment.is_some()
                &&& self.system.is_none()
                &&& self.loaded_game.is_none()
            },
            Phase::Initialized | Phase::GameUnloaded => {
                &&& self.environment.is_some()
                &&& self.system.is_some()
                &&& self.loaded_game.is_none()
            },
            Phase::GameLoaded => {
                &&& self.environment.is_some()
                &&& self.system.is_some()
                &&& self.loaded_game.is_some()
            },
        }
    }

    /// Whether the protocol lets the frontend call `ep` now. Calling it otherwise is a protocol
    /// violation.
    pub open spec fn allows(&self, ep: EntryPoint) -> bool {
        match ep {
            EntryPoint::Init => self.phase is EnvironmentBound,
            EntryPoint::LoadGame | EntryPoint::LoadGameSpecial => self.phase is Initialized
                || self.phase is GameUnloaded,
            EntryPoint::Run => {
                &&& self.phase is GameLoaded
                &&& self.input_poll.is_some()
                &&& self.audio_sample.is_some()
                &&& self.audio_sample_batch.is_some()
                &&& self.input_state.is_some()
                &&& self.video_refresh.is_some()
            },
            EntryPoint::UnloadGame | EntryPoint::GetRegion | EntryPoint::GetSystemAvInfo => {
                self.phase is GameLoaded
            },
            EntryPoint::SetControllerPortDevice
            | EntryPoint::Reset
            | EntryPoint::SerializeSize
            | EntryPoint::Serialize
            | EntryPoint::Unserialize
            | EntryPoint::CheatReset
            | EntryPoint::CheatSet
            | EntryPoint::GetMemoryData
            | EntryPoint::GetMemorySize => self.phase.has_core(),
            EntryPoint::SetEnvironment
            | EntryPoint::Deinit
            | EntryPoint::GetSystemInfo
            | EntryPoint::SetAudioSample
            | EntryPoint::SetAudioSampleBatch
            | EntryPoint::SetInputPoll
            | EntryPoint::SetInputState
            | EntryPoint::SetVideoRefresh => true,
        }
    }

    /// The callbacks are those of `other`.
    pub open spec fn same_callbacks(&self, other: &Self) -> bool {
        &&& self.environment == other.environment
        &&& self.audio_sample == other.audio_sample
        &&& self.audio_sample_batch == other.audio_sample_batch
        &&& self.input_poll == other.input_poll
        &&& self.input_state == other.input_state
        &&& self.video_refresh == other.video_refresh
    }

    /// Only the core itself may differ from `other`.
    pub open spec fn same_but_core(&self, other: &Self) -> bool {
        &&& self.same_callbacks(other)
        &&& self.loaded_game == other.loaded_game
        &&& self.phase == other.phase
        &&& self.system.is_some() == other.system.is_some()
    }

    /// A bridge with nothing set.
    pub fn new() -> (r: Self)
        ensures
            r.wf(),
            r.phase is Unconfigured,
            r.audio_sample.is_none(),
            r.audio_sample_batch.is_none(),
            r.input_poll.is_none(),
            r.input_state.is_none(),
            r.video_refresh.is_none(),
    {
        Instance {
            system: None,
            environment: None,
            audio_sample: None,
            audio_sample_batch: None,
            input_poll: None,
            input_state: None,
            video_refresh: None,
            loaded_game: None,
            phase: Phase::Unconfigured,
        }
    }

    /// Whether the protocol lets the frontend call `ep` now.
    pub fn can_call(&self, ep: EntryPoint) -> (r: bool)
        ensures
            r == self.allows(ep),
    {
        let has_core = match self.phase {
            Phase::Initialized | Phase::GameLoaded | Phase::GameUnloaded => true,
            _ => false,
        };
        let loaded = match self.phase {
            Phase::GameLoaded => true,
            _ => false,
        };
        match ep {
            EntryPoint::Init => match self.phase {
                Phase::EnvironmentBound => true,
                _ => false,
            },
            EntryPoint::LoadGame | EntryPoint::LoadGameSpecial => match self.phase {
                Phase::Initialized | Phase::GameUnloaded => true,
                _ => false,
            },
            EntryPoint::Run => loaded && self.input_poll.is_some() && self.audio_sample.is_some()
                && self.audio_sample_batch.is_some() && self.input_state.is_some()
                && self.video_refresh.is_some(),
            EntryPoint::UnloadGame | EntryPoint::GetRegion | EntryPoint::GetSystemAvInfo => loaded,
            EntryPoint::SetControllerPortDevice
            | EntryPoint::Reset
            | EntryPoint::SerializeSize
            | EntryPoint::Serialize
            | EntryPoint::Unserialize
            | EntryPoint::CheatReset
            | EntryPoint::CheatSet
            | EntryPoint::GetMemoryData
            | EntryPoint::GetMemorySize => has_core,
            EntryPoint::SetEnvironment
            | EntryPoint::Deinit
            | EntryPoint::GetSystemInfo
            | EntryPoint::SetAudioSample
            | EntryPoint::SetAudioSampleBatch
            | EntryPoint::SetInputPoll
            | EntryPoint::SetInputState
            | EntryPoint::SetVideoRefresh => true,
        }
    }

    /// `retro_set_environment`: keeps the callback and tells the frontend, through it, whether
    /// the core can run without a game. Returns the frontend's answer.
    pub fn on_set_environment(&mut self, cb: F::Environment) -> (r: bool)
        requires
            old(self).wf(),
            forall|key: u32, payload: EnvPayload| call_requires(cb, (key, payload)),
        ensures
            final(self).wf(),
            final(self).environment is Some,
            final(self).environment.unwrap().callback() == cb,
            exists|reply: EnvReply|
                #[trigger] call_ensures(
                    cb,
                    (RETRO_ENVIRONMENT_SET_SUPPORT_NO_GAME, EnvPayload::Bool(T::SUPPORT_NO_GAME)),
                    reply,
                ) && r == reply.accepted,
            final(self).phase == (if old(self).phase is Unconfigured || old(self).phase is Deinitialized {
                Phase::EnvironmentBound
            } else {
                old(self).phase
            }),
            final(self).system == old(self).system,
            final(self).loaded_game == old(self).loaded_game,
            final(self).audio_sample == old(self).audio_sample,
            final(self).audio_sample_batch == old(self).audio_sample_batch,
            final(self).input_poll == old(self).input_poll,
            final(self).input_state == old(self).input_state,
            final(self).video_refresh == old(self).video_refresh,
    {
        let env = RetroEnvironment::new(cb);
        let accepted = env.set_support_no_game(T::SUPPORT_NO_GAME);
        self.environment = Some(env);
        match self.phase {
            Phase::Unconfigured | Phase::Deinitialized => {
                self.phase = Phase::EnvironmentBound;
            },
            _ => {},
        }
        accepted
    }

    /// `retro_init`: creates the core with the environment.
    pub fn on_init(&mut self)
        requires
            old(self).wf(),
            old(self).allows(EntryPoint::Init),
        ensures
            final(self).wf(),
            final(self).phase is Initialized,
            final(self).system is Some,
            final(self).same_callbacks(old(self)),
            final(self).loaded_game == old(self).loaded_game,
    {
        match &self.environment {
            Some(env) => {
                let core = T::init(env);
                self.system = Some(core);
                self.phase = Phase::Initialized;
            },
            None => {},
        }
    }

    /// `retro_deinit`: releases the core, the environment and every callback.
    pub fn on_deinit(&mut self)
        requires
            old(self).wf(),
        ensures
            final(self).wf(),
            final(self).phase is Deinitialized,
            final(self).system.is_none(),
            final(self).environment.is_none(),
            final(self).loaded_game.is_none(),
            final(self).audio_sample.is_none(),
            final(self).audio_sample_batch.is_none(),
            final(self).input_poll.is_none(),
            final(self).input_state.is_none(),
            final(self).video_refresh.is_none(),
    {
        self.system = None;
        self.audio_sample = None;
        self.audio_sample_batch = None;
        self.environment = None;
        self.input_poll = None;
        self.input_state = None;
        self.video_refresh = None;
        self.loaded_game = None;
        self.phase = Phase::Deinitialized;
    }

    /// `retro_set_audio_sample`.
    pub fn on_set_audio_sample(&mut self, cb: Option<F::AudioSample>)
        requires
            old(self).wf(),
            cb matches Some(f) ==> audio_sample_callable(f),
        ensures
            final(self).wf(),
            final(self).audio_sample == cb,
            final(self).environment == old(self).environment,
            final(self).audio_sample_batch == old(self).audio_sample_batch,
            final(self).input_poll == old(self).input_poll,
            final(self).input_state == old(self).input_state,
            final(self).video_refresh == old(self).video_refresh,
            final(self).system == old(self).system,
            final(self).loaded_game == old(self).loaded_game,
            final(self).phase == old(self).phase,
    {
        self.audio_sample = cb;
    }

    /// `retro_set_audio_sample_batch`.
    pub fn on_set_audio_sample_batch(&mut self, cb: Option<F::AudioSampleBatch>)
        requires
            old(self).wf(),
            cb matches Some(f) ==> audio_sample_batch_callable(f),
        ensures
            final(self).wf(),
            final(self).audio_sample_batch == cb,
            final(self).environment == old(self).environment,
            final(self).audio_sample == old(self).audio_sample,
            final(self).input_poll == old(self).input_poll,
            final(self).input_state == old(self).input_state,
            final(self).video_refresh == old(self).video_refresh,
            final(self).system == old(self).system,
            final(self).loaded_game == old(self).loaded_game,
            final(self).phase == old(self).phase,
    {
        self.audio_sample_batch = cb;
    }

    /// `retro_set_input_poll`.
    pub fn on_set_input_poll(&mut self, cb: Option<F::InputPoll>)
        requires
            old(self).wf(),
            cb matches Some(f) ==> input_poll_callable(f),
        ensures
            final(self).wf(),
            final(self).input_poll == cb,
            final(self).environment == old(self).environment,
            final(self).audio_sample == old(self).audio_sample,
            final(self).audio_sample_batch == old(self).audio_sample_batch,
            final(self).input_state == old(self).input_state,
            final(self).video_refresh == old(self).video_refresh,
            final(self).system == old(self).system,
            final(self).loaded_game == old(self).loaded_game,
            final(self).phase == old(self).phase,
    {
        self.input_poll = cb;
    }

    /// `retro_set_input_state`.
    pub fn on_set_input_state(&mut self, cb: Option<F::InputState>)
        requires
            old(self).wf(),
            cb matches Some(f) ==> input_state_callable(f),
        ensures
            final(self).wf(),
            final(self).input_state == cb,
            final(self).environment == old(self).environment,
            final(self).audio_sample == old(self).audio_sample,
            final(self).audio_sample_batch == old(self).audio_sample_batch,
            final(self).input_poll == old(self).input_poll,
            final(self).video_refresh == old(self).video_refresh,
            final(self).system == old(self).system,
            final(self).loaded_game == old(self).loaded_game,
            final(self).phase == old(self).phase,
    {
        self.input_state = cb;
    }

    /// `retro_set_video_refresh`.
    pub fn on_set_video_refresh(&mut self, cb: Option<F::VideoRefresh>)
        requires
            old(self).wf(),
            cb matches Some(f) ==> video_refresh_callable(f),
        ensures
            final(self).wf(),
            final(self).video_refresh == cb,
            final(self).environment == old(self).environment,
            final(self).audio_sample == old(self).audio_sample,
            final(self).audio_sample_batch == old(self).audio_sample_batch,
            final(self).input_poll == old(self).input_poll,
            final(self).input_state == old(self).input_state,
            final(self).system == old(self).system,
            final(self).loaded_game == old(self).loaded_game,
            final(self).phase == old(self).phase,
    {
        self.video_refresh = cb;
    }

    /// `retro_get_system_info`: the core's description.
    pub fn on_get_system_info(&self) -> (r: RetroSystemInfo)
        ensures
            call_ensures(T::get_system_info, (), r),
    {
        T::get_system_info()
    }

    /// `retro_get_system_av_info`: tells the frontend the pixel format of the loaded game and
    /// returns the game's audio/video settings, with the frontend's answer to the pixel format.
    pub fn on_get_system_av_info(&self) -> (r: (SystemAVInfo, bool))
        requires
            self.wf(),
            self.allows(EntryPoint::GetSystemAvInfo),
        ensures
            r.0 == self.loaded_game.unwrap().av_info,
            exists|reply: EnvReply|
                #[trigger] self.environment.unwrap().replies(
                    RETRO_ENVIRONMENT_SET_PIXEL_FORMAT,
                    EnvPayload::U32(pixel_format_code(self.loaded_game.unwrap().pixel_format)),
                    reply,
                ) && r.1 == reply.accepted,
    {
        let game = self.loaded_game.unwrap();
        let accepted = match &self.environment {
            Some(env) => env.set_pixel_format(game.pixel_format),
            None => false,
        };
        (game.av_info, accepted)
    }

    /// `retro_set_controller_port_device`: hands the request to the core when `device` is the
    /// code of a known device and `port` fits a port number; otherwise ignores it. Returns
    /// whether it was handed on.
    pub fn on_set_controller_port_device(&mut self, port: u32, device: u32) -> (r: bool)
        requires
            old(self).wf(),
            old(self).allows(EntryPoint::SetControllerPortDevice),
        ensures
            final(self).wf(),
            final(self).same_but_core(old(self)),
            r == (device_of_code(device).is_some() && port <= u8::MAX),
            !r ==> final(self).system == old(self).system,
            r ==> exists|core: &mut T|
                #[trigger] call_ensures(
                    T::set_controller_port_device::<F::Environment>,
                    (
                        core,
                        &old(self).environment.unwrap(),
                        DevicePort(port as u8),
                        device_of_code(device).unwrap(),
                    ),
                    (),
                ) && *core == old(self).system.unwrap() && final(self).system == Some(*final(core)),
    {
        match Device::try_from(device) {
            Ok(device) => match u8::try_from(port) {
                Ok(port_num) => match (&self.environment, &mut self.system) {
                    (Some(env), Some(core)) => {
                        core.set_controller_port_device(env, DevicePort::new(port_num), device);
                        true
                    },
                    _ => false,
                },
                Err(_) => false,
            },
            Err(_) => false,
        }
    }

    /// `retro_reset`.
    pub fn on_reset(&mut self)
        requires
            old(self).wf(),
            old(self).allows(EntryPoint::Reset),
        ensures
            final(self).wf(),
            final(self).same_but_core(old(self)),
            exists|core: &mut T|
                #[trigger] call_ensures(T::reset::<F::Environment>, (core, &old(self).environment.unwrap()), ())
                    && *core == old(self).system.unwrap() && final(self).system == Some(*final(core)),
    {
        match (&self.environment, &mut self.system) {
            (Some(env), Some(core)) => core.reset(env),
            _ => {},
        }
    }

    /// `retro_run`: polls the input once, then lets the core run one frame with the frame
    /// callbacks of this moment.
    pub fn on_run(&mut self)
        requires
            old(self).wf(),
            old(self).allows(EntryPoint::Run),
        ensures
            final(self).wf(),
            final(self).same_but_core(old(self)),
            call_ensures(old(self).input_poll.unwrap(), (), ()),
            exists|core: &mut T, runtime: Runtime<F>|
                #[trigger] call_ensures(
                    T::run::<F>,
                    (core, &old(self).environment.unwrap(), &runtime),
                    (),
                ) && *core == old(self).system.unwrap() && final(self).system == Some(*final(core))
                    && runtime.wf() && *runtime.audio_sample().unwrap()
                    == old(self).audio_sample.unwrap() && *runtime.audio_sample_batch().unwrap()
                    == old(self).audio_sample_batch.unwrap() && *runtime.input_state().unwrap()
                    == old(self).input_state.unwrap() && *runtime.video_refresh().unwrap()
                    == old(self).video_refresh.unwrap(),
    {
        match &self.input_poll {
            Some(poll) => poll(),
            None => {},
        }
        let runtime = Runtime::<F>::new(
            self.audio_sample.as_ref(),
            self.audio_sample_batch.as_ref(),
            self.input_state.as_ref(),
            self.video_refresh.as_ref(),
        );
        match (&self.environment, &mut self.system) {
            (Some(env), Some(core)) => core.run(env, &runtime),
            _ => {},
        }
    }

    /// `retro_serialize_size`: the core's answer.
    pub fn on_serialize_size(&self) -> (r: usize)
        requires
            self.wf(),
            self.allows(EntryPoint::SerializeSize),
        ensures
            call_ensures(
                T::serialize_size::<F::Environment>,
                (&self.system.unwrap(), &self.environment.unwrap()),
                r,
            ),
    {
        match (&self.environment, &self.system) {
            (Some(env), Some(core)) => core.serialize_size(env),
            _ => 0,
        }
    }

    /// `retro_serialize`: the core saves its state into `data`; the core's answer.
    pub fn on_serialize(&self, data: &mut [u8]) -> (r: bool)
        requires
            self.wf(),
            self.allows(EntryPoint::Serialize),
        ensures
            exists|buf: &mut [u8]|
                #[trigger] call_ensures(
                    T::serialize::<F::Environment>,
                    (&self.system.unwrap(), &self.environment.unwrap(), buf),
                    r,
                ) && buf@ == old(data)@ && final(buf)@ == final(data)@,
    {
        match (&self.environment, &self.system) {
            (Some(env), Some(core)) => core.serialize(env, data),
            _ => false,
        }
    }

    /// `retro_unserialize`: the core restores its state from `data`; the core's answer.
    pub fn on_unserialize(&mut self, data: &[u8]) -> (r: bool)
        requires
            old(self).wf(),
            old(self).allows(EntryPoint::Unserialize),
        ensures
            final(self).wf(),
            final(self).same_but_core(old(self)),
            exists|core: &mut T|
                #[trigger] call_ensures(
                    T::unserialize::<F::Environment>,
                    (core, &old(self).environment.unwrap(), data),
                    r,
                ) && *core == old(self).system.unwrap() && final(self).system == Some(*final(core)),
    {
        match (&self.environment, &mut self.system) {
            (Some(env), Some(core)) => core.unserialize(env, data),
            _ => false,
        }
    }

    /// `retro_cheat_reset`.
    pub fn on_cheat_reset(&mut self)
        requires
            old(self).wf(),
            old(self).allows(EntryPoint::CheatReset),
        ensures
            final(self).wf(),
            final(self).same_but_core(old(self)),
            exists|core: &mut T|
                #[trigger] call_ensures(T::cheat_reset::<F::Environment>, (core, &old(self).environment.unwrap()), ())
                    && *core == old(self).system.unwrap() && final(self).system == Some(*final(core)),
    {
        match (&self.environment, &mut self.system) {
            (Some(env), Some(core)) => core.cheat_reset(env),
            _ => {},
        }
    }

    /// `retro_cheat_set`.
    pub fn on_cheat_set(&mut self, index: u32, enabled: bool, code: &str)
        requires
            old(self).wf(),
            old(self).allows(EntryPoint::CheatSet),
        ensures
            final(self).wf(),
            final(self).same_but_core(old(self)),
            exists|core: &mut T|
                #[trigger] call_ensures(T::cheat_set::<F::Environment>, (core, &old(self).environment.unwrap(), index, enabled, code), ())
                    && *core == old(self).system.unwrap() && final(self).system == Some(*final(core)),
    {
        match (&self.environment, &mut self.system) {
            (Some(env), Some(core)) => core.cheat_set(env, index, enabled, code),
            _ => {},
        }
    }

    /// Records what the core answered to a load: on success the reported settings are cached
    /// and the game counts as loaded; on failure nothing is cached and the phase stays.
    /// Returns whether the load succeeded.
    pub fn apply_load_result(&mut self, result: LoadGameResult<LoadedGame>) -> (r: bool)
        requires
            old(self).wf(),
            old(self).allows(EntryPoint::LoadGame),
        ensures
            final(self).wf(),
            final(self).same_callbacks(old(self)),
            final(self).system == old(self).system,
            result matches LoadGameResult::Success(game) ==> {
                &&& r
                &&& final(self).loaded_game == Some(game)
                &&& final(self).phase is GameLoaded
            },
            result is Failure ==> {
                &&& !r
                &&& final(self).loaded_game.is_none()
                &&& final(self).phase == old(self).phase
                &&& !(final(self).phase is GameLoaded)
            },
    {
        match result {
            LoadGameResult::Success(game) => {
                self.loaded_game = Some(game);
                self.phase = Phase::GameLoaded;
                true
            },
            LoadGameResult::Failure => {
                self.loaded_game = None;
                false
            },
        }
    }

    /// `retro_load_game`: the core loads the game described by `game` (no record: no game).
    /// On success its settings are cached and the game counts as loaded; on failure nothing is
    /// cached and the phase stays.
    pub fn on_load_game(&mut self, game: Option<&GameInfo>) -> (r: bool)
        requires
            old(self).wf(),
            old(self).allows(EntryPoint::LoadGame),
        ensures
            final(self).wf(),
            final(self).same_callbacks(old(self)),
            final(self).system is Some,
            r == final(self).loaded_game.is_some(),
            r ==> final(self).phase is GameLoaded,
            !r ==> final(self).phase == old(self).phase,
            !r ==> !(final(self).phase is GameLoaded),
            exists|core: &mut T, g: Game, result: LoadGameResult<LoadedGame>|
                #[trigger] call_ensures(T::load_game::<F::Environment>, (core, &old(self).environment.unwrap(), g), result)
                    && *core == old(self).system.unwrap() && final(self).system == Some(*final(core))
                    && g.describes(game) && r == (result is Success) && (result matches LoadGameResult::Success(
                    loaded,
                ) ==> final(self).loaded_game == Some(loaded)),
    {
        let result = match (&self.environment, &mut self.system) {
            (Some(env), Some(core)) => core.load_game(env, Game::from_option(game)),
            _ => LoadGameResult::Failure,
        };
        self.apply_load_result(result)
    }

    /// `retro_load_game_special`: as `on_load_game`, with a special game type and the first
    /// record of the frontend's list.
    pub fn on_load_game_special(&mut self, game_type: GameType, info: &GameInfo, num_info: usize) -> (r: bool)
        requires
            old(self).wf(),
            old(self).allows(EntryPoint::LoadGameSpecial),
        ensures
            final(self).wf(),
            final(self).same_callbacks(old(self)),
            final(self).system is Some,
            r == final(self).loaded_game.is_some(),
            r ==> final(self).phase is GameLoaded,
            !r ==> final(self).phase == old(self).phase,
            !r ==> !(final(self).phase is GameLoaded),
            exists|core: &mut T, g: Game, result: LoadGameResult<LoadedGame>|
                #[trigger] call_ensures(T::load_game_special::<F::Environment>, (core, &old(self).environment.unwrap(), game_type, g), result)
                    && *core == old(self).system.unwrap() && final(self).system == Some(*final(core))
                    && g.describes(Some(info)) && r == (result is Success) && (result matches LoadGameResult::Success(
                    loaded,
                ) ==> final(self).loaded_game == Some(loaded)),
    {
        let result = match (&self.environment, &mut self.system) {
            (Some(env), Some(core)) => core.load_game_special(env, game_type, Game::from_info(info)),
            _ => LoadGameResult::Failure,
        };
        self.apply_load_result(result)
    }

    /// `retro_unload_game`: the core unloads the game; the cached settings are dropped and
    /// another game may be loaded.
    pub fn on_unload_game(&mut self)
        requires
            old(self).wf(),
            old(self).allows(EntryPoint::UnloadGame),
        ensures
            final(self).wf(),
            final(self).same_callbacks(old(self)),
            final(self).system is Some,
            final(self).phase is GameUnloaded,
            final(self).loaded_game.is_none(),
            final(self).allows(EntryPoint::LoadGame),
            exists|core: &mut T|
                #[trigger] call_ensures(T::unload_game::<F::Environment>, (core, &old(self).environment.unwrap()), ())
                    && *core == old(self).system.unwrap() && final(self).system == Some(*final(core)),
    {
        match (&self.environment, &mut self.system) {
            (Some(env), Some(core)) => core.unload_game(env),
            _ => {},
        }
        self.loaded_game = None;
        self.phase = Phase::GameUnloaded;
    }

    /// `retro_get_region`: the code of the region reported by the last successful load.
    pub fn on_get_region(&self) -> (r: u32)
        requires
            self.wf(),
            self.allows(EntryPoint::GetRegion),
        ensures
            r == region_code(self.loaded_game.unwrap().region),
    {
        u32::from(self.loaded_game.unwrap().region)
    }

    /// `retro_get_memory_data`: the core's memory region `id`, if it has one.
    pub fn on_get_memory_data(&mut self, id: MemoryType) -> (r: Option<&mut [u8]>)
        requires
            old(self).wf(),
            old(self).allows(EntryPoint::GetMemoryData),
        ensures
            final(self).wf(),
            final(self).same_but_core(old(self)),
            exists|core: &mut T|
                #[trigger] call_ensures(
                    T::get_memory_data::<F::Environment>,
                    (core, &old(self).environment.unwrap(), id),
                    r,
                ) && *core == old(self).system.unwrap(),
    {
        match (&self.environment, &mut self.system) {
            (Some(env), Some(core)) => core.get_memory_data(env, id),
            _ => None,
        }
    }

    /// `retro_get_memory_size`: the length of the core's memory region `id`, as `region_size`
    /// reads the core's answer.
    pub fn on_get_memory_size(&mut self, id: MemoryType) -> (r: usize)
        requires
            old(self).wf(),
            old(self).allows(EntryPoint::GetMemorySize),
        ensures
            final(self).wf(),
            final(self).same_but_core(old(self)),
            exists|core: &mut T, region: Option<&mut [u8]>|
                #[trigger] call_ensures(
                    T::get_memory_data::<F::Environment>,
                    (core, &old(self).environment.unwrap(), id),
                    region,
                ) && *core == old(self).system.unwrap() && r == match region {
                    Some(d) => d@.len() as usize,
                    None => 0usize,
                },
    {
        match (&self.environment, &mut self.system) {
            (Some(env), Some(core)) => region_size(core.get_memory_data(env, id)),
            _ => 0,
        }
    }
}


/// The size that a memory region answer stands for: the region's length, or 0 when there is no
/// region.
pub fn region_size(data: Option<&mut [u8]>) -> (r: usize)
    ensures
        data.is_none() ==> r == 0,
        data matches Some(d) ==> r == d@.len(),
{
    match data {
        Some(d) => d.len(),
        None => 0,
    }
}

/// The entry points that need a loaded game (`run`, `get_region`, `get_system_av_info`) are
/// allowed only in `GameLoaded`, and those that need a core (save states, memory regions) only
/// while a core exists; in a well-formed bridge the cached region and settings are present
/// exactly when the former are allowed.
pub proof fn lemma_entry_point_guards<T: Core, F: Frontend>(inst: &Instance<T, F>)
    ensures
        inst.allows(EntryPoint::Run) ==> inst.phase is GameLoaded,
        inst.allows(EntryPoint::GetRegion) <==> inst.phase is GameLoaded,
        inst.allows(EntryPoint::GetSystemAvInfo) <==> inst.phase is GameLoaded,
        inst.allows(EntryPoint::SerializeSize) <==> inst.phase.has_core(),
        inst.allows(EntryPoint::Serialize) <==> inst.phase.has_core(),
        inst.allows(EntryPoint::Unserialize) <==> inst.phase.has_core(),
        inst.allows(EntryPoint::GetMemoryData) <==> inst.phase.has_core(),
        inst.allows(EntryPoint::GetMemorySize) <==> inst.phase.has_core(),
        inst.wf() ==> (inst.allows(EntryPoint::GetRegion) <==> inst.loaded_game.is_some()),
        inst.wf() ==> (inst.allows(EntryPoint::Serialize) <==> inst.system.is_some()),
{
}

} // verus!
