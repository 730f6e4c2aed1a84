//! The environment channel: one untyped "selector + payload -> bool" callback of the frontend,
//! behind a facade with one typed operation per known selector.
use crate::text::{opt_string_view, text_of_bytes, utf8_str};
use crate::types::{pixel_format_code, PixelFormat};
use vstd::prelude::*;

verus! {

/// Command: ask the frontend to shut down. No payload.
pub const RETRO_ENVIRONMENT_SHUTDOWN: u32 = 7;

/// Get: the system directory, as a NUL-terminated string.
pub const RETRO_ENVIRONMENT_GET_SYSTEM_DIRECTORY: u32 = 9;

/// Set: the pixel format of the frames to come, as a 32-bit enum.
pub const RETRO_ENVIRONMENT_SET_PIXEL_FORMAT: u32 = 10;

/// Set: whether the core can run without a game, as a boolean.
pub const RETRO_ENVIRONMENT_SET_SUPPORT_NO_GAME: u32 = 18;

/// Get: the path of the core itself, as a NUL-terminated string.
pub const RETRO_ENVIRONMENT_GET_LIBRETRO_PATH: u32 = 19;

/// Get: the core assets directory, as a NUL-terminated string.
pub const RETRO_ENVIRONMENT_GET_CORE_ASSETS_DIRECTORY: u32 = 30;

/// Get: the save directory, as a NUL-terminated string.
pub const RETRO_ENVIRONMENT_GET_SAVE_DIRECTORY: u32 = 31;

/// Get: the user's name, as a NUL-terminated string.
pub const RETRO_ENVIRONMENT_GET_USERNAME: u32 = 38;

/// What is handed to the environment callback beside the selector: the shape of the pointer
/// argument.
#[derive(Clone, Copy, Debug, PartialEq, Eq, Structural)]
pub enum EnvPayload {
    /// A null pointer, for commands.
    Empty,
    /// A pointer to a boolean that the frontend reads.
    Bool(bool),
    /// A pointer to an unsigned 32-bit value that the frontend reads.
    U32(u32),
    /// A pointer to a string-pointer slot, null at first, that the frontend may fill.
    StringSlot,
}

/// What the environment callback handed back.
#[derive(Debug)]
pub struct EnvReply {
    /// The callback's result: `false` when the frontend does not support the selector or
    /// declines the request.
    pub accepted: bool,
    /// For a `StringSlot` payload: the bytes, without the terminating NUL, of the string that the
    /// frontend left in the slot; `None` when the slot holds a null pointer.
    pub text: Option<Vec<u8>>,
}

/// The string that a reply to a string query yields: present only when the frontend accepted,
/// wrote a non-null pointer, and the bytes are valid UTF-8.
pub open spec fn reply_text(reply: EnvReply) -> Option<Seq<char>> {
    if reply.accepted {
        match reply.text {
            Some(bytes) => text_of_bytes(bytes@),
            None => None,
        }
    } else {
        None
    }
}

impl EnvReply {
    /// Interprets this reply to a string query.
    pub fn into_text(self) -> (r: Option<String>)
        ensures
            opt_string_view(r) == reply_text(self),
            self.text.is_none() ==> r.is_none(),
            !self.accepted ==> r.is_none(),
    {
        if !self.accepted {
            return None;
        }
        match &self.text {
            Some(bytes) => match utf8_str(bytes.as_slice()) {
                Some(s) => Some(s.to_owned()),
                None => None,
            },
            None => None,
        }
    }
}

/// The frontend's environment callback, with a typed operation for each selector the library
/// knows.
pub struct RetroEnvironment<E> {
    callback: E,
}

impl<E: Fn(u32, EnvPayload) -> EnvReply> RetroEnvironment<E> {
    /// The frontend's callback.
    pub closed spec fn callback(&self) -> E {
        self.callback
    }

    /// The callback may be called with any selector and payload.
    pub closed spec fn wf(&self) -> bool {
        forall|key: u32, payload: EnvPayload| call_requires(self.callback, (key, payload))
    }

    /// `reply` is an answer that the frontend may give to `key` with `payload`.
    pub open spec fn replies(&self, key: u32, payload: EnvPayload, reply: EnvReply) -> bool {
        call_ensures(self.callback(), (key, payload), reply)
    }

    pub fn new(callback: E) -> (r: Self)
        requires
            forall|key: u32, payload: EnvPayload| call_requires(callback, (key, payload)),
        ensures
            r.wf(),
            r.callback() == callback,
    {
        RetroEnvironment { callback }
    }

    /// Sends `payload` under `key` and returns the frontend's answer.
    fn call(&self, key: u32, payload: EnvPayload) -> (r: EnvReply)
        requires
            self.wf(),
        ensures
            self.replies(key, payload, r),
    {
        (self.callback)(key, payload)
    }

    /// Issues the command `key`, with a null payload.
    pub fn cmd_raw(&self, key: u32) -> (r: bool)
        requires
            self.wf(),
        ensures
            exists|reply: EnvReply|
                self.replies(key, EnvPayload::Empty, reply) && r == reply.accepted,
    {
        self.call(key, EnvPayload::Empty).accepted
    }

    /// Sets the boolean value `val` under `key`.
    pub fn set_bool(&self, key: u32, val: bool) -> (r: bool)
        requires
            self.wf(),
        ensures
            exists|reply: EnvReply|
                self.replies(key, EnvPayload::Bool(val), reply) && r == reply.accepted,
    {
        self.call(key, EnvPayload::Bool(val)).accepted
    }

    /// Sets the 32-bit value `val` under `key`.
    pub fn set_u32(&self, key: u32, val: u32) -> (r: bool)
        requires
            self.wf(),
        ensures
            exists|reply: EnvReply|
                self.replies(key, EnvPayload::U32(val), reply) && r == reply.accepted,
    {
        self.call(key, EnvPayload::U32(val)).accepted
    }

    /// Queries a string under `key`. A declined query, a null pointer or text that is not UTF-8
    /// yields `None`.
    pub fn get_str(&self, key: u32) -> (r: Option<String>)
        requires
            self.wf(),
        ensures
            exists|reply: EnvReply|
                self.replies(key, EnvPayload::StringSlot, reply) && opt_string_view(r)
                    == reply_text(reply),
    {
        self.call(key, EnvPayload::StringSlot).into_text()
    }

    /// Asks the frontend to shut down. The frontend may refuse and answer `false`.
    pub fn shutdown(&self) -> (r: bool)
        requires
            self.wf(),
        ensures
            exists|reply: EnvReply|
                self.replies(RETRO_ENVIRONMENT_SHUTDOWN, EnvPayload::Empty, reply) && r
                    == reply.accepted,
    {
        self.cmd_raw(RETRO_ENVIRONMENT_SHUTDOWN)
    }

    /// Tells the frontend the pixel format of the frames to come.
    pub fn set_pixel_format(&self, val: PixelFormat) -> (r: bool)
        requires
            self.wf(),
        ensures
            exists|reply: EnvReply|
                self.replies(
                    RETRO_ENVIRONMENT_SET_PIXEL_FORMAT,
                    EnvPayload::U32(pixel_format_code(val)),
                    reply,
                ) && r == reply.accepted,
    {
        self.set_u32(RETRO_ENVIRONMENT_SET_PIXEL_FORMAT, u32::from(val))
    }

    /// Tells the frontend whether the core can run without a game.
    pub fn set_support_no_game(&self, val: bool) -> (r: bool)
        requires
            self.wf(),
        ensures
            exists|reply: EnvReply|
                self.replies(RETRO_ENVIRONMENT_SET_SUPPORT_NO_GAME, EnvPayload::Bool(val), reply)
                    && r == reply.accepted,
    {
        self.set_bool(RETRO_ENVIRONMENT_SET_SUPPORT_NO_GAME, val)
    }

    /// Queries the path of the core itself.
    pub fn get_libretro_path(&self) -> (r: Option<String>)
        requires
            self.wf(),
        ensures
            exists|reply: EnvReply|
                self.replies(RETRO_ENVIRONMENT_GET_LIBRETRO_PATH, EnvPayload::StringSlot, reply)
                    && opt_string_view(r) == reply_text(reply),
    {
        self.get_str(RETRO_ENVIRONMENT_GET_LIBRETRO_PATH)
    }

    /// Queries the path of the core assets directory.
    pub fn get_core_assets_directory(&self) -> (r: Option<String>)
        requires
            self.wf(),
        ensures
            exists|reply: EnvReply|
                self.replies(
                    RETRO_ENVIRONMENT_GET_CORE_ASSETS_DIRECTORY,
                    EnvPayload::StringSlot,
                    reply,
                ) && opt_string_view(r) == reply_text(reply),
    {
        self.get_str(RETRO_ENVIRONMENT_GET_CORE_ASSETS_DIRECTORY)
    }

    /// Queries the path of the save directory.
    pub fn get_save_directory(&self) -> (r: Option<String>)
        requires
            self.wf(),
        ensures
            exists|reply: EnvReply|
                self.replies(RETRO_ENVIRONMENT_GET_SAVE_DIRECTORY, EnvPayload::StringSlot, reply)
                    && opt_string_view(r) == reply_text(reply),
    {
        self.get_str(RETRO_ENVIRONMENT_GET_SAVE_DIRECTORY)
    }

    /// Queries the path of the system directory.
    pub fn get_system_directory(&self) -> (r: Option<String>)
        requires
            self.wf(),
        ensures
            exists|reply: EnvReply|
                self.replies(RETRO_ENVIRONMENT_GET_SYSTEM_DIRECTORY, EnvPayload::StringSlot, reply)
                    && opt_string_view(r) == reply_text(reply),
    {
        self.get_str(RETRO_ENVIRONMENT_GET_SYSTEM_DIRECTORY)
    }

    /// Queries the name of the frontend's user.
    pub fn get_username(&self) -> (r: Option<String>)
        requires
            self.wf(),
        ensures
            exists|reply: EnvReply|
                self.replies(RETRO_ENVIRONMENT_GET_USERNAME, EnvPayload::StringSlot, reply)
                    && opt_string_view(r) == reply_text(reply),
    {
        self.get_str(RETRO_ENVIRONMENT_GET_USERNAME)
    }
}


/// A string query that the frontend answers with a null pointer yields no string, whatever it
/// answered otherwise.
pub proof fn lemma_null_string_is_absent(reply: EnvReply)
    requires
        reply.text.is_none(),
    ensures
        reply_text(reply).is_none(),
{
}

} // verus!
