use std::cell::RefCell;
use std::rc::Rc;

use libretro_rs::environment::{
    RETRO_ENVIRONMENT_GET_CORE_ASSETS_DIRECTORY, RETRO_ENVIRONMENT_GET_LIBRETRO_PATH,
    RETRO_ENVIRONMENT_GET_SAVE_DIRECTORY, RETRO_ENVIRONMENT_GET_SYSTEM_DIRECTORY,
    RETRO_ENVIRONMENT_GET_USERNAME, RETRO_ENVIRONMENT_SET_PIXEL_FORMAT,
    RETRO_ENVIRONMENT_SET_SUPPORT_NO_GAME, RETRO_ENVIRONMENT_SHUTDOWN,
};
use libretro_rs::{EnvPayload, EnvReply, PixelFormat, RetroEnvironment};

type Log = Rc<RefCell<Vec<(u32, EnvPayload)>>>;

/// A frontend that records each call and answers with `accepted` and, for string queries,
/// with `text`.
fn recording_host(
    accepted: bool,
    text: Option<Vec<u8>>,
) -> (Log, impl Fn(u32, EnvPayload) -> EnvReply) {
    let log: Log = Rc::new(RefCell::new(Vec::new()));
    let seen = log.clone();
    let cb = move |key: u32, payload: EnvPayload| {
        seen.borrow_mut().push((key, payload));
        let text = match payload {
            EnvPayload::StringSlot => text.clone(),
            _ => None,
        };
        EnvReply { accepted, text }
    };
    (log, cb)
}

#[test]
fn shutdown_sends_the_command_without_payload() {
    let (log, cb) = recording_host(false, None);
    let env = RetroEnvironment::new(cb);
    assert!(!env.shutdown());
    assert_eq!(*log.borrow(), vec![(RETRO_ENVIRONMENT_SHUTDOWN, EnvPayload::Empty)]);
}

#[test]
fn pixel_format_is_sent_as_its_code() {
    let (log, cb) = recording_host(true, None);
    let env = RetroEnvironment::new(cb);
    assert!(env.set_pixel_format(PixelFormat::RGB565));
    assert!(env.set_pixel_format(PixelFormat::XRGB8888));
    assert_eq!(
        *log.borrow(),
        vec![
            (RETRO_ENVIRONMENT_SET_PIXEL_FORMAT, EnvPayload::U32(2)),
            (RETRO_ENVIRONMENT_SET_PIXEL_FORMAT, EnvPayload::U32(1)),
        ]
    );
}

#[test]
fn support_no_game_is_sent_as_a_boolean() {
    let (log, cb) = recording_host(true, None);
    let env = RetroEnvironment::new(cb);
    assert!(env.set_support_no_game(true));
    assert_eq!(*log.borrow(), vec![(RETRO_ENVIRONMENT_SET_SUPPORT_NO_GAME, EnvPayload::Bool(true))]);
}

#[test]
fn raw_operations_pass_key_and_value() {
    let (log, cb) = recording_host(true, None);
    let env = RetroEnvironment::new(cb);
    assert!(env.cmd_raw(99));
    assert!(env.set_bool(100, false));
    assert!(env.set_u32(101, 7));
    assert_eq!(
        *log.borrow(),
        vec![(99, EnvPayload::Empty), (100, EnvPayload::Bool(false)), (101, EnvPayload::U32(7))]
    );
}

#[test]
fn string_queries_use_their_selectors() {
    let (log, cb) = recording_host(true, Some(b"/home/user".to_vec()));
    let env = RetroEnvironment::new(cb);
    assert_eq!(env.get_libretro_path().as_deref(), Some("/home/user"));
    assert_eq!(env.get_core_assets_directory().as_deref(), Some("/home/user"));
    assert_eq!(env.get_save_directory().as_deref(), Some("/home/user"));
    assert_eq!(env.get_system_directory().as_deref(), Some("/home/user"));
    assert_eq!(env.get_username().as_deref(), Some("/home/user"));
    let keys: Vec<u32> = log.borrow().iter().map(|(k, _)| *k).collect();
    assert_eq!(
        keys,
        vec![
            RETRO_ENVIRONMENT_GET_LIBRETRO_PATH,
            RETRO_ENVIRONMENT_GET_CORE_ASSETS_DIRECTORY,
            RETRO_ENVIRONMENT_GET_SAVE_DIRECTORY,
            RETRO_ENVIRONMENT_GET_SYSTEM_DIRECTORY,
            RETRO_ENVIRONMENT_GET_USERNAME,
        ]
    );
    assert!(log.borrow().iter().all(|(_, p)| *p == EnvPayload::StringSlot));
}

#[test]
fn null_string_pointer_gives_none() {
    let (_, cb) = recording_host(true, None);
    let env = RetroEnvironment::new(cb);
    assert_eq!(env.get_save_directory(), None);
    assert_eq!(env.get_str(RETRO_ENVIRONMENT_GET_USERNAME), None);
}

#[test]
fn declined_string_query_gives_none() {
    let (_, cb) = recording_host(false, Some(b"ignored".to_vec()));
    let env = RetroEnvironment::new(cb);
    assert_eq!(env.get_username(), None);
}

#[test]
fn invalid_utf8_string_gives_none() {
    let (_, cb) = recording_host(true, Some(vec![0x66, 0x6f, 0xff]));
    let env = RetroEnvironment::new(cb);
    assert_eq!(env.get_system_directory(), None);
}

#[test]
fn reply_text_decodes_utf8() {
    let reply = EnvReply { accepted: true, text: Some("sauvegardé".as_bytes().to_vec()) };
    assert_eq!(reply.into_text().as_deref(), Some("sauvegardé"));
    let empty = EnvReply { accepted: true, text: Some(Vec::new()) };
    assert_eq!(empty.into_text().as_deref(), Some(""));
    let null = EnvReply { accepted: true, text: None };
    assert_eq!(null.into_text(), None);
}
