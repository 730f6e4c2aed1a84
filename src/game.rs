//! The game descriptor that the frontend passes to `load_game`, and its typed form.
use crate::text::{opt_str_view, text_of_bytes, utf8_str};
use vstd::prelude::*;

verus! {

/// The game record of the frontend with its pointers read: a null pointer is `None`, the data
/// pointer is read together with its size, and the path has been read as text.
#[derive(Clone, Copy, Debug)]
pub struct GameInfo<'a> {
    /// The full path of the game file.
    pub path: Option<&'a str>,
    /// The whole content of the game.
    pub data: Option<&'a [u8]>,
    /// Bytes, without the terminating NUL, of implementation-specific metadata.
    pub meta: Option<&'a [u8]>,
}

/// The ways that a frontend can pass a game to a core.
#[derive(Clone, Copy, Debug)]
pub enum Game<'a> {
    /// No game was selected; used when the core supports running without one.
    NoGame { meta: Option<&'a str> },
    /// The game's content, for cores that do not need paths.
    Data { meta: Option<&'a str>, data: &'a [u8] },
    /// The absolute path of the game, for cores that need paths.
    Path { meta: Option<&'a str>, path: &'a str },
}

/// The metadata text of the record: absent when the pointer was null or the bytes are not UTF-8.
pub open spec fn meta_text(info: GameInfo) -> Option<Seq<char>> {
    match info.meta {
        Some(bytes) => text_of_bytes(bytes@),
        None => None,
    }
}

impl<'a> Game<'a> {
    /// The metadata carried by any shape.
    pub open spec fn meta(self) -> Option<&'a str> {
        match self {
            Game::NoGame { meta } => meta,
            Game::Data { meta, .. } => meta,
            Game::Path { meta, .. } => meta,
        }
    }

    /// This descriptor is the reading of `info`, as `from_option` makes it: no record gives no
    /// game without metadata; otherwise the metadata is the record's text, data gives `Data`,
    /// a path alone gives `Path`, and neither gives `NoGame`.
    pub open spec fn describes(self, info: Option<&GameInfo<'a>>) -> bool {
        match info {
            None => self is NoGame && self.meta().is_none(),
            Some(i) => {
                &&& opt_str_view(self.meta()) == meta_text(*i)
                &&& (i.path.is_none() && i.data.is_none() ==> self is NoGame)
                &&& (i.data.is_some() ==> self is Data && self->Data_data == i.data.unwrap())
                &&& (i.path.is_some() && i.data.is_none() ==> self is Path && self->Path_path
                    == i.path.unwrap())
            },
        }
    }

    /// Reads the record: no data and no path give `NoGame`, data gives `Data` (a path beside it
    /// is not used), a path alone gives `Path`.
    pub fn from_info(info: &GameInfo<'a>) -> (r: Self)
        ensures
            opt_str_view(r.meta()) == meta_text(*info),
            info.path.is_none() && info.data.is_none() ==> r is NoGame,
            info.data.is_some() ==> r is Data && r->Data_data == info.data.unwrap(),
            info.path.is_some() && info.data.is_none() ==> r is Path && r->Path_path
                == info.path.unwrap(),
            r.describes(Some(info)),
    {
        let meta = match info.meta {
            Some(bytes) => utf8_str(bytes),
            None => None,
        };
        match info.data {
            Some(data) => Game::Data { meta, data },
            None => match info.path {
                Some(path) => Game::Path { meta, path },
                None => Game::NoGame { meta },
            },
        }
    }

    /// The descriptor of an optional record: no record means no game and no metadata.
    pub fn from_option(info: Option<&GameInfo<'a>>) -> (r: Self)
        ensures
            info.is_none() ==> r is NoGame && r.meta().is_none(),
            info matches Some(i) ==> opt_str_view(r.meta()) == meta_text(*i),
            info matches Some(i) ==> (i.path.is_none() && i.data.is_none() ==> r is NoGame),
            info matches Some(i) ==> (i.data.is_some() ==> r is Data && r->Data_data
                == i.data.unwrap()),
            info matches Some(i) ==> (i.path.is_some() && i.data.is_none() ==> r is Path
                && r->Path_path == i.path.unwrap()),
            r.describes(info),
    {
        match info {
            Some(i) => Self::from_info(i),
            None => Game::NoGame { meta: None },
        }
    }
}

impl<'a> Default for Game<'a> {
    fn default() -> (r: Self)
        ensures
            r is NoGame && r.meta().is_none(),
    {
        Game::NoGame { meta: None }
    }
}

/// Alternative name of [`Game`].
pub type RetroGame<'a> = Game<'a>;

} // verus!
