//! Static description of a core: its name, version and the game files it accepts.
use crate::text::opt_string_view;
use vstd::prelude::*;

verus! {

/// The texts of `parts` joined with `|` between neighbours.
pub open spec fn joined_with_bar(parts: Seq<Seq<char>>) -> Seq<char>
    decreases parts.len(),
{
    if parts.len() == 0 {
        Seq::empty()
    } else if parts.len() == 1 {
        parts[0]
    } else {
        joined_with_bar(parts.drop_last()) + seq!['|'] + parts.last()
    }
}

/// The characters of each string slice.
pub open spec fn str_views(parts: Seq<&str>) -> Seq<Seq<char>> {
    parts.map_values(|s: &str| s@)
}

/// Information about a core that a frontend shows or uses to build paths.
#[derive(Debug)]
pub struct RetroSystemInfo {
    pub name: String,
    pub version: String,
    /// The accepted file extensions, separated by `|`; `None` when no list was given.
    pub valid_extensions: Option<String>,
    pub block_extract: bool,
    pub need_full_path: bool,
}

impl RetroSystemInfo {
    pub fn new(name: &str, version: &str) -> (r: Self)
        ensures
            r.name@ == name@,
            r.version@ == version@,
            r.valid_extensions.is_none(),
            !r.block_extract,
            !r.need_full_path,
    {
        RetroSystemInfo {
            name: name.to_owned(),
            version: version.to_owned(),
            valid_extensions: None,
            block_extract: false,
            need_full_path: false,
        }
    }

    /// Sets the accepted file extensions; an empty list means none is declared.
    pub fn with_valid_extensions(self, extensions: &[&str]) -> (r: Self)
        ensures
            r.name == self.name,
            r.version == self.version,
            r.block_extract == self.block_extract,
            r.need_full_path == self.need_full_path,
            extensions@.len() == 0 ==> r.valid_extensions.is_none(),
            extensions@.len() > 0 ==> opt_string_view(r.valid_extensions) == Some(
                joined_with_bar(str_views(extensions@)),
            ),
    {
        let valid_extensions = if extensions.len() == 0 {
            None
        } else {
            Some(join_with_bar(extensions))
        };
        RetroSystemInfo {
            name: self.name,
            version: self.version,
            valid_extensions,
            block_extract: self.block_extract,
            need_full_path: self.need_full_path,
        }
    }

    pub fn with_block_extract(self) -> (r: Self)
        ensures
            r.name == self.name,
            r.version == self.version,
            r.valid_extensions == self.valid_extensions,
            r.block_extract,
            r.need_full_path == self.need_full_path,
    {
        RetroSystemInfo { block_extract: true, ..self }
    }

    pub fn with_need_full_path(self) -> (r: Self)
        ensures
            r.name == self.name,
            r.version == self.version,
            r.valid_extensions == self.valid_extensions,
            r.block_extract == self.block_extract,
            r.need_full_path,
    {
        RetroSystemInfo { need_full_path: true, ..self }
    }
}

/// Joins the parts with `|` between neighbours.
fn join_with_bar(parts: &[&str]) -> (r: String)
    ensures
        r@ == joined_with_bar(str_views(parts@)),
{
    let mut out = String::new();
    let mut i: usize = 0;
    proof {
        reveal_strlit("|");
        assert(str_views(parts@).take(0) =~= Seq::<Seq<char>>::empty());
    }
    while i < parts.len()
        invariant
            i <= parts@.len(),
            out@ == joined_with_bar(str_views(parts@).take(i as int)),
        decreases parts@.len() - i,
    {
        let ghost views = str_views(parts@);
        let ghost before = out@;
        if i > 0 {
            out.append("|");
        }
        out.append(parts[i]);
        proof {
            reveal_strlit("|");
            let next = views.take(i + 1);
            assert(next.drop_last() =~= views.take(i as int));
            assert(next.last() == parts@[i as int]@);
            if i == 0 {
                assert(next =~= seq![parts@[0]@]);
            }
            assert(out@ =~= joined_with_bar(next));
        }
        i += 1;
    }
    proof {
        assert(str_views(parts@).take(parts@.len() as int) =~= str_views(parts@));
    }
    out
}

} // verus!
