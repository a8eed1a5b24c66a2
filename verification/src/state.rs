use vstd::prelude::*;
use crate::json::{json_object_text, json_string_member, json_object_with_string, json_string_member_of};
use vstd::string::StringSliceAdditionalSpecFns;
use vstd::utf8::encode_utf8;

verus! {

/// The member of the state file that holds the last video's URL.
pub const LAST_URL_KEY: &'static str = "last_url";

/// The state directory below the home directory on macOS.
pub const MACOS_STATE_DIR: &'static str = "Library/Application Support/YouTube Player";

/// The state directory below the home directory elsewhere.
pub const OTHER_STATE_DIR: &'static str = ".config/youtube-player";

/// The name of the state file in its directory.
pub const STATE_FILE_NAME: &'static str = "state.json";

/// The path separator byte.
pub const SEPARATOR: u8 = 0x2f;

/// `base` extended by `rel`, as `PathBuf::push` does it on Unix, where a
/// path is a string of bytes and `/` its only separator: an absolute
/// `rel` replaces `base`; otherwise a separator is put between the two
/// unless `base` is empty or already ends with one.
pub open spec fn join_path(base: Seq<u8>, rel: Seq<u8>) -> Seq<u8> {
    if rel.len() > 0 && rel[0] == SEPARATOR {
        rel
    } else if base.len() == 0 || base.last() == SEPARATOR {
        base + rel
    } else {
        base + seq![SEPARATOR] + rel
    }
}

/// The state directory's path relative to the home directory.
pub open spec fn relative_state_dir(macos: bool) -> Seq<char> {
    if macos {
        MACOS_STATE_DIR@
    } else {
        OTHER_STATE_DIR@
    }
}

/// The directory that holds the state file, below `home`.
pub open spec fn state_dir_path(home: Seq<u8>, macos: bool) -> Seq<u8> {
    join_path(home, if macos { MACOS_STATE_DIR.spec_bytes() } else { OTHER_STATE_DIR.spec_bytes() })
}

/// The state file's path, below `home`.
pub open spec fn state_file_path(home: Seq<u8>, macos: bool) -> Seq<u8> {
    join_path(state_dir_path(home, macos), STATE_FILE_NAME.spec_bytes())
}

/// The URL that a member read from the state file stands for: an empty one
/// stands for none.
pub open spec fn saved_url(member: Option<Seq<char>>) -> Option<Seq<char>> {
    match member {
        Some(url) => if url.len() > 0 { Some(url) } else { None },
        None => None,
    }
}

/// The URL that the state file with the contents `contents` remembers.
pub open spec fn remembered_url(contents: Seq<char>) -> Option<Seq<char>> {
    saved_url(json_string_member(contents, LAST_URL_KEY@))
}

/// The state directory's path relative to the home directory: under
/// `Library/Application Support` on macOS, under `.config` elsewhere.
pub fn state_dir_below_home(macos: bool) -> (res: &'static str)
    ensures
        res@ == relative_state_dir(macos),
{
    if macos {
        MACOS_STATE_DIR
    } else {
        OTHER_STATE_DIR
    }
}

/// `base` extended by `rel` (see `join_path`).
pub fn join(base: &[u8], rel: &[u8]) -> (res: Vec<u8>)
    ensures
        res@ == join_path(base@, rel@),
{
    if rel.len() > 0 && rel[0] == SEPARATOR {
        return vstd::slice::slice_to_vec(rel);
    }
    let mut res = vstd::slice::slice_to_vec(base);
    if !(base.len() == 0 || base[base.len() - 1] == SEPARATOR) {
        res.push(SEPARATOR);
    }
    let ghost start = res@;
    let mut i: usize = 0;
    while i < rel.len()
        invariant
            i <= rel@.len(),
            res@ == start + rel@.take(i as int),
        decreases rel@.len() - i,
    {
        res.push(rel[i]);
        i = i + 1;
        assert(res@ =~= start + rel@.take(i as int));
    }
    assert(rel@.take(rel@.len() as int) =~= rel@);
    res
}

/// The directory of the state file, below the home directory `home`, as a
/// Unix path of bytes; `None` where no home directory is known.
pub fn state_dir(home: Option<&[u8]>, macos: bool) -> (res: Option<Vec<u8>>)
    ensures
        match home {
            Some(h) => res matches Some(p) && p@ == state_dir_path(h@, macos),
            None => res is None,
        },
{
    match home {
        Some(h) => {
            let rel = state_dir_below_home(macos).as_bytes();
            Some(join(h, rel))
        },
        None => None,
    }
}

/// Where the last-played URL is remembered between launches, below the home
/// directory `home`, as a Unix path of bytes; `None` where no home directory
/// is known. The file
/// stands in the directory that `state_dir` gives.
pub fn state_file(home: Option<&[u8]>, macos: bool) -> (res: Option<Vec<u8>>)
    ensures
        match home {
            Some(h) => res matches Some(p) && p@ == state_file_path(h@, macos),
            None => res is None,
        },
{
    match state_dir(home, macos) {
        Some(dir) => Some(join(dir.as_slice(), STATE_FILE_NAME.as_bytes())),
        None => None,
    }
}

/// The contents written to the state file to remember `url`: the JSON object
/// whose `last_url` member is `url`.
pub fn state_file_contents(url: &str) -> (res: String)
    ensures
        res@ == json_object_text(LAST_URL_KEY@, url@),
{
    json_object_with_string(LAST_URL_KEY, url)
}

/// The URL that the `last_url` member `member`, as read from the state file,
/// stands for: the member itself unless it is empty.
pub fn url_from_member(member: Option<String>) -> (res: Option<String>)
    ensures
        res.deep_view() == saved_url(member.deep_view()),
{
    match member {
        Some(url) => if url.as_str().unicode_len() > 0 {
            Some(url)
        } else {
            None
        },
        None => None,
    }
}

/// The URL that the state file with the contents `contents` remembers: its
/// `last_url` member, where the contents parse as a JSON object with a
/// non-empty string there, and `None` otherwise. Contents written by
/// `state_file_contents` for a URL give that URL back, unless it is empty.
pub fn read_last_url(contents: &str) -> (res: Option<String>)
    ensures
        res.deep_view() == remembered_url(contents@),
        forall|url: Seq<char>|
            contents@ == #[trigger] json_object_text(LAST_URL_KEY@, url) ==> res.deep_view() == (
            if url.len() > 0 {
                Some(url)
            } else {
                None
            }),
{
    let member = json_string_member_of(contents, LAST_URL_KEY);
    url_from_member(member)
}

/// The URL that the player opens at launch: the one given on the command
/// line where there is one, else the remembered one, else the empty string.
pub fn initial_url(argument: Option<String>, remembered: Option<String>) -> (res: String)
    ensures
        res@ == match argument {
            Some(a) => a@,
            None => match remembered {
                Some(r) => r@,
                None => Seq::<char>::empty(),
            },
        },
{
    match argument {
        Some(a) => a,
        None => match remembered {
            Some(r) => r,
            None => String::new(),
        },
    }
}

/// The state file stands in the state directory, and the state directory is
/// the platform's directory (`relative_state_dir`) below the home directory:
/// the directory that is created is the one the file is written into.
pub proof fn lemma_state_file_in_state_dir(home: Seq<u8>, macos: bool)
    ensures
        state_dir_path(home, macos) == join_path(home, encode_utf8(relative_state_dir(macos))),
        state_file_path(home, macos) == join_path(
            state_dir_path(home, macos),
            encode_utf8(STATE_FILE_NAME@),
        ),
{
}

} // verus!
