//! Track identifiers: the numeric stems of audio file names, and the paths and
//! lookup addresses derived from them.
use vstd::prelude::*;

verus! {

/// An ASCII decimal digit.
pub open spec fn is_digit(c: char) -> bool {
    '0' <= c && c <= '9'
}

/// A track identifier is a non-empty string of decimal digits.
pub open spec fn is_track_id(s: Seq<char>) -> bool {
    s.len() > 0 && forall|i: int| 0 <= i < s.len() ==> is_digit(#[trigger] s[i])
}

/// The extension, dot included, of every audio file this tool handles.
pub open spec fn audio_ext() -> Seq<char> {
    seq!['.', 'm', 'p', '3']
}

/// A file name of the form `<digits>.mp3` (the extension is case-sensitive).
pub open spec fn is_track_file_name(name: Seq<char>) -> bool {
    name.len() > 4 && is_track_id(stem_of(name)) && name.subrange(
        name.len() - 4,
        name.len() as int,
    ) == audio_ext()
}

/// The file name with its four-character extension removed.
pub open spec fn stem_of(name: Seq<char>) -> Seq<char> {
    name.subrange(0, name.len() - 4)
}

/// The address of the lookup service's page for a track.
pub open spec fn lookup_url_prefix() -> Seq<char> {
    seq![
        'h', 't', 't', 'p', 's', ':', '/', '/', 'w', 'w', 'w', '.', 'n', 'e', 'w', 'g', 'r', 'o',
        'u', 'n', 'd', 's', '.', 'c', 'o', 'm', '/', 'a', 'u', 'd', 'i', 'o', '/', 'l', 'i', 's',
        't', 'e', 'n', '/',
    ]
}

/// `base` joined with `name` as a path: a separator is put between them unless
/// `base` is empty or already ends with one.
pub open spec fn join_path(base: Seq<char>, name: Seq<char>) -> Seq<char> {
    if base.len() == 0 || base.last() == '/' {
        base + name
    } else {
        base + seq!['/'] + name
    }
}

/// The path of the audio file of track `id` in directory `base`.
pub open spec fn track_path(base: Seq<char>, id: Seq<char>) -> Seq<char> {
    join_path(base, id) + audio_ext()
}

/// Error detail for a failure that has no more specific classification.
#[derive(Debug)]
pub struct OtherError {
    pub message: String,
}

/// Wraps a message into an error of the unclassified kind.
pub fn make_io_err(text: &str) -> (r: OtherError)
    ensures
        r.message@ == text@,
{
    OtherError { message: String::from_str(text) }
}

/// Whether `s` is a valid track identifier.
pub fn is_track_id_str(s: &str) -> (r: bool)
    ensures
        r == is_track_id(s@),
{
    let n = s.unicode_len();
    if n == 0 {
        return false;
    }
    let mut i: usize = 0;
    while i < n
        invariant
            n == s@.len(),
            i <= n,
            forall|j: int| 0 <= j < i ==> is_digit(#[trigger] s@[j]),
        decreases n - i,
    {
        let c = s.get_char(i);
        if !('0' <= c && c <= '9') {
            return false;
        }
        i = i + 1;
    }
    true
}

/// The track identifier of a file name, if the name follows the
/// `<digits>.mp3` convention.
pub fn track_stem(name: &str) -> (r: Option<String>)
    ensures
        r.is_some() == is_track_file_name(name@),
        r.is_some() ==> r.unwrap()@ == stem_of(name@),
{
    let n = name.unicode_len();
    if n <= 4 {
        return None;
    }
    if !(name.get_char(n - 4) == '.' && name.get_char(n - 3) == 'm' && name.get_char(n - 2) == 'p'
        && name.get_char(n - 1) == '3') {
        proof {
            let ext = name@.subrange(n - 4, n as int);
            if ext == audio_ext() {
                assert(ext[0] == name@[n - 4]);
                assert(ext[1] == name@[n - 3]);
                assert(ext[2] == name@[n - 2]);
                assert(ext[3] == name@[n - 1]);
            }
        }
        return None;
    }
    assert(name@.subrange(n - 4, n as int) =~= audio_ext());
    let stem = name.substring_char(0, n - 4);
    if is_track_id_str(stem) {
        Some(String::from_str(stem))
    } else {
        None
    }
}

/// The path of the audio file of track `id` in directory `base_path`, as
/// `Path::push` followed by `Path::set_extension` would form it.
pub fn make_path_from_id(base_path: &str, id: &str) -> (r: String)
    requires
        is_track_id(id@),
    ensures
        r@ == track_path(base_path@, id@),
{
    proof {
        reveal_strlit("/");
        reveal_strlit(".mp3");
    }
    let mut p = String::from_str(base_path);
    let n = base_path.unicode_len();
    if n > 0 && base_path.get_char(n - 1) != '/' {
        p.append("/");
    }
    p.append(id);
    p.append(".mp3");
    assert(".mp3"@ =~= audio_ext());
    assert(p@ =~= track_path(base_path@, id@));
    p
}

/// The address at which the lookup service describes track `id`.
pub fn lookup_url(id: &str) -> (r: String)
    ensures
        r@ == lookup_url_prefix() + id@,
{
    proof {
        reveal_strlit("https://www.newgrounds.com/audio/listen/");
    }
    let p = String::from_str("https://www.newgrounds.com/audio/listen/");
    assert(p@ =~= lookup_url_prefix());
    p.concat(id)
}

} // verus!
