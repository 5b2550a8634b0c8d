//! The host: everything the library asks of the machine it runs on.
//!
//! None of the contracts in this file is proved: each states what is taken
//! on trust of a function of the standard library or of another crate.
//!
//! Paths are held as strings, so a path that is not valid UTF-8 is not
//! carried faithfully. What the standard library computes from the text of a
//! path alone, on the platform the library is built for, gets a name here,
//! so that contracts can speak of it. What depends on the disk, the
//! environment, the clock or chance is handed back with no more promised
//! than holds of every answer, the shape of an identifier or of a
//! timestamp, and the callers are verified for every answer.

use vstd::prelude::*;

verus! {

/// What `std::path::Path::is_absolute` answers for the path written `p`.
pub uninterp spec fn path_is_absolute(p: Seq<char>) -> bool;

/// What `std::path::Path::join` gives for the path written `base` and the
/// path written `p`.
pub uninterp spec fn joined_path(base: Seq<char>, p: Seq<char>) -> Seq<char>;

/// What `std::path::Path::parent` gives for the path written `p`.
pub uninterp spec fn parent_path(p: Seq<char>) -> Option<Seq<char>>;

/// `std::path::Path::is_absolute`: whether the path stands on its own,
/// whatever the current directory. The answer is a function of the path's
/// text, named `path_is_absolute`.
#[verifier::external_body]
pub(crate) fn path_absolute(p: &str) -> (r: bool)
    ensures
        r == path_is_absolute(p@),
{
    std::path::Path::new(p).is_absolute()
}

/// `std::path::Path::join`: `p` adjoined to `base`. The result is a function
/// of the two texts, named `joined_path`.
#[verifier::external_body]
pub(crate) fn path_join(base: &str, p: &str) -> (r: String)
    ensures
        r@ == joined_path(base@, p@),
{
    std::path::Path::new(base).join(p).to_string_lossy().into_owned()
}

/// `std::path::Path::parent`: the path without its last component, or
/// nothing where it ends in a root or is empty. The result is a function of
/// the path's text, named `parent_path`.
#[verifier::external_body]
pub(crate) fn path_parent(p: &str) -> (r: Option<String>)
    ensures
        match r {
            Some(q) => parent_path(p@) == Some(q@),
            None => parent_path(p@).is_none(),
        },
{
    std::path::Path::new(p).parent().map(|q| q.to_string_lossy().into_owned())
}

/// `std::path::Path::is_file`: whether the path leads to a regular file.
/// Nothing is promised of the answer.
#[verifier::external_body]
pub(crate) fn path_is_file(p: &str) -> (found: bool) {
    std::path::Path::new(p).is_file()
}

/// `std::path::Path::is_dir`: whether the path leads to a directory.
/// Nothing is promised of the answer.
#[verifier::external_body]
pub(crate) fn path_is_dir(p: &str) -> (found: bool) {
    std::path::Path::new(p).is_dir()
}

/// `std::path::Path::canonicalize`: the path with every symbolic link
/// resolved, or nothing where that fails. Nothing is promised of the answer.
#[verifier::external_body]
pub(crate) fn path_canonical(p: &str) -> (resolved: Option<String>) {
    std::path::Path::new(p).canonicalize().ok().map(|q| q.to_string_lossy().into_owned())
}

/// `dirs::home_dir`: the home directory of the current user, or nothing
/// where none can be determined. Nothing is promised of the answer.
#[verifier::external_body]
pub(crate) fn home_dir() -> (home: Option<String>) {
    dirs::home_dir().map(|h| h.to_string_lossy().into_owned())
}

/// `which::which`: the executable of this name on the search path, or
/// nothing where there is none. Nothing is promised of the answer.
#[verifier::external_body]
pub(crate) fn which(name: &str) -> (found: Option<String>) {
    which::which(name).ok().map(|p| p.to_string_lossy().into_owned())
}

/// Whether `c` is a hexadecimal digit in lower case.
pub open spec fn is_lower_hex(c: char) -> bool {
    ('0' <= c && c <= '9') || ('a' <= c && c <= 'f')
}

/// Whether `s` has the shape of a random identifier written out: 36
/// characters, a hyphen as the ninth, the fourteenth, the nineteenth and the
/// twenty-fourth, hexadecimal digits in lower case elsewhere, of which the
/// fifteenth character is the version, `4`, and the twentieth holds the
/// variant, so that it is one of `8`, `9`, `a` and `b`.
pub open spec fn uuid_shaped(s: Seq<char>) -> bool {
    &&& s.len() == 36
    &&& forall|i: int|
        #![trigger s[i]]
        0 <= i < 36 ==> if i == 8 || i == 13 || i == 18 || i == 23 {
            s[i] == '-'
        } else {
            is_lower_hex(s[i])
        }
    &&& s[14] == '4'
    &&& (s[19] == '8' || s[19] == '9' || s[19] == 'a' || s[19] == 'b')
}

/// Whether `s` ends with `tail`.
pub open spec fn ends_with(s: Seq<char>, tail: Seq<char>) -> bool {
    tail.len() <= s.len() && s.subrange(s.len() - tail.len(), s.len() as int) == tail
}

/// Whether `s` has what every timestamp in UTC has as it is written out
/// here: a `T`, which stands between the date and the time, and the offset
/// `+00:00` at its end.
pub open spec fn utc_stamped(s: Seq<char>) -> bool {
    ends_with(s, "+00:00"@) && s.contains('T')
}

/// `uuid::Uuid::new_v4`, written out as text by `to_string`: a fresh random
/// identifier. Which identifier it is depends on chance; taken on trust is
/// its shape, `uuid_shaped`: the crate sets the version to 4 and the variant
/// bits to `10`, and writes the sixteen bytes in lower-case hexadecimal
/// digits with hyphens behind the fourth, sixth, eighth and tenth byte. The
/// call does not return where the operating system gives no randomness.
#[verifier::external_body]
pub(crate) fn new_uuid() -> (id: String)
    ensures
        uuid_shaped(id@),
{
    uuid::Uuid::new_v4().to_string()
}

/// `rand::random`: a byte drawn at random. Nothing is promised of the
/// answer. The call does not return where the operating system gives no
/// randomness.
#[verifier::external_body]
pub(crate) fn random_byte() -> (byte: u8) {
    rand::random::<u8>()
}

} // verus!
