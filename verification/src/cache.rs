//! Where the daemon keeps its files, and when a cached file is too old.

use vstd::prelude::*;

verus! {

/// The directory that holds the daemon's files.
pub open spec fn cache_dir() -> Seq<char> {
    "/etc/protonvpn-rs"@
}

/// The directory that holds the daemon's files.
pub fn get_path() -> (path: String)
    ensures
        path@ == cache_dir(),
{
    "/etc/protonvpn-rs".to_owned()
}

/// Something that is kept in a file of its own in the cache directory.
pub trait CachedObject {
    /// The name of the file.
    spec fn spec_filename() -> Seq<char>;

    fn filename() -> (name: &'static str)
        ensures
            name@ == Self::spec_filename(),
    ;
}

/// The path of `name` seen from the directory `dir`: an absolute name
/// stands for itself, any other is appended, after a separator where `dir`
/// does not end in one.
pub open spec fn joined(dir: Seq<char>, name: Seq<char>) -> Seq<char> {
    if name.len() > 0 && name[0] == '/' {
        name
    } else if dir.len() == 0 || dir.last() == '/' {
        dir + name
    } else {
        dir + seq!['/'] + name
    }
}

/// The path of `name` seen from the directory `dir`.
pub fn join_path(dir: &str, name: &str) -> (path: String)
    ensures
        path@ == joined(dir@, name@),
{
    let name_len = name.unicode_len();
    let dir_len = dir.unicode_len();
    if name_len > 0 && name.get_char(0) == '/' {
        name.to_owned()
    } else {
        let mut path = dir.to_owned();
        if dir_len > 0 && dir.get_char(dir_len - 1) != '/' {
            proof {
                reveal_strlit("/");
                assert("/"@ =~= seq!['/']);
            }
            path.append("/");
        }
        path.append(name);
        path
    }
}

/// The path of the file that holds the `T` of this daemon.
pub fn file_path<T: CachedObject>() -> (path: String)
    ensures
        path@ == joined(cache_dir(), T::spec_filename()),
{
    join_path(get_path().as_str(), T::filename())
}

/// The seconds of a day.
pub const SECONDS_PER_DAY: u64 = 86400;

/// Whether a file that was last changed `seconds` and `nanos` ago is older
/// than `max_cache_age` days.
pub open spec fn stale(seconds: u64, nanos: u32, max_cache_age: u64) -> bool {
    seconds > max_cache_age * SECONDS_PER_DAY || (seconds == max_cache_age * SECONDS_PER_DAY
        && nanos > 0)
}

/// Whether a cached file is too old to be read. Its age is given in whole
/// seconds and the nanoseconds beyond them.
pub fn is_stale(seconds: u64, nanos: u32, max_cache_age: u64) -> (r: bool)
    ensures
        r == stale(seconds, nanos, max_cache_age),
{
    let limit: u128 = max_cache_age as u128 * 86400;
    let age: u128 = seconds as u128;
    age > limit || (age == limit && nanos > 0)
}

} // verus!
