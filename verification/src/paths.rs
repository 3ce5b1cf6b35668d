//! Paths as text: joining is the library's own, cleaning and the test for
//! absoluteness are delegated.

use vstd::prelude::*;
use vstd::string::*;
use crate::platform::Platform;
use crate::text::same;

verus! {

/// `base` extended by the component `name`: a separator is written between
/// them unless `base` is empty or already ends in one.
pub open spec fn joined(base: Seq<char>, name: Seq<char>, platform: Platform) -> Seq<char> {
    if base.len() == 0 || platform.is_separator(base.last()) {
        base + name
    } else {
        base.push(platform.separator()) + name
    }
}

/// `joined` applied twice.
pub open spec fn joined2(base: Seq<char>, a: Seq<char>, b: Seq<char>, platform: Platform) -> Seq<
    char,
> {
    joined(joined(base, a, platform), b, platform)
}

/// `joined` applied three times.
pub open spec fn joined3(
    base: Seq<char>,
    a: Seq<char>,
    b: Seq<char>,
    c: Seq<char>,
    platform: Platform,
) -> Seq<char> {
    joined(joined2(base, a, b, platform), c, platform)
}

/// Appends the component `name` to the path `base`.
pub fn join(base: &str, name: &str, platform: Platform) -> (path: String)
    ensures
        path@ == joined(base@, name@, platform),
{
    let count: usize = base.unicode_len();
    let mut path = String::from_str(base);
    if count > 0 {
        let last: char = base.get_char(count - 1);
        if !platform.separates(last) {
            match platform {
                Platform::Windows => {
                    proof {
                        reveal_strlit("\\");
                    }
                    path.append("\\");
                    assert(path@ =~= base@.push('\\'));
                },
                Platform::Linux => {
                    proof {
                        reveal_strlit("/");
                    }
                    path.append("/");
                    assert(path@ =~= base@.push('/'));
                },
            }
        }
    }
    path.append(name);
    path
}

/// The lexically cleaned form of a path, as `path_clean::clean` computes it
/// on the platform the library is built for.
pub uninterp spec fn cleaned_path(path: Seq<char>) -> Seq<char>;

/// Calls `path_clean::clean`, which removes `.` components, resolves `..`
/// against the component before it and collapses repeated separators,
/// without touching the filesystem. The contract only names the result.
#[verifier::external_body]
pub(crate) fn clean(path: &str) -> (cleaned: String)
    ensures
        cleaned@ == cleaned_path(path@),
{
    path_clean::clean(path).to_string_lossy().into_owned()
}

/// Whether a path is absolute, as `std::path::Path::is_absolute` decides it
/// on the platform the library is built for.
pub uninterp spec fn path_is_absolute(path: Seq<char>) -> bool;

/// Calls `std::path::Path::is_absolute`. The contract only names the result.
#[verifier::external_body]
pub(crate) fn is_absolute(path: &str) -> (absolute: bool)
    ensures
        absolute == path_is_absolute(path@),
{
    std::path::Path::new(path).is_absolute()
}

/// A path fit to be an install root: absolute, and left as it is by
/// cleaning.
pub open spec fn rooted(path: Seq<char>) -> bool {
    path_is_absolute(path) && cleaned_path(path) == path
}

/// Tests whether `path` is fit to be an install root.
pub fn is_rooted(path: &str) -> (yes: bool)
    ensures
        yes == rooted(path@),
{
    if !is_absolute(path) {
        return false;
    }
    let cleaned = clean(path);
    same(cleaned.as_str(), path)
}

/// The path that `path` denotes from `current_dir`: itself when it is
/// absolute, else `current_dir` extended by it.
pub open spec fn anchored(
    path: Seq<char>,
    absolute: bool,
    current_dir: Seq<char>,
    platform: Platform,
) -> Seq<char> {
    if absolute {
        path
    } else {
        joined(current_dir, path, platform)
    }
}

/// Anchors `path` at `current_dir` unless `absolute` says it needs none.
pub fn anchor(path: &str, absolute: bool, current_dir: &str, platform: Platform) -> (full: String)
    ensures
        full@ == anchored(path@, absolute, current_dir@, platform),
{
    if absolute {
        String::from_str(path)
    } else {
        join(current_dir, path, platform)
    }
}

/// The install root a path argument stands for: anchored at `current_dir`,
/// then cleaned.
pub open spec fn resolved(path: Seq<char>, current_dir: Seq<char>, platform: Platform) -> Seq<
    char,
> {
    cleaned_path(anchored(path, path_is_absolute(path), current_dir, platform))
}

/// Makes `path` absolute against `current_dir` and cleans it.
pub fn resolve(path: &str, current_dir: &str, platform: Platform) -> (root: String)
    ensures
        root@ == resolved(path@, current_dir@, platform),
{
    let absolute = is_absolute(path);
    let full = anchor(path, absolute, current_dir, platform);
    clean(full.as_str())
}

} // verus!
