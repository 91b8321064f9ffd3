//! Platform-aware filesystem locations shared across widgets.

use vstd::prelude::*;
use vstd::string::{StrSliceExecFns, StringExecFns};

use crate::text::{chars_of, joined, push_text, str_opt, text_opt, texts};

verus! {

/// The two families of platforms that the application tells apart.
#[derive(Debug, Clone, Copy, PartialEq, Eq, Structural)]
pub enum Platform {
    Unix,
    Windows,
}

/// The character between a directory and a name in it.
pub open spec fn separator(platform: Platform) -> char {
    match platform {
        Platform::Unix => '/',
        Platform::Windows => '\\',
    }
}

/// Whether `c` separates directories.
pub open spec fn is_separator(platform: Platform, c: char) -> bool {
    c == '/' || (platform == Platform::Windows && c == '\\')
}

/// Whether a path begins with a separator.
pub open spec fn is_rooted(platform: Platform, path: Seq<char>) -> bool {
    path.len() > 0 && is_separator(platform, path[0])
}

/// Whether a path begins with a drive: a letter and a colon.
pub open spec fn has_drive(path: Seq<char>) -> bool {
    path.len() >= 2 && is_drive_letter(path[0]) && path[1] == ':'
}

/// Whether `c` names a drive.
pub open spec fn is_drive_letter(c: char) -> bool {
    ('a' <= c && c <= 'z') || ('A' <= c && c <= 'Z')
}

/// Whether a path on windows is read as it stands: it begins with `\\?\`.
pub open spec fn is_verbatim(path: Seq<char>) -> bool {
    path.len() >= 4 && path[0] == '\\' && path[1] == '\\' && path[2] == '?' && path[3] == '\\'
}

/// Whether a path on windows begins with two separators, a dot and a separator,
/// before the name of a device.
pub open spec fn is_device(path: Seq<char>) -> bool {
    &&& path.len() >= 4
    &&& is_separator(Platform::Windows, path[0])
    &&& is_separator(Platform::Windows, path[1])
    &&& path[2] == '.'
    &&& is_separator(Platform::Windows, path[3])
}

/// Whether `c` ends a part of a path on windows. In one that is read as it
/// stands, only the backslash does.
pub open spec fn ends_part(verbatim: bool, c: char) -> bool {
    c == '\\' || (!verbatim && c == '/')
}

/// Where the part of a path that begins at `at` ends.
pub open spec fn part_end(verbatim: bool, path: Seq<char>, at: int) -> int
    decreases path.len() - at,
{
    if at >= path.len() || ends_part(verbatim, path[at]) {
        at
    } else {
        part_end(verbatim, path, at + 1)
    }
}

/// How much of a path names a share: two separators, a server, a separator and
/// the share. Zero where the path names none.
pub open spec fn share_len(path: Seq<char>) -> int {
    if is_rooted(Platform::Windows, path) && is_rooted(Platform::Windows, path.skip(1)) {
        let server = part_end(false, path, 2);
        let share = part_end(false, path, server + 1);
        if server > 2 && server < path.len() && share > server + 1 {
            share
        } else {
            0
        }
    } else {
        0
    }
}

/// Whether `UNC` and a separator stand behind `\\?\`.
pub open spec fn is_verbatim_share(path: Seq<char>) -> bool {
    &&& path.len() >= 8
    &&& path[4] == 'U'
    &&& path[5] == 'N'
    &&& path[6] == 'C'
    &&& is_separator(Platform::Windows, path[7])
}

/// Whether a drive stands behind `\\?\`, and nothing else before the next
/// separator.
pub open spec fn is_verbatim_drive(path: Seq<char>) -> bool {
    &&& path.len() >= 6
    &&& is_drive_letter(path[4])
    &&& path[5] == ':'
    &&& path.len() == 6 || is_separator(Platform::Windows, path[6])
}

/// How much of a path that is read as it stands names what it is on: after
/// `\\?\`, a share on a server behind `UNC\`, a drive, or any other name.
pub open spec fn verbatim_len(path: Seq<char>) -> int {
    if is_verbatim_share(path) {
        let server = part_end(true, path, 8);
        let share = part_end(true, path, server + 1);
        if share > server + 1 {
            share
        } else {
            server
        }
    } else if is_verbatim_drive(path) {
        6
    } else {
        part_end(true, path, 4)
    }
}

/// How much of a path names the drive, the share or the device that it is on.
/// There are none on unix.
pub open spec fn prefix_len(platform: Platform, path: Seq<char>) -> int {
    match platform {
        Platform::Unix => 0,
        Platform::Windows => if is_verbatim(path) {
            verbatim_len(path)
        } else if is_device(path) {
            part_end(false, path, 4)
        } else if has_drive(path) {
            2
        } else {
            share_len(path)
        },
    }
}

/// Whether `name` stands for itself, wherever it is looked up: on unix a path
/// from the root, on windows one with a drive, a share or a device.
pub open spec fn replaces(platform: Platform, name: Seq<char>) -> bool {
    match platform {
        Platform::Unix => is_rooted(platform, name),
        Platform::Windows => prefix_len(platform, name) > 0,
    }
}

/// The parts of a path on windows from `at` on, without the empty ones.
pub open spec fn parts(verbatim: bool, path: Seq<char>, at: int) -> Seq<Seq<char>>
    decreases path.len() - at,
    via parts_end
{
    if at >= path.len() {
        Seq::empty()
    } else {
        let end = part_end(verbatim, path, at);
        if end > at {
            seq![path.subrange(at, end)] + parts(verbatim, path, end)
        } else {
            parts(verbatim, path, at + 1)
        }
    }
}

#[via_fn]
proof fn parts_end(verbatim: bool, path: Seq<char>, at: int) {
    lemma_part_end(verbatim, path, at);
}

proof fn lemma_part_end(verbatim: bool, path: Seq<char>, at: int)
    ensures
        at <= part_end(verbatim, path, at),
        at <= path.len() ==> part_end(verbatim, path, at) <= path.len(),
    decreases path.len() - at,
{
    if at < path.len() && !ends_part(verbatim, path[at]) {
        lemma_part_end(verbatim, path, at + 1);
    }
}

/// Whether a part stands for the directory that it is in.
pub open spec fn is_here(part: Seq<char>) -> bool {
    part == seq!['.']
}

/// Whether a part stands for the directory above.
pub open spec fn is_above(part: Seq<char>) -> bool {
    part == seq!['.', '.']
}

/// The parts of the path that steps lead to: `.` leads nowhere, and `..` takes
/// the last part away, unless that is such a step itself.
pub open spec fn walked(from: Seq<Seq<char>>, steps: Seq<Seq<char>>) -> Seq<Seq<char>>
    decreases steps.len(),
{
    if steps.len() == 0 {
        from
    } else {
        let before = walked(from, steps.drop_last());
        let step = steps.last();
        if is_here(step) {
            before
        } else if is_above(step) {
            if before.len() > 0 && !is_here(before.last()) && !is_above(before.last()) {
                before.drop_last()
            } else {
                before
            }
        } else {
            before.push(step)
        }
    }
}

/// Parts one after the other, each with a backslash in front.
pub open spec fn lined_up(parts: Seq<Seq<char>>) -> Seq<char>
    decreases parts.len(),
{
    if parts.len() == 0 {
        Seq::empty()
    } else {
        lined_up(parts.drop_last()).push('\\') + parts.last()
    }
}

/// The path of `name` in a directory that is read as it stands: the steps of
/// `name` are taken from the directory, or from what it is on where `name` is a
/// path from the root.
pub open spec fn verbatim_join(dir: Seq<char>, name: Seq<char>) -> Seq<char> {
    let prefix = verbatim_len(dir);
    let rooted = is_rooted(Platform::Windows, name);
    let from = if rooted {
        Seq::empty()
    } else {
        parts(true, dir, prefix + 1)
    };
    let all = walked(from, parts(false, name, 0));
    if all.len() == 0 && (rooted || prefix < dir.len()) {
        dir.take(prefix).push('\\')
    } else {
        dir.take(prefix) + lined_up(all)
    }
}

/// The path of `name` in the directory `dir`: `name` itself where it stands for
/// itself; on windows, a path from the root keeps the drive, the share or the
/// device of `dir`, a bare drive takes no separator, and no `.` or `..` of `name`
/// is left where `dir` is read as it stands.
pub open spec fn path_join(platform: Platform, dir: Seq<char>, name: Seq<char>) -> Seq<char> {
    if replaces(platform, name) {
        name
    } else if platform is Windows && is_verbatim(dir) && name.len() > 0 {
        verbatim_join(dir, name)
    } else if is_rooted(platform, name) {
        dir.take(prefix_len(platform, dir)) + name
    } else if dir.len() == 0 || is_separator(platform, dir.last()) || (platform is Windows
        && has_drive(dir) && dir.len() == 2) {
        dir + name
    } else {
        dir.push(separator(platform)) + name
    }
}

/// Whether the character at `at`, if any, is a separator.
fn has_separator(platform: Platform, chars: &Vec<char>, at: usize) -> (r: bool)
    ensures
        r == (at < chars@.len() && is_separator(platform, chars@[at as int])),
{
    if at >= chars.len() {
        return false;
    }
    match platform {
        Platform::Unix => chars[at] == '/',
        Platform::Windows => chars[at] == '/' || chars[at] == '\\',
    }
}

/// Whether a drive stands at `at`.
fn drive_at(chars: &Vec<char>, at: usize) -> (r: bool)
    requires
        at <= chars@.len(),
    ensures
        r == has_drive(chars@.skip(at as int)),
{
    if chars.len() - at < 2 {
        return false;
    }
    let c: char = chars[at];
    (('a' <= c && c <= 'z') || ('A' <= c && c <= 'Z')) && chars[at + 1] == ':'
}

fn begins_verbatim(chars: &Vec<char>) -> (r: bool)
    ensures
        r == is_verbatim(chars@),
{
    chars.len() >= 4 && chars[0] == '\\' && chars[1] == '\\' && chars[2] == '?' && chars[3] == '\\'
}

fn find_end(verbatim: bool, chars: &Vec<char>, at: usize) -> (end: usize)
    requires
        at <= chars@.len(),
    ensures
        end == part_end(verbatim, chars@, at as int),
        at <= end <= chars@.len(),
{
    let mut i: usize = at;
    while i < chars.len() && chars[i] != '\\' && (verbatim || chars[i] != '/')
        invariant
            at <= i <= chars@.len(),
            part_end(verbatim, chars@, at as int) == part_end(verbatim, chars@, i as int),
        decreases chars@.len() - i,
    {
        i += 1;
    }
    i
}

fn share_prefix_len(chars: &Vec<char>) -> (len: usize)
    ensures
        len == share_len(chars@),
        len <= chars@.len(),
{
    let platform = Platform::Windows;
    if !has_separator(platform, chars, 0) || !has_separator(platform, chars, 1) {
        return 0;
    }
    let server: usize = find_end(false, chars, 2);
    if server <= 2 || server >= chars.len() {
        return 0;
    }
    let share: usize = find_end(false, chars, server + 1);
    if share > server + 1 {
        share
    } else {
        0
    }
}

fn verbatim_prefix_len(chars: &Vec<char>) -> (len: usize)
    requires
        is_verbatim(chars@),
    ensures
        len == verbatim_len(chars@),
        4 <= len <= chars@.len(),
{
    let windows = Platform::Windows;
    if chars.len() >= 8 && chars[4] == 'U' && chars[5] == 'N' && chars[6] == 'C' && has_separator(
        windows,
        chars,
        7,
    ) {
        let server: usize = find_end(true, chars, 8);
        if server >= chars.len() {
            return server;
        }
        let share: usize = find_end(true, chars, server + 1);
        return if share > server + 1 {
            share
        } else {
            server
        };
    }
    if drive_at(chars, 4) && (chars.len() == 6 || has_separator(windows, chars, 6)) {
        return 6;
    }
    find_end(true, chars, 4)
}

fn path_prefix_len(platform: Platform, chars: &Vec<char>) -> (len: usize)
    ensures
        len == prefix_len(platform, chars@),
        len <= chars@.len(),
{
    match platform {
        Platform::Unix => {
            return 0;
        },
        Platform::Windows => {},
    }
    if begins_verbatim(chars) {
        return verbatim_prefix_len(chars);
    }
    if chars.len() >= 4 && has_separator(platform, chars, 0) && has_separator(platform, chars, 1)
        && chars[2] == '.' && has_separator(platform, chars, 3) {
        return find_end(false, chars, 4);
    }
    assert(chars@.skip(0) =~= chars@);
    if drive_at(chars, 0) {
        return 2;
    }
    share_prefix_len(chars)
}

/// The parts of a path from `at` on, without the empty ones.
fn path_parts(verbatim: bool, path: &str, at: usize) -> (found: Vec<String>)
    ensures
        texts(found@) == parts(verbatim, path@, at as int),
{
    let chars = chars_of(path);
    let mut found: Vec<String> = Vec::new();
    let mut i: usize = at;
    assert(texts(found@) + parts(verbatim, path@, i as int) =~= parts(
        verbatim,
        path@,
        at as int,
    ));
    while i < chars.len()
        invariant
            chars@ == path@,
            texts(found@) + parts(verbatim, path@, i as int) == parts(
                verbatim,
                path@,
                at as int,
            ),
        decreases chars@.len() - i,
    {
        let end: usize = find_end(verbatim, &chars, i);
        if end > i {
            let ghost before = texts(found@);
            let ghost rest = parts(verbatim, path@, end as int);
            push_text(&mut found, path.substring_char(i, end).to_string());
            assert(before + (seq![path@.subrange(i as int, end as int)] + rest) =~= texts(found@)
                + rest);
            i = end;
        } else {
            i += 1;
        }
    }
    assert(texts(found@) + parts(verbatim, path@, i as int) =~= texts(found@));
    found
}

fn leads_here(part: &str) -> (r: bool)
    ensures
        r == is_here(part@),
{
    let chars = chars_of(part);
    let r = chars.len() == 1 && chars[0] == '.';
    assert(r ==> part@ =~= seq!['.']);
    r
}

fn leads_above(part: &str) -> (r: bool)
    ensures
        r == is_above(part@),
{
    let chars = chars_of(part);
    let r = chars.len() == 2 && chars[0] == '.' && chars[1] == '.';
    assert(r ==> part@ =~= seq!['.', '.']);
    r
}

/// Take the steps of a path.
fn walk(from: Vec<String>, steps: &Vec<String>) -> (all: Vec<String>)
    ensures
        texts(all@) == walked(texts(from@), texts(steps@)),
{
    let mut all = from;
    let ghost taken = texts(steps@);
    let mut i: usize = 0;
    assert(taken.take(0) =~= Seq::empty());
    while i < steps.len()
        invariant
            i <= steps@.len(),
            taken == texts(steps@),
            texts(all@) == walked(texts(from@), taken.take(i as int)),
        decreases steps@.len() - i,
    {
        let step: &String = &steps[i];
        let ghost before = all@;
        assert(taken.take(i + 1).drop_last() =~= taken.take(i as int));
        assert(taken.take(i + 1).last() == step@);
        if leads_above(step.as_str()) {
            if all.len() > 0 {
                let last: &String = &all[all.len() - 1];
                assert(texts(before).last() == last@);
                if !leads_here(last.as_str()) && !leads_above(last.as_str()) {
                    all.pop();
                    assert(texts(all@) =~= texts(before).drop_last());
                }
            }
        } else if !leads_here(step.as_str()) {
            push_text(&mut all, step.clone());
        }
        i += 1;
    }
    assert(taken.take(steps@.len() as int) =~= taken);
    all
}

/// The path of a name in a directory that is read as it stands.
fn join_verbatim(dir: &str, dir_chars: &Vec<char>, name: &str, rooted: bool) -> (path: String)
    requires
        dir_chars@ == dir@,
        is_verbatim(dir@),
        rooted == is_rooted(Platform::Windows, name@),
    ensures
        path@ == verbatim_join(dir@, name@),
{
    let prefix: usize = verbatim_prefix_len(dir_chars);
    let from = if rooted || prefix >= dir_chars.len() {
        Vec::new()
    } else {
        path_parts(true, dir, prefix + 1)
    };
    assert(prefix >= dir@.len() ==> parts(true, dir@, prefix + 1) =~= Seq::empty());
    assert(rooted || prefix >= dir@.len() ==> texts(from@) =~= Seq::empty());
    let all = walk(from, &path_parts(false, name, 0));
    let mut path = dir.substring_char(0, prefix).to_string();
    assert(path@ =~= dir@.take(prefix as int));
    if all.len() == 0 && (rooted || prefix < dir_chars.len()) {
        path.push('\\');
        return path;
    }
    let mut i: usize = 0;
    assert(path@ =~= dir@.take(prefix as int) + lined_up(texts(all@).take(0)));
    while i < all.len()
        invariant
            i <= all@.len(),
            path@ == dir@.take(prefix as int) + lined_up(texts(all@).take(i as int)),
        decreases all@.len() - i,
    {
        let ghost before = texts(all@).take(i as int);
        path.push('\\');
        path.append(all[i].as_str());
        assert(texts(all@).take(i + 1).drop_last() =~= before);
        assert(path@ =~= dir@.take(prefix as int) + (lined_up(before).push('\\')
            + texts(all@)[i as int]));
        i += 1;
    }
    assert(texts(all@).take(all@.len() as int) =~= texts(all@));
    path
}

/// The path of a name in a directory.
pub(crate) fn join_path(platform: Platform, dir: &str, name: &str) -> (path: String)
    ensures
        path@ == path_join(platform, dir@, name@),
{
    let dir_chars = chars_of(dir);
    let name_chars = chars_of(name);
    let windows = match platform {
        Platform::Unix => false,
        Platform::Windows => true,
    };
    let rooted = has_separator(platform, &name_chars, 0);
    if (!windows && rooted) || path_prefix_len(platform, &name_chars) > 0 {
        return name.to_string();
    }
    if windows && name_chars.len() > 0 && begins_verbatim(&dir_chars) {
        return join_verbatim(dir, &dir_chars, name, rooted);
    }
    if rooted {
        let prefix: usize = path_prefix_len(platform, &dir_chars);
        let path = joined(dir.substring_char(0, prefix), name);
        assert(path@ =~= dir@.take(prefix as int) + name@);
        return path;
    }
    let mut path = dir.to_string();
    if dir_chars.len() > 0 {
        let last: usize = dir_chars.len() - 1;
        assert(dir_chars@.skip(0) =~= dir@);
        let bare = windows && dir_chars.len() == 2 && drive_at(&dir_chars, 0);
        if !bare && !has_separator(platform, &dir_chars, last) {
            path.push(
                if windows {
                    '\\'
                } else {
                    '/'
                },
            );
        }
    }
    path.append(name);
    path
}

/// The directory of the configuration files:
/// - unix: `$HOME/.config/otty`
/// - windows: `%APPDATA%\otty`
/// - otherwise `otty` in the directory for temporary files
pub open spec fn config_dir_of(
    platform: Platform,
    home: Option<Seq<char>>,
    appdata: Option<Seq<char>>,
    temp: Seq<char>,
) -> Seq<char> {
    match platform {
        Platform::Windows => match appdata {
            Some(appdata) => path_join(platform, appdata, "otty"@),
            None => path_join(platform, temp, "otty"@),
        },
        Platform::Unix => match home {
            Some(home) => path_join(platform, path_join(platform, home, ".config"@), "otty"@),
            None => path_join(platform, temp, "otty"@),
        },
    }
}

/// The directory of the configuration files, given what the environment says.
pub fn config_dir_from(
    platform: Platform,
    home: Option<&str>,
    appdata: Option<&str>,
    temp: &str,
) -> (dir: String)
    ensures
        dir@ == config_dir_of(platform, str_opt(home),
            str_opt(appdata), temp@),
{
    match platform {
        Platform::Windows => match appdata {
            Some(appdata) => join_path(platform, appdata, "otty"),
            None => join_path(platform, temp, "otty"),
        },
        Platform::Unix => match home {
            Some(home) => {
                let config = join_path(platform, home, ".config");
                join_path(platform, config.as_str(), "otty")
            },
            None => join_path(platform, temp, "otty"),
        },
    }
}

/// The user's home directory: `$HOME` on unix; on windows `%USERPROFILE%`, and
/// `$HOME` where that is not set.
pub open spec fn home_dir_of(
    platform: Platform,
    home: Option<Seq<char>>,
    userprofile: Option<Seq<char>>,
) -> Option<Seq<char>> {
    if platform == Platform::Windows && userprofile is Some {
        userprofile
    } else {
        home
    }
}

/// The user's home directory, given what the environment says.
pub fn home_dir_from(platform: Platform, home: Option<&str>, userprofile: Option<&str>) -> (dir:
    Option<String>)
    ensures
        text_opt(dir) == home_dir_of(
            platform,
            str_opt(home),
            str_opt(userprofile),
        ),
{
    let chosen = match platform {
        Platform::Windows => match userprofile {
            Some(userprofile) => Some(userprofile),
            None => home,
        },
        Platform::Unix => home,
    };
    match chosen {
        Some(dir) => Some(dir.to_string()),
        None => None,
    }
}

/// The path with a leading `~` replaced by the home directory: `~` alone and
/// `~/...` only, and only where the home directory is known.
pub open spec fn tilde_expanded(path: Seq<char>, home: Option<Seq<char>>) -> Seq<char> {
    match home {
        None => path,
        Some(home) => if path == seq!['~'] {
            home
        } else if path.len() >= 2 && path[0] == '~' && path[1] == '/' {
            home + path.skip(1)
        } else {
            path
        },
    }
}

/// Replace a leading `~` by the home directory.
pub fn expand_tilde(path: &str, home: Option<&str>) -> (expanded: String)
    ensures
        expanded@ == tilde_expanded(path@, str_opt(home)),
{
    let home = match home {
        Some(home) => home,
        None => return path.to_string(),
    };
    let chars = chars_of(path);
    if chars.len() > 0 && chars[0] == '~' {
        if chars.len() == 1 {
            assert(path@ =~= seq!['~']);
            return home.to_string();
        }
        if chars[1] == '/' {
            let rest = path.substring_char(1, chars.len());
            assert(rest@ =~= path@.skip(1));
            return joined(home, rest);
        }
    }
    path.to_string()
}

/// Where the settings are stored.
pub fn settings_path(platform: Platform, config_dir: &str) -> (path: String)
    ensures
        path@ == path_join(platform, config_dir@, "settings.json"@),
{
    join_path(platform, config_dir, "settings.json")
}

} // verus!
