//! Where files are, and how names and numbers are written.

use vstd::prelude::*;

use crate::paths::{
    config_dir_from, config_dir_of, expand_tilde, home_dir_from, home_dir_of, path_join,
    settings_path, tilde_expanded, Platform,
};
use crate::text::{
    decimal_text, digits_value, is_blank, is_white_space, signed_decimal_text, str_opt, text_opt,
    trim_end, trim_start, trim_text, u16_of_text,
};

verus! {

/// On Unix a name in a directory is the directory, one slash and the name; a
/// path from the root stands for itself.
pub proof fn names_are_joined_with_a_slash(dir: Seq<char>, name: Seq<char>)
    ensures
        name.len() > 0 && name[0] == '/' ==> path_join(Platform::Unix, dir, name) == name,
        (name.len() == 0 || name[0] != '/') && dir.len() > 0 && dir.last() != '/' ==> path_join(
            Platform::Unix,
            dir,
            name,
        ) == dir + seq!['/'] + name,
        (name.len() == 0 || name[0] != '/') && (dir.len() == 0 || dir.last() == '/') ==> path_join(
            Platform::Unix,
            dir,
            name,
        ) == dir + name,
{
    assert(dir.push('/') + name =~= dir + seq!['/'] + name);
}

/// Whether a path is an ordinary one on Windows: it begins with no separator and
/// with no drive.
pub open spec fn is_ordinary(path: Seq<char>) -> bool {
    &&& path.len() > 0 ==> path[0] != '/' && path[0] != '\\'
    &&& path.len() > 1 ==> path[1] != ':'
}

/// On Windows a name in a directory is the directory, one backslash and the name;
/// a name with a drive stands for itself, and one from the root keeps the drive
/// of the directory.
pub proof fn names_are_joined_with_a_backslash(dir: Seq<char>, name: Seq<char>, drive: char)
    requires
        ('a' <= drive && drive <= 'z') || ('A' <= drive && drive <= 'Z'),
    ensures
        is_ordinary(name) && is_ordinary(dir) && dir.len() > 0 && dir.last() != '/' && dir.last()
            != '\\' ==> path_join(Platform::Windows, dir, name) == dir + seq!['\\'] + name,
        is_ordinary(name) && is_ordinary(dir) && (dir.len() == 0 || dir.last() == '/' || dir.last()
            == '\\') ==> path_join(Platform::Windows, dir, name) == dir + name,
        path_join(Platform::Windows, dir, seq![drive, ':'] + name) == seq![drive, ':'] + name,
        is_ordinary(name) ==> path_join(
            Platform::Windows,
            seq![drive, ':', '\\'] + dir,
            seq!['\\'] + name,
        ) == seq![drive, ':', '\\'] + name,
        is_ordinary(name) ==> path_join(Platform::Windows, seq![drive, ':'], name) == seq![
            drive,
            ':',
        ] + name,
{
    assert(dir.push('\\') + name =~= dir + seq!['\\'] + name);
    let named = seq![drive, ':'] + name;
    assert(named[0] == drive && named[1] == ':');
    let rooted = seq!['\\'] + name;
    assert(rooted[0] == '\\');
    if name.len() > 0 {
        assert(rooted[1] == name[0]);
    }
    if is_ordinary(name) {
        assert(!crate::paths::is_rooted(Platform::Windows, rooted.skip(1))) by {
            assert(rooted.skip(1) =~= name);
        }
    }
    let on = seq![drive, ':', '\\'] + dir;
    assert(on[0] == drive && on[1] == ':');
    assert(on.take(2) + rooted =~= seq![drive, ':', '\\'] + name);
    let bare = seq![drive, ':'];
    assert(bare[0] == drive && bare[1] == ':' && bare.len() == 2);
}

/// The configuration is in the home directory on Unix and in the application data
/// on Windows, and in a temporary place where neither is known.
pub proof fn configuration_has_its_place(
    home: Seq<char>,
    appdata: Seq<char>,
    temp: Seq<char>,
)
    requires
        home.len() > 0 && home.last() != '/',
        is_ordinary(appdata) && appdata.len() > 0 && appdata.last() != '\\' && appdata.last()
            != '/',
        temp.len() > 0 && temp.last() != '/',
    ensures
        config_dir_of(Platform::Unix, Some(home), None, temp) == home + "/.config/otty"@,
        config_dir_of(Platform::Unix, Some(home), Some(appdata), temp) == home + "/.config/otty"@,
        config_dir_of(Platform::Unix, None, Some(appdata), temp) == temp + "/otty"@,
        config_dir_of(Platform::Windows, Some(home), Some(appdata), temp) == appdata + "\\otty"@,
{
    reveal_strlit(".config");
    reveal_strlit("otty");
    reveal_strlit("/.config/otty");
    reveal_strlit("/otty");
    reveal_strlit("\\otty");
    names_are_joined_with_a_slash(home, ".config"@);
    let config = home + seq!['/'] + ".config"@;
    assert(config.last() == 'g');
    names_are_joined_with_a_slash(config, "otty"@);
    assert(config + seq!['/'] + "otty"@ =~= home + "/.config/otty"@);
    names_are_joined_with_a_slash(temp, "otty"@);
    assert(temp + seq!['/'] + "otty"@ =~= temp + "/otty"@);
    names_are_joined_with_a_backslash(appdata, "otty"@, 'C');
    assert(appdata + seq!['\\'] + "otty"@ =~= appdata + "\\otty"@);
}

/// The settings are in the configuration directory, under their own name.
pub proof fn settings_have_their_place(config_dir: &str, path: String)
    requires
        call_ensures(settings_path, (Platform::Unix, config_dir), path),
        config_dir@.len() > 0,
        config_dir@.last() != '/',
    ensures
        path@ == config_dir@ + "/settings.json"@,
{
    reveal_strlit("settings.json");
    reveal_strlit("/settings.json");
    names_are_joined_with_a_slash(config_dir@, "settings.json"@);
    assert(config_dir@ + seq!['/'] + "settings.json"@ =~= config_dir@ + "/settings.json"@);
}

/// The home directory is the one of Unix; on Windows the profile comes first.
pub proof fn home_is_where_the_environment_says(
    home: Option<Seq<char>>,
    profile: Option<Seq<char>>,
)
    ensures
        home_dir_of(Platform::Unix, home, profile) == home,
        profile is Some ==> home_dir_of(Platform::Windows, home, profile) == profile,
        profile is None ==> home_dir_of(Platform::Windows, home, profile) == home,
{
}

/// What the environment says is what the directories are.
pub proof fn environment_decides_the_directories(
    platform: Platform,
    home: Option<&str>,
    appdata: Option<&str>,
    profile: Option<&str>,
    temp: &str,
    config: String,
    own: Option<String>,
)
    requires
        call_ensures(config_dir_from, (platform, home, appdata, temp), config),
        call_ensures(home_dir_from, (platform, home, profile), own),
    ensures
        config@ == config_dir_of(platform, str_opt(home), str_opt(appdata), temp@),
        text_opt(own) == home_dir_of(platform, str_opt(home), str_opt(profile)),
{
}

/// A leading tilde stands for the home directory, alone or before a slash; any
/// other path stays as it is, and so does every path where no home is known.
pub proof fn tilde_stands_for_home(path: Seq<char>, home: Seq<char>)
    ensures
        tilde_expanded(seq!['~'], Some(home)) == home,
        tilde_expanded(seq!['~', '/'] + path, Some(home)) == home + seq!['/'] + path,
        path.len() == 0 || path[0] != '~' ==> tilde_expanded(path, Some(home)) == path,
        path.len() > 1 && path[0] == '~' && path[1] != '/' ==> tilde_expanded(path, Some(home))
            == path,
        tilde_expanded(path, None) == path,
{
    let under = seq!['~', '/'] + path;
    assert(under.skip(1) =~= seq!['/'] + path);
    assert(home + (seq!['/'] + path) =~= home + seq!['/'] + path);
    assert(under.len() >= 2 && under[0] == '~' && under[1] == '/');
    assert(under != seq!['~']);
}

/// A path is expanded as its text says.
pub proof fn paths_are_expanded(path: &str, home: Option<&str>, expanded: String)
    requires
        call_ensures(expand_tilde, (path, home), expanded),
    ensures
        expanded@ == tilde_expanded(path@, str_opt(home)),
{
}

/// Trimming takes away white space at both ends and nothing else.
pub proof fn trimming_takes_white_space_only(s: Seq<char>)
    ensures
        exists|i: int, j: int|
            {
                &&& 0 <= i <= j <= s.len()
                &&& #[trigger] s.subrange(i, j) == trim_text(s)
                &&& forall|k: int| 0 <= k < i ==> is_white_space(#[trigger] s[k])
                &&& forall|k: int| j <= k < s.len() ==> is_white_space(#[trigger] s[k])
            },
        trim_text(s).len() > 0 ==> !is_white_space(trim_text(s)[0]) && !is_white_space(
            trim_text(s).last(),
        ),
        is_blank(s) <==> forall|k: int| 0 <= k < s.len() ==> is_white_space(#[trigger] s[k]),
{
    let i = lemma_front(s);
    let middle = s.skip(i);
    let n = lemma_back(middle);
    let j = i + n;
    assert(s.subrange(i, j) =~= middle.take(n));
    assert forall|k: int| j <= k < s.len() implies is_white_space(#[trigger] s[k]) by {
        assert(middle[k - i] == s[k]);
    }
    if n > 0 {
        assert(middle.take(n)[0] == middle[0]);
    }
    if forall|k: int| 0 <= k < s.len() ==> is_white_space(#[trigger] s[k]) {
        if n > 0 {
            assert(is_white_space(s[i]));
            assert(middle[0] == s[i]);
        }
    }
    if is_blank(s) {
        assert(n == 0);
    }
}

proof fn lemma_front(s: Seq<char>) -> (i: int)
    ensures
        0 <= i <= s.len(),
        trim_start(s) == s.skip(i),
        forall|k: int| 0 <= k < i ==> is_white_space(#[trigger] s[k]),
        i < s.len() ==> !is_white_space(s[i]),
    decreases s.len(),
{
    if s.len() > 0 && is_white_space(s[0]) {
        let rest = lemma_front(s.skip(1));
        assert(s.skip(1).skip(rest) =~= s.skip(rest + 1));
        assert forall|k: int| 0 <= k < rest + 1 implies is_white_space(#[trigger] s[k]) by {
            if k > 0 {
                assert(s.skip(1)[k - 1] == s[k]);
            }
        }
        rest + 1
    } else {
        assert(s.skip(0) =~= s);
        0
    }
}

proof fn lemma_back(s: Seq<char>) -> (n: int)
    ensures
        0 <= n <= s.len(),
        trim_end(s) == s.take(n),
        forall|k: int| n <= k < s.len() ==> is_white_space(#[trigger] s[k]),
        n > 0 ==> !is_white_space(s[n - 1]),
    decreases s.len(),
{
    if s.len() > 0 && is_white_space(s.last()) {
        let rest = lemma_back(s.drop_last());
        assert(s.drop_last().take(rest) =~= s.take(rest));
        assert forall|k: int| rest <= k < s.len() implies is_white_space(#[trigger] s[k]) by {
            if k < s.len() - 1 {
                assert(s.drop_last()[k] == s[k]);
            }
        }
        rest
    } else {
        assert(s.take(s.len() as int) =~= s);
        s.len() as int
    }
}

/// A number is written digit by digit, with the plain digits, the greatest place
/// first; a negative one has a minus in front.
pub proof fn numbers_are_written_in_decimal(n: nat, d: nat)
    requires
        d < 10,
    ensures
        decimal_text(d).len() == 1,
        decimal_text(d)[0] as u32 == 48 + d,
        n > 0 ==> decimal_text(n * 10 + d) == decimal_text(n) + decimal_text(d),
        signed_decimal_text(n as int) == decimal_text(n),
        n > 0 ==> signed_decimal_text(-(n as int)) == seq!['-'] + decimal_text(n),
{
    if n > 0 {
        let all = n * 10 + d;
        assert(all / 10 == n && all % 10 == d);
        assert(decimal_text(all) =~= decimal_text(n) + decimal_text(d));
    }
}

/// A number that is read is the one that was written: digits by their place, with
/// or without a plus. What is no number, or is too large, is not read.
pub proof fn numbers_are_read_in_decimal(s: Seq<char>, c: char)
    ensures
        '0' <= c && c <= '9' ==> digits_value(s.push(c)) == digits_value(s) * 10 + (c as u32 - 48),
        digits_value(Seq::<char>::empty()) == 0,
        u16_of_text(Seq::<char>::empty()) is None,
        u16_of_text(s) matches Some(value) ==> s.len() > 0 && (s[0] != '+' ==> value
            == digits_value(s)) && (s[0] == '+' ==> value == digits_value(s.skip(1))),
        u16_of_text(s) is Some ==> forall|i: int|
            1 <= i < s.len() ==> '0' <= #[trigger] s[i] && s[i] <= '9',
{
    assert(s.push(c).drop_last() =~= s);
    if u16_of_text(s) is Some {
        assert forall|i: int| 1 <= i < s.len() implies '0' <= #[trigger] s[i] && s[i] <= '9' by {
            if s[0] == '+' {
                assert(s.skip(1)[i - 1] == s[i]);
                assert(crate::text::is_digit(s.skip(1)[i - 1]));
            } else {
                assert(crate::text::is_digit(s[i]));
            }
        }
    }
}

} // verus!
