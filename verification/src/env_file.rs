//! Settings files: lines of the form `NAME=value`.
use crate::text::{chars_of, starts_with, trim, trimmed};
use vstd::prelude::*;

verus! {

/// Where a character first occurs in a text from `i` on, its end where it does
/// not.
pub open spec fn first_of(s: Seq<char>, c: char, i: int) -> int
    decreases s.len() - i,
{
    if i < 0 || i >= s.len() || s[i] == c {
        i
    } else {
        first_of(s, c, i + 1)
    }
}

/// A text without a character at both ends, however often it stands there.
pub open spec fn stripped(s: Seq<char>, c: char) -> Seq<char>
    decreases s.len(),
{
    if s.len() > 0 && s[0] == c {
        stripped(s.skip(1), c)
    } else if s.len() > 0 && s.last() == c {
        stripped(s.drop_last(), c)
    } else {
        s
    }
}

/// The value of a setting without white space and quotes around it.
pub open spec fn bare_value(v: Seq<char>) -> Seq<char> {
    trimmed(stripped(stripped(trimmed(v), '"'), '\''))
}

/// What a line of a settings file sets: the name and the value. Nothing where the
/// line is empty or a comment, holds no equals sign, or its value is empty or
/// still the placeholder.
pub open spec fn setting_of(line: Seq<char>) -> Option<(Seq<char>, Seq<char>)> {
    let l = trimmed(line);
    let eq = first_of(l, '=', 0);
    if l.len() == 0 || l[0] == '#' || eq >= l.len() {
        None
    } else {
        let value = bare_value(l.skip(eq + 1));
        if value.len() == 0 || "paste-your-"@.is_prefix_of(value) {
            None
        } else {
            Some((trimmed(l.take(eq)), value))
        }
    }
}

fn find_char(cs: &Vec<char>, c: char, from: usize) -> (i: usize)
    requires
        from <= cs@.len(),
    ensures
        i == first_of(cs@, c, from as int),
        from <= i <= cs@.len(),
{
    let mut i: usize = from;
    while i < cs.len() && cs[i] != c
        invariant
            from <= i <= cs@.len(),
            first_of(cs@, c, from as int) == first_of(cs@, c, i as int),
        decreases cs@.len() - i,
    {
        i = i + 1;
    }
    i
}

fn strip(s: &str, c: char) -> (t: &str)
    ensures
        t@ == stripped(s@, c),
{
    let cs = chars_of(s);
    let n: usize = cs.len();
    let mut i: usize = 0;
    let mut j: usize = n;
    assert(s@.subrange(0, n as int) =~= s@);
    while i < j && cs[i] == c
        invariant
            i <= j == n == cs@.len(),
            cs@ == s@,
            stripped(s@, c) == stripped(s@.subrange(i as int, j as int), c),
        decreases j - i,
    {
        assert(s@.subrange(i as int, j as int).skip(1) =~= s@.subrange(i + 1, j as int));
        i = i + 1;
    }
    while j > i && cs[j - 1] == c
        invariant
            i <= j <= n == cs@.len(),
            cs@ == s@,
            i < j ==> s@[i as int] != c,
            stripped(s@, c) == stripped(s@.subrange(i as int, j as int), c),
        decreases j - i,
    {
        assert(s@.subrange(i as int, j as int).drop_last() =~= s@.subrange(i as int, j - 1));
        j = j - 1;
    }
    s.substring_char(i, j)
}

/// What a line of a settings file sets: the name and the value.
pub fn parse_setting(line: &str) -> (r: Option<(String, String)>)
    ensures
        match r {
            Some(p) => setting_of(line@) == Some((p.0@, p.1@)),
            None => setting_of(line@) is None,
        },
{
    let l = trim(line);
    let cs = chars_of(l);
    let n: usize = cs.len();
    if n == 0 || cs[0] == '#' {
        return None;
    }
    let eq: usize = find_char(&cs, '=', 0);
    if eq >= n {
        return None;
    }
    let after = l.substring_char(eq + 1, n);
    assert(after@ =~= l@.skip(eq + 1));
    let value = trim(strip(strip(trim(after), '"'), '\''));
    if value.is_empty() || starts_with(value, "paste-your-") {
        return None;
    }
    let before = l.substring_char(0, eq);
    assert(before@ =~= l@.take(eq as int));
    Some((trim(before).to_owned(), value.to_owned()))
}

/// The lines of a text.
pub open spec fn lines_from(s: Seq<char>, i: int) -> Seq<Seq<char>>
    decreases s.len() + 1 - i,
{
    if i < 0 || i >= s.len() {
        seq![]
    } else {
        let end = first_of(s, '\n', i);
        if end < i || end > s.len() {
            seq![]
        } else {
            seq![s.subrange(i, end)] + lines_from(s, end + 1)
        }
    }
}

/// What lines set, line by line.
pub open spec fn settings_in(lines: Seq<Seq<char>>) -> Seq<(Seq<char>, Seq<char>)>
    decreases lines.len(),
{
    if lines.len() == 0 {
        seq![]
    } else {
        match setting_of(lines[0]) {
            Some(p) => seq![p] + settings_in(lines.skip(1)),
            None => settings_in(lines.skip(1)),
        }
    }
}

/// Settings with the texts of their names and values.
pub open spec fn setting_views(v: Seq<(String, String)>) -> Seq<(Seq<char>, Seq<char>)> {
    Seq::new(v.len(), |i: int| (v[i].0@, v[i].1@))
}

/// What a settings file sets, in its order.
pub fn parse_env_file(content: &str) -> (v: Vec<(String, String)>)
    ensures
        setting_views(v@) == settings_in(lines_from(content@, 0)),
{
    let cs = chars_of(content);
    let n: usize = cs.len();
    let mut v: Vec<(String, String)> = Vec::new();
    let mut i: usize = 0;
    assert(setting_views(v@) + settings_in(lines_from(content@, 0)) =~= settings_in(
        lines_from(content@, 0),
    ));
    while i < n
        invariant
            i <= n == cs@.len(),
            cs@ == content@,
            setting_views(v@) + settings_in(lines_from(content@, i as int)) == settings_in(
                lines_from(content@, 0),
            ),
        decreases n - i,
    {
        let end: usize = find_char(&cs, '\n', i);
        let line = content.substring_char(i, end);
        let ghost rest = lines_from(content@, end + 1);
        let ghost here = lines_from(content@, i as int);
        assert(here =~= seq![line@] + rest);
        assert(here.skip(1) =~= rest);
        let ghost before = v@;
        if let Some(p) = parse_setting(line) {
            v.push(p);
            assert(setting_views(v@) =~= setting_views(before) + seq![(p.0@, p.1@)]);
            assert(setting_views(v@) + settings_in(rest) =~= setting_views(before) + (seq![
                (p.0@, p.1@),
            ] + settings_in(rest)));
        }
        i = if end < n {
            end + 1
        } else {
            n
        };
        assert(lines_from(content@, i as int) =~= rest);
    }
    assert(setting_views(v@) + settings_in(lines_from(content@, i as int)) =~= setting_views(v@));
    v
}

} // verus!
