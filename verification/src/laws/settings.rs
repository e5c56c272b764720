//! What a settings file sets, what is kept at startup, and what is counted.
use crate::config::DynamicSpreadConfig;
use crate::env_file::{first_of, lines_from, setting_of, settings_in, stripped};
use crate::live_trading::startup::with_position;
use crate::live_trading::{lemma_place_of, newest_trades, one_per_coin, OpenPosition};
use crate::text::{after_space, before_space, is_space, trimmed};
use crate::trade_journal::TradeRecord;
use vstd::prelude::*;

verus! {

/// Whether a text neither begins nor ends with white space.
pub open spec fn tight(s: Seq<char>) -> bool {
    s.len() > 0 && !is_space(s[0]) && !is_space(s.last())
}

proof fn lemma_tight(s: Seq<char>)
    requires
        tight(s),
    ensures
        trimmed(s) == s,
{
    assert(after_space(s, 0) == 0);
    assert(before_space(s, 0, s.len() as int) == s.len());
    assert(s.subrange(0, s.len() as int) =~= s);
}

proof fn lemma_first_of(s: Seq<char>, c: char, i: int, n: int)
    requires
        0 <= i <= n <= s.len(),
        n == s.len() || s[n] == c,
        forall|k: int| i <= k < n ==> #[trigger] s[k] != c,
    ensures
        first_of(s, c, i) == n,
    decreases n - i,
{
    if i < n {
        lemma_first_of(s, c, i + 1, n);
    }
}

/// A line with a name, an equals sign and a value sets the name to the value, whatever
/// equals signs the value holds.
pub proof fn law_setting(name: Seq<char>, value: Seq<char>)
    requires
        tight(name),
        name[0] != '#',
        forall|i: int| 0 <= i < name.len() ==> #[trigger] name[i] != '=',
        tight(value),
        value[0] != '"' && value.last() != '"',
        value[0] != '\'' && value.last() != '\'',
        !"paste-your-"@.is_prefix_of(value),
    ensures
        setting_of(name.push('=') + value) == Some((name, value)),
{
    let l = name.push('=') + value;
    assert(l[0] == name[0]);
    assert(l.last() == value.last());
    lemma_tight(l);
    lemma_first_of(l, '=', 0, name.len() as int);
    assert(l.skip(name.len() as int + 1) =~= value);
    assert(l.take(name.len() as int) =~= name);
    lemma_tight(value);
    lemma_tight(name);
    assert(stripped(value, '"') == value);
    assert(stripped(value, '\'') == value);
}

/// A line that is empty or a comment, or that holds no equals sign, sets nothing; nor
/// does one whose value is still the placeholder.
pub proof fn law_no_setting(line: Seq<char>, name: Seq<char>, rest: Seq<char>)
    requires
        tight(name),
        forall|i: int| 0 <= i < name.len() ==> #[trigger] name[i] != '=',
        tight(line),
        tight(rest),
        rest[0] != '"' && rest.last() != '"',
        rest[0] != '\'' && rest.last() != '\'',
        "paste-your-"@.is_prefix_of(rest),
    ensures
        setting_of(Seq::empty()) is None,
        line[0] == '#' ==> setting_of(line) is None,
        setting_of(name) is None,
        setting_of(name.push('=')) is None,
        setting_of(name.push('=') + rest) is None,
{
    let none: Seq<char> = Seq::empty();
    assert(trimmed(none) =~= none);
    lemma_tight(line);
    lemma_tight(name);
    lemma_first_of(name, '=', 0, name.len() as int);
    let bare = name.push('=');
    assert(bare[0] == name[0] && bare.last() == '=');
    lemma_tight(bare);
    lemma_first_of(bare, '=', 0, name.len() as int);
    assert(bare.skip(name.len() as int + 1) =~= none);
    assert(stripped(none, '"') == none);
    assert(stripped(none, '\'') == none);
    let l = name.push('=') + rest;
    assert(l[0] == name[0]);
    assert(l.last() == rest.last());
    lemma_tight(l);
    lemma_first_of(l, '=', 0, name.len() as int);
    assert(l.skip(name.len() as int + 1) =~= rest);
    lemma_tight(rest);
    assert(stripped(rest, '"') == rest);
    assert(stripped(rest, '\'') == rest);
}

/// What is stripped of a character neither begins nor ends with it, and what neither
/// begins nor ends with it stays.
pub proof fn law_stripped(s: Seq<char>, c: char)
    ensures
        stripped(s, c).len() > 0 ==> stripped(s, c)[0] != c && stripped(s, c).last() != c,
        s.len() > 0 && s[0] != c && s.last() != c ==> stripped(s, c) == s,
        stripped(s, c).len() <= s.len(),
    decreases s.len(),
{
    if s.len() > 0 && s[0] == c {
        law_stripped(s.skip(1), c);
    } else if s.len() > 0 && s.last() == c {
        law_stripped(s.drop_last(), c);
    }
}

/// A character that stands around a value goes, on both sides.
pub proof fn law_quotes_go(s: Seq<char>, c: char)
    requires
        s.len() > 0,
        s[0] != c,
        s.last() != c,
    ensures
        stripped(seq![c] + s + seq![c], c) == s,
{
    let t = seq![c] + s + seq![c];
    assert(t.skip(1) =~= s.push(c));
    let u = s.push(c);
    assert(u.drop_last() =~= s);
    assert(stripped(u, c) == stripped(s, c));
    law_stripped(s, c);
}

/// A file is read line by line: what its first line sets comes first, then what the rest
/// sets.
pub proof fn law_lines(line: Seq<char>, rest: Seq<char>)
    requires
        forall|i: int| 0 <= i < line.len() ==> #[trigger] line[i] != '\n',
    ensures
        lines_from(line.push('\n') + rest, 0) == seq![line] + lines_from(rest, 0),
        line.len() > 0 ==> lines_from(line, 0) == seq![line],
        lines_from(Seq::empty(), 0).len() == 0,
        ({
            let all = settings_in(seq![line] + lines_from(rest, 0));
            let later = settings_in(lines_from(rest, 0));
            &&& setting_of(line) is None ==> all == later
            &&& setting_of(line) is Some ==> all == seq![setting_of(line)->Some_0] + later
        }),
{
    let s = line.push('\n') + rest;
    let n = line.len() as int;
    assert(s[n] == '\n');
    assert forall|k: int| 0 <= k < n implies #[trigger] s[k] != '\n' by {
        assert(s[k] == line[k]);
    }
    lemma_first_of(s, '\n', 0, n);
    assert(s.subrange(0, n) =~= line);
    assert(s.skip(n + 1) =~= rest);
    lemma_lines_shift(s, rest, n + 1, 0);
    if n > 0 {
        lemma_first_of(line, '\n', 0, n);
        assert(line.subrange(0, n) =~= line);
        assert(lines_from(line, n + 1) =~= seq![]);
        assert(seq![line] + Seq::<Seq<char>>::empty() =~= seq![line]);
    }
    let lines = seq![line] + lines_from(rest, 0);
    assert(lines.skip(1) =~= lines_from(rest, 0));
    assert(lines[0] == line);
}

proof fn lemma_first_shift(s: Seq<char>, rest: Seq<char>, d: int, i: int)
    requires
        0 <= d,
        0 <= i <= rest.len(),
        s.len() == d + rest.len(),
        forall|k: int| 0 <= k < rest.len() ==> #[trigger] s[d + k] == rest[k],
    ensures
        first_of(s, '\n', d + i) == d + first_of(rest, '\n', i),
        i <= first_of(rest, '\n', i) <= rest.len(),
    decreases rest.len() - i,
{
    if i < rest.len() {
        assert(s[d + i] == rest[i]);
        if rest[i] != '\n' {
            lemma_first_shift(s, rest, d, i + 1);
        }
    }
}

proof fn lemma_lines_shift(s: Seq<char>, rest: Seq<char>, d: int, i: int)
    requires
        0 <= d,
        0 <= i,
        s.len() == d + rest.len(),
        s.skip(d) == rest,
    ensures
        lines_from(s, d + i) == lines_from(rest, i),
    decreases rest.len() + 1 - i,
{
    assert forall|k: int| 0 <= k < rest.len() implies #[trigger] s[d + k] == rest[k] by {
        assert(s.skip(d)[k] == rest[k]);
    }
    if i < rest.len() {
        lemma_first_shift(s, rest, d, i);
        let end = first_of(rest, '\n', i);
        assert(s.subrange(d + i, d + end) =~= rest.subrange(i, end));
        lemma_lines_shift(s, rest, d, end + 1);
    }
}

/// A position that is taken over stands in place of the one on its coin, or behind the
/// others where there is none; the others stay.
pub proof fn law_position_taken_over(ps: Seq<OpenPosition>, p: OpenPosition, i: int)
    requires
        one_per_coin(ps),
        0 <= i < ps.len(),
    ensures
        ps[i].coin@ == p.coin@ ==> with_position(ps, p).len() == ps.len() && with_position(
            ps,
            p,
        )[i] == p,
        ps[i].coin@ != p.coin@ ==> with_position(ps, p)[i] == ps[i],
        (forall|k: int| 0 <= k < ps.len() ==> (#[trigger] ps[k]).coin@ != p.coin@)
            ==> with_position(ps, p) == ps.push(p),
{
    lemma_place_of(ps, p.coin@, 0);
    if ps[i].coin@ == p.coin@ {
        super::booking::lemma_found(ps, p.coin@, i);
    }
}

/// Of the trades of earlier sessions the last are kept, in their order, as many as there
/// is room for.
pub proof fn law_history_kept(s: Seq<TradeRecord>, limit: int)
    requires
        limit >= 0,
    ensures
        s.len() <= limit ==> newest_trades(s, limit) == s,
        s.len() > limit ==> newest_trades(s, limit).len() == limit,
        forall|i: int|
            0 <= i < newest_trades(s, limit).len() ==> #[trigger] newest_trades(s, limit)[i]
                == s[s.len() - newest_trades(s, limit).len() + i],
{
}

/// A configuration is refused for the first thing that is wrong with it, and only for
/// something that is wrong.
pub proof fn law_config_refused(c: DynamicSpreadConfig)
    ensures
        c.check_spec() is Err <==> {
            ||| c.k_exit >= c.k_entry
            ||| c.minimum_entry_threshold_pct <= 0
            ||| c.velocity_window_ms > c.max_signal_age_ms
            ||| c.minimum_exit_threshold_pct > c.maximum_exit_threshold_pct
            ||| c.minimum_samples == 0
            ||| c.warmup_seconds == 0
            ||| c.max_slippage_pct >= 500_000_000
            ||| c.minimum_exit_threshold_pct >= 500_000_000
        },
{
}

} // verus!
