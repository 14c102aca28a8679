//! Quoting of words for a POSIX shell command line.

use vstd::prelude::*;
use crate::text::{chars_of, join, push_char, push_joined, push_str, views};

verus! {

/// Characters that a shell word may hold without quoting.
pub open spec fn is_shell_safe(c: char) -> bool {
    ('a' <= c && c <= 'z') || ('A' <= c && c <= 'Z') || ('0' <= c && c <= '9') || c == '_'
        || c == '-' || c == '.' || c == '/' || c == ':' || c == '=' || c == '@' || c == '%'
        || c == '+' || c == ','
}

/// Whether `c` needs no quoting.
pub fn char_is_shell_safe(c: char) -> (r: bool)
    ensures
        r == is_shell_safe(c),
{
    ('a' <= c && c <= 'z') || ('A' <= c && c <= 'Z') || ('0' <= c && c <= '9') || c == '_'
        || c == '-' || c == '.' || c == '/' || c == ':' || c == '=' || c == '@' || c == '%'
        || c == '+' || c == ','
}

/// The escaped form of one character inside single quotes.
pub open spec fn escape_char(c: char) -> Seq<char> {
    if c == '\'' {
        seq!['\'', '\\', '\'', '\'']
    } else {
        seq![c]
    }
}

/// The body of a single-quoted word: each `'` becomes `'\''`.
pub open spec fn escape_quotes(s: Seq<char>) -> Seq<char>
    decreases s.len(),
{
    if s.len() == 0 {
        Seq::empty()
    } else {
        escape_quotes(s.drop_last()) + escape_char(s.last())
    }
}

/// A word that the shell reads back as `s`: `s` itself when it is non-empty
/// and made of safe characters only, otherwise `s` in single quotes.
pub open spec fn shell_quoted(s: Seq<char>) -> Seq<char> {
    if s.len() > 0 && (forall|i: int| 0 <= i < s.len() ==> is_shell_safe(s[i])) {
        s
    } else {
        seq!['\''] + escape_quotes(s) + seq!['\'']
    }
}

/// Quote one word for the shell.
pub fn shell_quote(s: &str) -> (r: String)
    ensures
        r@ == shell_quoted(s@),
{
    let v = chars_of(s);
    let n = v.len();
    let mut safe = n > 0;
    let mut i: usize = 0;
    while i < n
        invariant
            i <= n,
            n == v@.len(),
            safe == (n > 0 && forall|k: int| 0 <= k < i ==> is_shell_safe(v@[k])),
        decreases n - i,
    {
        if !char_is_shell_safe(v[i]) {
            safe = false;
        }
        i = i + 1;
    }
    if safe {
        return s.to_owned();
    }
    let mut r = String::new();
    push_char(&mut r, '\'');
    let mut k: usize = 0;
    while k < n
        invariant
            k <= n,
            n == v@.len(),
            r@ == seq!['\''] + escape_quotes(v@.take(k as int)),
        decreases n - k,
    {
        let c = v[k];
        if c == '\'' {
            push_str(&mut r, "'\\''");
            proof {
                reveal_strlit("'\\''");
            }
        } else {
            push_char(&mut r, c);
        }
        proof {
            let t = v@.take(k + 1);
            assert(t.drop_last() =~= v@.take(k as int));
            assert(t.last() == c);
            assert(r@ =~= seq!['\''] + escape_quotes(t));
        }
        k = k + 1;
    }
    push_char(&mut r, '\'');
    proof {
        assert(v@.take(n as int) =~= v@);
    }
    r
}

/// The words of a command line, each quoted, separated by single spaces.
pub open spec fn shell_joined(words: Seq<Seq<char>>) -> Seq<char> {
    join(words.map_values(|w: Seq<char>| shell_quoted(w)), " "@)
}

/// Quote each word and join them with spaces.
pub fn shell_join(words: &[String]) -> (r: String)
    ensures
        r@ == shell_joined(views(words@)),
{
    let mut quoted: Vec<String> = Vec::new();
    let mut i: usize = 0;
    while i < words.len()
        invariant
            i <= words@.len(),
            views(quoted@) == views(words@).take(i as int).map_values(|w: Seq<char>| shell_quoted(w)),
        decreases words@.len() - i,
    {
        let ghost before = quoted@;
        let q = shell_quote(words[i].as_str());
        quoted.push(q);
        proof {
            let f = |w: Seq<char>| shell_quoted(w);
            assert(views(words@).take(i + 1) =~= views(words@).take(i as int).push(words@[i as int]@));
            assert(views(quoted@) =~= views(before).push(q@));
            assert(views(words@).take(i + 1).map_values(f) =~= views(words@).take(i as int).map_values(f).push(shell_quoted(words@[i as int]@)));
        }
        i = i + 1;
    }
    proof {
        assert(views(words@).take(words@.len() as int) =~= views(words@));
    }
    let mut r = String::new();
    push_joined(&mut r, quoted.as_slice(), " ");
    r
}

/// How a POSIX shell reads one word: outside quotes a `'` opens a quoted
/// part and a `\` takes the next character literally; inside quotes every
/// character is literal until the closing `'`.
pub open spec fn read_word(s: Seq<char>, quoted: bool) -> Seq<char>
    decreases s.len(),
{
    if s.len() == 0 {
        Seq::empty()
    } else if quoted {
        if s[0] == '\'' {
            read_word(s.drop_first(), false)
        } else {
            seq![s[0]] + read_word(s.drop_first(), true)
        }
    } else if s[0] == '\'' {
        read_word(s.drop_first(), true)
    } else if s[0] == '\\' && s.len() >= 2 {
        seq![s[1]] + read_word(s.subrange(2, s.len() as int), false)
    } else {
        seq![s[0]] + read_word(s.drop_first(), false)
    }
}

proof fn lemma_escape_first(s: Seq<char>)
    requires
        s.len() > 0,
    ensures
        escape_quotes(s) == escape_char(s[0]) + escape_quotes(s.drop_first()),
    decreases s.len(),
{
    if s.len() == 1 {
        assert(s.drop_last() =~= Seq::<char>::empty());
        assert(s.drop_first() =~= Seq::<char>::empty());
        assert(s.last() == s[0]);
        assert(escape_quotes(s.drop_last()) == Seq::<char>::empty());
        assert(escape_quotes(s) =~= escape_char(s[0]));
    } else {
        let d = s.drop_last();
        lemma_escape_first(d);
        assert(d.drop_first() =~= s.drop_first().drop_last());
        assert(s.drop_first().last() == s.last());
        assert(d[0] == s[0]);
        assert(escape_quotes(s) =~= escape_char(s[0]) + escape_quotes(s.drop_first()));
    }
}

proof fn lemma_read_escaped(s: Seq<char>, rest: Seq<char>)
    ensures
        read_word(escape_quotes(s) + rest, true) == s + read_word(rest, true),
    decreases s.len(),
{
    if s.len() == 0 {
        assert(escape_quotes(s) + rest =~= rest);
        assert(s + read_word(rest, true) =~= read_word(rest, true));
    } else {
        lemma_escape_first(s);
        let t = s.drop_first();
        lemma_read_escaped(t, rest);
        let tail = escape_quotes(t) + rest;
        let c = s[0];
        if c == '\'' {
            let w = escape_char(c) + tail;
            assert(escape_quotes(s) + rest =~= w);
            assert(w.drop_first() =~= seq!['\\', '\'', '\''] + tail);
            let w1 = w.drop_first();
            assert(w1.subrange(2, w1.len() as int) =~= seq!['\''] + tail);
            let w2 = w1.subrange(2, w1.len() as int);
            assert(w2.drop_first() =~= tail);
            assert(read_word(w2, false) == read_word(tail, true));
            assert(read_word(w1, false) == seq!['\''] + read_word(w2, false));
            assert(read_word(w, true) == read_word(w1, false));
            assert(seq!['\''] + (t + read_word(rest, true)) =~= s + read_word(rest, true));
        } else {
            let w = seq![c] + tail;
            assert(escape_quotes(s) + rest =~= w);
            assert(w.drop_first() =~= tail);
            assert(seq![c] + (t + read_word(rest, true)) =~= s + read_word(rest, true));
        }
    }
}

proof fn lemma_read_safe(s: Seq<char>)
    requires
        forall|i: int| 0 <= i < s.len() ==> is_shell_safe(s[i]),
    ensures
        read_word(s, false) == s,
    decreases s.len(),
{
    if s.len() > 0 {
        let t = s.drop_first();
        assert forall|i: int| 0 <= i < t.len() implies is_shell_safe(t[i]) by {
            assert(t[i] == s[i + 1]);
        }
        lemma_read_safe(t);
        assert(is_shell_safe(s[0]));
        assert(seq![s[0]] + t =~= s);
    }
}

/// A quoted word reads back as the word itself: the shell that runs an
/// exported command hands the analysis exactly the argument that was
/// recorded.
pub proof fn law_shell_quote_reads_back(s: Seq<char>)
    ensures
        read_word(shell_quoted(s), false) == s,
{
    if s.len() > 0 && (forall|i: int| 0 <= i < s.len() ==> is_shell_safe(s[i])) {
        lemma_read_safe(s);
    } else {
        let q = seq!['\''] + escape_quotes(s) + seq!['\''];
        assert(q.drop_first() =~= escape_quotes(s) + seq!['\'']);
        lemma_read_escaped(s, seq!['\'']);
        let closing = seq!['\''];
        assert(closing.drop_first() =~= Seq::<char>::empty());
        assert(read_word(closing, true) == read_word(Seq::<char>::empty(), false));
        assert(s + Seq::<char>::empty() =~= s);
    }
}

/// Characters that separate words when they stand outside quotes.
pub open spec fn is_blank(c: char) -> bool {
    c == ' ' || c == '\t' || c == '\n'
}

/// How a POSIX shell splits a command line into words, given whether it is
/// inside single quotes, whether a word has begun, the word read so far and
/// the words before it: blanks outside quotes end a word, a quote begins one
/// (so `''` is an empty word), and quotes and backslashes are read as in
/// `read_word`.
pub open spec fn split_line(
    s: Seq<char>,
    quoted: bool,
    started: bool,
    cur: Seq<char>,
    acc: Seq<Seq<char>>,
) -> Seq<Seq<char>>
    decreases s.len(),
{
    if s.len() == 0 {
        if started {
            acc.push(cur)
        } else {
            acc
        }
    } else if quoted {
        if s[0] == '\'' {
            split_line(s.drop_first(), false, true, cur, acc)
        } else {
            split_line(s.drop_first(), true, true, cur.push(s[0]), acc)
        }
    } else if is_blank(s[0]) {
        if started {
            split_line(s.drop_first(), false, false, Seq::empty(), acc.push(cur))
        } else {
            split_line(s.drop_first(), false, false, Seq::empty(), acc)
        }
    } else if s[0] == '\'' {
        split_line(s.drop_first(), true, true, cur, acc)
    } else if s[0] == '\\' && s.len() >= 2 {
        split_line(s.subrange(2, s.len() as int), false, true, cur.push(s[1]), acc)
    } else {
        split_line(s.drop_first(), false, true, cur.push(s[0]), acc)
    }
}

/// The words a shell reads from a command line.
pub open spec fn shell_words(line: Seq<char>) -> Seq<Seq<char>> {
    split_line(line, false, false, Seq::empty(), Seq::empty())
}

proof fn lemma_split_escaped(s: Seq<char>, rest: Seq<char>, cur: Seq<char>, acc: Seq<Seq<char>>)
    ensures
        split_line(escape_quotes(s) + rest, true, true, cur, acc) == split_line(
            rest,
            true,
            true,
            cur + s,
            acc,
        ),
    decreases s.len(),
{
    if s.len() == 0 {
        assert(escape_quotes(s) + rest =~= rest);
        assert(cur + s =~= cur);
    } else {
        lemma_escape_first(s);
        let t = s.drop_first();
        let c = s[0];
        let tail = escape_quotes(t) + rest;
        if c == '\'' {
            let w = escape_char(c) + tail;
            assert(escape_quotes(s) + rest =~= w);
            let w1 = w.drop_first();
            assert(w1 =~= seq!['\\', '\'', '\''] + tail);
            let w2 = w1.subrange(2, w1.len() as int);
            assert(w2 =~= seq!['\''] + tail);
            assert(w2.drop_first() =~= tail);
            assert(w[0] == '\'');
            assert(w1[0] == '\\' && w1[1] == '\'' && w1.len() >= 2);
            assert(!is_blank(w1[0]));
            assert(w2[0] == '\'' && !is_blank(w2[0]));
            assert(split_line(w, true, true, cur, acc) == split_line(w1, false, true, cur, acc));
            assert(split_line(w1, false, true, cur, acc) == split_line(
                w2,
                false,
                true,
                cur.push('\''),
                acc,
            ));
            assert(split_line(w2, false, true, cur.push('\''), acc) == split_line(
                tail,
                true,
                true,
                cur.push('\''),
                acc,
            ));
            lemma_split_escaped(t, rest, cur.push('\''), acc);
            assert(cur.push('\'') + t =~= cur + s);
        } else {
            let w = seq![c] + tail;
            assert(escape_quotes(s) + rest =~= w);
            assert(w.drop_first() =~= tail);
            assert(w[0] == c);
            assert(split_line(w, true, true, cur, acc) == split_line(tail, true, true, cur.push(c), acc));
            lemma_split_escaped(t, rest, cur.push(c), acc);
            assert(cur.push(c) + t =~= cur + s);
        }
    }
}

proof fn lemma_split_safe(s: Seq<char>, rest: Seq<char>, cur: Seq<char>, acc: Seq<Seq<char>>)
    requires
        forall|i: int| 0 <= i < s.len() ==> is_shell_safe(s[i]),
        s.len() > 0,
    ensures
        split_line(s + rest, false, false, cur, acc) == split_line(rest, false, true, cur + s, acc),
    decreases s.len(),
{
    let c = s[0];
    assert(is_shell_safe(c));
    let t = s.drop_first();
    assert((s + rest).drop_first() =~= t + rest);
    assert((s + rest)[0] == c);
    if t.len() == 0 {
        assert(t + rest =~= rest);
        assert(cur.push(c) =~= cur + s);
    } else {
        assert forall|i: int| 0 <= i < t.len() implies is_shell_safe(t[i]) by {
            assert(t[i] == s[i + 1]);
        }
        lemma_split_safe_started(t, rest, cur.push(c), acc);
        assert(cur.push(c) + t =~= cur + s);
    }
}

proof fn lemma_split_safe_started(s: Seq<char>, rest: Seq<char>, cur: Seq<char>, acc: Seq<Seq<char>>)
    requires
        forall|i: int| 0 <= i < s.len() ==> is_shell_safe(s[i]),
    ensures
        split_line(s + rest, false, true, cur, acc) == split_line(rest, false, true, cur + s, acc),
    decreases s.len(),
{
    if s.len() == 0 {
        assert(s + rest =~= rest);
        assert(cur + s =~= cur);
    } else {
        let c = s[0];
        assert(is_shell_safe(c));
        let t = s.drop_first();
        assert((s + rest).drop_first() =~= t + rest);
        assert((s + rest)[0] == c);
        assert forall|i: int| 0 <= i < t.len() implies is_shell_safe(t[i]) by {
            assert(t[i] == s[i + 1]);
        }
        lemma_split_safe_started(t, rest, cur.push(c), acc);
        assert(cur.push(c) + t =~= cur + s);
    }
}

/// Reading a quoted word from the start of a word leaves the shell after
/// that word, outside quotes, with the word itself read.
proof fn lemma_split_quoted(w: Seq<char>, rest: Seq<char>, acc: Seq<Seq<char>>)
    ensures
        split_line(shell_quoted(w) + rest, false, false, Seq::empty(), acc) == split_line(
            rest,
            false,
            true,
            w,
            acc,
        ),
{
    if w.len() > 0 && (forall|i: int| 0 <= i < w.len() ==> is_shell_safe(w[i])) {
        lemma_split_safe(w, rest, Seq::empty(), acc);
        assert(Seq::<char>::empty() + w =~= w);
    } else {
        let q = shell_quoted(w);
        let all = q + rest;
        let after_open = escape_quotes(w) + (seq!['\''] + rest);
        assert(all =~= seq!['\''] + after_open);
        assert(all.drop_first() =~= after_open);
        lemma_split_escaped(w, seq!['\''] + rest, Seq::empty(), acc);
        assert(Seq::<char>::empty() + w =~= w);
        let closing = seq!['\''] + rest;
        assert(closing.drop_first() =~= rest);
    }
}

proof fn lemma_join_first(parts: Seq<Seq<char>>, sep: Seq<char>)
    requires
        parts.len() >= 2,
    ensures
        join(parts, sep) == parts[0] + sep + join(parts.drop_first(), sep),
    decreases parts.len(),
{
    let d = parts.drop_last();
    assert(d[0] == parts[0]);
    if parts.len() == 2 {
        assert(d.len() == 1);
        assert(join(d, sep) == d[0]);
        assert(parts.drop_first().len() == 1);
        assert(parts.drop_first()[0] == parts.last());
        assert(join(parts.drop_first(), sep) == parts.last());
    } else {
        lemma_join_first(d, sep);
        assert(d.drop_first() =~= parts.drop_first().drop_last());
        assert(parts.drop_first().last() == parts.last());
        assert(join(parts.drop_first(), sep) == join(parts.drop_first().drop_last(), sep) + sep
            + parts.last());
        assert(join(parts, sep) =~= parts[0] + sep + join(parts.drop_first(), sep));
    }
}

proof fn lemma_split_joined(ws: Seq<Seq<char>>, acc: Seq<Seq<char>>)
    requires
        ws.len() >= 1,
    ensures
        split_line(join(ws.map_values(|w: Seq<char>| shell_quoted(w)), " "@), false, false, Seq::empty(), acc)
            == acc + ws,
    decreases ws.len(),
{
    reveal_strlit(" ");
    let f = |w: Seq<char>| shell_quoted(w);
    let qs = ws.map_values(f);
    if ws.len() == 1 {
        assert(join(qs, " "@) == qs[0]);
        lemma_split_quoted(ws[0], Seq::empty(), acc);
        assert(qs[0] + Seq::<char>::empty() =~= qs[0]);
        assert(acc + ws =~= acc.push(ws[0]));
    } else {
        lemma_join_first(qs, " "@);
        let rest_words = ws.drop_first();
        assert(qs.drop_first() =~= rest_words.map_values(f));
        let tail = join(rest_words.map_values(f), " "@);
        let line = qs[0] + " "@ + tail;
        assert(line =~= shell_quoted(ws[0]) + (seq![' '] + tail));
        lemma_split_quoted(ws[0], seq![' '] + tail, acc);
        assert((seq![' '] + tail).drop_first() =~= tail);
        assert(is_blank(' '));
        lemma_split_joined(rest_words, acc.push(ws[0]));
        assert(acc.push(ws[0]) + rest_words =~= acc + ws);
    }
}

/// A command line built by quoting and joining words is read by the shell
/// as exactly those words: an exported script replays each recorded
/// command with the argument vector it was recorded with.
pub proof fn law_shell_join_reads_back(words: Seq<Seq<char>>)
    ensures
        shell_words(shell_joined(words)) == words,
{
    if words.len() == 0 {
        assert(shell_joined(words) == Seq::<char>::empty());
        assert(shell_words(Seq::<char>::empty()) == Seq::<Seq<char>>::empty());
    } else {
        lemma_split_joined(words, Seq::empty());
        assert(Seq::<Seq<char>>::empty() + words =~= words);
    }
}

} // verus!
