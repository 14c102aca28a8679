//! Script generation and session replay: turning a recorded session into a
//! shell script, and showing its history.

use vstd::prelude::*;
use crate::shell::{is_shell_safe, shell_join, shell_joined};
use crate::text::{chars_of, decimal, join, push_char, push_decimal, push_str, views};

verus! {

/// Script generation and session management commands.
pub enum ScriptCommands {
    /// Export session to a reproducible bash script
    Export {
        /// Session file to export
        session_file: String,
        /// Output script file
        output: String,
        /// Include comments in generated script
        comments: bool,
    },
    /// Show session history
    History {
        /// Session file to display
        session_file: String,
    },
    /// Run a p2a script
    Run {
        /// Script file to execute
        script_file: String,
    },
}

/// A recorded argument value, as far as command reconstruction reads it.
pub enum ArgValue {
    /// A JSON string.
    Text(String),
    /// A JSON number that is a non-negative integer.
    Count(u64),
    /// A JSON array; each item is `Some` when it is a string.
    List(Vec<Option<String>>),
    /// Any other JSON value (null, boolean, other number, object).
    Other,
}

/// One recorded command of a session.
pub struct CommandRecord {
    /// The command line as typed.
    pub command_line: String,
    /// The argument vector, when it was recorded.
    pub argv: Vec<String>,
    /// Command category, such as `regression`.
    pub category: String,
    /// Subcommand, such as `ols`.
    pub subcommand: String,
    /// The structured arguments: `Some` with the members of a JSON object,
    /// `None` when the arguments were not an object.
    pub arguments: Option<Vec<(String, ArgValue)>>,
    /// When the command ran.
    pub timestamp: String,
    /// Whether it succeeded.
    pub success: bool,
    /// How long it took, in milliseconds.
    pub duration_ms: u64,
}

/// How a reconstructed flag reads its value.
#[derive(Clone, Copy, PartialEq, Eq, Structural)]
pub enum FlagKind {
    /// A single string, quoted.
    Text,
    /// A list of strings, quoted and space-separated; omitted when empty.
    Words,
    /// A non-negative integer.
    Number,
}

/// The first member with the given key.
pub open spec fn lookup(args: Seq<(String, ArgValue)>, key: Seq<char>) -> Option<ArgValue>
    decreases args.len(),
{
    if args.len() == 0 {
        None
    } else if args[0].0@ == key {
        Some(args[0].1)
    } else {
        lookup(args.drop_first(), key)
    }
}

/// The string items of a list, in order.
pub open spec fn string_items(items: Seq<Option<String>>) -> Seq<Seq<char>>
    decreases items.len(),
{
    if items.len() == 0 {
        Seq::empty()
    } else {
        let rest = string_items(items.drop_last());
        match items.last() {
            Some(s) => rest.push(s@),
            None => rest,
        }
    }
}

/// The words that one flag contributes to a reconstructed command: the
/// flag's name, unless the argument is positional (empty name), then its
/// value or values.
pub open spec fn flag_words(
    args: Seq<(String, ArgValue)>,
    key: Seq<char>,
    kind: FlagKind,
    flag: Seq<char>,
) -> Seq<Seq<char>> {
    let name: Seq<Seq<char>> = if flag.len() > 0 {
        seq![flag]
    } else {
        Seq::empty()
    };
    match (kind, lookup(args, key)) {
        (FlagKind::Text, Some(ArgValue::Text(s))) => name.push(s@),
        (FlagKind::Words, Some(ArgValue::List(items))) => {
            let words = string_items(items@);
            if words.len() > 0 {
                name + words
            } else {
                Seq::empty()
            }
        },
        (FlagKind::Number, Some(ArgValue::Count(n))) => name.push(decimal(n as nat)),
        _ => Seq::empty(),
    }
}

/// The flags that reconstruction knows, in the order they are written:
/// argument key, how its value is read, and the flag's name (empty for a
/// positional argument).
pub open spec fn known_flags() -> Seq<(Seq<char>, FlagKind, Seq<char>)> {
    seq![
        ("dataset"@, FlagKind::Text, ""@),
        ("path"@, FlagKind::Text, ""@),
        ("name"@, FlagKind::Text, "--name"@),
        ("dep_var"@, FlagKind::Text, "-y"@),
        ("indep_vars"@, FlagKind::Words, "-x"@),
        ("entity"@, FlagKind::Text, "--entity"@),
        ("time"@, FlagKind::Text, "--time"@),
        ("cluster"@, FlagKind::Text, "--cluster"@),
        ("robust"@, FlagKind::Text, "--robust"@),
        ("output"@, FlagKind::Text, "-o"@),
        ("col"@, FlagKind::Text, "--col"@),
        ("cols"@, FlagKind::Words, "--cols"@),
        ("k"@, FlagKind::Number, "-k"@),
        ("n"@, FlagKind::Number, "-n"@),
        ("lags"@, FlagKind::Number, "--lags"@),
        ("horizon"@, FlagKind::Number, "--horizon"@),
        ("fe"@, FlagKind::Words, "--fe"@),
        ("instruments"@, FlagKind::Words, "--instruments"@),
        ("exog"@, FlagKind::Words, "--exog"@),
        ("endog"@, FlagKind::Words, "--endog"@),
        ("treat"@, FlagKind::Text, "--treat"@),
        ("post"@, FlagKind::Text, "--post"@),
    ]
}

/// The flags' words, in order.
pub open spec fn flags_words(args: Seq<(String, ArgValue)>, flags: Seq<(Seq<char>, FlagKind, Seq<char>)>) -> Seq<
    Seq<char>,
>
    decreases flags.len(),
{
    if flags.len() == 0 {
        Seq::empty()
    } else {
        flags_words(args, flags.drop_last()) + flag_words(
            args,
            flags.last().0,
            flags.last().1,
            flags.last().2,
        )
    }
}

/// The words of a command rebuilt from a record's structured arguments:
/// category, subcommand, then the known flags.
pub open spec fn reconstructed_words(record: CommandRecord) -> Seq<Seq<char>> {
    seq![record.category@, record.subcommand@] + match record.arguments {
        Some(args) => flags_words(args@, known_flags()),
        None => Seq::empty(),
    }
}

/// A command line rebuilt from a record's structured arguments: its words,
/// each quoted for the shell.
pub open spec fn reconstructed(record: CommandRecord) -> Seq<char> {
    shell_joined(reconstructed_words(record))
}

} // verus!

verus! {

/// Finds the first member with the given key.
pub fn find_arg<'a>(args: &'a [(String, ArgValue)], key: &str) -> (r: Option<&'a ArgValue>)
    ensures
        match lookup(args@, key@) {
            Some(v) => r is Some && *r->0 == v,
            None => r is None,
        },
{
    let wanted = key.to_owned();
    let n = args.len();
    let mut i: usize = 0;
    proof {
        assert(args@.skip(0) =~= args@);
    }
    while i < n
        invariant
            i <= n,
            n == args@.len(),
            wanted@ == key@,
            lookup(args@, key@) == lookup(args@.skip(i as int), key@),
        decreases n - i,
    {
        let ghost rest = args@.skip(i as int);
        proof {
            assert(rest[0] == args@[i as int]);
            assert(rest.drop_first() =~= args@.skip(i + 1));
        }
        if args[i].0 == wanted {
            return Some(&args[i].1);
        }
        i = i + 1;
    }
    proof {
        assert(args@.skip(n as int).len() == 0);
    }
    None
}

/// The string items of a list, in order.
pub fn collect_string_items(items: &[Option<String>]) -> (r: Vec<String>)
    ensures
        views(r@) == string_items(items@),
{
    let mut r: Vec<String> = Vec::new();
    let mut i: usize = 0;
    while i < items.len()
        invariant
            i <= items@.len(),
            views(r@) == string_items(items@.take(i as int)),
        decreases items@.len() - i,
    {
        let ghost before = r@;
        match &items[i] {
            Some(s) => {
                r.push(s.clone());
            },
            None => {},
        }
        proof {
            let t = items@.take(i + 1);
            assert(t.drop_last() =~= items@.take(i as int));
            assert(views(r@) =~= string_items(t));
        }
        i = i + 1;
    }
    proof {
        assert(items@.take(items@.len() as int) =~= items@);
    }
    r
}

/// Appends the words of one flag.
fn push_flag_words(
    words: &mut Vec<String>,
    args: &[(String, ArgValue)],
    key: &str,
    kind: FlagKind,
    flag: &str,
)
    ensures
        views(final(words)@) == views(old(words)@) + flag_words(args@, key@, kind, flag@),
{
    let ghost before = views(words@);
    let named = !flag.is_empty();
    match (kind, find_arg(args, key)) {
        (FlagKind::Text, Some(ArgValue::Text(s))) => {
            if named {
                words.push(flag.to_owned());
            }
            words.push(s.clone());
        },
        (FlagKind::Words, Some(ArgValue::List(items))) => {
            let mut values = collect_string_items(items.as_slice());
            if values.len() > 0 {
                if named {
                    words.push(flag.to_owned());
                }
                let ghost mid = words@;
                let ghost vs = values@;
                words.append(&mut values);
                proof {
                    assert(views(words@) =~= views(mid) + views(vs));
                }
            }
        },
        (FlagKind::Number, Some(ArgValue::Count(n))) => {
            if named {
                words.push(flag.to_owned());
            }
            let mut d = String::new();
            push_decimal(&mut d, *n);
            words.push(d);
        },
        _ => {},
    }
    proof {
        assert(views(words@) =~= before + flag_words(args@, key@, kind, flag@));
    }
}

/// The flags that reconstruction knows, as a table.
fn flag_table() -> (t: Vec<(&'static str, FlagKind, &'static str)>)
    ensures
        t@.map_values(|e: (&str, FlagKind, &str)| (e.0@, e.1, e.2@)) == known_flags(),
{
    let t = vec![
        ("dataset", FlagKind::Text, ""),
        ("path", FlagKind::Text, ""),
        ("name", FlagKind::Text, "--name"),
        ("dep_var", FlagKind::Text, "-y"),
        ("indep_vars", FlagKind::Words, "-x"),
        ("entity", FlagKind::Text, "--entity"),
        ("time", FlagKind::Text, "--time"),
        ("cluster", FlagKind::Text, "--cluster"),
        ("robust", FlagKind::Text, "--robust"),
        ("output", FlagKind::Text, "-o"),
        ("col", FlagKind::Text, "--col"),
        ("cols", FlagKind::Words, "--cols"),
        ("k", FlagKind::Number, "-k"),
        ("n", FlagKind::Number, "-n"),
        ("lags", FlagKind::Number, "--lags"),
        ("horizon", FlagKind::Number, "--horizon"),
        ("fe", FlagKind::Words, "--fe"),
        ("instruments", FlagKind::Words, "--instruments"),
        ("exog", FlagKind::Words, "--exog"),
        ("endog", FlagKind::Words, "--endog"),
        ("treat", FlagKind::Text, "--treat"),
        ("post", FlagKind::Text, "--post"),
    ];
    proof {
        assert(t@.map_values(|e: (&str, FlagKind, &str)| (e.0@, e.1, e.2@)) =~= known_flags());
    }
    t
}

/// Reconstruct a CLI command from a command record's structured arguments,
/// every word quoted for the shell.
pub fn reconstruct_command(record: &CommandRecord) -> (r: String)
    ensures
        r@ == reconstructed(*record),
{
    let mut words: Vec<String> = Vec::new();
    words.push(record.category.clone());
    words.push(record.subcommand.clone());
    let ghost head = views(words@);
    proof {
        assert(head =~= seq![record.category@, record.subcommand@]);
    }
    match &record.arguments {
        Some(args) => {
            let table = flag_table();
            let ghost flags = known_flags();
            let mut i: usize = 0;
            proof {
                assert(flags_words(args@, flags.take(0)) =~= Seq::<Seq<char>>::empty());
                assert(views(words@) =~= head + flags_words(args@, flags.take(0)));
            }
            while i < table.len()
                invariant
                    i <= table@.len(),
                    table@.map_values(|e: (&str, FlagKind, &str)| (e.0@, e.1, e.2@)) == flags,
                    flags == known_flags(),
                    views(words@) == head + flags_words(args@, flags.take(i as int)),
                decreases table@.len() - i,
            {
                let (key, kind, flag) = table[i];
                push_flag_words(&mut words, args.as_slice(), key, kind, flag);
                proof {
                    let t = flags.take(i + 1);
                    assert(t.drop_last() =~= flags.take(i as int));
                    assert(t.last() == flags[i as int]);
                    assert(flags[i as int] == (key@, kind, flag@));
                    assert(views(words@) =~= head + flags_words(args@, t));
                }
                i = i + 1;
            }
            proof {
                assert(flags.take(table@.len() as int) =~= flags);
            }
        },
        None => {
            proof {
                assert(views(words@) =~= reconstructed_words(*record));
            }
        },
    }
    shell_join(words.as_slice())
}

} // verus!

verus! {

/// A dataset registered in a session.
pub struct DatasetInfo {
    /// Dataset name.
    pub name: String,
    /// Number of rows.
    pub nrows: usize,
    /// Number of columns.
    pub ncols: usize,
}

/// A recorded session, as far as scripts and history read it.
pub struct SessionInfo {
    /// Session identifier.
    pub id: String,
    /// Optional title.
    pub title: Option<String>,
    /// Creation time, rendered.
    pub created_at: String,
    /// Time of the last update, rendered.
    pub updated_at: String,
    /// Version of p2a that recorded it.
    pub version: String,
    /// Registered datasets.
    pub datasets: Vec<DatasetInfo>,
    /// Recorded commands, oldest first.
    pub commands: Vec<CommandRecord>,
}

/// What a script command asks for first.
pub enum ScriptRequest {
    /// Load the session file (export and history).
    LoadSession(String),
    /// Check that the script file exists (run).
    CheckScript(String),
}

/// Dispatch a script command to the first outside step it needs.
pub fn execute(cmd: &ScriptCommands) -> (r: ScriptRequest)
    ensures
        match (*cmd, r) {
            (ScriptCommands::Export { session_file, .. }, ScriptRequest::LoadSession(p)) => p@
                == session_file@,
            (ScriptCommands::History { session_file }, ScriptRequest::LoadSession(p)) => p@
                == session_file@,
            (ScriptCommands::Run { script_file }, ScriptRequest::CheckScript(p)) => p@
                == script_file@,
            _ => false,
        },
{
    match cmd {
        ScriptCommands::Export { session_file, .. } => ScriptRequest::LoadSession(
            session_file.clone(),
        ),
        ScriptCommands::History { session_file } => ScriptRequest::LoadSession(session_file.clone()),
        ScriptCommands::Run { script_file } => ScriptRequest::CheckScript(script_file.clone()),
    }
}

/// The name of the temporary session file that a replay script uses.
pub open spec fn temp_session_name(id: Seq<char>) -> Seq<char> {
    ".p2a_session_"@ + id + ".json"@
}

/// Temporary session file name from a unique identifier.
pub fn temp_session_file(id: &str) -> (r: String)
    ensures
        r@ == temp_session_name(id@),
{
    let mut s = String::new();
    push_str(&mut s, ".p2a_session_");
    push_str(&mut s, id);
    push_str(&mut s, ".json");
    s
}

/// The words that replay a record: its recorded argument vector, or else
/// the words rebuilt from its structured arguments.
pub open spec fn replay_words(record: CommandRecord) -> Seq<Seq<char>> {
    if record.argv@.len() > 0 {
        views(record.argv@)
    } else {
        reconstructed_words(record)
    }
}

/// The command line that replays a record: its replay words, quoted.
pub open spec fn replay_line(record: CommandRecord) -> Seq<char> {
    shell_joined(replay_words(record))
}

/// Lines joined into text, each ended by a newline.
pub open spec fn lines_text(lines: Seq<Seq<char>>) -> Seq<char>
    decreases lines.len(),
{
    if lines.len() == 0 {
        Seq::empty()
    } else {
        lines_text(lines.drop_last()) + lines.last() + seq!['\n']
    }
}

/// The pieces of a text between its newlines (one piece when it has none).
pub open spec fn text_pieces(t: Seq<char>) -> Seq<Seq<char>>
    decreases t.len(),
{
    if t.len() == 0 {
        seq![Seq::empty()]
    } else {
        let r = text_pieces(t.drop_last());
        if t.last() == '\n' {
            r.push(Seq::empty())
        } else {
            r.update(r.len() - 1, r.last().push(t.last()))
        }
    }
}

/// A text as comment lines: each of its pieces behind `# `.
pub open spec fn comment_lines(t: Seq<char>) -> Seq<Seq<char>> {
    text_pieces(t).map_values(|p: Seq<char>| seq!['#', ' '] + p)
}

/// A text with every newline followed by `# `, as a comment continues.
pub open spec fn comment_body(t: Seq<char>) -> Seq<char>
    decreases t.len(),
{
    if t.len() == 0 {
        Seq::empty()
    } else if t.last() == '\n' {
        comment_body(t.drop_last()) + seq!['\n', '#', ' ']
    } else {
        comment_body(t.drop_last()).push(t.last())
    }
}

/// The line that replays one record against the temporary session file.
pub open spec fn replay_command(record: CommandRecord) -> Seq<char> {
    "p2a --session \"$SESSION_FILE\" "@ + replay_line(record)
}

/// The lines a script holds for one recorded command.
pub open spec fn command_lines(record: CommandRecord, comments: bool) -> Seq<Seq<char>> {
    (if comments {
        comment_lines(record.command_line@)
    } else {
        Seq::empty()
    }) + seq![replay_command(record), Seq::empty()]
}

/// The lines of all commands, in order.
pub open spec fn commands_lines(records: Seq<CommandRecord>, comments: bool) -> Seq<Seq<char>>
    decreases records.len(),
{
    if records.len() == 0 {
        Seq::empty()
    } else {
        commands_lines(records.drop_last(), comments) + command_lines(records.last(), comments)
    }
}

/// The script's opening lines: interpreter, title and provenance, all but
/// the first as comments.
pub open spec fn header_lines(session: SessionInfo) -> Seq<Seq<char>> {
    seq!["#!/bin/bash"@, "# p2a analytics script"@] + (match session.title {
        Some(t) => comment_lines(t@),
        None => Seq::empty(),
    }) + comment_lines("Generated: "@ + session.updated_at@) + comment_lines(
        "p2a version: "@ + session.version@,
    )
}

/// The lines that set up the replay: strict mode and the session file.
pub open spec fn frame_lines(temp_file: Seq<char>) -> Seq<Seq<char>> {
    seq![
        Seq::empty(),
        "set -euo pipefail"@,
        Seq::empty(),
        "SESSION_FILE=\""@ + temp_file + "\""@,
        Seq::empty(),
    ]
}

/// The closing lines: cleanup and the success message.
pub open spec fn footer_lines() -> Seq<Seq<char>> {
    seq![
        "# Cleanup temporary session file"@,
        "rm -f \"$SESSION_FILE\""@,
        Seq::empty(),
        "echo \"Script completed successfully\""@,
    ]
}

/// The lines of the bash script that replays a session.
pub open spec fn script_lines(session: SessionInfo, temp_file: Seq<char>, comments: bool) -> Seq<
    Seq<char>,
> {
    header_lines(session) + frame_lines(temp_file) + commands_lines(session.commands@, comments)
        + footer_lines()
}

/// The bash script that replays a session.
pub open spec fn export_script_text(session: SessionInfo, temp_file: Seq<char>, comments: bool) -> Seq<
    char,
> {
    lines_text(script_lines(session, temp_file, comments))
}

proof fn lemma_lines_push(a: Seq<Seq<char>>, l: Seq<char>)
    ensures
        lines_text(a.push(l)) == lines_text(a) + l + seq!['\n'],
{
    assert(a.push(l).drop_last() =~= a);
    assert(a.push(l).last() == l);
}

proof fn lemma_lines_concat(a: Seq<Seq<char>>, b: Seq<Seq<char>>)
    ensures
        lines_text(a + b) == lines_text(a) + lines_text(b),
    decreases b.len(),
{
    if b.len() == 0 {
        assert(a + b =~= a);
        assert(lines_text(b) == Seq::<char>::empty());
        assert(lines_text(a) + lines_text(b) =~= lines_text(a));
    } else {
        lemma_lines_concat(a, b.drop_last());
        assert((a + b).drop_last() =~= a + b.drop_last());
        assert((a + b).last() == b.last());
        assert(lines_text(a + b) =~= lines_text(a) + lines_text(b));
    }
}

proof fn lemma_pieces_plain(t: Seq<char>)
    ensures
        text_pieces(t).len() >= 1,
        forall|i: int, k: int|
            0 <= i < text_pieces(t).len() && 0 <= k < text_pieces(t)[i].len()
                ==> text_pieces(t)[i][k] != '\n',
    decreases t.len(),
{
    if t.len() > 0 {
        let u = t.drop_last();
        let c = t.last();
        lemma_pieces_plain(u);
        let r = text_pieces(u);
        let q = text_pieces(t);
        if c == '\n' {
            assert forall|i: int, k: int| 0 <= i < q.len() && 0 <= k < q[i].len() implies q[i][k]
                != '\n' by {
                if i < r.len() {
                    assert(q[i] == r[i]);
                }
            }
        } else {
            let n = r.len() - 1;
            assert forall|i: int, k: int| 0 <= i < q.len() && 0 <= k < q[i].len() implies q[i][k]
                != '\n' by {
                if i < n {
                    assert(q[i] == r[i]);
                } else {
                    assert(q[i] == r[n].push(c));
                    if k < r[n].len() {
                        assert(q[i][k] == r[n][k]);
                    }
                }
            }
        }
    }
}

proof fn lemma_comment_text(t: Seq<char>)
    ensures
        lines_text(comment_lines(t)) == seq!['#', ' '] + comment_body(t) + seq!['\n'],
    decreases t.len(),
{
    lemma_pieces_plain(t);
    let l = comment_lines(t);
    let hash: Seq<char> = seq!['#', ' '];
    if t.len() == 0 {
        assert(l =~= Seq::<Seq<char>>::empty().push(hash + Seq::<char>::empty()));
        lemma_lines_push(Seq::<Seq<char>>::empty(), hash + Seq::<char>::empty());
        assert(lines_text(l) =~= hash + comment_body(t) + seq!['\n']);
    } else {
        let u = t.drop_last();
        let c = t.last();
        lemma_comment_text(u);
        lemma_pieces_plain(u);
        let r = text_pieces(u);
        let lu = comment_lines(u);
        let pre = lines_text(lu.drop_last()) + lu.last();
        assert(lu =~= lu.drop_last().push(lu.last()));
        lemma_lines_push(lu.drop_last(), lu.last());
        assert(lines_text(lu) == pre + seq!['\n']);
        assert(pre =~= hash + comment_body(u)) by {
            assert((pre + seq!['\n']).drop_last() =~= pre);
            assert((hash + comment_body(u) + seq!['\n']).drop_last() =~= hash + comment_body(u));
        }
        if c == '\n' {
            assert(l =~= lu.push(hash + Seq::<char>::empty()));
            lemma_lines_push(lu, hash + Seq::<char>::empty());
            assert(lines_text(l) =~= hash + comment_body(t) + seq!['\n']);
        } else {
            assert(l =~= lu.drop_last().push(lu.last().push(c)));
            lemma_lines_push(lu.drop_last(), lu.last().push(c));
            assert(lines_text(lu.drop_last()) + lu.last().push(c) =~= pre.push(c));
            assert(comment_body(t) == comment_body(u).push(c));
            assert(pre.push(c) =~= hash + comment_body(t));
            assert(lines_text(l) =~= hash + comment_body(t) + seq!['\n']);
        }
    }
}

proof fn lemma_pieces_join(t: Seq<char>)
    ensures
        text_pieces(t).len() >= 1,
        join(text_pieces(t), seq!['\n']) == t,
    decreases t.len(),
{
    if t.len() > 0 {
        let u = t.drop_last();
        let c = t.last();
        lemma_pieces_join(u);
        let r = text_pieces(u);
        let q = text_pieces(t);
        if c == '\n' {
            assert(q.drop_last() =~= r);
            assert(join(q, seq!['\n']) =~= u + seq!['\n'] + Seq::<char>::empty());
        } else {
            let n = r.len() - 1;
            if r.len() == 1 {
                assert(q =~= seq![r[0].push(c)]);
                assert(join(q, seq!['\n']) =~= t);
            } else {
                assert(q.drop_last() =~= r.drop_last());
                let x = join(r.drop_last(), seq!['\n']) + seq!['\n'];
                assert(join(r, seq!['\n']) == x + r[n]);
                assert(q.len() == r.len() && q.last() == r[n].push(c));
                assert(join(q, seq!['\n']) == x + r[n].push(c));
                assert(x + r[n].push(c) =~= (x + r[n]).push(c));
                assert(join(q, seq!['\n']) =~= t);
            }
        }
        assert(t =~= u.push(c));
    }
}

/// Commenting loses nothing: the comment lines of a text, each without its
/// leading `# `, joined by newlines, give the text back.
pub proof fn law_comment_lines_keep_text(t: Seq<char>)
    ensures
        join(comment_lines(t).map_values(|l: Seq<char>| l.skip(2)), seq!['\n']) == t,
{
    lemma_pieces_join(t);
    let ls = comment_lines(t);
    assert(ls.map_values(|l: Seq<char>| l.skip(2)) =~= text_pieces(t)) by {
        assert forall|i: int| 0 <= i < ls.len() implies #[trigger] ls[i].skip(2) == text_pieces(t)[i] by {
            assert(ls[i] == seq!['#', ' '] + text_pieces(t)[i]);
            assert((seq!['#', ' '] + text_pieces(t)[i]).skip(2) =~= text_pieces(t)[i]);
        }
    }
}

/// Appends one line.
fn push_line(out: &mut String, l: &str)
    ensures
        final(out)@ == old(out)@ + l@ + seq!['\n'],
{
    push_str(out, l);
    push_char(out, '\n');
}

/// Appends a text as comment lines: a newline inside it starts a new
/// comment line, so none of it reaches the shell as a command.
fn push_comment(out: &mut String, t: &str)
    ensures
        final(out)@ == old(out)@ + lines_text(comment_lines(t@)),
{
    let ghost start = out@;
    push_char(out, '#');
    push_char(out, ' ');
    let v = chars_of(t);
    let mut i: usize = 0;
    proof {
        assert(t@.take(0) =~= Seq::<char>::empty());
        assert(out@ =~= start + seq!['#', ' '] + comment_body(t@.take(0)));
    }
    while i < v.len()
        invariant
            i <= v@.len(),
            v@ == t@,
            out@ == start + seq!['#', ' '] + comment_body(t@.take(i as int)),
        decreases v@.len() - i,
    {
        if v[i] == '\n' {
            push_char(out, '\n');
            push_char(out, '#');
            push_char(out, ' ');
        } else {
            push_char(out, v[i]);
        }
        proof {
            let s = t@.take(i + 1);
            assert(s.drop_last() =~= t@.take(i as int));
            assert(s.last() == v@[i as int]);
            assert(out@ =~= start + seq!['#', ' '] + comment_body(s));
        }
        i = i + 1;
    }
    push_char(out, '\n');
    proof {
        assert(t@.take(v@.len() as int) =~= t@);
        lemma_comment_text(t@);
        assert(out@ =~= start + lines_text(comment_lines(t@)));
    }
}

/// Appends the script's opening lines.
fn push_header(out: &mut String, session: &SessionInfo)
    ensures
        final(out)@ == old(out)@ + lines_text(header_lines(*session)),
{
    let ghost start = out@;
    push_line(out, "#!/bin/bash");
    push_line(out, "# p2a analytics script");
    let ghost a = seq!["#!/bin/bash"@, "# p2a analytics script"@];
    proof {
        assert(a =~= Seq::<Seq<char>>::empty().push("#!/bin/bash"@).push("# p2a analytics script"@));
        lemma_lines_push(Seq::<Seq<char>>::empty(), "#!/bin/bash"@);
        lemma_lines_push(Seq::<Seq<char>>::empty().push("#!/bin/bash"@), "# p2a analytics script"@);
        assert(out@ =~= start + lines_text(a));
    }
    let ghost b: Seq<Seq<char>> = match &session.title {
        Some(t) => comment_lines(t@),
        None => Seq::empty(),
    };
    match &session.title {
        Some(t) => {
            push_comment(out, t.as_str());
        },
        None => {},
    }
    proof {
        lemma_lines_concat(a, b);
        assert(out@ =~= start + lines_text(a + b));
    }
    let mut generated = String::new();
    push_str(&mut generated, "Generated: ");
    push_str(&mut generated, session.updated_at.as_str());
    push_comment(out, generated.as_str());
    let ghost c = comment_lines(generated@);
    proof {
        lemma_lines_concat(a + b, c);
        assert(out@ =~= start + lines_text(a + b + c));
    }
    let mut version = String::new();
    push_str(&mut version, "p2a version: ");
    push_str(&mut version, session.version.as_str());
    push_comment(out, version.as_str());
    proof {
        let d = comment_lines(version@);
        lemma_lines_concat(a + b + c, d);
        assert(header_lines(*session) =~= a + b + c + d);
        assert(out@ =~= start + lines_text(a + b + c + d));
    }
}

/// Appends the lines that set up the replay.
fn push_frame(out: &mut String, temp_file: &str)
    ensures
        final(out)@ == old(out)@ + lines_text(frame_lines(temp_file@)),
{
    let ghost start = out@;
    let mut assign = String::new();
    push_str(&mut assign, "SESSION_FILE=\"");
    push_str(&mut assign, temp_file);
    push_str(&mut assign, "\"");
    push_line(out, "");
    push_line(out, "set -euo pipefail");
    push_line(out, "");
    push_line(out, assign.as_str());
    push_line(out, "");
    proof {
        let e = Seq::<char>::empty();
        let l0 = Seq::<Seq<char>>::empty();
        let l1 = l0.push(e);
        let l2 = l1.push("set -euo pipefail"@);
        let l3 = l2.push(e);
        let l4 = l3.push(assign@);
        let l5 = l4.push(e);
        lemma_lines_push(l0, e);
        lemma_lines_push(l1, "set -euo pipefail"@);
        lemma_lines_push(l2, e);
        lemma_lines_push(l3, assign@);
        lemma_lines_push(l4, e);
        assert(frame_lines(temp_file@) =~= l5);
        assert(""@ =~= e) by {
            reveal_strlit("");
        }
        assert(out@ =~= start + lines_text(l5));
    }
}

/// Appends the lines of one recorded command.
fn push_command(out: &mut String, record: &CommandRecord, comments: bool)
    ensures
        final(out)@ == old(out)@ + lines_text(command_lines(*record, comments)),
{
    let ghost start = out@;
    let ghost first: Seq<Seq<char>> = if comments {
        comment_lines(record.command_line@)
    } else {
        Seq::empty()
    };
    if comments {
        push_comment(out, record.command_line.as_str());
    }
    proof {
        assert(out@ =~= start + lines_text(first));
    }
    let cmd = if record.argv.len() > 0 {
        shell_join(record.argv.as_slice())
    } else {
        reconstruct_command(record)
    };
    let mut line = String::new();
    push_str(&mut line, "p2a --session \"$SESSION_FILE\" ");
    push_str(&mut line, cmd.as_str());
    push_line(out, line.as_str());
    push_line(out, "");
    proof {
        let e = Seq::<char>::empty();
        assert(line@ == replay_command(*record));
        assert(""@ =~= e) by {
            reveal_strlit("");
        }
        lemma_lines_push(first, line@);
        lemma_lines_push(first.push(line@), e);
        assert(command_lines(*record, comments) =~= first.push(line@).push(e));
        assert(out@ =~= start + lines_text(first.push(line@).push(e)));
    }
}

/// Appends the closing lines.
fn push_footer(out: &mut String)
    ensures
        final(out)@ == old(out)@ + lines_text(footer_lines()),
{
    let ghost start = out@;
    push_line(out, "# Cleanup temporary session file");
    push_line(out, "rm -f \"$SESSION_FILE\"");
    push_line(out, "");
    push_line(out, "echo \"Script completed successfully\"");
    proof {
        let f = footer_lines();
        let l0 = Seq::<Seq<char>>::empty();
        let l1 = l0.push(f[0]);
        let l2 = l1.push(f[1]);
        let l3 = l2.push(f[2]);
        let l4 = l3.push(f[3]);
        lemma_lines_push(l0, f[0]);
        lemma_lines_push(l1, f[1]);
        lemma_lines_push(l2, f[2]);
        lemma_lines_push(l3, f[3]);
        assert(f =~= l4);
        assert(""@ =~= Seq::<char>::empty()) by {
            reveal_strlit("");
        }
        assert(out@ =~= start + lines_text(l4));
    }
}

/// Generate the bash script that replays a session's commands against a
/// temporary session file. Every text that comes from the session (title,
/// timestamps, recorded command lines) is written as comment lines, and
/// every replayed argument as a quoted word.
pub fn export_script(session: &SessionInfo, temp_file: &str, comments: bool) -> (r: String)
    ensures
        r@ == export_script_text(*session, temp_file@, comments),
{
    let mut script = String::new();
    push_header(&mut script, session);
    push_frame(&mut script, temp_file);
    let ghost head = script@;
    let records = &session.commands;
    let mut i: usize = 0;
    proof {
        assert(records@.take(0) =~= Seq::<CommandRecord>::empty());
        assert(script@ =~= head + lines_text(commands_lines(records@.take(0), comments)));
    }
    while i < records.len()
        invariant
            i <= records@.len(),
            script@ == head + lines_text(commands_lines(records@.take(i as int), comments)),
        decreases records@.len() - i,
    {
        push_command(&mut script, &records[i], comments);
        proof {
            let t = records@.take(i + 1);
            assert(t.drop_last() =~= records@.take(i as int));
            assert(t.last() == records@[i as int]);
            lemma_lines_concat(
                commands_lines(records@.take(i as int), comments),
                command_lines(records@[i as int], comments),
            );
            assert(script@ =~= head + lines_text(commands_lines(t, comments)));
        }
        i = i + 1;
    }
    proof {
        assert(records@.take(records@.len() as int) =~= records@);
    }
    push_footer(&mut script);
    proof {
        let h = header_lines(*session);
        let f = frame_lines(temp_file@);
        let c = commands_lines(session.commands@, comments);
        let e = footer_lines();
        lemma_lines_concat(h, f);
        lemma_lines_concat(h + f, c);
        lemma_lines_concat(h + f + c, e);
        assert(script@ =~= lines_text(h + f + c + e));
    }
    script
}

} // verus!

verus! {

/// Reported when a session file cannot be loaded.
pub fn load_failure_message(err: &str) -> (r: String)
    ensures
        r@ == "Failed to load session: "@ + err@,
{
    let mut s = String::new();
    push_str(&mut s, "Failed to load session: ");
    push_str(&mut s, err);
    s
}

/// Reported after a script was written.
pub fn export_report(n_commands: usize, output: &str) -> (r: String)
    ensures
        r@ == "Exported "@ + decimal(n_commands as nat) + " commands to: "@ + output@,
{
    let mut s = String::new();
    push_str(&mut s, "Exported ");
    push_decimal(&mut s, n_commands as u64);
    push_str(&mut s, " commands to: ");
    push_str(&mut s, output);
    s
}

/// One history line for a dataset.
pub open spec fn dataset_line(d: DatasetInfo) -> Seq<char> {
    "  - "@ + d.name@ + " ("@ + decimal(d.nrows as nat) + " rows, "@ + decimal(d.ncols as nat)
        + " cols)\n"@
}

/// History lines for the datasets.
pub open spec fn dataset_lines(ds: Seq<DatasetInfo>) -> Seq<char>
    decreases ds.len(),
{
    if ds.len() == 0 {
        Seq::empty()
    } else {
        dataset_lines(ds.drop_last()) + dataset_line(ds.last())
    }
}

/// One numbered history line for a command.
pub open spec fn command_line_entry(number: nat, r: CommandRecord) -> Seq<char> {
    "  "@ + decimal(number) + ". ["@ + (if r.success {
        "OK"@
    } else {
        "FAIL"@
    }) + "] "@ + r.command_line@ + " ("@ + decimal(r.duration_ms as nat) + "ms)\n"@
}

/// Numbered history lines for the commands, counting from one.
pub open spec fn command_entries(rs: Seq<CommandRecord>) -> Seq<char>
    decreases rs.len(),
{
    if rs.len() == 0 {
        Seq::empty()
    } else {
        command_entries(rs.drop_last()) + command_line_entry(rs.len(), rs.last())
    }
}

/// The text form of a session's history.
pub open spec fn history_text_of(s: SessionInfo) -> Seq<char> {
    "Session: "@ + s.id@ + "\n"@ + (match s.title {
        Some(t) => "Title: "@ + t@ + "\n"@,
        None => Seq::empty(),
    }) + "Created: "@ + s.created_at@ + "\n"@ + "Updated: "@ + s.updated_at@ + "\n"@ + "Version: "@
        + s.version@ + "\n"@ + "\n"@ + "Datasets ("@ + decimal(s.datasets@.len()) + "):\n"@
        + dataset_lines(s.datasets@) + "\n"@ + "Commands ("@ + decimal(s.commands@.len()) + "):\n"@
        + command_entries(s.commands@)
}

fn push_dataset_line(out: &mut String, d: &DatasetInfo)
    ensures
        final(out)@ == old(out)@ + dataset_line(*d),
{
    push_str(out, "  - ");
    push_str(out, d.name.as_str());
    push_str(out, " (");
    push_decimal(out, d.nrows as u64);
    push_str(out, " rows, ");
    push_decimal(out, d.ncols as u64);
    push_str(out, " cols)\n");
    proof {
        assert(out@ =~= old(out)@ + dataset_line(*d));
    }
}

fn push_command_entry(out: &mut String, number: u64, c: &CommandRecord)
    ensures
        final(out)@ == old(out)@ + command_line_entry(number as nat, *c),
{
    push_str(out, "  ");
    push_decimal(out, number);
    push_str(out, ". [");
    if c.success {
        push_str(out, "OK");
    } else {
        push_str(out, "FAIL");
    }
    push_str(out, "] ");
    push_str(out, c.command_line.as_str());
    push_str(out, " (");
    push_decimal(out, c.duration_ms);
    push_str(out, "ms)\n");
    proof {
        assert(out@ =~= old(out)@ + command_line_entry(number as nat, *c));
    }
}

fn push_dataset_lines(out: &mut String, ds: &Vec<DatasetInfo>)
    ensures
        final(out)@ == old(out)@ + dataset_lines(ds@),
{
    let ghost h1 = out@;
    let mut i: usize = 0;
    proof {
        assert(ds@.take(0) =~= Seq::<DatasetInfo>::empty());
        assert(out@ =~= h1 + dataset_lines(ds@.take(0)));
    }
    while i < ds.len()
        invariant
            i <= ds@.len(),
            out@ == h1 + dataset_lines(ds@.take(i as int)),
        decreases ds@.len() - i,
    {
        push_dataset_line(out, &ds[i]);
        proof {
            let t = ds@.take(i + 1);
            assert(t.drop_last() =~= ds@.take(i as int));
            assert(t.last() == ds@[i as int]);
            assert(out@ =~= h1 + dataset_lines(t));
        }
        i = i + 1;
    }
    proof {
        assert(ds@.take(ds@.len() as int) =~= ds@);
    }
}

fn push_command_entries(out: &mut String, cs: &Vec<CommandRecord>)
    ensures
        final(out)@ == old(out)@ + command_entries(cs@),
{
    let ghost h2 = out@;
    let mut k: usize = 0;
    proof {
        assert(cs@.take(0) =~= Seq::<CommandRecord>::empty());
        assert(out@ =~= h2 + command_entries(cs@.take(0)));
    }
    while k < cs.len()
        invariant
            k <= cs@.len(),
            out@ == h2 + command_entries(cs@.take(k as int)),
        decreases cs@.len() - k,
    {
        push_command_entry(out, (k + 1) as u64, &cs[k]);
        proof {
            let t = cs@.take(k + 1);
            assert(t.drop_last() =~= cs@.take(k as int));
            assert(t.last() == cs@[k as int]);
            assert(t.len() == k + 1);
            assert(out@ =~= h2 + command_entries(t));
        }
        k = k + 1;
    }
    proof {
        assert(cs@.take(cs@.len() as int) =~= cs@);
    }
}

/// Render a session's history as text.
pub fn history_text(s: &SessionInfo) -> (r: String)
    ensures
        r@ == history_text_of(*s),
{
    let mut out = String::new();
    push_str(&mut out, "Session: ");
    push_str(&mut out, s.id.as_str());
    push_str(&mut out, "\n");
    match &s.title {
        Some(t) => {
            push_str(&mut out, "Title: ");
            push_str(&mut out, t.as_str());
            push_str(&mut out, "\n");
        },
        None => {},
    }
    push_str(&mut out, "Created: ");
    push_str(&mut out, s.created_at.as_str());
    push_str(&mut out, "\n");
    push_str(&mut out, "Updated: ");
    push_str(&mut out, s.updated_at.as_str());
    push_str(&mut out, "\n");
    push_str(&mut out, "Version: ");
    push_str(&mut out, s.version.as_str());
    push_str(&mut out, "\n");
    push_str(&mut out, "\n");
    push_str(&mut out, "Datasets (");
    push_decimal(&mut out, s.datasets.len() as u64);
    push_str(&mut out, "):\n");
    push_dataset_lines(&mut out, &s.datasets);
    push_str(&mut out, "\n");
    push_str(&mut out, "Commands (");
    push_decimal(&mut out, s.commands.len() as u64);
    push_str(&mut out, "):\n");
    push_command_entries(&mut out, &s.commands);
    proof {
        assert(out@ =~= history_text_of(*s));
    }
    out
}

/// Reported when the script to run does not exist.
pub fn script_missing_message(path: &str) -> (r: String)
    ensures
        r@ == "Script file not found: "@ + path@,
{
    let mut s = String::new();
    push_str(&mut s, "Script file not found: ");
    push_str(&mut s, path);
    s
}

/// Announced before a script runs.
pub fn script_start_message(path: &str) -> (r: String)
    ensures
        r@ == "Running script: "@ + path@,
{
    let mut s = String::new();
    push_str(&mut s, "Running script: ");
    push_str(&mut s, path);
    s
}

/// The closing report of a script run: success, or the exit code as
/// `Some(code)`, or `None` when the process had no code.
pub open spec fn run_result_text(success: bool, code: Option<i32>) -> Seq<char> {
    if success {
        "Script completed successfully"@
    } else {
        "Script failed with exit code: "@ + match code {
            Some(c) => "Some("@ + crate::text::signed_decimal(c as int) + ")"@,
            None => "None"@,
        }
    }
}

/// The closing report of a script run; the flag tells whether it is an error.
pub fn run_result_message(success: bool, code: Option<i32>) -> (r: (String, bool))
    ensures
        r.0@ == run_result_text(success, code),
        r.1 == !success,
{
    let mut s = String::new();
    if success {
        push_str(&mut s, "Script completed successfully");
    } else {
        push_str(&mut s, "Script failed with exit code: ");
        match code {
            Some(c) => {
                push_str(&mut s, "Some(");
                crate::text::push_signed_decimal(&mut s, c as i64);
                push_str(&mut s, ")");
            },
            None => {
                push_str(&mut s, "None");
            },
        }
    }
    (s, !success)
}

/// A record is replayed by a line that the shell reads as exactly its
/// replay words: the recorded argument vector, or the words rebuilt from
/// its structured arguments.
pub proof fn law_replay_line_reads_words(record: CommandRecord)
    ensures
        crate::shell::shell_words(replay_line(record)) == replay_words(record),
{
    crate::shell::law_shell_join_reads_back(replay_words(record));
}

/// A line that is a comment: it starts with `#` and holds no newline.
pub open spec fn is_comment_line(l: Seq<char>) -> bool {
    l.len() > 0 && l[0] == '#' && forall|k: int| 0 <= k < l.len() ==> l[k] != '\n'
}

/// A file name that needs no quoting, not even inside double quotes.
pub open spec fn plain_name(p: Seq<char>) -> bool {
    forall|k: int| 0 <= k < p.len() ==> is_shell_safe(p[k])
}

/// A line of a replay script that runs nothing taken from the session: a
/// comment, a blank line, a fixed line of the script's frame, the
/// assignment of the temporary file's plain name, or the replay command
/// followed by quoted words.
pub open spec fn inert_line(l: Seq<char>) -> bool {
    ||| is_comment_line(l)
    ||| l.len() == 0
    ||| l == "#!/bin/bash"@
    ||| l == "# p2a analytics script"@
    ||| l == "set -euo pipefail"@
    ||| l == "# Cleanup temporary session file"@
    ||| l == "rm -f \"$SESSION_FILE\""@
    ||| l == "echo \"Script completed successfully\""@
    ||| exists|p: Seq<char>| plain_name(p) && l == "SESSION_FILE=\""@ + p + "\""@
    ||| exists|ws: Seq<Seq<char>>|
        ws.len() > 0 && l == "p2a --session \"$SESSION_FILE\" "@ + #[trigger] shell_joined(ws)
}

/// Every line of a sequence is inert.
pub open spec fn all_inert(ls: Seq<Seq<char>>) -> bool {
    forall|i: int| 0 <= i < ls.len() ==> inert_line(#[trigger] ls[i])
}

proof fn lemma_inert_concat(a: Seq<Seq<char>>, b: Seq<Seq<char>>)
    requires
        all_inert(a),
        all_inert(b),
    ensures
        all_inert(a + b),
{
    assert forall|i: int| 0 <= i < (a + b).len() implies inert_line(#[trigger] (a + b)[i]) by {
        if i < a.len() {
            assert((a + b)[i] == a[i]);
        } else {
            assert((a + b)[i] == b[i - a.len()]);
        }
    }
}

proof fn lemma_comment_lines_inert(t: Seq<char>)
    ensures
        all_inert(comment_lines(t)),
{
    lemma_pieces_plain(t);
    let ls = comment_lines(t);
    assert forall|i: int| 0 <= i < ls.len() implies inert_line(#[trigger] ls[i]) by {
        let piece = text_pieces(t)[i];
        assert(ls[i] == seq!['#', ' '] + piece);
        assert forall|k: int| 0 <= k < ls[i].len() implies ls[i][k] != '\n' by {
            if k >= 2 {
                assert(ls[i][k] == piece[k - 2]);
            }
        }
        assert(is_comment_line(ls[i]));
    }
}

proof fn lemma_command_lines_inert(record: CommandRecord, comments: bool)
    ensures
        all_inert(command_lines(record, comments)),
{
    let first: Seq<Seq<char>> = if comments {
        comment_lines(record.command_line@)
    } else {
        Seq::empty()
    };
    lemma_comment_lines_inert(record.command_line@);
    let ws = replay_words(record);
    assert(ws.len() > 0);
    let rest = seq![replay_command(record), Seq::<char>::empty()];
    assert(inert_line(rest[0])) by {
        assert(rest[0] == "p2a --session \"$SESSION_FILE\" "@ + shell_joined(ws));
    }
    assert(inert_line(rest[1]));
    assert(all_inert(rest));
    lemma_inert_concat(first, rest);
}

proof fn lemma_commands_inert(records: Seq<CommandRecord>, comments: bool)
    ensures
        all_inert(commands_lines(records, comments)),
    decreases records.len(),
{
    if records.len() > 0 {
        lemma_commands_inert(records.drop_last(), comments);
        lemma_command_lines_inert(records.last(), comments);
        lemma_inert_concat(
            commands_lines(records.drop_last(), comments),
            command_lines(records.last(), comments),
        );
    }
}

/// The temporary session file named from a plain identifier (such as a
/// UUID) has a plain name itself, so its assignment in a script is inert.
pub proof fn law_temp_session_name_is_plain(id: Seq<char>)
    requires
        plain_name(id),
    ensures
        plain_name(temp_session_name(id)),
{
    reveal_strlit(".p2a_session_");
    reveal_strlit(".json");
    let a = ".p2a_session_"@;
    let b = ".json"@;
    let n = temp_session_name(id);
    assert forall|k: int| 0 <= k < n.len() implies is_shell_safe(n[k]) by {
        if k < a.len() {
            assert(n[k] == a[k]);
        } else if k < a.len() + id.len() {
            assert(n[k] == id[k - a.len()]);
        } else {
            assert(n[k] == b[k - a.len() - id.len()]);
        }
    }
}

/// No text of a session runs when its exported script runs: the script
/// is its lines, each ended by a newline, and every line is a comment, a
/// blank line, a fixed line of the frame, the assignment of the temporary
/// file's name, or the replay command followed by quoted words. A title,
/// timestamp or recorded command line that holds newlines becomes several
/// comment lines.
pub proof fn law_export_lines_are_inert(session: SessionInfo, temp_file: Seq<char>, comments: bool)
    requires
        plain_name(temp_file),
    ensures
        export_script_text(session, temp_file, comments) == lines_text(
            script_lines(session, temp_file, comments),
        ),
        all_inert(script_lines(session, temp_file, comments)),
{
    let fixed = seq!["#!/bin/bash"@, "# p2a analytics script"@];
    assert(all_inert(fixed)) by {
        assert(inert_line(fixed[0]));
        assert(inert_line(fixed[1]));
    }
    let title: Seq<Seq<char>> = match session.title {
        Some(t) => comment_lines(t@),
        None => Seq::empty(),
    };
    match session.title {
        Some(t) => lemma_comment_lines_inert(t@),
        None => {},
    }
    lemma_comment_lines_inert("Generated: "@ + session.updated_at@);
    lemma_comment_lines_inert("p2a version: "@ + session.version@);
    lemma_inert_concat(fixed, title);
    lemma_inert_concat(fixed + title, comment_lines("Generated: "@ + session.updated_at@));
    lemma_inert_concat(
        fixed + title + comment_lines("Generated: "@ + session.updated_at@),
        comment_lines("p2a version: "@ + session.version@),
    );
    let h = header_lines(session);
    assert(h =~= fixed + title + comment_lines("Generated: "@ + session.updated_at@)
        + comment_lines("p2a version: "@ + session.version@));
    let f = frame_lines(temp_file);
    assert(all_inert(f)) by {
        assert(inert_line(f[0]));
        assert(inert_line(f[1]));
        assert(inert_line(f[2]));
        assert(plain_name(temp_file) && f[3] == "SESSION_FILE=\""@ + temp_file + "\""@);
        assert(inert_line(f[3]));
        assert(inert_line(f[4]));
    }
    let c = commands_lines(session.commands@, comments);
    lemma_commands_inert(session.commands@, comments);
    let e = footer_lines();
    assert(all_inert(e)) by {
        assert(inert_line(e[0]));
        assert(inert_line(e[1]));
        assert(inert_line(e[2]));
        assert(inert_line(e[3]));
    }
    lemma_inert_concat(h, f);
    lemma_inert_concat(h + f, c);
    lemma_inert_concat(h + f + c, e);
}

/// The text value of a recorded argument.
pub open spec fn text_arg(args: Seq<(String, ArgValue)>, key: Seq<char>) -> Option<Seq<char>> {
    match lookup(args, key) {
        Some(ArgValue::Text(s)) => Some(s@),
        _ => None,
    }
}

/// The string items of a recorded list argument (none when it is not a list).
pub open spec fn list_arg(args: Seq<(String, ArgValue)>, key: Seq<char>) -> Seq<Seq<char>> {
    match lookup(args, key) {
        Some(ArgValue::List(items)) => string_items(items@),
        _ => Seq::empty(),
    }
}

/// The count value of a recorded argument.
pub open spec fn count_arg(args: Seq<(String, ArgValue)>, key: Seq<char>) -> Option<u64> {
    match lookup(args, key) {
        Some(ArgValue::Count(n)) => Some(n),
        _ => None,
    }
}

/// Somewhere in the words, `flag` is followed directly by `vals`.
pub open spec fn follows(words: Seq<Seq<char>>, flag: Seq<char>, vals: Seq<Seq<char>>) -> bool {
    exists|j: int|
        0 <= j && j + 1 + vals.len() <= words.len() && #[trigger] words[j] == flag && words.subrange(
            j + 1,
            j + 1 + vals.len(),
        ) == vals
}

/// The words of a rebuilt command put every recorded argument where the
/// command line takes it: the dataset right after the subcommand, then the
/// path, and every other value behind the flag of its own name (`--entity`
/// for `entity`, `--time` for `time`, ...), or the short flag the command
/// line gives it (`-y` dependent variable, `-x` regressors, `-o` output,
/// `-k`, `-n`).
pub open spec fn arguments_in_place(args: Seq<(String, ArgValue)>, words: Seq<Seq<char>>) -> bool {
    &&& (text_arg(args, "dataset"@) matches Some(v) ==> words.len() > 2 && words[2] == v)
    &&& (text_arg(args, "path"@) matches Some(v) ==> {
        let at: int = if text_arg(args, "dataset"@) is Some { 3 } else { 2 };
        words.len() > at && words[at] == v
    })
    &&& (text_arg(args, "name"@) matches Some(v) ==> follows(words, "--name"@, seq![v]))
    &&& (text_arg(args, "dep_var"@) matches Some(v) ==> follows(words, "-y"@, seq![v]))
    &&& (list_arg(args, "indep_vars"@).len() > 0 ==> follows(words, "-x"@, list_arg(args, "indep_vars"@)))
    &&& (text_arg(args, "entity"@) matches Some(v) ==> follows(words, "--entity"@, seq![v]))
    &&& (text_arg(args, "time"@) matches Some(v) ==> follows(words, "--time"@, seq![v]))
    &&& (text_arg(args, "cluster"@) matches Some(v) ==> follows(words, "--cluster"@, seq![v]))
    &&& (text_arg(args, "robust"@) matches Some(v) ==> follows(words, "--robust"@, seq![v]))
    &&& (text_arg(args, "output"@) matches Some(v) ==> follows(words, "-o"@, seq![v]))
    &&& (text_arg(args, "col"@) matches Some(v) ==> follows(words, "--col"@, seq![v]))
    &&& (list_arg(args, "cols"@).len() > 0 ==> follows(words, "--cols"@, list_arg(args, "cols"@)))
    &&& (count_arg(args, "k"@) matches Some(n) ==> follows(words, "-k"@, seq![decimal(n as nat)]))
    &&& (count_arg(args, "n"@) matches Some(n) ==> follows(words, "-n"@, seq![decimal(n as nat)]))
    &&& (count_arg(args, "lags"@) matches Some(n) ==> follows(words, "--lags"@, seq![decimal(n as nat)]))
    &&& (count_arg(args, "horizon"@) matches Some(n) ==> follows(words, "--horizon"@, seq![decimal(n as nat)]))
    &&& (list_arg(args, "fe"@).len() > 0 ==> follows(words, "--fe"@, list_arg(args, "fe"@)))
    &&& (list_arg(args, "instruments"@).len() > 0 ==> follows(words, "--instruments"@, list_arg(args, "instruments"@)))
    &&& (list_arg(args, "exog"@).len() > 0 ==> follows(words, "--exog"@, list_arg(args, "exog"@)))
    &&& (list_arg(args, "endog"@).len() > 0 ==> follows(words, "--endog"@, list_arg(args, "endog"@)))
    &&& (text_arg(args, "treat"@) matches Some(v) ==> follows(words, "--treat"@, seq![v]))
    &&& (text_arg(args, "post"@) matches Some(v) ==> follows(words, "--post"@, seq![v]))
}

proof fn lemma_flags_words_concat(
    args: Seq<(String, ArgValue)>,
    a: Seq<(Seq<char>, FlagKind, Seq<char>)>,
    b: Seq<(Seq<char>, FlagKind, Seq<char>)>,
)
    ensures
        flags_words(args, a + b) == flags_words(args, a) + flags_words(args, b),
    decreases b.len(),
{
    if b.len() == 0 {
        assert(a + b =~= a);
        assert(flags_words(args, a) + flags_words(args, b) =~= flags_words(args, a));
    } else {
        lemma_flags_words_concat(args, a, b.drop_last());
        assert((a + b).drop_last() =~= a + b.drop_last());
        assert((a + b).last() == b.last());
        assert(flags_words(args, a + b) =~= flags_words(args, a) + flags_words(args, b));
    }
}

/// Where the words of the flag at index `i` of the table stand in a
/// rebuilt command.
proof fn lemma_flag_at(record: CommandRecord, i: int) -> (j: int)
    requires
        record.arguments is Some,
        0 <= i < known_flags().len(),
    ensures
        ({
            let args = record.arguments->0@;
            let f = known_flags()[i];
            let fw = flag_words(args, f.0, f.1, f.2);
            let words = reconstructed_words(record);
            &&& j == 2 + flags_words(args, known_flags().take(i)).len()
            &&& j + fw.len() <= words.len()
            &&& words.subrange(j, j + fw.len()) == fw
        }),
{
    let args = record.arguments->0@;
    let kf = known_flags();
    let f = kf[i];
    let pre = kf.take(i);
    let one = seq![f];
    let post = kf.skip(i + 1);
    assert(kf =~= pre + one + post);
    lemma_flags_words_concat(args, pre, one);
    lemma_flags_words_concat(args, pre + one, post);
    assert(one.drop_last() =~= Seq::<(Seq<char>, FlagKind, Seq<char>)>::empty());
    assert(one.last() == f);
    assert(flags_words(args, one.drop_last()) =~= Seq::<Seq<char>>::empty());
    assert(flags_words(args, one) =~= flag_words(args, f.0, f.1, f.2));
    let fw = flag_words(args, f.0, f.1, f.2);
    let words = reconstructed_words(record);
    let head = seq![record.category@, record.subcommand@];
    assert(words =~= head + flags_words(args, pre) + fw + flags_words(args, post));
    let j: int = 2 + flags_words(args, pre).len() as int;
    assert(words.subrange(j, j + fw.len()) =~= fw);
    j
}

proof fn lemma_text_flag(record: CommandRecord, i: int)
    requires
        record.arguments is Some,
        0 <= i < known_flags().len(),
        known_flags()[i].1 == FlagKind::Text,
        known_flags()[i].2.len() > 0,
    ensures
        text_arg(record.arguments->0@, known_flags()[i].0) matches Some(v) ==> follows(
            reconstructed_words(record),
            known_flags()[i].2,
            seq![v],
        ),
{
    let j = lemma_flag_at(record, i);
    let words = reconstructed_words(record);
    let f = known_flags()[i];
    if text_arg(record.arguments->0@, f.0) is Some {
        let v = text_arg(record.arguments->0@, f.0)->0;
        assert(words.subrange(j, j + 2) =~= seq![f.2, v]);
        assert(words[j] == f.2);
        assert(words.subrange(j + 1, j + 2) =~= seq![v]);
    }
}

proof fn lemma_words_flag(record: CommandRecord, i: int)
    requires
        record.arguments is Some,
        0 <= i < known_flags().len(),
        known_flags()[i].1 == FlagKind::Words,
        known_flags()[i].2.len() > 0,
    ensures
        list_arg(record.arguments->0@, known_flags()[i].0).len() > 0 ==> follows(
            reconstructed_words(record),
            known_flags()[i].2,
            list_arg(record.arguments->0@, known_flags()[i].0),
        ),
{
    let j = lemma_flag_at(record, i);
    let words = reconstructed_words(record);
    let f = known_flags()[i];
    let vals = list_arg(record.arguments->0@, f.0);
    if vals.len() > 0 {
        let fw = seq![f.2] + vals;
        assert(flag_words(record.arguments->0@, f.0, f.1, f.2) == fw);
        assert(words[j] == words.subrange(j, j + fw.len())[0]);
        assert(words.subrange(j + 1, j + 1 + vals.len()) =~= words.subrange(j, j + fw.len()).skip(1));
        assert(fw.skip(1) =~= vals);
    }
}

proof fn lemma_number_flag(record: CommandRecord, i: int)
    requires
        record.arguments is Some,
        0 <= i < known_flags().len(),
        known_flags()[i].1 == FlagKind::Number,
        known_flags()[i].2.len() > 0,
    ensures
        count_arg(record.arguments->0@, known_flags()[i].0) matches Some(n) ==> follows(
            reconstructed_words(record),
            known_flags()[i].2,
            seq![decimal(n as nat)],
        ),
{
    let j = lemma_flag_at(record, i);
    let words = reconstructed_words(record);
    let f = known_flags()[i];
    if count_arg(record.arguments->0@, f.0) is Some {
        let d = decimal(count_arg(record.arguments->0@, f.0)->0 as nat);
        assert(words.subrange(j, j + 2) =~= seq![f.2, d]);
        assert(words[j] == f.2);
        assert(words.subrange(j + 1, j + 2) =~= seq![d]);
    }
}

/// A rebuilt command puts each recorded argument where the command line
/// takes it: the dataset right after the subcommand, then the path, and
/// each other value right behind the flag of its own name, such as the
/// value of `entity` behind `--entity` and that of `time` behind `--time`.
pub proof fn law_reconstruct_flags_name_keys(record: CommandRecord)
    requires
        record.arguments is Some,
    ensures
        arguments_in_place(record.arguments->0@, reconstructed_words(record)),
{
    let args = record.arguments->0@;
    let words = reconstructed_words(record);
    reveal_strlit("");
    assert(known_flags()[0] == ("dataset"@, FlagKind::Text, ""@));
    assert(known_flags()[1] == ("path"@, FlagKind::Text, ""@));
    let j0 = lemma_flag_at(record, 0);
    let j1 = lemma_flag_at(record, 1);
    assert(known_flags().take(0) =~= Seq::<(Seq<char>, FlagKind, Seq<char>)>::empty());
    assert(known_flags().take(1) =~= seq![known_flags()[0]]);
    assert(seq![known_flags()[0]].drop_last() =~= Seq::<(Seq<char>, FlagKind, Seq<char>)>::empty());
    if text_arg(args, "dataset"@) is Some {
        assert(words.subrange(j0, j0 + 1)[0] == words[j0]);
    }
    if text_arg(args, "path"@) is Some {
        assert(words.subrange(j1, j1 + 1)[0] == words[j1]);
    }
    assert(known_flags()[2] == ("name"@, FlagKind::Text, "--name"@));
    reveal_strlit("--name");
    assert("--name"@ =~= seq!['-', '-', 'n', 'a', 'm', 'e']);
    lemma_text_flag(record, 2);
    assert(known_flags()[3] == ("dep_var"@, FlagKind::Text, "-y"@));
    reveal_strlit("-y");
    assert("-y"@ =~= seq!['-', 'y']);
    lemma_text_flag(record, 3);
    assert(known_flags()[4] == ("indep_vars"@, FlagKind::Words, "-x"@));
    reveal_strlit("-x");
    assert("-x"@ =~= seq!['-', 'x']);
    lemma_words_flag(record, 4);
    assert(known_flags()[5] == ("entity"@, FlagKind::Text, "--entity"@));
    reveal_strlit("--entity");
    assert("--entity"@ =~= seq!['-', '-', 'e', 'n', 't', 'i', 't', 'y']);
    lemma_text_flag(record, 5);
    assert(known_flags()[6] == ("time"@, FlagKind::Text, "--time"@));
    reveal_strlit("--time");
    assert("--time"@ =~= seq!['-', '-', 't', 'i', 'm', 'e']);
    lemma_text_flag(record, 6);
    assert(known_flags()[7] == ("cluster"@, FlagKind::Text, "--cluster"@));
    reveal_strlit("--cluster");
    assert("--cluster"@ =~= seq!['-', '-', 'c', 'l', 'u', 's', 't', 'e', 'r']);
    lemma_text_flag(record, 7);
    assert(known_flags()[8] == ("robust"@, FlagKind::Text, "--robust"@));
    reveal_strlit("--robust");
    assert("--robust"@ =~= seq!['-', '-', 'r', 'o', 'b', 'u', 's', 't']);
    lemma_text_flag(record, 8);
    assert(known_flags()[9] == ("output"@, FlagKind::Text, "-o"@));
    reveal_strlit("-o");
    assert("-o"@ =~= seq!['-', 'o']);
    lemma_text_flag(record, 9);
    assert(known_flags()[10] == ("col"@, FlagKind::Text, "--col"@));
    reveal_strlit("--col");
    assert("--col"@ =~= seq!['-', '-', 'c', 'o', 'l']);
    lemma_text_flag(record, 10);
    assert(known_flags()[11] == ("cols"@, FlagKind::Words, "--cols"@));
    reveal_strlit("--cols");
    assert("--cols"@ =~= seq!['-', '-', 'c', 'o', 'l', 's']);
    lemma_words_flag(record, 11);
    assert(known_flags()[12] == ("k"@, FlagKind::Number, "-k"@));
    reveal_strlit("-k");
    assert("-k"@ =~= seq!['-', 'k']);
    lemma_number_flag(record, 12);
    assert(known_flags()[13] == ("n"@, FlagKind::Number, "-n"@));
    reveal_strlit("-n");
    assert("-n"@ =~= seq!['-', 'n']);
    lemma_number_flag(record, 13);
    assert(known_flags()[14] == ("lags"@, FlagKind::Number, "--lags"@));
    reveal_strlit("--lags");
    assert("--lags"@ =~= seq!['-', '-', 'l', 'a', 'g', 's']);
    lemma_number_flag(record, 14);
    assert(known_flags()[15] == ("horizon"@, FlagKind::Number, "--horizon"@));
    reveal_strlit("--horizon");
    assert("--horizon"@ =~= seq!['-', '-', 'h', 'o', 'r', 'i', 'z', 'o', 'n']);
    lemma_number_flag(record, 15);
    assert(known_flags()[16] == ("fe"@, FlagKind::Words, "--fe"@));
    reveal_strlit("--fe");
    assert("--fe"@ =~= seq!['-', '-', 'f', 'e']);
    lemma_words_flag(record, 16);
    assert(known_flags()[17] == ("instruments"@, FlagKind::Words, "--instruments"@));
    reveal_strlit("--instruments");
    assert("--instruments"@ =~= seq!['-', '-', 'i', 'n', 's', 't', 'r', 'u', 'm', 'e', 'n', 't', 's']);
    lemma_words_flag(record, 17);
    assert(known_flags()[18] == ("exog"@, FlagKind::Words, "--exog"@));
    reveal_strlit("--exog");
    assert("--exog"@ =~= seq!['-', '-', 'e', 'x', 'o', 'g']);
    lemma_words_flag(record, 18);
    assert(known_flags()[19] == ("endog"@, FlagKind::Words, "--endog"@));
    reveal_strlit("--endog");
    assert("--endog"@ =~= seq!['-', '-', 'e', 'n', 'd', 'o', 'g']);
    lemma_words_flag(record, 19);
    assert(known_flags()[20] == ("treat"@, FlagKind::Text, "--treat"@));
    reveal_strlit("--treat");
    assert("--treat"@ =~= seq!['-', '-', 't', 'r', 'e', 'a', 't']);
    lemma_text_flag(record, 20);
    assert(known_flags()[21] == ("post"@, FlagKind::Text, "--post"@));
    reveal_strlit("--post");
    assert("--post"@ =~= seq!['-', '-', 'p', 'o', 's', 't']);
    lemma_text_flag(record, 21);
}

/// No two members share a key, as in a JSON object.
pub open spec fn unique_keys(args: Seq<(String, ArgValue)>) -> bool {
    forall|i: int, j: int| 0 <= i < j < args.len() ==> args[i].0@ != args[j].0@
}

/// The two member lists hold the same key/value pairs.
pub open spec fn same_members(a: Seq<(String, ArgValue)>, b: Seq<(String, ArgValue)>) -> bool {
    forall|p: (String, ArgValue)| a.contains(p) <==> b.contains(p)
}

proof fn lemma_lookup_at(args: Seq<(String, ArgValue)>, i: int)
    requires
        unique_keys(args),
        0 <= i < args.len(),
    ensures
        lookup(args, args[i].0@) == Some(args[i].1),
    decreases i,
{
    if i > 0 {
        let t = args.drop_first();
        assert(args[0].0@ != args[i].0@);
        assert(t[i - 1] == args[i]);
        assert forall|x: int, y: int| 0 <= x < y < t.len() implies t[x].0@ != t[y].0@ by {
            assert(t[x] == args[x + 1] && t[y] == args[y + 1]);
        }
        lemma_lookup_at(t, i - 1);
    }
}

proof fn lemma_lookup_absent(args: Seq<(String, ArgValue)>, key: Seq<char>)
    requires
        forall|i: int| 0 <= i < args.len() ==> args[i].0@ != key,
    ensures
        lookup(args, key) is None,
    decreases args.len(),
{
    if args.len() > 0 {
        let t = args.drop_first();
        assert forall|i: int| 0 <= i < t.len() implies t[i].0@ != key by {
            assert(t[i] == args[i + 1]);
        }
        lemma_lookup_absent(t, key);
    }
}

proof fn lemma_lookup_same(a: Seq<(String, ArgValue)>, b: Seq<(String, ArgValue)>, key: Seq<char>)
    requires
        unique_keys(a),
        unique_keys(b),
        same_members(a, b),
    ensures
        lookup(a, key) == lookup(b, key),
{
    if exists|i: int| 0 <= i < a.len() && a[i].0@ == key {
        let i = choose|i: int| 0 <= i < a.len() && a[i].0@ == key;
        lemma_lookup_at(a, i);
        assert(a.contains(a[i]));
        assert(b.contains(a[i]));
        let j = choose|j: int| 0 <= j < b.len() && b[j] == a[i];
        lemma_lookup_at(b, j);
    } else {
        lemma_lookup_absent(a, key);
        assert forall|j: int| 0 <= j < b.len() implies b[j].0@ != key by {
            assert(b.contains(b[j]));
            assert(a.contains(b[j]));
            let i = choose|i: int| 0 <= i < a.len() && a[i] == b[j];
            assert(a[i].0@ != key);
        }
        lemma_lookup_absent(b, key);
    }
}

proof fn lemma_flags_words_same(
    a: Seq<(String, ArgValue)>,
    b: Seq<(String, ArgValue)>,
    flags: Seq<(Seq<char>, FlagKind, Seq<char>)>,
)
    requires
        unique_keys(a),
        unique_keys(b),
        same_members(a, b),
    ensures
        flags_words(a, flags) == flags_words(b, flags),
    decreases flags.len(),
{
    if flags.len() > 0 {
        lemma_flags_words_same(a, b, flags.drop_last());
        lemma_lookup_same(a, b, flags.last().0);
    }
}

/// The order of a record's structured arguments does not matter: two
/// records of the same command whose arguments hold the same key/value
/// pairs, each key once, are rebuilt into the same command line, its flags
/// always in the fixed order of `known_flags`.
pub proof fn law_reconstruct_ignores_member_order(r1: CommandRecord, r2: CommandRecord)
    requires
        r1.category@ == r2.category@,
        r1.subcommand@ == r2.subcommand@,
        match (r1.arguments, r2.arguments) {
            (Some(a), Some(b)) => unique_keys(a@) && unique_keys(b@) && same_members(a@, b@),
            (None, None) => true,
            _ => false,
        },
    ensures
        reconstructed(r1) == reconstructed(r2),
{
    match (r1.arguments, r2.arguments) {
        (Some(a), Some(b)) => {
            lemma_flags_words_same(a@, b@, known_flags());
        },
        _ => {},
    }
}

} // verus!
