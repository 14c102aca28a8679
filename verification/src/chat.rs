//! The chat client's logic: prompt scripts, the server-sent event stream,
//! rendering decisions, transcripts and the conversation history.

use vstd::prelude::*;
use crate::text::{
    chars_of, decimal, join, lemma_split_pieces_nonempty, push_decimal, push_str, split_pieces,
    string_from_chars, trim, trim_vec, utf8_boundary, utf8_len, utf8_len_exceeds, utf8_prefix,
    utf8_truncate, views,
};

verus! {

/// A JSON value, carried through unchanged.
#[verifier::external_type_specification]
#[verifier::external_body]
pub struct ExJsonValue(serde_json::Value);

/// A tool call made by the assistant.
pub struct ToolCall {
    /// Call identifier.
    pub id: String,
    /// Tool name.
    pub name: String,
    /// Tool arguments, as sent by the server.
    pub arguments: serde_json::Value,
}

/// The result of one tool call.
pub struct ToolResult {
    /// The call this result answers.
    pub tool_call_id: String,
    /// Result text.
    pub content: String,
    /// Whether the tool failed.
    pub is_error: bool,
}

/// One message of the conversation.
pub struct Message {
    /// `user` or `assistant`.
    pub role: String,
    /// Message text.
    pub content: String,
    /// Tool calls the message made, if any.
    pub tool_calls: Option<Vec<ToolCall>>,
    /// Tool results the message carries, if any.
    pub tool_results: Option<Vec<ToolResult>>,
}

/// An image produced by a tool, base64-encoded.
pub struct ImageData {
    /// Base64 text of the image.
    pub data: String,
    /// MIME type, such as `image/png`.
    pub mime_type: String,
}

/// Options of the chat client.
pub struct ChatArgs {
    /// Server URL
    pub url: String,
    /// LLM provider (openai, anthropic, ollama)
    pub provider: String,
    /// Model name
    pub model: String,
    /// API key for the provider
    pub api_key: Option<String>,
    /// Override the LLM API base URL
    pub base_url: Option<String>,
    /// Directory for saved images/charts
    pub output_dir: String,
    /// Save a plain-text transcript to this file
    pub record: Option<String>,
    /// Read prompts from a file instead of interactive input
    pub script: Option<String>,
}

/// A tool argument as the brief display reads it.
pub enum ArgShown {
    /// A JSON string, unquoted.
    Text(String),
    /// Any other JSON value, in its compact JSON form.
    Json(String),
}

/// One event of the server-sent stream.
pub enum StreamEvent {
    /// Progress message.
    Status { message: String },
    /// A tool started; `arguments` are the members of the argument object
    /// in order, or `None` when the arguments are not an object.
    ToolStart { tool: String, arguments: Option<Vec<(String, ArgShown)>> },
    /// A tool finished.
    ToolEnd { tool: String, elapsed_ms: u64, result: Option<String> },
    /// A tool produced results, possibly images.
    ToolResult { images: Option<Vec<ImageData>> },
    /// Streamed answer text.
    Content { text: String },
    /// The answer is complete.
    Done { message: Message },
    /// The server reported an error.
    Error { error: String },
}

} // verus!

verus! {

/// A comment line of a prompt script starts with `#`.
pub open spec fn is_comment(line: Seq<char>) -> bool {
    line.len() > 0 && line[0] == '#'
}

/// The prompt made of a block of lines, if the block holds any.
pub open spec fn close_block(block: Seq<Seq<char>>) -> Seq<Seq<char>> {
    if block.len() > 0 {
        seq![join(block, " "@)]
    } else {
        Seq::empty()
    }
}

/// Prompts of the remaining lines, given the trimmed lines of the block
/// read so far: comment lines are skipped, blank lines end a block, and a
/// block's lines are trimmed and joined with single spaces.
pub open spec fn prompts_scan(lines: Seq<Seq<char>>, block: Seq<Seq<char>>) -> Seq<Seq<char>>
    decreases lines.len(),
{
    if lines.len() == 0 {
        close_block(block)
    } else if is_comment(lines[0]) {
        prompts_scan(lines.drop_first(), block)
    } else if trim(lines[0]).len() == 0 {
        close_block(block) + prompts_scan(lines.drop_first(), Seq::empty())
    } else {
        prompts_scan(lines.drop_first(), block.push(trim(lines[0])))
    }
}

/// The prompts of a prompt script, given its lines.
pub open spec fn script_prompts(lines: Seq<Seq<char>>) -> Seq<Seq<char>> {
    prompts_scan(lines, Seq::empty())
}

proof fn lemma_join_push(block: Seq<Seq<char>>, t: Seq<char>, sep: Seq<char>)
    ensures
        join(block.push(t), sep) == if block.len() == 0 {
            t
        } else {
            join(block, sep) + sep + t
        },
{
    let p = block.push(t);
    assert(p.drop_last() =~= block);
    assert(p.last() == t);
    if block.len() == 0 {
        assert(p.len() == 1);
        assert(p[0] == t);
    }
}

proof fn lemma_join_nonempty(block: Seq<Seq<char>>, sep: Seq<char>)
    requires
        forall|j: int| 0 <= j < block.len() ==> block[j].len() > 0,
    ensures
        (join(block, sep).len() > 0) == (block.len() > 0),
{
    if block.len() > 1 {
        assert(block.last() == block[block.len() - 1]);
    } else if block.len() == 1 {
        assert(block[0].len() > 0);
    }
}

proof fn lemma_scan_nonempty(lines: Seq<Seq<char>>, block: Seq<Seq<char>>)
    requires
        forall|j: int| 0 <= j < block.len() ==> block[j].len() > 0,
    ensures
        forall|i: int|
            0 <= i < prompts_scan(lines, block).len() ==> #[trigger] prompts_scan(lines, block)[i].len()
                > 0,
    decreases lines.len(),
{
    lemma_join_nonempty(block, " "@);
    if block.len() > 0 {
        assert(close_block(block)[0] == join(block, " "@));
    }
    if lines.len() == 0 {
        assert(prompts_scan(lines, block) == close_block(block));
    } else if is_comment(lines[0]) {
        lemma_scan_nonempty(lines.drop_first(), block);
        assert(prompts_scan(lines, block) == prompts_scan(lines.drop_first(), block));
    } else if trim(lines[0]).len() == 0 {
        lemma_scan_nonempty(lines.drop_first(), Seq::empty());
        let a = close_block(block);
        let b = prompts_scan(lines.drop_first(), Seq::empty());
        assert forall|i: int| 0 <= i < (a + b).len() implies #[trigger] (a + b)[i].len() > 0 by {
            if i < a.len() {
                assert((a + b)[i] == a[i]);
            } else {
                assert((a + b)[i] == b[i - a.len()]);
            }
        }
        assert(prompts_scan(lines, block) == a + b);
    } else {
        let nb = block.push(trim(lines[0]));
        assert forall|j: int| 0 <= j < nb.len() implies nb[j].len() > 0 by {
            if j < block.len() {
                assert(nb[j] == block[j]);
            }
        }
        lemma_scan_nonempty(lines.drop_first(), nb);
        assert(prompts_scan(lines, block) == prompts_scan(lines.drop_first(), nb));
    }
}

/// A prompt script never yields an empty prompt: comment lines and blank
/// lines are never sent to the server on their own.
pub proof fn law_script_prompts_nonempty(lines: Seq<Seq<char>>)
    ensures
        forall|i: int|
            0 <= i < script_prompts(lines).len() ==> #[trigger] script_prompts(lines)[i].len() > 0,
{
    lemma_scan_nonempty(lines, Seq::empty());
}

/// Split the lines of a prompt script into prompts: lines starting with
/// `#` are comments, blank lines separate prompts, and the lines of one
/// prompt are trimmed and joined with spaces.
pub fn parse_script_prompts(lines: &[String]) -> (r: Vec<String>)
    ensures
        views(r@) == script_prompts(views(lines@)),
{
    let ghost lv = views(lines@);
    let mut prompts: Vec<String> = Vec::new();
    let mut current: Vec<char> = Vec::new();
    let ghost mut block: Seq<Seq<char>> = Seq::empty();
    let n = lines.len();
    let mut i: usize = 0;
    proof {
        assert(lv.skip(0) =~= lv);
    }
    while i < n
        invariant
            i <= n,
            n == lines@.len(),
            lv == views(lines@),
            current@ == join(block, " "@),
            forall|j: int| 0 <= j < block.len() ==> block[j].len() > 0,
            views(prompts@) + prompts_scan(lv.skip(i as int), block) == script_prompts(lv),
        decreases n - i,
    {
        let ghost rest = lv.skip(i as int);
        proof {
            assert(rest[0] == lines@[i as int]@);
            assert(rest.drop_first() =~= lv.skip(i + 1));
            lemma_join_nonempty(block, " "@);
        }
        let v = chars_of(lines[i].as_str());
        if v.len() > 0 && v[0] == '#' {
        } else {
            let t = trim_vec(v.as_slice());
            if t.len() == 0 {
                if current.len() > 0 {
                    let p = string_from_chars(current.as_slice());
                    let ghost before = prompts@;
                    prompts.push(p);
                    proof {
                        assert(views(prompts@) =~= views(before) + close_block(block));
                    }
                    current = Vec::new();
                    proof {
                        block = Seq::empty();
                    }
                } else {
                    proof {
                        assert(close_block(block) =~= Seq::<Seq<char>>::empty());
                        assert(views(prompts@) + Seq::<Seq<char>>::empty() =~= views(prompts@));
                        assert(block =~= Seq::<Seq<char>>::empty());
                    }
                }
            } else {
                if current.len() > 0 {
                    current.push(' ');
                }
                let mut k: usize = 0;
                let ghost base = current@;
                while k < t.len()
                    invariant
                        k <= t@.len(),
                        current@ == base + t@.take(k as int),
                    decreases t@.len() - k,
                {
                    current.push(t[k]);
                    proof {
                        assert(t@.take(k + 1) =~= t@.take(k as int).push(t@[k as int]));
                    }
                    k = k + 1;
                }
                proof {
                    reveal_strlit(" ");
                    assert(t@.take(t@.len() as int) =~= t@);
                    lemma_join_push(block, t@, " "@);
                    block = block.push(t@);
                }
            }
        }
        i = i + 1;
    }
    proof {
        lemma_join_nonempty(block, " "@);
        assert(lv.skip(n as int).len() == 0);
    }
    if current.len() > 0 {
        let p = string_from_chars(current.as_slice());
        prompts.push(p);
    }
    proof {
        assert(views(prompts@) =~= script_prompts(lv));
    }
    prompts
}

} // verus!

verus! {

/// Whether `s` begins with `p`.
pub open spec fn starts_with(s: Seq<char>, p: Seq<char>) -> bool {
    s.len() >= p.len() && s.take(p.len() as int) == p
}

/// The payload of one line of a server-sent event stream: the text after
/// `data: ` on a trimmed line. Blank lines, comment lines (starting with
/// `:`) and other fields carry none.
pub open spec fn sse_payload(line: Seq<char>) -> Option<Seq<char>> {
    let t = trim(line);
    if t.len() == 0 || t[0] == ':' {
        None
    } else if starts_with(t, "data: "@) {
        Some(t.skip(6))
    } else {
        None
    }
}

/// Extract the event payload of one stream line.
pub fn sse_data(line: &str) -> (r: Option<String>)
    ensures
        match sse_payload(line@) {
            Some(p) => r is Some && r->0@ == p,
            None => r is None,
        },
{
    proof {
        reveal_strlit("data: ");
    }
    let v = chars_of(line);
    let t = trim_vec(v.as_slice());
    if t.len() == 0 || t[0] == ':' {
        return None;
    }
    let prefix = chars_of("data: ");
    if t.len() < prefix.len() {
        return None;
    }
    let mut k: usize = 0;
    while k < prefix.len()
        invariant
            k <= prefix@.len(),
            prefix@ == "data: "@,
            prefix@.len() == 6,
            prefix@.len() <= t@.len(),
            t@ == trim(line@),
            t@[0] != ':',
            forall|m: int| 0 <= m < k ==> t@[m] == prefix@[m],
        decreases prefix@.len() - k,
    {
        if t[k] != prefix[k] {
            proof {
                assert(t@.take(6)[k as int] != prefix@[k as int]);
                assert(t@.take(6) != "data: "@);
            }
            return None;
        }
        k = k + 1;
    }
    proof {
        assert(t@.take(6) =~= prefix@);
    }
    let mut rest: Vec<char> = Vec::new();
    let mut j: usize = prefix.len();
    while j < t.len()
        invariant
            6 <= j <= t@.len(),
            prefix@.len() == 6,
            rest@ == t@.subrange(6, j as int),
        decreases t@.len() - j,
    {
        rest.push(t[j]);
        proof {
            assert(t@.subrange(6, j + 1) =~= t@.subrange(6, j as int).push(t@[j as int]));
        }
        j = j + 1;
    }
    proof {
        assert(t@.subrange(6, t@.len() as int) =~= t@.skip(6));
    }
    Some(string_from_chars(rest.as_slice()))
}

/// The complete lines of a stream buffer and the unfinished text after the
/// last newline, which waits for more input.
pub fn split_complete_lines(buffer: &str) -> (r: (Vec<String>, String))
    ensures
        views(r.0@) == split_pieces(buffer@, '\n').drop_last(),
        r.1@ == split_pieces(buffer@, '\n').last(),
{
    let v = chars_of(buffer);
    let mut lines: Vec<String> = Vec::new();
    let mut current: Vec<char> = Vec::new();
    let n = v.len();
    let mut i: usize = 0;
    while i < n
        invariant
            i <= n,
            n == v@.len(),
            split_pieces(v@.take(i as int), '\n') == views(lines@).push(current@),
        decreases n - i,
    {
        let c = v[i];
        proof {
            let t = v@.take(i + 1);
            assert(t.drop_last() =~= v@.take(i as int));
            assert(t.last() == c);
        }
        if c == '\n' {
            let line = string_from_chars(current.as_slice());
            let ghost before = lines@;
            lines.push(line);
            current = Vec::new();
            proof {
                assert(views(lines@).push(current@) =~= views(before).push(line@).push(Seq::empty()));
            }
        } else {
            let ghost before = current@;
            current.push(c);
            proof {
                let p = views(lines@).push(before);
                assert(p.update(p.len() - 1, p.last().push(c)) =~= views(lines@).push(current@));
            }
        }
        i = i + 1;
    }
    proof {
        assert(v@.take(n as int) =~= v@);
        assert(views(lines@).push(current@).drop_last() =~= views(lines@));
    }
    (lines, string_from_chars(current.as_slice()))
}

/// Joining the pieces with newlines gives back the text, and no piece
/// holds a newline: splitting a stream buffer loses and invents nothing.
pub proof fn law_newline_pieces_rejoin(s: Seq<char>)
    ensures
        join(split_pieces(s, '\n'), seq!['\n']) == s,
        forall|i: int, j: int|
            0 <= i < split_pieces(s, '\n').len() && 0 <= j < split_pieces(s, '\n')[i].len()
                ==> split_pieces(s, '\n')[i][j] != '\n',
    decreases s.len(),
{
    lemma_split_pieces_nonempty(s, '\n');
    if s.len() > 0 {
        let q = s.drop_last();
        law_newline_pieces_rejoin(q);
        lemma_split_pieces_nonempty(q, '\n');
        let p = split_pieces(q, '\n');
        let nl = seq!['\n'];
        if s.last() == '\n' {
            let r = p.push(Seq::<char>::empty());
            assert(r.drop_last() =~= p);
            assert(join(r, nl) == join(p, nl) + nl + Seq::<char>::empty());
            assert(join(r, nl) =~= s);
            assert forall|i: int, j: int| 0 <= i < r.len() && 0 <= j < r[i].len() implies r[i][j]
                != '\n' by {
                if i < p.len() {
                    assert(r[i] == p[i]);
                }
            }
        } else {
            let r = p.update(p.len() - 1, p.last().push(s.last()));
            lemma_join_last_extend(p, s.last(), nl);
            assert(join(r, nl) =~= s);
            assert forall|i: int, j: int| 0 <= i < r.len() && 0 <= j < r[i].len() implies r[i][j]
                != '\n' by {
                if i < p.len() - 1 {
                    assert(r[i] == p[i]);
                } else {
                    assert(r[i] == p.last().push(s.last()));
                    if j < p.last().len() {
                        assert(p.last() == p[p.len() - 1]);
                    }
                }
            }
        }
    }
}

proof fn lemma_join_last_extend(p: Seq<Seq<char>>, c: char, sep: Seq<char>)
    requires
        p.len() >= 1,
    ensures
        join(p.update(p.len() - 1, p.last().push(c)), sep) == join(p, sep).push(c),
{
    let r = p.update(p.len() - 1, p.last().push(c));
    if p.len() == 1 {
        assert(r[0] == p[0].push(c));
    } else {
        assert(r.drop_last() =~= p.drop_last());
        assert(r.last() == p.last().push(c));
        assert(join(r, sep) =~= join(p, sep).push(c));
    }
}

} // verus!

verus! {

/// How one argument value is shown: strings quoted, anything longer than
/// 30 bytes cut to its first 27 bytes and marked with `...`.
pub open spec fn shown_value(v: ArgShown) -> Seq<char> {
    match v {
        ArgShown::Text(s) => if utf8_len(s@) > 30 {
            "\""@ + utf8_prefix(s@, 27) + "...\""@
        } else {
            "\""@ + s@ + "\""@
        },
        ArgShown::Json(t) => if utf8_len(t@) > 30 {
            utf8_prefix(t@, 27) + "..."@
        } else {
            t@
        },
    }
}

/// The value can be shown: when it is cut, byte 27 starts a character.
pub open spec fn showable(v: ArgShown) -> bool {
    match v {
        ArgShown::Text(s) => utf8_len(s@) > 30 ==> utf8_boundary(s@, 27),
        ArgShown::Json(t) => utf8_len(t@) > 30 ==> utf8_boundary(t@, 27),
    }
}

/// `key=value` for one member.
pub open spec fn member_text(m: (String, ArgShown)) -> Seq<char> {
    m.0@ + "="@ + shown_value(m.1)
}

/// The members that the brief display shows: the first four.
pub open spec fn shown_members(ms: Seq<(String, ArgShown)>) -> Seq<(String, ArgShown)> {
    if ms.len() > 4 {
        ms.take(4)
    } else {
        ms
    }
}

/// The one-line summary of a tool's arguments: up to four `key=value`
/// members in parentheses, with `, ...` when there are more; empty when the
/// arguments are not an object.
pub open spec fn args_brief(args: Option<Seq<(String, ArgShown)>>) -> Seq<char> {
    match args {
        None => Seq::empty(),
        Some(ms) => "("@ + join(
            shown_members(ms).map_values(|m: (String, ArgShown)| member_text(m)),
            ", "@,
        ) + (if ms.len() > 4 {
            ", ..."@
        } else {
            Seq::empty()
        }) + ")"@,
    }
}

/// Whether every one of the first four members can be displayed.
pub open spec fn members_showable(ms: Seq<(String, ArgShown)>) -> bool {
    forall|i: int| 0 <= i < ms.len() && i < 4 ==> showable(#[trigger] ms[i].1)
}

/// Whether every shown member can be displayed.
pub open spec fn brief_showable(args: Option<Seq<(String, ArgShown)>>) -> bool {
    match args {
        None => true,
        Some(ms) => members_showable(ms),
    }
}

/// Renders one argument value.
pub fn show_value(v: &ArgShown) -> (r: String)
    requires
        showable(*v),
    ensures
        r@ == shown_value(*v),
{
    let mut out = String::new();
    match v {
        ArgShown::Text(s) => {
            if utf8_len_exceeds(s.as_str(), 30) {
                push_str(&mut out, "\"");
                let cut = utf8_truncate(s.as_str(), 27);
                push_str(&mut out, cut.as_str());
                push_str(&mut out, "...\"");
            } else {
                push_str(&mut out, "\"");
                push_str(&mut out, s.as_str());
                push_str(&mut out, "\"");
            }
        },
        ArgShown::Json(t) => {
            if utf8_len_exceeds(t.as_str(), 30) {
                let cut = utf8_truncate(t.as_str(), 27);
                push_str(&mut out, cut.as_str());
                push_str(&mut out, "...");
            } else {
                push_str(&mut out, t.as_str());
            }
        },
    }
    out
}

/// Summarise a tool's arguments for display.
pub fn format_args_brief(args: &Option<Vec<(String, ArgShown)>>) -> (r: String)
    requires
        brief_showable(match args {
            Some(v) => Some(v@),
            None => None,
        }),
    ensures
        r@ == args_brief(match args {
            Some(v) => Some(v@),
            None => None,
        }),
{
    match args {
        None => String::new(),
        Some(ms) => {
            let n = if ms.len() > 4 { 4 } else { ms.len() };
            let ghost shown = shown_members(ms@);
            let ghost texts = shown.map_values(|m: (String, ArgShown)| member_text(m));
            let mut pairs: Vec<String> = Vec::new();
            let mut i: usize = 0;
            proof {
                assert(brief_showable(Some(ms@)));
                assert(members_showable(ms@));
                assert forall|k: int| 0 <= k < shown.len() implies showable(#[trigger] shown[k].1) by {
                    assert(shown[k] == ms@[k]);
                    assert(showable(ms@[k].1));
                }
            }
            while i < n
                invariant
                    i <= n,
                    n == shown.len(),
                    shown == shown_members(ms@),
                    texts == shown.map_values(|m: (String, ArgShown)| member_text(m)),
                    forall|k: int| 0 <= k < shown.len() ==> showable(#[trigger] shown[k].1),
                    views(pairs@) == texts.take(i as int),
                decreases n - i,
            {
                proof {
                    assert(shown[i as int] == ms@[i as int]);
                }
                let mut p = String::new();
                push_str(&mut p, ms[i].0.as_str());
                push_str(&mut p, "=");
                let val = show_value(&ms[i].1);
                push_str(&mut p, val.as_str());
                let ghost before = pairs@;
                pairs.push(p);
                proof {
                    assert(views(pairs@) =~= views(before).push(p@));
                    assert(texts.take(i + 1) =~= texts.take(i as int).push(texts[i as int]));
                }
                i = i + 1;
            }
            proof {
                assert(texts.take(n as int) =~= texts);
            }
            let mut out = String::new();
            push_str(&mut out, "(");
            crate::text::push_joined(&mut out, pairs.as_slice(), ", ");
            if ms.len() > 4 {
                push_str(&mut out, ", ...");
            }
            push_str(&mut out, ")");
            proof {
                assert(out@ =~= args_brief(Some(ms@)));
            }
            out
        },
    }
}

} // verus!

verus! {

/// The transcript's opening lines.
pub open spec fn banner_text(base_url: Seq<char>, provider: Seq<char>, model: Seq<char>) -> Seq<char> {
    "$ p2a chat --provider "@ + provider + " --model "@ + model + "\n"@ + "p2a chat\n"@
        + "Connected to "@ + base_url + " | Provider: "@ + provider + " ("@ + model + ")\n"@
        + "\n"@
}

/// Transcript banner: the command, the title and the connection line.
pub fn transcript_banner(base_url: &str, provider: &str, model: &str) -> (r: String)
    ensures
        r@ == banner_text(base_url@, provider@, model@),
{
    let mut s = String::new();
    push_str(&mut s, "$ p2a chat --provider ");
    push_str(&mut s, provider);
    push_str(&mut s, " --model ");
    push_str(&mut s, model);
    push_str(&mut s, "\n");
    push_str(&mut s, "p2a chat\n");
    push_str(&mut s, "Connected to ");
    push_str(&mut s, base_url);
    push_str(&mut s, " | Provider: ");
    push_str(&mut s, provider);
    push_str(&mut s, " (");
    push_str(&mut s, model);
    push_str(&mut s, ")\n");
    push_str(&mut s, "\n");
    proof {
        assert(s@ =~= banner_text(base_url@, provider@, model@));
    }
    s
}

/// Transcript line for a prompt.
pub fn transcript_prompt(input: &str) -> (r: String)
    ensures
        r@ == "p2a> "@ + input@ + "\n"@,
{
    let mut s = String::new();
    push_str(&mut s, "p2a> ");
    push_str(&mut s, input);
    push_str(&mut s, "\n");
    s
}

/// Transcript text when a tool starts (the line ends when it finishes).
pub fn transcript_tool_start(tool: &str, args_brief: &str) -> (r: String)
    ensures
        r@ == "  [tool] "@ + tool@ + " "@ + args_brief@,
{
    let mut s = String::new();
    push_str(&mut s, "  [tool] ");
    push_str(&mut s, tool);
    push_str(&mut s, " ");
    push_str(&mut s, args_brief);
    s
}

/// Transcript text when a tool finishes.
pub fn transcript_tool_end(elapsed_ms: u64) -> (r: String)
    ensures
        r@ == "  done "@ + crate::text::decimal(elapsed_ms as nat) + "ms\n"@,
{
    let mut s = String::new();
    push_str(&mut s, "  done ");
    push_decimal(&mut s, elapsed_ms);
    push_str(&mut s, "ms\n");
    s
}

/// Transcript line for a saved image.
pub fn transcript_image_saved(path: &str) -> (r: String)
    ensures
        r@ == "  [saved] "@ + path@ + "\n"@,
{
    let mut s = String::new();
    push_str(&mut s, "  [saved] ");
    push_str(&mut s, path);
    push_str(&mut s, "\n");
    s
}

/// Transcript line for an error.
pub fn transcript_error(error: &str) -> (r: String)
    ensures
        r@ == "Error: "@ + error@ + "\n"@,
{
    let mut s = String::new();
    push_str(&mut s, "Error: ");
    push_str(&mut s, error);
    push_str(&mut s, "\n");
    s
}

/// File extension for an image's MIME type.
pub open spec fn image_extension(mime: Seq<char>) -> Seq<char> {
    if mime == "image/png"@ {
        "png"@
    } else if mime == "image/svg+xml"@ {
        "svg"@
    } else {
        "bin"@
    }
}

/// The file name under which the `index`-th image of a result is saved.
pub open spec fn image_file_name_of(index: nat, mime: Seq<char>) -> Seq<char> {
    "chart_"@ + crate::text::decimal(index) + "."@ + image_extension(mime)
}

/// Name of the file for the `index`-th image, by its MIME type.
pub fn image_file_name(index: usize, mime: &str) -> (r: String)
    ensures
        r@ == image_file_name_of(index as nat, mime@),
{
    let m = mime.to_owned();
    let png = "image/png".to_owned();
    let svg = "image/svg+xml".to_owned();
    let mut s = String::new();
    push_str(&mut s, "chart_");
    push_decimal(&mut s, index as u64);
    push_str(&mut s, ".");
    if m == png {
        push_str(&mut s, "png");
    } else if m == svg {
        push_str(&mut s, "svg");
    } else {
        push_str(&mut s, "bin");
    }
    s
}

/// Why a base64 text does not decode, with the offending offset, byte or
/// length, as the decoder reports it.
#[derive(Clone, Copy, PartialEq, Eq, Structural)]
pub enum Base64Error {
    /// A byte outside the alphabet (or misplaced padding): offset, byte.
    InvalidByte(usize, u8),
    /// The number of symbols cannot end a quad.
    InvalidLength(usize),
    /// The last symbol has bits that would be discarded: offset, byte.
    InvalidLastSymbol(usize, u8),
    /// The padding is absent or not canonical.
    InvalidPadding,
}

/// What a base64 text (standard alphabet, canonical padding) decodes to:
/// its bytes, or the decoder's error.
pub uninterp spec fn base64_decoded(text: Seq<char>) -> Result<Seq<u8>, Base64Error>;

/// `Engine::decode` with `base64::engine::general_purpose::STANDARD`: its
/// result, bytes or error, named by `base64_decoded`; each variant of
/// `base64::DecodeError` is carried over to the variant of the same name.
#[verifier::external_body]
fn base64_standard_decode(text: &str) -> (r: Result<Vec<u8>, Base64Error>)
    ensures
        match r {
            Ok(bytes) => base64_decoded(text@) == Ok::<Seq<u8>, Base64Error>(bytes@),
            Err(e) => base64_decoded(text@) == Err::<Seq<u8>, Base64Error>(e),
        },
{
    match base64::Engine::decode(&base64::engine::general_purpose::STANDARD, text) {
        Ok(bytes) => Ok(bytes),
        Err(base64::DecodeError::InvalidByte(i, b)) => Err(Base64Error::InvalidByte(i, b)),
        Err(base64::DecodeError::InvalidLength(n)) => Err(Base64Error::InvalidLength(n)),
        Err(base64::DecodeError::InvalidLastSymbol(i, b)) => Err(Base64Error::InvalidLastSymbol(i, b)),
        Err(base64::DecodeError::InvalidPadding) => Err(Base64Error::InvalidPadding),
    }
}

/// The message of a decoding error.
pub open spec fn decode_error_text(e: Base64Error) -> Seq<char> {
    match e {
        Base64Error::InvalidByte(i, b) => "Invalid symbol "@ + decimal(b as nat) + ", offset "@
            + decimal(i as nat) + "."@,
        Base64Error::InvalidLength(n) => "Invalid input length: "@ + decimal(n as nat),
        Base64Error::InvalidLastSymbol(i, b) => "Invalid last symbol "@ + decimal(b as nat)
            + ", offset "@ + decimal(i as nat) + "."@,
        Base64Error::InvalidPadding => "Invalid padding"@,
    }
}

/// The message of a decoding error.
pub fn decode_error_message(e: Base64Error) -> (r: String)
    ensures
        r@ == decode_error_text(e),
{
    let mut s = String::new();
    match e {
        Base64Error::InvalidByte(i, b) => {
            push_str(&mut s, "Invalid symbol ");
            push_decimal(&mut s, b as u64);
            push_str(&mut s, ", offset ");
            push_decimal(&mut s, i as u64);
            push_str(&mut s, ".");
        },
        Base64Error::InvalidLength(n) => {
            push_str(&mut s, "Invalid input length: ");
            push_decimal(&mut s, n as u64);
        },
        Base64Error::InvalidLastSymbol(i, b) => {
            push_str(&mut s, "Invalid last symbol ");
            push_decimal(&mut s, b as u64);
            push_str(&mut s, ", offset ");
            push_decimal(&mut s, i as u64);
            push_str(&mut s, ".");
        },
        Base64Error::InvalidPadding => {
            push_str(&mut s, "Invalid padding");
        },
    }
    s
}

/// Decodes standard base64; the error is the decoder's message.
pub(crate) fn decode_base64(text: &str) -> (r: Result<Vec<u8>, String>)
    ensures
        match (r, base64_decoded(text@)) {
            (Ok(bytes), Ok(b)) => bytes@ == b,
            (Err(m), Err(e)) => m@ == decode_error_text(e),
            _ => false,
        },
{
    match base64_standard_decode(text) {
        Ok(bytes) => Ok(bytes),
        Err(e) => Err(decode_error_message(e)),
    }
}

} // verus!

verus! {

/// The bytes of a tool image, decoded from its base64 text; the error is
/// the decoder's message.
pub fn image_bytes(image: &ImageData) -> (r: Result<Vec<u8>, String>)
    ensures
        match (r, base64_decoded(image.data@)) {
            (Ok(bytes), Ok(b)) => bytes@ == b,
            (Err(m), Err(e)) => m@ == decode_error_text(e),
            _ => false,
        },
{
    decode_base64(image.data.as_str())
}

/// What the interactive loop does with a line of input.
pub enum InputAction {
    /// Blank input: ask again.
    Skip,
    /// `/quit` or `/exit`: say goodbye and stop.
    Quit,
    /// `/clear`: forget the conversation.
    Clear,
    /// `/help`: show the commands.
    Help,
    /// Anything else: send it, trimmed.
    Send(String),
}

/// How a line of input is handled, by its trimmed text.
pub open spec fn input_kind(line: Seq<char>) -> u8 {
    let t = trim(line);
    if t.len() == 0 {
        0
    } else if t == "/quit"@ || t == "/exit"@ {
        1
    } else if t == "/clear"@ {
        2
    } else if t == "/help"@ {
        3
    } else {
        4
    }
}

/// What a line of input does, by its trimmed text (kinds as `classify_input`
/// reports them: 0 skip, 1 quit, 2 clear, 3 help, 4 send): a blank line is
/// skipped, `/quit` and `/exit` quit, `/clear` clears, `/help` shows help,
/// and any other text is sent.
pub proof fn law_input_commands(line: Seq<char>)
    ensures
        trim(line).len() == 0 ==> input_kind(line) == 0,
        (trim(line) == "/quit"@ || trim(line) == "/exit"@) ==> input_kind(line) == 1,
        trim(line) == "/clear"@ ==> input_kind(line) == 2,
        trim(line) == "/help"@ ==> input_kind(line) == 3,
        trim(line).len() > 0 && trim(line) != "/quit"@ && trim(line) != "/exit"@ && trim(line)
            != "/clear"@ && trim(line) != "/help"@ ==> input_kind(line) == 4,
{
    reveal_strlit("/quit");
    assert("/quit"@ =~= seq!['/', 'q', 'u', 'i', 't']);
    reveal_strlit("/exit");
    assert("/exit"@ =~= seq!['/', 'e', 'x', 'i', 't']);
    reveal_strlit("/clear");
    assert("/clear"@ =~= seq!['/', 'c', 'l', 'e', 'a', 'r']);
    reveal_strlit("/help");
    assert("/help"@ =~= seq!['/', 'h', 'e', 'l', 'p']);
}

/// Classify a line of interactive input.
pub fn classify_input(line: &str) -> (r: InputAction)
    ensures
        match r {
            InputAction::Skip => input_kind(line@) == 0,
            InputAction::Quit => input_kind(line@) == 1,
            InputAction::Clear => input_kind(line@) == 2,
            InputAction::Help => input_kind(line@) == 3,
            InputAction::Send(s) => input_kind(line@) == 4 && s@ == trim(line@),
        },
{
    let v = chars_of(line);
    let t = trim_vec(v.as_slice());
    if t.len() == 0 {
        return InputAction::Skip;
    }
    let input = string_from_chars(t.as_slice());
    if input == "/quit".to_owned() || input == "/exit".to_owned() {
        InputAction::Quit
    } else if input == "/clear".to_owned() {
        InputAction::Clear
    } else if input == "/help".to_owned() {
        InputAction::Help
    } else {
        InputAction::Send(input)
    }
}

/// The conversation so far, oldest message first.
pub struct ChatHistory {
    /// The messages.
    pub messages: Vec<Message>,
}

impl ChatHistory {
    /// An empty conversation.
    pub fn new() -> (r: Self)
        ensures
            r.messages@.len() == 0,
    {
        ChatHistory { messages: Vec::new() }
    }

    /// Forget the conversation (`/clear`).
    pub fn clear(&mut self)
        ensures
            final(self).messages@.len() == 0,
    {
        self.messages = Vec::new();
    }

    /// Record a completed exchange: the user's prompt, then the reply.
    pub fn record_exchange(&mut self, input: &str, reply: Message)
        ensures
            final(self).messages@.len() == old(self).messages@.len() + 2,
            final(self).messages@.take(old(self).messages@.len() as int) == old(self).messages@,
            final(self).messages@[old(self).messages@.len() as int].role@ == "user"@,
            final(self).messages@[old(self).messages@.len() as int].content@ == input@,
            final(self).messages@[old(self).messages@.len() as int].tool_calls is None,
            final(self).messages@[old(self).messages@.len() as int].tool_results is None,
            final(self).messages@[old(self).messages@.len() + 1int] == reply,
    {
        let user = Message {
            role: "user".to_owned(),
            content: input.to_owned(),
            tool_calls: None,
            tool_results: None,
        };
        self.messages.push(user);
        self.messages.push(reply);
        proof {
            assert(self.messages@.take(old(self).messages@.len() as int) =~= old(self).messages@);
        }
    }
}

/// Follows a stream for the message of its `Done` event.
pub struct StreamCollector {
    /// The message of the latest `Done` event seen.
    pub final_message: Option<Message>,
}

impl StreamCollector {
    /// Nothing seen yet.
    pub fn new() -> (r: Self)
        ensures
            r.final_message is None,
    {
        StreamCollector { final_message: None }
    }

    /// Take in one event; a `Done` event's message becomes the final one.
    pub fn absorb(&mut self, event: StreamEvent)
        ensures
            match event {
                StreamEvent::Done { message } => final(self).final_message == Some(message),
                _ => final(self).final_message == old(self).final_message,
            },
    {
        match event {
            StreamEvent::Done { message } => {
                self.final_message = Some(message);
            },
            _ => {},
        }
    }

    /// The reply once the stream has ended, or the error when no `Done`
    /// event came.
    pub fn finish(self) -> (r: Result<Message, String>)
        ensures
            match self.final_message {
                Some(m) => r == Ok::<Message, String>(m),
                None => r is Err && r->Err_0@ == "Stream ended without a Done event"@,
            },
    {
        match self.final_message {
            Some(m) => Ok(m),
            None => Err("Stream ended without a Done event".to_owned()),
        }
    }
}

/// The server URL without trailing slashes.
pub open spec fn strip_trailing_slashes(s: Seq<char>) -> Seq<char>
    decreases s.len(),
{
    if s.len() > 0 && s.last() == '/' {
        strip_trailing_slashes(s.drop_last())
    } else {
        s
    }
}

/// The base URL of the server: the URL with trailing `/` removed.
pub fn server_base(url: &str) -> (r: String)
    ensures
        r@ == strip_trailing_slashes(url@),
{
    let v = chars_of(url);
    let mut end = v.len();
    proof {
        assert(v@.take(v@.len() as int) =~= v@);
    }
    while end > 0 && v[end - 1] == '/'
        invariant
            end <= v@.len(),
            v@ == url@,
            strip_trailing_slashes(v@) == strip_trailing_slashes(v@.take(end as int)),
        decreases end,
    {
        proof {
            let t = v@.take(end as int);
            assert(t.drop_last() =~= v@.take(end - 1));
        }
        end = end - 1;
    }
    let mut out: Vec<char> = Vec::new();
    let mut i: usize = 0;
    while i < end
        invariant
            i <= end <= v@.len(),
            out@ == v@.take(i as int),
        decreases end - i,
    {
        out.push(v[i]);
        proof {
            assert(v@.take(i + 1) =~= v@.take(i as int).push(v@[i as int]));
        }
        i = i + 1;
    }
    proof {
        let t = v@.take(end as int);
        if end > 0 {
            assert(t.last() == v@[end - 1]);
        }
        assert(strip_trailing_slashes(t) == t);
    }
    string_from_chars(out.as_slice())
}

/// The endpoint that creates a session.
pub fn sessions_url(base: &str) -> (r: String)
    ensures
        r@ == base@ + "/api/sessions"@,
{
    let mut s = base.to_owned();
    push_str(&mut s, "/api/sessions");
    s
}

/// The endpoint that streams a chat answer.
pub fn chat_stream_url(base: &str) -> (r: String)
    ensures
        r@ == base@ + "/api/llm/chat/stream"@,
{
    let mut s = base.to_owned();
    push_str(&mut s, "/api/llm/chat/stream");
    s
}

/// Announced when a prompt script was read.
pub fn prompts_loaded_message(count: usize, path: &str) -> (r: String)
    ensures
        r@ == "Loaded "@ + crate::text::decimal(count as nat) + " prompts from "@ + path@,
{
    let mut s = String::new();
    push_str(&mut s, "Loaded ");
    push_decimal(&mut s, count as u64);
    push_str(&mut s, " prompts from ");
    push_str(&mut s, path);
    s
}

/// The error for a prompt script without prompts.
pub fn empty_script_message(path: &str) -> (r: String)
    ensures
        r@ == "Script file is empty: "@ + path@,
{
    let mut s = String::new();
    push_str(&mut s, "Script file is empty: ");
    push_str(&mut s, path);
    s
}

/// The default of the request flags that are on unless the request says
/// otherwise.
pub fn default_true() -> (r: bool)
    ensures
        r,
{
    true
}

/// The leading part of a session id shown in the welcome line: its first
/// eight bytes, or the whole id when it is shorter.
pub fn session_label(session_id: &str) -> (r: String)
    requires
        utf8_len(session_id@) > 8 ==> utf8_boundary(session_id@, 8),
    ensures
        r@ == (if utf8_len(session_id@) > 8 {
            utf8_prefix(session_id@, 8)
        } else {
            session_id@
        }),
{
    if utf8_len_exceeds(session_id, 8) {
        utf8_truncate(session_id, 8)
    } else {
        session_id.to_owned()
    }
}

/// Text without the escape character that starts terminal color codes.
pub open spec fn plain(s: Seq<char>) -> bool {
    forall|i: int| 0 <= i < s.len() ==> s[i] != '\u{1b}'
}

proof fn lemma_plain_concat(a: Seq<char>, b: Seq<char>)
    requires
        plain(a),
        plain(b),
    ensures
        plain(a + b),
{
    assert forall|i: int| 0 <= i < (a + b).len() implies (a + b)[i] != '\u{1b}' by {
        if i < a.len() {
            assert((a + b)[i] == a[i]);
        } else {
            assert((a + b)[i] == b[i - a.len()]);
        }
    }
}

proof fn lemma_decimal_plain(n: nat)
    ensures
        plain(crate::text::decimal(n)),
    decreases n,
{
    if n >= 10 {
        lemma_decimal_plain(n / 10);
        let d = crate::text::decimal(n / 10);
        let c = crate::text::digit_char(n % 10);
        assert(c != '\u{1b}');
        assert forall|i: int| 0 <= i < d.push(c).len() implies d.push(c)[i] != '\u{1b}' by {
            if i < d.len() {
                assert(d.push(c)[i] == d[i]);
            }
        }
    } else {
        assert(crate::text::digit_char(n % 10) != '\u{1b}');
    }
}

/// The transcript is plain text: when what it records (the connection
/// details, prompts, tool names, argument summaries, paths and errors)
/// holds no terminal escape character, no line of it does.
pub proof fn law_transcript_is_plain(
    base_url: Seq<char>,
    provider: Seq<char>,
    model: Seq<char>,
    input: Seq<char>,
    tool: Seq<char>,
    args_brief: Seq<char>,
    elapsed_ms: u64,
    path: Seq<char>,
    error: Seq<char>,
)
    requires
        plain(base_url),
        plain(provider),
        plain(model),
        plain(input),
        plain(tool),
        plain(args_brief),
        plain(path),
        plain(error),
    ensures
        plain(banner_text(base_url, provider, model)),
        plain("p2a> "@ + input + "\n"@),
        plain("  [tool] "@ + tool + " "@ + args_brief),
        plain("  done "@ + crate::text::decimal(elapsed_ms as nat) + "ms\n"@),
        plain("  [saved] "@ + path + "\n"@),
        plain("Error: "@ + error + "\n"@),
{
    reveal_strlit("$ p2a chat --provider ");
    reveal_strlit(" --model ");
    reveal_strlit("\n");
    reveal_strlit("p2a chat\n");
    reveal_strlit("Connected to ");
    reveal_strlit(" | Provider: ");
    reveal_strlit(" (");
    reveal_strlit(")\n");
    reveal_strlit("p2a> ");
    reveal_strlit("  [tool] ");
    reveal_strlit(" ");
    reveal_strlit("  done ");
    reveal_strlit("ms\n");
    reveal_strlit("  [saved] ");
    reveal_strlit("Error: ");
    lemma_plain_concat("$ p2a chat --provider "@, provider);
    lemma_plain_concat("$ p2a chat --provider "@ + provider, " --model "@);
    lemma_plain_concat("$ p2a chat --provider "@ + provider + " --model "@, model);
    let b1 = "$ p2a chat --provider "@ + provider + " --model "@ + model;
    lemma_plain_concat(b1, "\n"@);
    lemma_plain_concat(b1 + "\n"@, "p2a chat\n"@);
    lemma_plain_concat(b1 + "\n"@ + "p2a chat\n"@, "Connected to "@);
    let b2 = b1 + "\n"@ + "p2a chat\n"@ + "Connected to "@;
    lemma_plain_concat(b2, base_url);
    lemma_plain_concat(b2 + base_url, " | Provider: "@);
    lemma_plain_concat(b2 + base_url + " | Provider: "@, provider);
    lemma_plain_concat(b2 + base_url + " | Provider: "@ + provider, " ("@);
    lemma_plain_concat(b2 + base_url + " | Provider: "@ + provider + " ("@, model);
    let b3 = b2 + base_url + " | Provider: "@ + provider + " ("@ + model;
    lemma_plain_concat(b3, ")\n"@);
    lemma_plain_concat(b3 + ")\n"@, "\n"@);
    lemma_plain_concat("p2a> "@, input);
    lemma_plain_concat("p2a> "@ + input, "\n"@);
    lemma_plain_concat("  [tool] "@, tool);
    lemma_plain_concat("  [tool] "@ + tool, " "@);
    lemma_plain_concat("  [tool] "@ + tool + " "@, args_brief);
    lemma_decimal_plain(elapsed_ms as nat);
    lemma_plain_concat("  done "@, crate::text::decimal(elapsed_ms as nat));
    lemma_plain_concat("  done "@ + crate::text::decimal(elapsed_ms as nat), "ms\n"@);
    lemma_plain_concat("  [saved] "@, path);
    lemma_plain_concat("  [saved] "@ + path, "\n"@);
    lemma_plain_concat("Error: "@, error);
    lemma_plain_concat("Error: "@ + error, "\n"@);
}

/// The text of an argument value as it arrives.
pub open spec fn arg_text(v: ArgShown) -> Seq<char> {
    match v {
        ArgShown::Text(s) => s@,
        ArgShown::Json(t) => t@,
    }
}

/// Every member's key and value text is plain.
pub open spec fn members_plain(ms: Seq<(String, ArgShown)>) -> bool {
    forall|i: int| #![trigger ms[i]] 0 <= i < ms.len() ==> plain(ms[i].0@) && plain(arg_text(ms[i].1))
}

proof fn lemma_plain_take(s: Seq<char>, k: int)
    requires
        plain(s),
        0 <= k <= s.len(),
    ensures
        plain(s.take(k)),
{
    assert forall|i: int| 0 <= i < s.take(k).len() implies s.take(k)[i] != '\u{1b}' by {
        assert(s.take(k)[i] == s[i]);
    }
}

proof fn lemma_shown_value_plain(v: ArgShown)
    requires
        showable(v),
        plain(arg_text(v)),
    ensures
        plain(shown_value(v)),
{
    reveal_strlit("\"");
    reveal_strlit("...\"");
    reveal_strlit("...");
    let t = arg_text(v);
    if utf8_len(t) > 30 {
        crate::text::lemma_utf8_prefix_is_prefix(t, 27);
        lemma_plain_take(t, utf8_prefix(t, 27).len() as int);
    }
    match v {
        ArgShown::Text(s) => if utf8_len(s@) > 30 {
            lemma_plain_concat("\""@, utf8_prefix(s@, 27));
            lemma_plain_concat("\""@ + utf8_prefix(s@, 27), "...\""@);
        } else {
            lemma_plain_concat("\""@, s@);
            lemma_plain_concat("\""@ + s@, "\""@);
        },
        ArgShown::Json(j) => if utf8_len(j@) > 30 {
            lemma_plain_concat(utf8_prefix(j@, 27), "..."@);
        },
    }
}

proof fn lemma_join_plain(parts: Seq<Seq<char>>, sep: Seq<char>)
    requires
        plain(sep),
        forall|i: int| 0 <= i < parts.len() ==> plain(#[trigger] parts[i]),
    ensures
        plain(join(parts, sep)),
    decreases parts.len(),
{
    if parts.len() == 0 {
    } else if parts.len() == 1 {
        assert(plain(parts[0]));
    } else {
        let d = parts.drop_last();
        assert forall|i: int| 0 <= i < d.len() implies plain(#[trigger] d[i]) by {
            assert(d[i] == parts[i]);
        }
        lemma_join_plain(d, sep);
        assert(plain(parts[parts.len() - 1]));
        lemma_plain_concat(join(d, sep), sep);
        lemma_plain_concat(join(d, sep) + sep, parts.last());
    }
}

/// The summary of a tool's arguments is plain text when its keys and
/// values are: the transcript line it goes into stays free of terminal
/// codes.
pub proof fn law_args_brief_is_plain(args: Option<Seq<(String, ArgShown)>>)
    requires
        brief_showable(args),
        match args {
            Some(ms) => members_plain(ms),
            None => true,
        },
    ensures
        plain(args_brief(args)),
{
    match args {
        None => {},
        Some(ms) => {
            assert(members_plain(ms));
            assert(members_showable(ms));
            reveal_strlit("(");
            reveal_strlit(")");
            reveal_strlit(", ");
            reveal_strlit(", ...");
            reveal_strlit("=");
            let shown = shown_members(ms);
            let texts = shown.map_values(|m: (String, ArgShown)| member_text(m));
            assert forall|i: int| 0 <= i < texts.len() implies plain(#[trigger] texts[i]) by {
                assert(shown.len() <= ms.len());
                assert(i < ms.len() && i < 4);
                assert(shown[i] == ms[i]);
                assert(showable(ms[i].1));
                assert(plain(ms[i].0@) && plain(arg_text(ms[i].1)));
                lemma_shown_value_plain(ms[i].1);
                lemma_plain_concat(ms[i].0@, "="@);
                lemma_plain_concat(ms[i].0@ + "="@, shown_value(ms[i].1));
            }
            lemma_join_plain(texts, ", "@);
            let tail: Seq<char> = if ms.len() > 4 { ", ..."@ } else { Seq::empty() };
            lemma_plain_concat("("@, join(texts, ", "@));
            lemma_plain_concat("("@ + join(texts, ", "@), tail);
            lemma_plain_concat("("@ + join(texts, ", "@) + tail, ")"@);
        },
    }
}

proof fn lemma_split_no_newline(s: Seq<char>)
    requires
        forall|i: int| 0 <= i < s.len() ==> s[i] != '\n',
    ensures
        split_pieces(s, '\n') == seq![s],
    decreases s.len(),
{
    if s.len() == 0 {
        assert(s =~= Seq::<char>::empty());
    } else {
        let d = s.drop_last();
        assert forall|i: int| 0 <= i < d.len() implies d[i] != '\n' by {
            assert(d[i] == s[i]);
        }
        lemma_split_no_newline(d);
        assert(s.last() == s[s.len() - 1]);
        assert(d.push(s.last()) =~= s);
        assert(seq![d].update(0, d.push(s.last())) =~= seq![s]);
    }
}

/// Splitting a text that continues `x` with `y`: the complete lines of `x`,
/// then the lines of `x`'s unfinished last line continued by `y`.
proof fn lemma_split_concat(x: Seq<char>, y: Seq<char>)
    ensures
        split_pieces(x + y, '\n') == split_pieces(x, '\n').drop_last() + split_pieces(
            split_pieces(x, '\n').last() + y,
            '\n',
        ),
    decreases y.len(),
{
    let px = split_pieces(x, '\n');
    lemma_split_pieces_nonempty(x, '\n');
    let last = px.last();
    let d = px.drop_last();
    if y.len() == 0 {
        law_newline_pieces_rejoin(x);
        assert forall|j: int| 0 <= j < last.len() implies last[j] != '\n' by {
            assert(px[px.len() - 1] == last);
        }
        lemma_split_no_newline(last);
        assert(x + y =~= x);
        assert(last + y =~= last);
        assert(d + seq![last] =~= px);
    } else {
        let y1 = y.drop_last();
        let c = y.last();
        lemma_split_concat(x, y1);
        assert((x + y).drop_last() =~= x + y1);
        assert((x + y).last() == c);
        assert((last + y).drop_last() =~= last + y1);
        assert((last + y).last() == c);
        let q = split_pieces(last + y1, '\n');
        lemma_split_pieces_nonempty(last + y1, '\n');
        assert(split_pieces(x + y1, '\n') == d + q);
        if c == '\n' {
            assert((d + q).push(Seq::empty()) =~= d + q.push(Seq::empty()));
        } else {
            let dq = d + q;
            assert(dq.last() == q.last());
            assert(dq.update(dq.len() - 1, dq.last().push(c)) =~= d + q.update(
                q.len() - 1,
                q.last().push(c),
            ));
        }
    }
}

/// One step of line buffering: the text still pending, continued by a
/// chunk, gives its complete lines and the new pending text.
pub open spec fn feed_step(pending: Seq<char>, chunk: Seq<char>) -> (Seq<Seq<char>>, Seq<char>) {
    let pieces = split_pieces(pending + chunk, '\n');
    (pieces.drop_last(), pieces.last())
}

/// All chunks of a stream, one after another.
pub open spec fn flatten(chunks: Seq<Seq<char>>) -> Seq<char>
    decreases chunks.len(),
{
    if chunks.len() == 0 {
        Seq::empty()
    } else {
        flatten(chunks.drop_last()) + chunks.last()
    }
}

/// The lines given so far and the pending text after feeding the chunks,
/// in order, to an empty buffer.
pub open spec fn buffered(chunks: Seq<Seq<char>>) -> (Seq<Seq<char>>, Seq<char>)
    decreases chunks.len(),
{
    if chunks.len() == 0 {
        (Seq::empty(), Seq::empty())
    } else {
        let before = buffered(chunks.drop_last());
        let step = feed_step(before.1, chunks.last());
        (before.0 + step.0, step.1)
    }
}

/// Every line a stream yields: the complete lines, then what is left at
/// the end when it is not empty.
pub open spec fn stream_lines(chunks: Seq<Seq<char>>) -> Seq<Seq<char>> {
    let b = buffered(chunks);
    b.0 + if b.1.len() > 0 {
        seq![b.1]
    } else {
        Seq::empty()
    }
}

/// Buffering chunk by chunk gives the lines of the whole text: the complete
/// lines so far, and its unfinished last line as pending text.
pub proof fn law_buffering_splits_whole_text(chunks: Seq<Seq<char>>)
    ensures
        buffered(chunks).0 == split_pieces(flatten(chunks), '\n').drop_last(),
        buffered(chunks).1 == split_pieces(flatten(chunks), '\n').last(),
    decreases chunks.len(),
{
    if chunks.len() == 0 {
        assert(split_pieces(Seq::<char>::empty(), '\n') == seq![Seq::<char>::empty()]);
        assert(seq![Seq::<char>::empty()].drop_last() =~= Seq::<Seq<char>>::empty());
    } else {
        let f = flatten(chunks.drop_last());
        let c = chunks.last();
        law_buffering_splits_whole_text(chunks.drop_last());
        lemma_split_concat(f, c);
        let pf = split_pieces(f, '\n');
        let q = split_pieces(pf.last() + c, '\n');
        lemma_split_pieces_nonempty(pf.last() + c, '\n');
        assert((pf.drop_last() + q).drop_last() =~= pf.drop_last() + q.drop_last());
        assert((pf.drop_last() + q).last() == q.last());
    }
}

/// How a stream arrives in chunks does not change the lines it yields: two
/// chunkings of the same text are handled alike, line for line.
pub proof fn law_stream_lines_ignore_chunking(a: Seq<Seq<char>>, b: Seq<Seq<char>>)
    requires
        flatten(a) == flatten(b),
    ensures
        stream_lines(a) == stream_lines(b),
{
    law_buffering_splits_whole_text(a);
    law_buffering_splits_whole_text(b);
}

/// Text of a stream that has not yet ended in a newline.
pub struct StreamBuffer {
    /// The unfinished last line.
    pub pending: String,
}

impl StreamBuffer {
    /// An empty buffer.
    pub fn new() -> (r: Self)
        ensures
            r.pending@ == Seq::<char>::empty(),
    {
        StreamBuffer { pending: String::new() }
    }

    /// Takes in one chunk of text and gives the lines it completes.
    pub fn feed(&mut self, chunk: &str) -> (lines: Vec<String>)
        ensures
            (views(lines@), final(self).pending@) == feed_step(old(self).pending@, chunk@),
    {
        let mut text = self.pending.clone();
        push_str(&mut text, chunk);
        let (lines, rest) = split_complete_lines(text.as_str());
        self.pending = rest;
        lines
    }

    /// What is left when the stream ends, if anything.
    pub fn finish(self) -> (r: Option<String>)
        ensures
            match r {
                Some(t) => t@ == self.pending@ && t@.len() > 0,
                None => self.pending@.len() == 0,
            },
    {
        let blank = String::new();
        let empty = self.pending == blank;
        proof {
            assert(blank@ == Seq::<char>::empty());
            if self.pending@.len() == 0 {
                assert(self.pending@ =~= blank@);
            }
        }
        if empty {
            None
        } else {
            Some(self.pending)
        }
    }
}

/// The message recording a prompt the user sent.
pub open spec fn is_user_message(m: Message, input: Seq<char>) -> bool {
    &&& m.role@ == "user"@
    &&& m.content@ == input
    &&& m.tool_calls is None
    &&& m.tool_results is None
}

/// The conversation after a sequence of requests, each a prompt and its
/// reply (`None` when the request failed): for every request that got a
/// reply, in order, the user's prompt and then the reply.
pub open spec fn history_of(ms: Seq<Message>, requests: Seq<(Seq<char>, Option<Message>)>) -> bool
    decreases requests.len(),
{
    if requests.len() == 0 {
        ms.len() == 0
    } else {
        match requests.last().1 {
            None => history_of(ms, requests.drop_last()),
            Some(reply) => {
                &&& ms.len() >= 2
                &&& history_of(ms.take(ms.len() - 2), requests.drop_last())
                &&& is_user_message(ms[ms.len() - 2], requests.last().0)
                &&& ms[ms.len() - 1] == reply
            },
        }
    }
}

/// How one request changes the conversation.
pub open spec fn history_step(
    before: Seq<Message>,
    after: Seq<Message>,
    input: Seq<char>,
    reply: Option<Message>,
) -> bool {
    match reply {
        None => after == before,
        Some(m) => {
            &&& after.len() == before.len() + 2
            &&& after.take(before.len() as int) == before
            &&& is_user_message(after[before.len() as int], input)
            &&& after[before.len() + 1int] == m
        },
    }
}

/// Over several requests the history holds, in order, each successful
/// prompt followed by its reply, and nothing for the failed ones.
pub proof fn law_history_over_requests(
    before: Seq<Message>,
    after: Seq<Message>,
    requests: Seq<(Seq<char>, Option<Message>)>,
    input: Seq<char>,
    reply: Option<Message>,
)
    requires
        history_of(before, requests),
        history_step(before, after, input, reply),
    ensures
        history_of(after, requests.push((input, reply))),
{
    let r = requests.push((input, reply));
    assert(r.drop_last() =~= requests);
    assert(r.last() == (input, reply));
    match reply {
        None => {},
        Some(m) => {
            assert(after.take(after.len() - 2) =~= before);
        },
    }
}

impl ChatHistory {
    /// Settles one request: a reply is recorded after the prompt, a failed
    /// request (`None`) leaves the conversation as it was.
    pub fn settle(&mut self, input: &str, outcome: Option<Message>)
        ensures
            history_step(old(self).messages@, final(self).messages@, input@, outcome),
    {
        match outcome {
            Some(reply) => {
                self.record_exchange(input, reply);
            },
            None => {},
        }
    }
}

/// The fixed part of a chat request: the session, the prompt, and the
/// flags every request of the client carries.
pub struct ChatRequestParts {
    pub session_id: String,
    pub message: String,
    pub interpret: bool,
    pub conversation_id: Option<String>,
    pub retrieve_history: bool,
}

/// The request for one prompt: answers are interpreted, no conversation id
/// is given, and the server's own history is not retrieved (the client
/// sends its history).
pub fn chat_request(session_id: &str, input: &str) -> (r: ChatRequestParts)
    ensures
        r.session_id@ == session_id@,
        r.message@ == input@,
        r.interpret,
        r.conversation_id is None,
        !r.retrieve_history,
{
    ChatRequestParts {
        session_id: session_id.to_owned(),
        message: input.to_owned(),
        interpret: true,
        conversation_id: None,
        retrieve_history: false,
    }
}

/// A scripted run: the prompts read from the script, how many of them
/// were sent, the conversation their replies built, and (for proofs) each
/// sent prompt with its outcome.
pub struct ScriptRun {
    /// The prompts, in the order the script gives them.
    pub prompts: Vec<String>,
    /// How many prompts were sent and settled.
    pub sent: usize,
    /// The conversation so far.
    pub history: ChatHistory,
    /// Each settled prompt with its reply (`None` when the request failed).
    pub log: Ghost<Seq<(Seq<char>, Option<Message>)>>,
}

impl ScriptRun {
    /// The run is consistent: the settled prompts are the script's first
    /// ones, in order, and the conversation holds each successful one
    /// followed by its reply.
    pub open spec fn wf(&self) -> bool {
        &&& self.sent <= self.prompts@.len()
        &&& self.log@.len() == self.sent
        &&& forall|i: int| 0 <= i < self.sent ==> (#[trigger] self.log@[i]).0 == self.prompts@[i]@
        &&& history_of(self.history.messages@, self.log@)
    }

    /// A run of the given prompts that has sent nothing yet.
    pub fn new(prompts: Vec<String>) -> (r: Self)
        ensures
            r.wf(),
            r.prompts@ == prompts@,
            r.sent == 0,
            r.history.messages@.len() == 0,
    {
        ScriptRun { prompts, sent: 0, history: ChatHistory::new(), log: Ghost(Seq::empty()) }
    }

    /// The next request to send, with the conversation so far as its
    /// history; `None` once every prompt was sent.
    pub fn next_request(&self, session_id: &str) -> (r: Option<ChatRequestParts>)
        requires
            self.wf(),
        ensures
            r is None <==> self.sent == self.prompts@.len(),
            r matches Some(p) ==> {
                &&& p.session_id@ == session_id@
                &&& p.message@ == self.prompts@[self.sent as int]@
                &&& p.interpret
                &&& p.conversation_id is None
                &&& !p.retrieve_history
            },
    {
        if self.sent < self.prompts.len() {
            Some(chat_request(session_id, self.prompts[self.sent].as_str()))
        } else {
            None
        }
    }

    /// Settles the request for the next prompt with its outcome.
    pub fn settle(&mut self, outcome: Option<Message>)
        requires
            old(self).wf(),
            old(self).sent < old(self).prompts@.len(),
        ensures
            final(self).wf(),
            final(self).prompts@ == old(self).prompts@,
            final(self).sent == old(self).sent + 1,
            final(self).log@ == old(self).log@.push(
                (old(self).prompts@[old(self).sent as int]@, outcome),
            ),
            history_step(
                old(self).history.messages@,
                final(self).history.messages@,
                old(self).prompts@[old(self).sent as int]@,
                outcome,
            ),
    {
        let ghost before = self.history.messages@;
        let ghost log = self.log@;
        let ghost o = outcome;
        let n = self.prompts.len();
        assert(self.sent < n);
        let next = self.sent + 1;
        let input = self.prompts[self.sent].clone();
        self.history.settle(input.as_str(), outcome);
        proof {
            law_history_over_requests(before, self.history.messages@, log, input@, o);
        }
        self.log = Ghost(log.push((input@, o)));
        self.sent = next;
        proof {
            assert forall|i: int| 0 <= i < self.sent implies (#[trigger] self.log@[i]).0
                == self.prompts@[i]@ by {
                if i < self.sent - 1 {
                    assert(self.log@[i] == log[i]);
                }
            }
        }
    }
}

/// Over a whole scripted run, the conversation sent with each request
/// holds, in order, every earlier prompt that got a reply followed by that
/// reply, and nothing of the failed ones; a run that sent every prompt has
/// sent exactly the script's prompts, in order.
pub proof fn law_script_run_history(run: ScriptRun)
    requires
        run.wf(),
    ensures
        history_of(run.history.messages@, run.log@),
        run.log@.len() == run.sent,
        run.sent == run.prompts@.len() ==> run.log@.map_values(
            |e: (Seq<char>, Option<Message>)| e.0,
        ) == views(run.prompts@),
{
    if run.sent == run.prompts@.len() {
        assert(run.log@.map_values(|e: (Seq<char>, Option<Message>)| e.0) =~= views(run.prompts@));
    }
}

} // verus!
