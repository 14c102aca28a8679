//! Output formats, message rendering and input validation for command results.

use vstd::prelude::*;
use crate::edit_distance::{edit_distance, levenshtein_distance};
use crate::text::{
    decimal, join, lowercase, push_decimal, push_joined, push_joined_first, push_signed_decimal,
    push_str, signed_decimal,
    views,
};

verus! {

/// Output format options.
#[derive(Clone, Copy, Debug, PartialEq, Eq, Structural)]
pub enum OutputFormat {
    /// Human-readable text output
    Text,
    /// JSON output for programmatic consumption
    Json,
    /// Formatted table output
    Table,
}

impl Default for OutputFormat {
    fn default() -> (r: Self)
        ensures
            r == OutputFormat::Text,
    {
        OutputFormat::Text
    }
}

/// A lower-case hexadecimal digit.
pub open spec fn hex_digit(n: nat) -> char {
    if n < 10 {
        (48 + n) as char
    } else {
        (87 + n) as char
    }
}

/// How a JSON string writes one character: a quote and a backslash escaped
/// with a backslash, the control characters with a short escape where JSON has
/// one and as `\u00XX` otherwise, every other character as itself.
pub open spec fn json_escape_char(c: char) -> Seq<char> {
    let u = c as u32;
    if c == '"' {
        seq!['\\', '"']
    } else if c == '\\' {
        seq!['\\', '\\']
    } else if u == 8 {
        seq!['\\', 'b']
    } else if u == 9 {
        seq!['\\', 't']
    } else if u == 10 {
        seq!['\\', 'n']
    } else if u == 12 {
        seq!['\\', 'f']
    } else if u == 13 {
        seq!['\\', 'r']
    } else if u < 32 {
        seq!['\\', 'u', '0', '0', hex_digit((u / 16) as nat), hex_digit((u % 16) as nat)]
    } else {
        seq![c]
    }
}

/// The body of a JSON string: each character escaped as JSON requires.
pub open spec fn json_escape(s: Seq<char>) -> Seq<char>
    decreases s.len(),
{
    if s.len() == 0 {
        Seq::empty()
    } else {
        json_escape(s.drop_last()) + json_escape_char(s.last())
    }
}

/// Text of a JSON object with one string member, `{"key":"value"}`, in
/// compact form.
pub open spec fn json_string_member(key: Seq<char>, value: Seq<char>) -> Seq<char> {
    "{\""@ + json_escape(key) + "\":\""@ + json_escape(value) + "\"}"@
}

/// Renders a one-member JSON object with `serde_json`'s compact `Display`
/// of a `Value`: the key and the value written as JSON strings, escaped by
/// serde_json's escape table.
#[verifier::external_body]
fn json_object_text(key: &str, value: &str) -> (r: String)
    ensures
        r@ == json_string_member(key@, value@),
{
    let mut m = serde_json::Map::new();
    m.insert(key.to_string(), serde_json::Value::String(value.to_string()));
    serde_json::Value::Object(m).to_string()
}

/// The line printed for an informational message.
pub open spec fn message_text(msg: Seq<char>, format: OutputFormat) -> Seq<char> {
    match format {
        OutputFormat::Json => json_string_member("message"@, msg),
        _ => msg,
    }
}

/// The line printed (to the error stream) for an error message.
pub open spec fn error_text(msg: Seq<char>, format: OutputFormat) -> Seq<char> {
    match format {
        OutputFormat::Json => json_string_member("error"@, msg),
        _ => "Error: "@ + msg,
    }
}

/// Formats an informational message: a JSON object `{"message": ..}` or the
/// message itself.
pub fn format_message(msg: &str, format: &OutputFormat) -> (r: String)
    ensures
        r@ == message_text(msg@, *format),
{
    match format {
        OutputFormat::Json => json_object_text("message", msg),
        _ => msg.to_owned(),
    }
}

/// Formats an error message: a JSON object `{"error": ..}` or `Error: <msg>`.
pub fn format_error(msg: &str, format: &OutputFormat) -> (r: String)
    ensures
        r@ == error_text(msg@, *format),
{
    match format {
        OutputFormat::Json => json_object_text("error", msg),
        _ => {
            let mut s = String::new();
            push_str(&mut s, "Error: ");
            push_str(&mut s, msg);
            s
        },
    }
}

/// A member value of a JSON object that the library renders.
pub enum JsonField {
    /// A JSON string.
    Text(String),
    /// A JSON number.
    Count(usize),
    /// A JSON array of strings.
    Names(Vec<String>),
}

/// The mathematical value of a JSON member value.
pub enum JsonFieldView {
    Text(Seq<char>),
    Count(usize),
    Names(Seq<Seq<char>>),
}

impl View for JsonField {
    type V = JsonFieldView;

    open spec fn view(&self) -> JsonFieldView {
        match self {
            JsonField::Text(s) => JsonFieldView::Text(s@),
            JsonField::Count(n) => JsonFieldView::Count(*n),
            JsonField::Names(v) => JsonFieldView::Names(views(v@)),
        }
    }
}

/// The views of an object's members.
pub open spec fn members_view(ms: Seq<(String, JsonField)>) -> Seq<(Seq<char>, JsonFieldView)> {
    ms.map_values(|m: (String, JsonField)| (m.0@, m.1@))
}

/// Text of a JSON object with these members as `serde_json::to_string_pretty`
/// renders it.
pub uninterp spec fn pretty_json_object(members: Seq<(Seq<char>, JsonFieldView)>) -> Seq<char>;

/// Renders a JSON object with `serde_json::to_string_pretty`.
#[verifier::external_body]
pub(crate) fn pretty_object_text(members: &[(String, JsonField)]) -> (r: String)
    ensures
        r@ == pretty_json_object(members_view(members@)),
{
    let mut m = serde_json::Map::new();
    for (key, field) in members {
        let value = match field {
            JsonField::Text(s) => serde_json::Value::from(s.clone()),
            JsonField::Count(n) => serde_json::Value::from(*n),
            JsonField::Names(v) => serde_json::Value::from(v.clone()),
        };
        m.insert(key.clone(), value);
    }
    serde_json::to_string_pretty(&serde_json::Value::Object(m)).unwrap_or_default()
}

/// The JSON summary of a dataset: members `name`, `rows`, `columns` and
/// `column_names`.
pub open spec fn dataset_summary_json(
    name: Seq<char>,
    nrows: usize,
    ncols: usize,
    columns: Seq<Seq<char>>,
) -> Seq<char> {
    pretty_json_object(
        seq![
            ("name"@, JsonFieldView::Text(name)),
            ("rows"@, JsonFieldView::Count(nrows)),
            ("columns"@, JsonFieldView::Count(ncols)),
            ("column_names"@, JsonFieldView::Names(columns)),
        ],
    )
}

fn dataset_summary_json_text(name: &str, nrows: usize, ncols: usize, columns: &[String]) -> (r:
    String)
    ensures
        r@ == dataset_summary_json(name@, nrows, ncols, views(columns@)),
{
    let mut names: Vec<String> = Vec::new();
    let mut i: usize = 0;
    while i < columns.len()
        invariant
            i <= columns@.len(),
            names@ == columns@.take(i as int),
        decreases columns@.len() - i,
    {
        names.push(columns[i].clone());
        proof {
            assert(columns@.take(i + 1) =~= columns@.take(i as int).push(columns@[i as int]));
        }
        i = i + 1;
    }
    proof {
        assert(columns@.take(columns@.len() as int) =~= columns@);
    }
    let members = vec![
        ("name".to_owned(), JsonField::Text(name.to_owned())),
        ("rows".to_owned(), JsonField::Count(nrows)),
        ("columns".to_owned(), JsonField::Count(ncols)),
        ("column_names".to_owned(), JsonField::Names(names)),
    ];
    let r = pretty_object_text(members.as_slice());
    proof {
        assert(members_view(members@) =~= seq![
            ("name"@, JsonFieldView::Text(name@)),
            ("rows"@, JsonFieldView::Count(nrows)),
            ("columns"@, JsonFieldView::Count(ncols)),
            ("column_names"@, JsonFieldView::Names(views(columns@))),
        ]);
    }
    r
}

/// The text (and table) form of a dataset summary.
pub open spec fn summary_text(name: Seq<char>, nrows: nat, ncols: nat, columns: Seq<Seq<char>>) -> Seq<
    char,
> {
    "Dataset: "@ + name + "\n"@ + "  Rows: "@ + decimal(nrows) + "\n"@ + "  Columns: "@ + decimal(
        ncols,
    ) + "\n"@ + "  Column names: "@ + join(columns, ", "@) + "\n"@
}

/// Format a dataset summary for display.
pub fn format_dataset_summary(
    name: &str,
    nrows: usize,
    ncols: usize,
    columns: &[String],
    format: &OutputFormat,
) -> (r: String)
    ensures
        r@ == match *format {
            OutputFormat::Json => dataset_summary_json(name@, nrows, ncols, views(columns@)),
            _ => summary_text(name@, nrows as nat, ncols as nat, views(columns@)),
        },
{
    match format {
        OutputFormat::Json => dataset_summary_json_text(name, nrows, ncols, columns),
        _ => {
            let mut out = String::new();
            push_str(&mut out, "Dataset: ");
            push_str(&mut out, name);
            push_str(&mut out, "\n");
            push_str(&mut out, "  Rows: ");
            push_decimal(&mut out, nrows as u64);
            push_str(&mut out, "\n");
            push_str(&mut out, "  Columns: ");
            push_decimal(&mut out, ncols as u64);
            push_str(&mut out, "\n");
            push_str(&mut out, "  Column names: ");
            push_joined(&mut out, columns, ", ");
            push_str(&mut out, "\n");
            proof {
                assert(out@ =~= summary_text(name@, nrows as nat, ncols as nat, views(columns@)));
            }
            out
        },
    }
}

} // verus!

verus! {

/// Message for a value below its allowed minimum.
pub open spec fn below_min_text(param: Seq<char>, value: int, min: int) -> Seq<char> {
    "Invalid "@ + param + ": "@ + signed_decimal(value) + " is below minimum allowed value ("@
        + signed_decimal(min) + ")."@
}

/// Message for a value above its allowed maximum.
pub open spec fn above_max_text(param: Seq<char>, value: int, max: int) -> Seq<char> {
    "Invalid "@ + param + ": "@ + signed_decimal(value) + " exceeds maximum allowed value ("@
        + signed_decimal(max) + ")."@
}

/// Validate that a numeric parameter is within a valid range: the lower
/// bound is checked first, then the upper bound; both are inclusive.
pub fn validate_range(value: i64, min: Option<i64>, max: Option<i64>, param_name: &str) -> (r:
    Result<(), String>)
    ensures
        match r {
            Ok(()) => (min is None || min->0 <= value) && (max is None || value <= max->0),
            Err(msg) => if min is Some && value < min->0 {
                msg@ == below_min_text(param_name@, value as int, min->0 as int)
            } else {
                max is Some && value > max->0 && msg@ == above_max_text(
                    param_name@,
                    value as int,
                    max->0 as int,
                )
            },
        },
{
    if let Some(min_val) = min {
        if value < min_val {
            let mut s = String::new();
            push_str(&mut s, "Invalid ");
            push_str(&mut s, param_name);
            push_str(&mut s, ": ");
            push_signed_decimal(&mut s, value);
            push_str(&mut s, " is below minimum allowed value (");
            push_signed_decimal(&mut s, min_val);
            push_str(&mut s, ").");
            proof {
                assert(s@ =~= below_min_text(param_name@, value as int, min_val as int));
            }
            return Err(s);
        }
    }
    if let Some(max_val) = max {
        if value > max_val {
            let mut s = String::new();
            push_str(&mut s, "Invalid ");
            push_str(&mut s, param_name);
            push_str(&mut s, ": ");
            push_signed_decimal(&mut s, value);
            push_str(&mut s, " exceeds maximum allowed value (");
            push_signed_decimal(&mut s, max_val);
            push_str(&mut s, ").");
            proof {
                assert(s@ =~= above_max_text(param_name@, value as int, max_val as int));
            }
            return Err(s);
        }
    }
    Ok(())
}

/// Message for an analysis given too few observations.
pub open spec fn sample_size_text(analysis: Seq<char>, n_obs: nat, min_required: nat) -> Seq<char> {
    "Insufficient sample size for "@ + analysis + ": "@ + decimal(n_obs)
        + " observations provided, but at least "@ + decimal(min_required) + " required."@
}

/// Validate minimum sample size for an analysis.
pub fn validate_sample_size(n_obs: usize, min_required: usize, analysis_type: &str) -> (r: Result<
    (),
    String,
>)
    ensures
        match r {
            Ok(()) => n_obs >= min_required,
            Err(msg) => n_obs < min_required && msg@ == sample_size_text(
                analysis_type@,
                n_obs as nat,
                min_required as nat,
            ),
        },
{
    if n_obs < min_required {
        let mut s = String::new();
        push_str(&mut s, "Insufficient sample size for ");
        push_str(&mut s, analysis_type);
        push_str(&mut s, ": ");
        push_decimal(&mut s, n_obs as u64);
        push_str(&mut s, " observations provided, but at least ");
        push_decimal(&mut s, min_required as u64);
        push_str(&mut s, " required.");
        proof {
            assert(s@ =~= sample_size_text(analysis_type@, n_obs as nat, min_required as nat));
        }
        return Err(s);
    }
    Ok(())
}

/// Message for a count parameter that must be positive.
pub open spec fn positive_text(param: Seq<char>) -> Seq<char> {
    "Invalid "@ + param + ": value must be greater than 0."@
}

/// Validate that positive integer parameter is greater than zero.
pub fn validate_positive(value: usize, param_name: &str) -> (r: Result<(), String>)
    ensures
        match r {
            Ok(()) => value > 0,
            Err(msg) => value == 0 && msg@ == positive_text(param_name@),
        },
{
    if value == 0 {
        let mut s = String::new();
        push_str(&mut s, "Invalid ");
        push_str(&mut s, param_name);
        push_str(&mut s, ": value must be greater than 0.");
        return Err(s);
    }
    Ok(())
}

/// Case-insensitive edit distance between a column name and a target name.
pub open spec fn name_distance(column: Seq<char>, target: Seq<char>) -> nat {
    edit_distance(lowercase(column), lowercase(target))
}

/// The columns at exactly distance `d` from `target`, in column order.
pub open spec fn columns_at_distance(columns: Seq<Seq<char>>, target: Seq<char>, d: nat) -> Seq<
    Seq<char>,
>
    decreases columns.len(),
{
    if columns.len() == 0 {
        Seq::empty()
    } else {
        let rest = columns_at_distance(columns.drop_last(), target, d);
        if name_distance(columns.last(), target) == d {
            rest.push(columns.last())
        } else {
            rest
        }
    }
}

/// Columns within three edits of `target`, nearest first; columns at equal
/// distance keep their order. At most `max_results` are kept.
pub open spec fn similar_columns(columns: Seq<Seq<char>>, target: Seq<char>, max_results: nat) -> Seq<
    Seq<char>,
> {
    let all = columns_at_distance(columns, target, 0) + columns_at_distance(columns, target, 1)
        + columns_at_distance(columns, target, 2) + columns_at_distance(columns, target, 3);
    if all.len() <= max_results {
        all
    } else {
        all.take(max_results as int)
    }
}

} // verus!

verus! {

/// The distance buckets `0 .. d` laid end to end.
pub open spec fn buckets_upto(columns: Seq<Seq<char>>, target: Seq<char>, d: nat) -> Seq<Seq<char>>
    decreases d,
{
    if d == 0 {
        Seq::empty()
    } else {
        buckets_upto(columns, target, (d - 1) as nat) + columns_at_distance(
            columns,
            target,
            (d - 1) as nat,
        )
    }
}

/// Find columns similar to `target`: those within three case-insensitive
/// edits, nearest first (ties keep column order), at most `max_results`.
pub fn find_similar_columns(columns: &[String], target: &str, max_results: usize) -> (r: Vec<String>)
    ensures
        views(r@) == similar_columns(views(columns@), target@, max_results as nat),
{
    let ghost cv = views(columns@);
    let n = columns.len();
    let mut dists: Vec<usize> = Vec::new();
    let mut k: usize = 0;
    while k < n
        invariant
            k <= n,
            n == columns@.len(),
            cv == views(columns@),
            dists@.len() == k,
            forall|m: int| 0 <= m < k ==> dists@[m] == name_distance(cv[m], target@),
        decreases n - k,
    {
        let dk = levenshtein_distance(columns[k].as_str(), target);
        dists.push(dk);
        k = k + 1;
    }
    let mut all: Vec<String> = Vec::new();
    let mut d: usize = 0;
    while d <= 3
        invariant
            d <= 4,
            n == columns@.len(),
            cv == views(columns@),
            dists@.len() == n,
            forall|m: int| 0 <= m < n ==> dists@[m] == name_distance(cv[m], target@),
            views(all@) == buckets_upto(cv, target@, d as nat),
        decreases 4 - d,
    {
        let ghost before = views(all@);
        let mut j: usize = 0;
        while j < n
            invariant
                j <= n,
                d <= 3,
                n == columns@.len(),
                cv == views(columns@),
                dists@.len() == n,
                forall|m: int| 0 <= m < n ==> dists@[m] == name_distance(cv[m], target@),
                views(all@) == before + columns_at_distance(cv.take(j as int), target@, d as nat),
            decreases n - j,
        {
            let ghost prev = all@;
            if dists[j] == d {
                all.push(columns[j].clone());
            }
            proof {
                let t = cv.take(j + 1);
                assert(t.drop_last() =~= cv.take(j as int));
                assert(t.last() == cv[j as int]);
                assert(cv[j as int] == columns@[j as int]@);
                if dists@[j as int] == d {
                    assert(views(all@) =~= views(prev).push(columns@[j as int]@));
                } else {
                    assert(views(all@) =~= views(prev));
                }
            }
            j = j + 1;
        }
        proof {
            assert(cv.take(n as int) =~= cv);
        }
        d = d + 1;
    }
    proof {
        reveal_with_fuel(buckets_upto, 5);
        assert(buckets_upto(cv, target@, 4) =~= columns_at_distance(cv, target@, 0)
            + columns_at_distance(cv, target@, 1) + columns_at_distance(cv, target@, 2)
            + columns_at_distance(cv, target@, 3));
    }
    let ghost full = all@;
    all.truncate(max_results);
    proof {
        if max_results as nat <= full.len() {
            assert(views(all@) =~= views(full).take(max_results as int));
        }
    }
    all
}

/// Every suggestion is one of the columns, within three edits of the target,
/// and there are never more than asked for.
pub proof fn law_suggestions_are_close_columns(
    columns: Seq<Seq<char>>,
    target: Seq<char>,
    max_results: nat,
)
    ensures
        similar_columns(columns, target, max_results).len() <= max_results,
        forall|i: int|
            0 <= i < similar_columns(columns, target, max_results).len() ==> {
                let s = #[trigger] similar_columns(columns, target, max_results)[i];
                columns.contains(s) && name_distance(s, target) <= 3
            },
{
    let all = columns_at_distance(columns, target, 0) + columns_at_distance(columns, target, 1)
        + columns_at_distance(columns, target, 2) + columns_at_distance(columns, target, 3);
    lemma_bucket_members(columns, target, 0);
    lemma_bucket_members(columns, target, 1);
    lemma_bucket_members(columns, target, 2);
    lemma_bucket_members(columns, target, 3);
    assert forall|i: int| 0 <= i < all.len() implies columns.contains(all[i]) && name_distance(
        all[i],
        target,
    ) <= 3 by {
        let b0 = columns_at_distance(columns, target, 0);
        let b1 = columns_at_distance(columns, target, 1);
        let b2 = columns_at_distance(columns, target, 2);
        let b3 = columns_at_distance(columns, target, 3);
        if i < b0.len() {
            assert(all[i] == b0[i]);
        } else if i < b0.len() + b1.len() {
            assert(all[i] == b1[i - b0.len()]);
        } else if i < b0.len() + b1.len() + b2.len() {
            assert(all[i] == b2[i - b0.len() - b1.len()]);
        } else {
            assert(all[i] == b3[i - b0.len() - b1.len() - b2.len()]);
        }
    }
}

/// Members of a distance bucket are columns at exactly that distance.
proof fn lemma_bucket_members(columns: Seq<Seq<char>>, target: Seq<char>, d: nat)
    ensures
        forall|i: int|
            0 <= i < columns_at_distance(columns, target, d).len() ==> {
                let s = #[trigger] columns_at_distance(columns, target, d)[i];
                columns.contains(s) && name_distance(s, target) == d
            },
    decreases columns.len(),
{
    if columns.len() > 0 {
        let rest = columns.drop_last();
        lemma_bucket_members(rest, target, d);
        let b = columns_at_distance(columns, target, d);
        assert forall|i: int| 0 <= i < b.len() implies columns.contains(b[i]) && name_distance(
            b[i],
            target,
        ) == d by {
            let rb = columns_at_distance(rest, target, d);
            if i < rb.len() {
                assert(b[i] == rb[i]);
                let s = rb[i];
                let w = choose|w: int| 0 <= w < rest.len() && rest[w] == s;
                assert(columns[w] == s);
            } else {
                assert(b[i] == columns.last());
                assert(columns[columns.len() - 1] == columns.last());
            }
        }
    }
}

} // verus!

verus! {

/// One `- name` line per suggestion.
pub open spec fn suggestion_lines(s: Seq<Seq<char>>) -> Seq<char>
    decreases s.len(),
{
    if s.len() == 0 {
        Seq::empty()
    } else {
        suggestion_lines(s.drop_last()) + "\n    - "@ + s.last()
    }
}

/// The list of available columns: all of them, or the first ten and the total.
pub open spec fn available_text(columns: Seq<Seq<char>>) -> Seq<char> {
    if columns.len() > 10 {
        join(columns.take(10), ", "@) + ", ... ("@ + decimal(columns.len()) + " total)"@
    } else {
        join(columns, ", "@)
    }
}

/// The message for a column that the dataset does not have.
pub open spec fn column_not_found_text(columns: Seq<Seq<char>>, col: Seq<char>, purpose: Seq<char>) -> Seq<
    char,
> {
    let sug = similar_columns(columns, col, 3);
    "Column '"@ + col + "' not found (for "@ + purpose + ")."@ + (if sug.len() > 0 {
        "\n  Did you mean one of these?"@ + suggestion_lines(sug)
    } else {
        Seq::empty()
    }) + "\n  Available columns: "@ + available_text(columns)
}

/// Validate that a column exists among the dataset's columns. When it does
/// not, the error names it, suggests similar columns and lists the columns.
pub fn validate_column_exists(columns: &[String], col_name: &str, purpose: &str) -> (r: Result<
    (),
    String,
>)
    ensures
        match r {
            Ok(()) => views(columns@).contains(col_name@),
            Err(msg) => !views(columns@).contains(col_name@) && msg@ == column_not_found_text(
                views(columns@),
                col_name@,
                purpose@,
            ),
        },
{
    let ghost cv = views(columns@);
    let wanted = col_name.to_owned();
    let n = columns.len();
    let mut i: usize = 0;
    while i < n
        invariant
            i <= n,
            n == columns@.len(),
            cv == views(columns@),
            wanted@ == col_name@,
            forall|m: int| 0 <= m < i ==> cv[m] != col_name@,
        decreases n - i,
    {
        if columns[i] == wanted {
            proof {
                assert(cv[i as int] == col_name@);
            }
            return Ok(());
        }
        i = i + 1;
    }
    let suggestions = find_similar_columns(columns, col_name, 3);
    let mut msg = String::new();
    push_str(&mut msg, "Column '");
    push_str(&mut msg, col_name);
    push_str(&mut msg, "' not found (for ");
    push_str(&mut msg, purpose);
    push_str(&mut msg, ").");
    let ghost head = msg@;
    if suggestions.len() > 0 {
        push_str(&mut msg, "\n  Did you mean one of these?");
        let mut k: usize = 0;
        let ghost mid = msg@;
        while k < suggestions.len()
            invariant
                k <= suggestions@.len(),
                msg@ == mid + suggestion_lines(views(suggestions@.take(k as int))),
            decreases suggestions@.len() - k,
        {
            push_str(&mut msg, "\n    - ");
            push_str(&mut msg, suggestions[k].as_str());
            proof {
                let t = views(suggestions@.take(k + 1));
                assert(t.drop_last() =~= views(suggestions@.take(k as int)));
                assert(t.last() == suggestions@[k as int]@);
            }
            k = k + 1;
        }
        proof {
            assert(suggestions@.take(suggestions@.len() as int) =~= suggestions@);
        }
    }
    let ghost after_suggestions = msg@;
    push_str(&mut msg, "\n  Available columns: ");
    if n > 10 {
        push_joined_first(&mut msg, columns, 10, ", ");
        push_str(&mut msg, ", ... (");
        push_decimal(&mut msg, n as u64);
        push_str(&mut msg, " total)");
        proof {
            assert(views(columns@.take(10)) =~= cv.take(10));
        }
    } else {
        push_joined(&mut msg, columns, ", ");
    }
    proof {
        assert(!cv.contains(col_name@));
        assert(msg@ =~= column_not_found_text(cv, col_name@, purpose@));
    }
    Err(msg)
}

/// The first failing column check, in the order the names are given.
pub open spec fn columns_check(columns: Seq<Seq<char>>, names: Seq<Seq<char>>, purpose: Seq<char>) -> Result<
    (),
    Seq<char>,
>
    decreases names.len(),
{
    if names.len() == 0 {
        Ok(())
    } else if !columns.contains(names[0]) {
        Err(column_not_found_text(columns, names[0], purpose))
    } else {
        columns_check(columns, names.drop_first(), purpose)
    }
}

/// Validate that multiple columns exist; reports the first one missing.
pub fn validate_columns_exist(columns: &[String], col_names: &[String], purpose: &str) -> (r: Result<
    (),
    String,
>)
    ensures
        match columns_check(views(columns@), views(col_names@), purpose@) {
            Ok(()) => r is Ok,
            Err(m) => r is Err && r->Err_0@ == m,
        },
{
    let ghost cv = views(columns@);
    let n = col_names.len();
    let mut i: usize = 0;
    proof {
        assert(views(col_names@).skip(0) =~= views(col_names@));
    }
    while i < n
        invariant
            i <= n,
            n == col_names@.len(),
            cv == views(columns@),
            columns_check(cv, views(col_names@), purpose@) == columns_check(
                cv,
                views(col_names@).skip(i as int),
                purpose@,
            ),
        decreases n - i,
    {
        let ghost rest = views(col_names@).skip(i as int);
        proof {
            assert(rest[0] == col_names@[i as int]@);
            assert(rest.drop_first() =~= views(col_names@).skip(i + 1));
        }
        match validate_column_exists(columns, col_names[i].as_str(), purpose) {
            Ok(()) => {},
            Err(m) => {
                return Err(m);
            },
        }
        i = i + 1;
    }
    proof {
        assert(views(col_names@).skip(n as int).len() == 0);
    }
    Ok(())
}

} // verus!
