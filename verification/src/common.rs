//! Messages and keyword matching shared by the analysis commands.

use vstd::prelude::*;
use crate::text::{all_ascii, ascii_lowercase, lowercase, push_str, to_lowercase, views};

verus! {

/// A floating-point option value, carried by its IEEE-754 bit pattern: the
/// library hands it on to the estimators unchanged and never computes with
/// it.
#[derive(Clone, Copy, Debug, PartialEq, Eq, Structural)]
pub struct Real {
    pub bits: u64,
}

/// Which wording a command uses when no session is active.
#[derive(Clone, Copy, PartialEq, Eq, Structural)]
pub enum SessionHint {
    /// "... to enable dataset storage."
    Long,
    /// "... <file>."
    Short,
}

/// The error for a command that needs a session when none is active.
pub open spec fn no_session_text(hint: SessionHint) -> Seq<char> {
    match hint {
        SessionHint::Long => "No session active. Use --session <file> to enable dataset storage."@,
        SessionHint::Short => "No session active. Use --session <file>."@,
    }
}

/// Renders the no-session error.
pub fn no_session_message(hint: SessionHint) -> (r: String)
    ensures
        r@ == no_session_text(hint),
{
    match hint {
        SessionHint::Long => "No session active. Use --session <file> to enable dataset storage.".to_owned(),
        SessionHint::Short => "No session active. Use --session <file>.".to_owned(),
    }
}

/// The error for a dataset name that the session does not hold.
pub fn dataset_not_found_message(name: &str) -> (r: String)
    ensures
        r@ == "Dataset '"@ + name@ + "' not found"@,
{
    let mut s = String::new();
    push_str(&mut s, "Dataset '");
    push_str(&mut s, name);
    push_str(&mut s, "' not found");
    s
}

/// The error for an analysis that failed: `<label> failed: <reason>`.
pub fn failure_message(label: &str, reason: &str) -> (r: String)
    ensures
        r@ == label@ + " failed: "@ + reason@,
{
    let mut s = label.to_owned();
    push_str(&mut s, " failed: ");
    push_str(&mut s, reason);
    s
}

/// Whether the lower-cased option equals `word`.
pub fn option_is(lowered: &String, word: &str) -> (r: bool)
    ensures
        r == (lowered@ == word@),
{
    *lowered == word.to_owned()
}

/// Lower-cases an option value before it is matched against keywords.
pub fn lowered(option: &str) -> (r: String)
    ensures
        r@ == lowercase(option@),
        all_ascii(option@) ==> r@ == ascii_lowercase(option@),
{
    to_lowercase(option)
}

/// A copy of a list of names.
pub fn clone_strings(v: &Vec<String>) -> (r: Vec<String>)
    ensures
        r@ == v@,
{
    let r = v.clone();
    proof {
        assert(r@ =~= v@);
    }
    r
}

/// A copy of an optional list of names.
pub fn clone_opt_strings(v: &Option<Vec<String>>) -> (r: Option<Vec<String>>)
    ensures
        same_opt_names(r, *v),
{
    match v {
        Some(x) => Some(clone_strings(x)),
        None => None,
    }
}

} // verus!

verus! {

/// Two optional lists name the same strings.
pub open spec fn same_opt_names(a: Option<Vec<String>>, b: Option<Vec<String>>) -> bool {
    match (a, b) {
        (Some(x), Some(y)) => x@ == y@,
        (None, None) => true,
        _ => false,
    }
}

/// The names of the datasets in the session, if one is active.
pub open spec fn held_view(held: Option<Vec<String>>) -> Option<Seq<Seq<char>>> {
    match held {
        Some(v) => Some(views(v@)),
        None => None,
    }
}

/// Whether the session holds a dataset of that name.
pub open spec fn holds(held: Option<Seq<Seq<char>>>, name: Seq<char>) -> bool {
    match held {
        Some(h) => h.contains(name),
        None => false,
    }
}

/// The error for a dataset that is not held.
pub open spec fn not_found_text(name: Seq<char>) -> Seq<char> {
    "Dataset '"@ + name + "' not found"@
}

/// Whether the list holds the name.
pub fn names_contain(v: &Vec<String>, name: &String) -> (r: bool)
    ensures
        r == views(v@).contains(name@),
{
    let mut i: usize = 0;
    while i < v.len()
        invariant
            i <= v@.len(),
            forall|j: int| 0 <= j < i ==> v@[j]@ != name@,
        decreases v@.len() - i,
    {
        let same = v[i] == *name;
        if same {
            proof {
                assert(views(v@)[i as int] == name@);
            }
            return true;
        }
        i = i + 1;
    }
    proof {
        if views(v@).contains(name@) {
            let k = choose|k: int| 0 <= k < views(v@).len() && views(v@)[k] == name@;
            assert(v@[k]@ == name@);
        }
    }
    false
}

/// Whether the session holds a dataset of that name.
pub fn holds_dataset(held: &Option<Vec<String>>, name: &String) -> (r: bool)
    ensures
        r == holds(held_view(*held), name@),
{
    match held {
        None => false,
        Some(v) => names_contain(v, name),
    }
}

/// Whether a command may go on with a dataset: the session is active and
/// holds it. The error says which of the two failed.
pub fn require_dataset(held: &Option<Vec<String>>, name: &String, hint: SessionHint) -> (r: Result<
    (),
    String,
>)
    ensures
        match r {
            Ok(_) => holds(held_view(*held), name@),
            Err(msg) => !holds(held_view(*held), name@) && msg@ == (if held is None {
                no_session_text(hint)
            } else {
                not_found_text(name@)
            }),
        },
{
    if held.is_none() {
        return Err(no_session_message(hint));
    }
    if !holds_dataset(held, name) {
        return Err(dataset_not_found_message(name.as_str()));
    }
    Ok(())
}

} // verus!
