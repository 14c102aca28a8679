use p2a::shell::{char_is_shell_safe, shell_join, shell_quote};

/// Reads one shell word back: quotes and backslashes as a POSIX shell does.
fn read_word(q: &str) -> String {
    let mut out = String::new();
    let mut quoted = false;
    let mut it = q.chars().peekable();
    while let Some(c) = it.next() {
        if quoted {
            if c == '\'' {
                quoted = false;
            } else {
                out.push(c);
            }
        } else if c == '\'' {
            quoted = true;
        } else if c == '\\' && it.peek().is_some() {
            out.push(it.next().unwrap());
        } else {
            out.push(c);
        }
    }
    out
}

#[test]
fn safe_words_are_left_alone() {
    assert_eq!(shell_quote("income"), "income");
    assert_eq!(shell_quote("data/file-1.csv"), "data/file-1.csv");
    assert!(char_is_shell_safe('a'));
    assert!(!char_is_shell_safe(' '));
}

#[test]
fn unsafe_words_are_single_quoted() {
    assert_eq!(shell_quote("two words"), "'two words'");
    assert_eq!(shell_quote(""), "''");
    assert_eq!(shell_quote("$HOME"), "'$HOME'");
}

#[test]
fn single_quotes_are_escaped() {
    assert_eq!(shell_quote("it's"), "'it'\\''s'");
}

#[test]
fn quoted_words_read_back() {
    for w in ["plain", "with space", "it's", "", "a'b'c", "back\\slash", "tab\there", "ünï"] {
        assert_eq!(read_word(&shell_quote(w)), w);
    }
}

#[test]
fn join_quotes_each_word() {
    let words: Vec<String> = vec!["p2a".into(), "regression".into(), "ols".into(), "my data".into()];
    assert_eq!(shell_join(&words), "p2a regression ols 'my data'");
    assert_eq!(shell_join(&[]), "");
}

/// Splits a line into words as a POSIX shell does (quotes, backslashes,
/// blanks), for the characters the quoting produces.
fn shell_words(line: &str) -> Vec<String> {
    let mut words = Vec::new();
    let mut cur = String::new();
    let mut started = false;
    let mut quoted = false;
    let mut it = line.chars().peekable();
    while let Some(c) = it.next() {
        if quoted {
            if c == '\'' {
                quoted = false;
            } else {
                cur.push(c);
            }
        } else if c == ' ' || c == '\t' || c == '\n' {
            if started {
                words.push(std::mem::take(&mut cur));
                started = false;
            }
        } else if c == '\'' {
            quoted = true;
            started = true;
        } else if c == '\\' && it.peek().is_some() {
            cur.push(it.next().unwrap());
            started = true;
        } else {
            cur.push(c);
            started = true;
        }
    }
    if started {
        words.push(cur);
    }
    words
}

#[test]
fn joined_line_reads_back_as_words() {
    let words: Vec<String> = vec!["data".into(), "".into(), "it's here".into(), "a\tb".into(), "x=1".into()];
    assert_eq!(shell_words(&shell_join(&words)), words);
    assert!(shell_words(&shell_join(&[])).is_empty());
}
