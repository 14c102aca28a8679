use vstd::prelude::*;
use vstd::string::StringSliceAdditionalSpecFns;

verus! {

/// Appends one character to a string (`String::push`).
#[verifier::external_body]
pub(crate) fn push_char(s: &mut String, c: char)
    ensures
        final(s)@ == old(s)@.push(c),
{
    s.push(c);
}

/// The characters of a string slice, in order.
pub fn chars_of(s: &str) -> (r: Vec<char>)
    ensures
        r@ == s@,
{
    let mut r: Vec<char> = Vec::new();
    for c in it: s.chars()
        invariant
            r@ == it.seq().take(it.index()),
    {
        r.push(c);
    }
    r
}

} // verus!

verus! {

/// Whether every character is in the ASCII range.
pub open spec fn all_ascii(s: Seq<char>) -> bool {
    forall|i: int| 0 <= i < s.len() ==> (s[i] as u32) < 128
}

/// ASCII lower-casing of one character: `A`..`Z` become `a`..`z`.
pub open spec fn ascii_lower_char(c: char) -> char {
    if 'A' <= c && c <= 'Z' { ((c as u32) + 32) as char } else { c }
}

/// ASCII lower-casing of a string.
pub open spec fn ascii_lowercase(s: Seq<char>) -> Seq<char> {
    s.map_values(|c: char| ascii_lower_char(c))
}

/// Unicode lower-casing of a string, as `str::to_lowercase` computes it.
pub uninterp spec fn lowercase(s: Seq<char>) -> Seq<char>;

/// `str::to_lowercase`. Its result is named by `lowercase`; on an all-ASCII
/// string it maps `A`..`Z` to `a`..`z` and keeps every other character.
#[verifier::external_body]
pub(crate) fn to_lowercase(s: &str) -> (r: String)
    ensures
        r@ == lowercase(s@),
        all_ascii(s@) ==> r@ == ascii_lowercase(s@),
{
    s.to_lowercase()
}

} // verus!

verus! {

/// Builds a string from a character sequence.
pub fn string_from_chars(v: &[char]) -> (r: String)
    ensures
        r@ == v@,
{
    let mut r = String::new();
    let mut i: usize = 0;
    while i < v.len()
        invariant
            i <= v@.len(),
            r@ == v@.take(i as int),
        decreases v@.len() - i,
    {
        push_char(&mut r, v[i]);
        proof {
            assert(v@.take(i as int).push(v@[i as int]) =~= v@.take(i + 1));
        }
        i = i + 1;
    }
    proof {
        assert(v@.take(v@.len() as int) =~= v@);
    }
    r
}

/// The decimal digit character for `d` (taken modulo 10).
pub open spec fn digit_char(d: nat) -> char {
    ((d % 10) + 48) as char
}

/// Base-ten rendering of a natural number, without leading zeros.
pub open spec fn decimal(n: nat) -> Seq<char>
    decreases n,
{
    if n < 10 {
        seq![digit_char(n)]
    } else {
        decimal(n / 10).push(digit_char(n % 10))
    }
}

/// Base-ten rendering of an integer, with a leading `-` when negative.
pub open spec fn signed_decimal(n: int) -> Seq<char> {
    if n < 0 {
        seq!['-'] + decimal((-n) as nat)
    } else {
        decimal(n as nat)
    }
}

fn digit(d: u64) -> (c: char)
    requires
        d < 10,
    ensures
        c == digit_char(d as nat),
{
    let r = match d {
        0 => '0',
        1 => '1',
        2 => '2',
        3 => '3',
        4 => '4',
        5 => '5',
        6 => '6',
        7 => '7',
        8 => '8',
        _ => '9',
    };
    r
}

/// Appends the decimal rendering of `n`.
pub fn push_decimal(s: &mut String, n: u64)
    ensures
        final(s)@ == old(s)@ + decimal(n as nat),
    decreases n,
{
    if n >= 10 {
        push_decimal(s, n / 10);
    }
    push_char(s, digit(n % 10));
    proof {
        if n >= 10 {
            assert(decimal(n as nat) == decimal((n / 10) as nat).push(digit_char((n % 10) as nat)));
        }
    }
}

/// Appends the decimal rendering of a signed integer.
pub fn push_signed_decimal(s: &mut String, n: i64)
    ensures
        final(s)@ == old(s)@ + signed_decimal(n as int),
{
    if n < 0 {
        push_char(s, '-');
        let m: u64 = if n == i64::MIN { 9223372036854775808u64 } else { (-n) as u64 };
        push_decimal(s, m);
    } else {
        push_decimal(s, n as u64);
    }
}

/// Appends a string slice.
pub fn push_str(s: &mut String, t: &str)
    ensures
        final(s)@ == old(s)@ + t@,
{
    s.append(t);
}

/// Parts joined with a separator between neighbours (`[..].join(sep)`).
pub open spec fn join(parts: Seq<Seq<char>>, sep: Seq<char>) -> Seq<char>
    decreases parts.len(),
{
    if parts.len() == 0 {
        Seq::empty()
    } else if parts.len() == 1 {
        parts[0]
    } else {
        join(parts.drop_last(), sep) + sep + parts.last()
    }
}

/// The views of a vector of strings.
pub open spec fn views(v: Seq<String>) -> Seq<Seq<char>> {
    v.map_values(|s: String| s@)
}

/// Appends `parts[0] sep parts[1] sep ...`.
pub fn push_joined(s: &mut String, parts: &[String], sep: &str)
    ensures
        final(s)@ == old(s)@ + join(views(parts@), sep@),
{
    push_joined_first(s, parts, parts.len(), sep);
    proof {
        assert(parts@.take(parts@.len() as int) =~= parts@);
    }
}

/// Appends the first `n` parts joined with `sep`.
pub fn push_joined_first(s: &mut String, parts: &[String], n: usize, sep: &str)
    requires
        n <= parts@.len(),
    ensures
        final(s)@ == old(s)@ + join(views(parts@.take(n as int)), sep@),
{
    let ghost start = s@;
    let mut i: usize = 0;
    while i < n
        invariant
            i <= n <= parts@.len(),
            s@ == start + join(views(parts@.take(i as int)), sep@),
        decreases n - i,
    {
        let ghost before = s@;
        if i > 0 {
            push_str(s, sep);
        }
        push_str(s, parts[i].as_str());
        proof {
            let p = views(parts@.take(i + 1));
            assert(p.drop_last() =~= views(parts@.take(i as int)));
            assert(p.last() == parts@[i as int]@);
            if i == 0 {
                assert(p =~= seq![parts@[0]@]);
            }
            assert(s@ =~= start + join(p, sep@));
        }
        i = i + 1;
    }
}

/// Rust's `char::is_whitespace`: the Unicode `White_Space` characters.
pub open spec fn is_space(c: char) -> bool {
    let u = c as u32;
    (0x09 <= u && u <= 0x0d) || u == 0x20 || u == 0x85 || u == 0xa0 || u == 0x1680
        || (0x2000 <= u && u <= 0x200a) || u == 0x2028 || u == 0x2029 || u == 0x202f
        || u == 0x205f || u == 0x3000
}

/// Whether `c` is a white-space character.
pub fn char_is_space(c: char) -> (r: bool)
    ensures
        r == is_space(c),
{
    let u = c as u32;
    (0x09 <= u && u <= 0x0d) || u == 0x20 || u == 0x85 || u == 0xa0 || u == 0x1680
        || (0x2000 <= u && u <= 0x200a) || u == 0x2028 || u == 0x2029 || u == 0x202f
        || u == 0x205f || u == 0x3000
}

/// Number of leading white-space characters.
pub open spec fn lead_spaces(s: Seq<char>) -> nat
    decreases s.len(),
{
    if s.len() > 0 && is_space(s[0]) {
        1 + lead_spaces(s.drop_first())
    } else {
        0
    }
}

/// Number of trailing white-space characters.
pub open spec fn trail_spaces(s: Seq<char>) -> nat
    decreases s.len(),
{
    if s.len() > 0 && is_space(s.last()) {
        1 + trail_spaces(s.drop_last())
    } else {
        0
    }
}

/// `str::trim`: the string without its leading and trailing white space.
pub open spec fn trim(s: Seq<char>) -> Seq<char> {
    let t = s.skip(lead_spaces(s) as int);
    t.take(t.len() - trail_spaces(t))
}

} // verus!

verus! {

proof fn lemma_lead_spaces(s: Seq<char>, i: int)
    requires
        0 <= i <= s.len(),
        forall|k: int| 0 <= k < i ==> is_space(s[k]),
        i == s.len() || !is_space(s[i]),
    ensures
        lead_spaces(s) == i,
    decreases i,
{
    if i > 0 {
        let t = s.drop_first();
        assert forall|k: int| 0 <= k < i - 1 implies is_space(t[k]) by {
            assert(t[k] == s[k + 1]);
        }
        if i < s.len() {
            assert(t[i - 1] == s[i]);
        }
        lemma_lead_spaces(t, i - 1);
    }
}

proof fn lemma_trail_spaces(t: Seq<char>, n: int)
    requires
        0 <= n <= t.len(),
        forall|k: int| n <= k < t.len() ==> is_space(t[k]),
        n == 0 || !is_space(t[n - 1]),
    ensures
        trail_spaces(t) == t.len() - n,
    decreases t.len() - n,
{
    if n < t.len() {
        let u = t.drop_last();
        assert forall|k: int| n <= k < u.len() implies is_space(u[k]) by {
            assert(u[k] == t[k]);
        }
        if n > 0 {
            assert(u[n - 1] == t[n - 1]);
        }
        lemma_trail_spaces(u, n);
    } else {
        if n > 0 {
            assert(t.last() == t[n - 1]);
        }
    }
}

/// Start and end (exclusive) of the trimmed part of `v`.
pub fn trim_bounds(v: &[char]) -> (r: (usize, usize))
    ensures
        r.0 <= r.1 <= v@.len(),
        v@.subrange(r.0 as int, r.1 as int) == trim(v@),
{
    let n = v.len();
    let mut i: usize = 0;
    while i < n && char_is_space(v[i])
        invariant
            i <= n,
            n == v@.len(),
            forall|k: int| 0 <= k < i ==> is_space(v@[k]),
        decreases n - i,
    {
        i = i + 1;
    }
    proof {
        lemma_lead_spaces(v@, i as int);
    }
    let mut j: usize = n;
    while j > i && char_is_space(v[j - 1])
        invariant
            i <= j <= n,
            n == v@.len(),
            forall|k: int| j <= k < n ==> is_space(v@[k]),
        decreases j,
    {
        j = j - 1;
    }
    proof {
        let t = v@.skip(i as int);
        assert forall|k: int| (j - i) <= k < t.len() implies is_space(t[k]) by {
            assert(t[k] == v@[k + i]);
        }
        if j > i {
            assert(t[j - i - 1] == v@[j - 1]);
        }
        lemma_trail_spaces(t, j - i);
        assert(t.take(t.len() - trail_spaces(t)) =~= v@.subrange(i as int, j as int));
    }
    (i, j)
}

/// The characters of `v` without leading and trailing white space.
pub fn trim_vec(v: &[char]) -> (r: Vec<char>)
    ensures
        r@ == trim(v@),
{
    let (a, b) = trim_bounds(v);
    let mut r: Vec<char> = Vec::new();
    let mut k = a;
    while k < b
        invariant
            a <= k <= b <= v@.len(),
            r@ == v@.subrange(a as int, k as int),
        decreases b - k,
    {
        r.push(v[k]);
        proof {
            assert(v@.subrange(a as int, k + 1) =~= v@.subrange(a as int, k as int).push(v@[k as int]));
        }
        k = k + 1;
    }
    r
}

} // verus!

verus! {

/// Length in bytes of the UTF-8 encoding of a character sequence.
pub open spec fn utf8_len(s: Seq<char>) -> nat {
    vstd::utf8::encode_utf8(s).len()
}

/// The characters encoded by the first `n` bytes of the UTF-8 encoding of `s`.
pub open spec fn utf8_prefix(s: Seq<char>, n: int) -> Seq<char> {
    vstd::utf8::decode_utf8(vstd::utf8::encode_utf8(s).take(n))
}

/// Whether byte offset `n` of the UTF-8 encoding of `s` starts a character.
pub open spec fn utf8_boundary(s: Seq<char>, n: int) -> bool {
    vstd::utf8::is_char_boundary(vstd::utf8::encode_utf8(s), n)
}

proof fn lemma_encode_utf8_push(a: Seq<char>, c: char)
    ensures
        vstd::utf8::encode_utf8(a.push(c)) == vstd::utf8::encode_utf8(a) + vstd::utf8::encode_scalar(
            c as u32,
        ),
    decreases a.len(),
{
    if a.len() == 0 {
        assert(a.push(c).drop_first() =~= Seq::<char>::empty());
        assert(a.push(c)[0] == c);
        assert(vstd::utf8::encode_utf8(Seq::<char>::empty()) =~= Seq::<u8>::empty());
        assert(vstd::utf8::encode_utf8(a) =~= Seq::<u8>::empty());
        assert(vstd::utf8::encode_utf8(a.push(c)) =~= vstd::utf8::encode_scalar(c as u32));
    } else {
        lemma_encode_utf8_push(a.drop_first(), c);
        assert(a.push(c).drop_first() =~= a.drop_first().push(c));
        assert(a.push(c)[0] == a[0]);
        assert(vstd::utf8::encode_utf8(a.push(c)) =~= vstd::utf8::encode_utf8(a)
            + vstd::utf8::encode_scalar(c as u32));
    }
}

/// Number of bytes in the UTF-8 encoding of one character.
pub fn char_utf8_width(c: char) -> (w: usize)
    ensures
        w == vstd::utf8::encode_scalar(c as u32).len(),
        1 <= w <= 4,
{
    let u = c as u32;
    proof {
        vstd::utf8::char_is_scalar(c);
    }
    if u <= 0x7f {
        1
    } else if u <= 0x7ff {
        2
    } else if u <= 0xffff {
        3
    } else {
        4
    }
}

/// Whether the UTF-8 encoding of `s` is longer than `limit` bytes.
pub fn utf8_len_exceeds(s: &str, limit: usize) -> (r: bool)
    requires
        limit <= 1000,
    ensures
        r == (utf8_len(s@) > limit),
{
    let v = chars_of(s);
    let mut total: usize = 0;
    let mut i: usize = 0;
    while i < v.len()
        invariant
            i <= v@.len(),
            v@ == s@,
            limit <= 1000,
            total <= limit,
            total == utf8_len(v@.take(i as int)),
        decreases v@.len() - i,
    {
        let w = char_utf8_width(v[i]);
        proof {
            lemma_encode_utf8_push(v@.take(i as int), v@[i as int]);
            assert(v@.take(i + 1) =~= v@.take(i as int).push(v@[i as int]));
        }
        total = total + w;
        if total > limit {
            proof {
                lemma_utf8_len_prefix_le(v@, i + 1);
                assert(total == utf8_len(v@.take(i + 1)));
            }
            return true;
        }
        i = i + 1;
    }
    proof {
        assert(v@.take(v@.len() as int) =~= v@);
    }
    false
}

/// The characters of the bytes before a character boundary are a prefix of
/// the text.
pub proof fn lemma_utf8_prefix_is_prefix(s: Seq<char>, n: int)
    requires
        utf8_boundary(s, n),
    ensures
        utf8_prefix(s, n).len() <= s.len(),
        s.take(utf8_prefix(s, n).len() as int) == utf8_prefix(s, n),
{
    broadcast use vstd::utf8::encode_utf8_decode_utf8, vstd::utf8::encode_utf8_valid_utf8;
    let b = vstd::utf8::encode_utf8(s);
    assert(vstd::utf8::valid_utf8(b));
    vstd::utf8::decode_utf8_split(b, n);
    assert(b.take(n) =~= b.subrange(0, n));
    let p = utf8_prefix(s, n);
    let q = vstd::utf8::decode_utf8(b.subrange(n, b.len() as int));
    assert(s =~= p + q);
    assert(s.take(p.len() as int) =~= p);
}

proof fn lemma_utf8_len_prefix_le(s: Seq<char>, k: int)
    requires
        0 <= k <= s.len(),
    ensures
        utf8_len(s.take(k)) <= utf8_len(s),
    decreases s.len() - k,
{
    if k < s.len() {
        lemma_utf8_len_prefix_le(s, k + 1);
        lemma_encode_utf8_push(s.take(k), s[k]);
        assert(s.take(k + 1) =~= s.take(k).push(s[k]));
    } else {
        assert(s.take(k) =~= s);
    }
}

/// The characters of the first `n` bytes of `s`, which must end on a
/// character boundary.
pub fn utf8_truncate(s: &str, n: usize) -> (r: String)
    requires
        utf8_boundary(s@, n as int),
    ensures
        r@ == utf8_prefix(s@, n as int),
{
    broadcast use vstd::utf8::encode_utf8_decode_utf8;
    let (head, _tail) = s.split_at(n);
    proof {
        assert(head.spec_bytes() == vstd::utf8::encode_utf8(head@));
        assert(vstd::utf8::decode_utf8(vstd::utf8::encode_utf8(head@)) == head@);
    }
    head.to_owned()
}

} // verus!

verus! {

/// The pieces of `s` between occurrences of `sep`; there is always at
/// least one, the last being the text after the final separator.
pub open spec fn split_pieces(s: Seq<char>, sep: char) -> Seq<Seq<char>>
    decreases s.len(),
{
    if s.len() == 0 {
        seq![Seq::empty()]
    } else {
        let p = split_pieces(s.drop_last(), sep);
        if s.last() == sep {
            p.push(Seq::empty())
        } else {
            p.update(p.len() - 1, p.last().push(s.last()))
        }
    }
}

pub proof fn lemma_split_pieces_nonempty(s: Seq<char>, sep: char)
    ensures
        split_pieces(s, sep).len() >= 1,
    decreases s.len(),
{
    if s.len() > 0 {
        lemma_split_pieces_nonempty(s.drop_last(), sep);
    }
}

/// Whether a text holds no occurrence of `sep`.
pub open spec fn free_of(s: Seq<char>, sep: char) -> bool {
    forall|i: int| 0 <= i < s.len() ==> s[i] != sep
}

proof fn lemma_split_extend(s: Seq<char>, y: Seq<char>, sep: char)
    requires
        free_of(y, sep),
    ensures
        split_pieces(s, sep).len() >= 1,
        split_pieces(s + y, sep) == split_pieces(s, sep).update(
            split_pieces(s, sep).len() - 1,
            split_pieces(s, sep).last() + y,
        ),
    decreases y.len(),
{
    lemma_split_pieces_nonempty(s, sep);
    let p = split_pieces(s, sep);
    if y.len() == 0 {
        assert(s + y =~= s);
        assert(p.update(p.len() - 1, p.last() + y) =~= p);
    } else {
        let z = y.drop_last();
        let c = y.last();
        assert(free_of(z, sep)) by {
            assert forall|i: int| 0 <= i < z.len() implies z[i] != sep by {
                assert(z[i] == y[i]);
            }
        }
        lemma_split_extend(s, z, sep);
        assert((s + y).drop_last() =~= s + z);
        assert((s + y).last() == c);
        assert(c != sep);
        let q = split_pieces(s + z, sep);
        assert(q.len() == p.len());
        assert(q.last() == p.last() + z);
        assert((p.last() + z).push(c) =~= p.last() + y);
        assert(q.update(q.len() - 1, q.last().push(c)) =~= p.update(p.len() - 1, p.last() + y));
    }
}

/// Pieces of texts joined by one separator: `x` and `y`, when neither holds
/// the separator, are split back into exactly `x` and `y`.
pub proof fn lemma_split_two(x: Seq<char>, y: Seq<char>, sep: char)
    requires
        free_of(x, sep),
        free_of(y, sep),
    ensures
        split_pieces(x + seq![sep] + y, sep) == seq![x, y],
{
    let e = Seq::<char>::empty();
    lemma_split_extend(e, x, sep);
    assert(e + x =~= x);
    assert(split_pieces(e, sep) == seq![e]);
    assert(split_pieces(x, sep) =~= seq![x]);
    let xs = x + seq![sep];
    assert(xs.drop_last() =~= x);
    assert(split_pieces(xs, sep) =~= seq![x, e]);
    lemma_split_extend(xs, y, sep);
    assert(seq![x, e].update(1, e + y) =~= seq![x, y]);
}

/// Three texts joined by a separator, none holding it, split back into
/// exactly those three.
pub proof fn lemma_split_three(x: Seq<char>, y: Seq<char>, z: Seq<char>, sep: char)
    requires
        free_of(x, sep),
        free_of(y, sep),
        free_of(z, sep),
    ensures
        split_pieces(x + seq![sep] + y + seq![sep] + z, sep) == seq![x, y, z],
{
    let e = Seq::<char>::empty();
    lemma_split_two(x, y, sep);
    let xy = x + seq![sep] + y;
    let xys = xy + seq![sep];
    assert(xys.drop_last() =~= xy);
    assert(split_pieces(xys, sep) =~= seq![x, y, e]);
    lemma_split_extend(xys, z, sep);
    assert(seq![x, y, e].update(2, e + z) =~= seq![x, y, z]);
}

/// Split a string at every occurrence of a character (`str::split`).
pub fn split_char(s: &str, sep: char) -> (r: Vec<String>)
    ensures
        views(r@) == split_pieces(s@, sep),
{
    let v = chars_of(s);
    let mut parts: Vec<String> = Vec::new();
    let mut current: Vec<char> = Vec::new();
    let n = v.len();
    let mut i: usize = 0;
    while i < n
        invariant
            i <= n,
            n == v@.len(),
            v@ == s@,
            split_pieces(v@.take(i as int), sep) == views(parts@).push(current@),
        decreases n - i,
    {
        let c = v[i];
        proof {
            let t = v@.take(i + 1);
            assert(t.drop_last() =~= v@.take(i as int));
            assert(t.last() == c);
        }
        if c == sep {
            let piece = string_from_chars(current.as_slice());
            let ghost before = parts@;
            parts.push(piece);
            current = Vec::new();
            proof {
                assert(views(parts@).push(current@) =~= views(before).push(piece@).push(Seq::empty()));
            }
        } else {
            let ghost before = current@;
            current.push(c);
            proof {
                let p = views(parts@).push(before);
                assert(p.update(p.len() - 1, p.last().push(c)) =~= views(parts@).push(current@));
            }
        }
        i = i + 1;
    }
    proof {
        assert(v@.take(n as int) =~= v@);
    }
    let last = string_from_chars(current.as_slice());
    let ghost before = parts@;
    parts.push(last);
    proof {
        assert(views(parts@) =~= views(before).push(last@));
    }
    parts
}

/// The pieces of `s` between separators, each trimmed of white space.
pub open spec fn trimmed_pieces(s: Seq<char>, sep: char) -> Seq<Seq<char>> {
    split_pieces(s, sep).map_values(|p: Seq<char>| trim(p))
}

/// Split at every separator and trim each piece
/// (`s.split(sep).map(str::trim)`).
pub fn split_trimmed(s: &str, sep: char) -> (r: Vec<String>)
    ensures
        views(r@) == trimmed_pieces(s@, sep),
{
    let parts = split_char(s, sep);
    let mut out: Vec<String> = Vec::new();
    let mut i: usize = 0;
    while i < parts.len()
        invariant
            i <= parts@.len(),
            views(parts@) == split_pieces(s@, sep),
            views(out@) == trimmed_pieces(s@, sep).take(i as int),
        decreases parts@.len() - i,
    {
        let cs = chars_of(parts[i].as_str());
        let t = trim_vec(cs.as_slice());
        let piece = string_from_chars(t.as_slice());
        let ghost before = out@;
        out.push(piece);
        proof {
            assert(views(parts@)[i as int] == parts@[i as int]@);
            assert(views(out@) =~= views(before).push(piece@));
            assert(trimmed_pieces(s@, sep).take(i + 1) =~= trimmed_pieces(s@, sep).take(i as int).push(
                trim(split_pieces(s@, sep)[i as int]),
            ));
        }
        i = i + 1;
    }
    proof {
        assert(trimmed_pieces(s@, sep).take(parts@.len() as int) =~= trimmed_pieces(s@, sep));
    }
    out
}

/// Whether every character is an ASCII digit.
pub open spec fn all_digits(s: Seq<char>) -> bool {
    forall|i: int| 0 <= i < s.len() ==> '0' <= #[trigger] s[i] <= '9'
}

/// The value of a string of ASCII digits.
pub open spec fn digits_value(s: Seq<char>) -> nat
    decreases s.len(),
{
    if s.len() == 0 {
        0
    } else {
        digits_value(s.drop_last()) * 10 + ((s.last() as nat) - 48) as nat
    }
}

/// `str::parse::<usize>`: an optional `+`, then one or more ASCII digits
/// whose value fits in a `usize`.
pub open spec fn usize_text(s: Seq<char>) -> Option<usize> {
    let d = if s.len() > 0 && s[0] == '+' {
        s.drop_first()
    } else {
        s
    };
    if d.len() > 0 && all_digits(d) && digits_value(d) <= usize::MAX {
        Some(digits_value(d) as usize)
    } else {
        None
    }
}

proof fn lemma_digits_value_grows(s: Seq<char>, k: int)
    requires
        0 <= k <= s.len(),
        all_digits(s),
    ensures
        digits_value(s.take(k)) <= digits_value(s),
    decreases s.len() - k,
{
    if k < s.len() {
        let t = s.take(k + 1);
        assert(t.drop_last() =~= s.take(k));
        assert('0' <= t.last() <= '9') by {
            assert(t.last() == s[k]);
        }
        let u = s.drop_last();
        if k + 1 <= u.len() {
            assert(u.take(k + 1) =~= t);
            assert(all_digits(u)) by {
                assert forall|i: int| 0 <= i < u.len() implies '0' <= #[trigger] u[i] <= '9' by {
                    assert(u[i] == s[i]);
                }
            }
            lemma_digits_value_grows(u, k + 1);
            assert('0' <= s.last() <= '9') by {
                assert(s.last() == s[s.len() - 1]);
            }
        } else {
            assert(t =~= s);
        }
        lemma_digits_value_grows(s, k + 1);
    } else {
        assert(s.take(k) =~= s);
    }
}

/// Parses an unsigned integer as `str::parse::<usize>` does.
pub fn parse_usize(s: &str) -> (r: Option<usize>)
    ensures
        r == usize_text(s@),
{
    let v = chars_of(s);
    let n = v.len();
    let start: usize = if n > 0 && v[0] == '+' { 1 } else { 0 };
    let ghost d = if s@.len() > 0 && s@[0] == '+' { s@.drop_first() } else { s@ };
    proof {
        assert(d =~= v@.skip(start as int));
        assert(usize_text(s@) == (if d.len() > 0 && all_digits(d) && digits_value(d) <= usize::MAX {
            Some(digits_value(d) as usize)
        } else {
            None
        }));
    }
    if start == n {
        return None;
    }
    let mut acc: usize = 0;
    let mut i: usize = start;
    while i < n
        invariant
            start <= i <= n,
            n == v@.len(),
            v@ == s@,
            d == v@.skip(start as int),
            d.len() > 0,
            usize_text(s@) == (if d.len() > 0 && all_digits(d) && digits_value(d) <= usize::MAX {
                Some(digits_value(d) as usize)
            } else {
                None
            }),
            all_digits(v@.subrange(start as int, i as int)),
            acc as nat == digits_value(v@.subrange(start as int, i as int)),
        decreases n - i,
    {
        let c = v[i];
        let ghost pre = v@.subrange(start as int, i as int);
        let ghost next = v@.subrange(start as int, i + 1);
        proof {
            assert(next.drop_last() =~= pre);
            assert(next.last() == c);
            assert(d.take(i + 1 - start) =~= next);
        }
        if !('0' <= c && c <= '9') {
            proof {
                assert(d[i - start] == c);
                assert(!('0' <= d[i - start] <= '9'));
                assert(!all_digits(d));
            }
            return None;
        }
        let digit: usize = (c as u32 - 48) as usize;
        proof {
            assert(all_digits(next)) by {
                assert forall|k: int| 0 <= k < next.len() implies '0' <= #[trigger] next[k] <= '9' by {
                    if k < pre.len() {
                        assert(next[k] == pre[k]);
                    }
                }
            }
        }
        let grown = match acc.checked_mul(10) {
            Some(m) => m.checked_add(digit),
            None => None,
        };
        match grown {
            Some(g) => {
                acc = g;
            },
            None => {
                proof {
                    assert(digit as nat == (c as nat) - 48);
                    assert(digits_value(next) == digits_value(pre) * 10 + digit);
                    assert(digits_value(next) > usize::MAX);
                    if all_digits(d) {
                        lemma_digits_value_grows(d, i + 1 - start);
                    }
                }
                return None;
            },
        }
        i = i + 1;
    }
    proof {
        assert(v@.subrange(start as int, n as int) =~= d);
    }
    Some(acc)
}

} // verus!
