use vstd::prelude::*;

verus! {

/// `String::push`: the string afterwards is the old one with `c` appended.
#[verifier::external_body]
pub(crate) fn string_push(s: &mut String, c: char)
    ensures
        final(s)@ == old(s)@.push(c),
{
    s.push(c);
}

/// The characters with the Unicode `White_Space` property: the ASCII controls tab through
/// carriage return, space, next line, no-break space, ogham space mark, the spaces from en quad
/// through hair space, the line and paragraph separators, narrow no-break space, medium
/// mathematical space and ideographic space.
pub open spec fn char_is_whitespace(c: char) -> bool {
    ||| '\u{09}' <= c <= '\u{0D}'
    ||| c == ' '
    ||| c == '\u{85}'
    ||| c == '\u{A0}'
    ||| c == '\u{1680}'
    ||| '\u{2000}' <= c <= '\u{200A}'
    ||| c == '\u{2028}'
    ||| c == '\u{2029}'
    ||| c == '\u{202F}'
    ||| c == '\u{205F}'
    ||| c == '\u{3000}'
}

/// Whether `c` is whitespace, as `char::is_whitespace` decides it (Unicode `White_Space`).
pub fn is_whitespace(c: char) -> (r: bool)
    ensures
        r == char_is_whitespace(c),
{
    ('\u{09}' <= c && c <= '\u{0D}') || c == ' ' || c == '\u{85}' || c == '\u{A0}' || c == '\u{1680}' || ('\u{2000}' <= c
        && c <= '\u{200A}') || c == '\u{2028}' || c == '\u{2029}' || c == '\u{202F}' || c == '\u{205F}' || c == '\u{3000}'
}

/// The characters of a string slice.
pub fn chars_of(s: &str) -> (out: Vec<char>)
    ensures
        out@ == s@,
{
    let mut out: Vec<char> = Vec::new();
    for c in it: s.chars()
        invariant
            out@ == it.seq().take(it.index()),
            it.seq() == s@,
    {
        out.push(c);
    }
    out
}

/// The characters of each string.
pub open spec fn string_views(items: Seq<String>) -> Seq<Seq<char>> {
    items.map_values(|s: String| s@)
}

/// The string made of the given characters.
pub fn string_from_chars(chars: &Vec<char>) -> (s: String)
    ensures
        s@ == chars@,
{
    let mut s = String::new();
    let mut k: usize = 0;
    while k < chars.len()
        invariant
            k <= chars.len(),
            s@ == chars@.take(k as int),
        decreases chars.len() - k,
    {
        string_push(&mut s, chars[k]);
        assert(chars@.take(k + 1) =~= chars@.take(k as int).push(chars@[k as int]));
        k = k + 1;
    }
    assert(chars@.take(chars@.len() as int) =~= chars@);
    s
}

pub open spec fn is_ascii_upper(c: char) -> bool {
    'A' <= c <= 'Z'
}

pub open spec fn is_ascii_alnum(c: char) -> bool {
    ('0' <= c <= '9') || ('a' <= c <= 'z') || ('A' <= c <= 'Z')
}

/// ASCII lowercase of a character; other characters are unchanged.
pub open spec fn ascii_lower(c: char) -> char {
    if is_ascii_upper(c) {
        ((c as u32) + 32) as char
    } else {
        c
    }
}

pub open spec fn ascii_lower_seq(s: Seq<char>) -> Seq<char> {
    s.map_values(|c: char| ascii_lower(c))
}

pub fn to_ascii_lower(c: char) -> (r: char)
    ensures
        r == ascii_lower(c),
{
    if 'A' <= c && c <= 'Z' {
        let code = c as u8;
        (code + 32) as char
    } else {
        c
    }
}

pub fn is_ascii_alphanumeric(c: char) -> (r: bool)
    ensures
        r == is_ascii_alnum(c),
{
    ('0' <= c && c <= '9') || ('a' <= c && c <= 'z') || ('A' <= c && c <= 'Z')
}

/// The ASCII lowercase of a character sequence.
pub fn lower_ascii_chars(chars: &Vec<char>) -> (out: Vec<char>)
    ensures
        out@ == ascii_lower_seq(chars@),
{
    let mut out: Vec<char> = Vec::new();
    let mut k: usize = 0;
    while k < chars.len()
        invariant
            k <= chars.len(),
            out@ == ascii_lower_seq(chars@.take(k as int)),
        decreases chars.len() - k,
    {
        out.push(to_ascii_lower(chars[k]));
        assert(ascii_lower_seq(chars@.take(k + 1)) =~= ascii_lower_seq(chars@.take(k as int)).push(
            ascii_lower(chars@[k as int]),
        ));
        k = k + 1;
    }
    assert(chars@.take(chars@.len() as int) =~= chars@);
    out
}

/// `needle` occurs in `hay` at position `i`.
pub open spec fn occurs_at(hay: Seq<char>, needle: Seq<char>, i: int) -> bool {
    0 <= i && i + needle.len() <= hay.len() && hay.subrange(i, i + needle.len()) == needle
}

pub open spec fn contains_sub(hay: Seq<char>, needle: Seq<char>) -> bool {
    exists|i: int| occurs_at(hay, needle, i)
}

/// Whether `needle` occurs at position `i` of `hay`.
pub fn occurs_at_exec(hay: &Vec<char>, needle: &Vec<char>, i: usize) -> (r: bool)
    ensures
        r == occurs_at(hay@, needle@, i as int),
{
    if i > hay.len() || needle.len() > hay.len() - i {
        return false;
    }
    let mut k: usize = 0;
    while k < needle.len()
        invariant
            k <= needle.len(),
            hay.len() == hay@.len(),
            needle.len() == needle@.len(),
            i <= hay@.len(),
            i + needle@.len() <= hay@.len(),
            forall|q: int| 0 <= q < k ==> hay@[i + q] == needle@[q],
        decreases needle.len() - k,
    {
        if hay[i + k] != needle[k] {
            assert(hay@.subrange(i as int, i + needle@.len())[k as int] != needle@[k as int]);
            return false;
        }
        k = k + 1;
    }
    assert(hay@.subrange(i as int, i + needle@.len()) =~= needle@);
    true
}

/// Whether `needle` occurs anywhere in `hay` (`str::contains`).
pub fn contains_chars(hay: &Vec<char>, needle: &Vec<char>) -> (r: bool)
    ensures
        r == contains_sub(hay@, needle@),
{
    if needle.len() > hay.len() {
        assert forall|q: int| !occurs_at(hay@, needle@, q) by {}
        return false;
    }
    let limit = hay.len() - needle.len();
    let mut i: usize = 0;
    while i < limit
        invariant
            i <= limit,
            limit + needle@.len() == hay@.len(),
            forall|q: int| 0 <= q < i ==> !occurs_at(hay@, needle@, q),
        decreases limit - i,
    {
        if occurs_at_exec(hay, needle, i) {
            return true;
        }
        i = i + 1;
    }
    if occurs_at_exec(hay, needle, limit) {
        return true;
    }
    assert forall|q: int| !occurs_at(hay@, needle@, q) by {
        if q > limit {
            assert(!occurs_at(hay@, needle@, q));
        }
    }
    false
}

/// Equality up to ASCII case (`str::eq_ignore_ascii_case`).
pub open spec fn eq_ignore_ascii_case_spec(a: Seq<char>, b: Seq<char>) -> bool {
    ascii_lower_seq(a) == ascii_lower_seq(b)
}

pub fn eq_ignore_ascii_case(a: &str, b: &str) -> (r: bool)
    ensures
        r == eq_ignore_ascii_case_spec(a@, b@),
{
    let ca = lower_ascii_chars(&chars_of(a));
    let cb = lower_ascii_chars(&chars_of(b));
    if ca.len() != cb.len() {
        assert(ascii_lower_seq(a@).len() != ascii_lower_seq(b@).len());
        return false;
    }
    let mut k: usize = 0;
    while k < ca.len()
        invariant
            k <= ca.len(),
            ca@.len() == cb@.len(),
            ca@ == ascii_lower_seq(a@),
            cb@ == ascii_lower_seq(b@),
            forall|q: int| 0 <= q < k ==> ca@[q] == cb@[q],
        decreases ca.len() - k,
    {
        if ca[k] != cb[k] {
            assert(ca@[k as int] != cb@[k as int]);
            assert(ascii_lower_seq(a@)[k as int] != ascii_lower_seq(b@)[k as int]);
            return false;
        }
        k = k + 1;
    }
    assert(ca@ =~= cb@);
    true
}

/// `s` with leading and trailing characters satisfying `pred` removed.
pub open spec fn trim_start_len(s: Seq<char>, pred: spec_fn(char) -> bool) -> int
    decreases s.len(),
{
    if s.len() > 0 && pred(s[0]) {
        1 + trim_start_len(s.drop_first(), pred)
    } else {
        0
    }
}

pub open spec fn trim_end_len(s: Seq<char>, pred: spec_fn(char) -> bool) -> int
    decreases s.len(),
{
    if s.len() > 0 && pred(s.last()) {
        1 + trim_end_len(s.drop_last(), pred)
    } else {
        0
    }
}

/// The slice of `s` between its first and last characters that do not satisfy `pred`
/// (empty when every character does).
pub open spec fn trim_by(s: Seq<char>, pred: spec_fn(char) -> bool) -> Seq<char> {
    s.subrange(trim_start_len(s, pred), s.len() - trim_end_len(s.skip(trim_start_len(s, pred)), pred))
}

pub open spec fn whitespace_pred() -> spec_fn(char) -> bool {
    |c: char| char_is_whitespace(c)
}

pub proof fn lemma_trim_start_len(s: Seq<char>, pred: spec_fn(char) -> bool, a: int)
    requires
        0 <= a <= s.len(),
        forall|i: int| 0 <= i < a ==> pred(#[trigger] s[i]),
        a == s.len() || !pred(s[a]),
    ensures
        trim_start_len(s, pred) == a,
    decreases a,
{
    if a > 0 {
        let t = s.drop_first();
        assert forall|i: int| 0 <= i < a - 1 implies pred(#[trigger] t[i]) by {
            assert(t[i] == s[i + 1]);
        }
        if a < s.len() {
            assert(t[a - 1] == s[a]);
        }
        lemma_trim_start_len(t, pred, a - 1);
    }
}

pub proof fn lemma_trim_end_len(s: Seq<char>, pred: spec_fn(char) -> bool, b: int)
    requires
        0 <= b <= s.len(),
        forall|i: int| b <= i < s.len() ==> pred(#[trigger] s[i]),
        b == 0 || !pred(s[b - 1]),
    ensures
        trim_end_len(s, pred) == s.len() - b,
    decreases s.len() - b,
{
    if b < s.len() {
        let t = s.drop_last();
        assert forall|i: int| b <= i < t.len() implies pred(#[trigger] t[i]) by {
            assert(t[i] == s[i]);
        }
        if b > 0 {
            assert(t[b - 1] == s[b - 1]);
        }
        lemma_trim_end_len(t, pred, b);
    }
}

/// What `trim_start_len` counts: the leading run of characters satisfying `pred`.
pub proof fn lemma_trim_start_facts(s: Seq<char>, pred: spec_fn(char) -> bool)
    ensures
        0 <= trim_start_len(s, pred) <= s.len(),
        forall|i: int| 0 <= i < trim_start_len(s, pred) ==> pred(#[trigger] s[i]),
        trim_start_len(s, pred) == s.len() || !pred(s[trim_start_len(s, pred)]),
    decreases s.len(),
{
    if s.len() > 0 && pred(s[0]) {
        let t = s.drop_first();
        lemma_trim_start_facts(t, pred);
        assert forall|i: int| 0 <= i < trim_start_len(s, pred) implies pred(#[trigger] s[i]) by {
            if i > 0 {
                assert(s[i] == t[i - 1]);
            }
        }
        if trim_start_len(s, pred) < s.len() {
            assert(s[trim_start_len(s, pred)] == t[trim_start_len(t, pred)]);
        }
    }
}

/// What `trim_end_len` counts: the trailing run of characters satisfying `pred`.
pub proof fn lemma_trim_end_facts(s: Seq<char>, pred: spec_fn(char) -> bool)
    ensures
        0 <= trim_end_len(s, pred) <= s.len(),
        forall|i: int| s.len() - trim_end_len(s, pred) <= i < s.len() ==> pred(#[trigger] s[i]),
        trim_end_len(s, pred) == s.len() || !pred(s[s.len() - trim_end_len(s, pred) - 1]),
    decreases s.len(),
{
    if s.len() > 0 && pred(s.last()) {
        let t = s.drop_last();
        lemma_trim_end_facts(t, pred);
        assert forall|i: int| s.len() - trim_end_len(s, pred) <= i < s.len() implies pred(#[trigger] s[i]) by {
            if i < s.len() - 1 {
                assert(s[i] == t[i]);
            }
        }
        if trim_end_len(s, pred) < s.len() {
            assert(s[s.len() - trim_end_len(s, pred) - 1] == t[t.len() - trim_end_len(t, pred) - 1]);
        }
    }
}

/// `trim_by` keeps a contiguous part of `s`, between offsets `start` and `end`, that neither
/// begins nor ends with a trimmed character.
pub proof fn lemma_trim_by_facts(s: Seq<char>, pred: spec_fn(char) -> bool)
    ensures
        ({
            let start = trim_start_len(s, pred);
            let end = s.len() - trim_end_len(s.skip(start), pred);
            &&& 0 <= start <= end <= s.len()
            &&& trim_by(s, pred) == s.subrange(start, end)
            &&& end > start ==> !pred(s[start]) && !pred(s[end - 1])
        }),
{
    lemma_trim_start_facts(s, pred);
    let start = trim_start_len(s, pred);
    let rest = s.skip(start);
    lemma_trim_end_facts(rest, pred);
    let end = s.len() - trim_end_len(rest, pred);
    if end > start {
        assert(rest[end - start - 1] == s[end - 1]);
        assert(rest[0] == s[start]);
        if trim_end_len(rest, pred) == rest.len() {
            assert(false);
        }
        if start == s.len() {
            assert(false);
        }
    }
}

/// The characters with leading and trailing whitespace removed (`str::trim`).
pub fn trim_whitespace_chars(chars: &Vec<char>) -> (out: Vec<char>)
    ensures
        out@ == trim_by(chars@, whitespace_pred()),
{
    let n = chars.len();
    let mut a: usize = 0;
    while a < n && is_whitespace(chars[a])
        invariant
            a <= n == chars@.len(),
            forall|i: int| 0 <= i < a ==> char_is_whitespace(#[trigger] chars@[i]),
        decreases n - a,
    {
        a = a + 1;
    }
    let mut b: usize = n;
    while b > a && is_whitespace(chars[b - 1])
        invariant
            a <= b <= n == chars@.len(),
            forall|i: int| b <= i < n ==> char_is_whitespace(#[trigger] chars@[i]),
        decreases b - a,
    {
        b = b - 1;
    }
    proof {
        let pred = whitespace_pred();
        lemma_trim_start_len(chars@, pred, a as int);
        let rest = chars@.skip(a as int);
        assert forall|i: int| b - a <= i < rest.len() implies pred(#[trigger] rest[i]) by {
            assert(rest[i] == chars@[a + i]);
        }
        if b > a {
            assert(rest[b - a - 1] == chars@[b - 1]);
        }
        lemma_trim_end_len(rest, pred, (b - a) as int);
    }
    let mut out: Vec<char> = Vec::new();
    let mut k: usize = a;
    while k < b
        invariant
            a <= k <= b <= n == chars@.len(),
            out@ == chars@.subrange(a as int, k as int),
        decreases b - k,
    {
        out.push(chars[k]);
        assert(chars@.subrange(a as int, k + 1) =~= chars@.subrange(a as int, k as int).push(chars@[k as int]));
        k = k + 1;
    }
    out
}

/// `s` with every occurrence of `from` replaced by `to`, scanning left to right without
/// overlaps (`str::replace`); an empty `from` matches before every character and at the end.
pub open spec fn replace_all(s: Seq<char>, from: Seq<char>, to: Seq<char>) -> Seq<char>
    decreases s.len(), if from.len() == 0 { 1int } else { 0int },
{
    if from.len() == 0 {
        if s.len() == 0 {
            to
        } else {
            to + seq![s[0]] + replace_all(s.drop_first(), from, to)
        }
    } else if s.len() < from.len() {
        s
    } else if s.subrange(0, from.len() as int) == from {
        to + replace_all(s.skip(from.len() as int), from, to)
    } else {
        seq![s[0]] + replace_all(s.drop_first(), from, to)
    }
}

pub fn push_all(out: &mut Vec<char>, more: &Vec<char>)
    ensures
        final(out)@ == old(out)@ + more@,
{
    let mut k: usize = 0;
    while k < more.len()
        invariant
            k <= more.len(),
            out@ == old(out)@ + more@.take(k as int),
        decreases more.len() - k,
    {
        out.push(more[k]);
        assert(more@.take(k + 1) =~= more@.take(k as int).push(more@[k as int]));
        k = k + 1;
    }
    assert(more@.take(more@.len() as int) =~= more@);
}

/// Replaces every occurrence of `from` in `s` by `to` (see `replace_all`).
pub fn replace_all_chars(s: &Vec<char>, from: &Vec<char>, to: &Vec<char>) -> (out: Vec<char>)
    ensures
        out@ == replace_all(s@, from@, to@),
{
    let mut out: Vec<char> = Vec::new();
    let n = s.len();
    let m = from.len();
    proof {
        assert(s@.skip(0) =~= s@);
        assert(out@ + replace_all(s@, from@, to@) =~= replace_all(s@, from@, to@));
    }
    if m == 0 {
        let mut i: usize = 0;
        while i < n
            invariant
                i <= n == s@.len(),
                from@.len() == 0,
                out@ + replace_all(s@.skip(i as int), from@, to@) == replace_all(s@, from@, to@),
            decreases n - i,
        {
            proof {
                let rest = s@.skip(i as int);
                assert(rest.drop_first() =~= s@.skip(i + 1));
                assert(rest[0] == s@[i as int]);
                assert(replace_all(rest, from@, to@) == to@ + seq![s@[i as int]] + replace_all(
                    s@.skip(i + 1),
                    from@,
                    to@,
                ));
            }
            let ghost before = out@;
            push_all(&mut out, to);
            out.push(s[i]);
            assert(out@ + replace_all(s@.skip(i + 1), from@, to@) =~= before + (to@ + seq![s@[i as int]]
                + replace_all(s@.skip(i + 1), from@, to@)));
            i = i + 1;
        }
        proof {
            assert(s@.skip(n as int) =~= Seq::<char>::empty());
        }
        let ghost before = out@;
        push_all(&mut out, to);
        assert(out@ =~= before + replace_all(s@.skip(n as int), from@, to@));
        return out;
    }
    let mut i: usize = 0;
    while i < n
        invariant
            i <= n == s@.len(),
            m == from@.len() > 0,
            out@ + replace_all(s@.skip(i as int), from@, to@) == replace_all(s@, from@, to@),
        decreases n - i,
    {
        let rest = Ghost(s@.skip(i as int));
        if occurs_at_exec(s, from, i) {
            proof {
                assert(rest@.subrange(0, m as int) =~= s@.subrange(i as int, i + m));
                assert(rest@.skip(m as int) =~= s@.skip(i + m));
            }
            let ghost before = out@;
            push_all(&mut out, to);
            assert(out@ + replace_all(s@.skip(i + m), from@, to@) =~= before + (to@ + replace_all(
                s@.skip(i + m),
                from@,
                to@,
            )));
            i = i + m;
        } else {
            proof {
                if rest@.len() >= m {
                    assert(rest@.subrange(0, m as int) =~= s@.subrange(i as int, i + m));
                }
                assert(rest@.drop_first() =~= s@.skip(i + 1));
                assert(rest@[0] == s@[i as int]);
            }
            if n - i < m {
                proof {
                    assert(replace_all(rest@, from@, to@) == rest@);
                }
                let ghost before = out@;
                let mut k: usize = i;
                while k < n
                    invariant
                        i <= k <= n == s@.len(),
                        out@ == before + s@.subrange(i as int, k as int),
                    decreases n - k,
                {
                    out.push(s[k]);
                    assert(s@.subrange(i as int, k + 1) =~= s@.subrange(i as int, k as int).push(s@[k as int]));
                    k = k + 1;
                }
                assert(s@.subrange(i as int, n as int) =~= rest@);
                return out;
            }
            let ghost before = out@;
            out.push(s[i]);
            assert(out@ + replace_all(s@.skip(i + 1), from@, to@) =~= before + (seq![s@[i as int]] + replace_all(
                s@.skip(i + 1),
                from@,
                to@,
            )));
            i = i + 1;
        }
    }
    proof {
        assert(s@.skip(n as int).len() == 0);
        assert(replace_all(s@.skip(n as int), from@, to@) =~= Seq::<char>::empty());
        assert(out@ =~= out@ + Seq::<char>::empty());
    }
    out
}

} // verus!
