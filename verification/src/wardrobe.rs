use vstd::prelude::*;
use crate::text::{
    ascii_lower, chars_of, is_ascii_alnum, is_ascii_alphanumeric, lemma_trim_by_facts, lemma_trim_end_len, lemma_trim_start_len,
    push_all,
    string_from_chars, to_ascii_lower, trim_by, trim_end_len, trim_start_len, trim_whitespace_chars, whitespace_pred,
};

verus! {

/// `s` without leading and trailing whitespace (`str::trim`).
pub fn trim_str(s: &str) -> (out: String)
    ensures
        out@ == trim_by(s@, whitespace_pred()),
{
    let chars = chars_of(s);
    let trimmed = trim_whitespace_chars(&chars);
    string_from_chars(&trimmed)
}

/// A requested wardrobe set id, trimmed; blank or absent requests name no set.
pub open spec fn normalized_set_id_spec(wardrobe_set: Option<Seq<char>>) -> Option<Seq<char>> {
    match wardrobe_set {
        Some(s) => if trim_by(s, whitespace_pred()).len() == 0 {
            None
        } else {
            Some(trim_by(s, whitespace_pred()))
        },
        None => None,
    }
}

pub open spec fn opt_str_view(o: Option<&str>) -> Option<Seq<char>> {
    match o {
        Some(s) => Some(s@),
        None => None,
    }
}

pub fn normalize_wardrobe_set_id(wardrobe_set: Option<&str>) -> (r: Option<String>)
    ensures
        match r {
            Some(v) => normalized_set_id_spec(opt_str_view(wardrobe_set)) == Some(v@),
            None => normalized_set_id_spec(opt_str_view(wardrobe_set)) is None,
        },
{
    match wardrobe_set {
        Some(s) => {
            let t = trim_str(s);
            if t.as_str().is_empty() {
                None
            } else {
                Some(t)
            }
        },
        None => None,
    }
}

/// The error for a blank wardrobe set id.
pub open spec fn set_id_required_message() -> Seq<char> {
    "wardrobe set id required"@
}

/// The trimmed set id, or an error when it is blank.
pub fn require_wardrobe_set_id(wardrobe_set: &str) -> (r: Result<String, String>)
    ensures
        match r {
            Ok(v) => normalized_set_id_spec(Some(wardrobe_set@)) == Some(v@),
            Err(e) => normalized_set_id_spec(Some(wardrobe_set@)) is None && e@ == set_id_required_message(),
        },
{
    match normalize_wardrobe_set_id(Some(wardrobe_set)) {
        Some(v) => Ok(v),
        None => Err(string_from_chars(&chars_of("wardrobe set id required"))),
    }
}

/// One entry of a wardrobe's `sets`: its `id` when that is a string, and its `default` flag
/// when that is a boolean (false otherwise).
#[derive(Debug)]
pub struct WardrobeSetEntry {
    pub id: Option<String>,
    pub default: bool,
}

/// The `wardrobe` object of an avatar document: its `baseSet` when that is a string, and its
/// `sets` when that is an array.
#[derive(Debug)]
pub struct WardrobeManifest {
    pub base_set: Option<String>,
    pub sets: Option<Vec<WardrobeSetEntry>>,
}

pub open spec fn trimmed_id(e: WardrobeSetEntry) -> Option<Seq<char>> {
    match e.id {
        Some(id) => Some(trim_by(id@, whitespace_pred())),
        None => None,
    }
}

/// The first set that is marked default or has a blank id, if any.
pub open spec fn first_default_set(sets: Seq<WardrobeSetEntry>) -> int
    decreases sets.len(),
{
    if sets.len() == 0 {
        -1
    } else if sets[0].default || trimmed_id(sets[0]) == Some(Seq::<char>::empty()) {
        0
    } else {
        let r = first_default_set(sets.drop_first());
        if r < 0 {
            -1
        } else {
            r + 1
        }
    }
}

pub open spec fn explicit_base_spec(m: WardrobeManifest) -> Option<Seq<char>> {
    match m.base_set {
        Some(b) => Some(trim_by(b@, whitespace_pred())),
        None => None,
    }
}

/// Some set has the trimmed `baseSet` as its trimmed id.
pub open spec fn explicit_base_listed(m: WardrobeManifest, s: Seq<WardrobeSetEntry>) -> bool {
    explicit_base_spec(m) is Some && exists|i: int| 0 <= i < s.len() && trimmed_id(#[trigger] s[i]) == explicit_base_spec(m)
}

/// The wardrobe's base set: the trimmed `baseSet` when some set has that trimmed id; otherwise
/// the id (as written) of the first set marked default or with a blank id.
pub open spec fn base_set_id_spec(manifest: Option<WardrobeManifest>) -> Option<Seq<char>> {
    match manifest {
        None => None,
        Some(m) => match m.sets {
            None => None,
            Some(sets) => {
                let s = sets@;
                if explicit_base_listed(m, s) {
                    explicit_base_spec(m)
                } else {
                    let k = first_default_set(s);
                    if k < 0 {
                        None
                    } else {
                        match s[k].id {
                            Some(id) => Some(id@),
                            None => None,
                        }
                    }
                }
            },
        },
    }
}

fn chars_equal(a: &Vec<char>, b: &Vec<char>) -> (r: bool)
    ensures
        r == (a@ == b@),
{
    if a.len() != b.len() {
        return false;
    }
    let mut k: usize = 0;
    while k < a.len()
        invariant
            k <= a@.len() == b@.len(),
            forall|i: int| 0 <= i < k ==> a@[i] == b@[i],
        decreases a.len() - k,
    {
        if a[k] != b[k] {
            return false;
        }
        k = k + 1;
    }
    assert(a@ =~= b@);
    true
}

fn entry_trimmed_id(e: &WardrobeSetEntry) -> (r: Option<Vec<char>>)
    ensures
        match r {
            Some(v) => trimmed_id(*e) == Some(v@),
            None => trimmed_id(*e) is None,
        },
{
    match &e.id {
        Some(id) => Some(trim_whitespace_chars(&chars_of(id.as_str()))),
        None => None,
    }
}

pub fn base_wardrobe_set_id(manifest: Option<&WardrobeManifest>) -> (r: Option<String>)
    ensures
        match manifest {
            None => r is None,
            Some(m) => match r {
                Some(v) => base_set_id_spec(Some(*m)) == Some(v@),
                None => base_set_id_spec(Some(*m)) is None,
            },
        },
{
    let m = match manifest {
        Some(m) => m,
        None => return None,
    };
    let sets = match &m.sets {
        Some(sets) => sets,
        None => return None,
    };
    let ghost s = sets@;
    if let Some(b) = &m.base_set {
        let base = trim_whitespace_chars(&chars_of(b.as_str()));
        let mut i: usize = 0;
        while i < sets.len()
            invariant
                i <= s.len(),
                s == sets@,
                manifest == Some(m),
                m.sets is Some && m.sets->0@ == s,
                m.base_set == Some(*b),
                base@ == trim_by(b@, whitespace_pred()),
                forall|j: int| 0 <= j < i ==> trimmed_id(#[trigger] s[j]) != Some(base@),
            decreases sets.len() - i,
        {
            match entry_trimmed_id(&sets[i]) {
                Some(id) => {
                    if chars_equal(&id, &base) {
                        assert(trimmed_id(s[i as int]) == explicit_base_spec(*m));
                        return Some(string_from_chars(&base));
                    }
                },
                None => {},
            }
            i = i + 1;
        }
    }
    let mut k: usize = 0;
    assert(s.skip(0) =~= s);
    while k < sets.len()
        invariant
            k <= s.len(),
            s == sets@,
            manifest == Some(m),
            m.sets is Some && m.sets->0@ == s,
            !explicit_base_listed(*m, s),
            first_default_set(s) < 0 || k <= first_default_set(s),
            first_default_set(s.skip(k as int)) == (if first_default_set(s) < 0 {
                -1
            } else {
                first_default_set(s) - k
            }),
        decreases sets.len() - k,
    {
        let entry = &sets[k];
        proof {
            let rest = s.skip(k as int);
            assert(rest[0] == s[k as int]);
            assert(rest.drop_first() =~= s.skip(k + 1));
        }
        let is_blank = match entry_trimmed_id(entry) {
            Some(id) => id.len() == 0,
            None => false,
        };
        proof {
            if is_blank {
                assert(trimmed_id(s[k as int]) == Some(Seq::<char>::empty())) by {
                    let t = trimmed_id(s[k as int]);
                    assert(t is Some && t->0.len() == 0);
                    assert(t->0 =~= Seq::<char>::empty());
                }
            } else if trimmed_id(s[k as int]) == Some(Seq::<char>::empty()) {
                assert(false);
            }
        }
        if entry.default || is_blank {
            return match &entry.id {
                Some(id) => Some(string_from_chars(&chars_of(id.as_str()))),
                None => None,
            };
        }
        k = k + 1;
    }
    proof {
        assert(s.skip(k as int).len() == 0);
    }
    None
}

/// The error when a blank request has no base set to fall back to.
pub open spec fn base_set_missing_message() -> Seq<char> {
    ".unavatar wardrobe base set not found"@
}

/// The set a required wardrobe request applies: the trimmed request, or, for a blank request,
/// the wardrobe's base set; an error when neither exists.
pub fn select_required_wardrobe_set_id(wardrobe_set: &str, manifest: Option<&WardrobeManifest>) -> (r: Result<
    String,
    String,
>)
    ensures
        normalized_set_id_spec(Some(wardrobe_set@)) is Some ==> r is Ok && r->Ok_0@ == normalized_set_id_spec(
            Some(wardrobe_set@),
        )->0,
        normalized_set_id_spec(Some(wardrobe_set@)) is None ==> match manifest {
            None => r is Err && r->Err_0@ == base_set_missing_message(),
            Some(m) => match base_set_id_spec(Some(*m)) {
                Some(b) => r is Ok && r->Ok_0@ == b,
                None => r is Err && r->Err_0@ == base_set_missing_message(),
            },
        },
{
    match normalize_wardrobe_set_id(Some(wardrobe_set)) {
        Some(v) => Ok(v),
        None => match base_wardrobe_set_id(manifest) {
            Some(b) => Ok(b),
            None => Err(string_from_chars(&chars_of(".unavatar wardrobe base set not found"))),
        },
    }
}

/// The identifier made from a name before its edge underscores are trimmed: ASCII letters and
/// digits in lowercase, and each run of other characters as one `_`.
pub open spec fn identifier_chars(s: Seq<char>) -> Seq<char>
    decreases s.len(),
{
    if s.len() == 0 {
        Seq::empty()
    } else {
        let o = identifier_chars(s.drop_last());
        let c = s.last();
        if is_ascii_alnum(c) {
            o.push(ascii_lower(c))
        } else if o.len() > 0 && o.last() == '_' {
            o
        } else {
            o.push('_')
        }
    }
}

pub open spec fn underscore_pred() -> spec_fn(char) -> bool {
    |c: char| c == '_'
}

/// A stable lowercase identifier for a name: `identifier_chars` without leading or trailing
/// underscores.
pub open spec fn stable_identifier_spec(s: Seq<char>) -> Seq<char> {
    trim_by(identifier_chars(s), underscore_pred())
}

/// A character an identifier may hold: an ASCII digit, a lowercase ASCII letter or `_`.
pub open spec fn is_identifier_char(c: char) -> bool {
    ('0' <= c <= '9') || ('a' <= c <= 'z') || c == '_'
}

/// Identifier characters only, and never two underscores in a row.
pub open spec fn in_identifier_form(r: Seq<char>) -> bool {
    &&& forall|i: int| 0 <= i < r.len() ==> is_identifier_char(#[trigger] r[i])
    &&& forall|i: int| 0 <= i < r.len() - 1 ==> !(#[trigger] r[i] == '_' && r[i + 1] == '_')
}

proof fn lemma_identifier_chars_form(s: Seq<char>)
    ensures
        in_identifier_form(identifier_chars(s)),
    decreases s.len(),
{
    if s.len() > 0 {
        let o = identifier_chars(s.drop_last());
        lemma_identifier_chars_form(s.drop_last());
        let c = s.last();
        if is_ascii_alnum(c) {
            let l = ascii_lower(c);
            if 'A' <= c <= 'Z' {
                assert('a' <= l <= 'z');
            }
            assert(is_identifier_char(l) && l != '_');
            let r = o.push(l);
            assert forall|i: int| 0 <= i < r.len() - 1 implies !(#[trigger] r[i] == '_' && r[i + 1] == '_') by {
                if i < r.len() - 2 {
                    assert(r[i] == o[i] && r[i + 1] == o[i + 1]);
                }
            }
        } else if !(o.len() > 0 && o.last() == '_') {
            let r = o.push('_');
            assert forall|i: int| 0 <= i < r.len() - 1 implies !(#[trigger] r[i] == '_' && r[i + 1] == '_') by {
                if i < r.len() - 2 {
                    assert(r[i] == o[i] && r[i + 1] == o[i + 1]);
                }
            }
        }
    }
}

proof fn lemma_identifier_chars_fixed(r: Seq<char>)
    requires
        in_identifier_form(r),
    ensures
        identifier_chars(r) == r,
    decreases r.len(),
{
    if r.len() > 0 {
        let o = r.drop_last();
        assert forall|i: int| 0 <= i < o.len() - 1 implies !(#[trigger] o[i] == '_' && o[i + 1] == '_') by {
            assert(o[i] == r[i] && o[i + 1] == r[i + 1]);
        }
        assert forall|i: int| 0 <= i < o.len() implies is_identifier_char(#[trigger] o[i]) by {
            assert(o[i] == r[i]);
        }
        lemma_identifier_chars_fixed(o);
        let c = r.last();
        assert(is_identifier_char(r[r.len() - 1]));
        if c == '_' && o.len() > 0 {
            assert(r[r.len() - 2] == o.last());
            assert(!(r[r.len() - 2] == '_' && r[r.len() - 1] == '_'));
        }
        assert(r =~= o.push(c));
    }
}

/// A stable identifier is made of ASCII digits, lowercase ASCII letters and single
/// underscores, neither begins nor ends with an underscore, and is its own stable identifier.
pub proof fn lemma_stable_identifier_form(s: Seq<char>)
    ensures
        in_identifier_form(stable_identifier_spec(s)),
        stable_identifier_spec(s).len() > 0 ==> stable_identifier_spec(s)[0] != '_' && stable_identifier_spec(s).last()
            != '_',
        stable_identifier_spec(stable_identifier_spec(s)) == stable_identifier_spec(s),
{
    let o = identifier_chars(s);
    let pred = underscore_pred();
    lemma_identifier_chars_form(s);
    lemma_trim_by_facts(o, pred);
    let start = trim_start_len(o, pred);
    let end = o.len() - trim_end_len(o.skip(start), pred);
    let r = stable_identifier_spec(s);
    assert(r == o.subrange(start, end));
    assert forall|i: int| 0 <= i < r.len() implies is_identifier_char(#[trigger] r[i]) by {
        assert(r[i] == o[start + i]);
    }
    assert forall|i: int| 0 <= i < r.len() - 1 implies !(#[trigger] r[i] == '_' && r[i + 1] == '_') by {
        assert(r[i] == o[start + i] && r[i + 1] == o[start + i + 1]);
    }
    if r.len() > 0 {
        assert(r[0] == o[start]);
        assert(r.last() == o[end - 1]);
    }
    lemma_identifier_chars_fixed(r);
    lemma_trim_by_facts(r, pred);
    if r.len() > 0 {
        assert(!pred(r[0]));
        lemma_trim_start_len(r, pred, 0);
        assert(r.skip(0) =~= r);
        assert(!pred(r[r.len() - 1]));
        lemma_trim_end_len(r, pred, r.len() as int);
    }
    assert(trim_by(r, pred) =~= r);
}

fn trim_underscores(chars: &Vec<char>) -> (out: Vec<char>)
    ensures
        out@ == trim_by(chars@, underscore_pred()),
{
    let n = chars.len();
    let mut a: usize = 0;
    while a < n && chars[a] == '_'
        invariant
            a <= n == chars@.len(),
            forall|i: int| 0 <= i < a ==> #[trigger] chars@[i] == '_',
        decreases n - a,
    {
        a = a + 1;
    }
    let mut b: usize = n;
    while b > a && chars[b - 1] == '_'
        invariant
            a <= b <= n == chars@.len(),
            forall|i: int| b <= i < n ==> #[trigger] chars@[i] == '_',
        decreases b - a,
    {
        b = b - 1;
    }
    proof {
        let pred = underscore_pred();
        lemma_trim_start_len(chars@, pred, a as int);
        let rest = chars@.skip(a as int);
        assert forall|i: int| b - a <= i < rest.len() implies pred(#[trigger] rest[i]) by {
            assert(rest[i] == chars@[a + i]);
        }
        if b > a {
            assert(rest[b - a - 1] == chars@[b - 1]);
        }
        lemma_trim_end_len(rest, pred, (b - a) as int);
    }
    let mut out: Vec<char> = Vec::new();
    let mut k: usize = a;
    while k < b
        invariant
            a <= k <= b <= n == chars@.len(),
            out@ == chars@.subrange(a as int, k as int),
        decreases b - k,
    {
        out.push(chars[k]);
        assert(chars@.subrange(a as int, k + 1) =~= chars@.subrange(a as int, k as int).push(chars@[k as int]));
        k = k + 1;
    }
    out
}

pub fn stable_identifier(value: &str) -> (id: String)
    ensures
        id@ == stable_identifier_spec(value@),
{
    let chars = chars_of(value);
    let mut out: Vec<char> = Vec::new();
    let mut k: usize = 0;
    while k < chars.len()
        invariant
            k <= chars@.len(),
            out@ == identifier_chars(chars@.take(k as int)),
        decreases chars.len() - k,
    {
        let c = chars[k];
        proof {
            assert(chars@.take(k + 1).drop_last() =~= chars@.take(k as int));
            assert(chars@.take(k + 1).last() == c);
        }
        if is_ascii_alphanumeric(c) {
            out.push(to_ascii_lower(c));
        } else {
            let n = out.len();
            if !(n > 0 && out[n - 1] == '_') {
                out.push('_');
            }
        }
        k = k + 1;
    }
    assert(chars@.take(chars@.len() as int) =~= chars@);
    let trimmed = trim_underscores(&out);
    string_from_chars(&trimmed)
}

} // verus!
