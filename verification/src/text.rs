//! Text as sequences of characters: comparing, cutting and joining.

use vstd::prelude::*;
use vstd::string::StrSliceExecFns;
use vstd::string::StringExecFns;
use vstd::string::StringSliceAdditionalSpecFns;

verus! {

/// The characters of `s`, in order.
pub fn chars_of(s: &str) -> (chars: Vec<char>)
    ensures
        chars@ == s@,
{
    let mut chars: Vec<char> = Vec::new();
    for c in it: s.chars()
        invariant
            it.seq() == s@,
            chars@ == it.seq().take(it.index() as int),
    {
        chars.push(c);
    }
    chars
}

/// Whether two texts hold the same characters.
pub fn same_text(a: &str, b: &str) -> (same: bool)
    ensures
        same == (a@ == b@),
{
    let x = a.as_bytes();
    let y = b.as_bytes();
    proof {
        vstd::utf8::encode_utf8_decode_utf8(a@);
        vstd::utf8::encode_utf8_decode_utf8(b@);
    }
    if x.len() != y.len() {
        return false;
    }
    let n: usize = x.len();
    let mut i: usize = 0;
    while i < n
        invariant
            n == x@.len(),
            n == y@.len(),
            x@ == a.spec_bytes(),
            y@ == b.spec_bytes(),
            i <= n,
            forall|j: int| 0 <= j < i ==> x@[j] == y@[j],
        decreases n - i,
    {
        if x[i] != y[i] {
            return false;
        }
        i = i + 1;
    }
    assert(x@ =~= y@);
    true
}

/// `a` followed by `b`.
pub fn joined(a: &str, b: &str) -> (text: String)
    ensures
        text@ == a@ + b@,
{
    let mut text = a.to_owned();
    text.append(b);
    text
}

/// Whether `pattern` stands in `text` at position `at`.
pub open spec fn occurs_at(text: Seq<char>, pattern: Seq<char>, at: int) -> bool {
    &&& 0 <= at
    &&& at + pattern.len() <= text.len()
    &&& text.subrange(at, at + pattern.len()) == pattern
}

/// Whether `pattern` stands somewhere in `text`.
pub open spec fn occurs_in(text: Seq<char>, pattern: Seq<char>) -> bool {
    exists|at: int| occurs_at(text, pattern, at)
}

/// Whether `at` is the leftmost position of `pattern` in `text`.
pub open spec fn first_occurrence(text: Seq<char>, pattern: Seq<char>, at: int) -> bool {
    &&& occurs_at(text, pattern, at)
    &&& forall|earlier: int| 0 <= earlier < at ==> !occurs_at(text, pattern, earlier)
}

/// The pieces of `text` between the occurrences of `pattern`, taken from the
/// left without overlap. A text without the pattern is its own single piece,
/// and an empty pattern cuts nowhere.
pub open spec fn split_by(text: Seq<char>, pattern: Seq<char>) -> Seq<Seq<char>>
    decreases text.len(),
{
    if pattern.len() > 0 && exists|at: int| first_occurrence(text, pattern, at) {
        let at = choose|at: int| first_occurrence(text, pattern, at);
        seq![text.subrange(0, at)] + split_by(
            text.subrange(at + pattern.len(), text.len() as int),
            pattern,
        )
    } else {
        seq![text]
    }
}

/// White space: the characters with the Unicode property `White_Space`.
pub open spec fn is_whitespace(c: char) -> bool {
    let code = c as u32;
    ||| 0x09 <= code <= 0x0D
    ||| code == 0x20
    ||| code == 0x85
    ||| code == 0xA0
    ||| code == 0x1680
    ||| 0x2000 <= code <= 0x200A
    ||| code == 0x2028
    ||| code == 0x2029
    ||| code == 0x202F
    ||| code == 0x205F
    ||| code == 0x3000
}

/// `text` without its leading white space.
pub open spec fn trim_start(text: Seq<char>) -> Seq<char>
    decreases text.len(),
{
    if text.len() > 0 && is_whitespace(text.first()) {
        trim_start(text.drop_first())
    } else {
        text
    }
}

/// `text` without its trailing white space.
pub open spec fn trim_end(text: Seq<char>) -> Seq<char>
    decreases text.len(),
{
    if text.len() > 0 && is_whitespace(text.last()) {
        trim_end(text.drop_last())
    } else {
        text
    }
}

/// `text` without the white space at either end.
pub open spec fn trim(text: Seq<char>) -> Seq<char> {
    trim_end(trim_start(text))
}

/// The views of a list of texts.
pub open spec fn texts(list: Seq<String>) -> Seq<Seq<char>> {
    list.map_values(|s: String| s@)
}

/// Whether `c` is white space.
pub fn is_space(c: char) -> (space: bool)
    ensures
        space == is_whitespace(c),
{
    let code: u32 = c as u32;
    (0x09 <= code && code <= 0x0D) || code == 0x20 || code == 0x85 || code == 0xA0 || code
        == 0x1680 || (0x2000 <= code && code <= 0x200A) || code == 0x2028 || code == 0x2029
        || code == 0x202F || code == 0x205F || code == 0x3000
}

/// Whether `pattern` stands in `text` at `at`.
fn matches_at(text: &Vec<char>, pattern: &Vec<char>, at: usize) -> (found: bool)
    requires
        at + pattern.len() <= text.len(),
    ensures
        found == occurs_at(text@, pattern@, at as int),
{
    let m: usize = pattern.len();
    let mut k: usize = 0;
    while k < m
        invariant
            m == pattern.len(),
            at + m <= text.len(),
            k <= m,
            forall|j: int| 0 <= j < k ==> text@[at + j] == pattern@[j],
        decreases m - k,
    {
        if text[at + k] != pattern[k] {
            assert(text@.subrange(at as int, at + m)[k as int] != pattern@[k as int]);
            return false;
        }
        k = k + 1;
    }
    assert(text@.subrange(at as int, at + m) =~= pattern@);
    true
}

/// The leftmost position at or after `from` where `pattern` stands in `text`.
fn find_from(text: &Vec<char>, pattern: &Vec<char>, from: usize) -> (found: Option<usize>)
    requires
        from <= text.len(),
    ensures
        match found {
            Some(at) => from <= at && occurs_at(text@, pattern@, at as int)
                && forall|j: int| from <= j < at ==> !occurs_at(text@, pattern@, j),
            None => forall|j: int| from <= j ==> !occurs_at(text@, pattern@, j),
        },
{
    let n: usize = text.len();
    let m: usize = pattern.len();
    if m > n {
        return None;
    }
    let last: usize = n - m;
    if from > last {
        return None;
    }
    let mut i: usize = from;
    loop
        invariant
            n == text.len(),
            m == pattern.len(),
            last == n - m,
            from <= i <= last,
            forall|j: int| from <= j < i ==> !occurs_at(text@, pattern@, j),
        decreases last - i,
    {
        if matches_at(text, pattern, i) {
            return Some(i);
        }
        if i == last {
            return None;
        }
        i = i + 1;
    }
}

/// Whether `pattern` stands somewhere in `text`.
pub fn contains_text(text: &str, pattern: &str) -> (found: bool)
    ensures
        found == occurs_in(text@, pattern@),
{
    let t = chars_of(text);
    let p = chars_of(pattern);
    find_from(&t, &p, 0).is_some()
}

/// Cutting a text at a later start leaves the same occurrences, shifted.
proof fn occurrence_shifts(text: Seq<char>, pattern: Seq<char>, start: int, at: int)
    requires
        0 <= start <= at,
        start <= text.len(),
    ensures
        occurs_at(text, pattern, at) == occurs_at(
            text.subrange(start, text.len() as int),
            pattern,
            at - start,
        ),
{
    let rest = text.subrange(start, text.len() as int);
    if at + pattern.len() <= text.len() {
        assert(rest.subrange(at - start, at - start + pattern.len()) =~= text.subrange(
            at,
            at + pattern.len(),
        ));
    }
}

/// The pieces of `text` between the occurrences of `pattern`.
pub fn split_text(text: &str, pattern: &str) -> (pieces: Vec<String>)
    ensures
        texts(pieces@) == split_by(text@, pattern@),
{
    let t = chars_of(text);
    let p = chars_of(pattern);
    let n: usize = t.len();
    let m: usize = p.len();
    let mut pieces: Vec<String> = Vec::new();
    let mut start: usize = 0;
    assert(text@.subrange(0, n as int) == text@);
    assert(texts(pieces@) =~= Seq::<Seq<char>>::empty());
    if m == 0 {
        pieces.push(text.to_owned());
        assert(texts(pieces@) =~= seq![text@]);
        return pieces;
    }
    loop
        invariant
            t@ == text@,
            p@ == pattern@,
            n == t.len(),
            m == p.len(),
            m > 0,
            start <= n,
            split_by(text@, pattern@) == texts(pieces@) + split_by(
                text@.subrange(start as int, n as int),
                pattern@,
            ),
        decreases n - start,
    {
        let ghost rest = text@.subrange(start as int, n as int);
        match find_from(&t, &p, start) {
            Some(at) => {
                proof {
                    assert forall|j: int| 0 <= j < at - start implies !occurs_at(
                        rest,
                        pattern@,
                        j,
                    ) by {
                        occurrence_shifts(text@, pattern@, start as int, start + j);
                    }
                    occurrence_shifts(text@, pattern@, start as int, at as int);
                    assert(first_occurrence(rest, pattern@, at - start));
                    let chosen = choose|i: int| first_occurrence(rest, pattern@, i);
                    assert(chosen == at - start);
                    assert(rest.subrange(0, at - start) =~= text@.subrange(
                        start as int,
                        at as int,
                    ));
                    assert(rest.subrange(at - start + m, rest.len() as int) =~= text@.subrange(
                        at + m,
                        n as int,
                    ));
                }
                let piece = text.substring_char(start, at).to_owned();
                let ghost before = pieces@;
                pieces.push(piece);
                assert(texts(pieces@) =~= texts(before) + seq![text@.subrange(
                    start as int,
                    at as int,
                )]);
                start = at + m;
            },
            None => {
                proof {
                    assert forall|j: int| !first_occurrence(rest, pattern@, j) by {
                        if 0 <= j {
                            occurrence_shifts(text@, pattern@, start as int, start + j);
                        }
                    }
                }
                let piece = text.substring_char(start, n).to_owned();
                let ghost before = pieces@;
                pieces.push(piece);
                assert(texts(pieces@) =~= texts(before) + seq![rest]);
                return pieces;
            },
        }
    }
}

/// `text` without the white space at either end.
pub fn trimmed(text: &str) -> (out: String)
    ensures
        out@ == trim(text@),
{
    let t = chars_of(text);
    let n: usize = t.len();
    let mut lo: usize = 0;
    assert(t@.subrange(0, n as int) == t@);
    while lo < n && is_space(t[lo])
        invariant
            n == t.len(),
            lo <= n,
            trim_start(t@) == trim_start(t@.subrange(lo as int, n as int)),
        decreases n - lo,
    {
        assert(t@.subrange(lo as int, n as int).drop_first() == t@.subrange(lo + 1, n as int));
        lo = lo + 1;
    }
    let ghost rest = t@.subrange(lo as int, n as int);
    assert(trim_start(t@) == rest);
    let mut hi: usize = n;
    assert(rest.subrange(0, rest.len() as int) == rest);
    while lo < hi && is_space(t[hi - 1])
        invariant
            n == t.len(),
            lo <= hi <= n,
            rest == t@.subrange(lo as int, n as int),
            trim_end(rest) == trim_end(t@.subrange(lo as int, hi as int)),
        decreases hi - lo,
    {
        assert(t@.subrange(lo as int, hi as int).drop_last() == t@.subrange(lo as int, hi - 1));
        hi = hi - 1;
    }
    assert(trim_end(rest) == t@.subrange(lo as int, hi as int));
    text.substring_char(lo, hi).to_owned()
}

/// Whether `a` comes before `b` or is `b`, in the order of a dictionary that
/// goes by code points: a text comes after its own beginnings.
pub open spec fn precedes(a: Seq<char>, b: Seq<char>) -> bool
    decreases a.len(),
{
    if a.len() == 0 {
        true
    } else if b.len() == 0 {
        false
    } else if a.first() != b.first() {
        (a.first() as int) < (b.first() as int)
    } else {
        precedes(a.drop_first(), b.drop_first())
    }
}

/// Of two texts one comes before the other.
pub proof fn precedes_is_total(a: Seq<char>, b: Seq<char>)
    ensures
        precedes(a, b) || precedes(b, a),
    decreases a.len(),
{
    if a.len() > 0 && b.len() > 0 && a.first() == b.first() {
        precedes_is_total(a.drop_first(), b.drop_first());
    }
}

/// Two texts that come before each other are one text.
pub proof fn precedes_is_antisymmetric(a: Seq<char>, b: Seq<char>)
    requires
        precedes(a, b),
        precedes(b, a),
    ensures
        a == b,
    decreases a.len(),
{
    if a.len() > 0 && b.len() > 0 {
        precedes_is_antisymmetric(a.drop_first(), b.drop_first());
        assert(a =~= seq![a.first()] + a.drop_first());
        assert(b =~= seq![b.first()] + b.drop_first());
    } else {
        assert(a =~= b);
    }
}

/// What comes before a text comes before all that the text comes before.
pub proof fn precedes_is_transitive(a: Seq<char>, b: Seq<char>, c: Seq<char>)
    requires
        precedes(a, b),
        precedes(b, c),
    ensures
        precedes(a, c),
    decreases a.len(),
{
    if a.len() > 0 && b.len() > 0 && c.len() > 0 {
        if a.first() == b.first() && b.first() == c.first() {
            precedes_is_transitive(a.drop_first(), b.drop_first(), c.drop_first());
        }
    }
}

/// Whether `a` comes before `b` or is `b`.
pub fn text_precedes(a: &str, b: &str) -> (before: bool)
    ensures
        before == precedes(a@, b@),
{
    let x = chars_of(a);
    let y = chars_of(b);
    let n: usize = x.len();
    let m: usize = y.len();
    let mut i: usize = 0;
    assert(x@.subrange(0, n as int) == x@);
    assert(y@.subrange(0, m as int) == y@);
    while i < n && i < m
        invariant
            n == x.len(),
            m == y.len(),
            x@ == a@,
            y@ == b@,
            i <= n,
            i <= m,
            precedes(x@, y@) == precedes(
                x@.subrange(i as int, n as int),
                y@.subrange(i as int, m as int),
            ),
        decreases n - i,
    {
        let ghost rest_x = x@.subrange(i as int, n as int);
        let ghost rest_y = y@.subrange(i as int, m as int);
        assert(rest_x.first() == x@[i as int] && rest_y.first() == y@[i as int]);
        assert(rest_x.drop_first() == x@.subrange(i + 1, n as int));
        assert(rest_y.drop_first() == y@.subrange(i + 1, m as int));
        if x[i] != y[i] {
            return x[i] < y[i];
        }
        i = i + 1;
    }
    i == n
}

} // verus!
