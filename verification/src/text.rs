//! Character-level helpers on strings: whitespace trimming, unsigned integer
//! literals and substring search, each specified over `Seq<char>`.

use vstd::prelude::*;
use vstd::std_specs::iter::IteratorSpec;

verus! {

broadcast use vstd::string::group_string_axioms;

/// The Unicode `White_Space` property, which `char::is_whitespace` and
/// `str::trim` go by.
pub open spec fn is_white(c: char) -> bool {
    let v = c as u32;
    ||| 0x09 <= v <= 0x0D
    ||| v == 0x20
    ||| v == 0x85
    ||| v == 0xA0
    ||| v == 0x1680
    ||| 0x2000 <= v <= 0x200A
    ||| v == 0x2028
    ||| v == 0x2029
    ||| v == 0x202F
    ||| v == 0x205F
    ||| v == 0x3000
}

/// `s` without its leading whitespace.
pub open spec fn trim_start(s: Seq<char>) -> Seq<char>
    decreases s.len(),
{
    if s.len() > 0 && is_white(s[0]) {
        trim_start(s.drop_first())
    } else {
        s
    }
}

/// `s` without its trailing whitespace.
pub open spec fn trim_end(s: Seq<char>) -> Seq<char>
    decreases s.len(),
{
    if s.len() > 0 && is_white(s.last()) {
        trim_end(s.drop_last())
    } else {
        s
    }
}

/// `s` without leading and trailing whitespace, as `str::trim` gives it.
pub open spec fn trimmed(s: Seq<char>) -> Seq<char> {
    trim_end(trim_start(s))
}

pub open spec fn is_digit(c: char) -> bool {
    '0' <= c <= '9'
}

/// The number that a string of decimal digits spells.
pub open spec fn digits_value(s: Seq<char>) -> nat
    decreases s.len(),
{
    if s.len() == 0 {
        0
    } else {
        digits_value(s.drop_last()) * 10 + ((s.last() as u32) - ('0' as u32)) as nat
    }
}

/// The digits of an unsigned literal: an optional leading `+` is dropped.
pub open spec fn unsigned_digits(s: Seq<char>) -> Seq<char> {
    if s.len() > 0 && s[0] == '+' {
        s.drop_first()
    } else {
        s
    }
}

/// Whether `s.parse::<usize>()` succeeds: an optional `+`, then at least one
/// decimal digit and nothing else, spelling a value that fits in `usize`.
pub open spec fn is_usize_literal(s: Seq<char>) -> bool {
    let d = unsigned_digits(s);
    &&& d.len() > 0
    &&& forall|i: int| 0 <= i < d.len() ==> is_digit(#[trigger] d[i])
    &&& digits_value(d) <= usize::MAX
}

/// Whether `needle` occurs in `hay` starting at index `i`.
pub open spec fn occurs_at(hay: Seq<char>, needle: Seq<char>, i: int) -> bool {
    0 <= i && i + needle.len() <= hay.len() && hay.subrange(i, i + needle.len()) == needle
}

/// Whether `needle` occurs somewhere in `hay` (`str::contains`).
pub open spec fn has_substring(hay: Seq<char>, needle: Seq<char>) -> bool {
    exists|i: int| occurs_at(hay, needle, i)
}

/// Whether `s` begins with `prefix` (`str::starts_with`).
pub open spec fn has_prefix(s: Seq<char>, prefix: Seq<char>) -> bool {
    prefix.len() <= s.len() && s.subrange(0, prefix.len() as int) == prefix
}

/// Whether `s` ends with `suffix` (`str::ends_with`).
pub open spec fn has_suffix(s: Seq<char>, suffix: Seq<char>) -> bool {
    suffix.len() <= s.len() && s.subrange(s.len() - suffix.len(), s.len() as int) == suffix
}

/// The characters of `s`, in order.
pub fn chars_of(s: &str) -> (v: Vec<char>)
    ensures
        v@ == s@,
{
    let mut v: Vec<char> = Vec::new();
    let mut it = s.chars();
    loop
        invariant
            v@ + it.remaining() == s@,
            it.obeys_prophetic_iter_laws(),
            it.decrease() is Some,
        decreases it.decrease()->0,
    {
        let ghost before = it.remaining();
        match it.next() {
            Some(c) => {
                v.push(c);
                assert(v@ + it.remaining() =~= s@) by {
                    assert(before =~= seq![c] + it.remaining());
                }
            },
            None => {
                assert(v@ =~= s@);
                return v;
            },
        }
    }
}

pub fn is_white_char(c: char) -> (b: bool)
    ensures
        b == is_white(c),
{
    let v = c as u32;
    (0x09 <= v && v <= 0x0D) || v == 0x20 || v == 0x85 || v == 0xA0 || v == 0x1680 || (0x2000 <= v
        && v <= 0x200A) || v == 0x2028 || v == 0x2029 || v == 0x202F || v == 0x205F || v == 0x3000
}

proof fn lemma_trim_start(s: Seq<char>, k: int)
    requires
        0 <= k <= s.len(),
        forall|i: int| 0 <= i < k ==> is_white(#[trigger] s[i]),
        k == s.len() || !is_white(s[k]),
    ensures
        trim_start(s) == s.subrange(k, s.len() as int),
    decreases k,
{
    if k == 0 {
        assert(s.subrange(0, s.len() as int) =~= s);
    } else {
        let t = s.drop_first();
        assert forall|i: int| 0 <= i < k - 1 implies is_white(#[trigger] t[i]) by {
            assert(t[i] == s[i + 1]);
        }
        lemma_trim_start(t, k - 1);
        assert(t.subrange(k - 1, t.len() as int) =~= s.subrange(k, s.len() as int));
    }
}

proof fn lemma_trim_end(s: Seq<char>, k: int)
    requires
        0 <= k <= s.len(),
        forall|i: int| k <= i < s.len() ==> is_white(#[trigger] s[i]),
        k == 0 || !is_white(s[k - 1]),
    ensures
        trim_end(s) == s.subrange(0, k),
    decreases s.len() - k,
{
    if k == s.len() {
        assert(s.subrange(0, k) =~= s);
    } else {
        let t = s.drop_last();
        assert forall|i: int| k <= i < t.len() implies is_white(#[trigger] t[i]) by {
            assert(t[i] == s[i]);
        }
        lemma_trim_end(t, k);
        assert(t.subrange(0, k) =~= s.subrange(0, k));
    }
}

/// `s.trim()`, owned.
pub fn trim(s: &str) -> (r: String)
    ensures
        r@ == trimmed(s@),
{
    let cs = chars_of(s);
    let n = cs.len();
    let mut start: usize = 0;
    while start < n && is_white_char(cs[start])
        invariant
            cs@ == s@,
            n == cs.len(),
            start <= n,
            forall|i: int| 0 <= i < start ==> is_white(#[trigger] cs@[i]),
        decreases n - start,
    {
        start = start + 1;
    }
    let mut end: usize = n;
    while end > start && is_white_char(cs[end - 1])
        invariant
            cs@ == s@,
            n == cs.len(),
            start <= end <= n,
            forall|i: int| end <= i < n ==> is_white(#[trigger] cs@[i]),
        decreases end - start,
    {
        end = end - 1;
    }
    proof {
        lemma_trim_start(s@, start as int);
        let t = s@.subrange(start as int, n as int);
        assert forall|i: int| end - start <= i < t.len() implies is_white(#[trigger] t[i]) by {
            assert(t[i] == s@[i + start]);
        }
        if end > start {
            assert(t[end - start - 1] == s@[end - 1]);
        }
        lemma_trim_end(t, end - start);
        assert(t.subrange(0, end - start) =~= s@.subrange(start as int, end as int));
    }
    let sub = s.substring_char(start, end);
    sub.to_owned()
}

proof fn lemma_digits_value_grows(s: Seq<char>, k: int)
    requires
        0 <= k <= s.len(),
        forall|i: int| 0 <= i < s.len() ==> is_digit(#[trigger] s[i]),
    ensures
        digits_value(s.subrange(0, k)) <= digits_value(s),
    decreases s.len() - k,
{
    if k < s.len() {
        lemma_digits_value_grows(s, k + 1);
        let p = s.subrange(0, k + 1);
        assert(p.drop_last() =~= s.subrange(0, k));
    } else {
        assert(s.subrange(0, k) =~= s);
    }
}

/// Whether `s.parse::<usize>()` would succeed.
pub fn parses_as_usize(s: &str) -> (b: bool)
    ensures
        b == is_usize_literal(s@),
{
    let cs = chars_of(s);
    let n = cs.len();
    let mut i: usize = 0;
    if n > 0 && cs[0] == '+' {
        i = 1;
    }
    let first = i;
    let ghost d = unsigned_digits(s@);
    assert(d =~= s@.subrange(first as int, n as int));
    if first == n {
        return false;
    }
    let mut value: usize = 0;
    while i < n
        invariant
            cs@ == s@,
            n == cs.len(),
            first < n,
            d == s@.subrange(first as int, n as int),
            d == unsigned_digits(s@),
            first <= i <= n,
            forall|j: int| 0 <= j < i - first ==> is_digit(#[trigger] d[j]),
            value == digits_value(d.subrange(0, i - first)),
        decreases n - i,
    {
        let c = cs[i];
        if !('0' <= c && c <= '9') {
            assert(d[i - first] == c);
            assert(!is_digit(d[i - first]));
            return false;
        }
        let digit = (c as u32 - '0' as u32) as usize;
        let ghost p = d.subrange(0, i + 1 - first);
        assert(p.drop_last() =~= d.subrange(0, i - first));
        assert(p.last() == c);
        assert(digits_value(p) == value * 10 + digit);
        match value.checked_mul(10) {
            Some(m) => match m.checked_add(digit) {
                Some(v) => {
                    value = v;
                },
                None => {
                    proof {
                        if forall|j: int| 0 <= j < d.len() ==> is_digit(#[trigger] d[j]) {
                            lemma_digits_value_grows(d, i + 1 - first);
                        }
                    }
                    return false;
                },
            },
            None => {
                proof {
                    if forall|j: int| 0 <= j < d.len() ==> is_digit(#[trigger] d[j]) {
                        lemma_digits_value_grows(d, i + 1 - first);
                    }
                }
                return false;
            },
        }
        i = i + 1;
    }
    assert(d.subrange(0, n - first) =~= d);
    true
}

/// Whether `needle` occurs in `hay` (`hay.contains(needle)`).
pub fn contains(hay: &str, needle: &str) -> (b: bool)
    ensures
        b == has_substring(hay@, needle@),
{
    let h = chars_of(hay);
    let nd = chars_of(needle);
    let hn = h.len();
    let nn = nd.len();
    if nn > hn {
        assert forall|i: int| !occurs_at(hay@, needle@, i) by {}
        return false;
    }
    let mut i: usize = 0;
    while i <= hn - nn
        invariant
            h@ == hay@,
            nd@ == needle@,
            hn == h.len(),
            nn == nd.len(),
            nn <= hn,
            i <= hn - nn + 1,
            forall|k: int| 0 <= k < i ==> !occurs_at(hay@, needle@, k),
        decreases hn - nn + 1 - i,
    {
        let mut j: usize = 0;
        let mut same = true;
        while j < nn && same
            invariant
                h@ == hay@,
                nd@ == needle@,
                hn == h.len(),
                nn == nd.len(),
                i + nn <= hn,
                j <= nn,
                same ==> forall|m: int| 0 <= m < j ==> h@[i + m] == nd@[m],
                !same ==> exists|m: int| 0 <= m < nn && h@[i + m] != nd@[m],
            decreases nn - j + (if same { 1int } else { 0int }),
        {
            if h[i + j] != nd[j] {
                same = false;
            } else {
                j = j + 1;
            }
        }
        if same {
            assert(hay@.subrange(i as int, i + nn) =~= needle@);
            assert(occurs_at(hay@, needle@, i as int));
            return true;
        }
        proof {
            let m = choose|m: int| 0 <= m < nn && h@[i + m] != nd@[m];
            assert(hay@.subrange(i as int, i + nn)[m] != needle@[m]);
        }
        i = i + 1;
    }
    assert forall|k: int| !occurs_at(hay@, needle@, k) by {
        if 0 <= k < i {
        }
    }
    false
}

/// Whether `s` begins with `prefix` (`s.starts_with(prefix)`).
pub fn starts_with(s: &str, prefix: &str) -> (b: bool)
    ensures
        b == has_prefix(s@, prefix@),
{
    let cs = chars_of(s);
    let ps = chars_of(prefix);
    if ps.len() > cs.len() {
        return false;
    }
    let mut j: usize = 0;
    while j < ps.len()
        invariant
            cs@ == s@,
            ps@ == prefix@,
            ps.len() <= cs.len(),
            j <= ps.len(),
            forall|m: int| 0 <= m < j ==> cs@[m] == ps@[m],
        decreases ps.len() - j,
    {
        if cs[j] != ps[j] {
            assert(s@.subrange(0, prefix@.len() as int)[j as int] != prefix@[j as int]);
            return false;
        }
        j = j + 1;
    }
    assert(s@.subrange(0, prefix@.len() as int) =~= prefix@);
    true
}

/// Whether `s` ends with `suffix` (`s.ends_with(suffix)`).
pub fn ends_with(s: &str, suffix: &str) -> (b: bool)
    ensures
        b == has_suffix(s@, suffix@),
{
    let cs = chars_of(s);
    let ps = chars_of(suffix);
    if ps.len() > cs.len() {
        return false;
    }
    let off = cs.len() - ps.len();
    let mut j: usize = 0;
    while j < ps.len()
        invariant
            cs@ == s@,
            ps@ == suffix@,
            ps.len() <= cs.len(),
            off == cs.len() - ps.len(),
            j <= ps.len(),
            forall|m: int| 0 <= m < j ==> cs@[off + m] == ps@[m],
        decreases ps.len() - j,
    {
        if cs[off + j] != ps[j] {
            assert(s@.subrange(off as int, s@.len() as int)[j as int] != suffix@[j as int]);
            return false;
        }
        j = j + 1;
    }
    assert(s@.subrange(off as int, s@.len() as int) =~= suffix@);
    true
}

/// `needle` occurs in any string made of something, then `needle`, then
/// something else: `has_substring` is `str::contains`, wherever in the
/// string (on any line) the needle stands.
pub proof fn law_substring_of_concat(a: Seq<char>, needle: Seq<char>, c: Seq<char>)
    ensures
        has_substring(a + needle + c, needle),
        has_substring(a + needle, needle),
        has_substring(needle + c, needle),
{
    assert((a + needle + c).subrange(a.len() as int, (a.len() + needle.len()) as int) =~= needle);
    assert(occurs_at(a + needle + c, needle, a.len() as int));
    assert((a + needle).subrange(a.len() as int, (a.len() + needle.len()) as int) =~= needle);
    assert(occurs_at(a + needle, needle, a.len() as int));
    assert((needle + c).subrange(0, needle.len() as int) =~= needle);
    assert(occurs_at(needle + c, needle, 0));
}

/// A string that contains `needle` is something, then `needle`, then
/// something else.
pub proof fn law_substring_splits(hay: Seq<char>, needle: Seq<char>)
    requires
        has_substring(hay, needle),
    ensures
        exists|i: int|
            0 <= i && i + needle.len() <= hay.len() && hay == #[trigger] hay.take(i) + needle
                + hay.skip(i + needle.len()),
{
    let i = choose|i: int| occurs_at(hay, needle, i);
    assert(hay =~= hay.take(i) + needle + hay.skip(i + needle.len()));
}

/// `has_prefix` is `str::starts_with`: a string starts with `p` exactly when
/// it is `p` followed by something.
pub proof fn law_prefix(p: Seq<char>, rest: Seq<char>, s: Seq<char>)
    ensures
        has_prefix(p + rest, p),
        has_prefix(s, p) ==> s == p + s.skip(p.len() as int),
{
    assert((p + rest).subrange(0, p.len() as int) =~= p);
    if has_prefix(s, p) {
        assert(s =~= p + s.skip(p.len() as int));
    }
}

/// `has_suffix` is `str::ends_with`: a string ends with `x` exactly when it
/// is something followed by `x`.
pub proof fn law_suffix(front: Seq<char>, x: Seq<char>, s: Seq<char>)
    ensures
        has_suffix(front + x, x),
        has_suffix(s, x) ==> s == s.take(s.len() - x.len()) + x,
{
    assert((front + x).subrange(front.len() as int, (front + x).len() as int) =~= x);
    if has_suffix(s, x) {
        assert(s =~= s.take(s.len() - x.len()) + x);
    }
}

proof fn lemma_trim_start_shape(s: Seq<char>) -> (k: int)
    ensures
        0 <= k <= s.len(),
        trim_start(s) == s.subrange(k, s.len() as int),
        forall|i: int| 0 <= i < k ==> is_white(#[trigger] s[i]),
        k < s.len() ==> !is_white(s[k]),
    decreases s.len(),
{
    if s.len() > 0 && is_white(s[0]) {
        let t = s.drop_first();
        let k1 = lemma_trim_start_shape(t);
        assert(t.subrange(k1, t.len() as int) =~= s.subrange(k1 + 1, s.len() as int));
        assert forall|i: int| 0 <= i < k1 + 1 implies is_white(#[trigger] s[i]) by {
            if i > 0 {
                assert(s[i] == t[i - 1]);
            }
        }
        if k1 < t.len() {
            assert(s[k1 + 1] == t[k1]);
        }
        k1 + 1
    } else {
        assert(s.subrange(0, s.len() as int) =~= s);
        0
    }
}

proof fn lemma_trim_end_shape(s: Seq<char>) -> (k: int)
    ensures
        0 <= k <= s.len(),
        trim_end(s) == s.subrange(0, k),
        forall|i: int| k <= i < s.len() ==> is_white(#[trigger] s[i]),
        k > 0 ==> !is_white(s[k - 1]),
    decreases s.len(),
{
    if s.len() > 0 && is_white(s.last()) {
        let t = s.drop_last();
        let k1 = lemma_trim_end_shape(t);
        assert(t.subrange(0, k1) =~= s.subrange(0, k1));
        assert forall|i: int| k1 <= i < s.len() implies is_white(#[trigger] s[i]) by {
            if i < t.len() {
                assert(s[i] == t[i]);
            }
        }
        if k1 > 0 {
            assert(s[k1 - 1] == t[k1 - 1]);
        }
        k1
    } else {
        assert(s.subrange(0, s.len() as int) =~= s);
        s.len() as int
    }
}

/// `trimmed` is `str::trim`: the result is a stretch of `s` that neither
/// begins nor ends with whitespace, and everything of `s` before and after it
/// is whitespace.
pub proof fn law_trim(s: Seq<char>)
    ensures
        exists|i: int, j: int|
            0 <= i <= j <= s.len() && trimmed(s) == #[trigger] s.subrange(i, j) && (forall|m: int|
                0 <= m < i ==> is_white(#[trigger] s[m])) && (forall|m: int|
                j <= m < s.len() ==> is_white(#[trigger] s[m])),
        trimmed(s).len() > 0 ==> !is_white(trimmed(s)[0]) && !is_white(trimmed(s).last()),
{
    let k = lemma_trim_start_shape(s);
    let u = s.subrange(k, s.len() as int);
    let e = lemma_trim_end_shape(u);
    assert(u.subrange(0, e) =~= s.subrange(k, k + e));
    assert forall|m: int| k + e <= m < s.len() implies is_white(#[trigger] s[m]) by {
        assert(s[m] == u[m - k]);
    }
    let t = trimmed(s);
    if t.len() > 0 {
        assert(t[0] == s[k]);
        assert(t.last() == u[e - 1]);
    }
    assert(0 <= k <= k + e <= s.len() && trimmed(s) == s.subrange(k, k + e));
}

/// `is_usize_literal` is what `str::parse::<usize>` accepts: a non-empty
/// run of decimal digits, optionally after one `+`, of value at most
/// `usize::MAX`; each further digit multiplies the value by ten and adds the
/// digit.
pub proof fn law_usize_literal(d: Seq<char>, s: Seq<char>, c: char)
    ensures
        (d.len() > 0 && (forall|i: int| 0 <= i < d.len() ==> is_digit(#[trigger] d[i]))
            && digits_value(d) <= usize::MAX) ==> is_usize_literal(d) && is_usize_literal(
            seq!['+'] + d,
        ),
        is_usize_literal(s) ==> forall|i: int|
            0 <= i < s.len() ==> is_digit(#[trigger] s[i]) || (i == 0 && s[i] == '+'),
        is_usize_literal(s) ==> exists|i: int| 0 <= i < s.len() && is_digit(#[trigger] s[i]),
        !is_usize_literal(Seq::<char>::empty()),
        !is_usize_literal(seq!['+']),
        is_digit(c) ==> digits_value(d.push(c)) == 10 * digits_value(d) + (c as u32 - '0' as u32),
{
    let pd = seq!['+'] + d;
    assert(pd.drop_first() =~= d);
    assert(pd[0] == '+');
    if d.len() > 0 && d[0] == '+' {
        assert(!is_digit(d[0]));
    }
    if is_usize_literal(s) {
        let u = unsigned_digits(s);
        assert forall|i: int| 0 <= i < s.len() implies is_digit(#[trigger] s[i]) || (i == 0
            && s[i] == '+') by {
            if s.len() > 0 && s[0] == '+' {
                if i > 0 {
                    assert(s[i] == u[i - 1]);
                }
            } else {
                assert(s[i] == u[i]);
            }
        }
        if s.len() > 0 && s[0] == '+' {
            assert(s[1] == u[0]);
            assert(is_digit(s[1]));
        } else {
            assert(s[0] == u[0]);
            assert(is_digit(s[0]));
        }
    }
    assert(seq!['+'].drop_first() =~= Seq::<char>::empty());
    assert(d.push(c).drop_last() =~= d);
}

/// The whitespace that trimming removes is exactly Unicode's `White_Space`
/// set: tab, line feed, vertical tab, form feed, carriage return, space, next
/// line, no-break space, ogham space mark, the spaces U+2000 to U+200A, line
/// and paragraph separators, narrow no-break space, medium mathematical space
/// and ideographic space.
pub proof fn law_white_space(c: char)
    ensures
        is_white(c) <==> (c == '\t' || c == '\n' || c == '\u{0B}' || c == '\u{0C}' || c == '\r'
            || c == ' ' || c == '\u{85}' || c == '\u{A0}' || c == '\u{1680}' || ('\u{2000}' <= c
            && c <= '\u{200A}') || c == '\u{2028}' || c == '\u{2029}' || c == '\u{202F}' || c
            == '\u{205F}' || c == '\u{3000}'),
        !is_white('0') && !is_white('a') && !is_white('\u{FFFD}'),
{
}

/// The value of no digits is zero, and of one digit is that digit.
pub proof fn law_digits_value_small(c: char)
    ensures
        digits_value(Seq::<char>::empty()) == 0,
        is_digit(c) ==> digits_value(seq![c]) == (c as u32 - '0' as u32),
{
    assert(seq![c].drop_last() =~= Seq::<char>::empty());
}

} // verus!
