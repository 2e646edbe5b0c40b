//! Small text routines: splitting at a separator, reading decimal numbers, and
//! converting snake case to Pascal case.
use vstd::prelude::*;

verus! {

/// `String::push`: appends one character.
#[verifier::external_body]
pub fn push_char(s: &mut String, c: char)
    ensures
        final(s)@ == old(s)@.push(c),
{
    s.push(c)
}

/// The ASCII upper case of a character: 'a' to 'z' become 'A' to 'Z'; every other
/// character stays as it is.
pub fn to_ascii_uppercase(c: char) -> (upper: char)
    ensures
        upper == ascii_upper(c),
{
    if 'a' <= c && c <= 'z' {
        let b = c as u8;
        assert(b as int == c as int);
        (b - 32) as char
    } else {
        c
    }
}

/// The ASCII upper case of a character.
pub open spec fn ascii_upper(c: char) -> char {
    if 'a' <= c && c <= 'z' {
        ((c as int) - 32) as char
    } else {
        c
    }
}

/// How many times `sep` occurs in `s`.
pub open spec fn sep_count(s: Seq<char>, sep: char) -> nat
    decreases s.len(),
{
    if s.len() == 0 {
        0
    } else {
        sep_count(s.drop_last(), sep) + if s.last() == sep { 1nat } else { 0nat }
    }
}

/// `s[start..end]` is the piece numbered `n` (from 0) when `s` is split at every `sep`:
/// exactly `n` separators come before it, and it runs to the next separator or the end.
pub open spec fn is_segment(s: Seq<char>, sep: char, n: nat, start: int, end: int) -> bool {
    &&& 0 <= start <= end <= s.len()
    &&& sep_count(s.take(start), sep) == n
    &&& (start == 0 || s[start - 1] == sep)
    &&& forall|k: int| start <= k < end ==> s[k] != sep
    &&& (end == s.len() || s[end] == sep)
}

/// The piece numbered `n` of `s` split at `sep`, if `s` has that many pieces.
pub open spec fn segment(s: Seq<char>, sep: char, n: nat) -> Option<Seq<char>> {
    if exists|a: int, b: int| is_segment(s, sep, n, a, b) {
        let (a, b) = choose|a: int, b: int| is_segment(s, sep, n, a, b);
        Some(s.subrange(a, b))
    } else {
        None
    }
}

proof fn lemma_sep_count_step(s: Seq<char>, sep: char, j: int)
    requires
        0 <= j < s.len(),
    ensures
        sep_count(s.take(j + 1), sep) == sep_count(s.take(j), sep) + if s[j] == sep { 1nat } else { 0nat },
{
    assert(s.take(j + 1).drop_last() =~= s.take(j));
}

proof fn lemma_sep_count_mono(s: Seq<char>, sep: char, i: int, j: int)
    requires
        0 <= i <= j <= s.len(),
    ensures
        sep_count(s.take(i), sep) <= sep_count(s.take(j), sep),
        i < j && s[j - 1] == sep ==> sep_count(s.take(i), sep) < sep_count(s.take(j), sep),
    decreases j - i,
{
    if i < j {
        lemma_sep_count_step(s, sep, j - 1);
        lemma_sep_count_mono(s, sep, i, j - 1);
    }
}

/// A piece is fixed by its number: two pieces with the same number are the same.
pub proof fn lemma_segment_unique(s: Seq<char>, sep: char, n: nat, a1: int, b1: int, a2: int, b2: int)
    requires
        is_segment(s, sep, n, a1, b1),
        is_segment(s, sep, n, a2, b2),
    ensures
        a1 == a2,
        b1 == b2,
{
    if a1 < a2 {
        lemma_sep_count_mono(s, sep, a1, a2);
    }
    if a2 < a1 {
        lemma_sep_count_mono(s, sep, a2, a1);
    }
    if b1 < b2 {
        assert(s[b1] == sep);
    }
    if b2 < b1 {
        assert(s[b2] == sep);
    }
}

/// Where piece `n` of `s` split at `sep` starts and ends, counted in characters.
pub fn segment_bounds(s: &str, sep: char, n: usize) -> (bounds: Option<(usize, usize)>)
    ensures
        bounds matches Some((a, b)) ==> is_segment(s@, sep, n as nat, a as int, b as int),
        bounds is None <==> sep_count(s@, sep) < n,
{
    let len = s.unicode_len();
    let mut count: usize = 0;
    let mut start: Option<usize> = if n == 0 { Some(0) } else { None };
    let mut i: usize = 0;
    assert(s@.take(0) =~= Seq::<char>::empty());
    while i < len
        invariant
            len == s@.len(),
            i <= len,
            count == sep_count(s@.take(i as int), sep),
            count <= n,
            start is Some <==> count == n,
            start matches Some(a) ==> {
                &&& a <= i
                &&& sep_count(s@.take(a as int), sep) == n
                &&& (a == 0 || s@[a - 1] == sep)
                &&& forall|k: int| a <= k < i ==> s@[k] != sep
            },
        decreases len - i,
    {
        let c = s.get_char(i);
        proof {
            lemma_sep_count_step(s@, sep, i as int);
        }
        if c == sep {
            if let Some(a) = start {
                proof {
                    lemma_sep_count_mono(s@, sep, i as int, len as int);
                    assert(s@.take(len as int) =~= s@);
                }
                return Some((a, i));
            }
            count = count + 1;
            if count == n {
                start = Some(i + 1);
            }
        }
        i = i + 1;
    }
    assert(s@.take(len as int) =~= s@);
    match start {
        Some(a) => Some((a, len)),
        None => None,
    }
}

/// The text of piece `n` of `s` split at `sep`.
pub fn segment_str(s: &str, sep: char, n: usize) -> (piece: Option<&str>)
    ensures
        piece matches Some(p) ==> segment(s@, sep, n as nat) == Some(p@),
        piece is None <==> segment(s@, sep, n as nat) is None,
{
    match segment_bounds(s, sep, n) {
        Some((a, b)) => {
            proof {
                let (a2, b2) = choose|a2: int, b2: int| is_segment(s@, sep, n as nat, a2, b2);
                lemma_segment_unique(s@, sep, n as nat, a as int, b as int, a2, b2);
            }
            Some(s.substring_char(a, b))
        },
        None => {
            proof {
                if exists|a: int, b: int| is_segment(s@, sep, n as nat, a, b) {
                    let (a2, b2) = choose|a2: int, b2: int| is_segment(s@, sep, n as nat, a2, b2);
                    lemma_sep_count_mono(s@, sep, 0, a2);
                    lemma_sep_count_mono(s@, sep, a2, s@.len() as int);
                    assert(s@.take(s@.len() as int) =~= s@);
                }
            }
            None
        },
    }
}

/// The text with every occurrence of `pat` replaced by `rep`, occurrences taken from
/// the left without overlap, as `str::replace` does. An empty pattern leaves the text as
/// it is.
pub open spec fn replaced(s: Seq<char>, pat: Seq<char>, rep: Seq<char>) -> Seq<char>
    decreases s.len(),
{
    if s.len() == 0 || pat.len() == 0 {
        s
    } else if s.len() >= pat.len() && s.take(pat.len() as int) == pat {
        rep + replaced(s.skip(pat.len() as int), pat, rep)
    } else {
        seq![s[0]] + replaced(s.skip(1), pat, rep)
    }
}

fn matches_at(s: &str, pat: &str, i: usize) -> (found: bool)
    requires
        i + pat@.len() <= s@.len(),
    ensures
        found == (s@.subrange(i as int, i + pat@.len()) == pat@),
{
    let n = s.unicode_len();
    let p = pat.unicode_len();
    let mut j: usize = 0;
    while j < p
        invariant
            n == s@.len(),
            p == pat@.len(),
            i + p <= s@.len(),
            j <= p,
            forall|k: int| 0 <= k < j ==> s@[i + k] == pat@[k],
        decreases p - j,
    {
        if s.get_char(i + j) != pat.get_char(j) {
            assert(s@.subrange(i as int, i + p)[j as int] != pat@[j as int]);
            return false;
        }
        j = j + 1;
    }
    assert(s@.subrange(i as int, i + p) =~= pat@);
    true
}

/// The text with every occurrence of a non-empty `pat` replaced by `rep`.
pub fn replace_all(s: &str, pat: &str, rep: &str) -> (out: String)
    requires
        pat@.len() > 0,
    ensures
        out@ == replaced(s@, pat@, rep@),
{
    let n = s.unicode_len();
    let p = pat.unicode_len();
    let mut out = String::new();
    let mut i: usize = 0;
    assert(s@.skip(0) =~= s@);
    while i < n
        invariant
            n == s@.len(),
            p == pat@.len(),
            p > 0,
            i <= n,
            out@ + replaced(s@.skip(i as int), pat@, rep@) == replaced(s@, pat@, rep@),
        decreases n - i,
    {
        let ghost rest = s@.skip(i as int);
        if n - i >= p && matches_at(s, pat, i) {
            assert(rest.take(p as int) =~= s@.subrange(i as int, i + p));
            assert(rest.skip(p as int) =~= s@.skip(i + p));
            assert(out@ + replaced(rest, pat@, rep@) =~= (out@ + rep@) + replaced(s@.skip(i + p), pat@, rep@));
            out.append(rep);
            i = i + p;
        } else {
            if n - i >= p {
                assert(rest.take(p as int) =~= s@.subrange(i as int, i + p));
            }
            assert(rest.skip(1) =~= s@.skip(i + 1));
            assert(out@ + replaced(rest, pat@, rep@) =~= out@.push(s@[i as int]) + replaced(s@.skip(i + 1), pat@, rep@));
            push_char(&mut out, s.get_char(i));
            i = i + 1;
        }
    }
    assert(s@.skip(n as int) =~= Seq::<char>::empty());
    assert(out@ + Seq::<char>::empty() =~= out@);
    out
}

/// Whether a character is an ASCII decimal digit.
pub open spec fn is_digit(c: char) -> bool {
    '0' <= c && c <= '9'
}

/// The number that a string of decimal digits writes.
pub open spec fn digits_value(d: Seq<char>) -> int
    decreases d.len(),
{
    if d.len() == 0 {
        0
    } else {
        digits_value(d.drop_last()) * 10 + ((d.last() as int) - ('0' as int))
    }
}

/// The digits of a number in text, after an optional leading '+'.
pub open spec fn unsigned_digits(s: Seq<char>) -> Seq<char> {
    if s.len() > 0 && s[0] == '+' {
        s.drop_first()
    } else {
        s
    }
}

/// Whether the text is an unsigned decimal number that fits in 64 bits, as `u64`'s
/// `FromStr` reads it: an optional '+', then at least one digit, nothing else.
pub open spec fn parses_as_u64(s: Seq<char>) -> bool {
    let d = unsigned_digits(s);
    &&& d.len() > 0
    &&& forall|i: int| 0 <= i < d.len() ==> is_digit(#[trigger] d[i])
    &&& digits_value(d) <= u64::MAX
}

/// The number the text writes.
pub open spec fn parsed_value(s: Seq<char>) -> int {
    digits_value(unsigned_digits(s))
}

proof fn lemma_digits_value_grows(d: Seq<char>, i: int, j: int)
    requires
        0 <= i <= j <= d.len(),
        forall|k: int| 0 <= k < j ==> is_digit(#[trigger] d[k]),
    ensures
        0 <= digits_value(d.take(i)) <= digits_value(d.take(j)),
    decreases j - i,
{
    if i < j {
        lemma_digits_value_grows(d, i, j - 1);
        assert(d.take(j).drop_last() =~= d.take(j - 1));
        assert(is_digit(d[j - 1]));
    } else {
        lemma_digits_value_nonneg(d.take(i));
    }
}

proof fn lemma_digits_value_nonneg(d: Seq<char>)
    requires
        forall|k: int| 0 <= k < d.len() ==> is_digit(#[trigger] d[k]),
    ensures
        0 <= digits_value(d),
    decreases d.len(),
{
    if d.len() > 0 {
        lemma_digits_value_nonneg(d.drop_last());
        assert(is_digit(d[d.len() - 1]));
    }
}

/// Reads an unsigned decimal number as `u64`'s `FromStr` does.
pub fn parse_u64(s: &str) -> (value: Option<u64>)
    ensures
        value is Some <==> parses_as_u64(s@),
        value matches Some(v) ==> v == parsed_value(s@),
{
    let len = s.unicode_len();
    let mut i: usize = 0;
    if len > 0 && s.get_char(0) == '+' {
        i = 1;
    }
    let first = i;
    let ghost d = unsigned_digits(s@);
    assert(d =~= s@.skip(first as int));
    if first == len {
        return None;
    }
    let mut value: u64 = 0;
    assert(d.take(0) =~= Seq::<char>::empty());
    while i < len
        invariant
            len == s@.len(),
            first <= i <= len,
            d =~= s@.skip(first as int),
            d == unsigned_digits(s@),
            value == digits_value(d.take(i - first)),
            forall|k: int| 0 <= k < i - first ==> is_digit(#[trigger] d[k]),
        decreases len - i,
    {
        let c = s.get_char(i);
        assert(d[i - first] == s@[i as int]);
        if c < '0' || c > '9' {
            assert(!is_digit(d[i - first]));
            return None;
        }
        let digit = (c as u32 - '0' as u32) as u64;
        proof {
            assert(d.take(i - first + 1).drop_last() =~= d.take(i - first));
        }
        match value.checked_mul(10) {
            Some(tens) => match tens.checked_add(digit) {
                Some(next) => {
                    value = next;
                },
                None => {
                    proof {
                        lemma_overflow_stays(d, i - first);
                    }
                    return None;
                },
            },
            None => {
                proof {
                    lemma_overflow_stays(d, i - first);
                }
                return None;
            },
        }
        i = i + 1;
    }
    assert(d.take(len - first) =~= d);
    Some(value)
}

proof fn lemma_overflow_stays(d: Seq<char>, k: int)
    requires
        0 <= k < d.len(),
        forall|j: int| 0 <= j <= k ==> is_digit(#[trigger] d[j]),
        digits_value(d.take(k)) * 10 + ((d[k] as int) - ('0' as int)) > u64::MAX,
    ensures
        (forall|j: int| 0 <= j < d.len() ==> is_digit(#[trigger] d[j])) ==> digits_value(d) > u64::MAX,
{
    if forall|j: int| 0 <= j < d.len() ==> is_digit(#[trigger] d[j]) {
        assert(d.take(k + 1).drop_last() =~= d.take(k));
        lemma_digits_value_grows(d, k + 1, d.len() as int);
        assert(d.take(d.len() as int) =~= d);
    }
}

/// The snake-case text in Pascal case: underscores go, and each letter that starts the
/// text or follows an underscore is made ASCII upper case.
pub open spec fn pascal_case(s: Seq<char>) -> Seq<char>
    decreases s.len(),
{
    if s.len() == 0 {
        Seq::empty()
    } else {
        let i = s.len() - 1;
        let before = pascal_case(s.drop_last());
        if s[i] == '_' {
            before
        } else if i == 0 || s[i - 1] == '_' {
            before.push(ascii_upper(s[i]))
        } else {
            before.push(s[i])
        }
    }
}

/// Pascal case holds no underscores.
pub proof fn lemma_pascal_case_has_no_underscores(s: Seq<char>)
    ensures
        !pascal_case(s).contains('_'),
    decreases s.len(),
{
    if s.len() > 0 {
        lemma_pascal_case_has_no_underscores(s.drop_last());
        let i = s.len() - 1;
        let before = pascal_case(s.drop_last());
        if s[i] != '_' {
            let c = if i == 0 || s[i - 1] == '_' { ascii_upper(s[i]) } else { s[i] };
            assert(c != '_');
            assert forall|k: int| 0 <= k < before.push(c).len() implies before.push(c)[k] != '_' by {
                if k < before.len() {
                    assert(before.push(c)[k] == before[k]);
                }
            }
        }
    }
}

/// Converts snake case to Pascal case, e.g. "arrow_clockwise" to "ArrowClockwise".
pub fn str_to_pascal_case(string: &str) -> (pascal: String)
    ensures
        pascal@ == pascal_case(string@),
{
    let mut pascal = String::new();
    let mut capitalize = true;
    let len = string.unicode_len();
    let mut i: usize = 0;
    assert(string@.take(0) =~= Seq::<char>::empty());
    while i < len
        invariant
            len == string@.len(),
            i <= len,
            pascal@ == pascal_case(string@.take(i as int)),
            capitalize == (i == 0 || string@[i - 1] == '_'),
        decreases len - i,
    {
        let character = string.get_char(i);
        proof {
            assert(string@.take(i + 1).drop_last() =~= string@.take(i as int));
        }
        if character == '_' {
            capitalize = true;
        } else if capitalize {
            push_char(&mut pascal, to_ascii_uppercase(character));
            capitalize = false;
        } else {
            push_char(&mut pascal, character);
        }
        i = i + 1;
    }
    assert(string@.take(len as int) =~= string@);
    pascal
}

} // verus!
