//! Character-level helpers shared by the field extractor: decimal digits,
//! whitespace, trimming and string building.

use vstd::prelude::*;

verus! {

/// The text of each fragment.
pub open spec fn texts(v: Seq<String>) -> Seq<Seq<char>> {
    v.map_values(|s: String| s@)
}

/// An ASCII decimal digit.
pub open spec fn is_digit(c: char) -> bool {
    '0' <= c && c <= '9'
}

/// The value of an ASCII decimal digit.
pub open spec fn digit_value(c: char) -> nat {
    (c as u32 - '0' as u32) as nat
}

/// The character of a decimal digit `d < 10`.
pub open spec fn digit_char(d: nat) -> char {
    if d == 0 { '0' }
    else if d == 1 { '1' }
    else if d == 2 { '2' }
    else if d == 3 { '3' }
    else if d == 4 { '4' }
    else if d == 5 { '5' }
    else if d == 6 { '6' }
    else if d == 7 { '7' }
    else if d == 8 { '8' }
    else { '9' }
}

/// The number that a string of decimal digits denotes (most significant first).
pub open spec fn decimal_value(s: Seq<char>) -> nat
    decreases s.len(),
{
    if s.len() == 0 {
        0
    } else {
        decimal_value(s.drop_last()) * 10 + digit_value(s.last())
    }
}

/// The shortest decimal rendering of `n`, without leading zeros.
pub open spec fn decimal(n: nat) -> Seq<char>
    decreases n,
{
    if n < 10 {
        seq![digit_char(n)]
    } else {
        decimal(n / 10).push(digit_char(n % 10))
    }
}

/// `s` with every hyphen removed.
pub open spec fn strip_dashes(s: Seq<char>) -> Seq<char> {
    s.filter(|c: char| c != '-')
}

/// The unsigned integer that a run of digits and hyphens stands for once its
/// hyphens are removed; `None` when no digit is left or the value does not fit.
pub open spec fn number_of(run: Seq<char>) -> Option<usize> {
    let digits = strip_dashes(run);
    if digits.len() > 0 && (forall|k: int| 0 <= k < digits.len() ==> is_digit(#[trigger] digits[k]))
        && decimal_value(digits) <= usize::MAX {
        Some(decimal_value(digits) as usize)
    } else {
        None
    }
}

proof fn lemma_strip_dashes_step(s: Seq<char>, i: int)
    requires
        0 <= i < s.len(),
    ensures
        strip_dashes(s.subrange(0, i + 1)) == if s[i] != '-' {
            strip_dashes(s.subrange(0, i)).push(s[i])
        } else {
            strip_dashes(s.subrange(0, i))
        },
{
    let t = s.subrange(0, i + 1);
    assert(t.drop_last() =~= s.subrange(0, i));
    assert(t.last() == s[i]);
    reveal_with_fuel(Seq::filter, 1);
    assert(t.filter(|c: char| c != '-') == if t.last() != '-' {
        t.drop_last().filter(|c: char| c != '-').push(t.last())
    } else {
        t.drop_last().filter(|c: char| c != '-')
    });
}

proof fn lemma_decimal_value_monotone(s: Seq<char>, i: int, j: int)
    requires
        0 <= i <= j <= s.len(),
    ensures
        decimal_value(strip_dashes(s.subrange(0, i))) <= decimal_value(
            strip_dashes(s.subrange(0, j)),
        ),
    decreases j - i,
{
    if i < j {
        lemma_decimal_value_monotone(s, i, j - 1);
        lemma_strip_dashes_step(s, j - 1);
        let d = strip_dashes(s.subrange(0, j - 1));
        if s[j - 1] != '-' {
            assert(d.push(s[j - 1]).drop_last() =~= d);
        }
    }
}

/// Reads a run of digits and hyphens as an unsigned integer, ignoring the
/// hyphens.
pub fn parse_number(s: &str) -> (r: Option<usize>)
    ensures
        r == number_of(s@),
{
    let n = s.unicode_len();
    let mut value: usize = 0;
    let mut count: usize = 0;
    let mut i: usize = 0;
    while i < n
        invariant
            n == s@.len(),
            0 <= i <= n,
            forall|k: int|
                0 <= k < strip_dashes(s@.subrange(0, i as int)).len() ==> is_digit(
                    #[trigger] strip_dashes(s@.subrange(0, i as int))[k],
                ),
            value == decimal_value(strip_dashes(s@.subrange(0, i as int))),
            count as nat == strip_dashes(s@.subrange(0, i as int)).len(),
            count <= i,
        decreases n - i,
    {
        let c = s.get_char(i);
        proof {
            lemma_strip_dashes_step(s@, i as int);
        }
        if c != '-' && !('0' <= c && c <= '9') {
            proof {
                assert(s@[i as int] == c);
                assert(s@.contains(c));
                let pred = |x: char| x != '-';
                s@.lemma_filter_contains_rev(pred, c);
                let stripped = strip_dashes(s@);
                assert(stripped == s@.filter(pred));
                assert(stripped.contains(c));
                let k = choose|k: int| 0 <= k < stripped.len() && stripped[k] == c;
                assert(!is_digit(stripped[k]));
            }
            return None;
        }
        if c != '-' {
            let d = (c as u32 - '0' as u32) as usize;
            let ghost prefix = strip_dashes(s@.subrange(0, i as int));
            proof {
                assert(prefix.push(c).drop_last() =~= prefix);
            }
            let scaled = value.checked_mul(10);
            let next = match scaled {
                Some(v) => v.checked_add(d),
                None => None,
            };
            match next {
                Some(v) => {
                    value = v;
                    count = count + 1;
                },
                None => {
                    proof {
                        lemma_decimal_value_monotone(s@, i as int + 1, n as int);
                        assert(s@.subrange(0, n as int) =~= s@);
                    }
                    return None;
                },
            }
        }
        i = i + 1;
    }
    proof {
        assert(s@.subrange(0, n as int) =~= s@);
    }
    if count == 0 {
        None
    } else {
        Some(value)
    }
}

/// The decimal rendering of `n`, left-padded with zeros to at least `width`
/// characters.
pub open spec fn zero_padded(n: nat, width: nat) -> Seq<char> {
    let d = decimal(n);
    if d.len() < width {
        Seq::new((width - d.len()) as nat, |i: int| '0') + d
    } else {
        d
    }
}

fn digit_str(d: usize) -> (r: &'static str)
    requires
        d < 10,
    ensures
        r@ == seq![digit_char(d as nat)],
{
    proof {
        reveal_strlit("0");
        reveal_strlit("1");
        reveal_strlit("2");
        reveal_strlit("3");
        reveal_strlit("4");
        reveal_strlit("5");
        reveal_strlit("6");
        reveal_strlit("7");
        reveal_strlit("8");
        reveal_strlit("9");
    }
    if d == 0 {
        "0"
    } else if d == 1 {
        "1"
    } else if d == 2 {
        "2"
    } else if d == 3 {
        "3"
    } else if d == 4 {
        "4"
    } else if d == 5 {
        "5"
    } else if d == 6 {
        "6"
    } else if d == 7 {
        "7"
    } else if d == 8 {
        "8"
    } else {
        "9"
    }
}

/// Renders `n` in decimal.
pub fn decimal_string(n: usize) -> (r: String)
    ensures
        r@ == decimal(n as nat),
    decreases n,
{
    if n < 10 {
        digit_str(n).to_owned()
    } else {
        let mut s = decimal_string(n / 10);
        s.append(digit_str(n % 10));
        s
    }
}

/// Renders `n` in decimal, left-padded with zeros to `width` characters.
pub fn zero_padded_string(n: usize, width: usize) -> (r: String)
    ensures
        r@ == zero_padded(n as nat, width as nat),
{
    let d = decimal_string(n);
    let len = d.as_str().unicode_len();
    let mut s = String::new();
    if len < width {
        let fill = width - len;
        let mut k: usize = 0;
        while k < fill
            invariant
                k <= fill,
                s@ =~= Seq::new(k as nat, |i: int| '0'),
            decreases fill - k,
        {
            proof {
                reveal_strlit("0");
            }
            s.append("0");
            k = k + 1;
        }
    }
    s.append(d.as_str());
    s
}

/// Character-wise equality of two strings.
pub fn str_eq(a: &str, b: &str) -> (r: bool)
    ensures
        r == (a@ == b@),
{
    let n = a.unicode_len();
    if n != b.unicode_len() {
        return false;
    }
    let mut i: usize = 0;
    while i < n
        invariant
            n == a@.len() == b@.len(),
            i <= n,
            forall|k: int| 0 <= k < i ==> a@[k] == b@[k],
        decreases n - i,
    {
        if a.get_char(i) != b.get_char(i) {
            return false;
        }
        i = i + 1;
    }
    proof {
        assert(a@ =~= b@);
    }
    true
}

/// The first `" - "` separator of `s` at or after `from`.
pub open spec fn find_separator(s: Seq<char>, from: int) -> Option<int>
    decreases s.len() - from,
{
    if from < 0 || from + 3 > s.len() {
        None
    } else if s[from] == ' ' && s[from + 1] == '-' && s[from + 2] == ' ' {
        Some(from)
    } else {
        find_separator(s, from + 1)
    }
}

/// The first position of `c` in `s[from..to]`, or `to` when there is none.
pub open spec fn find_char(s: Seq<char>, c: char, from: int, to: int) -> int
    decreases to - from,
{
    if from >= to {
        to
    } else if s[from] == c {
        from
    } else {
        find_char(s, c, from + 1, to)
    }
}

/// Unicode White_Space, the whitespace that `str::trim` removes.
pub open spec fn is_white_space(c: char) -> bool {
    ('\t' <= c && c <= '\r') || c == ' ' || c == '\u{85}' || c == '\u{a0}' || c == '\u{1680}' || (
    '\u{2000}' <= c && c <= '\u{200a}') || c == '\u{2028}' || c == '\u{2029}' || c == '\u{202f}'
        || c == '\u{205f}' || c == '\u{3000}'
}

/// `s` without its leading whitespace.
pub open spec fn trim_front(s: Seq<char>) -> Seq<char>
    decreases s.len(),
{
    if s.len() > 0 && is_white_space(s[0]) {
        trim_front(s.drop_first())
    } else {
        s
    }
}

/// `s` without its trailing whitespace.
pub open spec fn trim_back(s: Seq<char>) -> Seq<char>
    decreases s.len(),
{
    if s.len() > 0 && is_white_space(s.last()) {
        trim_back(s.drop_last())
    } else {
        s
    }
}

/// `s` without leading and trailing whitespace.
pub open spec fn trimmed(s: Seq<char>) -> Seq<char> {
    trim_back(trim_front(s))
}

fn white_space(c: char) -> (r: bool)
    ensures
        r == is_white_space(c),
{
    ('\t' <= c && c <= '\r') || c == ' ' || c == '\u{85}' || c == '\u{a0}' || c == '\u{1680}' || (
    '\u{2000}' <= c && c <= '\u{200a}') || c == '\u{2028}' || c == '\u{2029}' || c == '\u{202f}'
        || c == '\u{205f}' || c == '\u{3000}'
}

/// Finds the first `" - "` separator of `s` at or after `from`.
pub fn separator_at_or_after(s: &str, from: usize) -> (r: Option<usize>)
    ensures
        match find_separator(s@, from as int) {
            Some(i) => r is Some && r->0 as int == i,
            None => r is None,
        },
        r matches Some(i) ==> from <= i && i + 3 <= s@.len(),
{
    let n = s.unicode_len();
    let mut i = from;
    while i <= n && n - i >= 3
        invariant
            n == s@.len(),
            from <= i,
            find_separator(s@, from as int) == find_separator(s@, i as int),
        decreases n - i,
    {
        if s.get_char(i) == ' ' && s.get_char(i + 1) == '-' && s.get_char(i + 2) == ' ' {
            return Some(i);
        }
        i = i + 1;
    }
    None
}

/// Finds the first `c` in `s[from..to]`, or `to` when there is none.
pub fn char_position(s: &str, c: char, from: usize, to: usize) -> (r: usize)
    requires
        from <= to <= s@.len(),
    ensures
        r as int == find_char(s@, c, from as int, to as int),
        from <= r <= to,
{
    let mut i = from;
    while i < to
        invariant
            to <= s@.len(),
            from <= i <= to,
            find_char(s@, c, from as int, to as int) == find_char(s@, c, i as int, to as int),
        decreases to - i,
    {
        if s.get_char(i) == c {
            return i;
        }
        i = i + 1;
    }
    i
}

/// The bounds of `s[from..to]` once leading and trailing whitespace are removed.
pub fn trim_bounds(s: &str, from: usize, to: usize) -> (r: (usize, usize))
    requires
        from <= to <= s@.len(),
    ensures
        from <= r.0 <= r.1 <= to,
        s@.subrange(r.0 as int, r.1 as int) == trimmed(s@.subrange(from as int, to as int)),
{
    let mut lo = from;
    while lo < to && white_space(s.get_char(lo))
        invariant
            to <= s@.len(),
            from <= lo <= to,
            trim_front(s@.subrange(from as int, to as int)) == trim_front(
                s@.subrange(lo as int, to as int),
            ),
        decreases to - lo,
    {
        assert(s@.subrange(lo as int, to as int).drop_first() =~= s@.subrange(
            lo + 1,
            to as int,
        ));
        lo = lo + 1;
    }
    assert(trim_front(s@.subrange(lo as int, to as int)) == s@.subrange(lo as int, to as int));
    let mut hi = to;
    while hi > lo && white_space(s.get_char(hi - 1))
        invariant
            to <= s@.len(),
            from <= lo <= hi <= to,
            trimmed(s@.subrange(from as int, to as int)) == trim_back(
                s@.subrange(lo as int, hi as int),
            ),
        decreases hi - lo,
    {
        assert(s@.subrange(lo as int, hi as int).drop_last() =~= s@.subrange(
            lo as int,
            hi - 1,
        ));
        hi = hi - 1;
    }
    (lo, hi)
}

} // verus!
