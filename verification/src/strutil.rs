//! Character-level string utilities: fixed-width truncation, decimal
//! rendering and parsing, whitespace trimming, substring search, and
//! lexicographic comparison.  Everything counts characters, not bytes.

use vstd::prelude::*;

verus! {

/// The character for a single decimal digit value.
pub open spec fn digit_char(d: nat) -> char {
    if d == 0 {
        '0'
    } else if d == 1 {
        '1'
    } else if d == 2 {
        '2'
    } else if d == 3 {
        '3'
    } else if d == 4 {
        '4'
    } else if d == 5 {
        '5'
    } else if d == 6 {
        '6'
    } else if d == 7 {
        '7'
    } else if d == 8 {
        '8'
    } else {
        '9'
    }
}

/// The usual decimal rendering of `n`, most significant digit first, no
/// leading zeros (a single `'0'` for zero).
pub open spec fn spec_dec_str(n: nat) -> Seq<char>
    decreases n,
{
    if n < 10 {
        seq![digit_char(n)]
    } else {
        spec_dec_str(n / 10).push(digit_char(n % 10))
    }
}

fn digit_str(d: u64) -> (r: &'static str)
    requires
        d < 10,
    ensures
        r@ == seq![digit_char(d as nat)],
{
    proof {
        reveal_strlit("0");
        reveal_strlit("1");
        reveal_strlit("2");
        reveal_strlit("3");
        reveal_strlit("4");
        reveal_strlit("5");
        reveal_strlit("6");
        reveal_strlit("7");
        reveal_strlit("8");
        reveal_strlit("9");
    }
    let r = match d {
        0 => "0",
        1 => "1",
        2 => "2",
        3 => "3",
        4 => "4",
        5 => "5",
        6 => "6",
        7 => "7",
        8 => "8",
        _ => "9",
    };
    proof {
        assert(r@ =~= seq![digit_char(d as nat)]);
    }
    r
}

/// Render `n` in decimal.
pub fn u64_to_string(n: u64) -> (r: String)
    ensures
        r@ == spec_dec_str(n as nat),
    decreases n,
{
    if n < 10 {
        digit_str(n).to_owned()
    } else {
        let mut r = u64_to_string(n / 10);
        r.append(digit_str(n % 10));
        proof {
            assert(r@ =~= spec_dec_str(n as nat));
        }
        r
    }
}

/// Whether `c` is a decimal digit.
pub open spec fn is_digit(c: char) -> bool {
    48 <= c as u32 <= 57
}

/// The value of a single digit character.
pub open spec fn digit_val(c: char) -> nat
    recommends
        is_digit(c),
{
    (c as u32 - 48) as nat
}

/// The value of a digit string, most significant digit first.
pub open spec fn spec_dec_val(s: Seq<char>) -> nat
    decreases s.len(),
{
    if s.len() == 0 {
        0
    } else {
        spec_dec_val(s.drop_last()) * 10 + digit_val(s.last())
    }
}

/// Whether `s` is a well-formed decimal numeral: non-empty and all digits.
pub open spec fn is_dec_numeral(s: Seq<char>) -> bool {
    s.len() > 0 && forall|i: int| 0 <= i < s.len() ==> is_digit(#[trigger] s[i])
}

proof fn lemma_dec_val_prefix_le(s: Seq<char>, i: int)
    requires
        0 <= i <= s.len(),
    ensures
        spec_dec_val(s.take(i)) <= spec_dec_val(s),
    decreases s.len() - i,
{
    if i < s.len() {
        assert(s.take(i + 1).drop_last() =~= s.take(i));
        assert(spec_dec_val(s.take(i + 1)) == spec_dec_val(s.take(i)) * 10 + digit_val(
            s.take(i + 1).last(),
        ));
        lemma_dec_val_prefix_le(s, i + 1);
    } else {
        assert(s.take(i) =~= s);
    }
}

/// Parse a decimal numeral.  Yields a value exactly when the whole string is
/// made of digits, is non-empty, and its value fits in a `u64`.
pub fn parse_u64(s: &str) -> (r: Option<u64>)
    ensures
        r is Some <==> is_dec_numeral(s@) && spec_dec_val(s@) <= u64::MAX,
        r is Some ==> r->0 as nat == spec_dec_val(s@),
{
    let len = s.unicode_len();
    if len == 0 {
        return None;
    }
    let mut acc: u64 = 0;
    let mut i: usize = 0;
    while i < len
        invariant
            0 <= i <= len,
            len == s@.len(),
            acc as nat == spec_dec_val(s@.take(i as int)),
            forall|k: int| 0 <= k < i ==> is_digit(#[trigger] s@[k]),
        decreases len - i,
    {
        let c = s.get_char(i);
        let u = c as u32;
        if u < 48 || u > 57 {
            assert(!is_dec_numeral(s@));
            return None;
        }
        let d = (u - 48) as u64;
        if acc > (u64::MAX - d) / 10 {
            proof {
                assert(s@.take(i + 1).drop_last() =~= s@.take(i as int));
                assert(spec_dec_val(s@.take(i + 1)) > u64::MAX);
                lemma_dec_val_prefix_le(s@, i + 1);
            }
            return None;
        }
        proof {
            assert(s@.take(i + 1).drop_last() =~= s@.take(i as int));
        }
        acc = acc * 10 + d;
        i = i + 1;
    }
    proof {
        assert(s@.take(len as int) =~= s@);
    }
    Some(acc)
}

/// Whether `c` is one of the whitespace characters these control files can
/// carry: space, tab, newline, carriage return.
pub open spec fn is_space(c: char) -> bool {
    c == ' ' || c == '\t' || c == '\n' || c == '\r'
}

fn is_space_char(c: char) -> (r: bool)
    ensures
        r == is_space(c),
{
    c == ' ' || c == '\t' || c == '\n' || c == '\r'
}

/// How many whitespace characters `s` starts with.
pub open spec fn ws_prefix(s: Seq<char>) -> nat
    decreases s.len(),
{
    if s.len() > 0 && is_space(s[0]) {
        ws_prefix(s.drop_first()) + 1
    } else {
        0
    }
}

/// How many whitespace characters `s` ends with.
pub open spec fn ws_suffix(s: Seq<char>) -> nat
    decreases s.len(),
{
    if s.len() > 0 && is_space(s.last()) {
        ws_suffix(s.drop_last()) + 1
    } else {
        0
    }
}

/// `s` with leading and trailing whitespace removed.
pub open spec fn spec_trim(s: Seq<char>) -> Seq<char> {
    if ws_prefix(s) == s.len() {
        Seq::empty()
    } else {
        s.subrange(ws_prefix(s) as int, s.len() - ws_suffix(s))
    }
}

proof fn lemma_ws_prefix_at(s: Seq<char>, i: int)
    requires
        0 <= i <= s.len(),
        forall|k: int| 0 <= k < i ==> is_space(#[trigger] s[k]),
        i == s.len() || !is_space(s[i]),
    ensures
        ws_prefix(s) == i,
    decreases i,
{
    if i == 0 {
    } else {
        let t = s.drop_first();
        assert(forall|k: int| 0 <= k < i - 1 ==> is_space(#[trigger] t[k]));
        lemma_ws_prefix_at(t, i - 1);
    }
}

proof fn lemma_ws_suffix_at(s: Seq<char>, b: int)
    requires
        0 <= b <= s.len(),
        forall|k: int| b <= k < s.len() ==> is_space(#[trigger] s[k]),
        b == 0 || !is_space(s[b - 1]),
    ensures
        ws_suffix(s) == s.len() - b,
    decreases s.len() - b,
{
    if b == s.len() {
    } else {
        let t = s.drop_last();
        assert(forall|k: int| b <= k < t.len() ==> is_space(#[trigger] t[k]));
        lemma_ws_suffix_at(t, b);
    }
}

/// Strip leading and trailing whitespace.
pub fn trim_str(s: &str) -> (r: String)
    ensures
        r@ == spec_trim(s@),
{
    let len = s.unicode_len();
    let mut a: usize = 0;
    while a < len && is_space_char(s.get_char(a))
        invariant
            0 <= a <= len,
            len == s@.len(),
            forall|k: int| 0 <= k < a ==> is_space(#[trigger] s@[k]),
        decreases len - a,
    {
        a = a + 1;
    }
    proof {
        lemma_ws_prefix_at(s@, a as int);
    }
    if a == len {
        let r = String::new();
        proof {
            assert(r@ =~= spec_trim(s@));
        }
        return r;
    }
    let mut b: usize = len;
    while b > a && is_space_char(s.get_char(b - 1))
        invariant
            a <= b <= len,
            len == s@.len(),
            forall|k: int| b <= k < len ==> is_space(#[trigger] s@[k]),
        decreases b,
    {
        b = b - 1;
    }
    proof {
        assert(!is_space(s@[a as int]));
        assert(b > a);
        lemma_ws_suffix_at(s@, b as int);
    }
    s.substring_char(a, b).to_owned()
}

/// Whether `sub` occurs in `s` starting at index `i`.
pub open spec fn contains_at(s: Seq<char>, sub: Seq<char>, i: int) -> bool {
    0 <= i && i + sub.len() <= s.len() && s.subrange(i, i + sub.len()) == sub
}

/// Whether `sub` occurs anywhere in `s` (always true for an empty `sub`).
pub open spec fn has_substring(s: Seq<char>, sub: Seq<char>) -> bool {
    exists|i: int| contains_at(s, sub, i)
}

/// Substring test.
pub fn str_contains(s: &str, sub: &str) -> (r: bool)
    ensures
        r == has_substring(s@, sub@),
{
    let len = s.unicode_len();
    let m = sub.unicode_len();
    if m > len {
        return false;
    }
    let mut i: usize = 0;
    while i <= len - m
        invariant
            0 <= i <= len - m + 1,
            m <= len,
            len == s@.len(),
            m == sub@.len(),
            forall|ii: int| 0 <= ii < i ==> !contains_at(s@, sub@, ii),
        decreases len - m + 1 - i,
    {
        let mut j: usize = 0;
        while j < m && s.get_char(i + j) == sub.get_char(j)
            invariant
                0 <= j <= m,
                m <= len,
                i <= len - m,
                len == s@.len(),
                m == sub@.len(),
                forall|k: int| 0 <= k < j ==> s@[i + k] == sub@[k],
            decreases m - j,
        {
            j = j + 1;
        }
        if j == m {
            proof {
                assert(s@.subrange(i as int, i + m as int) =~= sub@);
                assert(contains_at(s@, sub@, i as int));
            }
            return true;
        }
        proof {
            assert(s@.subrange(i as int, i + m as int)[j as int] != sub@[j as int]);
            assert(!contains_at(s@, sub@, i as int));
        }
        i = i + 1;
    }
    proof {
        assert forall|ii: int| !contains_at(s@, sub@, ii) by {
            if 0 <= ii && ii + sub@.len() <= s@.len() {
                assert(ii < i);
            }
        }
    }
    false
}

/// Lexicographic order on character sequences, by code point; a prefix sorts
/// before its extensions.  Since UTF-8 preserves code-point order, this
/// coincides with byte-wise comparison of the encoded strings.
pub open spec fn lex_le(a: Seq<char>, b: Seq<char>) -> bool
    decreases a.len(),
{
    if a.len() == 0 {
        true
    } else if b.len() == 0 {
        false
    } else if (a[0] as u32) < (b[0] as u32) {
        true
    } else if (b[0] as u32) < (a[0] as u32) {
        false
    } else {
        lex_le(a.drop_first(), b.drop_first())
    }
}

proof fn lemma_lex_le_skip(a: Seq<char>, b: Seq<char>, i: int)
    requires
        0 <= i <= a.len(),
        i <= b.len(),
        forall|k: int| 0 <= k < i ==> (#[trigger] a[k]) as u32 == b[k] as u32,
    ensures
        lex_le(a, b) == lex_le(a.skip(i), b.skip(i)),
    decreases i,
{
    if i > 0 {
        let a1 = a.drop_first();
        let b1 = b.drop_first();
        assert(forall|k: int| 0 <= k < i - 1 ==> (#[trigger] a1[k]) as u32 == b1[k] as u32);
        lemma_lex_le_skip(a1, b1, i - 1);
        assert(a.skip(i) =~= a1.skip(i - 1));
        assert(b.skip(i) =~= b1.skip(i - 1));
    } else {
        assert(a.skip(0) =~= a);
        assert(b.skip(0) =~= b);
    }
}

/// `lex_le` is total.
pub proof fn lemma_lex_le_total(a: Seq<char>, b: Seq<char>)
    ensures
        lex_le(a, b) || lex_le(b, a),
    decreases a.len(),
{
    if a.len() > 0 && b.len() > 0 && a[0] as u32 == b[0] as u32 {
        lemma_lex_le_total(a.drop_first(), b.drop_first());
    }
}

/// `lex_le` is transitive.
pub proof fn lemma_lex_le_trans(a: Seq<char>, b: Seq<char>, c: Seq<char>)
    requires
        lex_le(a, b),
        lex_le(b, c),
    ensures
        lex_le(a, c),
    decreases a.len(),
{
    if a.len() > 0 && b.len() > 0 && c.len() > 0 && a[0] as u32 == b[0] as u32 && b[0] as u32
        == c[0] as u32 {
        lemma_lex_le_trans(a.drop_first(), b.drop_first(), c.drop_first());
    }
}

/// Compare two strings in the order of `lex_le`.
pub fn str_le(a: &str, b: &str) -> (r: bool)
    ensures
        r == lex_le(a@, b@),
{
    let alen = a.unicode_len();
    let blen = b.unicode_len();
    let mut i: usize = 0;
    while i < alen && i < blen
        invariant
            0 <= i <= alen,
            i <= blen,
            alen == a@.len(),
            blen == b@.len(),
            forall|k: int| 0 <= k < i ==> (#[trigger] a@[k]) as u32 == b@[k] as u32,
        decreases alen - i,
    {
        let ca = a.get_char(i) as u32;
        let cb = b.get_char(i) as u32;
        if ca < cb {
            proof {
                lemma_lex_le_skip(a@, b@, i as int);
            }
            return true;
        }
        if cb < ca {
            proof {
                lemma_lex_le_skip(a@, b@, i as int);
            }
            return false;
        }
        i = i + 1;
    }
    proof {
        lemma_lex_le_skip(a@, b@, i as int);
    }
    i == alen
}

/// `n` spaces.
pub open spec fn spec_spaces(n: nat) -> Seq<char>
    decreases n,
{
    if n == 0 {
        Seq::empty()
    } else {
        spec_spaces((n - 1) as nat).push(' ')
    }
}

/// `s` padded on the right with spaces to `width` characters; a longer `s`
/// is returned unchanged.
pub open spec fn spec_pad_right(s: Seq<char>, width: nat) -> Seq<char> {
    if s.len() >= width {
        s
    } else {
        s + spec_spaces((width - s.len()) as nat)
    }
}

/// Right-pad a string with spaces to the given width.
pub fn pad_right(s: &str, width: usize) -> (r: String)
    ensures
        r@ == spec_pad_right(s@, width as nat),
{
    let len = s.unicode_len();
    let mut r = s.to_owned();
    if len >= width {
        return r;
    }
    let mut i: usize = len;
    while i < width
        invariant
            len <= i <= width,
            len == s@.len(),
            r@ == s@ + spec_spaces((i - len) as nat),
        decreases width - i,
    {
        r.append(" ");
        proof {
            reveal_strlit(" ");
            assert(r@ =~= s@ + spec_spaces((i + 1 - len) as nat));
        }
        i = i + 1;
    }
    r
}

/// What truncation to `limit` characters with a `suffix` yields: the string
/// itself when it is strictly shorter than `limit`, otherwise the first
/// `limit - suffix.len()` characters followed by the suffix.
pub open spec fn spec_trim_long(s: Seq<char>, limit: nat, suffix: Seq<char>) -> Seq<char>
    recommends
        suffix.len() < limit,
{
    if s.len() < limit {
        s
    } else {
        s.subrange(0, limit - suffix.len()) + suffix
    }
}

/// Trim a string to at most `limit` characters, appending `suffix` when a cut
/// was made.  Counts characters, not bytes.
pub fn trim_long_string(s: &str, limit: usize, suffix: &str) -> (r: String)
    requires
        suffix@.len() < limit,
    ensures
        r@ == spec_trim_long(s@, limit as nat, suffix@),
        r@.len() <= limit,
{
    let len = s.unicode_len();
    if len < limit {
        return s.to_owned();
    }
    let suffix_len = suffix.unicode_len();
    let keep = limit - suffix_len;
    let prefix = s.substring_char(0, keep);
    let mut r = prefix.to_owned();
    r.append(suffix);
    r
}

/// Truncation is idempotent: trimming an already-trimmed string changes
/// nothing.
pub proof fn lemma_trim_long_idempotent(s: Seq<char>, limit: nat, suffix: Seq<char>)
    requires
        suffix.len() < limit,
    ensures
        spec_trim_long(spec_trim_long(s, limit, suffix), limit, suffix) == spec_trim_long(
            s,
            limit,
            suffix,
        ),
{
    if s.len() >= limit {
        let once = spec_trim_long(s, limit, suffix);
        assert(once.len() == limit);
        assert(spec_trim_long(once, limit, suffix) =~= once);
    }
}

} // verus!
