//! Character-sequence helpers: decimal numerals, ASCII case maps,
//! Unicode whitespace trimming and upper-casing.

use vstd::prelude::*;

verus! {

/// The decimal digit character for `d` (`0 <= d < 10`).
pub open spec fn digit_char(d: int) -> char {
    if d == 0 { '0' }
    else if d == 1 { '1' }
    else if d == 2 { '2' }
    else if d == 3 { '3' }
    else if d == 4 { '4' }
    else if d == 5 { '5' }
    else if d == 6 { '6' }
    else if d == 7 { '7' }
    else if d == 8 { '8' }
    else { '9' }
}

/// Decimal numeral of a natural number, most significant digit first, no
/// leading zeros.
pub open spec fn dec_nat(n: nat) -> Seq<char>
    decreases n,
{
    if n < 10 {
        seq![digit_char(n as int)]
    } else {
        dec_nat(n / 10).push(digit_char((n % 10) as int))
    }
}

/// Decimal numeral of an integer, as Rust's `Display` writes it.
pub open spec fn dec(n: int) -> Seq<char> {
    if n < 0 {
        seq!['-'] + dec_nat((-n) as nat)
    } else {
        dec_nat(n as nat)
    }
}

/// Appends one character to a `String` (`String::push`).
#[verifier::external_body]
pub(crate) fn push_char(s: &mut String, c: char)
    ensures
        final(s)@ == old(s)@.push(c),
{
    s.push(c);
}

fn digit(d: u64) -> (c: char)
    requires
        d < 10,
    ensures
        c == digit_char(d as int),
{
    if d == 0 { '0' }
    else if d == 1 { '1' }
    else if d == 2 { '2' }
    else if d == 3 { '3' }
    else if d == 4 { '4' }
    else if d == 5 { '5' }
    else if d == 6 { '6' }
    else if d == 7 { '7' }
    else if d == 8 { '8' }
    else { '9' }
}

/// Appends the decimal numeral of `n`.
pub fn push_decimal_u64(s: &mut String, n: u64)
    ensures
        final(s)@ == old(s)@ + dec_nat(n as nat),
    decreases n,
{
    if n >= 10 {
        push_decimal_u64(s, n / 10);
    }
    push_char(s, digit(n % 10));
    proof {
        assert(old(s)@ + dec_nat(n as nat) == final(s)@) by {
            if n >= 10 {
                assert(dec_nat(n as nat) == dec_nat((n / 10) as nat).push(digit_char((n % 10) as int)));
            }
        }
    }
}

/// Appends the decimal numeral of `n` (as `i64`'s `Display` writes it).
pub fn push_decimal(s: &mut String, n: i64)
    ensures
        final(s)@ == old(s)@ + dec(n as int),
{
    if n < 0 {
        push_char(s, '-');
        let m: u64 = ((-(n + 1)) as u64) + 1;
        push_decimal_u64(s, m);
        assert(final(s)@ =~= old(s)@ + dec(n as int));
    } else {
        push_decimal_u64(s, n as u64);
    }
}

/// Decimal numeral of a signed 64-bit integer (`i64::to_string`).
pub fn decimal_i64(n: i64) -> (r: String)
    ensures
        r@ == dec(n as int),
{
    let mut s = String::new();
    push_decimal(&mut s, n);
    assert(s@ =~= dec(n as int));
    s
}

/// Unicode `White_Space` property, the set `char::is_whitespace` tests.
pub open spec fn is_white_space(c: char) -> bool {
    let u = c as u32;
    ||| 9 <= u <= 13
    ||| u == 32
    ||| u == 0x85
    ||| u == 0xA0
    ||| u == 0x1680
    ||| 0x2000 <= u <= 0x200A
    ||| u == 0x2028
    ||| u == 0x2029
    ||| u == 0x202F
    ||| u == 0x205F
    ||| u == 0x3000
}

/// Number of whitespace characters at the start of `s`.
pub open spec fn leading_ws(s: Seq<char>) -> nat
    decreases s.len(),
{
    if s.len() > 0 && is_white_space(s[0]) {
        1 + leading_ws(s.drop_first())
    } else {
        0
    }
}

/// Number of whitespace characters at the end of `s`.
pub open spec fn trailing_ws(s: Seq<char>) -> nat
    decreases s.len(),
{
    if s.len() > 0 && is_white_space(s.last()) {
        1 + trailing_ws(s.drop_last())
    } else {
        0
    }
}

/// `s` without its leading and trailing whitespace (`str::trim`).
pub open spec fn trimmed(s: Seq<char>) -> Seq<char> {
    if leading_ws(s) >= s.len() {
        Seq::empty()
    } else {
        s.subrange(leading_ws(s) as int, s.len() - trailing_ws(s))
    }
}

/// Upper case of an ASCII letter; every other character is unchanged.
pub open spec fn ascii_upper_char(c: char) -> char {
    if 97 <= (c as u32) <= 122 {
        ((c as u32) - 32) as char
    } else {
        c
    }
}

/// Lower case of an ASCII letter; every other character is unchanged.
pub open spec fn ascii_lower_char(c: char) -> char {
    if 65 <= (c as u32) <= 90 {
        ((c as u32) + 32) as char
    } else {
        c
    }
}

pub open spec fn ascii_upper(s: Seq<char>) -> Seq<char> {
    Seq::new(s.len(), |i: int| ascii_upper_char(s[i]))
}

pub open spec fn ascii_lower(s: Seq<char>) -> Seq<char> {
    Seq::new(s.len(), |i: int| ascii_lower_char(s[i]))
}

/// What `str::to_uppercase` returns for a string that is not all ASCII:
/// the Unicode full upper-case mapping of each character, concatenated.
pub uninterp spec fn unicode_uppercase(s: Seq<char>) -> Seq<char>;

/// Upper case of `s` as `str::to_uppercase` computes it.
pub open spec fn uppercase(s: Seq<char>) -> Seq<char> {
    if vstd::utf8::is_ascii_chars(s) {
        ascii_upper(s)
    } else {
        unicode_uppercase(s)
    }
}

/// `str::trim`: drops the leading and trailing characters whose Unicode
/// property is `White_Space`.
#[verifier::external_body]
pub(crate) fn trim_str(s: &str) -> (r: &str)
    ensures
        r@ == trimmed(s@),
{
    s.trim()
}

/// `str::to_uppercase`. Claims that on ASCII input it upper-cases exactly
/// the letters `a`..`z`, and that on other input the result is a function
/// of the input; that mapping is left unsaid.
#[verifier::external_body]
pub(crate) fn to_uppercase(s: &str) -> (r: String)
    ensures
        r@ == uppercase(s@),
        vstd::utf8::is_ascii_chars(s@) ==> r@ == ascii_upper(s@),
        !vstd::utf8::is_ascii_chars(s@) ==> r@ == unicode_uppercase(s@),
{
    s.to_uppercase()
}

/// All characters of `s` are whitespace.
pub open spec fn all_white_space(s: Seq<char>) -> bool {
    forall|i: int| 0 <= i < s.len() ==> is_white_space(#[trigger] s[i])
}

pub proof fn lemma_leading_ws_bound(s: Seq<char>)
    ensures
        leading_ws(s) <= s.len(),
        leading_ws(s) == s.len() <==> all_white_space(s),
        forall|i: int| 0 <= i < leading_ws(s) ==> is_white_space(#[trigger] s[i]),
        leading_ws(s) < s.len() ==> !is_white_space(s[leading_ws(s) as int]),
    decreases s.len(),
{
    if s.len() > 0 {
        lemma_leading_ws_bound(s.drop_first());
        if is_white_space(s[0]) {
            assert forall|i: int| 0 <= i < leading_ws(s) implies is_white_space(#[trigger] s[i]) by {
                if i > 0 {
                    assert(s[i] == s.drop_first()[i - 1]);
                }
            }
            if all_white_space(s.drop_first()) {
                assert forall|i: int| 0 <= i < s.len() implies is_white_space(#[trigger] s[i]) by {
                    if i > 0 {
                        assert(s[i] == s.drop_first()[i - 1]);
                    }
                }
            }
            if all_white_space(s) {
                assert forall|i: int| 0 <= i < s.drop_first().len() implies is_white_space(
                    #[trigger] s.drop_first()[i],
                ) by {
                    assert(s.drop_first()[i] == s[i + 1]);
                }
            }
        }
    }
}

pub proof fn lemma_trailing_ws_bound(s: Seq<char>)
    ensures
        trailing_ws(s) <= s.len(),
        trailing_ws(s) == s.len() <==> all_white_space(s),
        forall|i: int| s.len() - trailing_ws(s) <= i < s.len() ==> is_white_space(#[trigger] s[i]),
    decreases s.len(),
{
    if s.len() > 0 {
        lemma_trailing_ws_bound(s.drop_last());
        if is_white_space(s.last()) {
            assert forall|i: int| s.len() - trailing_ws(s) <= i < s.len() implies is_white_space(#[trigger] s[i]) by {
                if i < s.len() - 1 {
                    assert(s[i] == s.drop_last()[i]);
                }
            }
            if all_white_space(s.drop_last()) {
                assert forall|i: int| 0 <= i < s.len() implies is_white_space(#[trigger] s[i]) by {
                    if i < s.len() - 1 {
                        assert(s[i] == s.drop_last()[i]);
                    }
                }
            }
            if all_white_space(s) {
                assert forall|i: int| 0 <= i < s.drop_last().len() implies is_white_space(
                    #[trigger] s.drop_last()[i],
                ) by {
                    assert(s.drop_last()[i] == s[i]);
                }
            }
        } else {
            assert(!all_white_space(s)) by {
                assert(!is_white_space(s[s.len() - 1]));
            }
        }
    }
}

/// Whitespace in front of a string adds to its leading whitespace.
proof fn lemma_leading_ws_prefix(a: Seq<char>, t: Seq<char>)
    requires
        all_white_space(a),
    ensures
        leading_ws(a + t) == a.len() + leading_ws(t),
    decreases a.len(),
{
    if a.len() > 0 {
        assert((a + t)[0] == a[0]);
        assert((a + t).drop_first() =~= a.drop_first() + t);
        lemma_leading_ws_prefix(a.drop_first(), t);
    } else {
        assert(a + t =~= t);
    }
}

/// Text after a non-whitespace character does not change the leading
/// whitespace.
proof fn lemma_leading_ws_suffix(s: Seq<char>, b: Seq<char>)
    requires
        !all_white_space(s),
    ensures
        leading_ws(s + b) == leading_ws(s),
    decreases s.len(),
{
    assert(s.len() > 0);
    assert((s + b)[0] == s[0]);
    if is_white_space(s[0]) {
        assert((s + b).drop_first() =~= s.drop_first() + b);
        assert(!all_white_space(s.drop_first())) by {
            let i = choose|i: int| 0 <= i < s.len() && !is_white_space(#[trigger] s[i]);
            assert(s.drop_first()[i - 1] == s[i]);
        }
        lemma_leading_ws_suffix(s.drop_first(), b);
    }
}

proof fn lemma_trailing_ws_suffix(t: Seq<char>, b: Seq<char>)
    requires
        all_white_space(b),
    ensures
        trailing_ws(t + b) == b.len() + trailing_ws(t),
    decreases b.len(),
{
    if b.len() > 0 {
        assert((t + b).last() == b.last());
        assert(is_white_space(b[b.len() - 1]));
        assert((t + b).drop_last() =~= t + b.drop_last());
        lemma_trailing_ws_suffix(t, b.drop_last());
    } else {
        assert(t + b =~= t);
    }
}

proof fn lemma_trailing_ws_prefix(a: Seq<char>, s: Seq<char>)
    requires
        !all_white_space(s),
    ensures
        trailing_ws(a + s) == trailing_ws(s),
    decreases s.len(),
{
    assert(s.len() > 0);
    assert((a + s).last() == s.last());
    if is_white_space(s.last()) {
        assert((a + s).drop_last() =~= a + s.drop_last());
        assert(!all_white_space(s.drop_last())) by {
            let i = choose|i: int| 0 <= i < s.len() && !is_white_space(#[trigger] s[i]);
            assert(i != s.len() - 1);
            assert(s.drop_last()[i] == s[i]);
        }
        lemma_trailing_ws_prefix(a, s.drop_last());
    }
}

/// Trimming ignores whitespace added around a string.
pub proof fn lemma_trimmed_padding(a: Seq<char>, s: Seq<char>, b: Seq<char>)
    requires
        all_white_space(a),
        all_white_space(b),
    ensures
        trimmed(a + s + b) == trimmed(s),
{
    let w = a + s + b;
    lemma_leading_ws_bound(s);
    lemma_leading_ws_bound(w);
    lemma_trailing_ws_bound(s);
    lemma_trailing_ws_bound(w);
    if all_white_space(s) {
        assert forall|i: int| 0 <= i < w.len() implies is_white_space(#[trigger] w[i]) by {
            if i < a.len() {
                assert(w[i] == a[i]);
            } else if i < a.len() + s.len() {
                assert(w[i] == s[i - a.len()]);
            } else {
                assert(w[i] == b[i - a.len() - s.len()]);
            }
        }
    } else {
        assert(w =~= a + (s + b));
        lemma_leading_ws_prefix(a, s + b);
        lemma_leading_ws_suffix(s, b);
        assert(w =~= (a + s) + b);
        lemma_trailing_ws_suffix(a + s, b);
        lemma_trailing_ws_prefix(a, s);
        lemma_leading_ws_no_overlap(s);
        assert(!all_white_space(w)) by {
            let i = choose|i: int| 0 <= i < s.len() && !is_white_space(#[trigger] s[i]);
            assert(w[a.len() + i] == s[i]);
        }
        assert(w.subrange(leading_ws(w) as int, w.len() - trailing_ws(w)) =~= s.subrange(
            leading_ws(s) as int,
            s.len() - trailing_ws(s),
        ));
    }
}

/// Trimming a trimmed string changes nothing.
pub proof fn lemma_trimmed_idempotent(s: Seq<char>)
    ensures
        trimmed(trimmed(s)) == trimmed(s),
{
    lemma_leading_ws_bound(s);
    lemma_trailing_ws_bound(s);
    if leading_ws(s) < s.len() {
        assert(!all_white_space(s));
        lemma_leading_ws_no_overlap(s);
        let lw = leading_ws(s) as int;
        let tw = trailing_ws(s) as int;
        let a = s.subrange(0, lw);
        let t = s.subrange(lw, s.len() - tw);
        let b = s.subrange(s.len() - tw, s.len() as int);
        assert forall|i: int| 0 <= i < a.len() implies is_white_space(#[trigger] a[i]) by {
            assert(a[i] == s[i]);
        }
        assert forall|i: int| 0 <= i < b.len() implies is_white_space(#[trigger] b[i]) by {
            assert(b[i] == s[s.len() - tw + i]);
        }
        assert(s =~= a + t + b);
        lemma_trimmed_padding(a, t, b);
        assert(trimmed(s) == t);
    } else {
        assert(trimmed(s) =~= Seq::<char>::empty());
        assert(trimmed(Seq::<char>::empty()) =~= Seq::<char>::empty());
    }
}

proof fn lemma_upper_keeps_ws(c: char)
    ensures
        is_white_space(ascii_upper_char(c)) == is_white_space(c),
{
}

pub proof fn lemma_ascii_upper_ws(s: Seq<char>)
    ensures
        leading_ws(ascii_upper(s)) == leading_ws(s),
        trailing_ws(ascii_upper(s)) == trailing_ws(s),
    decreases s.len(),
{
    if s.len() > 0 {
        lemma_upper_keeps_ws(s[0]);
        lemma_upper_keeps_ws(s.last());
        assert(ascii_upper(s).drop_first() =~= ascii_upper(s.drop_first()));
        assert(ascii_upper(s).drop_last() =~= ascii_upper(s.drop_last()));
        lemma_ascii_upper_ws(s.drop_first());
        lemma_ascii_upper_ws(s.drop_last());
    }
}

/// Upper-casing ASCII letters and trimming whitespace commute.
pub proof fn lemma_trimmed_ascii_upper(s: Seq<char>)
    ensures
        trimmed(ascii_upper(s)) == ascii_upper(trimmed(s)),
{
    lemma_ascii_upper_ws(s);
    lemma_leading_ws_bound(s);
    lemma_trailing_ws_bound(s);
    if leading_ws(s) < s.len() {
        assert(!all_white_space(s));
        assert(leading_ws(s) + trailing_ws(s) <= s.len()) by {
            lemma_leading_ws_no_overlap(s);
        }
    }
    assert(trimmed(ascii_upper(s)) =~= ascii_upper(trimmed(s)));
}

pub proof fn lemma_leading_ws_no_overlap(s: Seq<char>)
    requires
        !all_white_space(s),
    ensures
        leading_ws(s) + trailing_ws(s) <= s.len(),
    decreases s.len(),
{
    lemma_leading_ws_bound(s);
    if is_white_space(s.last()) {
        assert(!all_white_space(s.drop_last())) by {
            let i = choose|i: int| 0 <= i < s.len() && !is_white_space(#[trigger] s[i]);
            assert(i != s.len() - 1);
            assert(s.drop_last()[i] == s[i]);
        }
        lemma_leading_ws_no_overlap(s.drop_last());
        lemma_leading_ws_suffix(s.drop_last(), seq![s.last()]);
        assert(s.drop_last() + seq![s.last()] =~= s);
    }
}

/// Character-wise equality of two strings.
pub fn str_eq(a: &str, b: &str) -> (r: bool)
    ensures
        r == (a@ == b@),
{
    let n = a.unicode_len();
    if n != b.unicode_len() {
        return false;
    }
    let mut i: usize = 0;
    while i < n
        invariant
            n == a@.len(),
            n == b@.len(),
            i <= n,
            forall|j: int| 0 <= j < i ==> a@[j] == b@[j],
        decreases n - i,
    {
        if a.get_char(i) != b.get_char(i) {
            return false;
        }
        i += 1;
    }
    assert(a@ =~= b@);
    true
}

/// ASCII lower case of `s` (non-ASCII characters unchanged).
pub fn ascii_lowercase(s: &str) -> (r: String)
    ensures
        r@ == ascii_lower(s@),
{
    let n = s.unicode_len();
    let mut out = String::new();
    let mut i: usize = 0;
    while i < n
        invariant
            n == s@.len(),
            i <= n,
            out@ =~= ascii_lower(s@).subrange(0, i as int),
        decreases n - i,
    {
        let c = s.get_char(i);
        let u = c as u32;
        let l = if 65 <= u && u <= 90 { ((u + 32) as u8) as char } else { c };
        push_char(&mut out, l);
        i += 1;
    }
    assert(out@ =~= ascii_lower(s@));
    out
}

} // verus!
