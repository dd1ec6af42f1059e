//! Character-level text operations with their specifications.

use vstd::prelude::*;

verus! {

/// Appends one character to a `String` (`String::push`).
#[verifier::external_body]
pub(crate) fn push_char(s: &mut String, c: char)
    ensures
        final(s)@ == old(s)@.push(c),
{
    s.push(c);
}

/// `s` with every trailing `c` removed (what `trim_end_matches(c)` gives).
pub open spec fn trim_end_char_spec(s: Seq<char>, c: char) -> Seq<char>
    decreases s.len(),
{
    if s.len() > 0 && s.last() == c {
        trim_end_char_spec(s.drop_last(), c)
    } else {
        s
    }
}

/// The prefix `s[0..n]` as a `String`.
pub fn prefix_string(s: &str, n: usize) -> (r: String)
    requires
        n <= s@.len(),
    ensures
        r@ == s@.subrange(0, n as int),
{
    let mut r = String::new();
    let mut i: usize = 0;
    while i < n
        invariant
            i <= n,
            n <= s@.len(),
            r@ == s@.subrange(0, i as int),
        decreases n - i,
    {
        let c = s.get_char(i);
        push_char(&mut r, c);
        i = i + 1;
        assert(r@ =~= s@.subrange(0, i as int));
    }
    r
}

/// Removes every trailing `c` from `s`.
pub fn trim_end_char(s: &str, c: char) -> (r: String)
    ensures
        r@ == trim_end_char_spec(s@, c),
{
    let mut n = s.unicode_len();
    assert(s@.subrange(0, n as int) =~= s@);
    while n > 0 && s.get_char(n - 1) == c
        invariant
            n <= s@.len(),
            trim_end_char_spec(s@.subrange(0, n as int), c) == trim_end_char_spec(s@, c),
        decreases n,
    {
        assert(s@.subrange(0, n as int).drop_last() =~= s@.subrange(0, n - 1));
        n = n - 1;
    }
    prefix_string(s, n)
}

} // verus!

verus! {

/// Whether `a` and `b` hold the same characters.
pub fn str_eq(a: &str, b: &str) -> (r: bool)
    ensures
        r == (a@ == b@),
{
    let n = a.unicode_len();
    let m = b.unicode_len();
    if n != m {
        return false;
    }
    let mut i: usize = 0;
    while i < n
        invariant
            i <= n,
            n == a@.len(),
            m == b@.len(),
            n == m,
            a@.subrange(0, i as int) == b@.subrange(0, i as int),
        decreases n - i,
    {
        if a.get_char(i) != b.get_char(i) {
            return false;
        }
        assert(a@.subrange(0, i + 1) =~= a@.subrange(0, i as int).push(a@[i as int]));
        assert(b@.subrange(0, i + 1) =~= b@.subrange(0, i as int).push(b@[i as int]));
        i = i + 1;
    }
    assert(a@ =~= a@.subrange(0, n as int));
    assert(b@ =~= b@.subrange(0, n as int));
    true
}

/// `sub` stands in `s` starting at position `i`.
pub open spec fn occurs_at(s: Seq<char>, sub: Seq<char>, i: int) -> bool {
    0 <= i && i + sub.len() <= s.len() && s.subrange(i, i + sub.len()) == sub
}

/// `p` is a prefix of `s` (what `s.starts_with(p)` answers).
pub open spec fn is_prefix_of(p: Seq<char>, s: Seq<char>) -> bool {
    occurs_at(s, p, 0)
}

/// `sub` stands somewhere in `s` (what `s.contains(sub)` answers).
pub open spec fn contains_seq(s: Seq<char>, sub: Seq<char>) -> bool {
    exists|i: int| occurs_at(s, sub, i)
}

fn occurs_at_exec(s: &str, sub: &str, i: usize) -> (r: bool)
    requires
        i <= s@.len(),
    ensures
        r == occurs_at(s@, sub@, i as int),
{
    let n = s.unicode_len();
    let m = sub.unicode_len();
    if m > n - i {
        return false;
    }
    let mut j: usize = 0;
    while j < m
        invariant
            j <= m,
            i + m <= n,
            n == s@.len(),
            m == sub@.len(),
            s@.subrange(i as int, i + j) == sub@.subrange(0, j as int),
        decreases m - j,
    {
        if s.get_char(i + j) != sub.get_char(j) {
            assert(s@.subrange(i as int, i + m)[j as int] == s@[i + j]);
            return false;
        }
        assert(s@.subrange(i as int, i + j + 1) =~= s@.subrange(i as int, i + j).push(
            s@[i + j],
        ));
        assert(sub@.subrange(0, j + 1) =~= sub@.subrange(0, j as int).push(sub@[j as int]));
        j = j + 1;
    }
    assert(sub@ =~= sub@.subrange(0, m as int));
    true
}

/// Whether `s` begins with `p`.
pub fn starts_with(s: &str, p: &str) -> (r: bool)
    ensures
        r == is_prefix_of(p@, s@),
{
    occurs_at_exec(s, p, 0)
}

/// Whether `sub` stands somewhere in `s`.
pub fn contains_str(s: &str, sub: &str) -> (r: bool)
    ensures
        r == contains_seq(s@, sub@),
{
    let n = s.unicode_len();
    let mut i: usize = 0;
    while i <= n
        invariant
            n == s@.len(),
            forall|k: int| 0 <= k < i ==> !occurs_at(s@, sub@, k),
        decreases n + 1 - i,
    {
        if occurs_at_exec(s, sub, i) {
            return true;
        }
        if i == n {
            assert forall|k: int| #![auto] !occurs_at(s@, sub@, k) by {
                if 0 <= k < i {
                } else if k >= i {
                    if k > n {
                    } else {
                        assert(k == n);
                    }
                }
            }
            return false;
        }
        i = i + 1;
    }
    false
}

/// The suffix `s[from..]` as a `String`.
pub fn suffix_string(s: &str, from: usize) -> (r: String)
    requires
        from <= s@.len(),
    ensures
        r@ == s@.subrange(from as int, s@.len() as int),
{
    let n = s.unicode_len();
    let mut r = String::new();
    let mut i: usize = from;
    while i < n
        invariant
            from <= i <= n,
            n == s@.len(),
            r@ == s@.subrange(from as int, i as int),
        decreases n - i,
    {
        let c = s.get_char(i);
        push_char(&mut r, c);
        i = i + 1;
        assert(r@ =~= s@.subrange(from as int, i as int));
    }
    r
}

/// The characters `s[from..to]` as a `String`.
pub fn substring(s: &str, from: usize, to: usize) -> (r: String)
    requires
        from <= to <= s@.len(),
    ensures
        r@ == s@.subrange(from as int, to as int),
{
    let mut r = String::new();
    let mut i: usize = from;
    while i < to
        invariant
            from <= i <= to,
            to <= s@.len(),
            r@ == s@.subrange(from as int, i as int),
        decreases to - i,
    {
        let c = s.get_char(i);
        push_char(&mut r, c);
        i = i + 1;
        assert(r@ =~= s@.subrange(from as int, i as int));
    }
    r
}

/// Copies a `&str` into a new `String`.
pub fn owned(s: &str) -> (r: String)
    ensures
        r@ == s@,
{
    let r = suffix_string(s, 0);
    assert(s@.subrange(0, s@.len() as int) =~= s@);
    r
}

/// Concatenation of two strings into a new `String`.
pub fn concat2(a: &str, b: &str) -> (r: String)
    ensures
        r@ == a@ + b@,
{
    let mut r = owned(a);
    r.append(b);
    r
}

/// Concatenation of three strings into a new `String`.
pub fn concat3(a: &str, b: &str, c: &str) -> (r: String)
    ensures
        r@ == a@ + b@ + c@,
{
    let mut r = owned(a);
    r.append(b);
    r.append(c);
    r
}

/// Concatenation of four strings into a new `String`.
pub fn concat4(a: &str, b: &str, c: &str, d: &str) -> (r: String)
    ensures
        r@ == a@ + b@ + c@ + d@,
{
    let mut r = owned(a);
    r.append(b);
    r.append(c);
    r.append(d);
    r
}

} // verus!

verus! {

/// Unicode `White_Space` characters, which `char::is_whitespace` accepts.
pub open spec fn is_white(c: char) -> bool {
    let u = c as u32;
    ||| 0x9 <= u <= 0xd
    ||| u == 0x20
    ||| u == 0x85
    ||| u == 0xa0
    ||| u == 0x1680
    ||| 0x2000 <= u <= 0x200a
    ||| u == 0x2028
    ||| u == 0x2029
    ||| u == 0x202f
    ||| u == 0x205f
    ||| u == 0x3000
}

/// Whether `c` is a Unicode whitespace character.
pub fn is_whitespace(c: char) -> (r: bool)
    ensures
        r == is_white(c),
{
    let u = c as u32;
    (0x9 <= u && u <= 0xd) || u == 0x20 || u == 0x85 || u == 0xa0 || u == 0x1680 || (0x2000 <= u
        && u <= 0x200a) || u == 0x2028 || u == 0x2029 || u == 0x202f || u == 0x205f || u == 0x3000
}

/// `s` without leading whitespace.
pub open spec fn trim_start_spec(s: Seq<char>) -> Seq<char>
    decreases s.len(),
{
    if s.len() > 0 && is_white(s[0]) {
        trim_start_spec(s.drop_first())
    } else {
        s
    }
}

/// `s` without trailing whitespace.
pub open spec fn trim_end_spec(s: Seq<char>) -> Seq<char>
    decreases s.len(),
{
    if s.len() > 0 && is_white(s.last()) {
        trim_end_spec(s.drop_last())
    } else {
        s
    }
}

/// `s` without leading and trailing whitespace (what `str::trim` gives).
pub open spec fn trim_spec(s: Seq<char>) -> Seq<char> {
    trim_end_spec(trim_start_spec(s))
}

/// Removes leading and trailing whitespace.
pub fn trim(s: &str) -> (r: String)
    ensures
        r@ == trim_spec(s@),
{
    let n = s.unicode_len();
    let mut a: usize = 0;
    assert(s@.subrange(0, n as int) =~= s@);
    while a < n && is_whitespace(s.get_char(a))
        invariant
            a <= n,
            n == s@.len(),
            trim_start_spec(s@.subrange(a as int, n as int)) == trim_start_spec(s@),
        decreases n - a,
    {
        assert(s@.subrange(a as int, n as int).drop_first() =~= s@.subrange(a + 1, n as int));
        a = a + 1;
    }
    let ghost st = s@.subrange(a as int, n as int);
    assert(trim_start_spec(st) == st);
    let mut b: usize = n;
    assert(st.subrange(0, (b - a) as int) =~= st);
    while b > a && is_whitespace(s.get_char(b - 1))
        invariant
            a <= b <= n,
            n == s@.len(),
            st == s@.subrange(a as int, n as int),
            trim_end_spec(st.subrange(0, (b - a) as int)) == trim_end_spec(st),
        decreases b,
    {
        assert(st.subrange(0, (b - a) as int).drop_last() =~= st.subrange(0, (b - 1 - a) as int));
        b = b - 1;
    }
    assert(st.subrange(0, (b - a) as int) =~= s@.subrange(a as int, b as int));
    substring(s, a, b)
}

/// Whether every character of `s` is whitespace (so that `trim` leaves nothing).
pub proof fn lemma_trim_empty(s: Seq<char>)
    ensures
        (trim_spec(s).len() == 0) == (forall|i: int| 0 <= i < s.len() ==> is_white(#[trigger] s[i])),
    decreases s.len(),
{
    if s.len() > 0 && is_white(s[0]) {
        lemma_trim_empty(s.drop_first());
        assert forall|i: int| 0 <= i < s.len() implies (is_white(#[trigger] s[i]) <==> (i == 0
            || is_white(s.drop_first()[i - 1]))) by {}
        if forall|i: int| 0 <= i < s.drop_first().len() ==> is_white(#[trigger] s.drop_first()[i]) {
            assert forall|i: int| 0 <= i < s.len() implies is_white(#[trigger] s[i]) by {
                if i > 0 {
                    assert(is_white(s.drop_first()[i - 1]));
                }
            }
        } else {
            let j = choose|j: int| 0 <= j < s.drop_first().len() && !is_white(s.drop_first()[j]);
            assert(!is_white(s[j + 1]));
        }
    } else if s.len() > 0 {
        assert(trim_start_spec(s) == s);
        lemma_trim_end_keeps_first(s);
    }
}

proof fn lemma_trim_end_keeps_first(s: Seq<char>)
    requires
        s.len() > 0,
        !is_white(s[0]),
    ensures
        trim_end_spec(s).len() > 0,
    decreases s.len(),
{
    if is_white(s.last()) {
        assert(s.len() > 1);
        assert(s.drop_last()[0] == s[0]);
        lemma_trim_end_keeps_first(s.drop_last());
    }
}

} // verus!

verus! {

/// The ASCII digit for `d` (below 16: `0`-`9` then `a`-`f`).
pub open spec fn digit_char(d: nat) -> char {
    if d == 0 {
        '0'
    } else if d == 1 {
        '1'
    } else if d == 2 {
        '2'
    } else if d == 3 {
        '3'
    } else if d == 4 {
        '4'
    } else if d == 5 {
        '5'
    } else if d == 6 {
        '6'
    } else if d == 7 {
        '7'
    } else if d == 8 {
        '8'
    } else if d == 9 {
        '9'
    } else if d == 10 {
        'a'
    } else if d == 11 {
        'b'
    } else if d == 12 {
        'c'
    } else if d == 13 {
        'd'
    } else if d == 14 {
        'e'
    } else {
        'f'
    }
}

/// Decimal digits of `n`, most significant first, without leading zeros
/// (what `n.to_string()` gives for an unsigned integer).
pub open spec fn decimal(n: nat) -> Seq<char>
    decreases n,
{
    if n < 10 {
        seq![digit_char(n)]
    } else {
        decimal(n / 10).push(digit_char(n % 10))
    }
}

/// Lower-case hexadecimal digits of `n`, without leading zeros (what
/// `format!("{:x}", n)` gives).
pub open spec fn hex(n: nat) -> Seq<char>
    decreases n,
{
    if n < 16 {
        seq![digit_char(n)]
    } else {
        hex(n / 16).push(digit_char(n % 16))
    }
}

/// `s` padded on the left with `0` up to `width` characters (what a `0`-flag
/// and width in a format string do).
pub open spec fn zero_pad(s: Seq<char>, width: nat) -> Seq<char> {
    if s.len() >= width {
        s
    } else {
        Seq::new((width - s.len()) as nat, |i: int| '0') + s
    }
}

fn digit_exec(d: u64) -> (c: char)
    requires
        d < 16,
    ensures
        c == digit_char(d as nat),
{
    if d == 0 {
        '0'
    } else if d == 1 {
        '1'
    } else if d == 2 {
        '2'
    } else if d == 3 {
        '3'
    } else if d == 4 {
        '4'
    } else if d == 5 {
        '5'
    } else if d == 6 {
        '6'
    } else if d == 7 {
        '7'
    } else if d == 8 {
        '8'
    } else if d == 9 {
        '9'
    } else if d == 10 {
        'a'
    } else if d == 11 {
        'b'
    } else if d == 12 {
        'c'
    } else if d == 13 {
        'd'
    } else if d == 14 {
        'e'
    } else {
        'f'
    }
}

fn push_decimal(out: &mut String, n: u64)
    ensures
        final(out)@ == old(out)@ + decimal(n as nat),
    decreases n,
{
    if n >= 10 {
        push_decimal(out, n / 10);
    }
    push_char(out, digit_exec(n % 10));
}

/// Decimal text of an unsigned integer.
pub fn u64_to_decimal(n: u64) -> (r: String)
    ensures
        r@ == decimal(n as nat),
{
    let mut r = String::new();
    push_decimal(&mut r, n);
    assert(r@ =~= decimal(n as nat));
    r
}

fn push_hex(out: &mut String, n: u128)
    ensures
        final(out)@ == old(out)@ + hex(n as nat),
    decreases n,
{
    if n >= 16 {
        push_hex(out, n / 16);
    }
    push_char(out, digit_exec((n % 16) as u64));
}

/// Lower-case hexadecimal text of `n`, padded with zeros to `width`.
pub fn hex_padded(n: u128, width: usize) -> (r: String)
    ensures
        r@ == zero_pad(hex(n as nat), width as nat),
{
    let mut digits = String::new();
    push_hex(&mut digits, n);
    assert(digits@ =~= hex(n as nat));
    let len = digits.as_str().unicode_len();
    if len >= width {
        return digits;
    }
    let mut r = String::new();
    let mut i: usize = 0;
    while i < width - len
        invariant
            i <= width - len,
            len < width,
            r@ == Seq::new(i as nat, |k: int| '0'),
        decreases width - len - i,
    {
        push_char(&mut r, '0');
        i = i + 1;
        assert(r@ =~= Seq::new(i as nat, |k: int| '0'));
    }
    r.append(digits.as_str());
    r
}

/// The character is an ASCII digit.
pub open spec fn is_digit(c: char) -> bool {
    48 <= (c as u32) <= 57
}

/// The value of a run of decimal digits.
pub open spec fn digits_value(s: Seq<char>) -> nat
    decreases s.len(),
{
    if s.len() == 0 {
        0
    } else {
        digits_value(s.drop_last()) * 10 + ((s.last() as u32) - 48) as nat
    }
}

/// All characters of `s` are ASCII digits.
pub open spec fn all_digits(s: Seq<char>) -> bool {
    forall|i: int| 0 <= i < s.len() ==> is_digit(#[trigger] s[i])
}

/// What `s.parse::<u64>()` accepts: an optional `+`, then at least one
/// decimal digit, with a value that fits in 64 bits.
pub open spec fn parse_u64_spec(s: Seq<char>) -> Option<u64> {
    let body = if s.len() > 0 && s[0] == '+' {
        s.drop_first()
    } else {
        s
    };
    if body.len() > 0 && all_digits(body) && digits_value(body) <= u64::MAX {
        Some(digits_value(body) as u64)
    } else {
        None
    }
}

proof fn lemma_digits_value_grows(s: Seq<char>, j: int)
    requires
        0 <= j <= s.len(),
        all_digits(s),
    ensures
        digits_value(s.subrange(0, j)) <= digits_value(s),
    decreases s.len() - j,
{
    if j < s.len() {
        lemma_digits_value_grows(s, j + 1);
        assert(s.subrange(0, j + 1).drop_last() =~= s.subrange(0, j));
        assert(is_digit(s[j]));
    } else {
        assert(s.subrange(0, j) =~= s);
    }
}

/// Reads an unsigned decimal integer as `str::parse::<u64>` does.
pub fn parse_u64(s: &str) -> (r: Option<u64>)
    ensures
        r == parse_u64_spec(s@),
{
    let n = s.unicode_len();
    let mut start: usize = 0;
    if n > 0 && s.get_char(0) == '+' {
        start = 1;
    }
    let ghost body = if s@.len() > 0 && s@[0] == '+' {
        s@.drop_first()
    } else {
        s@
    };
    assert(body =~= s@.subrange(start as int, n as int));
    if start == n {
        return None;
    }
    let mut acc: u64 = 0;
    let mut i: usize = start;
    while i < n
        invariant
            start <= i <= n,
            n == s@.len(),
            body == s@.subrange(start as int, n as int),
            body == (if s@.len() > 0 && s@[0] == '+' {
                s@.drop_first()
            } else {
                s@
            }),
            all_digits(body.subrange(0, i - start)),
            acc as nat == digits_value(body.subrange(0, i - start)),
        decreases n - i,
    {
        let c = s.get_char(i);
        let u = c as u32;
        assert(body[i - start] == c);
        if u < 48 || u > 57 {
            assert(!is_digit(body[i - start]));
            assert(!all_digits(body));
            assert(parse_u64_spec(s@).is_none());
            return None;
        }
        let d = (u - 48) as u64;
        assert(body.subrange(0, i + 1 - start).drop_last() =~= body.subrange(0, i - start));
        assert(body.subrange(0, i + 1 - start).last() == c);
        assert(digits_value(body.subrange(0, i + 1 - start)) == acc * 10 + d);
        if acc > (u64::MAX - d) / 10 {
            assert(acc * 10 + d > u64::MAX) by (nonlinear_arith)
                requires
                    acc > (u64::MAX - d) / 10,
                    d <= 9,
            ;
            proof {
                if all_digits(body) {
                    lemma_digits_value_grows(body, i + 1 - start);
                }
            }
            assert(parse_u64_spec(s@).is_none());
            return None;
        }
        assert(acc * 10 + d <= u64::MAX) by (nonlinear_arith)
            requires
                acc <= (u64::MAX - d) / 10,
                d <= 9,
        ;
        acc = acc * 10 + d;
        i = i + 1;
        assert forall|k: int| 0 <= k < i - start implies is_digit(
            #[trigger] body.subrange(0, i - start)[k],
        ) by {
            if k < i - 1 - start {
                assert(body.subrange(0, i - start)[k] == body.subrange(0, i - 1 - start)[k]);
            }
        }
    }
    assert(body.subrange(0, n - start) =~= body);
    Some(acc)
}

proof fn lemma_digit_char_value(k: nat)
    requires
        k < 10,
    ensures
        (digit_char(k) as u32) == k + 48,
        is_digit(digit_char(k)),
{
}

/// The decimal text of a number reads back as that number.
pub proof fn lemma_decimal_digits(n: nat)
    ensures
        decimal(n).len() > 0,
        all_digits(decimal(n)),
        digits_value(decimal(n)) == n,
        decimal(n)[0] != '+',
    decreases n,
{
    lemma_digit_char_value(n % 10);
    if n >= 10 {
        lemma_decimal_digits(n / 10);
        let d = decimal(n / 10);
        assert(decimal(n).drop_last() =~= d);
        assert forall|i: int| 0 <= i < decimal(n).len() implies is_digit(#[trigger] decimal(n)[i]) by {
            if i < d.len() {
                assert(decimal(n)[i] == d[i]);
            }
        }
        assert(decimal(n)[0] == d[0]);
        assert(decimal(n).last() == digit_char(n % 10));
        assert(digits_value(decimal(n)) == digits_value(d) * 10 + ((decimal(n).last() as u32)
            - 48) as nat);
        assert(((decimal(n).last() as u32) - 48) as nat == n % 10);
        assert(n == (n / 10) * 10 + n % 10);
    } else {
        assert(decimal(n).drop_last() =~= Seq::<char>::empty());
        assert(digits_value(decimal(n).drop_last()) == 0);
        assert(digits_value(decimal(n)) == ((decimal(n).last() as u32) - 48) as nat);
    }
}

/// Writing an unsigned integer as decimal text and reading it back gives the
/// same number.
pub proof fn lemma_parse_decimal_roundtrip(n: u64)
    ensures
        parse_u64_spec(decimal(n as nat)) == Some(n),
{
    lemma_decimal_digits(n as nat);
}

} // verus!

verus! {

/// The Unicode lower case of `s`, as `str::to_lowercase` computes it (a
/// character's mapping may depend on its neighbours, as for the Greek
/// capital sigma at the end of a word).
pub uninterp spec fn lowercase(s: Seq<char>) -> Seq<char>;

/// `str::to_lowercase`: the string in Unicode lower case. The contract only
/// names the result as `lowercase` of the input; the mapping itself
/// (Unicode's tables and context rules) is not restated here.
#[verifier::external_body]
pub(crate) fn to_lowercase(s: &str) -> (r: String)
    ensures
        r@ == lowercase(s@),
{
    s.to_lowercase()
}

/// The parts joined with `sep` between each two of them.
pub open spec fn join_spec(parts: Seq<Seq<char>>, sep: Seq<char>) -> Seq<char>
    decreases parts.len(),
{
    if parts.len() == 0 {
        Seq::empty()
    } else if parts.len() == 1 {
        parts[0]
    } else {
        join_spec(parts.drop_last(), sep) + sep + parts.last()
    }
}

/// The characters of each string in a list.
pub open spec fn strings_view(v: Seq<String>) -> Seq<Seq<char>> {
    v.map_values(|s: String| s@)
}

/// Joins the strings with `sep` between each two of them.
pub fn join(parts: &Vec<String>, sep: &str) -> (r: String)
    ensures
        r@ == join_spec(strings_view(parts@), sep@),
{
    let mut r = String::new();
    let n = parts.len();
    let ghost pv = strings_view(parts@);
    let mut i: usize = 0;
    while i < n
        invariant
            i <= n,
            n == parts@.len(),
            pv == strings_view(parts@),
            r@ == join_spec(pv.subrange(0, i as int), sep@),
        decreases n - i,
    {
        assert(pv.subrange(0, i + 1).drop_last() =~= pv.subrange(0, i as int));
        if i > 0 {
            r.append(sep);
        }
        r.append(parts[i].as_str());
        i = i + 1;
        proof {
            if i == 1 {
                assert(join_spec(pv.subrange(0, 1), sep@) == pv.subrange(0, 1)[0]);
            }
        }
    }
    assert(pv.subrange(0, n as int) =~= pv);
    r
}

/// Signed decimal text of an integer (what `to_string` gives).
pub open spec fn signed_decimal(i: int) -> Seq<char> {
    if i < 0 {
        "-"@ + decimal((-i) as nat)
    } else {
        decimal(i as nat)
    }
}

/// Signed decimal text of a 64-bit integer.
pub fn i64_to_decimal(i: i64) -> (r: String)
    ensures
        r@ == signed_decimal(i as int),
{
    if i < 0 {
        let m: u64 = ((-(i + 1)) as u64) + 1;
        let d = u64_to_decimal(m);
        concat2("-", d.as_str())
    } else {
        u64_to_decimal(i as u64)
    }
}

} // verus!

verus! {

/// `i` is where `sub` first stands in `s`.
pub open spec fn is_first_occurrence(s: Seq<char>, sub: Seq<char>, i: int) -> bool {
    occurs_at(s, sub, i) && forall|j: int| 0 <= j < i ==> !occurs_at(s, sub, j)
}

/// Where `sub` first stands in `s` (what `str::find` answers).
pub open spec fn first_occurrence(s: Seq<char>, sub: Seq<char>) -> Option<int> {
    if contains_seq(s, sub) {
        Some(choose|i: int| is_first_occurrence(s, sub, i))
    } else {
        None
    }
}

/// The first occurrence is the only position that is one.
pub proof fn lemma_first_occurrence_unique(s: Seq<char>, sub: Seq<char>, i: int)
    requires
        is_first_occurrence(s, sub, i),
    ensures
        first_occurrence(s, sub) == Some(i),
{
    assert(contains_seq(s, sub));
    let k = choose|k: int| is_first_occurrence(s, sub, k);
    assert(is_first_occurrence(s, sub, k));
    if k < i {
        assert(!occurs_at(s, sub, k));
    } else if k > i {
        assert(!occurs_at(s, sub, i));
    }
}

/// Finds where `sub` first stands in `s`.
pub fn find_first(s: &str, sub: &str) -> (r: Option<usize>)
    ensures
        match r {
            Some(i) => first_occurrence(s@, sub@) == Some(i as int) && occurs_at(
                s@,
                sub@,
                i as int,
            ),
            None => first_occurrence(s@, sub@) is None,
        },
{
    let n = s.unicode_len();
    let mut i: usize = 0;
    while i <= n
        invariant
            n == s@.len(),
            forall|k: int| 0 <= k < i ==> !occurs_at(s@, sub@, k),
        decreases n + 1 - i,
    {
        if occurs_at_exec(s, sub, i) {
            proof {
                lemma_first_occurrence_unique(s@, sub@, i as int);
            }
            return Some(i);
        }
        if i == n {
            assert forall|k: int| !occurs_at(s@, sub@, k) by {
                if 0 <= k < i {
                } else if k > n {
                }
            }
            return None;
        }
        i = i + 1;
    }
    None
}

/// `s` up to where `sep` first stands, or all of `s` (the first item that
/// `s.split(sep)` yields).
pub open spec fn before_spec(s: Seq<char>, sep: Seq<char>) -> Seq<char> {
    match first_occurrence(s, sep) {
        Some(i) => s.subrange(0, i),
        None => s,
    }
}

/// The first item of `s.split(sep)`.
pub fn before(s: &str, sep: &str) -> (r: String)
    ensures
        r@ == before_spec(s@, sep@),
{
    match find_first(s, sep) {
        Some(i) => prefix_string(s, i),
        None => owned(s),
    }
}

/// `s` after where `sep` first stands (`None` where it does not).
pub open spec fn after_spec(s: Seq<char>, sep: Seq<char>) -> Option<Seq<char>> {
    match first_occurrence(s, sep) {
        Some(i) => Some(s.subrange(i + sep.len(), s.len() as int)),
        None => None,
    }
}

/// The text after the first `sep` in `s`.
pub fn after(s: &str, sep: &str) -> (r: Option<String>)
    ensures
        match r {
            Some(a) => after_spec(s@, sep@) == Some(a@),
            None => after_spec(s@, sep@) is None,
        },
{
    match find_first(s, sep) {
        Some(i) => {
            let m = sep.unicode_len();
            let _n = s.unicode_len();
            assert(occurs_at(s@, sep@, i as int));
            assert(i + m <= s@.len());
            Some(suffix_string(s, i + m))
        },
        None => None,
    }
}

} // verus!

verus! {

/// How many times `c` occurs in `s`.
pub open spec fn count_char(s: Seq<char>, c: char) -> nat
    decreases s.len(),
{
    if s.len() == 0 {
        0
    } else {
        count_char(s.drop_last(), c) + if s.last() == c {
            1nat
        } else {
            0nat
        }
    }
}

/// Occurrences in a concatenation add up.
pub proof fn lemma_count_concat(a: Seq<char>, b: Seq<char>, c: char)
    ensures
        count_char(a + b, c) == count_char(a, c) + count_char(b, c),
    decreases b.len(),
{
    if b.len() == 0 {
        assert(a + b =~= a);
    } else {
        assert((a + b).drop_last() =~= a + b.drop_last());
        assert((a + b).last() == b.last());
        lemma_count_concat(a, b.drop_last(), c);
    }
}

/// Decimal digits hold no line break.
pub proof fn lemma_decimal_no_newline(n: nat)
    ensures
        count_char(decimal(n), '\n') == 0,
    decreases n,
{
    if n < 10 {
        assert(decimal(n).drop_last() =~= Seq::<char>::empty());
        assert(count_char(decimal(n).drop_last(), '\n') == 0);
        assert(decimal(n).last() == digit_char(n));
        assert(digit_char(n) != '\n');
    } else {
        lemma_decimal_no_newline(n / 10);
        assert(decimal(n).drop_last() =~= decimal(n / 10));
        assert(decimal(n).last() == digit_char(n % 10));
        assert(digit_char(n % 10) != '\n');
    }
}

/// Parts without `c`, joined by a separator holding `c` once, hold `c`
/// once less than there are parts.
pub proof fn lemma_join_count(parts: Seq<Seq<char>>, sep: Seq<char>, c: char)
    requires
        parts.len() > 0,
        count_char(sep, c) == 1,
        forall|i: int| 0 <= i < parts.len() ==> count_char(#[trigger] parts[i], c) == 0,
    ensures
        count_char(join_spec(parts, sep), c) == parts.len() - 1,
    decreases parts.len(),
{
    if parts.len() > 1 {
        let init = parts.drop_last();
        assert forall|i: int| 0 <= i < init.len() implies count_char(#[trigger] init[i], c) == 0 by {
            assert(init[i] == parts[i]);
        }
        lemma_join_count(init, sep, c);
        lemma_count_concat(join_spec(init, sep), sep, c);
        lemma_count_concat(join_spec(init, sep) + sep, parts.last(), c);
        assert(count_char(parts.last(), c) == 0) by {
            assert(parts.last() == parts[parts.len() - 1]);
        }
    }
}

} // verus!
