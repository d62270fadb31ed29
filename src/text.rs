//! Character-level helpers over `str`: exact comparison, substring search and
//! the decimal grammar of the upstream wire format.

use vstd::prelude::*;

verus! {

/// The characters of `s`, in order.
pub fn chars_of(s: &str) -> (r: Vec<char>)
    ensures
        r@ == s@,
{
    let mut out: Vec<char> = Vec::new();
    for c in it: s.chars()
        invariant
            it.seq() == s@,
            out@ == it.seq().take(it.index() as int),
    {
        proof {
            assert(it.seq().take(it.index() + 1) == it.seq().take(it.index() as int).push(c));
        }
        out.push(c);
    }
    proof {
        assert(out@ == s@);
    }
    out
}


/// Whether `s` and `t` hold the same characters.
pub fn str_eq(s: &str, t: &str) -> (r: bool)
    ensures
        r == (s@ == t@),
{
    let a = chars_of(s);
    let b = chars_of(t);
    if a.len() != b.len() {
        return false;
    }
    let mut i: usize = 0;
    while i < a.len()
        invariant
            a@ == s@,
            b@ == t@,
            a.len() == b.len(),
            i <= a.len(),
            a@.take(i as int) == b@.take(i as int),
        decreases a.len() - i,
    {
        if a[i] != b[i] {
            assert(a@[i as int] != b@[i as int]);
            return false;
        }
        assert(a@.take(i + 1) == a@.take(i as int).push(a@[i as int]));
        assert(b@.take(i + 1) == b@.take(i as int).push(b@[i as int]));
        i += 1;
    }
    assert(a@ == a@.take(i as int));
    assert(b@ == b@.take(i as int));
    true
}

/// `p` stands in `s` starting at position `i`.
pub open spec fn occurs_at(s: Seq<char>, p: Seq<char>, i: int) -> bool {
    0 <= i && i + p.len() <= s.len() && s.subrange(i, i + p.len()) == p
}

/// `p` stands somewhere in `s`.
pub open spec fn has_substring(s: Seq<char>, p: Seq<char>) -> bool {
    exists|i: int| occurs_at(s, p, i)
}

fn occurs_at_exec(s: &Vec<char>, p: &Vec<char>, i: usize) -> (r: bool)
    requires
        i + p.len() <= s.len(),
    ensures
        r == occurs_at(s@, p@, i as int),
{
    let mut j: usize = 0;
    while j < p.len()
        invariant
            i + p.len() <= s.len(),
            j <= p.len(),
            forall|k: int| 0 <= k < j ==> s@[i + k] == p@[k],
        decreases p.len() - j,
    {
        if s[i + j] != p[j] {
            assert(s@.subrange(i as int, i + p.len())[j as int] != p@[j as int]);
            return false;
        }
        j += 1;
    }
    assert(s@.subrange(i as int, i + p.len()) == p@);
    true
}

/// Whether `p` occurs in `s` as a contiguous run of characters.
pub fn contains(s: &str, p: &str) -> (r: bool)
    ensures
        r == has_substring(s@, p@),
{
    let a = chars_of(s);
    let b = chars_of(p);
    if b.len() > a.len() {
        return false;
    }
    let last = a.len() - b.len();
    let mut i: usize = 0;
    loop
        invariant
            a@ == s@,
            b@ == p@,
            last == a.len() - b.len(),
            b.len() <= a.len(),
            i <= last,
            forall|k: int| 0 <= k < i ==> !occurs_at(a@, b@, k),
        decreases last - i,
    {
        if occurs_at_exec(&a, &b, i) {
            return true;
        }
        if i == last {
            assert(forall|k: int| !occurs_at(a@, b@, k));
            return false;
        }
        i += 1;
    }
}

/// The first `n` characters of `s`, or all of it when it is shorter.
pub fn prefix_chars(s: &str, n: usize) -> (r: &str)
    ensures
        r@ == s@.take(if s@.len() < n { s@.len() as int } else { n as int }),
{
    let len = s.unicode_len();
    let end = if len < n { len } else { n };
    s.substring_char(0, end)
}

pub open spec fn is_digit(c: char) -> bool {
    '0' <= c && c <= '9'
}

pub open spec fn digit_value(c: char) -> int {
    c as int - '0' as int
}

pub open spec fn all_digits(s: Seq<char>) -> bool {
    forall|i: int| 0 <= i < s.len() ==> is_digit(#[trigger] s[i])
}

/// The number that a run of decimal digits writes.
pub open spec fn digits_value(s: Seq<char>) -> int
    decreases s.len(),
{
    if s.len() == 0 {
        0
    } else {
        10 * digits_value(s.drop_last()) + digit_value(s.last())
    }
}

/// The digit part of an unsigned decimal: the text after an optional leading `+`.
pub open spec fn unsigned_digits(s: Seq<char>) -> Seq<char> {
    if s.len() > 0 && s[0] == '+' {
        s.skip(1)
    } else {
        s
    }
}

/// An unsigned decimal: an optional `+` and at least one digit, nothing else.
pub open spec fn is_unsigned_decimal(s: Seq<char>) -> bool {
    unsigned_digits(s).len() > 0 && all_digits(unsigned_digits(s))
}

/// The value of `s` read as an unsigned decimal, when it is one.
pub open spec fn decimal_value(s: Seq<char>) -> Option<int> {
    if is_unsigned_decimal(s) {
        Some(digits_value(unsigned_digits(s)))
    } else {
        None
    }
}

proof fn lemma_digits_value_grows(s: Seq<char>, k: int)
    requires
        all_digits(s),
        0 <= k <= s.len(),
    ensures
        digits_value(s.take(k)) <= digits_value(s),
        0 <= digits_value(s.take(k)),
    decreases s.len(),
{
    if s.len() == k {
        assert(s.take(k) == s);
        if s.len() > 0 {
            lemma_digits_value_grows(s.drop_last(), k - 1);
            assert(s.drop_last().take(k - 1) == s.drop_last());
        }
    } else {
        assert(s.drop_last().take(k) == s.take(k));
        lemma_digits_value_grows(s.drop_last(), k);
        assert(all_digits(s.drop_last()));
        lemma_digits_value_grows(s.drop_last(), s.drop_last().len() as int);
        assert(s.drop_last().take(s.drop_last().len() as int) == s.drop_last());
    }
}

/// Reads `s` as an unsigned decimal that fits in a `u64`, as `str::parse::<u64>` does.
pub fn parse_u64(s: &str) -> (r: Option<u64>)
    ensures
        r matches Some(v) ==> decimal_value(s@) == Some(v as int),
        r is None ==> (decimal_value(s@) matches Some(n) ==> n > u64::MAX),
{
    let a = chars_of(s);
    parse_u64_chars(&a)
}

fn parse_u64_chars(a: &Vec<char>) -> (r: Option<u64>)
    ensures
        r matches Some(v) ==> decimal_value(a@) == Some(v as int),
        r is None ==> (decimal_value(a@) matches Some(n) ==> n > u64::MAX),
{
    let ghost s = a@;
    let n = a.len();
    let start: usize = if n > 0 && a[0] == '+' { 1 } else { 0 };
    if start == n {
        return None;
    }
    let ghost d = unsigned_digits(s);
    assert(d == a@.subrange(start as int, n as int));
    let mut v: u64 = 0;
    let mut i: usize = start;
    while i < n
        invariant
            a@ == s,
            n == a.len(),
            start <= i <= n,
            d == a@.subrange(start as int, n as int),
            d == unsigned_digits(s),
            d.len() > 0,
            all_digits(d.take(i - start)),
            v == digits_value(d.take(i - start)),
        decreases n - i,
    {
        let c = a[i];
        assert(d[i - start] == c);
        if !('0' <= c && c <= '9') {
            assert(!is_digit(d[i - start]));
            assert(!all_digits(d));
            return None;
        }
        let dv: u64 = (c as u32 - '0' as u32) as u64;
        assert(dv == digit_value(c));
        assert(d.take(i + 1 - start).drop_last() == d.take(i - start));
        assert(d.take(i + 1 - start).last() == c);
        assert(digits_value(d.take(i + 1 - start)) == 10 * v + dv);
        if v > (u64::MAX - dv) / 10 {
            proof {
                assert(digits_value(d.take(i + 1 - start)) > u64::MAX) by (nonlinear_arith)
                    requires
                        v > (u64::MAX - dv) / 10,
                        digits_value(d.take(i + 1 - start)) == 10 * v + dv,
                        dv >= 0,
                ;
                if all_digits(d) {
                    lemma_digits_value_grows(d, i + 1 - start);
                    assert(decimal_value(s) == Some(digits_value(d)));
                }
            }
            return None;
        }
        assert(all_digits(d.take(i + 1 - start)));
        v = v * 10 + dv;
        i += 1;
    }
    assert(d.take(n - start) == d);
    Some(v)
}


/// `s` with every `,` taken out.
pub open spec fn without_commas(s: Seq<char>) -> Seq<char>
    decreases s.len(),
{
    if s.len() == 0 {
        s
    } else if s.last() == ',' {
        without_commas(s.drop_last())
    } else {
        without_commas(s.drop_last()).push(s.last())
    }
}

/// What `str::trim` leaves of `s`: `s` without its leading and trailing white space.
pub uninterp spec fn trimmed(s: Seq<char>) -> Seq<char>;

/// Relies on `str::trim`, which strips leading and trailing Unicode white space.
#[verifier::external_body]
fn trim(s: &str) -> (r: &str)
    ensures
        r@ == trimmed(s@),
{
    s.trim()
}

/// Reads a decimal count that may carry surrounding white space and `,` digit
/// group separators ("  1,234 "), as the pool-unit history writes some of them.
pub fn parse_grouped_u64(s: &str) -> (r: Option<u64>)
    ensures
        r matches Some(v) ==> decimal_value(without_commas(trimmed(s@))) == Some(v as int),
        r is None ==> (decimal_value(without_commas(trimmed(s@))) matches Some(n) ==> n
            > u64::MAX),
{
    let a = chars_of(trim(s));
    let mut b: Vec<char> = Vec::new();
    let mut i: usize = 0;
    while i < a.len()
        invariant
            i <= a.len(),
            b@ == without_commas(a@.take(i as int)),
        decreases a.len() - i,
    {
        assert(a@.take(i + 1).drop_last() == a@.take(i as int));
        assert(a@.take(i + 1).last() == a@[i as int]);
        if a[i] != ',' {
            b.push(a[i]);
        }
        i += 1;
    }
    assert(a@.take(a.len() as int) == a@);
    parse_u64_chars(&b)
}

/// State of the scanner for the numeric part of a float literal after the sign.
/// Reads `Digit+ ('.' Digit*)? | '.' Digit+`, then an optional `('e'|'E') Sign? Digit+`.
pub open spec fn number_step(state: int, c: char) -> int {
    if state == 0 {
        if is_digit(c) { 1 } else if c == '.' { 3 } else { 8 }
    } else if state == 1 {
        if is_digit(c) { 1 } else if c == '.' { 2 } else if c == 'e' || c == 'E' { 5 } else { 8 }
    } else if state == 2 || state == 4 {
        if is_digit(c) { 4 } else if c == 'e' || c == 'E' { 5 } else { 8 }
    } else if state == 3 {
        if is_digit(c) { 4 } else { 8 }
    } else if state == 5 {
        if is_digit(c) { 7 } else if c == '+' || c == '-' { 6 } else { 8 }
    } else if state == 6 || state == 7 {
        if is_digit(c) { 7 } else { 8 }
    } else {
        8
    }
}

pub open spec fn number_state(s: Seq<char>) -> int
    decreases s.len(),
{
    if s.len() == 0 {
        0
    } else {
        number_step(number_state(s.drop_last()), s.last())
    }
}

pub open spec fn is_number_text(s: Seq<char>) -> bool {
    let q = number_state(s);
    q == 1 || q == 2 || q == 4 || q == 7
}

/// `c` is the letter `w`, written in either of its two cases.
pub open spec fn same_letter(c: char, w: (char, char)) -> bool {
    c == w.0 || c == w.1
}

/// `s` spells the word `w`, given as its letters in lower and upper case, ignoring case.
pub open spec fn spells(s: Seq<char>, w: Seq<(char, char)>) -> bool {
    s.len() == w.len() && forall|i: int| 0 <= i < s.len() ==> same_letter(#[trigger] s[i], w[i])
}

/// A float literal without its sign.
pub open spec fn float_body(s: Seq<char>) -> Seq<char> {
    if s.len() > 0 && (s[0] == '+' || s[0] == '-') {
        s.skip(1)
    } else {
        s
    }
}

/// The text that `str::parse::<f64>` accepts: an optional sign, then a decimal
/// number with an optional exponent, or one of the words `inf`, `infinity`, `nan`
/// in any case.
pub open spec fn is_float_text(s: Seq<char>) -> bool {
    let b = float_body(s);
    is_number_text(b) || spells(b, inf_word()) || spells(b, infinity_word()) || spells(
        b,
        nan_word(),
    )
}

pub open spec fn inf_word() -> Seq<(char, char)> {
    seq![('i', 'I'), ('n', 'N'), ('f', 'F')]
}

pub open spec fn infinity_word() -> Seq<(char, char)> {
    seq![('i', 'I'), ('n', 'N'), ('f', 'F'), ('i', 'I'), ('n', 'N'), ('i', 'I'), ('t', 'T'), ('y', 'Y')]
}

pub open spec fn nan_word() -> Seq<(char, char)> {
    seq![('n', 'N'), ('a', 'A'), ('n', 'N')]
}

fn number_step_exec(state: u8, c: char) -> (r: u8)
    requires
        state <= 8,
    ensures
        r as int == number_step(state as int, c),
        r <= 8,
{
    let digit = '0' <= c && c <= '9';
    if state == 0 {
        if digit { 1 } else if c == '.' { 3 } else { 8 }
    } else if state == 1 {
        if digit { 1 } else if c == '.' { 2 } else if c == 'e' || c == 'E' { 5 } else { 8 }
    } else if state == 2 || state == 4 {
        if digit { 4 } else if c == 'e' || c == 'E' { 5 } else { 8 }
    } else if state == 3 {
        if digit { 4 } else { 8 }
    } else if state == 5 {
        if digit { 7 } else if c == '+' || c == '-' { 6 } else { 8 }
    } else if state == 6 || state == 7 {
        if digit { 7 } else { 8 }
    } else {
        8
    }
}

fn spells_exec(a: &Vec<char>, from: usize, w: &Vec<(char, char)>) -> (r: bool)
    requires
        from <= a.len(),
    ensures
        r == spells(a@.skip(from as int), w@),
{
    if a.len() - from != w.len() {
        return false;
    }
    let ghost b = a@.skip(from as int);
    let mut i: usize = 0;
    while i < w.len()
        invariant
            b == a@.skip(from as int),
            b.len() == w.len(),
            a.len() - from == w.len(),
            i <= w.len(),
            forall|k: int| 0 <= k < i ==> same_letter(#[trigger] b[k], w@[k]),
        decreases w.len() - i,
    {
        let c = a[from + i];
        let l = w[i];
        assert(b[i as int] == c);
        if !(c == l.0 || c == l.1) {
            assert(!same_letter(b[i as int], w@[i as int]));
            return false;
        }
        i += 1;
    }
    true
}

/// Whether `s` is a literal that `str::parse::<f64>` accepts.
pub fn is_float_literal(s: &str) -> (r: bool)
    ensures
        r == is_float_text(s@),
{
    let a = chars_of(s);
    let from: usize = if a.len() > 0 && (a[0] == '+' || a[0] == '-') { 1 } else { 0 };
    let ghost b = float_body(s@);
    assert(b == a@.skip(from as int));
    let mut q: u8 = 0;
    let mut i: usize = from;
    while i < a.len()
        invariant
            a@ == s@,
            from <= i <= a.len(),
            b == a@.skip(from as int),
            q <= 8,
            q as int == number_state(b.take(i - from)),
        decreases a.len() - i,
    {
        assert(b.take(i + 1 - from).drop_last() == b.take(i - from));
        assert(b.take(i + 1 - from).last() == a@[i as int]);
        q = number_step_exec(q, a[i]);
        i += 1;
    }
    assert(b.take(a.len() - from) == b);
    if q == 1 || q == 2 || q == 4 || q == 7 {
        return true;
    }
    let inf = vec![('i', 'I'), ('n', 'N'), ('f', 'F')];
    let infinity = vec![
        ('i', 'I'),
        ('n', 'N'),
        ('f', 'F'),
        ('i', 'I'),
        ('n', 'N'),
        ('i', 'I'),
        ('t', 'T'),
        ('y', 'Y'),
    ];
    let nan = vec![('n', 'N'), ('a', 'A'), ('n', 'N')];
    assert(inf@ == inf_word());
    assert(infinity@ == infinity_word());
    assert(nan@ == nan_word());
    spells_exec(&a, from, &inf) || spells_exec(&a, from, &infinity) || spells_exec(&a, from, &nan)
}

/// Number of `,` in `s`.
pub open spec fn comma_count(s: Seq<char>) -> nat
    decreases s.len(),
{
    if s.len() == 0 {
        0
    } else {
        comma_count(s.drop_last()) + if s.last() == ',' { 1nat } else { 0nat }
    }
}

proof fn lemma_comma_count_append(s: Seq<char>, t: Seq<char>)
    ensures
        comma_count(s + t) == comma_count(s) + comma_count(t),
    decreases t.len(),
{
    if t.len() == 0 {
        assert(s + t == s);
    } else {
        lemma_comma_count_append(s, t.drop_last());
        assert((s + t).drop_last() == s + t.drop_last());
    }
}

/// The position of a `,` in `s`; the only one when `comma_count(s) == 1`.
pub open spec fn comma_position(s: Seq<char>) -> int {
    choose|k: int| 0 <= k < s.len() && s[k] == ','
}

proof fn lemma_comma_count_split(s: Seq<char>, k: int)
    requires
        0 <= k < s.len(),
        s[k] == ',',
    ensures
        comma_count(s) == comma_count(s.take(k)) + 1 + comma_count(s.skip(k + 1)),
{
    let one = seq![','];
    assert(s == s.take(k) + one + s.skip(k + 1));
    lemma_comma_count_append(s.take(k) + one, s.skip(k + 1));
    lemma_comma_count_append(s.take(k), one);
    assert(one.drop_last() == Seq::<char>::empty());
    assert(comma_count(Seq::<char>::empty()) == 0);
    assert(comma_count(one) == 1);
}

proof fn lemma_single_comma(s: Seq<char>, k: int, j: int)
    requires
        comma_count(s) == 1,
        0 <= k < s.len(),
        s[k] == ',',
        0 <= j < s.len(),
        s[j] == ',',
    ensures
        k == j,
{
    if k < j {
        lemma_comma_count_split(s, j);
        lemma_comma_count_split(s.take(j), k);
    } else if j < k {
        lemma_comma_count_split(s, k);
        lemma_comma_count_split(s.take(k), j);
    }
}

/// Splits `s` at its only `,`. `None` unless `s` holds exactly one.
pub fn split_at_comma(s: &str) -> (r: Option<(String, String)>)
    ensures
        r is Some <==> comma_count(s@) == 1,
        r matches Some(p) ==> p.0@ == s@.take(comma_position(s@)) && p.1@ == s@.skip(
            comma_position(s@) + 1,
        ),
{
    let a = chars_of(s);
    let mut i: usize = 0;
    let mut at: usize = 0;
    let mut seen: usize = 0;
    while i < a.len()
        invariant
            a@ == s@,
            i <= a.len(),
            seen <= i,
            seen as int == comma_count(a@.take(i as int)),
            seen >= 1 ==> at < i && a@[at as int] == ',',
        decreases a.len() - i,
    {
        assert(a@.take(i + 1).drop_last() == a@.take(i as int));
        if a[i] == ',' {
            if seen == 0 {
                at = i;
            }
            seen += 1;
        }
        i += 1;
    }
    assert(a@.take(a.len() as int) == a@);
    if seen != 1 {
        return None;
    }
    proof {
        let k = comma_position(s@);
        assert(0 <= at < s@.len() && s@[at as int] == ',');
        lemma_single_comma(s@, k, at as int);
    }
    let left = s.substring_char(0, at);
    let right = s.substring_char(at + 1, a.len());
    Some((String::from_str(left), String::from_str(right)))
}

} // verus!
