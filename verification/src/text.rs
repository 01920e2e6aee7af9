//! Character-level text helpers: suffix tests and decimal numbers.

use vstd::prelude::*;

verus! {

/// `s` ends with `suffix`, compared character by character.
pub open spec fn has_suffix(s: Seq<char>, suffix: Seq<char>) -> bool {
    suffix.len() <= s.len() && s.subrange(s.len() - suffix.len(), s.len() as int) == suffix
}

/// How a suffix test on `x + y` reduces to one on `y`.
pub proof fn lemma_suffix_of_concat(x: Seq<char>, y: Seq<char>, z: Seq<char>)
    ensures
        has_suffix(x + y, y),
        z.len() <= y.len() ==> (has_suffix(x + y, z) <==> has_suffix(y, z)),
        z.len() > y.len() ==> (has_suffix(x + y, z) ==> has_suffix(z, y)),
{
    let s = x + y;
    assert(s.subrange(s.len() - y.len(), s.len() as int) =~= y);
    if z.len() <= y.len() {
        assert(s.subrange(s.len() - z.len(), s.len() as int) =~= y.subrange(
            y.len() - z.len(),
            y.len() as int,
        ));
    } else if has_suffix(s, z) {
        assert(z.subrange(z.len() - y.len(), z.len() as int) =~= y) by {
            assert forall|k: int| 0 <= k < y.len() implies z.subrange(
                z.len() - y.len(),
                z.len() as int,
            )[k] == y[k] by {
                assert(z[z.len() - y.len() + k] == s.subrange(s.len() - z.len(), s.len() as int)[z.len()
                    - y.len() + k]);
            }
        }
    }
}

/// A character that differs from `t` where `t` would sit at the end of `s`
/// shows that `s` does not end with `t`.
pub proof fn lemma_not_suffix_at(s: Seq<char>, t: Seq<char>, k: int)
    requires
        0 <= k < t.len() <= s.len(),
        s[s.len() - t.len() + k] != t[k],
    ensures
        !has_suffix(s, t),
{
    if has_suffix(s, t) {
        assert(s.subrange(s.len() - t.len(), s.len() as int)[k] == t[k]);
    }
}

/// `s` holds no character `c`.
pub open spec fn lacks_char(s: Seq<char>, c: char) -> bool
    decreases s.len(),
{
    s.len() == 0 || (s.last() != c && lacks_char(s.drop_last(), c))
}

proof fn lemma_lacks_char_at(s: Seq<char>, c: char, i: int)
    requires
        lacks_char(s, c),
        0 <= i < s.len(),
    ensures
        s[i] != c,
    decreases s.len(),
{
    if i < s.len() - 1 {
        lemma_lacks_char_at(s.drop_last(), c, i);
    }
}

/// A suffix without `/` ends a path `dir/name` exactly when it ends `name`.
pub proof fn lemma_suffix_after_dir(dir: Seq<char>, name: Seq<char>, z: Seq<char>)
    requires
        lacks_char(z, '/'),
    ensures
        has_suffix(dir + "/"@ + name, z) == has_suffix(name, z),
{
    reveal_strlit("/");
    let x = dir + "/"@;
    let s = x + name;
    lemma_suffix_of_concat(x, name, z);
    if z.len() > name.len() && has_suffix(s, z) {
        let k = z.len() - name.len() - 1;
        assert(s[s.len() - name.len() - 1] == '/');
        assert(s.subrange(s.len() - z.len(), s.len() as int)[k] == z[k]);
        lemma_lacks_char_at(z, '/', k);
    }
}

/// `t` stands in `s` starting at index `i`.
pub open spec fn occurs_at(s: Seq<char>, t: Seq<char>, i: int) -> bool {
    0 <= i && i + t.len() <= s.len() && s.subrange(i, i + t.len()) == t
}

/// `t` stands somewhere in `s`.
pub open spec fn contains_text(s: Seq<char>, t: Seq<char>) -> bool {
    exists|i: int| occurs_at(s, t, i)
}

/// `t` stands at the end of `a + t`.
pub proof fn lemma_occurs_at_end(a: Seq<char>, t: Seq<char>)
    ensures
        occurs_at(a + t, t, a.len() as int),
{
    assert((a + t).subrange(a.len() as int, (a + t).len() as int) =~= t);
}

/// Appending keeps every occurrence where it was.
pub broadcast proof fn lemma_occurs_extends(s: Seq<char>, t: Seq<char>, i: int, b: Seq<char>)
    requires
        occurs_at(s, t, i),
    ensures
        #[trigger] occurs_at(s + b, t, i),
{
    assert((s + b).subrange(i, i + t.len()) =~= s.subrange(i, i + t.len()));
}

/// The characters of `s`, in order.
pub fn text_chars(s: &str) -> (v: Vec<char>)
    ensures
        v@ == s@,
{
    let mut v: Vec<char> = Vec::new();
    for c in it: s.chars()
        invariant
            v@ == it.seq().take(it.index() as int),
            it.seq() == s@,
    {
        v.push(c);
    }
    v
}


/// Whether the characters `s` end with the text `suffix`.
pub fn chars_end_with(s: &Vec<char>, suffix: &str) -> (b: bool)
    ensures
        b == has_suffix(s@, suffix@),
{
    let t = text_chars(suffix);
    if t.len() > s.len() {
        return false;
    }
    let n = s.len();
    let offset = n - t.len();
    let mut i: usize = 0;
    while i < t.len()
        invariant
            t@ == suffix@,
            n == s@.len(),
            offset + t@.len() == n,
            i <= t@.len(),
            forall|k: int| 0 <= k < i ==> s@[offset + k] == t@[k],
        decreases t@.len() - i,
    {
        if s[offset + i] != t[i] {
            assert(s@.subrange(offset as int, s@.len() as int)[i as int] != t@[i as int]);
            return false;
        }
        i = i + 1;
    }
    assert(s@.subrange(offset as int, s@.len() as int) =~= t@);
    true
}

/// An ASCII decimal digit.
pub open spec fn is_ascii_digit(c: char) -> bool {
    '0' <= c && c <= '9'
}

/// The value of an ASCII decimal digit.
pub open spec fn digit_value(c: char) -> int {
    c as int - '0' as int
}

/// The digit character for `d` in `0..10`.
pub open spec fn digit_char(d: int) -> char {
    (d + '0' as int) as char
}

/// Every character of `s` is an ASCII decimal digit.
pub open spec fn all_ascii_digits(s: Seq<char>) -> bool {
    forall|i: int| 0 <= i < s.len() ==> is_ascii_digit(#[trigger] s[i])
}

/// The number that the decimal digits `s` denote, most significant first.
pub open spec fn digits_value(s: Seq<char>) -> int
    decreases s.len(),
{
    if s.len() == 0 {
        0
    } else {
        digits_value(s.drop_last()) * 10 + digit_value(s.last())
    }
}

/// The text with one leading `+` removed, if it has one.
pub open spec fn without_plus(s: Seq<char>) -> Seq<char> {
    if s.len() > 0 && s[0] == '+' {
        s.drop_first()
    } else {
        s
    }
}

/// How text reads as a `u32`: an optional `+`, then at least one ASCII
/// digit and nothing else, denoting a number that fits in 32 bits.
pub open spec fn u32_from_text(s: Seq<char>) -> Option<u32> {
    let d = without_plus(s);
    if d.len() > 0 && all_ascii_digits(d) && digits_value(d) <= u32::MAX {
        Some(digits_value(d) as u32)
    } else {
        None
    }
}

/// The shortest decimal text of `n`, most significant digit first.
pub open spec fn decimal_text(n: nat) -> Seq<char>
    decreases n,
{
    if n < 10 {
        seq![digit_char(n as int)]
    } else {
        decimal_text(n / 10).push(digit_char((n % 10) as int))
    }
}

proof fn lemma_digits_value_prefix_step(s: Seq<char>, i: int)
    requires
        0 <= i < s.len(),
    ensures
        digits_value(s.take(i + 1)) == digits_value(s.take(i)) * 10 + digit_value(s[i]),
{
    assert(s.take(i + 1).drop_last() =~= s.take(i));
    assert(s.take(i + 1).last() == s[i]);
}

proof fn lemma_digits_value_nonneg(s: Seq<char>)
    requires
        all_ascii_digits(s),
    ensures
        digits_value(s) >= 0,
    decreases s.len(),
{
    if s.len() > 0 {
        lemma_digits_value_nonneg(s.drop_last());
        assert(is_ascii_digit(s[s.len() - 1]));
    }
}

proof fn lemma_digits_value_grows(s: Seq<char>, i: int)
    requires
        0 <= i <= s.len(),
        all_ascii_digits(s),
    ensures
        digits_value(s.take(i)) <= digits_value(s),
    decreases s.len() - i,
{
    if i < s.len() {
        lemma_digits_value_prefix_step(s, i);
        lemma_digits_value_grows(s, i + 1);
        lemma_digits_value_nonneg(s.take(i));
        assert(is_ascii_digit(s[i]));
    } else {
        assert(s.take(i) =~= s);
    }
}

/// Reads text as a `u32` the way `str::parse::<u32>` does: an optional
/// leading `+` followed by one or more ASCII digits, in range.
pub fn parse_u32(s: &str) -> (r: Option<u32>)
    ensures
        r == u32_from_text(s@),
{
    let cs = text_chars(s);
    let start: usize = if cs.len() > 0 && cs[0] == '+' { 1 } else { 0 };
    let ghost d = without_plus(s@);
    assert(d =~= cs@.skip(start as int));
    if start == cs.len() {
        return None;
    }
    let mut acc: u64 = 0;
    let mut i: usize = start;
    while i < cs.len()
        invariant
            cs@ == s@,
            d == cs@.skip(start as int),
            d == without_plus(s@),
            start <= i <= cs@.len(),
            start < cs@.len(),
            acc <= u32::MAX,
            all_ascii_digits(d.take(i - start)),
            acc == digits_value(d.take(i - start)),
        decreases cs@.len() - i,
    {
        let c = cs[i];
        if !('0' <= c && c <= '9') {
            assert(d[i - start] == c);
            assert(!is_ascii_digit(d[i - start]));
            return None;
        }
        proof {
            lemma_digits_value_prefix_step(d, i - start);
            assert(d.take(i - start + 1) =~= d.take(i - start).push(c));
        }
        let v: u64 = acc * 10 + ((c as u32) - ('0' as u32)) as u64;
        if v > 0xffff_ffff {
            proof {
                assert(all_ascii_digits(d.take(i - start + 1)));
                if all_ascii_digits(d) {
                    lemma_digits_value_grows(d, i - start + 1);
                }
            }
            return None;
        }
        acc = v;
        i = i + 1;
    }
    assert(d.take(cs@.len() - start) =~= d);
    Some(acc as u32)
}


/// The one-character text of the digit `d`.
pub fn digit_text(d: u32) -> (t: &'static str)
    requires
        d < 10,
    ensures
        t@ == seq![digit_char(d as int)],
{
    proof {
        reveal_strlit("0");
        reveal_strlit("1");
        reveal_strlit("2");
        reveal_strlit("3");
        reveal_strlit("4");
        reveal_strlit("5");
        reveal_strlit("6");
        reveal_strlit("7");
        reveal_strlit("8");
        reveal_strlit("9");
    }
    match d {
        0 => "0",
        1 => "1",
        2 => "2",
        3 => "3",
        4 => "4",
        5 => "5",
        6 => "6",
        7 => "7",
        8 => "8",
        _ => "9",
    }
}

/// The decimal text of `n`, as `n.to_string()` writes it.
pub fn decimal_u32(n: u32) -> (s: String)
    ensures
        s@ == decimal_text(n as nat),
    decreases n,
{
    if n < 10 {
        String::from_str(digit_text(n))
    } else {
        let mut s = decimal_u32(n / 10);
        s.append(digit_text(n % 10));
        s
    }
}

proof fn lemma_decimal_text_digits(n: nat)
    ensures
        decimal_text(n).len() >= 1,
        all_ascii_digits(decimal_text(n)),
        digits_value(decimal_text(n)) == n,
    decreases n,
{
    if n >= 10 {
        let prefix = decimal_text(n / 10);
        let c = digit_char((n % 10) as int);
        lemma_decimal_text_digits(n / 10);
        assert(prefix.push(c).drop_last() =~= prefix);
        assert(forall|i: int| 0 <= i < prefix.len() ==> prefix.push(c)[i] == prefix[i]);
        assert(digit_value(c) == n % 10);
        assert((n / 10) * 10 + n % 10 == n);
        assert(decimal_text(n) == prefix.push(c));
        assert(prefix.push(c).last() == c);
        assert(digits_value(prefix.push(c)) == digits_value(prefix) * 10 + digit_value(c));
    } else {
        let c = digit_char(n as int);
        assert(digit_value(c) == n);
        assert(seq![c].drop_last() =~= Seq::<char>::empty());
        assert(digits_value(seq![c]) == digits_value(Seq::<char>::empty()) * 10 + digit_value(c));
    }
}

/// Reading back the decimal text of any `u32` gives that number again.
pub proof fn lemma_decimal_text_reads_back(n: u32)
    ensures
        u32_from_text(decimal_text(n as nat)) == Some(n),
{
    lemma_decimal_text_digits(n as nat);
    let t = decimal_text(n as nat);
    assert(is_ascii_digit(t[0]));
    assert(without_plus(t) == t);
}

} // verus!
