use vstd::prelude::*;

verus! {

/// The character of a decimal digit `d` (0 to 9).
pub open spec fn digit_char(d: int) -> char {
    (d + 48) as char
}

/// Whether `c` is one of the ASCII digits `0` to `9`.
pub open spec fn is_digit(c: char) -> bool {
    '0' <= c && c <= '9'
}

/// The value of the ASCII digit `c`.
pub open spec fn digit_value(c: char) -> int {
    c as int - 48
}

/// The decimal text of `n`, without sign or leading zeros (`0` is written `"0"`).
pub open spec fn decimal(n: nat) -> Seq<char>
    decreases n,
{
    if n < 10 {
        seq![digit_char(n as int)]
    } else {
        decimal(n / 10).push(digit_char((n % 10) as int))
    }
}

fn digit_str(d: u32) -> (r: &'static str)
    requires
        d < 10,
    ensures
        r@ == seq![digit_char(d as int)],
{
    if d == 0 {
        proof { reveal_strlit("0"); }
        "0"
    } else if d == 1 {
        proof { reveal_strlit("1"); }
        "1"
    } else if d == 2 {
        proof { reveal_strlit("2"); }
        "2"
    } else if d == 3 {
        proof { reveal_strlit("3"); }
        "3"
    } else if d == 4 {
        proof { reveal_strlit("4"); }
        "4"
    } else if d == 5 {
        proof { reveal_strlit("5"); }
        "5"
    } else if d == 6 {
        proof { reveal_strlit("6"); }
        "6"
    } else if d == 7 {
        proof { reveal_strlit("7"); }
        "7"
    } else if d == 8 {
        proof { reveal_strlit("8"); }
        "8"
    } else {
        proof { reveal_strlit("9"); }
        "9"
    }
}

/// Appends the decimal text of `n` to `out`.
pub fn push_decimal(out: &mut String, n: u32)
    ensures
        final(out)@ == old(out)@ + decimal(n as nat),
    decreases n,
{
    if n < 10 {
        out.append(digit_str(n));
    } else {
        push_decimal(out, n / 10);
        out.append(digit_str(n % 10));
    }
}

/// The decimal text of `n`, as `n.to_string()` writes it.
pub fn u32_to_decimal(n: u32) -> (r: String)
    ensures
        r@ == decimal(n as nat),
{
    let mut s = String::new();
    push_decimal(&mut s, n);
    s
}


/// Whether every character of `s` is an ASCII digit.
pub open spec fn all_digits(s: Seq<char>) -> bool {
    forall|i: int| 0 <= i < s.len() ==> #[trigger] is_digit(s[i])
}

/// The number that the digits `s` write in base ten (most significant first).
pub open spec fn digits_value(s: Seq<char>) -> int
    decreases s.len(),
{
    if s.len() == 0 {
        0
    } else {
        digits_value(s.drop_last()) * 10 + digit_value(s.last())
    }
}

/// `s` without one leading `+`, if it has one.
pub open spec fn unsigned_digits(s: Seq<char>) -> Seq<char> {
    if s.len() > 0 && s[0] == '+' {
        s.drop_first()
    } else {
        s
    }
}

/// What `s.parse::<u32>()` gives, as `Option`: an optional leading `+`, then one or more
/// ASCII digits whose value fits in a `u32`; anything else is refused.
pub open spec fn parse_u32_spec(s: Seq<char>) -> Option<u32> {
    let d = unsigned_digits(s);
    if d.len() > 0 && all_digits(d) && digits_value(d) <= u32::MAX {
        Some(digits_value(d) as u32)
    } else {
        None
    }
}

/// The index of the first `/` in `s`, or its length where it has none.
pub open spec fn slash_index(s: Seq<char>) -> nat
    decreases s.len(),
{
    if s.len() == 0 {
        0
    } else if s[0] == '/' {
        0
    } else {
        1 + slash_index(s.drop_first())
    }
}

/// The first piece of `s.split('/')`: everything before the first `/`.
pub open spec fn first_segment(s: Seq<char>) -> Seq<char> {
    s.take(slash_index(s) as int)
}

/// The second piece of `s.split('/')`, where `s` holds a `/`.
pub open spec fn second_segment(s: Seq<char>) -> Option<Seq<char>> {
    if slash_index(s) < s.len() {
        let rest = s.skip(slash_index(s) + 1int);
        Some(rest.take(slash_index(rest) as int))
    } else {
        None
    }
}

/// A name for what `str::to_lowercase` returns for a string with these characters
/// (the Unicode lowercase mapping of each character, with the final-sigma rule).
pub uninterp spec fn lowercase(s: Seq<char>) -> Seq<char>;

/// Calls `str::to_lowercase`. Claimed: the result is `lowercase` of the argument, a
/// function of the argument's characters alone. Nothing more is claimed of it.
#[verifier::external_body]
pub(crate) fn to_lowercase(s: &str) -> (r: String)
    ensures
        r@ == lowercase(s@),
{
    s.to_lowercase()
}

/// The characters of `s`, in order.
pub fn str_chars(s: &str) -> (r: Vec<char>)
    ensures
        r@ == s@,
{
    let n = s.unicode_len();
    let mut v: Vec<char> = Vec::new();
    let mut i: usize = 0;
    while i < n
        invariant
            n == s@.len(),
            i <= n,
            v@ == s@.take(i as int),
        decreases n - i,
    {
        v.push(s.get_char(i));
        i += 1;
        assert(v@ =~= s@.take(i as int));
    }
    assert(v@ =~= s@);
    v
}

/// The index of the first `/` in `v` at or after `start`, or `v.len()`.
pub fn find_slash(v: &Vec<char>, start: usize) -> (r: usize)
    requires
        start <= v.len(),
    ensures
        start <= r <= v.len(),
        r - start == slash_index(v@.subrange(start as int, v.len() as int)),
{
    let n = v.len();
    let mut i = start;
    while i < n && v[i] != '/'
        invariant
            n == v.len(),
            start <= i <= n,
            slash_index(v@.subrange(start as int, n as int)) == (i - start) + slash_index(
                v@.subrange(i as int, n as int),
            ),
        decreases n - i,
    {
        assert(v@.subrange(i as int, n as int).drop_first() =~= v@.subrange(i + 1, n as int));
        i += 1;
    }
    i
}

proof fn lemma_digits_prefix_monotone(d: Seq<char>, k: int)
    requires
        0 <= k <= d.len(),
        all_digits(d),
    ensures
        digits_value(d.take(k)) <= digits_value(d),
        0 <= digits_value(d.take(k)),
    decreases d.len() - k,
{
    if k == d.len() {
        assert(d.take(k) =~= d);
        lemma_digits_nonneg(d);
    } else {
        lemma_digits_prefix_monotone(d, k + 1);
        assert(d.take(k + 1).drop_last() =~= d.take(k));
        assert(is_digit(d[k]));
        lemma_digits_nonneg(d.take(k));
    }
}

proof fn lemma_digits_nonneg(d: Seq<char>)
    requires
        all_digits(d),
    ensures
        0 <= digits_value(d),
    decreases d.len(),
{
    if d.len() > 0 {
        assert(is_digit(d[d.len() - 1]));
        lemma_digits_nonneg(d.drop_last());
    }
}

/// Parses `v[start..end]` as `str::parse::<u32>` does.
pub fn parse_u32_range(v: &Vec<char>, start: usize, end: usize) -> (r: Option<u32>)
    requires
        start <= end <= v.len(),
    ensures
        r == parse_u32_spec(v@.subrange(start as int, end as int)),
{
    let ghost s = v@.subrange(start as int, end as int);
    let mut i = start;
    if i < end && v[i] == '+' {
        i += 1;
    }
    let ghost d = unsigned_digits(s);
    assert(d =~= v@.subrange(i as int, end as int));
    if i == end {
        return None;
    }
    let begin = i;
    let mut acc: u64 = 0;
    while i < end
        invariant
            start <= begin <= i <= end <= v.len(),
            d == v@.subrange(begin as int, end as int),
            s == v@.subrange(start as int, end as int),
            d == unsigned_digits(s),
            d.len() > 0,
            all_digits(d.take(i - begin)),
            acc == digits_value(d.take(i - begin)),
            acc <= u32::MAX,
        decreases end - i,
    {
        let c = v[i];
        if !('0' <= c && c <= '9') {
            assert(!is_digit(d[i - begin]));
            return None;
        }
        let dv = (c as u32 - 48) as u64;
        assert(d.take(i + 1 - begin).drop_last() =~= d.take(i - begin));
        acc = acc * 10 + dv;
        i += 1;
        assert(all_digits(d.take(i - begin)));
        if acc > 0xffff_ffff {
            proof {
                if all_digits(d) {
                    lemma_digits_prefix_monotone(d, i - begin);
                }
            }
            return None;
        }
    }
    assert(d.take(i - begin) =~= d);
    Some(acc as u32)
}


pub proof fn lemma_digit_char_value(d: int)
    requires
        0 <= d < 10,
    ensures
        digit_value(digit_char(d)) == d,
        is_digit(digit_char(d)),
{
}

/// The decimal text of `n` is digits only, and reads back as `n`.
pub proof fn lemma_decimal_digits(n: nat)
    ensures
        decimal(n).len() > 0,
        all_digits(decimal(n)),
        digits_value(decimal(n)) == n,
    decreases n,
{
    let d = decimal(n);
    lemma_digit_char_value((n % 10) as int);
    if n < 10 {
        assert(d.drop_last() =~= Seq::<char>::empty());
        assert(d.last() == digit_char(n as int));
        assert(digits_value(d) == digits_value(d.drop_last()) * 10 + digit_value(d.last()));
    } else {
        lemma_decimal_digits(n / 10);
        assert(d.drop_last() =~= decimal(n / 10));
        assert(digits_value(d) == digits_value(d.drop_last()) * 10 + digit_value(d.last()));
        assert(digits_value(d) == (n / 10) * 10 + n % 10);
        assert forall|i: int| 0 <= i < d.len() implies #[trigger] is_digit(d[i]) by {
            if i < d.len() - 1 {
                assert(d[i] == decimal(n / 10)[i]);
            }
        }
    }
}

/// `str::parse::<u32>` reads the decimal text of `n` back as `n`.
pub proof fn lemma_parse_decimal(n: u32)
    ensures
        parse_u32_spec(decimal(n as nat)) == Some(n),
{
    lemma_decimal_digits(n as nat);
    let d = decimal(n as nat);
    assert(is_digit(d[0]));
    assert(unsigned_digits(d) == d);
}

/// Where `a` holds no `/`, the first `/` of `a`, a `/`, then `b` is the one after `a`.
pub proof fn lemma_slash_index_after(a: Seq<char>, b: Seq<char>)
    requires
        forall|i: int| 0 <= i < a.len() ==> a[i] != '/',
    ensures
        slash_index(a + seq!['/'] + b) == a.len(),
    decreases a.len(),
{
    let s = a + seq!['/'] + b;
    if a.len() > 0 {
        assert(s.drop_first() =~= a.drop_first() + seq!['/'] + b);
        lemma_slash_index_after(a.drop_first(), b);
    }
}

/// A text without `/` is one piece whole.
pub proof fn lemma_slash_index_none(a: Seq<char>)
    requires
        forall|i: int| 0 <= i < a.len() ==> a[i] != '/',
    ensures
        slash_index(a) == a.len(),
    decreases a.len(),
{
    if a.len() > 0 {
        lemma_slash_index_none(a.drop_first());
    }
}


/// The first `/` of two texts one after the other: the first one's, or else the second one's
/// after it.
pub proof fn lemma_slash_index_concat(a: Seq<char>, b: Seq<char>)
    ensures
        slash_index(a + b) == if slash_index(a) < a.len() {
            slash_index(a)
        } else {
            a.len() + slash_index(b)
        },
    decreases a.len(),
{
    if a.len() == 0 {
        assert(a + b =~= b);
    } else {
        assert((a + b)[0] == a[0]);
        assert((a + b).drop_first() =~= a.drop_first() + b);
        lemma_slash_index_concat(a.drop_first(), b);
    }
}

proof fn lemma_slash_index_bound(a: Seq<char>)
    ensures
        slash_index(a) <= a.len(),
        slash_index(a) < a.len() ==> a[slash_index(a) as int] == '/',
    decreases a.len(),
{
    if a.len() > 0 && a[0] != '/' {
        lemma_slash_index_bound(a.drop_first());
    }
}

/// Text after a second `/` is never read: where `s` holds a `/`, adding `/` and anything to its
/// end changes neither its first nor its second piece.
pub proof fn lemma_segments_ignore_tail(s: Seq<char>, extra: Seq<char>)
    requires
        slash_index(s) < s.len(),
    ensures
        first_segment(s + seq!['/'] + extra) == first_segment(s),
        second_segment(s + seq!['/'] + extra) == second_segment(s),
{
    let t = s + seq!['/'] + extra;
    let tail = seq!['/'] + extra;
    assert(t =~= s + tail);
    lemma_slash_index_concat(s, tail);
    lemma_slash_index_bound(s);
    let k = slash_index(s) as int;
    assert(t.take(k) =~= s.take(k));
    let rest = s.skip(k + 1);
    assert(t.skip(k + 1) =~= rest + tail);
    lemma_slash_index_concat(rest, tail);
    lemma_slash_index_bound(rest);
    assert(tail[0] == '/');
    assert(slash_index(tail) == 0);
    assert((rest + tail).take(slash_index(rest + tail) as int) =~= rest.take(
        slash_index(rest) as int,
    ));
}

} // verus!
