use vstd::prelude::*;

verus! {

/// `needle` occurs in `hay` as a contiguous run of characters starting at `start`.
pub open spec fn occurs_at(hay: Seq<char>, needle: Seq<char>, start: int) -> bool {
    &&& 0 <= start
    &&& start + needle.len() <= hay.len()
    &&& hay.subrange(start, start + needle.len()) == needle
}

/// `needle` occurs somewhere in `hay` (the empty needle occurs everywhere).
pub open spec fn contains_seq(hay: Seq<char>, needle: Seq<char>) -> bool {
    exists|start: int| occurs_at(hay, needle, start)
}

/// The characters of a string slice, in order.
pub fn chars_of(s: &str) -> (res: Vec<char>)
    ensures
        res@ == s@,
{
    let mut res: Vec<char> = Vec::new();
    for c in it: s.chars()
        invariant
            res@ == it.seq().take(it.index() as int),
    {
        res.push(c);
    }
    res
}

/// Whether two string slices hold the same characters.
pub fn str_eq(a: &str, b: &str) -> (res: bool)
    ensures
        res == (a@ == b@),
{
    let x = a.to_owned();
    let y = b.to_owned();
    x == y
}

/// Whether `hay` and `needle` agree on the window starting at `start`.
fn matches_at(hay: &Vec<char>, needle: &Vec<char>, start: usize) -> (res: bool)
    requires
        start + needle@.len() <= hay@.len(),
    ensures
        res == occurs_at(hay@, needle@, start as int),
{
    let mut k: usize = 0;
    while k < needle.len()
        invariant
            start + needle@.len() <= hay@.len(),
            k <= needle@.len(),
            forall|j: int| 0 <= j < k ==> hay@[start + j] == needle@[j],
        decreases needle@.len() - k,
    {
        assert(start + k < hay.len());
        if hay[start + k] != needle[k] {
            assert(hay@.subrange(start as int, start + needle@.len())[k as int] != needle@[k as int]);
            return false;
        }
        k = k + 1;
    }
    assert(hay@.subrange(start as int, start + needle@.len()) =~= needle@);
    true
}

/// Substring search over characters: `str::contains` with a string pattern.
pub fn contains_str(hay: &str, needle: &str) -> (res: bool)
    ensures
        res == contains_seq(hay@, needle@),
{
    let h = chars_of(hay);
    let n = chars_of(needle);
    if n.len() > h.len() {
        assert forall|s: int| !occurs_at(hay@, needle@, s) by {}
        return false;
    }
    let last: usize = h.len() - n.len();
    let mut i: usize = 0;
    while i <= last
        invariant
            h@ == hay@,
            n@ == needle@,
            last + n@.len() == h@.len(),
            forall|s: int| 0 <= s < i ==> !occurs_at(hay@, needle@, s),
        decreases last + 1 - i,
    {
        if matches_at(&h, &n, i) {
            return true;
        }
        if i == last {
            assert forall|s: int| !occurs_at(hay@, needle@, s) by {
                if 0 <= s && s + needle@.len() <= hay@.len() {
                    assert(s <= last);
                }
            }
            return false;
        }
        i = i + 1;
    }
    false
}

}

verus! {

/// The decimal digit character for `d`.
pub open spec fn digit_char(d: nat) -> char {
    if d == 0 { '0' }
    else if d == 1 { '1' }
    else if d == 2 { '2' }
    else if d == 3 { '3' }
    else if d == 4 { '4' }
    else if d == 5 { '5' }
    else if d == 6 { '6' }
    else if d == 7 { '7' }
    else if d == 8 { '8' }
    else { '9' }
}

/// The decimal notation of `n`, without leading zeros.
pub open spec fn decimal(n: nat) -> Seq<char>
    decreases n,
{
    if n < 10 {
        seq![digit_char(n)]
    } else {
        decimal(n / 10).push(digit_char(n % 10))
    }
}

/// `n` in decimal, zero-padded to at least two digits.
pub open spec fn pad2(n: nat) -> Seq<char> {
    if n < 10 { seq!['0'] + decimal(n) } else { decimal(n) }
}

/// `n` in decimal, zero-padded to at least four digits.
pub open spec fn pad4(n: nat) -> Seq<char> {
    if n < 10 {
        seq!['0', '0', '0'] + decimal(n)
    } else if n < 100 {
        seq!['0', '0'] + decimal(n)
    } else if n < 1000 {
        seq!['0'] + decimal(n)
    } else {
        decimal(n)
    }
}

/// The number of decimal digits of `n`, below ten thousand.
pub proof fn lemma_decimal_len(n: nat)
    requires
        n < 10000,
    ensures
        n < 10 ==> decimal(n).len() == 1,
        10 <= n < 100 ==> decimal(n).len() == 2,
        100 <= n < 1000 ==> decimal(n).len() == 3,
        1000 <= n ==> decimal(n).len() == 4,
    decreases n,
{
    if n >= 10 {
        lemma_decimal_len(n / 10);
    }
}

/// `pad2` of a number below a hundred has two characters.
pub proof fn lemma_pad2_len(n: nat)
    requires
        n < 100,
    ensures
        pad2(n).len() == 2,
{
    lemma_decimal_len(n);
}

/// `pad4` of a number below ten thousand has four characters.
pub proof fn lemma_pad4_len(n: nat)
    requires
        n < 10000,
    ensures
        pad4(n).len() == 4,
{
    lemma_decimal_len(n);
}

/// A year as the `%Y` field prints it: four digits in 0..=9999, otherwise with a sign.
pub open spec fn year_text(y: int) -> Seq<char> {
    if 0 <= y <= 9999 {
        pad4(y as nat)
    } else if y > 9999 {
        seq!['+'] + pad4(y as nat)
    } else {
        seq!['-'] + pad4((-y) as nat)
    }
}

/// The one-character string of a decimal digit.
fn digit_str(d: u64) -> (res: &'static str)
    requires
        d < 10,
    ensures
        res@ == seq![digit_char(d as nat)],
{
    proof {
        reveal_strlit("0");
        reveal_strlit("1");
        reveal_strlit("2");
        reveal_strlit("3");
        reveal_strlit("4");
        reveal_strlit("5");
        reveal_strlit("6");
        reveal_strlit("7");
        reveal_strlit("8");
        reveal_strlit("9");
    }
    if d == 0 { "0" }
    else if d == 1 { "1" }
    else if d == 2 { "2" }
    else if d == 3 { "3" }
    else if d == 4 { "4" }
    else if d == 5 { "5" }
    else if d == 6 { "6" }
    else if d == 7 { "7" }
    else if d == 8 { "8" }
    else { "9" }
}

/// `n` in decimal.
pub fn decimal_string(n: u64) -> (res: String)
    ensures
        res@ == decimal(n as nat),
    decreases n,
{
    if n < 10 {
        String::from_str(digit_str(n))
    } else {
        let head = decimal_string(n / 10);
        head.concat(digit_str(n % 10))
    }
}

/// `n` zero-padded to two digits.
pub fn pad2_string(n: u64) -> (res: String)
    ensures
        res@ == pad2(n as nat),
{
    proof {
        reveal_strlit("0");
    }
    let digits = decimal_string(n);
    if n < 10 {
        String::from_str("0").concat(digits.as_str())
    } else {
        digits
    }
}

/// `n` zero-padded to four digits.
pub fn pad4_string(n: u64) -> (res: String)
    ensures
        res@ == pad4(n as nat),
{
    proof {
        reveal_strlit("0");
        reveal_strlit("00");
        reveal_strlit("000");
    }
    let digits = decimal_string(n);
    if n < 10 {
        String::from_str("000").concat(digits.as_str())
    } else if n < 100 {
        String::from_str("00").concat(digits.as_str())
    } else if n < 1000 {
        String::from_str("0").concat(digits.as_str())
    } else {
        digits
    }
}

/// A year formatted as the `%Y` field.
pub fn year_string(y: i32) -> (res: String)
    ensures
        res@ == year_text(y as int),
{
    proof {
        reveal_strlit("+");
        reveal_strlit("-");
    }
    if 0 <= y && y <= 9999 {
        pad4_string(y as u64)
    } else if y > 9999 {
        String::from_str("+").concat(pad4_string(y as u64).as_str())
    } else {
        let magnitude: u64 = (0 - (y as i64)) as u64;
        String::from_str("-").concat(pad4_string(magnitude).as_str())
    }
}

}

verus! {

/// An ASCII decimal digit.
pub open spec fn is_digit(c: char) -> bool {
    '0' <= c && c <= '9'
}

/// The value of a digit character.
pub open spec fn digit_value(c: char) -> int {
    c as int - '0' as int
}

/// The value of a run of decimal digits, most significant first.
pub open spec fn digits_value(s: Seq<char>) -> int
    decreases s.len(),
{
    if s.len() == 0 {
        0
    } else {
        digits_value(s.drop_last()) * 10 + digit_value(s.last())
    }
}

/// The digits of an unsigned number: a single leading `+` is allowed.
pub open spec fn unsigned_digits(s: Seq<char>) -> Seq<char> {
    if s.len() > 0 && s[0] == '+' {
        s.skip(1)
    } else {
        s
    }
}

/// What `str::parse::<u64>` gives: the value of a non-empty run of ASCII digits after an
/// optional `+`, when it fits in 64 bits.
pub open spec fn parsed_u64(s: Seq<char>) -> Option<u64> {
    let d = unsigned_digits(s);
    if d.len() > 0 && (forall|i: int| 0 <= i < d.len() ==> #[trigger] is_digit(d[i]))
        && digits_value(d) <= u64::MAX {
        Some(digits_value(d) as u64)
    } else {
        None
    }
}

proof fn lemma_digits_value_grows(s: Seq<char>, k: int)
    requires
        0 <= k <= s.len(),
        forall|i: int| 0 <= i < s.len() ==> #[trigger] is_digit(s[i]),
    ensures
        digits_value(s.take(k)) <= digits_value(s),
        0 <= digits_value(s.take(k)),
    decreases s.len() - k,
{
    if k < s.len() {
        lemma_digits_value_grows(s, k + 1);
        let t = s.take(k + 1);
        assert(t.drop_last() =~= s.take(k));
        assert(t.last() == s[k]);
        assert(is_digit(s[k]));
        assert(forall|i: int| 0 <= i < s.take(k).len() ==> s.take(k)[i] == s[i]);
        lemma_digits_value_nonneg(s.take(k));
        assert(digits_value(t) == digits_value(s.take(k)) * 10 + digit_value(s[k]));
    } else {
        assert(s.take(k) =~= s);
        lemma_digits_value_nonneg(s);
    }
}

proof fn lemma_digits_value_nonneg(s: Seq<char>)
    requires
        forall|i: int| 0 <= i < s.len() ==> #[trigger] is_digit(s[i]),
    ensures
        0 <= digits_value(s),
    decreases s.len(),
{
    if s.len() > 0 {
        assert(forall|i: int| 0 <= i < s.drop_last().len() ==> s.drop_last()[i] == s[i]);
        lemma_digits_value_nonneg(s.drop_last());
        assert(is_digit(s[s.len() - 1]));
    }
}

/// The numeric value of an ASCII digit.
fn digit_of(c: char) -> (res: u64)
    requires
        is_digit(c),
    ensures
        res == digit_value(c),
{
    (c as u32 - '0' as u32) as u64
}

/// Parses an unsigned decimal number as `str::parse::<u64>` does.
pub fn parse_u64(text: &str) -> (res: Option<u64>)
    ensures
        res == parsed_u64(text@),
{
    let chars = chars_of(text);
    let start: usize = if chars.len() > 0 && chars[0] == '+' { 1 } else { 0 };
    let ghost d = unsigned_digits(text@);
    assert(d =~= chars@.skip(start as int));
    if start >= chars.len() {
        return None;
    }
    let mut acc: u64 = 0;
    let mut i: usize = start;
    while i < chars.len()
        invariant
            chars@ == text@,
            d == chars@.skip(start as int),
            d == unsigned_digits(text@),
            start <= i <= chars@.len(),
            acc == digits_value(d.take(i - start)),
            forall|j: int| 0 <= j < i - start ==> #[trigger] is_digit(d[j]),
        decreases chars@.len() - i,
    {
        let c = chars[i];
        assert(d[i - start] == c);
        if !('0' <= c && c <= '9') {
            assert(!is_digit(d[i - start]));
            assert(!(forall|j: int| 0 <= j < d.len() ==> #[trigger] is_digit(d[j])));
            assert(parsed_u64(text@) is None);
            return None;
        }
        let v = digit_of(c);
        proof {
            assert(d.take(i - start + 1).drop_last() =~= d.take(i - start));
            assert(d.take(i - start + 1).last() == c);
            assert(digits_value(d.take(i - start + 1)) == acc * 10 + v);
        }
        match acc.checked_mul(10) {
            Some(m) => {
                match m.checked_add(v) {
                    Some(next) => {
                        acc = next;
                    },
                    None => {
                        proof {
                            assert(forall|j: int| 0 <= j < i - start + 1 ==> #[trigger] is_digit(d.take(i - start + 1)[j]));
                            if forall|j: int| 0 <= j < d.len() ==> #[trigger] is_digit(d[j]) {
                                lemma_digits_value_grows(d, i - start + 1);
                                assert(digits_value(d) > u64::MAX);
                            }
                            assert(parsed_u64(text@) is None);
                        }
                        return None;
                    },
                }
            },
            None => {
                proof {
                    if forall|j: int| 0 <= j < d.len() ==> #[trigger] is_digit(d[j]) {
                        lemma_digits_value_grows(d, i - start + 1);
                        lemma_digits_value_nonneg(d.take(i - start));
                    }
                }
                return None;
            },
        }
        i = i + 1;
    }
    assert(d.take(i - start) =~= d);
    Some(acc)
}

}

verus! {

/// Every non-overlapping occurrence of `pat` in `s`, scanned from the left, replaced by `rep`
/// (what `str::replace` gives for a non-empty pattern).
pub open spec fn replaced(s: Seq<char>, pat: Seq<char>, rep: Seq<char>) -> Seq<char>
    recommends
        pat.len() > 0,
    decreases s.len(),
{
    if s.len() < pat.len() || pat.len() == 0 {
        s
    } else if s.take(pat.len() as int) == pat {
        rep + replaced(s.skip(pat.len() as int), pat, rep)
    } else {
        seq![s[0]] + replaced(s.skip(1), pat, rep)
    }
}

/// Replaces every occurrence of a non-empty pattern, as `str::replace` does.
pub fn replace_all(s: &str, pat: &str, rep: &str) -> (res: String)
    requires
        pat@.len() > 0,
    ensures
        res@ == replaced(s@, pat@, rep@),
{
    let h = chars_of(s);
    let p = chars_of(pat);
    let mut out = String::new();
    let mut seg: usize = 0;
    let mut i: usize = 0;
    proof {
        assert(s@.skip(0) =~= s@);
        assert(s@.subrange(0, 0) =~= Seq::<char>::empty());
    }
    while i < h.len()
        invariant
            h@ == s@,
            p@ == pat@,
            p@.len() > 0,
            seg <= i <= h@.len(),
            replaced(s@, pat@, rep@) == out@ + s@.subrange(seg as int, i as int) + replaced(
                s@.skip(i as int),
                pat@,
                rep@,
            ),
        decreases h@.len() - i,
    {
        let ghost rest = s@.skip(i as int);
        if p.len() <= h.len() - i && matches_at(&h, &p, i) {
            let piece = s.substring_char(seg, i);
            out.append(piece);
            out.append(rep);
            proof {
                assert(rest.take(pat@.len() as int) =~= s@.subrange(i as int, i + pat@.len()));
                assert(rest.skip(pat@.len() as int) =~= s@.skip(i + pat@.len()));
                assert(s@.subrange(i + pat@.len(), i + pat@.len()) =~= Seq::<char>::empty());
            }
            i = i + p.len();
            seg = i;
        } else {
            proof {
                if rest.len() < pat@.len() {
                    assert(rest.skip(1).len() < pat@.len());
                    assert(replaced(rest.skip(1), pat@, rep@) == rest.skip(1));
                } else {
                    assert(rest.take(pat@.len() as int) =~= s@.subrange(i as int, i + pat@.len()));
                }
                assert(rest.skip(1) =~= s@.skip(i + 1));
                assert(s@.subrange(seg as int, i + 1) =~= s@.subrange(seg as int, i as int) + seq![rest[0]]);
            }
            i = i + 1;
        }
    }
    let tail = s.substring_char(seg, h.len());
    out.append(tail);
    proof {
        assert(s@.skip(i as int) =~= Seq::<char>::empty());
    }
    out
}

}
