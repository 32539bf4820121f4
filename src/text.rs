//! Text primitives over characters: the splitting, trimming and number
//! reading that the wire protocol and the file names rely on.
use vstd::prelude::*;

verus! {

/// Relies on `str::chars`, collected in order: the characters of `s`.
#[verifier::external_body]
pub(crate) fn chars_of(s: &str) -> (r: Vec<char>)
    ensures
        r@ == s@,
{
    s.chars().collect()
}

/// Relies on `String::push`: appends one character.
#[verifier::external_body]
pub(crate) fn push_char(s: &mut String, c: char)
    ensures
        final(s)@ == old(s)@.push(c),
{
    s.push(c)
}

/// The string holding exactly the given characters.
pub fn string_of(cs: &Vec<char>) -> (r: String)
    ensures
        r@ == cs@,
{
    let mut r = String::new();
    let mut i: usize = 0;
    while i < cs.len()
        invariant
            i <= cs.len(),
            r@ == cs@.take(i as int),
        decreases cs.len() - i,
    {
        push_char(&mut r, cs[i]);
        i = i + 1;
        assert(r@ =~= cs@.take(i as int));
    }
    assert(r@ =~= cs@);
    r
}

/// Whether two character vectors hold the same characters.
pub fn same_chars(a: &Vec<char>, b: &Vec<char>) -> (r: bool)
    ensures
        r == (a@ == b@),
{
    if a.len() != b.len() {
        return false;
    }
    let mut i: usize = 0;
    while i < a.len()
        invariant
            a.len() == b.len(),
            i <= a.len(),
            forall|k: int| 0 <= k < i ==> a@[k] == b@[k],
        decreases a.len() - i,
    {
        if a[i] != b[i] {
            return false;
        }
        i = i + 1;
    }
    assert(a@ =~= b@);
    true
}

/// The characters that carry the Unicode `White_Space` property.
pub open spec fn white_space(c: char) -> bool {
    ('\u{9}' <= c && c <= '\u{d}') || c == ' ' || c == '\u{85}' || c == '\u{a0}'
        || c == '\u{1680}' || ('\u{2000}' <= c && c <= '\u{200a}') || c == '\u{2028}'
        || c == '\u{2029}' || c == '\u{202f}' || c == '\u{205f}' || c == '\u{3000}'
}

/// Whether `c` is white space, as `char::is_whitespace` decides it.
pub fn is_white_space(c: char) -> (r: bool)
    ensures
        r == white_space(c),
{
    ('\u{9}' <= c && c <= '\u{d}') || c == ' ' || c == '\u{85}' || c == '\u{a0}'
        || c == '\u{1680}' || ('\u{2000}' <= c && c <= '\u{200a}') || c == '\u{2028}'
        || c == '\u{2029}' || c == '\u{202f}' || c == '\u{205f}' || c == '\u{3000}'
}

/// `s` without its leading white space.
pub open spec fn trim_start(s: Seq<char>) -> Seq<char>
    decreases s.len(),
{
    if s.len() > 0 && white_space(s[0]) {
        trim_start(s.drop_first())
    } else {
        s
    }
}

/// `s` without its trailing white space.
pub open spec fn trim_end(s: Seq<char>) -> Seq<char>
    decreases s.len(),
{
    if s.len() > 0 && white_space(s.last()) {
        trim_end(s.drop_last())
    } else {
        s
    }
}

/// `s` without white space at either end.
pub open spec fn trimmed(s: Seq<char>) -> Seq<char> {
    trim_end(trim_start(s))
}

/// Removes the white space at both ends, as `str::trim` does.
pub fn trim(s: &Vec<char>) -> (r: Vec<char>)
    ensures
        r@ == trimmed(s@),
{
    let n = s.len();
    let mut i: usize = 0;
    assert(s@.subrange(0, n as int) =~= s@);
    while i < n && is_white_space(s[i])
        invariant
            i <= n,
            n == s.len(),
            trim_start(s@) == trim_start(s@.subrange(i as int, n as int)),
        decreases n - i,
    {
        assert(s@.subrange(i as int, n as int).drop_first() =~= s@.subrange(
            i as int + 1,
            n as int,
        ));
        i = i + 1;
    }
    let ghost front = s@.subrange(i as int, n as int);
    assert(trim_start(front) == front);
    let mut j: usize = n;
    while j > i && is_white_space(s[j - 1])
        invariant
            i <= j <= n,
            n == s.len(),
            trim_end(front) == trim_end(s@.subrange(i as int, j as int)),
        decreases j,
    {
        assert(s@.subrange(i as int, j as int).drop_last() =~= s@.subrange(
            i as int,
            j as int - 1,
        ));
        j = j - 1;
    }
    let mut r: Vec<char> = Vec::new();
    let mut k: usize = i;
    while k < j
        invariant
            i <= k <= j,
            j <= n,
            n == s.len(),
            r@ == s@.subrange(i as int, k as int),
        decreases j - k,
    {
        r.push(s[k]);
        k = k + 1;
        assert(r@ =~= s@.subrange(i as int, k as int));
    }
    r
}

/// The position of the first `d` in `s`, if any.
pub open spec fn first_index(s: Seq<char>, d: char) -> Option<int> {
    if exists|k: int| 0 <= k < s.len() && s[k] == d {
        Some(choose|k: int| 0 <= k < s.len() && s[k] == d && forall|m: int| 0 <= m < k ==> s[m] != d)
    } else {
        None
    }
}

/// The parts of `s` before and after its first `d`, as `str::split_once` gives them.
pub open spec fn split_first(s: Seq<char>, d: char) -> Option<(Seq<char>, Seq<char>)> {
    match first_index(s, d) {
        Some(k) => Some((s.take(k), s.skip(k + 1))),
        None => None,
    }
}

/// Splits `s` at its first `d`.
pub fn split_once(s: &Vec<char>, d: char) -> (r: Option<(Vec<char>, Vec<char>)>)
    ensures
        r is Some <==> split_first(s@, d) is Some,
        r matches Some((a, b)) ==> split_first(s@, d) == Some((a@, b@)),
{
    let mut i: usize = 0;
    while i < s.len()
        invariant
            i <= s.len(),
            forall|m: int| 0 <= m < i ==> s@[m] != d,
        decreases s.len() - i,
    {
        if s[i] == d {
            let ghost k = i as int;
            assert(exists|k: int| 0 <= k < s@.len() && s@[k] == d);
            let ghost c = choose|k: int|
                0 <= k < s@.len() && s@[k] == d && forall|m: int| 0 <= m < k ==> s@[m] != d;
            assert(0 <= k < s@.len() && s@[k] == d && forall|m: int| 0 <= m < k ==> s@[m] != d);
            proof {
                if c < k {
                    assert(s@[c] != d);
                }
                if c > k {
                    assert(s@[k] != d);
                }
            }
            let mut a: Vec<char> = Vec::new();
            let mut j: usize = 0;
            while j < i
                invariant
                    j <= i,
                    i < s.len(),
                    a@ == s@.take(j as int),
                decreases i - j,
            {
                a.push(s[j]);
                j = j + 1;
                assert(a@ =~= s@.take(j as int));
            }
            let mut b: Vec<char> = Vec::new();
            let mut j: usize = i + 1;
            while j < s.len()
                invariant
                    i + 1 <= j <= s.len(),
                    b@ == s@.subrange(i + 1, j as int),
                decreases s.len() - j,
            {
                b.push(s[j]);
                j = j + 1;
                assert(b@ =~= s@.subrange(i + 1, j as int));
            }
            assert(b@ =~= s@.skip(i + 1));
            return Some((a, b));
        }
        i = i + 1;
    }
    None
}

/// The pieces of `s` between the occurrences of `d`, as `str::split` gives them.
pub open spec fn pieces(s: Seq<char>, d: char) -> Seq<Seq<char>>
    decreases s.len(),
{
    if s.len() == 0 {
        seq![Seq::empty()]
    } else {
        let p = pieces(s.drop_last(), d);
        if s.last() == d {
            p.push(Seq::empty())
        } else {
            p.update(p.len() - 1, p.last().push(s.last()))
        }
    }
}

/// There is always at least one piece.
pub proof fn lemma_pieces_nonempty(s: Seq<char>, d: char)
    ensures
        pieces(s, d).len() >= 1,
    decreases s.len(),
{
    if s.len() > 0 {
        lemma_pieces_nonempty(s.drop_last(), d);
    }
}

/// A line without the carriage return that ended it.
pub open spec fn strip_cr(l: Seq<char>) -> Seq<char> {
    if l.len() > 0 && l.last() == '\r' {
        l.drop_last()
    } else {
        l
    }
}

/// The lines of `s`, as `str::lines` gives them: split at each `\n`, a `\r`
/// before it dropped, and no empty line after a final line ending.
pub open spec fn text_lines(s: Seq<char>) -> Seq<Seq<char>> {
    let p = pieces(s, '\n');
    let ended = p.drop_last().map_values(|l: Seq<char>| strip_cr(l));
    if p.last().len() == 0 {
        ended
    } else {
        ended.push(p.last())
    }
}

/// The views of a vector of character vectors.
pub open spec fn views(v: Seq<Vec<char>>) -> Seq<Seq<char>> {
    v.map_values(|x: Vec<char>| x@)
}

/// The lines of `s`.
pub fn lines_of(s: &Vec<char>) -> (r: Vec<Vec<char>>)
    ensures
        views(r@) == text_lines(s@),
{
    let mut done: Vec<Vec<char>> = Vec::new();
    let mut cur: Vec<char> = Vec::new();
    let mut i: usize = 0;
    assert(s@.take(0) =~= Seq::<char>::empty());
    assert(views(done@).push(cur@) =~= seq![Seq::<char>::empty()]);
    while i < s.len()
        invariant
            i <= s.len(),
            pieces(s@.take(i as int), '\n') == views(done@).push(cur@),
        decreases s.len() - i,
    {
        let c = s[i];
        assert(s@.take(i as int + 1).drop_last() =~= s@.take(i as int));
        if c == '\n' {
            let old_cur = cur;
            done.push(old_cur);
            cur = Vec::new();
            assert(views(done@).push(cur@) =~= views(done@.drop_last()).push(old_cur@).push(
                Seq::empty(),
            ));
        } else {
            let ghost before = cur@;
            cur.push(c);
            assert(views(done@).push(cur@) =~= views(done@).push(before).update(
                done@.len() as int,
                before.push(c),
            ));
        }
        i = i + 1;
    }
    assert(s@.take(s.len() as int) =~= s@);
    let ghost p = pieces(s@, '\n');
    assert(p.drop_last() =~= views(done@));
    let mut r: Vec<Vec<char>> = Vec::new();
    let mut k: usize = 0;
    while k < done.len()
        invariant
            k <= done.len(),
            p.drop_last() == views(done@),
            views(r@) == p.drop_last().take(k as int).map_values(|l: Seq<char>| strip_cr(l)),
        decreases done.len() - k,
    {
        let mut l = done[k].clone();
        assert(l@ == done@[k as int]@);
        let n = l.len();
        if n > 0 && l[n - 1] == '\r' {
            l.pop();
        }
        proof {
            assert(l@ == strip_cr(p.drop_last()[k as int]));
        }
        let ghost before = r@;
        let ghost line = l@;
        r.push(l);
        assert(views(r@) =~= views(before).push(line));
        assert(p.drop_last().take(k as int + 1).map_values(|l: Seq<char>| strip_cr(l))
            =~= p.drop_last().take(k as int).map_values(|l: Seq<char>| strip_cr(l)).push(
            strip_cr(p.drop_last()[k as int]),
        ));
        k = k + 1;
    }
    assert(p.drop_last().take(done.len() as int) =~= p.drop_last());
    if cur.len() > 0 {
        r.push(cur);
    }
    assert(views(r@) =~= text_lines(s@));
    r
}

/// Whether `c` is an ASCII decimal digit.
pub open spec fn is_digit(c: char) -> bool {
    '0' <= c && c <= '9'
}

/// The value of the digits of `s`, most significant first.
pub open spec fn digits_value(s: Seq<char>) -> nat
    decreases s.len(),
{
    if s.len() == 0 {
        0
    } else {
        digits_value(s.drop_last()) * 10 + (s.last() as nat - '0' as nat) as nat
    }
}

/// Whether `s` is one or more ASCII digits.
pub open spec fn all_digits(s: Seq<char>) -> bool {
    s.len() > 0 && forall|k: int| 0 <= k < s.len() ==> is_digit(#[trigger] s[k])
}

/// `s` without one leading plus sign.
pub open spec fn unsigned_part(s: Seq<char>) -> Seq<char> {
    if s.len() > 0 && s[0] == '+' {
        s.drop_first()
    } else {
        s
    }
}

/// What `str::parse::<usize>` gives for `s`: an optional `+`, then digits
/// whose value fits.
pub open spec fn parsed_usize(s: Seq<char>) -> Option<usize> {
    let t = unsigned_part(s);
    if all_digits(t) && digits_value(t) <= usize::MAX {
        Some(digits_value(t) as usize)
    } else {
        None
    }
}

proof fn lemma_prefix_value_le(s: Seq<char>, k: int)
    requires
        0 <= k <= s.len(),
        all_digits(s),
    ensures
        digits_value(s.take(k)) <= digits_value(s),
    decreases s.len() - k,
{
    if k < s.len() {
        lemma_prefix_value_le(s, k + 1);
        assert(s.take(k + 1).drop_last() =~= s.take(k));
        assert(is_digit(s[k]));
        assert(s.take(k + 1).last() == s[k]);
        assert(digits_value(s.take(k + 1)) >= digits_value(s.take(k)));
    } else {
        assert(s.take(k) =~= s);
    }
}

/// The value of `s` from `start` on, when that is one or more digits whose
/// value fits in a `u64`.
pub open spec fn digits_from(s: Seq<char>, start: int) -> Option<u64> {
    let t = s.skip(start);
    if all_digits(t) && digits_value(t) <= u64::MAX {
        Some(digits_value(t) as u64)
    } else {
        None
    }
}

/// Reads the digits of `s` from `start` on.
pub fn read_digits(s: &Vec<char>, start: usize) -> (r: Option<u64>)
    requires
        start <= s.len(),
    ensures
        r == digits_from(s@, start as int),
{
    let ghost t = s@.skip(start as int);
    if start >= s.len() {
        return None;
    }
    let mut v: u64 = 0;
    let mut i: usize = start;
    while i < s.len()
        invariant
            start <= i <= s.len(),
            t == s@.skip(start as int),
            v as nat == digits_value(t.take(i - start)),
            forall|k: int| 0 <= k < i - start ==> is_digit(#[trigger] t[k]),
        decreases s.len() - i,
    {
        let c = s[i];
        if c < '0' || c > '9' {
            assert(t[i - start] == c);
            assert(!is_digit(t[i - start]));
            return None;
        }
        let d: u64 = (c as u32 - '0' as u32) as u64;
        assert(t.take(i - start + 1).drop_last() =~= t.take(i - start));
        assert(t[i - start] == c);
        assert(t.take(i - start + 1).last() == c);
        assert(digits_value(t.take(i - start + 1)) == v * 10 + d);
        let m = v.checked_mul(10);
        match m {
            None => {
                proof {
                    if all_digits(t) {
                        lemma_prefix_value_le(t, i - start + 1);
                    }
                }
                return None;
            },
            Some(m) => {
                let a = m.checked_add(d);
                match a {
                    None => {
                        proof {
                            if all_digits(t) {
                                lemma_prefix_value_le(t, i - start + 1);
                            }
                        }
                        return None;
                    },
                    Some(a) => {
                        v = a;
                    },
                }
            },
        }
        i = i + 1;
    }
    assert(t.take(s.len() - start) =~= t);
    Some(v)
}

/// Reads a decimal number as `str::parse::<usize>` does.
pub fn parse_usize(s: &Vec<char>) -> (r: Option<usize>)
    ensures
        r == parsed_usize(s@),
{
    let start: usize = if s.len() > 0 && s[0] == '+' {
        1
    } else {
        0
    };
    assert(unsigned_part(s@) =~= s@.skip(start as int));
    match read_digits(s, start) {
        Some(v) => {
            if v <= usize::MAX as u64 {
                Some(v as usize)
            } else {
                None
            }
        },
        None => None,
    }
}

/// The digit at `i` of a fraction's digits, zero past their end.
pub open spec fn fraction_digit(b: Seq<char>, i: int) -> nat {
    if i < b.len() {
        (b[i] as nat - '0' as nat) as nat
    } else {
        0
    }
}

/// The thousandths that the digits after a decimal point give; those past
/// the third are dropped.
pub open spec fn thousandths(b: Seq<char>) -> nat {
    fraction_digit(b, 0) * 100 + fraction_digit(b, 1) * 10 + fraction_digit(b, 2)
}

/// A level in thousandths, written as digits with an optional decimal point
/// and fraction digits (`"1"`, `"0.25"`, `"2."`).
pub open spec fn level_of(s: Seq<char>) -> Option<u64> {
    match split_first(s, '.') {
        None => if all_digits(s) && digits_value(s) * 1000 <= u64::MAX {
            Some((digits_value(s) * 1000) as u64)
        } else {
            None
        },
        Some((a, b)) => if all_digits(a) && (b.len() == 0 || all_digits(b)) && digits_value(a)
            * 1000 + thousandths(b) <= u64::MAX {
            Some((digits_value(a) * 1000 + thousandths(b)) as u64)
        } else {
            None
        },
    }
}

/// Whether every character of `s` is a digit.
fn only_digits(s: &Vec<char>) -> (r: bool)
    ensures
        r == forall|k: int| 0 <= k < s@.len() ==> is_digit(#[trigger] s@[k]),
{
    let mut i: usize = 0;
    while i < s.len()
        invariant
            i <= s.len(),
            forall|k: int| 0 <= k < i ==> is_digit(#[trigger] s@[k]),
        decreases s.len() - i,
    {
        if s[i] < '0' || s[i] > '9' {
            assert(!is_digit(s@[i as int]));
            return false;
        }
        i = i + 1;
    }
    true
}

/// The digit at `i` of `b`, zero past its end.
fn digit_at(b: &Vec<char>, i: usize) -> (r: u64)
    requires
        forall|k: int| 0 <= k < b@.len() ==> is_digit(#[trigger] b@[k]),
    ensures
        r as nat == fraction_digit(b@, i as int),
        r < 10,
{
    if i < b.len() {
        assert(is_digit(b@[i as int]));
        (b[i] as u32 - '0' as u32) as u64
    } else {
        0
    }
}

/// Reads a level in thousandths.
pub fn parse_level(s: &Vec<char>) -> (r: Option<u64>)
    ensures
        r == level_of(s@),
{
    match split_once(s, '.') {
        None => {
            assert(s@.skip(0) =~= s@);
            match read_digits(s, 0) {
                Some(v) => v.checked_mul(1000),
                None => None,
            }
        },
        Some((a, b)) => {
            assert(a@.skip(0) =~= a@);
            let whole = match read_digits(&a, 0) {
                Some(v) => v,
                None => {
                    return None;
                },
            };
            if !only_digits(&b) {
                return None;
            }
            let milli = digit_at(&b, 0) * 100 + digit_at(&b, 1) * 10 + digit_at(&b, 2);
            match whole.checked_mul(1000) {
                Some(w) => w.checked_add(milli),
                None => None,
            }
        },
    }
}

/// The character of a decimal digit.
pub open spec fn digit_char(d: nat) -> char {
    if d == 0 { '0' } else if d == 1 { '1' } else if d == 2 { '2' } else if d == 3 { '3' }
    else if d == 4 { '4' } else if d == 5 { '5' } else if d == 6 { '6' } else if d == 7 { '7' }
    else if d == 8 { '8' } else { '9' }
}

fn digit(d: u64) -> (c: char)
    requires
        d < 10,
    ensures
        c == digit_char(d as nat),
{
    if d == 0 { '0' } else if d == 1 { '1' } else if d == 2 { '2' } else if d == 3 { '3' }
    else if d == 4 { '4' } else if d == 5 { '5' } else if d == 6 { '6' } else if d == 7 { '7' }
    else if d == 8 { '8' } else { '9' }
}

/// The decimal digits of `n`, without leading zeros.
pub open spec fn decimal(n: nat) -> Seq<char>
    decreases n,
{
    if n < 10 {
        seq![digit_char(n)]
    } else {
        decimal(n / 10).push(digit_char(n % 10))
    }
}

/// Appends the decimal digits of `n` to `out`.
pub fn push_decimal(out: &mut String, n: u64)
    ensures
        final(out)@ == old(out)@ + decimal(n as nat),
    decreases n,
{
    if n >= 10 {
        push_decimal(out, n / 10);
    }
    push_char(out, digit(n % 10));
    assert(out@ =~= old(out)@ + decimal(n as nat));
}

} // verus!
