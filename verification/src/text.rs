//! Text as a sequence of characters: equality, dictionary order, lowercase
//! forms and the decimal rendering of integers.

use vstd::prelude::*;
use vstd::string::*;

verus! {

/// The characters of `s`, in order.
pub fn chars_of(s: &str) -> (r: Vec<char>)
    ensures
        r@ == s@,
{
    let mut out: Vec<char> = Vec::new();
    for c in it: s.chars()
        invariant
            out@ == s@.take(it.index() as int),
            it.seq() == s@,
    {
        out.push(c);
    }
    out
}

/// Whether two texts hold the same characters.
pub fn same_text(a: &str, b: &str) -> (r: bool)
    ensures
        r == (a@ == b@),
{
    let x = chars_of(a);
    let y = chars_of(b);
    if x.len() != y.len() {
        return false;
    }
    let mut i: usize = 0;
    while i < x.len()
        invariant
            i <= x.len(),
            x.len() == y.len(),
            x@ == a@,
            y@ == b@,
            forall|j: int| 0 <= j < i ==> x@[j] == y@[j],
        decreases x.len() - i,
    {
        if x[i] != y[i] {
            return false;
        }
        i += 1;
    }
    assert(x@ =~= y@);
    true
}

/// `a` followed by `b`, as one owned text.
pub fn joined(a: &str, b: &str) -> (r: String)
    ensures
        r@ == a@ + b@,
{
    let mut out = String::from_str(a);
    out.append(b);
    out
}

/// The lowercase form of a text as `str::to_lowercase` defines it, by the
/// lowercase mappings of Unicode and their rule for the Greek final sigma.
pub uninterp spec fn lowercase_of(s: Seq<char>) -> Seq<char>;

/// Calls `str::to_lowercase`. Its result is a function of the input alone;
/// the contract names it and claims nothing else of it.
#[verifier::external_body]
pub(crate) fn to_lowercase(s: &str) -> (r: String)
    ensures
        r@ == lowercase_of(s@),
{
    s.to_lowercase()
}

/// Dictionary order on texts, characters compared by code point: `a` comes
/// strictly before `b`. A proper prefix comes before the longer text.
pub open spec fn lex_lt(a: Seq<char>, b: Seq<char>) -> bool
    decreases a.len(),
{
    if b.len() == 0 {
        false
    } else if a.len() == 0 {
        true
    } else if a[0] != b[0] {
        (a[0] as int) < (b[0] as int)
    } else {
        lex_lt(a.drop_first(), b.drop_first())
    }
}

/// Dictionary order, equality included.
pub open spec fn lex_le(a: Seq<char>, b: Seq<char>) -> bool {
    a == b || lex_lt(a, b)
}

/// Dictionary order is total: of two texts, one comes before the other, or
/// they are the same text; and never more than one of the three.
pub proof fn lemma_lex_order(a: Seq<char>, b: Seq<char>)
    ensures
        lex_lt(a, b) || a == b || lex_lt(b, a),
        !(lex_lt(a, b) && lex_lt(b, a)),
        !(lex_lt(a, b) && a == b),
        lex_le(a, b) <==> !lex_lt(b, a),
    decreases a.len(),
{
    if a.len() > 0 && b.len() > 0 {
        if a[0] == b[0] {
            lemma_lex_order(a.drop_first(), b.drop_first());
            if a.drop_first() == b.drop_first() {
                assert(a =~= seq![a[0]] + a.drop_first());
                assert(b =~= seq![b[0]] + b.drop_first());
            }
        } else {
            assert((a[0] as int) != (b[0] as int));
        }
    } else if a.len() == 0 && b.len() == 0 {
        assert(a =~= b);
    }
}

/// Whether `a` comes strictly before `b` in dictionary order.
pub fn text_lt(a: &str, b: &str) -> (r: bool)
    ensures
        r == lex_lt(a@, b@),
{
    let x = chars_of(a);
    let y = chars_of(b);
    let mut i: usize = 0;
    assert(x@.skip(0) =~= x@ && y@.skip(0) =~= y@);
    while i < x.len() && i < y.len()
        invariant
            i <= x.len(),
            i <= y.len(),
            x@ == a@,
            y@ == b@,
            lex_lt(x@, y@) == lex_lt(x@.skip(i as int), y@.skip(i as int)),
        decreases x.len() - i,
    {
        let ghost xs = x@.skip(i as int);
        let ghost ys = y@.skip(i as int);
        assert(xs[0] == x@[i as int] && ys[0] == y@[i as int]);
        assert(xs.drop_first() =~= x@.skip(i + 1));
        assert(ys.drop_first() =~= y@.skip(i + 1));
        if x[i] != y[i] {
            return x[i] < y[i];
        }
        i += 1;
    }
    i < y.len()
}

/// Whether `a` comes before `b` in dictionary order or equals it.
pub fn text_le(a: &str, b: &str) -> (r: bool)
    ensures
        r == lex_le(a@, b@),
{
    same_text(a, b) || text_lt(a, b)
}

/// The character that writes a digit.
pub open spec fn digit(d: int) -> char
    recommends
        0 <= d <= 9,
{
    if d == 0 {
        '0'
    } else if d == 1 {
        '1'
    } else if d == 2 {
        '2'
    } else if d == 3 {
        '3'
    } else if d == 4 {
        '4'
    } else if d == 5 {
        '5'
    } else if d == 6 {
        '6'
    } else if d == 7 {
        '7'
    } else if d == 8 {
        '8'
    } else {
        '9'
    }
}

/// The decimal digits of a natural number, most significant first, with no
/// leading zero but for the number 0 itself.
pub open spec fn digits_of(n: nat) -> Seq<char>
    decreases n,
{
    if n < 10 {
        seq![digit(n as int)]
    } else {
        digits_of(n / 10).push(digit((n % 10) as int))
    }
}

/// The magnitude of an integer.
pub open spec fn magnitude(n: int) -> nat {
    if n < 0 {
        (-n) as nat
    } else {
        n as nat
    }
}

/// The sign that is written before a number: a minus for a negative one,
/// nothing otherwise.
pub open spec fn sign_of(n: int) -> Seq<char> {
    if n < 0 {
        seq!['-']
    } else {
        Seq::empty()
    }
}

/// An integer in decimal.
pub open spec fn int_text(n: int) -> Seq<char> {
    sign_of(n) + digits_of(magnitude(n))
}

/// `count` zeros.
pub open spec fn zeros(count: nat) -> Seq<char> {
    Seq::new(count, |i: int| '0')
}

/// An integer in decimal, with zeros between sign and digits until the text
/// is at least `width` characters long.
pub open spec fn zero_padded(n: int, width: nat) -> Seq<char> {
    let written = sign_of(n).len() + digits_of(magnitude(n)).len();
    let fill = if written >= width {
        0nat
    } else {
        (width - written) as nat
    };
    sign_of(n) + zeros(fill) + digits_of(magnitude(n))
}

/// The text of one digit.
fn digit_text(d: u64) -> (s: &'static str)
    requires
        d <= 9,
    ensures
        s@ == seq![digit(d as int)],
{
    proof {
        reveal_strlit("0");
        reveal_strlit("1");
        reveal_strlit("2");
        reveal_strlit("3");
        reveal_strlit("4");
        reveal_strlit("5");
        reveal_strlit("6");
        reveal_strlit("7");
        reveal_strlit("8");
        reveal_strlit("9");
    }
    let s = if d == 0 {
        "0"
    } else if d == 1 {
        "1"
    } else if d == 2 {
        "2"
    } else if d == 3 {
        "3"
    } else if d == 4 {
        "4"
    } else if d == 5 {
        "5"
    } else if d == 6 {
        "6"
    } else if d == 7 {
        "7"
    } else if d == 8 {
        "8"
    } else {
        "9"
    };
    assert(s@ =~= seq![digit(d as int)]);
    s
}

/// Appends the digits of `n` to `out`.
pub fn push_digits(out: &mut String, n: u64)
    ensures
        final(out)@ == old(out)@ + digits_of(n as nat),
    decreases n,
{
    if n >= 10 {
        push_digits(out, n / 10);
    }
    out.append(digit_text(n % 10));
    assert(final(out)@ =~= old(out)@ + digits_of(n as nat));
}

/// The magnitude of `n` as a machine number.
pub fn magnitude_of(n: i64) -> (m: u64)
    ensures
        m == magnitude(n as int),
{
    if n < 0 {
        ((0 - (n + 1)) as u64) + 1
    } else {
        n as u64
    }
}

/// Writes an integer in decimal.
pub fn int_to_text(n: i64) -> (r: String)
    ensures
        r@ == int_text(n as int),
{
    let mut out = String::new();
    if n < 0 {
        out.append("-");
    }
    proof {
        reveal_strlit("-");
        assert(out@ =~= sign_of(n as int));
    }
    push_digits(&mut out, magnitude_of(n));
    out
}

/// Writes an integer in decimal, filled with zeros after the sign to a
/// width of at least `width` characters.
pub fn pad_int(n: i64, width: usize) -> (r: String)
    ensures
        r@ == zero_padded(n as int, width as nat),
{
    let mut body = String::new();
    push_digits(&mut body, magnitude_of(n));
    assert(body@ =~= digits_of(magnitude(n as int)));
    let mut out = String::new();
    if n < 0 {
        out.append("-");
    }
    proof {
        reveal_strlit("-");
        reveal_strlit("0");
        assert(out@ =~= sign_of(n as int));
    }
    let sign_len: u128 = if n < 0 {
        1
    } else {
        0
    };
    let written: u128 = (body.as_str().unicode_len() as u128) + sign_len;
    let fill: u128 = if written >= width as u128 {
        0
    } else {
        (width as u128) - written
    };
    let mut done: u128 = 0;
    while done < fill
        invariant
            done <= fill,
            out@ == sign_of(n as int) + zeros(done as nat),
            "0"@ == seq!['0'],
        decreases fill - done,
    {
        out.append("0");
        done += 1;
        assert(out@ =~= sign_of(n as int) + zeros(done as nat));
    }
    out.append(body.as_str());
    out
}

/// The number that a digit character writes.
pub open spec fn digit_value(c: char) -> Option<int> {
    if c == '0' {
        Some(0)
    } else if c == '1' {
        Some(1)
    } else if c == '2' {
        Some(2)
    } else if c == '3' {
        Some(3)
    } else if c == '4' {
        Some(4)
    } else if c == '5' {
        Some(5)
    } else if c == '6' {
        Some(6)
    } else if c == '7' {
        Some(7)
    } else if c == '8' {
        Some(8)
    } else if c == '9' {
        Some(9)
    } else {
        None
    }
}

/// Whether a text is made of digits only.
pub open spec fn all_digits(s: Seq<char>) -> bool {
    forall|i: int| 0 <= i < s.len() ==> digit_value(#[trigger] s[i]) is Some
}

/// The number that a text of digits writes in decimal; 0 for the empty text.
pub open spec fn digits_value(s: Seq<char>) -> int
    decreases s.len(),
{
    if s.len() == 0 {
        0
    } else {
        digits_value(s.drop_last()) * 10 + match digit_value(s.last()) {
            Some(d) => d,
            None => 0,
        }
    }
}

/// A text without the sign it starts with, if it starts with one that
/// `signs` holds.
pub open spec fn unsigned_part(s: Seq<char>, signs: Seq<char>) -> Seq<char> {
    if s.len() > 0 && signs.contains(s[0]) {
        s.drop_first()
    } else {
        s
    }
}

/// The integer that a text writes: an optional `+` or `-` and then at least
/// one digit, nothing before, between or after. `None` for any other text.
pub open spec fn parsed_int(s: Seq<char>) -> Option<int> {
    let body = unsigned_part(s, seq!['+', '-']);
    if body.len() > 0 && all_digits(body) {
        if s[0] == '-' {
            Some(-digits_value(body))
        } else {
            Some(digits_value(body))
        }
    } else {
        None
    }
}

/// The 32-bit signed integer that a text writes, if it writes one.
pub open spec fn parsed_i32(s: Seq<char>) -> Option<i32> {
    match parsed_int(s) {
        Some(v) => if i32::MIN <= v <= i32::MAX {
            Some(v as i32)
        } else {
            None
        },
        None => None,
    }
}

/// The 32-bit unsigned integer that a text writes, if it writes one. Such a
/// text may start with `+` but not with `-`.
pub open spec fn parsed_u32(s: Seq<char>) -> Option<u32> {
    let body = unsigned_part(s, seq!['+']);
    if body.len() > 0 && all_digits(body) && digits_value(body) <= u32::MAX {
        Some(digits_value(body) as u32)
    } else {
        None
    }
}

/// The number written by the start of a text of digits is no larger than the
/// number written by all of it.
pub proof fn lemma_digits_value_grows(s: Seq<char>, k: int)
    requires
        0 <= k <= s.len(),
    ensures
        0 <= digits_value(s.take(k)) <= digits_value(s),
    decreases s.len() - k,
{
    if k == s.len() {
        assert(s.take(k) =~= s);
        lemma_digits_value_nonnegative(s);
    } else {
        lemma_digits_value_grows(s, k + 1);
        assert(s.take(k + 1).drop_last() =~= s.take(k));
        lemma_digits_value_nonnegative(s.take(k));
    }
}

/// A text of digits writes no negative number.
pub proof fn lemma_digits_value_nonnegative(s: Seq<char>)
    ensures
        digits_value(s) >= 0,
    decreases s.len(),
{
    if s.len() > 0 {
        lemma_digits_value_nonnegative(s.drop_last());
    }
}

/// The number that a digit character writes.
fn digit_of(c: char) -> (d: Option<u64>)
    ensures
        match d {
            Some(v) => digit_value(c) == Some(v as int) && v <= 9,
            None => digit_value(c) is None,
        },
{
    if c == '0' {
        Some(0)
    } else if c == '1' {
        Some(1)
    } else if c == '2' {
        Some(2)
    } else if c == '3' {
        Some(3)
    } else if c == '4' {
        Some(4)
    } else if c == '5' {
        Some(5)
    } else if c == '6' {
        Some(6)
    } else if c == '7' {
        Some(7)
    } else if c == '8' {
        Some(8)
    } else if c == '9' {
        Some(9)
    } else {
        None
    }
}

/// Reads the digits of `text` from position `start` up to position `end`.
/// Gives their number where there is at least one character, all are digits
/// and the number is at most `limit`.
fn read_digits(text: &Vec<char>, start: usize, end: usize, limit: u64) -> (r: Option<u64>)
    requires
        start <= end <= text.len(),
        limit <= 0xffff_ffff,
    ensures
        ({
            let body = text@.subrange(start as int, end as int);
            match r {
                Some(v) => body.len() > 0 && all_digits(body) && v == digits_value(body) && v
                    <= limit,
                None => !(body.len() > 0 && all_digits(body) && digits_value(body) <= limit),
            }
        }),
{
    let ghost body = text@.subrange(start as int, end as int);
    if start == end {
        return None;
    }
    let mut value: u64 = 0;
    let mut i: usize = start;
    assert(body.take(0) =~= Seq::<char>::empty());
    while i < end
        invariant
            start <= i <= end <= text.len(),
            body == text@.subrange(start as int, end as int),
            all_digits(body.take(i - start)),
            value == digits_value(body.take(i - start)),
            value <= limit <= 0xffff_ffff,
        decreases end - i,
    {
        let ghost k = i - start;
        assert(body.take(k + 1).drop_last() =~= body.take(k));
        assert(body.take(k + 1).last() == text@[i as int]);
        match digit_of(text[i]) {
            Some(d) => {
                value = value * 10 + d;
                assert(all_digits(body.take(k + 1))) by {
                    assert forall|j: int| 0 <= j < k + 1 implies digit_value(
                        #[trigger] body.take(k + 1)[j],
                    ) is Some by {
                        if j < k {
                            assert(body.take(k + 1)[j] == body.take(k)[j]);
                        }
                    }
                }
                if value > limit {
                    proof {
                        lemma_digits_value_grows(body, k + 1);
                    }
                    return None;
                }
            },
            None => {
                assert(body[k] == text@[i as int]);
                return None;
            },
        }
        i += 1;
    }
    assert(body.take(body.len() as int) =~= body);
    Some(value)
}

/// Reads a 32-bit signed integer, as `str::parse` does: an optional sign,
/// then digits, and nothing else.
pub fn parse_i32(s: &str) -> (r: Option<i32>)
    ensures
        r == parsed_i32(s@),
{
    let text = chars_of(s);
    let signed = text.len() > 0 && (text[0] == '+' || text[0] == '-');
    let negative = text.len() > 0 && text[0] == '-';
    let start: usize = if signed {
        1
    } else {
        0
    };
    proof {
        let signs = seq!['+', '-'];
        assert(signs[0] == '+' && signs[1] == '-');
        assert(text@.subrange(0, text.len() as int) =~= text@);
        if text.len() > 0 {
            assert(text@.subrange(1, text.len() as int) =~= text@.drop_first());
        }
        assert(unsigned_part(s@, signs) == text@.subrange(start as int, text.len() as int));
        lemma_digits_value_nonnegative(text@.subrange(start as int, text.len() as int));
    }
    if negative {
        match read_digits(&text, start, text.len(), 0x8000_0000) {
            Some(v) => Some((0 - (v as i64)) as i32),
            None => None,
        }
    } else {
        match read_digits(&text, start, text.len(), 0x7fff_ffff) {
            Some(v) => Some(v as i32),
            None => None,
        }
    }
}

/// Reads a 32-bit unsigned integer from the characters between two
/// positions, as `str::parse` does: an optional `+`, then digits, and
/// nothing else.
pub fn parse_u32_between(text: &Vec<char>, start: usize, end: usize) -> (r: Option<u32>)
    requires
        start <= end <= text.len(),
    ensures
        r == parsed_u32(text@.subrange(start as int, end as int)),
{
    let ghost part = text@.subrange(start as int, end as int);
    let from: usize = if start < end && text[start] == '+' {
        start + 1
    } else {
        start
    };
    proof {
        let signs = seq!['+'];
        assert(signs[0] == '+');
        if start < end {
            assert(part[0] == text@[start as int]);
            assert(text@.subrange(start + 1, end as int) =~= part.drop_first());
        }
        assert(unsigned_part(part, signs) == text@.subrange(from as int, end as int));
    }
    match read_digits(text, from, end, 0xffff_ffff) {
        Some(v) => Some(v as u32),
        None => None,
    }
}

/// Reads a 32-bit unsigned integer, as `str::parse` does: an optional `+`,
/// then digits, and nothing else.
pub fn parse_u32(s: &str) -> (r: Option<u32>)
    ensures
        r == parsed_u32(s@),
{
    let text = chars_of(s);
    assert(text@.subrange(0, text.len() as int) =~= text@);
    parse_u32_between(&text, 0, text.len())
}

/// The position of the first `c` in a text, and the length of the text where
/// it holds none.
pub open spec fn first_index_of(s: Seq<char>, c: char) -> int
    decreases s.len(),
{
    if s.len() == 0 {
        0
    } else if s[0] == c {
        0
    } else {
        1 + first_index_of(s.drop_first(), c)
    }
}

/// The part of a text before its first `c`; all of it where it holds none.
pub open spec fn before_first(s: Seq<char>, c: char) -> Seq<char> {
    s.subrange(0, first_index_of(s, c))
}

/// The part of a text after its first `c`, if it holds one.
pub open spec fn after_first(s: Seq<char>, c: char) -> Option<Seq<char>> {
    if first_index_of(s, c) < s.len() {
        Some(s.subrange(first_index_of(s, c) + 1, s.len() as int))
    } else {
        None
    }
}

/// A text without the characters `c` that it starts with.
pub open spec fn without_leading(s: Seq<char>, c: char) -> Seq<char>
    decreases s.len(),
{
    if s.len() > 0 && s[0] == c {
        without_leading(s.drop_first(), c)
    } else {
        s
    }
}

/// Whether a text ends with another.
pub open spec fn has_suffix(s: Seq<char>, suffix: Seq<char>) -> bool {
    suffix.len() <= s.len() && s.subrange(s.len() - suffix.len(), s.len() as int) == suffix
}

/// The first `c` stands where no `c` stands before and one stands, or where
/// the text ends.
pub proof fn lemma_first_index_of(s: Seq<char>, c: char, k: int)
    requires
        0 <= k <= s.len(),
        forall|j: int| 0 <= j < k ==> s[j] != c,
        k == s.len() || s[k] == c,
    ensures
        first_index_of(s, c) == k,
    decreases s.len(),
{
    if s.len() > 0 && k > 0 {
        let rest = s.drop_first();
        assert forall|j: int| 0 <= j < k - 1 implies rest[j] != c by {
            assert(rest[j] == s[j + 1]);
        }
        lemma_first_index_of(rest, c, k - 1);
    }
}

/// Finds the first `c` between two positions of a text; gives `end` where
/// there is none.
pub fn find_char(text: &Vec<char>, start: usize, end: usize, c: char) -> (at: usize)
    requires
        start <= end <= text.len(),
    ensures
        start <= at <= end,
        at - start == first_index_of(text@.subrange(start as int, end as int), c),
{
    let ghost part = text@.subrange(start as int, end as int);
    let mut i: usize = start;
    while i < end && text[i] != c
        invariant
            start <= i <= end <= text.len(),
            part == text@.subrange(start as int, end as int),
            forall|j: int| 0 <= j < i - start ==> part[j] != c,
        decreases end - i,
    {
        i += 1;
    }
    proof {
        if i < end {
            assert(part[i - start] == text@[i as int]);
        }
        lemma_first_index_of(part, c, i - start);
    }
    i
}

/// The number of characters `c` that a text starts with.
pub fn count_leading(text: &Vec<char>, c: char) -> (count: usize)
    ensures
        count <= text.len(),
        text@.skip(count as int) == without_leading(text@, c),
{
    let mut i: usize = 0;
    assert(text@.skip(0) =~= text@);
    while i < text.len() && text[i] == c
        invariant
            i <= text.len(),
            without_leading(text@, c) == without_leading(text@.skip(i as int), c),
        decreases text.len() - i,
    {
        assert(text@.skip(i as int).drop_first() =~= text@.skip(i + 1));
        i += 1;
    }
    i
}

/// Whether `s` ends with `suffix`.
pub fn ends_with(s: &str, suffix: &str) -> (r: bool)
    ensures
        r == has_suffix(s@, suffix@),
{
    let text = chars_of(s);
    let tail = chars_of(suffix);
    if tail.len() > text.len() {
        return false;
    }
    let offset: usize = text.len() - tail.len();
    let ghost end = text@.subrange(offset as int, text.len() as int);
    let mut i: usize = 0;
    while i < tail.len()
        invariant
            i <= tail.len() <= text.len(),
            offset == text.len() - tail.len(),
            text@ == s@,
            tail@ == suffix@,
            end == text@.subrange(offset as int, text.len() as int),
            forall|j: int| 0 <= j < i ==> end[j] == tail@[j],
        decreases tail.len() - i,
    {
        if text[offset + i] != tail[i] {
            assert(end[i as int] != tail@[i as int]);
            return false;
        }
        i += 1;
    }
    assert(end =~= tail@);
    true
}

/// Whether a text holds another as a run of consecutive characters.
pub open spec fn holds(s: Seq<char>, part: Seq<char>) -> bool {
    exists|at: int| #[trigger] occurs_at(s, part, at)
}

/// Whether `part` stands in `s` at position `at`.
pub open spec fn occurs_at(s: Seq<char>, part: Seq<char>, at: int) -> bool {
    0 <= at && at + part.len() <= s.len() && s.subrange(at, at + part.len()) == part
}

/// Whether `part` stands in `text` at position `at`.
fn stands_at(text: &Vec<char>, part: &Vec<char>, at: usize) -> (r: bool)
    requires
        at + part.len() <= text.len(),
    ensures
        r == occurs_at(text@, part@, at as int),
{
    let ghost run = text@.subrange(at as int, at + part.len());
    let mut i: usize = 0;
    while i < part.len()
        invariant
            i <= part.len(),
            at + part.len() <= text.len(),
            run == text@.subrange(at as int, at + part.len()),
            forall|j: int| 0 <= j < i ==> run[j] == part@[j],
        decreases part.len() - i,
    {
        if text[at + i] != part[i] {
            assert(run[i as int] != part@[i as int]);
            return false;
        }
        i += 1;
    }
    assert(run =~= part@);
    true
}

/// Whether `s` holds `part` as a run of consecutive characters.
pub fn contains(s: &str, part: &str) -> (r: bool)
    ensures
        r == holds(s@, part@),
{
    let text = chars_of(s);
    let wanted = chars_of(part);
    if wanted.len() > text.len() {
        assert forall|at: int| !occurs_at(s@, part@, at) by {}
        return false;
    }
    let last: usize = text.len() - wanted.len();
    let mut at: usize = 0;
    while at < last
        invariant
            at <= last,
            last == text.len() - wanted.len(),
            text@ == s@,
            wanted@ == part@,
            forall|k: int| 0 <= k < at ==> !occurs_at(s@, part@, k),
        decreases last - at,
    {
        if stands_at(&text, &wanted, at) {
            return true;
        }
        at += 1;
    }
    if stands_at(&text, &wanted, last) {
        return true;
    }
    assert forall|k: int| !occurs_at(s@, part@, k) by {}
    false
}

/// The first of two optional values that is there.
pub open spec fn first_of<T>(first: Option<T>, second: Option<T>) -> Option<T> {
    if first is Some {
        first
    } else {
        second
    }
}

/// The first of two optional values that is there.
pub fn first_some<T>(first: Option<T>, second: Option<T>) -> (r: Option<T>)
    ensures
        r == first_of(first, second),
{
    match first {
        Some(value) => Some(value),
        None => second,
    }
}

} // verus!
