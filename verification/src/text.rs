//! Character-level text helpers: decimal numbers, lines, `:`-separated fields
//! and whitespace trimming, each stated over the characters of a string.
use vstd::prelude::*;

verus! {

// ---------------------------------------------------------------------------
// Specifications
// ---------------------------------------------------------------------------

/// Whether `c` is an ASCII decimal digit.
pub open spec fn is_digit(c: char) -> bool {
    '0' <= c && c <= '9'
}

/// The value of the decimal digit `c`.
pub open spec fn digit_value(c: char) -> nat {
    (c as int - '0' as int) as nat
}

/// Whether every character of `s` is a decimal digit.
pub open spec fn all_digits(s: Seq<char>) -> bool {
    forall|i: int| 0 <= i < s.len() ==> is_digit(#[trigger] s[i])
}

/// The value of the decimal numeral `s` (most significant digit first).
pub open spec fn digits_value(s: Seq<char>) -> nat
    decreases s.len(),
{
    if s.len() == 0 {
        0
    } else {
        digits_value(s.drop_last()) * 10 + digit_value(s.last())
    }
}

/// The digits that unsigned integer parsing reads: one leading `+` is dropped.
pub open spec fn unsigned_digits(s: Seq<char>) -> Seq<char> {
    if s.len() > 0 && s[0] == '+' {
        s.drop_first()
    } else {
        s
    }
}

/// What `str::parse` gives for an unsigned integer type whose largest value is
/// `max`: an optional `+`, then one or more decimal digits whose value fits.
pub open spec fn parse_unsigned(s: Seq<char>, max: nat) -> Option<nat> {
    let d = unsigned_digits(s);
    if d.len() > 0 && all_digits(d) && digits_value(d) <= max {
        Some(digits_value(d))
    } else {
        None
    }
}

/// The character of the decimal digit `d` (`d < 10`).
pub open spec fn digit_char(d: nat) -> char {
    if d == 0 {
        '0'
    } else if d == 1 {
        '1'
    } else if d == 2 {
        '2'
    } else if d == 3 {
        '3'
    } else if d == 4 {
        '4'
    } else if d == 5 {
        '5'
    } else if d == 6 {
        '6'
    } else if d == 7 {
        '7'
    } else if d == 8 {
        '8'
    } else {
        '9'
    }
}

/// The decimal numeral of `n`, without leading zeros.
pub open spec fn decimal(n: nat) -> Seq<char>
    decreases n,
{
    if n < 10 {
        seq![digit_char(n)]
    } else {
        decimal(n / 10).push(digit_char(n % 10))
    }
}

/// The index of the first `c` in `s`, if there is one.
pub open spec fn find_char(s: Seq<char>, c: char) -> Option<int>
    decreases s.len(),
{
    if s.len() == 0 {
        None
    } else if s[0] == c {
        Some(0)
    } else {
        match find_char(s.drop_first(), c) {
            Some(i) => Some(i + 1),
            None => None,
        }
    }
}

/// `line` without one trailing carriage return.
pub open spec fn strip_cr(line: Seq<char>) -> Seq<char> {
    if line.len() > 0 && line.last() == '\r' {
        line.drop_last()
    } else {
        line
    }
}

/// The lines of `s` as `str::lines` yields them: split at each `\n`, with a
/// `\r` right before that `\n` removed, and no empty line after a final `\n`.
pub open spec fn lines(s: Seq<char>) -> Seq<Seq<char>>
    decreases s.len(),
{
    if s.len() == 0 {
        seq![]
    } else {
        match find_char(s, '\n') {
            None => seq![s],
            Some(i) => if 0 <= i < s.len() {
                seq![strip_cr(s.take(i))] + lines(s.skip(i + 1))
            } else {
                seq![]
            },
        }
    }
}

/// The second `:`-separated field of `s`, as `s.split(':').nth(1)` gives it.
pub open spec fn second_field(s: Seq<char>) -> Option<Seq<char>> {
    match find_char(s, ':') {
        None => None,
        Some(i) => {
            let rest = s.skip(i + 1);
            match find_char(rest, ':') {
                None => Some(rest),
                Some(j) => Some(rest.take(j)),
            }
        },
    }
}

/// Whether `c` is white space in the sense of `char::is_whitespace`
/// (the Unicode `White_Space` property).
pub open spec fn is_whitespace(c: char) -> bool {
    ||| ('\u{9}' <= c && c <= '\u{d}')
    ||| c == ' '
    ||| c == '\u{85}'
    ||| c == '\u{a0}'
    ||| c == '\u{1680}'
    ||| ('\u{2000}' <= c && c <= '\u{200a}')
    ||| c == '\u{2028}'
    ||| c == '\u{2029}'
    ||| c == '\u{202f}'
    ||| c == '\u{205f}'
    ||| c == '\u{3000}'
}

/// `s` without its leading white space.
pub open spec fn trim_start(s: Seq<char>) -> Seq<char>
    decreases s.len(),
{
    if s.len() > 0 && is_whitespace(s[0]) {
        trim_start(s.drop_first())
    } else {
        s
    }
}

/// `s` without its trailing white space.
pub open spec fn trim_end(s: Seq<char>) -> Seq<char>
    decreases s.len(),
{
    if s.len() > 0 && is_whitespace(s.last()) {
        trim_end(s.drop_last())
    } else {
        s
    }
}

/// `s` without leading and trailing white space, as `str::trim` gives it.
pub open spec fn trim(s: Seq<char>) -> Seq<char> {
    trim_end(trim_start(s))
}

/// Whether `s` begins with `prefix`.
pub open spec fn starts_with(s: Seq<char>, prefix: Seq<char>) -> bool {
    prefix.len() <= s.len() && s.take(prefix.len() as int) == prefix
}

// ---------------------------------------------------------------------------
// Lemmas
// ---------------------------------------------------------------------------

/// `find_char` gives the first position of `c`.
pub proof fn lemma_find_char(s: Seq<char>, c: char, k: int)
    requires
        0 <= k <= s.len(),
        forall|i: int| 0 <= i < k ==> s[i] != c,
        k < s.len() ==> s[k] == c,
    ensures
        find_char(s, c) == (if k < s.len() {
            Some(k)
        } else {
            None::<int>
        }),
    decreases s.len(),
{
    if s.len() > 0 && k > 0 {
        lemma_find_char(s.drop_first(), c, k - 1);
    }
}

/// A digit string's value does not shrink when digits are appended.
proof fn lemma_digits_value_prefix(s: Seq<char>, k: int)
    requires
        0 <= k <= s.len(),
    ensures
        digits_value(s.take(k)) <= digits_value(s),
    decreases s.len() - k,
{
    if k < s.len() {
        lemma_digits_value_prefix(s, k + 1);
        assert(s.take(k + 1).drop_last() =~= s.take(k));
    } else {
        assert(s.take(k) =~= s);
    }
}

/// The character of a digit is a digit of that value.
proof fn lemma_digit_char(d: nat)
    requires
        d < 10,
    ensures
        is_digit(digit_char(d)),
        digit_value(digit_char(d)) == d,
{
    assert('0' as int == 48 && '1' as int == 49 && '2' as int == 50 && '3' as int == 51 && '4' as int == 52);
    assert('5' as int == 53 && '6' as int == 54 && '7' as int == 55 && '8' as int == 56 && '9' as int == 57);
}

/// The decimal numeral of `n` is a nonempty string of digits worth `n`.
proof fn lemma_decimal_digits(n: nat)
    ensures
        decimal(n).len() > 0,
        all_digits(decimal(n)),
        digits_value(decimal(n)) == n,
    decreases n,
{
    lemma_digit_char(n % 10);
    if n >= 10 {
        lemma_decimal_digits(n / 10);
        let d = decimal(n);
        assert(d.drop_last() =~= decimal(n / 10));
        assert(d.last() == digit_char(n % 10));
        assert(n == (n / 10) * 10 + n % 10);
        assert(digits_value(d) == digits_value(d.drop_last()) * 10 + digit_value(d.last()));
        assert forall|i: int| 0 <= i < d.len() implies is_digit(#[trigger] d[i]) by {
            if i < d.len() - 1 {
                assert(d[i] == decimal(n / 10)[i]);
            }
        }
    } else {
        let d = decimal(n);
        assert(d == seq![digit_char(n)]);
        assert(d.drop_last() =~= Seq::<char>::empty());
        assert(digits_value(d.drop_last()) == 0);
        assert(n % 10 == n);
        assert(digits_value(d) == digits_value(d.drop_last()) * 10 + digit_value(d.last()));
    }
}

/// A number written in decimal reads back, by unsigned integer parsing, as
/// the same number.
pub proof fn lemma_decimal_round_trip(n: nat, max: nat)
    requires
        n <= max,
    ensures
        parse_unsigned(decimal(n), max) == Some(n),
{
    lemma_decimal_digits(n);
    assert(is_digit(decimal(n)[0]));
}

/// Trimming removes only white space, and all of it at both ends: the
/// result is a contiguous part of `s` that neither starts nor ends with white
/// space, and everything cut off before and after it is white space.
pub proof fn lemma_trim_cuts_whitespace(s: Seq<char>)
    ensures
        exists|a: int, b: int|
            0 <= a <= b <= s.len() && #[trigger] s.subrange(a, b) == trim(s) && (forall|i: int|
                0 <= i < a ==> is_whitespace(s[i])) && (forall|i: int|
                b <= i < s.len() ==> is_whitespace(s[i])),
        trim(s).len() > 0 ==> !is_whitespace(trim(s)[0]) && !is_whitespace(
            trim(s)[trim(s).len() - 1],
        ),
{
    lemma_trim_start_cut(s);
    let a = choose|a: int|
        0 <= a <= s.len() && #[trigger] s.skip(a) == trim_start(s) && (forall|i: int|
            0 <= i < a ==> is_whitespace(s[i])) && (trim_start(s).len() > 0 ==> !is_whitespace(
            trim_start(s)[0],
        ));
    let t = trim_start(s);
    lemma_trim_end_cut(t);
    let b = choose|b: int|
        0 <= b <= t.len() && #[trigger] t.take(b) == trim_end(t) && (forall|i: int|
            b <= i < t.len() ==> is_whitespace(t[i])) && (trim_end(t).len() > 0
            ==> !is_whitespace(trim_end(t)[trim_end(t).len() - 1]));
    assert(s.subrange(a, a + b) =~= trim(s));
    assert forall|i: int| a + b <= i < s.len() implies is_whitespace(s[i]) by {
        assert(t[i - a] == s[i]);
    }
    if trim(s).len() > 0 {
        assert(trim(s)[0] == t[0]);
    }
}

proof fn lemma_trim_start_cut(s: Seq<char>)
    ensures
        exists|a: int|
            0 <= a <= s.len() && #[trigger] s.skip(a) == trim_start(s) && (forall|i: int|
                0 <= i < a ==> is_whitespace(s[i])) && (trim_start(s).len() > 0 ==> !is_whitespace(
                trim_start(s)[0],
            )),
    decreases s.len(),
{
    if s.len() > 0 && is_whitespace(s[0]) {
        let r = s.drop_first();
        lemma_trim_start_cut(r);
        let a = choose|a: int|
            0 <= a <= r.len() && #[trigger] r.skip(a) == trim_start(r) && (forall|i: int|
                0 <= i < a ==> is_whitespace(r[i])) && (trim_start(r).len() > 0
                ==> !is_whitespace(trim_start(r)[0]));
        assert(s.skip(a + 1) =~= r.skip(a));
        assert forall|i: int| 0 <= i < a + 1 implies is_whitespace(s[i]) by {
            if i > 0 {
                assert(s[i] == r[i - 1]);
            }
        }
    } else {
        assert(s.skip(0) =~= s);
    }
}

proof fn lemma_trim_end_cut(s: Seq<char>)
    ensures
        exists|b: int|
            0 <= b <= s.len() && #[trigger] s.take(b) == trim_end(s) && (forall|i: int|
                b <= i < s.len() ==> is_whitespace(s[i])) && (trim_end(s).len() > 0
                ==> !is_whitespace(trim_end(s)[trim_end(s).len() - 1])),
    decreases s.len(),
{
    if s.len() > 0 && is_whitespace(s.last()) {
        let r = s.drop_last();
        lemma_trim_end_cut(r);
        let b = choose|b: int|
            0 <= b <= r.len() && #[trigger] r.take(b) == trim_end(r) && (forall|i: int|
                b <= i < r.len() ==> is_whitespace(r[i])) && (trim_end(r).len() > 0
                ==> !is_whitespace(trim_end(r)[trim_end(r).len() - 1]));
        assert(s.take(b) =~= r.take(b));
        assert forall|i: int| b <= i < s.len() implies is_whitespace(s[i]) by {
            if i < s.len() - 1 {
                assert(s[i] == r[i]);
            }
        }
    } else {
        assert(s.take(s.len() as int) =~= s);
    }
}

/// Splitting into lines cuts at every `\n`: no line holds a `\n`, and a
/// text without `\n` is one line (or none, when it is empty).
pub proof fn lemma_lines_hold_no_newline(s: Seq<char>)
    ensures
        forall|k: int, j: int|
            0 <= k < lines(s).len() && 0 <= j < lines(s)[k].len() ==> #[trigger] lines(s)[k][j]
                != '\n',
        (forall|j: int| 0 <= j < s.len() ==> s[j] != '\n') ==> lines(s) == (if s.len() == 0 {
            seq![]
        } else {
            seq![s]
        }),
    decreases s.len(),
{
    lemma_find_char_spec(s, '\n');
    if s.len() > 0 {
        match find_char(s, '\n') {
            None => {},
            Some(i) => {
                let head = strip_cr(s.take(i));
                let tail = s.skip(i + 1);
                lemma_lines_hold_no_newline(tail);
                assert forall|j: int| 0 <= j < head.len() implies head[j] != '\n' by {
                    assert(head[j] == s[j]);
                }
                assert forall|k: int, j: int|
                    0 <= k < lines(s).len() && 0 <= j < lines(s)[k].len() implies #[trigger] lines(
                    s,
                )[k][j] != '\n' by {
                    if k > 0 {
                        assert(lines(s)[k] == lines(tail)[k - 1]);
                    } else {
                        assert(lines(s)[0] == head);
                    }
                }
            },
        }
    }
}

/// `f` stands in `s` right after the colon at `i`, the first colon of `s`,
/// holds no colon, and is followed by a colon or the end of `s`.
pub open spec fn field_after_first_colon(s: Seq<char>, i: int, f: Seq<char>) -> bool {
    &&& 0 <= i
    &&& i + 1 + f.len() <= s.len()
    &&& s[i] == ':'
    &&& forall|j: int| 0 <= j < i ==> s[j] != ':'
    &&& s.subrange(i + 1, i + 1 + f.len()) == f
    &&& forall|j: int| 0 <= j < f.len() ==> f[j] != ':'
    &&& (i + 1 + f.len() == s.len() || s[i + 1 + f.len()] == ':')
}

/// The second field is what lies between the first `:` and the next one (or
/// the end): it holds no `:`, a `:` stands right before it, no `:` comes
/// earlier than that one, and after it comes a `:` or the end. There is no
/// second field exactly when `s` holds no `:`.
pub proof fn lemma_second_field_between_colons(s: Seq<char>)
    ensures
        (second_field(s) is None) <==> (forall|i: int| 0 <= i < s.len() ==> s[i] != ':'),
        second_field(s) is Some ==> exists|i: int|
            #[trigger] field_after_first_colon(s, i, second_field(s).unwrap()),
{
    lemma_find_char_spec(s, ':');
    match find_char(s, ':') {
        None => {},
        Some(i) => {
            let rest = s.skip(i + 1);
            lemma_find_char_spec(rest, ':');
            match find_char(rest, ':') {
                None => {
                    let f = rest;
                    assert(second_field(s) == Some(f));
                    assert(s.subrange(i + 1, i + 1 + f.len()) =~= f);
                    assert forall|j: int| 0 <= j < f.len() implies f[j] != ':' by {}
                    assert(i + 1 + f.len() == s.len());
                    assert(field_after_first_colon(s, i, f));
                    assert(field_after_first_colon(s, i, second_field(s).unwrap()));
                },
                Some(k) => {
                    let f = rest.take(k);
                    assert(second_field(s) == Some(f));
                    assert(s.subrange(i + 1, i + 1 + f.len()) =~= f);
                    assert(rest[k] == s[i + 1 + k]);
                    assert(s[i + 1 + f.len()] == ':');
                    assert forall|j: int| 0 <= j < f.len() implies f[j] != ':' by {
                        assert(f[j] == rest[j]);
                    }
                    assert(field_after_first_colon(s, i, f));
                    assert(field_after_first_colon(s, i, second_field(s).unwrap()));
                },
            }
        },
    }
}

/// `find_char` gives the first position of `c`, or `None` when `c` does not
/// occur.
proof fn lemma_find_char_spec(s: Seq<char>, c: char)
    ensures
        find_char(s, c) matches Some(i) ==> 0 <= i < s.len() && s[i] == c && forall|j: int|
            0 <= j < i ==> s[j] != c,
        (find_char(s, c) is None) ==> forall|j: int| 0 <= j < s.len() ==> s[j] != c,
    decreases s.len(),
{
    if s.len() > 0 {
        lemma_find_char_spec(s.drop_first(), c);
        assert forall|j: int| 1 <= j < s.len() implies #[trigger] s[j] == s.drop_first()[j - 1] by {}
    }
}

// ---------------------------------------------------------------------------
// Executable helpers
// ---------------------------------------------------------------------------

/// Appends `c` to `s`.
#[verifier::external_body]
pub(crate) fn push_char(s: &mut String, c: char)
    ensures
        final(s)@ == old(s)@.push(c),
{
    s.push(c);
}

/// The characters of `s`, in order.
pub fn chars_of(s: &str) -> (v: Vec<char>)
    ensures
        v@ == s@,
{
    let mut v: Vec<char> = Vec::new();
    for c in it: s.chars()
        invariant
            v@ == it.seq().take(it.index() as int),
    {
        v.push(c);
    }
    v
}

/// The string made of `cs[from..to]`.
pub fn string_of_range(cs: &Vec<char>, from: usize, to: usize) -> (s: String)
    requires
        from <= to <= cs@.len(),
    ensures
        s@ == cs@.subrange(from as int, to as int),
{
    let mut s = String::new();
    let mut i = from;
    while i < to
        invariant
            from <= i <= to <= cs@.len(),
            s@ == cs@.subrange(from as int, i as int),
        decreases to - i,
    {
        push_char(&mut s, cs[i]);
        assert(cs@.subrange(from as int, i + 1) =~= cs@.subrange(from as int, i as int).push(
            cs@[i as int],
        ));
        i = i + 1;
    }
    s
}

/// Appends the decimal numeral of `n` to `out`, as `{}` formats an unsigned integer.
pub fn push_decimal(out: &mut String, n: u64)
    ensures
        final(out)@ == old(out)@ + decimal(n as nat),
    decreases n,
{
    if n >= 10 {
        push_decimal(out, n / 10);
    }
    let d = n % 10;
    let c = if d == 0 {
        '0'
    } else if d == 1 {
        '1'
    } else if d == 2 {
        '2'
    } else if d == 3 {
        '3'
    } else if d == 4 {
        '4'
    } else if d == 5 {
        '5'
    } else if d == 6 {
        '6'
    } else if d == 7 {
        '7'
    } else if d == 8 {
        '8'
    } else {
        '9'
    };
    push_char(out, c);
    assert(out@ =~= old(out)@ + decimal(n as nat));
}

/// Whether `c` is white space in the sense of `char::is_whitespace`.
pub fn char_is_whitespace(c: char) -> (b: bool)
    ensures
        b == is_whitespace(c),
{
    ('\u{9}' <= c && c <= '\u{d}') || c == ' ' || c == '\u{85}' || c == '\u{a0}' || c
        == '\u{1680}' || ('\u{2000}' <= c && c <= '\u{200a}') || c == '\u{2028}' || c
        == '\u{2029}' || c == '\u{202f}' || c == '\u{205f}' || c == '\u{3000}'
}

/// The first position of `c` in `cs[from..to]`, counted from the start of `cs`.
pub fn find_char_in(cs: &Vec<char>, c: char, from: usize, to: usize) -> (r: Option<usize>)
    requires
        from <= to <= cs@.len(),
    ensures
        r is None <==> find_char(cs@.subrange(from as int, to as int), c) is None,
        r matches Some(i) ==> {
            &&& from <= i < to
            &&& cs@[i as int] == c
            &&& find_char(cs@.subrange(from as int, to as int), c) == Some(i - from)
        },
{
    let mut i = from;
    while i < to
        invariant
            from <= i <= to <= cs@.len(),
            forall|j: int| from <= j < i ==> cs@[j] != c,
        decreases to - i,
    {
        if cs[i] == c {
            proof {
                lemma_find_char(cs@.subrange(from as int, to as int), c, i - from);
            }
            return Some(i);
        }
        i = i + 1;
    }
    proof {
        lemma_find_char(cs@.subrange(from as int, to as int), c, to - from);
    }
    None
}

/// The bounds `(start, end)` of each line of `cs`, so that `cs[start..end]`
/// is the line as `str::lines` yields it.
pub fn line_bounds(cs: &Vec<char>) -> (r: Vec<(usize, usize)>)
    ensures
        r@.len() == lines(cs@).len(),
        forall|k: int|
            0 <= k < r@.len() ==> {
                &&& (#[trigger] r@[k]).0 <= r@[k].1 <= cs@.len()
                &&& cs@.subrange(r@[k].0 as int, r@[k].1 as int) == lines(cs@)[k]
            },
{
    let n = cs.len();
    let mut out: Vec<(usize, usize)> = Vec::new();
    let mut pos: usize = 0;
    assert(cs@.skip(0) =~= cs@);
    while pos < n
        invariant
            n == cs@.len(),
            pos <= n,
            lines(cs@) == Seq::new(
                out@.len(),
                |k: int| cs@.subrange(out@[k].0 as int, out@[k].1 as int),
            ) + lines(cs@.skip(pos as int)),
            forall|k: int| 0 <= k < out@.len() ==> (#[trigger] out@[k]).0 <= out@[k].1 <= n,
        decreases n - pos,
    {
        let ghost t = cs@.skip(pos as int);
        let ghost prev = Seq::new(
            out@.len(),
            |k: int| cs@.subrange(out@[k].0 as int, out@[k].1 as int),
        );
        assert(cs@.subrange(pos as int, n as int) =~= t);
        match find_char_in(cs, '\n', pos, n) {
            None => {
                out.push((pos, n));
                proof {
                    assert(lines(t) == seq![t]);
                    assert(cs@.skip(n as int) =~= Seq::<char>::empty());
                    assert(Seq::new(
                        out@.len(),
                        |k: int| cs@.subrange(out@[k].0 as int, out@[k].1 as int),
                    ) =~= prev.push(t));
                }
                pos = n;
            },
            Some(j) => {
                let end = if j > pos && cs[j - 1] == '\r' {
                    j - 1
                } else {
                    j
                };
                out.push((pos, end));
                proof {
                    let i = j - pos;
                    assert(find_char(t, '\n') == Some(i));
                    assert(t.skip(i + 1) =~= cs@.skip(j + 1));
                    assert(strip_cr(t.take(i)) =~= cs@.subrange(pos as int, end as int));
                    assert(lines(t) == seq![strip_cr(t.take(i))] + lines(t.skip(i + 1)));
                    assert(Seq::new(
                        out@.len(),
                        |k: int| cs@.subrange(out@[k].0 as int, out@[k].1 as int),
                    ) =~= prev.push(cs@.subrange(pos as int, end as int)));
                }
                pos = j + 1;
            },
        }
    }
    proof {
        assert(cs@.skip(pos as int) =~= Seq::<char>::empty());
        assert(lines(cs@) =~= Seq::new(
            out@.len(),
            |k: int| cs@.subrange(out@[k].0 as int, out@[k].1 as int),
        ));
    }
    out
}

/// The bounds of the second `:`-separated field of `cs[from..to]`, as
/// `split(':').nth(1)` finds it.
pub fn second_field_bounds(cs: &Vec<char>, from: usize, to: usize) -> (r: Option<(usize, usize)>)
    requires
        from <= to <= cs@.len(),
    ensures
        match second_field(cs@.subrange(from as int, to as int)) {
            Some(f) => r matches Some(b) && from <= b.0 <= b.1 <= to && cs@.subrange(
                b.0 as int,
                b.1 as int,
            ) == f,
            None => r is None,
        },
{
    let ghost s = cs@.subrange(from as int, to as int);
    match find_char_in(cs, ':', from, to) {
        None => None,
        Some(i) => {
            let ghost rest = s.skip(i - from + 1);
            assert(rest =~= cs@.subrange(i + 1, to as int));
            match find_char_in(cs, ':', i + 1, to) {
                None => Some((i + 1, to)),
                Some(j) => {
                    assert(rest.take(j - (i + 1)) =~= cs@.subrange(i + 1, j as int));
                    Some((i + 1, j))
                },
            }
        },
    }
}

/// The bounds of `cs[from..to]` with leading and trailing white space removed.
pub fn trim_bounds(cs: &Vec<char>, from: usize, to: usize) -> (r: (usize, usize))
    requires
        from <= to <= cs@.len(),
    ensures
        from <= r.0 <= r.1 <= to,
        cs@.subrange(r.0 as int, r.1 as int) == trim(cs@.subrange(from as int, to as int)),
{
    let mut a = from;
    while a < to && char_is_whitespace(cs[a])
        invariant
            from <= a <= to <= cs@.len(),
            trim_start(cs@.subrange(from as int, to as int)) == trim_start(
                cs@.subrange(a as int, to as int),
            ),
        decreases to - a,
    {
        assert(cs@.subrange(a as int, to as int).drop_first() =~= cs@.subrange(
            a + 1,
            to as int,
        ));
        a = a + 1;
    }
    let mut b = to;
    while b > a && char_is_whitespace(cs[b - 1])
        invariant
            from <= a <= b <= to <= cs@.len(),
            trim_start(cs@.subrange(from as int, to as int)) == cs@.subrange(a as int, to as int),
            trim_end(cs@.subrange(a as int, to as int)) == trim_end(
                cs@.subrange(a as int, b as int),
            ),
        decreases b - a,
    {
        assert(cs@.subrange(a as int, b as int).drop_last() =~= cs@.subrange(
            a as int,
            b - 1,
        ));
        b = b - 1;
    }
    (a, b)
}

/// Whether `cs[from..to]` begins with `prefix`.
pub fn starts_with_in(cs: &Vec<char>, from: usize, to: usize, prefix: &Vec<char>) -> (b: bool)
    requires
        from <= to <= cs@.len(),
    ensures
        b == starts_with(cs@.subrange(from as int, to as int), prefix@),
{
    let ghost s = cs@.subrange(from as int, to as int);
    if prefix.len() > to - from {
        return false;
    }
    let mut i: usize = 0;
    while i < prefix.len()
        invariant
            prefix@.len() <= to - from,
            from <= to <= cs@.len(),
            s == cs@.subrange(from as int, to as int),
            i <= prefix@.len(),
            forall|j: int| 0 <= j < i ==> cs@[from + j] == prefix@[j],
        decreases prefix@.len() - i,
    {
        if cs[from + i] != prefix[i] {
            assert(s.take(prefix@.len() as int)[i as int] == cs@[from + i]);
            assert(s.take(prefix@.len() as int) != prefix@);
            return false;
        }
        i = i + 1;
    }
    assert(s.take(prefix@.len() as int) =~= prefix@);
    true
}

/// Parses `cs[from..to]` as `str::parse` does for an unsigned integer type
/// whose largest value is `max`.
pub fn parse_unsigned_in(cs: &Vec<char>, from: usize, to: usize, max: u64) -> (r: Option<u64>)
    requires
        from <= to <= cs@.len(),
    ensures
        match parse_unsigned(cs@.subrange(from as int, to as int), max as nat) {
            Some(v) => r == Some(v as u64),
            None => r is None,
        },
{
    let ghost s = cs@.subrange(from as int, to as int);
    let start = if from < to && cs[from] == '+' {
        from + 1
    } else {
        from
    };
    let ghost d = cs@.subrange(start as int, to as int);
    assert(unsigned_digits(s) =~= d);
    if start == to {
        return None;
    }
    let mut acc: u64 = 0;
    let mut i = start;
    while i < to
        invariant
            from <= start <= i <= to <= cs@.len(),
            d == cs@.subrange(start as int, to as int),
            unsigned_digits(cs@.subrange(from as int, to as int)) == d,
            acc as nat == digits_value(cs@.subrange(start as int, i as int)),
            acc <= max,
            all_digits(cs@.subrange(start as int, i as int)),
        decreases to - i,
    {
        let c = cs[i];
        proof {
            assert(d.take(i - start) =~= cs@.subrange(start as int, i as int));
            assert(d.take(i - start + 1) =~= cs@.subrange(start as int, i + 1));
            assert(cs@.subrange(start as int, i + 1).drop_last() =~= cs@.subrange(
                start as int,
                i as int,
            ));
        }
        if !('0' <= c && c <= '9') {
            assert(!all_digits(d)) by {
                assert(d[i - start] == c);
            }
            return None;
        }
        let digit = (c as u32 - '0' as u32) as u64;
        let next = match acc.checked_mul(10) {
            Some(m) => m.checked_add(digit),
            None => None,
        };
        match next {
            Some(v) if v <= max => {
                acc = v;
            },
            _ => {
                proof {
                    lemma_digits_value_prefix(d, i - start + 1);
                    assert(all_digits(d) ==> digits_value(d) > max);
                }
                return None;
            },
        }
        proof {
            assert forall|j: int| 0 <= j < i + 1 - start implies is_digit(
                #[trigger] cs@.subrange(start as int, i + 1)[j],
            ) by {
                if j < i - start {
                    assert(cs@.subrange(start as int, i + 1)[j] == cs@.subrange(
                        start as int,
                        i as int,
                    )[j]);
                }
            }
        }
        i = i + 1;
    }
    assert(cs@.subrange(start as int, i as int) =~= d);
    Some(acc)
}

/// Parses `s` as `str::parse` does for an unsigned integer type whose
/// largest value is `max`.
pub fn parse_unsigned_text(s: &str, max: u64) -> (r: Option<u64>)
    ensures
        match parse_unsigned(s@, max as nat) {
            Some(v) => r == Some(v as u64),
            None => r is None,
        },
{
    let cs = chars_of(s);
    assert(cs@.subrange(0, cs@.len() as int) =~= s@);
    parse_unsigned_in(&cs, 0, cs.len(), max)
}

} // verus!
