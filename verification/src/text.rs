//! Character-level text helpers: decimal numerals, whitespace splitting,
//! joining and prefix tests, each stated over `Seq<char>`.

use vstd::prelude::*;
use vstd::string::StrSliceExecFns;

verus! {

/// Appends one character to a string.
///
/// Calls `String::push`, which std documents as appending the given `char`
/// to the end of the string; the contract claims exactly that.
#[verifier::external_body]
pub(crate) fn push_char(s: &mut String, c: char)
    ensures
        final(s)@ == old(s)@.push(c),
{
    s.push(c);
}

/// The ASCII digit for a value below ten.
pub open spec fn digit_char(d: nat) -> char {
    if d == 0 { '0' }
    else if d == 1 { '1' }
    else if d == 2 { '2' }
    else if d == 3 { '3' }
    else if d == 4 { '4' }
    else if d == 5 { '5' }
    else if d == 6 { '6' }
    else if d == 7 { '7' }
    else if d == 8 { '8' }
    else { '9' }
}

/// The shortest decimal numeral of `n`, as `Display` prints an unsigned integer.
pub open spec fn decimal(n: nat) -> Seq<char>
    decreases n,
{
    if n < 10 {
        seq![digit_char(n)]
    } else {
        decimal(n / 10).push(digit_char(n % 10))
    }
}

fn digit_of(d: u64) -> (c: char)
    requires
        d < 10,
    ensures
        c == digit_char(d as nat),
{
    if d == 0 { '0' }
    else if d == 1 { '1' }
    else if d == 2 { '2' }
    else if d == 3 { '3' }
    else if d == 4 { '4' }
    else if d == 5 { '5' }
    else if d == 6 { '6' }
    else if d == 7 { '7' }
    else if d == 8 { '8' }
    else { '9' }
}

/// Appends the decimal numeral of `n` to `s`.
pub fn push_decimal(s: &mut String, n: u64)
    ensures
        final(s)@ == old(s)@ + decimal(n as nat),
    decreases n,
{
    if n >= 10 {
        push_decimal(s, n / 10);
    }
    push_char(s, digit_of(n % 10));
    assert(old(s)@ + decimal(n as nat) =~= s@);
}

/// The decimal numeral of `n` as a new string.
pub fn decimal_string(n: u64) -> (r: String)
    ensures
        r@ == decimal(n as nat),
{
    let mut s = String::new();
    push_decimal(&mut s, n);
    assert(s@ =~= decimal(n as nat));
    s
}

/// The characters of a string slice, in order.
pub fn chars_of(s: &str) -> (v: Vec<char>)
    ensures
        v@ == s@,
{
    let n = s.unicode_len();
    let mut v: Vec<char> = Vec::new();
    let mut i: usize = 0;
    while i < n
        invariant
            n == s@.len(),
            i <= n,
            v@ == s@.take(i as int),
        decreases n - i,
    {
        let c = s.get_char(i);
        v.push(c);
        i = i + 1;
        assert(v@ =~= s@.take(i as int));
    }
    assert(v@ =~= s@);
    v
}

/// Whether a character is one of the ASCII digits `0` to `9`.
pub open spec fn is_ascii_digit(c: char) -> bool {
    '0' <= c && c <= '9'
}

/// The value of an ASCII digit.
pub open spec fn digit_value(c: char) -> nat {
    (c as int - '0' as int) as nat
}

/// Whether every character is an ASCII digit.
pub open spec fn all_digits(s: Seq<char>) -> bool {
    forall|i: int| 0 <= i < s.len() ==> is_ascii_digit(#[trigger] s[i])
}

/// The value of a run of decimal digits, most significant first.
pub open spec fn digits_value(s: Seq<char>) -> nat
    decreases s.len(),
{
    if s.len() == 0 {
        0
    } else {
        digits_value(s.drop_last()) * 10 + digit_value(s.last())
    }
}

/// The digits of an unsigned numeral: what follows one leading `+`, if any.
pub open spec fn unsigned_digits(s: Seq<char>) -> Seq<char> {
    if s.len() > 0 && s[0] == '+' {
        s.drop_first()
    } else {
        s
    }
}

/// What `FromStr` of an unsigned integer type whose largest value is `max`
/// makes of a string: an optional `+`, then one or more ASCII digits whose
/// value does not exceed `max`; anything else is an error (`None`).
pub open spec fn parse_unsigned(s: Seq<char>, max: nat) -> Option<nat> {
    let d = unsigned_digits(s);
    if d.len() > 0 && all_digits(d) && digits_value(d) <= max {
        Some(digits_value(d))
    } else {
        None
    }
}

proof fn lemma_digits_value_grows(s: Seq<char>, i: int, j: int)
    requires
        0 <= i <= j <= s.len(),
    ensures
        digits_value(s.take(i)) <= digits_value(s.take(j)),
    decreases j - i,
{
    if i < j {
        lemma_digits_value_grows(s, i, j - 1);
        assert(s.take(j).drop_last() =~= s.take(j - 1));
    }
}

pub open spec fn opt_u64_nat(r: Option<u64>) -> Option<nat> {
    match r {
        Some(v) => Some(v as nat),
        None => None,
    }
}

/// Parses an unsigned decimal numeral whose value must not exceed `max`, as
/// `FromStr` of an unsigned integer type does.
pub fn parse_decimal(s: &str, max: u64) -> (r: Option<u64>)
    ensures
        opt_u64_nat(r) == parse_unsigned(s@, max as nat),
{
    let v = chars_of(s);
    let n = v.len();
    let start: usize = if n > 0 && v[0] == '+' { 1 } else { 0 };
    let ghost d = unsigned_digits(s@);
    assert(d =~= v@.subrange(start as int, n as int));
    if start >= n {
        return None;
    }
    let mut acc: u64 = 0;
    let mut i: usize = start;
    while i < n
        invariant
            n == v@.len(),
            v@ == s@,
            d == v@.subrange(start as int, n as int),
            d == unsigned_digits(s@),
            start < n,
            start <= i <= n,
            acc as nat == digits_value(d.take(i - start)),
            acc <= max,
            all_digits(d.take(i - start)),
        decreases n - i,
    {
        let c = v[i];
        let k: usize = i - start;
        assert(d[k as int] == c);
        assert(d.take(k + 1).drop_last() =~= d.take(k as int));
        assert(d.take(k + 1).last() == c);
        if !(c >= '0' && c <= '9') {
            assert(!is_ascii_digit(d[k as int]));
            assert(!all_digits(d));
            return None;
        }
        let dv: u64 = (c as u32 - '0' as u32) as u64;
        assert(dv as nat == digit_value(c));
        assert(digits_value(d.take(k + 1)) == acc * 10 + dv);
        match acc.checked_mul(10) {
            None => {
                proof { lemma_digits_value_grows(d, k + 1, d.len() as int); }
                assert(d.take(d.len() as int) =~= d);
                return None;
            },
            Some(m) => {
                match m.checked_add(dv) {
                    None => {
                        proof { lemma_digits_value_grows(d, k + 1, d.len() as int); }
                        assert(d.take(d.len() as int) =~= d);
                        return None;
                    },
                    Some(a) => {
                        if a > max {
                            proof { lemma_digits_value_grows(d, k + 1, d.len() as int); }
                            assert(d.take(d.len() as int) =~= d);
                            return None;
                        }
                        acc = a;
                    },
                }
            },
        }
        i = i + 1;
        assert(all_digits(d.take(i - start)));
    }
    assert(d.take(n - start) =~= d);
    Some(acc)
}

pub(crate) proof fn lemma_digit_char(d: nat)
    requires
        d < 10,
    ensures
        is_ascii_digit(digit_char(d)),
        digit_value(digit_char(d)) == d,
        digit_char(d) != '+',
{
}

pub(crate) proof fn lemma_decimal_shape(n: nat)
    ensures
        decimal(n).len() > 0,
        all_digits(decimal(n)),
        digits_value(decimal(n)) == n,
        decimal(n)[0] != '+',
    decreases n,
{
    lemma_digit_char(n % 10);
    if n < 10 {
        assert(decimal(n).drop_last() =~= Seq::<char>::empty());
        assert(digits_value(Seq::<char>::empty()) == 0);
        assert(digits_value(decimal(n)) == digits_value(decimal(n).drop_last()) * 10
            + digit_value(decimal(n).last()));
    } else {
        lemma_decimal_shape(n / 10);
        let s = decimal(n);
        assert(s.drop_last() =~= decimal(n / 10));
        assert(s.last() == digit_char(n % 10));
        assert(digits_value(s) == digits_value(s.drop_last()) * 10 + digit_value(s.last()));
        assert(n == (n / 10) * 10 + n % 10);
        assert(all_digits(s)) by {
            assert forall|i: int| 0 <= i < s.len() implies is_ascii_digit(#[trigger] s[i]) by {
                if i < s.len() - 1 {
                    assert(s[i] == decimal(n / 10)[i]);
                }
            }
        }
    }
}

/// A decimal numeral reads back as its number: what `decimal_string` prints,
/// `parse_decimal` gives back, for every value the target type holds.
pub proof fn law_decimal_parses_back(n: nat, max: nat)
    requires
        n <= max,
    ensures
        parse_unsigned(decimal(n), max) == Some(n),
{
    lemma_decimal_shape(n);
}

/// Whether a character has the Unicode `White_Space` property, which is what
/// `char::is_whitespace` and `str::split_whitespace` go by.
pub open spec fn is_white_space(c: char) -> bool {
    ||| ('\u{9}' <= c && c <= '\u{d}')
    ||| c == ' '
    ||| c == '\u{85}'
    ||| c == '\u{a0}'
    ||| c == '\u{1680}'
    ||| ('\u{2000}' <= c && c <= '\u{200a}')
    ||| c == '\u{2028}'
    ||| c == '\u{2029}'
    ||| c == '\u{202f}'
    ||| c == '\u{205f}'
    ||| c == '\u{3000}'
}

/// Whether a character is white space.
pub fn white_space(c: char) -> (r: bool)
    ensures
        r == is_white_space(c),
{
    ('\u{9}' <= c && c <= '\u{d}') || c == ' ' || c == '\u{85}' || c == '\u{a0}'
        || c == '\u{1680}' || ('\u{2000}' <= c && c <= '\u{200a}') || c == '\u{2028}'
        || c == '\u{2029}' || c == '\u{202f}' || c == '\u{205f}' || c == '\u{3000}'
}

/// The end of the run of non-white-space characters that starts at `i`.
pub open spec fn word_end(s: Seq<char>, i: int) -> int
    decreases s.len() - i,
{
    if i < 0 || i >= s.len() || is_white_space(s[i]) {
        i
    } else {
        word_end(s, i + 1)
    }
}

/// The words of `s` from position `i` on: the maximal runs of characters that
/// are not white space, in order.
pub open spec fn words_from(s: Seq<char>, i: int) -> Seq<Seq<char>>
    decreases s.len() - i,
{
    if i < 0 || i >= s.len() {
        Seq::empty()
    } else if is_white_space(s[i]) {
        words_from(s, i + 1)
    } else {
        let j = word_end(s, i);
        if j <= i || j > s.len() {
            Seq::empty()
        } else {
            seq![s.subrange(i, j)] + words_from(s, j)
        }
    }
}

/// The words of `s`, as `str::split_whitespace` yields them.
pub open spec fn words(s: Seq<char>) -> Seq<Seq<char>> {
    words_from(s, 0)
}

/// The views of a sequence of strings.
pub open spec fn string_views(v: Seq<String>) -> Seq<Seq<char>> {
    v.map_values(|w: String| w@)
}

proof fn lemma_word_end_at(s: Seq<char>, i: int, j: int)
    requires
        0 <= i <= j <= s.len(),
        forall|k: int| i <= k < j ==> !is_white_space(#[trigger] s[k]),
        j == s.len() || is_white_space(s[j]),
    ensures
        word_end(s, i) == j,
    decreases j - i,
{
    if i < j {
        lemma_word_end_at(s, i + 1, j);
    }
}

/// Copies the characters `v[from..to]` into a new string.
fn string_of_range(v: &Vec<char>, from: usize, to: usize) -> (r: String)
    requires
        from <= to <= v@.len(),
    ensures
        r@ == v@.subrange(from as int, to as int),
{
    let mut w = String::new();
    let mut k = from;
    while k < to
        invariant
            from <= k <= to <= v@.len(),
            w@ == v@.subrange(from as int, k as int),
        decreases to - k,
    {
        push_char(&mut w, v[k]);
        k = k + 1;
        assert(w@ =~= v@.subrange(from as int, k as int));
    }
    w
}

/// The words of a text, split at white space.
pub fn split_whitespace(s: &str) -> (r: Vec<String>)
    ensures
        string_views(r@) == words(s@),
{
    let v = chars_of(s);
    let n = v.len();
    let mut out: Vec<String> = Vec::new();
    let mut i: usize = 0;
    assert(string_views(out@) + words_from(s@, 0) =~= words(s@));
    while i < n
        invariant
            n == v@.len(),
            v@ == s@,
            i <= n,
            string_views(out@) + words_from(s@, i as int) == words(s@),
        decreases n - i,
    {
        if white_space(v[i]) {
            i = i + 1;
        } else {
            let mut j = i;
            while j < n && !white_space(v[j])
                invariant
                    n == v@.len(),
                    i <= j <= n,
                    forall|k: int| i <= k < j ==> !is_white_space(#[trigger] v@[k]),
                decreases n - j,
            {
                j = j + 1;
            }
            proof {
                lemma_word_end_at(s@, i as int, j as int);
            }
            let w = string_of_range(&v, i, j);
            let ghost before = out@;
            out.push(w);
            assert(string_views(out@) =~= string_views(before).push(w@));
            assert(string_views(out@) + words_from(s@, j as int) =~= string_views(before)
                + words_from(s@, i as int));
            i = j;
        }
    }
    assert(string_views(out@) =~= words(s@));
    out
}

/// The arguments of a command: the words of the message after the first,
/// which names the command.
pub open spec fn command_args(s: Seq<char>) -> Seq<Seq<char>> {
    if words(s).len() == 0 {
        Seq::empty()
    } else {
        words(s).drop_first()
    }
}

/// The arguments of a command message: its words after the first, which
/// names the command.
pub fn find_args(content: &str) -> (r: Vec<String>)
    ensures
        string_views(r@) == command_args(content@),
{
    let mut all = split_whitespace(content);
    if all.len() == 0 {
        assert(string_views(all@) =~= command_args(content@));
        return all;
    }
    let ghost before = all@;
    let _command = all.remove(0);
    assert(string_views(all@) =~= string_views(before).drop_first());
    all
}

proof fn lemma_words_are_nonblank(s: Seq<char>, i: int)
    requires
        0 <= i,
    ensures
        forall|k: int| 0 <= k < words_from(s, i).len() ==> #[trigger] words_from(s, i)[k].len() > 0,
        forall|k: int, c: int| 0 <= k < words_from(s, i).len() && 0 <= c < words_from(s, i)[k].len()
            ==> !is_white_space(#[trigger] words_from(s, i)[k][c]),
    decreases s.len() - i,
{
    if i < s.len() {
        if is_white_space(s[i]) {
            lemma_words_are_nonblank(s, i + 1);
            assert(words_from(s, i) == words_from(s, i + 1));
        } else {
            let j = word_end(s, i);
            lemma_word_end_bounds(s, i + 1);
            assert(j == word_end(s, i + 1));
            if i < j && j <= s.len() {
                lemma_words_are_nonblank(s, j);
                lemma_word_end_runs(s, i);
                let w = words_from(s, i);
                assert(w == seq![s.subrange(i, j)] + words_from(s, j));
                assert forall|k: int| 0 <= k < w.len() implies #[trigger] w[k].len() > 0 by {
                    if k > 0 {
                        assert(w[k] == words_from(s, j)[k - 1]);
                    }
                }
                assert forall|k: int, c: int| 0 <= k < w.len() && 0 <= c < w[k].len()
                    implies !is_white_space(#[trigger] w[k][c]) by {
                    if k > 0 {
                        assert(w[k] == words_from(s, j)[k - 1]);
                    } else {
                        assert(w[k][c] == s[i + c]);
                    }
                }
            }
        }
    }
}

proof fn lemma_word_end_bounds(s: Seq<char>, i: int)
    requires
        0 <= i <= s.len(),
    ensures
        i <= word_end(s, i) <= s.len(),
    decreases s.len() - i,
{
    if !(i >= s.len() || is_white_space(s[i])) {
        lemma_word_end_bounds(s, i + 1);
    }
}

proof fn lemma_word_end_runs(s: Seq<char>, i: int)
    requires
        0 <= i,
    ensures
        forall|k: int| i <= k < word_end(s, i) ==> !is_white_space(#[trigger] s[k]),
    decreases s.len() - i,
{
    if !(i >= s.len() || is_white_space(s[i])) {
        lemma_word_end_runs(s, i + 1);
    }
}

/// Every argument of a command is a non-empty run of characters without white
/// space.
pub proof fn law_args_are_nonblank_words(s: Seq<char>)
    ensures
        forall|k: int| 0 <= k < command_args(s).len() ==> #[trigger] command_args(s)[k].len() > 0,
        forall|k: int, c: int| 0 <= k < command_args(s).len() && 0 <= c < command_args(s)[k].len()
            ==> !is_white_space(#[trigger] command_args(s)[k][c]),
{
    lemma_words_are_nonblank(s, 0);
    if words(s).len() > 0 {
        assert forall|k: int| 0 <= k < command_args(s).len() implies #[trigger] command_args(s)[k].len() > 0 by {
            assert(command_args(s)[k] == words(s)[k + 1]);
        }
        assert forall|k: int, c: int| 0 <= k < command_args(s).len() && 0 <= c < command_args(s)[k].len()
            implies !is_white_space(#[trigger] command_args(s)[k][c]) by {
            assert(command_args(s)[k] == words(s)[k + 1]);
        }
    }
}

/// The parts of a list joined with a separator between each two.
pub open spec fn seq_join(list: Seq<Seq<char>>, sep: Seq<char>) -> Seq<char>
    decreases list.len(),
{
    if list.len() == 0 {
        Seq::empty()
    } else if list.len() == 1 {
        list[0]
    } else {
        seq_join(list.drop_last(), sep) + sep + list.last()
    }
}

/// Joins strings with a separator between each two.
pub fn join(list: &Vec<String>, sep: &str) -> (r: String)
    ensures
        r@ == seq_join(string_views(list@), sep@),
{
    let mut res = String::new();
    let ghost views = string_views(list@);
    let n = list.len();
    let mut i: usize = 0;
    assert(views.take(0) =~= Seq::<Seq<char>>::empty());
    while i < n
        invariant
            n == list@.len(),
            views == string_views(list@),
            i <= n,
            res@ == seq_join(views.take(i as int), sep@),
        decreases n - i,
    {
        assert(views.take(i + 1).drop_last() =~= views.take(i as int));
        assert(views.take(i + 1).last() == list@[i as int]@);
        if i != 0 {
            res.append(sep);
        } else {
            assert(res@ =~= Seq::<char>::empty());
        }
        res.append(list[i].as_str());
        i = i + 1;
        assert(res@ =~= seq_join(views.take(i as int), sep@));
    }
    assert(views.take(n as int) =~= views);
    res
}

/// Whether two texts are equal.
pub fn str_equal(a: &str, b: &str) -> (r: bool)
    ensures
        r == (a@ == b@),
{
    let va = chars_of(a);
    let vb = chars_of(b);
    if va.len() != vb.len() {
        return false;
    }
    let mut i: usize = 0;
    while i < va.len()
        invariant
            va@ == a@,
            vb@ == b@,
            va@.len() == vb@.len(),
            i <= va@.len(),
            forall|k: int| 0 <= k < i ==> va@[k] == vb@[k],
        decreases va@.len() - i,
    {
        if va[i] != vb[i] {
            return false;
        }
        i = i + 1;
    }
    assert(va@ =~= vb@);
    true
}

/// Whether a text begins with a prefix.
pub fn starts_with(s: &str, prefix: &str) -> (r: bool)
    ensures
        r == (prefix@.len() <= s@.len() && s@.take(prefix@.len() as int) == prefix@),
{
    let vs = chars_of(s);
    let vp = chars_of(prefix);
    if vp.len() > vs.len() {
        return false;
    }
    let mut i: usize = 0;
    while i < vp.len()
        invariant
            vs@ == s@,
            vp@ == prefix@,
            vp@.len() <= vs@.len(),
            i <= vp@.len(),
            forall|k: int| 0 <= k < i ==> vs@[k] == vp@[k],
        decreases vp@.len() - i,
    {
        if vs[i] != vp[i] {
            assert(s@.take(prefix@.len() as int)[i as int] != prefix@[i as int]);
            return false;
        }
        i = i + 1;
    }
    assert(s@.take(prefix@.len() as int) =~= prefix@);
    true
}

#[verifier::external_type_specification]
#[verifier::external_body]
pub struct ExParseIntError(std::num::ParseIntError);

/// Reads an unsigned 8-bit number.
///
/// Calls `str::parse::<u8>`, which std documents as accepting an optional `+`
/// followed by one or more ASCII digits whose value fits in a `u8`, and
/// refusing anything else with a `ParseIntError`. The contract claims that
/// much; it says nothing of the error's kind.
#[verifier::external_body]
pub fn parse_u8(s: &str) -> (r: Result<u8, std::num::ParseIntError>)
    ensures
        r is Ok <==> parse_unsigned(s@, 255) is Some,
        r matches Ok(v) ==> parse_unsigned(s@, 255) == Some(v as nat),
{
    s.parse::<u8>()
}

/// Only characters with the Unicode `White_Space` property separate words:
/// no printable ASCII character other than the space does (so `-`, `:`, `.`
/// and `'` stay inside a word), while the space and the ASCII control
/// characters tab, line feed, vertical tab, form feed and carriage return do.
pub proof fn law_white_space_is_unicode_white_space(c: char)
    ensures
        '!' <= c && c <= '~' ==> !is_white_space(c),
        is_white_space(' '),
        is_white_space('\t'),
        is_white_space('\n'),
        is_white_space('\u{b}'),
        is_white_space('\u{c}'),
        is_white_space('\r'),
        is_white_space('\u{a0}'),
        is_white_space('\u{3000}'),
        !is_white_space('\u{200b}'),
{
}

/// A text of printable ASCII characters without spaces is one word, kept
/// whole: splitting it gives just that text.
pub proof fn law_printable_text_is_one_word(s: Seq<char>)
    requires
        s.len() > 0,
        forall|i: int| 0 <= i < s.len() ==> '!' <= #[trigger] s[i] && s[i] <= '~',
    ensures
        words(s) == seq![s],
{
    assert forall|k: int| 0 <= k < s.len() implies !is_white_space(#[trigger] s[k]) by {
        law_white_space_is_unicode_white_space(s[k]);
    }
    lemma_word_end_at(s, 0, s.len() as int);
    assert(s.subrange(0, s.len() as int) =~= s);
    assert(words_from(s, s.len() as int) =~= Seq::<Seq<char>>::empty());
    assert(words(s) =~= seq![s]);
}

proof fn lemma_zeros_value(z: Seq<char>)
    requires
        forall|i: int| 0 <= i < z.len() ==> #[trigger] z[i] == '0',
    ensures
        digits_value(z) == 0,
    decreases z.len(),
{
    if z.len() > 0 {
        lemma_zeros_value(z.drop_last());
    }
}

/// Leading zeros change neither whether a run is all digits nor its value.
pub(crate) proof fn lemma_leading_zeros(z: Seq<char>, s: Seq<char>)
    requires
        forall|i: int| 0 <= i < z.len() ==> #[trigger] z[i] == '0',
    ensures
        digits_value(z + s) == digits_value(s),
        all_digits(s) ==> all_digits(z + s),
    decreases s.len(),
{
    if s.len() == 0 {
        assert(z + s =~= z);
        lemma_zeros_value(z);
    } else {
        lemma_leading_zeros(z, s.drop_last());
        assert((z + s).drop_last() =~= z + s.drop_last());
        assert((z + s).last() == s.last());
    }
    assert(all_digits(s) ==> all_digits(z + s)) by {
        if all_digits(s) {
            assert forall|i: int| 0 <= i < (z + s).len() implies is_ascii_digit(#[trigger] (z + s)[i]) by {
                if i >= z.len() {
                    assert((z + s)[i] == s[i - z.len()]);
                }
            }
        }
    }
}

/// How many digits the numeral of a number below ten thousand has.
pub(crate) proof fn lemma_decimal_len(n: nat)
    requires
        n < 10000,
    ensures
        n < 10 ==> decimal(n).len() == 1,
        10 <= n < 100 ==> decimal(n).len() == 2,
        100 <= n < 1000 ==> decimal(n).len() == 3,
        1000 <= n ==> decimal(n).len() == 4,
    decreases n,
{
    if n >= 10 {
        lemma_decimal_len(n / 10);
    }
}

} // verus!
