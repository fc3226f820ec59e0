//! Small verified helpers on character sequences and strings.

use vstd::prelude::*;

verus! {

/// `String::push` appends one character.
pub assume_specification[ String::push ](s: &mut String, c: char)
    ensures
        final(s)@ == old(s)@.push(c),
;

/// `String::push_str` appends a string slice.
pub assume_specification[ String::push_str ](s: &mut String, other: &str)
    ensures
        final(s)@ == old(s)@ + other@,
;

/// The characters of `s`, in order.
pub fn chars_of(s: &str) -> (out: Vec<char>)
    ensures
        out@ == s@,
{
    let mut out: Vec<char> = Vec::new();
    for c in it: s.chars()
        invariant
            it.seq() == s@,
            out@ == s@.take(it.index() as int),
    {
        out.push(c);
        assert(s@.take(it.index() + 1) == s@.take(it.index() as int).push(s@[it.index() as int]));
    }
    assert(s@.take(s@.len() as int) == s@);
    out
}

/// The string made of the characters `cs[from..to]`.
pub fn string_of(cs: &Vec<char>, from: usize, to: usize) -> (out: String)
    requires
        from <= to <= cs@.len(),
    ensures
        out@ == cs@.subrange(from as int, to as int),
{
    let mut out = String::new();
    let mut i: usize = from;
    while i < to
        invariant
            from <= i <= to <= cs@.len(),
            out@ == cs@.subrange(from as int, i as int),
        decreases to - i,
    {
        out.push(cs[i]);
        i += 1;
        assert(cs@.subrange(from as int, i as int) == cs@.subrange(from as int, i - 1).push(
            cs@[i - 1],
        ));
    }
    out
}

/// The view of an optional string.
pub open spec fn opt_view(o: Option<String>) -> Option<Seq<char>> {
    match o {
        Some(s) => Some(s@),
        None => None,
    }
}

/// A copy of an optional string.
pub fn clone_opt_string(o: &Option<String>) -> (r: Option<String>)
    ensures
        opt_view(r) == opt_view(*o),
{
    match o {
        Some(s) => Some(s.clone()),
        None => None,
    }
}

/// The ten decimal digits, by value.
pub open spec fn decimal_digits() -> Seq<char> {
    seq!['0', '1', '2', '3', '4', '5', '6', '7', '8', '9']
}

/// The decimal numeral of `n`, without leading zeros.
pub open spec fn decimal(n: nat) -> Seq<char>
    decreases n,
{
    if n < 10 {
        seq![decimal_digits()[n as int]]
    } else {
        decimal(n / 10).push(decimal_digits()[(n % 10) as int])
    }
}

/// The character of one decimal digit.
pub fn digit_char(d: u64) -> (c: char)
    requires
        d < 10,
    ensures
        c == decimal_digits()[d as int],
{
    match d {
        0 => '0',
        1 => '1',
        2 => '2',
        3 => '3',
        4 => '4',
        5 => '5',
        6 => '6',
        7 => '7',
        8 => '8',
        _ => '9',
    }
}

/// Appends the decimal numeral of `n` to `out`.
pub fn push_decimal(out: &mut String, n: u64)
    ensures
        final(out)@ == old(out)@ + decimal(n as nat),
    decreases n,
{
    if n >= 10 {
        push_decimal(out, n / 10);
    }
    out.push(digit_char(n % 10));
    assert(out@ =~= old(out)@ + decimal(n as nat));
}

/// The decimal numeral of `n`.
pub fn decimal_string(n: u64) -> (out: String)
    ensures
        out@ == decimal(n as nat),
{
    let mut out = String::new();
    push_decimal(&mut out, n);
    assert(out@ =~= decimal(n as nat));
    out
}

/// The concatenation of two strings.
pub fn join2(a: &str, b: &str) -> (out: String)
    ensures
        out@ == a@ + b@,
{
    let mut out = String::from_str(a);
    out.push_str(b);
    out
}

/// The concatenation of three strings.
pub fn join3(a: &str, b: &str, c: &str) -> (out: String)
    ensures
        out@ == a@ + b@ + c@,
{
    let mut out = String::from_str(a);
    out.push_str(b);
    out.push_str(c);
    out
}

/// The lower-case form of an ASCII capital; any other character as it is.
pub open spec fn lower_char(c: char) -> char {
    if 'A' <= c && c <= 'Z' {
        ((c as u8) + 32) as char
    } else {
        c
    }
}

/// A text with its ASCII capitals turned to lower case.
pub open spec fn lowered(s: Seq<char>) -> Seq<char> {
    Seq::new(s.len(), |i: int| lower_char(s[i]))
}

/// One character with an ASCII capital turned to lower case.
pub fn to_lower_char(c: char) -> (r: char)
    ensures
        r == lower_char(c),
{
    if 'A' <= c && c <= 'Z' {
        ((c as u8) + 32) as char
    } else {
        c
    }
}

/// A copy of `s` with its ASCII capitals turned to lower case.
pub fn ascii_lower(s: &str) -> (out: String)
    ensures
        out@ == lowered(s@),
{
    let cs = chars_of(s);
    let mut out = String::new();
    let mut i: usize = 0;
    while i < cs.len()
        invariant
            i <= cs.len(),
            cs@ == s@,
            out@ == lowered(s@).take(i as int),
        decreases cs.len() - i,
    {
        out.push(to_lower_char(cs[i]));
        i += 1;
        assert(lowered(s@).take(i as int) =~= lowered(s@).take(i - 1).push(lowered(s@)[i - 1]));
    }
    assert(lowered(s@).take(cs.len() as int) =~= lowered(s@));
    out
}

/// Whether `pat` occurs in `s` at index `i`.
pub open spec fn occurs_at(s: Seq<char>, pat: Seq<char>, i: int) -> bool {
    &&& 0 <= i
    &&& i + pat.len() <= s.len()
    &&& s.subrange(i, i + pat.len()) == pat
}

/// Whether `s` begins with `pat`.
pub open spec fn has_prefix(s: Seq<char>, pat: Seq<char>) -> bool {
    occurs_at(s, pat, 0)
}

/// `i` is the first index at or after `from` at which `pat` occurs in `s`.
pub open spec fn is_first_occurrence(s: Seq<char>, pat: Seq<char>, from: int, i: int) -> bool {
    &&& from <= i
    &&& occurs_at(s, pat, i)
    &&& forall|j: int| from <= j < i ==> !occurs_at(s, pat, j)
}

/// Whether `pat` occurs in `s` at or after `from`.
pub open spec fn occurs_from(s: Seq<char>, pat: Seq<char>, from: int) -> bool {
    exists|i: int| from <= i && occurs_at(s, pat, i)
}

/// Whether `pat` occurs in `s`.
pub open spec fn contains_text(s: Seq<char>, pat: Seq<char>) -> bool {
    occurs_from(s, pat, 0)
}

/// Whether `pat` occurs in `cs` at index `i`.
pub fn matches_at(cs: &Vec<char>, pat: &Vec<char>, i: usize) -> (r: bool)
    ensures
        r == occurs_at(cs@, pat@, i as int),
{
    if pat.len() > cs.len() || i > cs.len() - pat.len() {
        return false;
    }
    let mut k: usize = 0;
    while k < pat.len()
        invariant
            k <= pat.len(),
            i + pat.len() <= cs.len(),
            forall|j: int| 0 <= j < k ==> cs@[i + j] == pat@[j],
        decreases pat.len() - k,
    {
        if cs[i + k] != pat[k] {
            assert(cs@.subrange(i as int, i + pat.len())[k as int] != pat@[k as int]);
            return false;
        }
        k += 1;
    }
    assert(cs@.subrange(i as int, i + pat.len()) =~= pat@);
    true
}

/// The first index at or after `from` at which `pat` occurs in `cs`.
pub fn find_from(cs: &Vec<char>, pat: &Vec<char>, from: usize) -> (r: Option<usize>)
    ensures
        match r {
            Some(i) => is_first_occurrence(cs@, pat@, from as int, i as int),
            None => !occurs_from(cs@, pat@, from as int),
        },
{
    if from > cs.len() {
        return None;
    }
    let mut i: usize = from;
    loop
        invariant
            from <= i <= cs.len(),
            forall|j: int| from <= j < i ==> !occurs_at(cs@, pat@, j),
        decreases cs.len() - i,
    {
        if matches_at(cs, pat, i) {
            return Some(i);
        }
        if i == cs.len() {
            return None;
        }
        i += 1;
    }
}

/// Whether the text begins with `pat`.
pub fn starts_with(s: &str, pat: &str) -> (r: bool)
    ensures
        r == has_prefix(s@, pat@),
{
    let cs = chars_of(s);
    let ps = chars_of(pat);
    matches_at(&cs, &ps, 0)
}

/// Whether `pat` occurs in the text.
pub fn contains(s: &str, pat: &str) -> (r: bool)
    ensures
        r == contains_text(s@, pat@),
{
    let cs = chars_of(s);
    let ps = chars_of(pat);
    find_from(&cs, &ps, 0).is_some()
}

/// Whether the character is a decimal digit.
pub open spec fn is_digit(c: char) -> bool {
    '0' <= c && c <= '9'
}

/// The value of a decimal digit.
pub open spec fn digit_value(c: char) -> nat {
    (c as nat - '0' as nat) as nat
}

/// Whether every character is a decimal digit.
pub open spec fn all_digits(s: Seq<char>) -> bool {
    forall|i: int| 0 <= i < s.len() ==> is_digit(#[trigger] s[i])
}

/// The number that a string of decimal digits denotes.
pub open spec fn number_of(s: Seq<char>) -> nat
    decreases s.len(),
{
    if s.len() == 0 {
        0
    } else {
        number_of(s.drop_last()) * 10 + digit_value(s.last())
    }
}

/// The digits of an unsigned numeral: the text without one leading `+`.
pub open spec fn unsigned_body(s: Seq<char>) -> Seq<char> {
    if s.len() > 0 && s[0] == '+' {
        s.drop_first()
    } else {
        s
    }
}

/// What a text denotes as an unsigned number no greater than `max`: the
/// text is an optional `+` and at least one decimal digit, and nothing
/// else; leading zeros are allowed.
pub open spec fn parsed_unsigned(s: Seq<char>, max: nat) -> Option<nat> {
    let body = unsigned_body(s);
    if body.len() > 0 && all_digits(body) && number_of(body) <= max {
        Some(number_of(body))
    } else {
        None
    }
}

/// A string of digits denotes at least what any of its beginnings denotes.
pub proof fn lemma_number_of_grows(s: Seq<char>, k: int)
    requires
        0 <= k <= s.len(),
    ensures
        number_of(s.take(k)) <= number_of(s),
    decreases s.len() - k,
{
    if k == s.len() {
        assert(s.take(k) =~= s);
    } else {
        lemma_number_of_grows(s, k + 1);
        assert(s.take(k + 1).drop_last() =~= s.take(k));
    }
}

/// Reads an unsigned number no greater than `max`.
pub fn parse_unsigned(s: &str, max: u64) -> (r: Option<u64>)
    ensures
        match r {
            Some(n) => parsed_unsigned(s@, max as nat) == Some(n as nat),
            None => parsed_unsigned(s@, max as nat) is None,
        },
{
    let cs = chars_of(s);
    let start: usize = if cs.len() > 0 && cs[0] == '+' {
        1
    } else {
        0
    };
    let ghost body = unsigned_body(s@);
    assert(body =~= cs@.subrange(start as int, cs@.len() as int));
    if start == cs.len() {
        return None;
    }
    let mut acc: u64 = 0;
    let mut i: usize = start;
    while i < cs.len()
        invariant
            start <= i <= cs.len(),
            cs@ == s@,
            body == cs@.subrange(start as int, cs@.len() as int),
            body == unsigned_body(s@),
            all_digits(body.take(i - start)),
            acc == number_of(body.take(i - start)),
            acc <= max,
        decreases cs.len() - i,
    {
        let c = cs[i];
        assert(body[i - start] == c);
        if !('0' <= c && c <= '9') {
            assert(!is_digit(body[i - start]));
            return None;
        }
        let d: u64 = (c as u64) - ('0' as u64);
        assert(body.take(i - start + 1).drop_last() =~= body.take(i - start));
        assert(body.take(i - start + 1).last() == c);
        if d > max || acc > (max - d) / 10 {
            proof {
                lemma_number_of_grows(body, i - start + 1);
                assert(number_of(body.take(i - start + 1)) == acc * 10 + d);
                assert(number_of(body) > max);
            }
            return None;
        }
        acc = acc * 10 + d;
        assert forall|k: int| 0 <= k < body.take(i - start + 1).len() implies is_digit(
            #[trigger] body.take(i - start + 1)[k],
        ) by {
            if k < i - start {
                assert(body.take(i - start)[k] == body[k]);
            }
        }
        i += 1;
    }
    assert(body.take(i - start) =~= body);
    Some(acc)
}

/// The first index at or after `from` at which `pat` occurs in `s`.
pub open spec fn first_occurrence(s: Seq<char>, pat: Seq<char>, from: int) -> int {
    choose|i: int| is_first_occurrence(s, pat, from, i)
}

/// A first occurrence is the one that `first_occurrence` names.
pub proof fn lemma_first_occurrence(s: Seq<char>, pat: Seq<char>, from: int, i: int)
    requires
        is_first_occurrence(s, pat, from, i),
    ensures
        occurs_from(s, pat, from),
        first_occurrence(s, pat, from) == i,
{
    let j = first_occurrence(s, pat, from);
    assert(is_first_occurrence(s, pat, from, j));
    if j < i {
        assert(!occurs_at(s, pat, j));
    } else if i < j {
        assert(!occurs_at(s, pat, i));
    }
}

/// The second of the pieces into which the separator cuts a text: what
/// stands between its first occurrence and the next one, or the end of the
/// text. `None` where the separator does not occur.
pub open spec fn second_piece(s: Seq<char>, sep: Seq<char>) -> Option<Seq<char>> {
    if occurs_from(s, sep, 0) {
        let start = first_occurrence(s, sep, 0) + sep.len();
        if occurs_from(s, sep, start) {
            Some(s.subrange(start, first_occurrence(s, sep, start)))
        } else {
            Some(s.subrange(start, s.len() as int))
        }
    } else {
        None
    }
}

/// The second of the pieces into which a non-empty separator cuts a text.
pub fn split_second(s: &str, sep: &str) -> (piece: Option<String>)
    requires
        sep@.len() > 0,
    ensures
        match piece {
            Some(p) => second_piece(s@, sep@) == Some(p@),
            None => second_piece(s@, sep@) is None,
        },
{
    let cs = chars_of(s);
    let ps = chars_of(sep);
    match find_from(&cs, &ps, 0) {
        Some(i) => {
            proof {
                lemma_first_occurrence(cs@, ps@, 0, i as int);
            }
            assert(occurs_at(cs@, ps@, i as int));
            assert(i + ps@.len() <= cs@.len());
            assert(cs@.len() == cs.len());
            let start = i + ps.len();
            match find_from(&cs, &ps, start) {
                Some(j) => {
                    proof {
                        lemma_first_occurrence(cs@, ps@, start as int, j as int);
                    }
                    Some(string_of(&cs, start, j))
                },
                None => Some(string_of(&cs, start, cs.len())),
            }
        },
        None => None,
    }
}

/// Whether two texts are the same.
pub fn same_text(a: &str, b: &str) -> (r: bool)
    ensures
        r == (a@ == b@),
{
    let x = chars_of(a);
    let y = chars_of(b);
    if x.len() != y.len() {
        return false;
    }
    let mut i: usize = 0;
    while i < x.len()
        invariant
            i <= x.len(),
            x.len() == y.len(),
            x@ == a@,
            y@ == b@,
            forall|k: int| 0 <= k < i ==> x@[k] == y@[k],
        decreases x.len() - i,
    {
        if x[i] != y[i] {
            assert(a@[i as int] != b@[i as int]);
            return false;
        }
        i += 1;
    }
    assert(x@ =~= y@);
    true
}

/// A line without its ending: without the carriage return that stands
/// directly before the line feed, if there is one.
pub open spec fn without_return(body: Seq<char>) -> Seq<char> {
    if body.len() > 0 && body.last() == '\r' {
        body.drop_last()
    } else {
        body
    }
}

/// The lines of `s` from the line that begins at `start`, of which the
/// characters before `i` hold no line feed.
pub open spec fn lines_from(s: Seq<char>, start: int, i: int) -> Seq<Seq<char>>
    decreases s.len() - i,
{
    if i >= s.len() {
        if start < s.len() {
            seq![s.subrange(start, s.len() as int)]
        } else {
            Seq::empty()
        }
    } else if s[i] == '\n' {
        seq![without_return(s.subrange(start, i))] + lines_from(s, i + 1, i + 1)
    } else {
        lines_from(s, start, i + 1)
    }
}

/// The lines of a text. A line ends with a line feed, or with a carriage
/// return and a line feed; the ending is not part of the line. The last
/// line needs no ending, and a text that ends with one has no empty line
/// after it.
pub open spec fn lines_of(s: Seq<char>) -> Seq<Seq<char>> {
    lines_from(s, 0, 0)
}

/// The views of a vector of strings.
pub open spec fn string_views(v: Seq<String>) -> Seq<Seq<char>> {
    Seq::new(v.len(), |i: int| v[i]@)
}

/// The lines of a text.
pub fn lines(s: &str) -> (out: Vec<String>)
    ensures
        string_views(out@) == lines_of(s@),
{
    let cs = chars_of(s);
    let mut out: Vec<String> = Vec::new();
    let mut start: usize = 0;
    let mut i: usize = 0;
    assert(string_views(out@) + lines_from(s@, 0, 0) =~= lines_of(s@));
    while i < cs.len()
        invariant
            start <= i <= cs.len(),
            cs@ == s@,
            lines_of(s@) == string_views(out@) + lines_from(s@, start as int, i as int),
        decreases cs.len() - i,
    {
        if cs[i] == '\n' {
            let ghost before = string_views(out@);
            let end: usize = if i > start && cs[i - 1] == '\r' {
                i - 1
            } else {
                i
            };
            let line = string_of(&cs, start, end);
            proof {
                let body = cs@.subrange(start as int, i as int);
                if i > start && cs[i - 1] == '\r' {
                    assert(body.last() == '\r');
                    assert(body.drop_last() =~= cs@.subrange(start as int, i - 1));
                }
                assert(line@ == without_return(body));
            }
            out.push(line);
            proof {
                assert(string_views(out@) =~= before + seq![line@]);
                assert(before + (seq![line@] + lines_from(s@, i + 1, i + 1)) =~= string_views(out@)
                    + lines_from(s@, i + 1, i + 1));
            }
            start = i + 1;
        }
        i += 1;
    }
    if start < cs.len() {
        let ghost before = string_views(out@);
        let line = string_of(&cs, start, cs.len());
        out.push(line);
        assert(string_views(out@) =~= before + seq![line@]);
    } else {
        assert(string_views(out@) + lines_from(s@, start as int, i as int) =~= string_views(out@));
    }
    out
}

/// Whether the character is white space: a character with the Unicode
/// property `White_Space`.
pub open spec fn is_space(c: char) -> bool {
    ||| ('\u{9}' <= c && c <= '\u{d}')
    ||| c == ' '
    ||| c == '\u{85}'
    ||| c == '\u{a0}'
    ||| c == '\u{1680}'
    ||| ('\u{2000}' <= c && c <= '\u{200a}')
    ||| c == '\u{2028}'
    ||| c == '\u{2029}'
    ||| c == '\u{202f}'
    ||| c == '\u{205f}'
    ||| c == '\u{3000}'
}

/// Whether the character is white space.
pub fn space(c: char) -> (r: bool)
    ensures
        r == is_space(c),
{
    ('\u{9}' <= c && c <= '\u{d}') || c == ' ' || c == '\u{85}' || c == '\u{a0}' || c
        == '\u{1680}' || ('\u{2000}' <= c && c <= '\u{200a}') || c == '\u{2028}' || c
        == '\u{2029}' || c == '\u{202f}' || c == '\u{205f}' || c == '\u{3000}'
}

/// The words of `s` from index `i` on, where `open` is the index at which
/// the word that reaches `i` began, or -1 where `i` is not inside a word.
pub open spec fn words_from(s: Seq<char>, i: int, open: int) -> Seq<Seq<char>>
    decreases s.len() - i,
{
    if i >= s.len() {
        if open >= 0 {
            seq![s.subrange(open, s.len() as int)]
        } else {
            Seq::empty()
        }
    } else if is_space(s[i]) {
        if open >= 0 {
            seq![s.subrange(open, i)] + words_from(s, i + 1, -1)
        } else {
            words_from(s, i + 1, -1)
        }
    } else {
        words_from(
            s,
            i + 1,
            if open >= 0 {
                open
            } else {
                i
            },
        )
    }
}

/// The words of a text: its maximal runs of characters that are not white
/// space, in order.
pub open spec fn words_of(s: Seq<char>) -> Seq<Seq<char>> {
    words_from(s, 0, -1)
}

/// The words of a text.
pub fn words(s: &str) -> (out: Vec<String>)
    ensures
        string_views(out@) == words_of(s@),
{
    let cs = chars_of(s);
    let mut out: Vec<String> = Vec::new();
    let mut open: Option<usize> = None;
    let mut i: usize = 0;
    assert(string_views(out@) + words_from(s@, 0, -1) =~= words_of(s@));
    while i < cs.len()
        invariant
            i <= cs.len(),
            cs@ == s@,
            open is Some ==> open->0 < i,
            words_of(s@) == string_views(out@) + words_from(
                s@,
                i as int,
                if open is Some {
                    open->0 as int
                } else {
                    -1
                },
            ),
        decreases cs.len() - i,
    {
        if space(cs[i]) {
            match open {
                Some(from) => {
                    let ghost before = string_views(out@);
                    let word = string_of(&cs, from, i);
                    out.push(word);
                    proof {
                        assert(string_views(out@) =~= before + seq![word@]);
                        assert(before + (seq![word@] + words_from(s@, i + 1, -1)) =~= string_views(
                            out@,
                        ) + words_from(s@, i + 1, -1));
                    }
                    open = None;
                },
                None => {},
            }
        } else if open.is_none() {
            open = Some(i);
        }
        i += 1;
    }
    match open {
        Some(from) => {
            let ghost before = string_views(out@);
            let word = string_of(&cs, from, cs.len());
            out.push(word);
            assert(string_views(out@) =~= before + seq![word@]);
        },
        None => {
            assert(string_views(out@) + words_from(s@, i as int, -1) =~= string_views(out@));
        },
    }
    out
}

/// The text without the white space at its beginning and at its end.
pub open spec fn trimmed(s: Seq<char>) -> Seq<char>
    decreases s.len(),
{
    if s.len() == 0 {
        s
    } else if is_space(s[0]) {
        trimmed(s.drop_first())
    } else if is_space(s.last()) {
        trimmed(s.drop_last())
    } else {
        s
    }
}

/// The text without the white space at its beginning and at its end.
pub fn trim(s: &str) -> (out: String)
    ensures
        out@ == trimmed(s@),
{
    let cs = chars_of(s);
    let mut from: usize = 0;
    assert(cs@.subrange(0, cs@.len() as int) =~= cs@);
    while from < cs.len() && space(cs[from])
        invariant
            from <= cs.len(),
            cs@ == s@,
            trimmed(s@) == trimmed(cs@.subrange(from as int, cs@.len() as int)),
        decreases cs.len() - from,
    {
        assert(cs@.subrange(from as int, cs@.len() as int).drop_first() =~= cs@.subrange(
            from + 1,
            cs@.len() as int,
        ));
        from += 1;
    }
    let mut to: usize = cs.len();
    while to > from && space(cs[to - 1])
        invariant
            from <= to <= cs.len(),
            cs@ == s@,
            from < cs.len() ==> !is_space(cs@[from as int]),
            trimmed(s@) == trimmed(cs@.subrange(from as int, to as int)),
        decreases to,
    {
        assert(cs@.subrange(from as int, to as int).drop_last() =~= cs@.subrange(
            from as int,
            to - 1,
        ));
        to -= 1;
    }
    string_of(&cs, from, to)
}

/// The text from index `i` on, with every occurrence of `from` replaced
/// by `to`; occurrences are taken from left to right and do not overlap.
pub open spec fn replaced_from(s: Seq<char>, from: Seq<char>, to: Seq<char>, i: int) -> Seq<char>
    decreases s.len() - i,
{
    if i >= s.len() || from.len() == 0 {
        Seq::empty()
    } else if occurs_at(s, from, i) {
        to + replaced_from(s, from, to, i + from.len())
    } else {
        seq![s[i]] + replaced_from(s, from, to, i + 1)
    }
}

/// The text with every occurrence of `from` replaced by `to`.
pub open spec fn replaced(s: Seq<char>, from: Seq<char>, to: Seq<char>) -> Seq<char> {
    replaced_from(s, from, to, 0)
}

/// A copy of the text with every occurrence of the non-empty `from`
/// replaced by `to`.
pub fn replace_all(s: &str, from: &str, to: &str) -> (out: String)
    requires
        from@.len() > 0,
    ensures
        out@ == replaced(s@, from@, to@),
{
    let cs = chars_of(s);
    let fs = chars_of(from);
    let mut out = String::new();
    let mut i: usize = 0;
    assert(out@ + replaced_from(s@, from@, to@, 0) =~= replaced(s@, from@, to@));
    while i < cs.len()
        invariant
            i <= cs.len(),
            cs@ == s@,
            fs@ == from@,
            from@.len() > 0,
            replaced(s@, from@, to@) == out@ + replaced_from(s@, from@, to@, i as int),
        decreases cs.len() - i,
    {
        let ghost before = out@;
        if matches_at(&cs, &fs, i) {
            out.push_str(to);
            assert(before + (to@ + replaced_from(s@, from@, to@, i + from@.len())) =~= out@
                + replaced_from(s@, from@, to@, i + from@.len()));
            i += fs.len();
        } else {
            out.push(cs[i]);
            assert(before + (seq![s@[i as int]] + replaced_from(s@, from@, to@, i + 1)) =~= out@
                + replaced_from(s@, from@, to@, i + 1));
            i += 1;
        }
    }
    assert(out@ + replaced_from(s@, from@, to@, i as int) =~= out@);
    out
}

/// The pieces into which the commas cut the text from index `start` on,
/// where the characters from `start` to `i` hold no comma. A text without
/// comma is one piece; the empty text too.
pub open spec fn pieces_from(s: Seq<char>, start: int, i: int) -> Seq<Seq<char>>
    decreases s.len() - i,
{
    if i >= s.len() {
        seq![s.subrange(start, s.len() as int)]
    } else if s[i] == ',' {
        seq![s.subrange(start, i)] + pieces_from(s, i + 1, i + 1)
    } else {
        pieces_from(s, start, i + 1)
    }
}

/// The pieces into which the commas cut a text.
pub open spec fn comma_pieces(s: Seq<char>) -> Seq<Seq<char>> {
    pieces_from(s, 0, 0)
}

/// The pieces into which the commas cut a text.
pub fn split_commas(s: &str) -> (out: Vec<String>)
    ensures
        string_views(out@) == comma_pieces(s@),
{
    let cs = chars_of(s);
    let mut out: Vec<String> = Vec::new();
    let mut start: usize = 0;
    let mut i: usize = 0;
    assert(string_views(out@) + pieces_from(s@, 0, 0) =~= comma_pieces(s@));
    while i < cs.len()
        invariant
            start <= i <= cs.len(),
            cs@ == s@,
            comma_pieces(s@) == string_views(out@) + pieces_from(s@, start as int, i as int),
        decreases cs.len() - i,
    {
        if cs[i] == ',' {
            let ghost before = string_views(out@);
            let piece = string_of(&cs, start, i);
            out.push(piece);
            proof {
                assert(string_views(out@) =~= before + seq![piece@]);
                assert(before + (seq![piece@] + pieces_from(s@, i + 1, i + 1)) =~= string_views(
                    out@,
                ) + pieces_from(s@, i + 1, i + 1));
            }
            start = i + 1;
        }
        i += 1;
    }
    let ghost before = string_views(out@);
    let piece = string_of(&cs, start, cs.len());
    out.push(piece);
    assert(string_views(out@) =~= before + seq![piece@]);
    out
}

} // verus!
