//! Text helpers shared by the configuration, the sessions and the engine.
//!
//! Every function works on the characters of a string (its view), never on its
//! bytes, so that no operation can cut a character in two.

use vstd::prelude::*;
use vstd::string::*;

verus! {

/// The parts written one after another with `sep` between neighbours.
pub open spec fn join(parts: Seq<Seq<char>>, sep: Seq<char>) -> Seq<char>
    decreases parts.len(),
{
    if parts.len() == 0 {
        Seq::empty()
    } else if parts.len() == 1 {
        parts[0]
    } else {
        join(parts.drop_last(), sep) + sep + parts.last()
    }
}

/// Joins owned strings with a separator.
pub fn join_strings(parts: &Vec<String>, sep: &str) -> (joined: String)
    ensures
        joined@ == join(parts.deep_view(), sep@),
{
    let mut joined = String::new();
    let mut i: usize = 0;
    while i < parts.len()
        invariant
            i <= parts.len(),
            joined@ == join(parts.deep_view().take(i as int), sep@),
        decreases parts.len() - i,
    {
        proof {
            let done = parts.deep_view().take(i as int);
            let next = parts.deep_view().take(i + 1);
            assert(next.drop_last() =~= done);
            assert(next.last() == parts[i as int]@);
        }
        if i > 0 {
            joined.append(sep);
        }
        joined.append(parts[i].as_str());
        i += 1;
    }
    proof {
        assert(parts.deep_view().take(parts.len() as int) =~= parts.deep_view());
    }
    joined
}

/// The characters of a string, in order.
pub fn chars_of(s: &str) -> (chars: Vec<char>)
    ensures
        chars@ == s@,
{
    let mut chars: Vec<char> = Vec::new();
    for c in it: s.chars()
        invariant
            chars@ == it.seq().take(it.index() as int),
            it.seq() == s@,
    {
        chars.push(c);
    }
    chars
}

/// Whether two strings hold the same characters.
pub fn same_text(a: &str, b: &str) -> (same: bool)
    ensures
        same == (a@ == b@),
{
    let left = chars_of(a);
    let right = chars_of(b);
    if left.len() != right.len() {
        return false;
    }
    let mut i: usize = 0;
    while i < left.len()
        invariant
            i <= left.len(),
            left.len() == right.len(),
            left@ == a@,
            right@ == b@,
            forall|j: int| 0 <= j < i ==> left@[j] == right@[j],
        decreases left.len() - i,
    {
        if left[i] != right[i] {
            return false;
        }
        i += 1;
    }
    proof {
        assert(a@ =~= b@);
    }
    true
}

/// Whether `s` begins with `prefix`.
pub fn has_prefix(s: &str, prefix: &str) -> (found: bool)
    ensures
        found == prefix@.is_prefix_of(s@),
{
    let len = prefix.unicode_len();
    if s.unicode_len() < len {
        return false;
    }
    same_text(s.substring_char(0, len), prefix)
}

/// The owned copy of the characters of `s` from index `from` on.
pub fn tail_from(s: &str, from: usize) -> (tail: String)
    requires
        from <= s@.len(),
    ensures
        tail@ == s@.skip(from as int),
{
    let len = s.unicode_len();
    String::from_str(s.substring_char(from, len))
}

/// The character that writes the decimal digit `d`.
pub open spec fn digit(d: int) -> char {
    if d == 0 {
        '0'
    } else if d == 1 {
        '1'
    } else if d == 2 {
        '2'
    } else if d == 3 {
        '3'
    } else if d == 4 {
        '4'
    } else if d == 5 {
        '5'
    } else if d == 6 {
        '6'
    } else if d == 7 {
        '7'
    } else if d == 8 {
        '8'
    } else {
        '9'
    }
}

/// A natural number in decimal, without leading zeros.
pub open spec fn decimal(n: nat) -> Seq<char>
    decreases n,
{
    if n < 10 {
        seq![digit(n as int)]
    } else {
        decimal(n / 10).push(digit((n % 10) as int))
    }
}

fn digit_text(d: u64) -> (text: &'static str)
    requires
        d < 10,
    ensures
        text@ == seq![digit(d as int)],
{
    let text = match d {
        0 => "0",
        1 => "1",
        2 => "2",
        3 => "3",
        4 => "4",
        5 => "5",
        6 => "6",
        7 => "7",
        8 => "8",
        _ => "9",
    };
    proof {
        reveal_strlit("0");
        reveal_strlit("1");
        reveal_strlit("2");
        reveal_strlit("3");
        reveal_strlit("4");
        reveal_strlit("5");
        reveal_strlit("6");
        reveal_strlit("7");
        reveal_strlit("8");
        reveal_strlit("9");
        assert(text@ =~= seq![digit(d as int)]);
    }
    text
}

/// Writes a number in decimal.
pub fn decimal_string(n: u64) -> (text: String)
    ensures
        text@ == decimal(n as nat),
    decreases n,
{
    if n < 10 {
        String::from_str(digit_text(n))
    } else {
        let mut text = decimal_string(n / 10);
        text.append(digit_text(n % 10));
        proof {
            assert(text@ =~= decimal((n / 10) as nat).push(digit((n % 10) as int)));
        }
        text
    }
}

/// The number of leading characters of `s` before the first one that `stop`
/// accepts; the whole length where it accepts none.
pub open spec fn run_length(s: Seq<char>, stop: spec_fn(char) -> bool) -> nat
    decreases s.len(),
{
    if s.len() == 0 || stop(s[0]) {
        0
    } else {
        1 + run_length(s.skip(1), stop)
    }
}

/// `run_length` is the first index that `stop` accepts.
pub proof fn lemma_run_length(s: Seq<char>, stop: spec_fn(char) -> bool, k: int)
    requires
        0 <= k <= s.len(),
        forall|j: int| 0 <= j < k ==> !stop(#[trigger] s[j]),
        k == s.len() || stop(s[k]),
    ensures
        run_length(s, stop) == k,
    decreases k,
{
    if k > 0 {
        let rest = s.skip(1);
        assert forall|j: int| 0 <= j < k - 1 implies !stop(#[trigger] rest[j]) by {
            assert(rest[j] == s[j + 1]);
        }
        lemma_run_length(rest, stop, k - 1);
    }
}

/// Whether a character ends a line.
pub open spec fn is_newline(c: char) -> bool {
    c == '\n'
}

/// A line without the carriage return that stood before its line feed.
pub open spec fn strip_carriage_return(line: Seq<char>) -> Seq<char> {
    if line.len() > 0 && line.last() == '\r' {
        line.drop_last()
    } else {
        line
    }
}

/// The lines of a text. A line ends at a line feed, which is left out together
/// with one carriage return directly before it. Text after the last line feed
/// is a line of its own, kept as it is; a text that ends in a line feed has no
/// empty line after it.
pub open spec fn lines(s: Seq<char>) -> Seq<Seq<char>>
    decreases s.len(),
{
    if s.len() == 0 {
        Seq::empty()
    } else {
        let k = run_length(s, |c: char| is_newline(c)) as int;
        if k >= s.len() {
            seq![s]
        } else {
            seq![strip_carriage_return(s.take(k))] + lines(s.skip(k + 1))
        }
    }
}

/// Splits a text into its lines.
pub fn split_lines(s: &str) -> (out: Vec<String>)
    ensures
        out.deep_view() == lines(s@),
{
    let chars = chars_of(s);
    let n = chars.len();
    let ghost stop = |c: char| is_newline(c);
    let mut out: Vec<String> = Vec::new();
    let mut start: usize = 0;
    let mut i: usize = 0;
    proof {
        assert(s@.skip(0) =~= s@);
        assert(out.deep_view() =~= Seq::<Seq<char>>::empty());
        assert(out.deep_view() + lines(s@) =~= lines(s@));
    }
    while i < n
        invariant
            start <= i <= n,
            n == s@.len(),
            chars@ == s@,
            stop == (|c: char| is_newline(c)),
            forall|j: int| start <= j < i ==> s@[j] != '\n',
            lines(s@) == out.deep_view() + lines(s@.skip(start as int)),
        decreases n - i,
    {
        if chars[i] == '\n' {
            let ghost rest = s@.skip(start as int);
            let ghost k = i - start;
            let last_is_cr = i > start && chars[i - 1] == '\r';
            let end = if last_is_cr { i - 1 } else { i };
            let line = String::from_str(s.substring_char(start, end));
            proof {
                assert forall|j: int| 0 <= j < k implies !stop(#[trigger] rest[j]) by {
                    assert(rest[j] == s@[start + j]);
                }
                assert(stop(rest[k]));
                lemma_run_length(rest, stop, k);
                assert(rest.take(k) =~= s@.subrange(start as int, i as int));
                assert(rest.skip(k + 1) =~= s@.skip(i + 1));
                assert(line@ =~= strip_carriage_return(rest.take(k)));
                assert(lines(rest) == seq![line@] + lines(s@.skip(i + 1)));
                let before = out.deep_view();
                assert(before.push(line@) + lines(s@.skip(i + 1)) =~= before + lines(rest));
            }
            let ghost before = out.deep_view();
            out.push(line);
            proof {
                assert(out.deep_view() =~= before.push(line@));
            }
            start = i + 1;
        }
        i += 1;
    }
    if start < n {
        let line = String::from_str(s.substring_char(start, n));
        proof {
            let rest = s@.skip(start as int);
            assert forall|j: int| 0 <= j < rest.len() implies !stop(#[trigger] rest[j]) by {
                assert(rest[j] == s@[start + j]);
            }
            lemma_run_length(rest, stop, rest.len() as int);
            assert(line@ =~= rest);
            assert(lines(rest) =~= seq![rest]);
        }
        let ghost before = out.deep_view();
        out.push(line);
        proof {
            assert(out.deep_view() =~= before.push(line@));
            assert(before.push(line@) =~= before + seq![line@]);
        }
    } else {
        proof {
            assert(s@.skip(start as int).len() == 0);
            assert(out.deep_view() + Seq::<Seq<char>>::empty() =~= out.deep_view());
        }
    }
    out
}

/// The characters that separate words: those with the Unicode property
/// `White_Space`.
pub open spec fn is_whitespace(c: char) -> bool {
    let code = c as u32;
    ||| 0x09 <= code <= 0x0D
    ||| code == 0x20
    ||| code == 0x85
    ||| code == 0xA0
    ||| code == 0x1680
    ||| 0x2000 <= code <= 0x200A
    ||| code == 0x2028
    ||| code == 0x2029
    ||| code == 0x202F
    ||| code == 0x205F
    ||| code == 0x3000
}

/// Whether a character separates words.
pub fn separates_words(c: char) -> (white: bool)
    ensures
        white == is_whitespace(c),
{
    let code = c as u32;
    (0x09 <= code && code <= 0x0D) || code == 0x20 || code == 0x85 || code == 0xA0 || code
        == 0x1680 || (0x2000 <= code && code <= 0x200A) || code == 0x2028 || code == 0x2029
        || code == 0x202F || code == 0x205F || code == 0x3000
}

/// The words of a text: its longest runs of characters that are not white
/// space, in order.
pub open spec fn words(s: Seq<char>) -> Seq<Seq<char>>
    decreases s.len(),
{
    if s.len() == 0 {
        Seq::empty()
    } else if is_whitespace(s[0]) {
        words(s.skip(1))
    } else {
        let k = run_length(s, |c: char| is_whitespace(c)) as int;
        if 0 < k <= s.len() {
            seq![s.take(k)] + words(s.skip(k))
        } else {
            seq![s]
        }
    }
}

/// Splits a text into its words.
pub fn split_words(s: &str) -> (out: Vec<String>)
    ensures
        out.deep_view() == words(s@),
{
    let chars = chars_of(s);
    let n = chars.len();
    let ghost stop = |c: char| is_whitespace(c);
    let mut out: Vec<String> = Vec::new();
    let mut start: usize = 0;
    let mut i: usize = 0;
    proof {
        assert(s@.skip(0) =~= s@);
        assert(out.deep_view() =~= Seq::<Seq<char>>::empty());
        assert(out.deep_view() + words(s@) =~= words(s@));
    }
    while i < n
        invariant
            start <= i <= n,
            n == s@.len(),
            chars@ == s@,
            stop == (|c: char| is_whitespace(c)),
            forall|j: int| start <= j < i ==> !is_whitespace(s@[j]),
            words(s@) == out.deep_view() + words(s@.skip(start as int)),
        decreases n - i,
    {
        if separates_words(chars[i]) {
            if start < i {
                let word = String::from_str(s.substring_char(start, i));
                proof {
                    let rest = s@.skip(start as int);
                    let k = i - start;
                    assert forall|j: int| 0 <= j < k implies !stop(#[trigger] rest[j]) by {
                        assert(rest[j] == s@[start + j]);
                    }
                    assert(rest[k] == s@[i as int]);
                    assert(rest[0] == s@[start as int]);
                    lemma_run_length(rest, stop, k);
                    assert(rest.take(k) =~= s@.subrange(start as int, i as int));
                    assert(rest.skip(k) =~= s@.skip(i as int));
                    assert(words(rest) == seq![word@] + words(s@.skip(i as int)));
                    let before = out.deep_view();
                    assert(before.push(word@) + words(s@.skip(i as int)) =~= before + words(
                        rest,
                    ));
                }
                let ghost before = out.deep_view();
                out.push(word);
                proof {
                    assert(out.deep_view() =~= before.push(word@));
                }
            }
            proof {
                let here = s@.skip(i as int);
                assert(here[0] == s@[i as int]);
                assert(here.skip(1) =~= s@.skip(i + 1));
            }
            start = i + 1;
        }
        i += 1;
    }
    if start < n {
        let word = String::from_str(s.substring_char(start, n));
        proof {
            let rest = s@.skip(start as int);
            assert forall|j: int| 0 <= j < rest.len() implies !stop(#[trigger] rest[j]) by {
                assert(rest[j] == s@[start + j]);
            }
            assert(rest[0] == s@[start as int]);
            lemma_run_length(rest, stop, rest.len() as int);
            assert(word@ =~= rest);
            assert(rest.take(rest.len() as int) =~= rest);
            let end = rest.skip(rest.len() as int);
            assert(end.len() == 0);
            assert(words(end) =~= Seq::<Seq<char>>::empty());
            assert(!is_whitespace(rest[0]));
            assert(words(rest) == seq![rest.take(rest.len() as int)] + words(end));
            assert(words(rest) =~= seq![rest]);
        }
        let ghost before = out.deep_view();
        out.push(word);
        proof {
            assert(out.deep_view() =~= before.push(word@));
            assert(before.push(word@) =~= before + seq![word@]);
        }
    } else {
        proof {
            assert(s@.skip(start as int).len() == 0);
            assert(out.deep_view() + Seq::<Seq<char>>::empty() =~= out.deep_view());
        }
    }
    out
}

} // verus!
