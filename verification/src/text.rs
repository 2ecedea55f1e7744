//! Verified text utilities: line splitting, token extraction, trimming,
//! and decimal rendering, as needed to parse printer-listing output and
//! to build print-command argument strings.

use vstd::prelude::*;
use vstd::string::StrSliceExecFns;

verus! {

/// The whitespace characters recognised when tokenizing and trimming:
/// the Unicode white-space set, as `char::is_whitespace` knows it.
pub open spec fn is_space(c: char) -> bool {
    c == '\t' || c == '\n' || c == '\u{000B}' || c == '\u{000C}' || c == '\r' || c == ' '
        || c == '\u{0085}' || c == '\u{00A0}' || c == '\u{1680}' || c == '\u{2000}'
        || c == '\u{2001}' || c == '\u{2002}' || c == '\u{2003}' || c == '\u{2004}'
        || c == '\u{2005}' || c == '\u{2006}' || c == '\u{2007}' || c == '\u{2008}'
        || c == '\u{2009}' || c == '\u{200A}' || c == '\u{2028}' || c == '\u{2029}'
        || c == '\u{202F}' || c == '\u{205F}' || c == '\u{3000}'
}

/// Tests a character against the whitespace set, as `is_space`
/// describes.
fn space_char(c: char) -> (r: bool)
    ensures
        r == is_space(c),
{
    c == '\t' || c == '\n' || c == '\u{000B}' || c == '\u{000C}' || c == '\r' || c == ' '
        || c == '\u{0085}' || c == '\u{00A0}' || c == '\u{1680}' || c == '\u{2000}'
        || c == '\u{2001}' || c == '\u{2002}' || c == '\u{2003}' || c == '\u{2004}'
        || c == '\u{2005}' || c == '\u{2006}' || c == '\u{2007}' || c == '\u{2008}'
        || c == '\u{2009}' || c == '\u{200A}' || c == '\u{2028}' || c == '\u{2029}'
        || c == '\u{202F}' || c == '\u{205F}' || c == '\u{3000}'
}

/// Length of the longest prefix of `s` whose characters all satisfy `p`.
pub open spec fn count_while(s: Seq<char>, p: spec_fn(char) -> bool) -> nat
    decreases s.len(),
{
    if s.len() == 0 || !p(s[0]) {
        0
    } else {
        count_while(s.drop_first(), p) + 1
    }
}

pub proof fn lemma_count_while(s: Seq<char>, p: spec_fn(char) -> bool)
    ensures
        count_while(s, p) <= s.len(),
        forall|j: int| 0 <= j < count_while(s, p) ==> p(s[j]),
        count_while(s, p) < s.len() ==> !p(s[count_while(s, p) as int]),
    decreases s.len(),
{
    if s.len() == 0 || !p(s[0]) {
    } else {
        lemma_count_while(s.drop_first(), p);
        assert forall|j: int| 0 <= j < count_while(s, p) implies p(s[j]) by {
            if j > 0 {
                assert(p(s.drop_first()[j - 1]));
            }
        }
    }
}

/// `count_while` is the unique `i` such that `p` holds before `i` and,
/// unless `i` is the length, fails at `i`.
pub proof fn lemma_count_while_is(s: Seq<char>, p: spec_fn(char) -> bool, i: int)
    requires
        0 <= i <= s.len(),
        forall|j: int| 0 <= j < i ==> p(s[j]),
        i < s.len() ==> !p(s[i]),
    ensures
        count_while(s, p) == i,
    decreases s.len(),
{
    if i == 0 {
    } else {
        assert(p(s[0]));
        lemma_count_while_is(s.drop_first(), p, i - 1);
    }
}

/// Predicate used for scanning up to a line break.
pub open spec fn not_newline() -> spec_fn(char) -> bool {
    |c: char| c != '\n'
}

/// Predicate for leading or trailing whitespace.
pub open spec fn space_pred() -> spec_fn(char) -> bool {
    |c: char| is_space(c)
}

/// Predicate for the characters inside a whitespace-delimited token.
pub open spec fn non_space_pred() -> spec_fn(char) -> bool {
    |c: char| !is_space(c)
}

/// Index of the first line break in `s`, or `s.len()` when there is none.
pub open spec fn first_newline(s: Seq<char>) -> nat {
    count_while(s, not_newline())
}

/// A line with any single trailing carriage return removed.
pub open spec fn strip_cr(s: Seq<char>) -> Seq<char> {
    if s.len() > 0 && s.last() == '\r' {
        s.drop_last()
    } else {
        s
    }
}

/// The lines of `s`: pieces separated by `'\n'`, each with a trailing
/// `'\r'` removed, and no final empty piece after a terminating break.
pub open spec fn line_split(s: Seq<char>) -> Seq<Seq<char>>
    decreases s.len(),
{
    if s.len() == 0 {
        Seq::empty()
    } else {
        let i = first_newline(s) as int;
        if i >= s.len() {
            seq![strip_cr(s)]
        } else {
            seq![strip_cr(s.take(i))] + line_split(s.skip(i + 1))
        }
    }
}

/// Finds the first line break, scanning left to right.
fn find_newline(s: &str) -> (i: usize)
    ensures
        i == first_newline(s@),
        i <= s@.len(),
{
    let n = s.unicode_len();
    let mut i: usize = 0;
    while i < n
        invariant
            0 <= i <= n,
            n == s@.len(),
            forall|j: int| 0 <= j < i ==> s@[j] != '\n',
        decreases n - i,
    {
        if s.get_char(i) == '\n' {
            proof {
                lemma_count_while_is(s@, not_newline(), i as int);
            }
            return i;
        }
        i = i + 1;
    }
    proof {
        lemma_count_while_is(s@, not_newline(), n as int);
    }
    n
}

/// Number of whitespace characters at the front of `s`.
pub open spec fn leading_spaces(s: Seq<char>) -> nat {
    count_while(s, space_pred())
}

/// The first whitespace-delimited token of `s`; empty when `s` holds
/// nothing but whitespace.
pub open spec fn first_token(s: Seq<char>) -> Seq<char> {
    let rest = s.skip(leading_spaces(s) as int);
    rest.take(count_while(rest, non_space_pred()) as int)
}

/// `s` with leading and trailing whitespace removed.
pub open spec fn trimmed(s: Seq<char>) -> Seq<char> {
    let rest = s.skip(leading_spaces(s) as int);
    rest.take(rest.len() - count_while(rest.reverse(), space_pred()))
}

/// Scans past leading whitespace.
fn skip_spaces(s: &str) -> (a: usize)
    ensures
        a == leading_spaces(s@),
        a <= s@.len(),
{
    let n = s.unicode_len();
    let mut a: usize = 0;
    while a < n
        invariant
            0 <= a <= n,
            n == s@.len(),
            forall|j: int| 0 <= j < a ==> is_space(s@[j]),
        decreases n - a,
    {
        if !space_char(s.get_char(a)) {
            proof {
                lemma_count_while_is(s@, space_pred(), a as int);
            }
            return a;
        }
        a = a + 1;
    }
    proof {
        lemma_count_while_is(s@, space_pred(), n as int);
    }
    n
}

/// Extracts the first whitespace-delimited token, as `first_token`
/// describes.
pub fn take_first_token(s: &str) -> (t: String)
    ensures
        t@ == first_token(s@),
{
    let n = s.unicode_len();
    let a = skip_spaces(s);
    let ghost rest = s@.skip(a as int);
    let mut b: usize = a;
    let mut done = false;
    while !done && b < n
        invariant
            a <= b <= n,
            n == s@.len(),
            forall|j: int| a <= j < b ==> !is_space(s@[j]),
            done ==> b < n && is_space(s@[b as int]),
        decreases n - b, if done { 0int } else { 1int },
    {
        if space_char(s.get_char(b)) {
            done = true;
        } else {
            b = b + 1;
        }
    }
    proof {
        assert forall|j: int| 0 <= j < b - a implies !is_space(rest[j]) by {
            assert(rest[j] == s@[a + j]);
        }
        if b < n {
            assert(rest[b - a] == s@[b as int]);
        }
        lemma_count_while_is(rest, non_space_pred(), b - a);
        assert(rest.take(b - a) =~= s@.subrange(a as int, b as int));
    }
    s.substring_char(a, b).to_owned()
}

/// Removes leading and trailing whitespace, as `trimmed` describes.
pub fn trim(s: &str) -> (t: String)
    ensures
        t@ == trimmed(s@),
{
    let n = s.unicode_len();
    let a = skip_spaces(s);
    let ghost rest = s@.skip(a as int);
    let mut b: usize = n;
    let mut done = false;
    while !done && b > a
        invariant
            a <= b <= n,
            n == s@.len(),
            forall|j: int| b <= j < n ==> is_space(s@[j]),
            done ==> b > a && !is_space(s@[b - 1]),
        decreases b, if done { 0int } else { 1int },
    {
        if space_char(s.get_char(b - 1)) {
            b = b - 1;
        } else {
            done = true;
        }
    }
    proof {
        // Characters in [b, n) are whitespace; if b stopped above a, the
        // one at b - 1 is not.  Read off the reverse of `rest`, that makes
        // n - b the count of its leading whitespace.
        assert(rest.len() == n - a);
        assert forall|j: int| 0 <= j < n - b implies is_space(rest.reverse()[j]) by {
            assert(rest.reverse()[j] == rest[rest.len() - 1 - j]);
            assert(rest[rest.len() - 1 - j] == s@[n - 1 - j]);
        }
        if n - b < rest.len() {
            assert(rest.reverse()[n - b] == rest[rest.len() - 1 - (n - b)]);
            assert(rest[rest.len() - 1 - (n - b)] == s@[b - 1]);
        }
        lemma_count_while_is(rest.reverse(), space_pred(), n - b);
        assert(rest.take(rest.len() - (n - b)) =~= s@.subrange(a as int, b as int));
    }
    s.substring_char(a, b).to_owned()
}

/// Splits `s` into its lines, as `line_split` describes.
pub fn split_lines(s: &str) -> (r: Vec<String>)
    ensures
        r.deep_view() == line_split(s@),
    decreases s@.len(),
{
    let n = s.unicode_len();
    if n == 0 {
        let r: Vec<String> = Vec::new();
        assert(r.deep_view() =~= line_split(s@));
        return r;
    }
    let i = find_newline(s);
    proof {
        lemma_count_while(s@, not_newline());
    }
    if i == n {
        let line = if s.get_char(n - 1) == '\r' {
            s.substring_char(0, n - 1)
        } else {
            s.substring_char(0, n)
        };
        proof {
            assert(s@.subrange(0, n as int) =~= s@);
            assert(s@.subrange(0, n as int - 1) =~= s@.drop_last());
        }
        let mut r: Vec<String> = Vec::new();
        r.push(line.to_owned());
        assert(r.deep_view() =~= line_split(s@));
        r
    } else {
        let line = if i > 0 && s.get_char(i - 1) == '\r' {
            s.substring_char(0, i - 1)
        } else {
            s.substring_char(0, i)
        };
        proof {
            let head = s@.take(i as int);
            assert(s@.subrange(0, i as int) =~= head);
            if i > 0 && s@[i as int - 1] == '\r' {
                assert(s@.subrange(0, i as int - 1) =~= head.drop_last());
            }
            assert(line@ == strip_cr(head));
        }
        let rest = s.substring_char(i + 1, n);
        proof {
            assert(rest@ =~= s@.skip(i + 1));
        }
        let mut tail = split_lines(rest);
        let mut r: Vec<String> = Vec::new();
        r.push(line.to_owned());
        r.append(&mut tail);
        assert(r.deep_view() =~= seq![strip_cr(s@.take(i as int))] + line_split(s@.skip(i + 1)));
        r
    }
}

/// The character for one decimal digit.
pub open spec fn dec_digit(d: nat) -> char {
    if d == 0 {
        '0'
    } else if d == 1 {
        '1'
    } else if d == 2 {
        '2'
    } else if d == 3 {
        '3'
    } else if d == 4 {
        '4'
    } else if d == 5 {
        '5'
    } else if d == 6 {
        '6'
    } else if d == 7 {
        '7'
    } else if d == 8 {
        '8'
    } else {
        '9'
    }
}

/// The decimal digits of `n`, most significant first, with no leading
/// zero except for `n == 0` itself.
pub open spec fn dec_chars(n: nat) -> Seq<char>
    decreases n,
{
    if n < 10 {
        seq![dec_digit(n)]
    } else {
        dec_chars(n / 10).push(dec_digit(n % 10))
    }
}

fn digit_str(d: u32) -> (s: &'static str)
    requires
        d < 10,
    ensures
        s@ == seq![dec_digit(d as nat)],
{
    if d == 0 {
        proof {
            reveal_strlit("0");
        }
        assert("0"@ =~= seq![dec_digit(0)]);
        "0"
    } else if d == 1 {
        proof {
            reveal_strlit("1");
        }
        assert("1"@ =~= seq![dec_digit(1)]);
        "1"
    } else if d == 2 {
        proof {
            reveal_strlit("2");
        }
        assert("2"@ =~= seq![dec_digit(2)]);
        "2"
    } else if d == 3 {
        proof {
            reveal_strlit("3");
        }
        assert("3"@ =~= seq![dec_digit(3)]);
        "3"
    } else if d == 4 {
        proof {
            reveal_strlit("4");
        }
        assert("4"@ =~= seq![dec_digit(4)]);
        "4"
    } else if d == 5 {
        proof {
            reveal_strlit("5");
        }
        assert("5"@ =~= seq![dec_digit(5)]);
        "5"
    } else if d == 6 {
        proof {
            reveal_strlit("6");
        }
        assert("6"@ =~= seq![dec_digit(6)]);
        "6"
    } else if d == 7 {
        proof {
            reveal_strlit("7");
        }
        assert("7"@ =~= seq![dec_digit(7)]);
        "7"
    } else if d == 8 {
        proof {
            reveal_strlit("8");
        }
        assert("8"@ =~= seq![dec_digit(8)]);
        "8"
    } else {
        proof {
            reveal_strlit("9");
        }
        assert("9"@ =~= seq![dec_digit(9)]);
        "9"
    }
}

/// Renders `n` in decimal, as `dec_chars` describes.
pub fn u32_to_decimal(n: u32) -> (s: String)
    ensures
        s@ == dec_chars(n as nat),
    decreases n,
{
    if n < 10 {
        digit_str(n).to_owned()
    } else {
        let mut s = u32_to_decimal(n / 10);
        s.append(digit_str(n % 10));
        s
    }
}

/// `s` with every backslash doubled, for substitution between single
/// quotes in a shell script.
pub open spec fn doubled_backslashes(s: Seq<char>) -> Seq<char>
    decreases s.len(),
{
    if s.len() == 0 {
        Seq::empty()
    } else {
        doubled_backslashes(s.drop_last()) + (if s.last() == '\\' {
            seq!['\\', '\\']
        } else {
            seq![s.last()]
        })
    }
}

/// `s` with every double quote preceded by a backslash, for
/// substitution between double quotes in a shell script.
pub open spec fn escaped_quotes(s: Seq<char>) -> Seq<char>
    decreases s.len(),
{
    if s.len() == 0 {
        Seq::empty()
    } else {
        escaped_quotes(s.drop_last()) + (if s.last() == '"' {
            seq!['\\', '"']
        } else {
            seq![s.last()]
        })
    }
}

/// Doubles every backslash, as `doubled_backslashes` describes.
pub fn double_backslashes(s: &str) -> (r: String)
    ensures
        r@ == doubled_backslashes(s@),
{
    let n = s.unicode_len();
    let mut r = String::new();
    let mut i: usize = 0;
    while i < n
        invariant
            0 <= i <= n,
            n == s@.len(),
            r@ == doubled_backslashes(s@.take(i as int)),
        decreases n - i,
    {
        proof {
            assert(s@.take(i + 1).drop_last() =~= s@.take(i as int));
            assert(s@.take(i + 1).last() == s@[i as int]);
        }
        let c = s.get_char(i);
        if c == '\\' {
            r.append("\\\\");
            proof {
                reveal_strlit("\\\\");
                assert("\\\\"@ =~= seq!['\\', '\\']);
                assert(r@ =~= doubled_backslashes(s@.take(i + 1)));
            }
        } else {
            let piece = s.substring_char(i, i + 1);
            r.append(piece);
            proof {
                assert(piece@ =~= seq![s@[i as int]]);
                assert(r@ =~= doubled_backslashes(s@.take(i + 1)));
            }
        }
        i = i + 1;
    }
    proof {
        assert(s@.take(n as int) =~= s@);
    }
    r
}

/// Escapes every double quote, as `escaped_quotes` describes.
pub fn escape_quotes(s: &str) -> (r: String)
    ensures
        r@ == escaped_quotes(s@),
{
    let n = s.unicode_len();
    let mut r = String::new();
    let mut i: usize = 0;
    while i < n
        invariant
            0 <= i <= n,
            n == s@.len(),
            r@ == escaped_quotes(s@.take(i as int)),
        decreases n - i,
    {
        proof {
            assert(s@.take(i + 1).drop_last() =~= s@.take(i as int));
            assert(s@.take(i + 1).last() == s@[i as int]);
        }
        let c = s.get_char(i);
        if c == '"' {
            r.append("\\\"");
            proof {
                reveal_strlit("\\\"");
                assert("\\\""@ =~= seq!['\\', '"']);
                assert(r@ =~= escaped_quotes(s@.take(i + 1)));
            }
        } else {
            let piece = s.substring_char(i, i + 1);
            r.append(piece);
            proof {
                assert(piece@ =~= seq![s@[i as int]]);
                assert(r@ =~= escaped_quotes(s@.take(i + 1)));
            }
        }
        i = i + 1;
    }
    proof {
        assert(s@.take(n as int) =~= s@);
    }
    r
}

} // verus!
