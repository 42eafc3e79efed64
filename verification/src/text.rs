//! Small text helpers: decimal numerals, joining a path onto a base URL, and
//! escaping text for an HTML attribute.

use vstd::prelude::*;
use vstd::string::*;

verus! {

/// The character that writes the digit `d`.
pub open spec fn digit_char(d: nat) -> char {
    if d == 0 {
        '0'
    } else if d == 1 {
        '1'
    } else if d == 2 {
        '2'
    } else if d == 3 {
        '3'
    } else if d == 4 {
        '4'
    } else if d == 5 {
        '5'
    } else if d == 6 {
        '6'
    } else if d == 7 {
        '7'
    } else if d == 8 {
        '8'
    } else {
        '9'
    }
}

/// The decimal numeral of `n`, without sign or leading zeros.
pub open spec fn decimal(n: nat) -> Seq<char>
    decreases n,
{
    if n < 10 {
        seq![digit_char(n)]
    } else {
        decimal(n / 10).push(digit_char(n % 10))
    }
}

/// `s` without one trailing `/`, if it ends in one.
pub open spec fn without_trailing_slash(s: Seq<char>) -> Seq<char> {
    if s.len() > 0 && s.last() == '/' {
        s.drop_last()
    } else {
        s
    }
}

/// One digit as text.
fn digit_str(d: u16) -> (r: &'static str)
    requires
        d < 10,
    ensures
        r@ == seq![digit_char(d as nat)],
{
    proof {
        reveal_strlit("0");
        reveal_strlit("1");
        reveal_strlit("2");
        reveal_strlit("3");
        reveal_strlit("4");
        reveal_strlit("5");
        reveal_strlit("6");
        reveal_strlit("7");
        reveal_strlit("8");
        reveal_strlit("9");
    }
    let r: &'static str = if d == 0 {
        "0"
    } else if d == 1 {
        "1"
    } else if d == 2 {
        "2"
    } else if d == 3 {
        "3"
    } else if d == 4 {
        "4"
    } else if d == 5 {
        "5"
    } else if d == 6 {
        "6"
    } else if d == 7 {
        "7"
    } else if d == 8 {
        "8"
    } else {
        "9"
    };
    assert(r@ =~= seq![digit_char(d as nat)]);
    r
}

/// Writes `n` in decimal.
pub fn decimal_string(n: u16) -> (r: String)
    ensures
        r@ == decimal(n as nat),
    decreases n,
{
    if n < 10 {
        String::from_str(digit_str(n))
    } else {
        let mut s: String = decimal_string(n / 10);
        s.append(digit_str(n % 10));
        assert(s@ =~= decimal((n / 10) as nat).push(digit_char((n % 10) as nat)));
        s
    }
}

/// Drops one trailing `/` from `s`, if there is one.
pub fn strip_trailing_slash(s: &str) -> (r: String)
    ensures
        r@ == without_trailing_slash(s@),
{
    let n: usize = s.unicode_len();
    if n > 0 && s.get_char(n - 1) == '/' {
        let r: String = String::from_str(s.substring_char(0, n - 1));
        assert(r@ =~= s@.drop_last());
        r
    } else {
        String::from_str(s)
    }
}

/// The decimal numeral of a number below 65536 has at most five digits, and
/// at least one.
pub proof fn lemma_decimal_len(n: nat)
    requires
        n < 65536,
    ensures
        1 <= decimal(n).len() <= 5,
{
    reveal_with_fuel(decimal, 6);
}

/// The digit that `c` writes; 0 where it writes none.
pub open spec fn digit_of(c: char) -> nat {
    if c == '1' {
        1
    } else if c == '2' {
        2
    } else if c == '3' {
        3
    } else if c == '4' {
        4
    } else if c == '5' {
        5
    } else if c == '6' {
        6
    } else if c == '7' {
        7
    } else if c == '8' {
        8
    } else if c == '9' {
        9
    } else {
        0
    }
}

/// Whether `c` is one of the ten ASCII digits.
pub open spec fn is_digit(c: char) -> bool {
    c == '0' || digit_of(c) != 0
}

/// The number that a run of digits writes, leading zeros allowed.
pub open spec fn numeral_value(s: Seq<char>) -> nat
    decreases s.len(),
{
    if s.len() == 0 {
        0
    } else {
        numeral_value(s.drop_last()) * 10 + digit_of(s.last())
    }
}

/// The port that `s` writes, where `s` is the decimal numeral of one: digits
/// only, no sign, no leading zeros, at most 65535.
pub open spec fn port_of(s: Seq<char>) -> Option<u16> {
    if exists|p: u16| decimal(p as nat) == s {
        Some(choose|p: u16| decimal(p as nat) == s)
    } else {
        None
    }
}

/// A decimal numeral is made of digits, and they write the number it was
/// made from.
pub proof fn lemma_decimal_value(n: nat)
    ensures
        numeral_value(decimal(n)) == n,
        forall|i: int| 0 <= i < decimal(n).len() ==> is_digit(#[trigger] decimal(n)[i]),
    decreases n,
{
    if n < 10 {
        let s = seq![digit_char(n)];
        assert(s.drop_last() =~= Seq::<char>::empty());
        assert(s.last() == digit_char(n));
        assert(numeral_value(s.drop_last()) == 0);
    } else {
        lemma_decimal_value(n / 10);
        let s = decimal(n);
        assert(s.drop_last() =~= decimal(n / 10));
        assert(s.last() == digit_char(n % 10));
        assert forall|i: int| 0 <= i < s.len() implies is_digit(#[trigger] s[i]) by {
            if i < s.len() - 1 {
                assert(s[i] == decimal(n / 10)[i]);
            }
        }
    }
}

/// Two numbers with the same decimal numeral are the same number.
pub proof fn lemma_decimal_injective(a: nat, b: nat)
    requires
        decimal(a) == decimal(b),
    ensures
        a == b,
{
    lemma_decimal_value(a);
    lemma_decimal_value(b);
}

/// A run of digits writes no less than any of its prefixes does.
pub proof fn lemma_prefix_value(s: Seq<char>, i: int)
    requires
        0 <= i <= s.len(),
    ensures
        numeral_value(s.take(i)) <= numeral_value(s),
    decreases s.len() - i,
{
    if i == s.len() {
        assert(s.take(i) =~= s);
    } else {
        lemma_prefix_value(s, i + 1);
        assert(s.take(i + 1).drop_last() =~= s.take(i));
    }
}

/// The digit that `c` writes, if it writes one.
pub fn char_digit(c: char) -> (r: Option<u32>)
    ensures
        r is Some <==> is_digit(c),
        r is Some ==> r.unwrap() == digit_of(c),
{
    if c == '0' {
        Some(0)
    } else if c == '1' {
        Some(1)
    } else if c == '2' {
        Some(2)
    } else if c == '3' {
        Some(3)
    } else if c == '4' {
        Some(4)
    } else if c == '5' {
        Some(5)
    } else if c == '6' {
        Some(6)
    } else if c == '7' {
        Some(7)
    } else if c == '8' {
        Some(8)
    } else if c == '9' {
        Some(9)
    } else {
        None
    }
}

/// Reads a port from its decimal numeral. Anything else is refused: an empty
/// text, a sign, a space, a leading zero, a number above 65535.
pub fn parse_port(s: &str) -> (r: Option<u16>)
    ensures
        r == port_of(s@),
        r is Some ==> decimal(r.unwrap() as nat) == s@,
{
    let n: usize = s.unicode_len();
    if n == 0 || n > 5 {
        proof {
            assert forall|p: u16| decimal(p as nat) != s@ by {
                lemma_decimal_len(p as nat);
            }
        }
        return None;
    }
    let mut value: u32 = 0;
    let mut i: usize = 0;
    assert(s@.take(0) =~= Seq::<char>::empty());
    while i < n
        invariant
            n == s@.len(),
            i <= n,
            value <= 65535,
            value == numeral_value(s@.take(i as int)),
        decreases n - i,
    {
        let c: char = s.get_char(i);
        assert(s@.take(i + 1).drop_last() =~= s@.take(i as int));
        assert(s@.take(i + 1).last() == c);
        match char_digit(c) {
            None => {
                proof {
                    assert forall|p: u16| decimal(p as nat) != s@ by {
                        lemma_decimal_value(p as nat);
                        if decimal(p as nat) == s@ {
                            assert(is_digit(decimal(p as nat)[i as int]));
                        }
                    }
                }
                return None;
            },
            Some(d) => {
                value = value * 10 + d;
                if value > 65535 {
                    proof {
                        lemma_prefix_value(s@, i + 1);
                        assert forall|p: u16| decimal(p as nat) != s@ by {
                            lemma_decimal_value(p as nat);
                        }
                    }
                    return None;
                }
            },
        }
        i = i + 1;
    }
    assert(s@.take(i as int) =~= s@);
    let port: u16 = value as u16;
    let canonical: String = decimal_string(port);
    let given: String = String::from_str(s);
    if canonical == given {
        proof {
            let chosen = choose|p: u16| decimal(p as nat) == s@;
            lemma_decimal_injective(chosen as nat, port as nat);
        }
        Some(port)
    } else {
        proof {
            assert forall|p: u16| decimal(p as nat) != s@ by {
                lemma_decimal_value(p as nat);
            }
        }
        None
    }
}

/// How one character is written inside an HTML attribute.
pub open spec fn escaped_char(c: char) -> Seq<char> {
    if c == '&' {
        "&amp;"@
    } else if c == '"' {
        "&quot;"@
    } else if c == '<' {
        "&lt;"@
    } else if c == '>' {
        "&gt;"@
    } else if c == '\'' {
        "&#39;"@
    } else {
        seq![c]
    }
}

/// How a text is written inside an HTML attribute: character by character.
pub open spec fn html_escaped(s: Seq<char>) -> Seq<char>
    decreases s.len(),
{
    if s.len() == 0 {
        Seq::empty()
    } else {
        html_escaped(s.drop_last()) + escaped_char(s.last())
    }
}

/// Whether `c` can end an attribute value or open a tag.
pub open spec fn is_markup(c: char) -> bool {
    c == '"' || c == '<' || c == '>' || c == '\''
}

/// The entity that stands for `c`, where `c` is written as one.
fn entity_of(c: char) -> (r: Option<&'static str>)
    ensures
        match r {
            Some(t) => t@ == escaped_char(c),
            None => escaped_char(c) == seq![c],
        },
{
    if c == '&' {
        Some("&amp;")
    } else if c == '"' {
        Some("&quot;")
    } else if c == '<' {
        Some("&lt;")
    } else if c == '>' {
        Some("&gt;")
    } else if c == '\'' {
        Some("&#39;")
    } else {
        None
    }
}

/// Writes `s` for use inside an HTML attribute. Text in ASCII, as URLs are,
/// is written in one pass; for other text the cost grows with the square of
/// its length.
pub fn html_escape(s: &str) -> (r: String)
    ensures
        r@ == html_escaped(s@),
{
    let n: usize = s.unicode_len();
    let ascii: bool = s.is_ascii();
    let mut out: String = String::new();
    let mut i: usize = 0;
    assert(s@.take(0) =~= Seq::<char>::empty());
    while i < n
        invariant
            n == s@.len(),
            i <= n,
            ascii == s.is_ascii(),
            out@ == html_escaped(s@.take(i as int)),
        decreases n - i,
    {
        let c: char = if ascii {
            let b: u8 = s.get_ascii(i);
            assert((s@[i as int] as nat) < 128);
            b as char
        } else {
            s.get_char(i)
        };
        assert(c == s@[i as int]);
        assert(s@.take(i + 1).drop_last() =~= s@.take(i as int));
        assert(s@.take(i + 1).last() == c);
        match entity_of(c) {
            Some(entity) => {
                out.append(entity);
            },
            None => {
                let piece: &str = if ascii {
                    s.substring_ascii(i, i + 1)
                } else {
                    s.substring_char(i, i + 1)
                };
                assert(piece@ =~= seq![c]);
                out.append(piece);
            },
        }
        i = i + 1;
    }
    assert(s@.take(i as int) =~= s@);
    out
}

/// Escaped text holds no quote and no angle bracket: put between quotes, it
/// stays between them.
pub proof fn lemma_escaped_has_no_markup(s: Seq<char>)
    ensures
        forall|i: int| 0 <= i < html_escaped(s).len() ==> !is_markup(#[trigger] html_escaped(s)[i]),
    decreases s.len(),
{
    if s.len() > 0 {
        lemma_escaped_has_no_markup(s.drop_last());
        reveal_strlit("&amp;");
        reveal_strlit("&quot;");
        reveal_strlit("&lt;");
        reveal_strlit("&gt;");
        reveal_strlit("&#39;");
        let head = html_escaped(s.drop_last());
        let tail = escaped_char(s.last());
        assert forall|j: int| 0 <= j < tail.len() implies !is_markup(#[trigger] tail[j]) by {}
        assert forall|i: int| 0 <= i < html_escaped(s).len() implies !is_markup(
            #[trigger] html_escaped(s)[i],
        ) by {
            if i >= head.len() {
                assert(html_escaped(s)[i] == tail[i - head.len()]);
            } else {
                assert(html_escaped(s)[i] == head[i]);
            }
        }
    }
}

} // verus!
