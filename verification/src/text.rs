use vstd::prelude::*;
use vstd::string::*;

verus! {

/// What `char::to_uppercase` gives for a character: one character or several.
pub uninterp spec fn uppercase(c: char) -> Seq<char>;

/// `char::to_uppercase`, gathered into a string.
#[verifier::external_body]
fn to_uppercase(c: char) -> (r: String)
    ensures
        r@ == uppercase(c),
{
    c.to_uppercase().collect()
}

/// The text with its first character in upper case.
pub open spec fn capitalized(s: Seq<char>) -> Seq<char> {
    if s.len() == 0 {
        s
    } else {
        uppercase(s[0]) + s.subrange(1, s.len() as int)
    }
}

/// Puts the first character of a text in upper case.
pub fn capitalize(s: &str) -> (r: String)
    ensures
        r@ == capitalized(s@),
{
    let n = s.unicode_len();
    if n == 0 {
        let r = String::new();
        assert(r@ =~= s@);
        r
    } else {
        let first = s.get_char(0);
        let rest = s.substring_char(1, n);
        to_uppercase(first).concat(rest)
    }
}

/// The text in which every `from` is replaced by `to`.
pub open spec fn replaced(s: Seq<char>, from: char, to: Seq<char>) -> Seq<char>
    decreases s.len(),
{
    if s.len() == 0 {
        s
    } else if s[0] == from {
        to + replaced(s.subrange(1, s.len() as int), from, to)
    } else {
        seq![s[0]] + replaced(s.subrange(1, s.len() as int), from, to)
    }
}

/// Replaces every `from` in a text by `to`.
pub fn replace_char(s: &str, from: char, to: &str) -> (r: String)
    ensures
        r@ == replaced(s@, from, to@),
{
    let n = s.unicode_len();
    let mut r = String::new();
    let mut i: usize = 0;
    assert(s@.subrange(0, n as int) =~= s@);
    assert(r@ + replaced(s@, from, to@) =~= replaced(s@, from, to@));
    while i < n
        invariant
            i <= n,
            n == s@.len(),
            replaced(s@, from, to@) == r@ + replaced(s@.subrange(i as int, n as int), from, to@),
        decreases n - i,
    {
        let ghost before = r@;
        let ghost rest = s@.subrange(i as int, n as int);
        let c = s.get_char(i);
        proof {
            assert(rest[0] == c);
            assert(rest.subrange(1, rest.len() as int) =~= s@.subrange(i + 1, n as int));
        }
        if c == from {
            r.append(to);
            assert((before + to@) + replaced(s@.subrange(i + 1, n as int), from, to@) =~= before
                + (to@ + replaced(s@.subrange(i + 1, n as int), from, to@)));
        } else {
            let one = s.substring_char(i, i + 1);
            assert(one@ =~= seq![c]);
            r.append(one);
            assert((before + seq![c]) + replaced(s@.subrange(i + 1, n as int), from, to@)
                =~= before + (seq![c] + replaced(s@.subrange(i + 1, n as int), from, to@)));
        }
        i += 1;
    }
    assert(r@ + replaced(s@.subrange(n as int, n as int), from, to@) =~= r@);
    r
}

/// A description as a documentation comment: every line begins with the
/// comment marker, and an empty comment line parts the lines.
pub open spec fn described(description: Seq<char>) -> Seq<char> {
    "/// "@ + replaced(description, '\n', "\n///\n/// "@)
}

/// Turns a description into a documentation comment.
pub fn transform_description(description: &str) -> (r: String)
    ensures
        r@ == described(description@),
{
    let body = replace_char(description, '\n', "\n///\n/// ");
    String::from_str("/// ").concat(body.as_str())
}

/// The character that stands for a digit.
pub open spec fn digit(d: int) -> char {
    if d == 0 {
        '0'
    } else if d == 1 {
        '1'
    } else if d == 2 {
        '2'
    } else if d == 3 {
        '3'
    } else if d == 4 {
        '4'
    } else if d == 5 {
        '5'
    } else if d == 6 {
        '6'
    } else if d == 7 {
        '7'
    } else if d == 8 {
        '8'
    } else {
        '9'
    }
}

/// A number written in decimal digits, without leading zeros.
pub open spec fn decimal(n: nat) -> Seq<char>
    decreases n,
{
    if n < 10 {
        seq![digit(n as int)]
    } else {
        decimal(n / 10) + seq![digit((n % 10) as int)]
    }
}

fn digit_text(d: usize) -> (r: &'static str)
    requires
        d < 10,
    ensures
        r@ == seq![digit(d as int)],
{
    proof {
        reveal_strlit("0");
        reveal_strlit("1");
        reveal_strlit("2");
        reveal_strlit("3");
        reveal_strlit("4");
        reveal_strlit("5");
        reveal_strlit("6");
        reveal_strlit("7");
        reveal_strlit("8");
        reveal_strlit("9");
    }
    let r = if d == 0 {
        "0"
    } else if d == 1 {
        "1"
    } else if d == 2 {
        "2"
    } else if d == 3 {
        "3"
    } else if d == 4 {
        "4"
    } else if d == 5 {
        "5"
    } else if d == 6 {
        "6"
    } else if d == 7 {
        "7"
    } else if d == 8 {
        "8"
    } else {
        "9"
    };
    assert(r@ =~= seq![digit(d as int)]);
    r
}

/// Writes a number in decimal digits.
pub fn decimal_text(n: usize) -> (r: String)
    ensures
        r@ == decimal(n as nat),
{
    let mut r = String::from_str(digit_text(n % 10));
    let mut rest = n / 10;
    while rest > 0
        invariant
            rest > 0 ==> decimal(n as nat) == decimal(rest as nat) + r@,
            rest == 0 ==> decimal(n as nat) == r@,
        decreases rest,
    {
        let ghost before = r@;
        r = String::from_str(digit_text(rest % 10)).concat(r.as_str());
        proof {
            assert(r@ == seq![digit((rest % 10) as int)] + before);
            if rest >= 10 {
                assert(decimal((rest / 10) as nat) + (seq![digit((rest % 10) as int)] + before)
                    =~= (decimal((rest / 10) as nat) + seq![digit((rest % 10) as int)]) + before);
            }
        }
        rest = rest / 10;
    }
    r
}

/// A JSON text with the header that goes before it on the wire: the length of
/// the text in bytes, then an empty line.
pub open spec fn framed(json: &str) -> Seq<char> {
    "Content-Length: "@ + decimal(json.len() as nat) + "\r\n\r\n"@ + json@
}

/// Puts the header before a JSON text.
pub fn frame(json: &str) -> (r: String)
    ensures
        r@ == framed(json),
{
    let length = decimal_text(json.len());
    String::from_str("Content-Length: ").concat(length.as_str()).concat("\r\n\r\n").concat(json)
}

} // verus!
