//! Small verified string utilities.

use vstd::prelude::*;

verus! {

/// ASCII lower-casing of one character: `A`..=`Z` become `a`..=`z`,
/// every other character is kept.
pub open spec fn ascii_lower(c: char) -> char {
    if 'A' <= c && c <= 'Z' {
        ((c as u32) + 32) as char
    } else {
        c
    }
}

/// ASCII lower-casing of a whole text.
pub open spec fn ascii_lowercase(s: Seq<char>) -> Seq<char> {
    s.map_values(|c: char| ascii_lower(c))
}

/// Whether `input`, lower-cased in the ASCII range, equals `lowered`.
pub fn eq_ascii_lowercase(input: &str, lowered: &str) -> (r: bool)
    ensures
        r == (ascii_lowercase(input@) == lowered@),
{
    let n = input.unicode_len();
    let m = lowered.unicode_len();
    if n != m {
        proof {
            assert(ascii_lowercase(input@).len() != lowered@.len());
        }
        return false;
    }
    let mut i: usize = 0;
    while i < n
        invariant
            n == input@.len(),
            m == lowered@.len(),
            n == m,
            i <= n,
            forall|j: int| 0 <= j < i ==> ascii_lower(#[trigger] input@[j]) == lowered@[j],
        decreases n - i,
    {
        let c = input.get_char(i);
        let d = lowered.get_char(i);
        let same = if 'A' <= c && c <= 'Z' {
            (c as u32) + 32 == (d as u32)
        } else {
            c == d
        };
        if !same {
            proof {
                assert(ascii_lowercase(input@)[i as int] != lowered@[i as int]);
            }
            return false;
        }
        i = i + 1;
    }
    proof {
        assert(ascii_lowercase(input@) =~= lowered@);
    }
    true
}

/// Whether a text ends with a line feed.
pub open spec fn ends_with_newline(s: Seq<char>) -> bool {
    s.len() > 0 && s.last() == '\n'
}

/// The text with a line feed appended unless it already ends with one.
pub open spec fn with_newline(s: Seq<char>) -> Seq<char> {
    if ends_with_newline(s) {
        s
    } else {
        s.push('\n')
    }
}

/// Appends a line feed to `value` unless it already ends with one.
pub fn with_trailing_newline(value: String) -> (r: String)
    ensures
        r@ == with_newline(value@),
{
    let ghost original = value@;
    let mut value = value;
    let n = value.as_str().unicode_len();
    if n > 0 && value.as_str().get_char(n - 1) == '\n' {
        return value;
    }
    value.append("\n");
    proof {
        reveal_strlit("\n");
        assert(value@ =~= with_newline(original)) by {
            assert("\n"@ =~= seq!['\n']);
        }
    }
    value
}

/// The digit character of a value below ten.
pub open spec fn digit_char(d: nat) -> char {
    ((('0' as u32) as nat) + d) as char
}

/// Decimal notation of a natural number, without leading zeros.
pub open spec fn decimal(n: nat) -> Seq<char>
    decreases n,
{
    if n < 10 {
        seq![digit_char(n)]
    } else {
        decimal(n / 10).push(digit_char(n % 10))
    }
}

fn digit_str(d: u32) -> (r: &'static str)
    requires
        d < 10,
    ensures
        r@ == seq![digit_char(d as nat)],
{
    proof {
        reveal_strlit("0");
        reveal_strlit("1");
        reveal_strlit("2");
        reveal_strlit("3");
        reveal_strlit("4");
        reveal_strlit("5");
        reveal_strlit("6");
        reveal_strlit("7");
        reveal_strlit("8");
        reveal_strlit("9");
    }
    let r = if d == 0 {
        "0"
    } else if d == 1 {
        "1"
    } else if d == 2 {
        "2"
    } else if d == 3 {
        "3"
    } else if d == 4 {
        "4"
    } else if d == 5 {
        "5"
    } else if d == 6 {
        "6"
    } else if d == 7 {
        "7"
    } else if d == 8 {
        "8"
    } else {
        "9"
    };
    assert(r@ =~= seq![digit_char(d as nat)]);
    r
}

/// Decimal notation of a number.
pub fn decimal_text(n: u32) -> (r: String)
    ensures
        r@ == decimal(n as nat),
    decreases n,
{
    if n < 10 {
        String::from_str(digit_str(n))
    } else {
        let mut r = decimal_text(n / 10);
        r.append(digit_str(n % 10));
        r
    }
}

/// Whether a string holds exactly the text of a literal.
pub fn text_is(s: &String, literal: &str) -> (r: bool)
    ensures
        r == (s@ == literal@),
{
    let t = String::from_str(literal);
    s.eq(&t)
}

/// The views of a sequence of strings.
pub open spec fn texts(v: Seq<String>) -> Seq<Seq<char>> {
    v.map_values(|s: String| s@)
}

/// The views of a sequence of string slices.
pub open spec fn str_texts(v: Seq<&str>) -> Seq<Seq<char>> {
    v.map_values(|s: &str| s@)
}

/// Joins texts with a separator between each two.
pub open spec fn joined(items: Seq<Seq<char>>, sep: Seq<char>) -> Seq<char>
    decreases items.len(),
{
    if items.len() == 0 {
        Seq::empty()
    } else if items.len() == 1 {
        items[0]
    } else {
        joined(items.drop_last(), sep) + sep + items.last()
    }
}

/// Joins strings with a separator between each two.
pub fn join_texts(items: &Vec<String>, sep: &str) -> (r: String)
    ensures
        r@ == joined(texts(items@), sep@),
{
    let mut r = String::new();
    let mut i: usize = 0;
    while i < items.len()
        invariant
            i <= items.len(),
            r@ == joined(texts(items@).take(i as int), sep@),
        decreases items.len() - i,
    {
        let ghost before = r@;
        if i == 0 {
            r.append(items[i].as_str());
            assert(texts(items@).take(1) =~= seq![items@[0]@]);
        } else {
            r.append(sep);
            r.append(items[i].as_str());
            assert(texts(items@).take(i + 1).drop_last() =~= texts(items@).take(i as int));
        }
        i = i + 1;
    }
    assert(texts(items@).take(items.len() as int) =~= texts(items@));
    r
}

} // verus!
