//! Small text utilities: comparing string slices and writing integers in
//! decimal.

use vstd::prelude::*;

verus! {

/// Whether two string slices hold the same characters.
pub fn str_eq(a: &str, b: &str) -> (same: bool)
    ensures
        same == (a@ == b@),
{
    let left = a.to_owned();
    let right = b.to_owned();
    left == right
}

/// The character that stands for a single decimal digit.
pub open spec fn digit_char(d: nat) -> char {
    if d == 0 {
        '0'
    } else if d == 1 {
        '1'
    } else if d == 2 {
        '2'
    } else if d == 3 {
        '3'
    } else if d == 4 {
        '4'
    } else if d == 5 {
        '5'
    } else if d == 6 {
        '6'
    } else if d == 7 {
        '7'
    } else if d == 8 {
        '8'
    } else {
        '9'
    }
}

/// The decimal numeral of a natural number, without leading zeros.
pub open spec fn decimal(n: nat) -> Seq<char>
    decreases n,
{
    if n < 10 {
        seq![digit_char(n)]
    } else {
        decimal(n / 10).push(digit_char(n % 10))
    }
}

/// The decimal numeral of an integer: a minus sign in front of negative
/// numbers, nothing in front of the others.
pub open spec fn signed_decimal(n: int) -> Seq<char> {
    if n < 0 {
        seq!['-'] + decimal((-n) as nat)
    } else {
        decimal(n as nat)
    }
}

fn digit_str(d: u64) -> (s: &'static str)
    requires
        d < 10,
    ensures
        s@ == seq![digit_char(d as nat)],
{
    proof {
        reveal_strlit("0");
        reveal_strlit("1");
        reveal_strlit("2");
        reveal_strlit("3");
        reveal_strlit("4");
        reveal_strlit("5");
        reveal_strlit("6");
        reveal_strlit("7");
        reveal_strlit("8");
        reveal_strlit("9");
    }
    let s = if d == 0 {
        "0"
    } else if d == 1 {
        "1"
    } else if d == 2 {
        "2"
    } else if d == 3 {
        "3"
    } else if d == 4 {
        "4"
    } else if d == 5 {
        "5"
    } else if d == 6 {
        "6"
    } else if d == 7 {
        "7"
    } else if d == 8 {
        "8"
    } else {
        "9"
    };
    assert(s@ =~= seq![digit_char(d as nat)]);
    s
}

/// Writes an unsigned integer in decimal.
pub fn u64_to_string(n: u64) -> (s: String)
    ensures
        s@ == decimal(n as nat),
    decreases n,
{
    if n < 10 {
        digit_str(n).to_owned()
    } else {
        let mut s = u64_to_string(n / 10);
        s.append(digit_str(n % 10));
        assert(s@ =~= decimal(n as nat));
        s
    }
}

/// Writes a signed integer in decimal.
pub fn i64_to_string(n: i64) -> (s: String)
    ensures
        s@ == signed_decimal(n as int),
{
    if n >= 0 {
        u64_to_string(n as u64)
    } else {
        let magnitude: u64 = (-(n + 1)) as u64 + 1;
        let mut s = "-".to_owned();
        let digits = u64_to_string(magnitude);
        s.append(digits.as_str());
        proof {
            reveal_strlit("-");
            assert(s@ =~= signed_decimal(n as int));
        }
        s
    }
}

/// The lowercase form of a text, as Unicode defines it.
pub uninterp spec fn lowercase_of(text: Seq<char>) -> Seq<char>;

/// Calls `str::to_lowercase`, which returns the lowercase equivalent of the
/// text as a new string. Which characters change, and into what, is Unicode's
/// business: the contract only names the result.
#[verifier::external_body]
pub(crate) fn to_lowercase(text: &str) -> (lower: String)
    ensures
        lower@ == lowercase_of(text@),
{
    text.to_lowercase()
}

/// The words of a text: its pieces between stretches of whitespace, in order.
pub uninterp spec fn words_of(text: Seq<char>) -> Seq<Seq<char>>;

/// Calls `str::split_whitespace` and collects the pieces it yields. What
/// counts as whitespace is Unicode's business: the contract only names the
/// result.
#[verifier::external_body]
pub(crate) fn split_whitespace(text: &str) -> (words: Vec<String>)
    ensures
        words.deep_view() == words_of(text@),
{
    text.split_whitespace().map(|word| word.to_string()).collect()
}

/// A text without the whitespace at its two ends.
pub uninterp spec fn trimmed(text: Seq<char>) -> Seq<char>;

/// Calls `str::trim`, which returns the text with leading and trailing
/// whitespace removed. What counts as whitespace is Unicode's business: the
/// contract only names the result.
#[verifier::external_body]
pub(crate) fn trim(text: &str) -> (inner: &str)
    ensures
        inner@ == trimmed(text@),
{
    text.trim()
}

/// The parts written one after the other with `separator` between each two.
pub open spec fn join_with(parts: Seq<Seq<char>>, separator: Seq<char>) -> Seq<char>
    decreases parts.len(),
{
    if parts.len() == 0 {
        Seq::empty()
    } else if parts.len() == 1 {
        parts[0]
    } else {
        join_with(parts.drop_last(), separator) + separator + parts.last()
    }
}

/// The words written one after the other with a single space between each
/// two.
pub open spec fn join_words(words: Seq<Seq<char>>) -> Seq<char> {
    join_with(words, seq![' '])
}

/// Writes the first `count` parts one after the other with `separator`
/// between each two.
pub fn join_strings(parts: &Vec<String>, count: usize, separator: &str) -> (joined: String)
    requires
        count <= parts.len(),
    ensures
        joined@ == join_with(parts.deep_view().take(count as int), separator@),
{
    let mut joined = String::new();
    let mut i: usize = 0;
    while i < count
        invariant
            i <= count <= parts.len(),
            joined@ == join_with(parts.deep_view().take(i as int), separator@),
        decreases count - i,
    {
        if i > 0 {
            joined.append(separator);
        }
        joined.append(parts[i].as_str());
        proof {
            let all = parts.deep_view();
            assert(all.take(i + 1).drop_last() =~= all.take(i as int));
            assert(all.take(i + 1).last() == all[i as int]);
            assert(joined@ =~= join_with(all.take(i + 1), separator@));
        }
        i = i + 1;
    }
    joined
}

/// Writes the words one after the other with a single space between each two.
pub fn join_with_spaces(words: &Vec<String>) -> (joined: String)
    ensures
        joined@ == join_words(words.deep_view()),
{
    proof {
        reveal_strlit(" ");
        assert(" "@ =~= seq![' ']);
        assert(words.deep_view().take(words.len() as int) =~= words.deep_view());
    }
    join_strings(words, words.len(), " ")
}

/// Copies string slices into owned strings, one for one.
pub fn to_strings(texts: &[&str]) -> (owned: Vec<String>)
    ensures
        owned.deep_view() == texts.deep_view(),
{
    let mut owned: Vec<String> = Vec::new();
    let mut i: usize = 0;
    while i < texts.len()
        invariant
            i <= texts.len(),
            owned.deep_view() == texts.deep_view().take(i as int),
        decreases texts.len() - i,
    {
        let ghost before = owned.deep_view();
        owned.push(texts[i].to_owned());
        assert(owned.deep_view() =~= before.push(texts[i as int]@));
        assert(texts.deep_view().take(i + 1) =~= texts.deep_view().take(i as int).push(
            texts[i as int]@,
        ));
        i = i + 1;
    }
    assert(texts.deep_view().take(texts.len() as int) =~= texts.deep_view());
    owned
}

/// Joins two string slices into one owned string.
pub fn concat_strs(a: &str, b: &str) -> (s: String)
    ensures
        s@ == a@ + b@,
{
    let mut s = a.to_owned();
    s.append(b);
    s
}

} // verus!
