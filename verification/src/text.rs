//! Text building blocks: taking a prefix off a text, and writing a number in
//! decimal.

use vstd::prelude::*;

verus! {

/// `text` without `mark` at its head: where `text` begins with `mark`, what
/// follows that one `mark`; any other text as it is.
pub open spec fn without_prefix(text: Seq<char>, mark: Seq<char>) -> Seq<char> {
    if mark.is_prefix_of(text) {
        text.skip(mark.len() as int)
    } else {
        text
    }
}

/// The texts of a sequence of strings, one for one.
pub open spec fn texts(strings: Seq<String>) -> Seq<Seq<char>> {
    strings.map_values(|s: String| s@)
}

/// The text of a string that may be absent.
pub open spec fn text_of(string: Option<String>) -> Option<Seq<char>> {
    match string {
        Some(s) => Some(s@),
        None => None,
    }
}

/// The texts of a list of strings that may be absent.
pub open spec fn texts_of(strings: Option<Vec<String>>) -> Option<Seq<Seq<char>>> {
    match strings {
        Some(list) => Some(texts(list@)),
        None => None,
    }
}

/// The decimal digit of a number below ten.
pub open spec fn digit(d: nat) -> char {
    if d == 0 {
        '0'
    } else if d == 1 {
        '1'
    } else if d == 2 {
        '2'
    } else if d == 3 {
        '3'
    } else if d == 4 {
        '4'
    } else if d == 5 {
        '5'
    } else if d == 6 {
        '6'
    } else if d == 7 {
        '7'
    } else if d == 8 {
        '8'
    } else {
        '9'
    }
}

/// A number in decimal, without sign or leading zeros.
pub open spec fn decimal(n: nat) -> Seq<char>
    decreases n,
{
    if n < 10 {
        seq![digit(n)]
    } else {
        decimal(n / 10).push(digit(n % 10))
    }
}

/// A mark at the head of a text is taken off once: what follows it is left
/// as it is, also where it begins with the mark again.
pub proof fn lemma_without_prefix_leading(mark: Seq<char>, rest: Seq<char>)
    ensures
        without_prefix(mark + rest, mark) == rest,
{
}

/// The characters of a text.
pub fn chars_of(text: &str) -> (chars: Vec<char>)
    ensures
        chars@ == text@,
{
    let mut chars: Vec<char> = Vec::new();
    for c in it: text.chars()
        invariant
            it.seq() == text@,
            chars@ == it.seq().take(it.index() as int),
    {
        chars.push(c);
    }
    chars
}

/// Whether `text` begins with `mark`.
pub fn starts_with(text: &Vec<char>, mark: &Vec<char>) -> (found: bool)
    ensures
        found == mark@.is_prefix_of(text@),
{
    let n = text.len();
    let m = mark.len();
    if n < m {
        return false;
    }
    let mut k: usize = 0;
    while k < m
        invariant
            n == text@.len(),
            m == mark@.len(),
            m <= n,
            k <= m,
            forall|j: int| 0 <= j < k ==> text@[j] == mark@[j],
        decreases m - k,
    {
        if text[k] != mark[k] {
            return false;
        }
        k += 1;
    }
    true
}

/// Takes `mark` off the head of `text`, once. A text that does not begin
/// with `mark` comes back as it is.
pub fn strip_prefix(text: &str, mark: &str) -> (out: String)
    ensures
        out@ == without_prefix(text@, mark@),
{
    let chars = chars_of(text);
    let pattern = chars_of(mark);
    if starts_with(&chars, &pattern) {
        text.substring_char(pattern.len(), chars.len()).to_owned()
    } else {
        text.to_owned()
    }
}

/// The digit of a number below ten, as a text of one character.
fn digit_text(d: usize) -> (text: &'static str)
    requires
        d < 10,
    ensures
        text@ == seq![digit(d as nat)],
{
    proof {
        reveal_strlit("0");
        reveal_strlit("1");
        reveal_strlit("2");
        reveal_strlit("3");
        reveal_strlit("4");
        reveal_strlit("5");
        reveal_strlit("6");
        reveal_strlit("7");
        reveal_strlit("8");
        reveal_strlit("9");
    }
    if d == 0 {
        "0"
    } else if d == 1 {
        "1"
    } else if d == 2 {
        "2"
    } else if d == 3 {
        "3"
    } else if d == 4 {
        "4"
    } else if d == 5 {
        "5"
    } else if d == 6 {
        "6"
    } else if d == 7 {
        "7"
    } else if d == 8 {
        "8"
    } else {
        "9"
    }
}

/// Writes a number in decimal.
pub fn decimal_string(n: usize) -> (out: String)
    ensures
        out@ == decimal(n as nat),
    decreases n,
{
    if n < 10 {
        digit_text(n).to_owned()
    } else {
        let mut out = decimal_string(n / 10);
        out.append(digit_text(n % 10));
        out
    }
}

} // verus!
