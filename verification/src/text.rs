//! Text building: decimal numerals and the pieces of `repr` strings.

use vstd::prelude::*;

verus! {

/// The character of a decimal digit.
pub open spec fn digit_char(d: nat) -> char {
    if d == 0 { '0' } else if d == 1 { '1' } else if d == 2 { '2' } else if d == 3 { '3' }
    else if d == 4 { '4' } else if d == 5 { '5' } else if d == 6 { '6' } else if d == 7 { '7' }
    else if d == 8 { '8' } else { '9' }
}

/// The decimal numeral of `n`, most significant digit first, without leading zeros.
pub open spec fn decimal(n: nat) -> Seq<char>
    decreases n,
{
    if n < 10 {
        seq![digit_char(n)]
    } else {
        decimal(n / 10).push(digit_char(n % 10))
    }
}

fn digit_str(d: usize) -> (r: &'static str)
    requires
        d < 10,
    ensures
        r@ == seq![digit_char(d as nat)],
{
    if d == 0 { proof { reveal_strlit("0"); } "0" }
    else if d == 1 { proof { reveal_strlit("1"); } "1" }
    else if d == 2 { proof { reveal_strlit("2"); } "2" }
    else if d == 3 { proof { reveal_strlit("3"); } "3" }
    else if d == 4 { proof { reveal_strlit("4"); } "4" }
    else if d == 5 { proof { reveal_strlit("5"); } "5" }
    else if d == 6 { proof { reveal_strlit("6"); } "6" }
    else if d == 7 { proof { reveal_strlit("7"); } "7" }
    else if d == 8 { proof { reveal_strlit("8"); } "8" }
    else { proof { reveal_strlit("9"); } "9" }
}

/// Renders `n` in decimal, as `format!("{}", n)` does.
pub fn decimal_string(n: usize) -> (r: String)
    ensures
        r@ == decimal(n as nat),
    decreases n,
{
    if n < 10 {
        String::from_str(digit_str(n))
    } else {
        let mut s = decimal_string(n / 10);
        s.append(digit_str(n % 10));
        s
    }
}


/// What Rust's `Debug` formatting makes of a string: the text in double
/// quotes, with escapes.
pub uninterp spec fn str_debug(s: Seq<char>) -> Seq<char>;

/// `format!("{:?}", s)`: std's `Debug` for `str`.
/// Claimed: the result is a function of `s` alone, named `str_debug`.
#[verifier::external_body]
pub fn debug_string(s: &str) -> (r: String)
    ensures
        r@ == str_debug(s@),
{
    format!("{:?}", s)
}

/// `head`, the decimal numeral of `n`, and a closing `>`: the shape of the
/// `repr` of a collection or a stream.
pub fn count_repr(head: &str, n: usize) -> (r: String)
    ensures
        r@ == head@ + decimal(n as nat) + ">"@,
{
    let mut r = String::from_str(head);
    let num = decimal_string(n);
    r.append(num.as_str());
    r.append(">");
    r
}

/// `head`, `text` in debug quoting, and a closing `>`: the shape of the
/// `repr` of a scalar or a document.
pub fn quoted_repr(head: &str, text: &str) -> (r: String)
    ensures
        r@ == head@ + str_debug(text@) + ">"@,
{
    let mut r = String::from_str(head);
    let q = debug_string(text);
    r.append(q.as_str());
    r.append(">");
    r
}

/// Whether a scalar's source text is enclosed in matching double or single quotes.
pub open spec fn is_quoted_text(s: Seq<char>) -> bool {
    &&& s.len() >= 2
    &&& {
        ||| s[0] == '"' && s[s.len() - 1] == '"'
        ||| s[0] == '\'' && s[s.len() - 1] == '\''
    }
}

/// A scalar's source text with its enclosing quotes removed, if it has them.
pub open spec fn unquote_text(s: Seq<char>) -> Seq<char> {
    if is_quoted_text(s) {
        s.subrange(1, s.len() - 1)
    } else {
        s
    }
}

/// Whether `text` is enclosed in matching double or single quotes.
pub fn quoted(text: &str) -> (r: bool)
    ensures
        r == is_quoted_text(text@),
{
    let n = text.unicode_len();
    if n < 2 {
        return false;
    }
    let first = text.get_char(0);
    let last = text.get_char(n - 1);
    (first == '"' && last == '"') || (first == '\'' && last == '\'')
}

/// `text` without its enclosing quotes, if it has them; `text` otherwise.
pub fn unquote(text: &str) -> (r: String)
    ensures
        r@ == unquote_text(text@),
{
    if quoted(text) {
        let n = text.unicode_len();
        String::from_str(text.substring_char(1, n - 1))
    } else {
        String::from_str(text)
    }
}

/// Unquoting removes exactly the two enclosing quote characters, and leaves
/// unquoted text as it is.
pub proof fn lemma_unquote(s: Seq<char>)
    ensures
        is_quoted_text(s) ==> unquote_text(s).len() + 2 == s.len()
            && s == seq![s[0]] + unquote_text(s) + seq![s[s.len() - 1]],
        !is_quoted_text(s) ==> unquote_text(s) == s,
{
    if is_quoted_text(s) {
        assert(s =~= seq![s[0]] + unquote_text(s) + seq![s[s.len() - 1]]);
    }
}

} // verus!
