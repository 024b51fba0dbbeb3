//! Small verified text utilities: quote stripping, splitting on a separator,
//! and decimal parsing.

use vstd::prelude::*;

verus! {

/// Relies on String::push: appends exactly the given character at the end.
pub assume_specification[ String::push ](s: &mut String, c: char)
    ensures
        final(s)@ == old(s)@.push(c),
;

/// A leading or trailing quote character that stored token values must not keep.
pub open spec fn is_quote_char(c: char) -> bool {
    c == '"' || c == '\''
}

/// The string with every leading quote character removed.
pub open spec fn strip_leading_quotes(s: Seq<char>) -> Seq<char>
    decreases s.len(),
{
    if s.len() > 0 && is_quote_char(s[0]) {
        strip_leading_quotes(s.drop_first())
    } else {
        s
    }
}

/// The string with every trailing quote character removed.
pub open spec fn strip_trailing_quotes(s: Seq<char>) -> Seq<char>
    decreases s.len(),
{
    if s.len() > 0 && is_quote_char(s.last()) {
        strip_trailing_quotes(s.drop_last())
    } else {
        s
    }
}

/// What `strip_quotes` returns: the input without leading and trailing quotes.
pub open spec fn strip_quotes_spec(s: Seq<char>) -> Seq<char> {
    strip_trailing_quotes(strip_leading_quotes(s))
}

proof fn lemma_strip_leading_first(s: Seq<char>)
    ensures
        strip_leading_quotes(s).len() > 0 ==> !is_quote_char(strip_leading_quotes(s)[0]),
        strip_leading_quotes(s).len() <= s.len(),
    decreases s.len(),
{
    if s.len() > 0 && is_quote_char(s[0]) {
        lemma_strip_leading_first(s.drop_first());
    }
}

proof fn lemma_strip_trailing_props(s: Seq<char>)
    ensures
        strip_trailing_quotes(s).len() > 0 ==> !is_quote_char(strip_trailing_quotes(s).last()),
        strip_trailing_quotes(s).len() > 0 ==> strip_trailing_quotes(s)[0] == s[0],
    decreases s.len(),
{
    if s.len() > 0 && is_quote_char(s.last()) {
        lemma_strip_trailing_props(s.drop_last());
        if strip_trailing_quotes(s).len() > 0 {
            assert(s.drop_last()[0] == s[0]);
        }
    }
}

/// Law: a stripped value keeps no literal leading or trailing quote
/// character, however many were present.
pub proof fn lemma_strip_quotes_no_wrapping_quotes(s: Seq<char>)
    ensures
        strip_quotes_spec(s).len() > 0 ==> !is_quote_char(strip_quotes_spec(s)[0]),
        strip_quotes_spec(s).len() > 0 ==> !is_quote_char(strip_quotes_spec(s).last()),
{
    lemma_strip_leading_first(s);
    lemma_strip_trailing_props(strip_leading_quotes(s));
}

fn strip_front(s: &str) -> (r: String)
    ensures
        r@ == strip_leading_quotes(s@),
    decreases s@.len(),
{
    let n = s.unicode_len();
    if n > 0 {
        let c = s.get_char(0);
        if c == '"' || c == '\'' {
            let rest = s.substring_char(1, n);
            assert(rest@ == s@.drop_first());
            return strip_front(rest);
        }
    }
    s.to_owned()
}

fn strip_back(s: &str) -> (r: String)
    ensures
        r@ == strip_trailing_quotes(s@),
    decreases s@.len(),
{
    let n = s.unicode_len();
    if n > 0 {
        let c = s.get_char(n - 1);
        if c == '"' || c == '\'' {
            let rest = s.substring_char(0, n - 1);
            assert(rest@ == s@.drop_last());
            return strip_back(rest);
        }
    }
    s.to_owned()
}

/// Removes every leading and every trailing quote character (`"` or `'`)
/// from the given string, however many are present.
pub fn strip_quotes(problematic_string: &String) -> (r: String)
    ensures
        r@ == strip_quotes_spec(problematic_string@),
{
    let front_stripped = strip_front(problematic_string.as_str());
    strip_back(front_stripped.as_str())
}

/// ASCII whitespace, as trimmed from a credential secret.
pub open spec fn is_space_char(c: char) -> bool {
    c == ' ' || c == '\t' || c == '\n' || c == '\r'
}

/// The string with leading ASCII whitespace removed.
pub open spec fn trim_leading(s: Seq<char>) -> Seq<char>
    decreases s.len(),
{
    if s.len() > 0 && is_space_char(s[0]) {
        trim_leading(s.drop_first())
    } else {
        s
    }
}

/// The string with trailing ASCII whitespace removed.
pub open spec fn trim_trailing(s: Seq<char>) -> Seq<char>
    decreases s.len(),
{
    if s.len() > 0 && is_space_char(s.last()) {
        trim_trailing(s.drop_last())
    } else {
        s
    }
}

/// What `trim` returns: the input without leading or trailing ASCII whitespace.
pub open spec fn trim_spec(s: Seq<char>) -> Seq<char> {
    trim_trailing(trim_leading(s))
}

fn trim_front(s: &str) -> (r: String)
    ensures
        r@ == trim_leading(s@),
    decreases s@.len(),
{
    let n = s.unicode_len();
    if n > 0 {
        let c = s.get_char(0);
        if c == ' ' || c == '\t' || c == '\n' || c == '\r' {
            let rest = s.substring_char(1, n);
            assert(rest@ == s@.drop_first());
            return trim_front(rest);
        }
    }
    s.to_owned()
}

fn trim_back(s: &str) -> (r: String)
    ensures
        r@ == trim_trailing(s@),
    decreases s@.len(),
{
    let n = s.unicode_len();
    if n > 0 {
        let c = s.get_char(n - 1);
        if c == ' ' || c == '\t' || c == '\n' || c == '\r' {
            let rest = s.substring_char(0, n - 1);
            assert(rest@ == s@.drop_last());
            return trim_back(rest);
        }
    }
    s.to_owned()
}

/// Removes leading and trailing ASCII whitespace.
pub fn trim(s: &str) -> (r: String)
    ensures
        r@ == trim_spec(s@),
{
    let front_trimmed = trim_front(s);
    trim_back(front_trimmed.as_str())
}

/// The index of the first occurrence of `sep`, or the length when absent.
pub open spec fn first_sep(s: Seq<char>, sep: char) -> int
    decreases s.len(),
{
    if s.len() == 0 {
        0
    } else if s[0] == sep {
        0
    } else {
        1 + first_sep(s.drop_first(), sep)
    }
}

/// Law-sized helper: `first_sep` points at the first occurrence, or past the end.
pub proof fn lemma_first_sep(s: Seq<char>, sep: char)
    ensures
        0 <= first_sep(s, sep) <= s.len(),
        first_sep(s, sep) < s.len() ==> s[first_sep(s, sep)] == sep,
        forall|j: int| 0 <= j < first_sep(s, sep) ==> s[j] != sep,
    decreases s.len(),
{
    if s.len() > 0 && s[0] != sep {
        lemma_first_sep(s.drop_first(), sep);
        assert forall|j: int| 0 <= j < first_sep(s, sep) implies s[j] != sep by {
            if j > 0 {
                assert(s.drop_first()[j - 1] == s[j]);
            }
        }
        if first_sep(s, sep) < s.len() {
            assert(s[first_sep(s, sep)] == s.drop_first()[first_sep(s.drop_first(), sep)]);
        }
    }
}

/// Finds the first occurrence of `sep`.
pub fn find_char(s: &str, sep: char) -> (r: Option<usize>)
    ensures
        match r {
            Some(i) => i < s@.len() && i as int == first_sep(s@, sep),
            None => first_sep(s@, sep) == s@.len(),
        },
{
    let n = s.unicode_len();
    let mut i: usize = 0;
    while i < n
        invariant
            0 <= i <= n,
            n == s@.len(),
            forall|j: int| 0 <= j < i ==> s@[j] != sep,
        decreases n - i,
    {
        if s.get_char(i) == sep {
            proof {
                lemma_first_sep(s@, sep);
                let k = first_sep(s@, sep);
                if k < i {
                    assert(s@[k] != sep);
                }
                if k > i {
                    assert(s@[i as int] != sep);
                }
            }
            return Some(i);
        }
        i += 1;
    }
    proof {
        lemma_first_sep(s@, sep);
        let k = first_sep(s@, sep);
        if k < n {
            assert(s@[k] != sep);
        }
    }
    None
}

/// A decimal digit.
pub open spec fn is_digit_char(c: char) -> bool {
    48 <= c as u32 && c as u32 <= 57
}

/// The value of one decimal digit.
pub open spec fn digit_val(c: char) -> nat {
    (c as u32 - 48) as nat
}

/// Every character is a decimal digit.
pub open spec fn all_digits(s: Seq<char>) -> bool {
    forall|i: int| 0 <= i < s.len() ==> is_digit_char(#[trigger] s[i])
}

/// The number the digit string stands for, most significant digit first.
pub open spec fn digits_val(s: Seq<char>) -> nat
    decreases s.len(),
{
    if s.len() == 0 {
        0
    } else {
        digits_val(s.drop_last()) * 10 + digit_val(s.last())
    }
}

proof fn lemma_digits_val_prefix_le(s: Seq<char>, i: int)
    requires
        0 <= i <= s.len(),
    ensures
        digits_val(s.take(i)) <= digits_val(s),
    decreases s.len() - i,
{
    if i < s.len() {
        assert(s.take(i + 1).drop_last() =~= s.take(i));
        assert(s.take(i + 1).last() == s[i]);
        lemma_digits_val_prefix_le(s, i + 1);
    } else {
        assert(s.take(i) =~= s);
    }
}

/// Parses the string as an unsigned decimal number: succeeds exactly on a
/// non-empty all-digit string whose value fits, and then yields that value.
pub fn parse_u64(s: &str) -> (r: Option<u64>)
    ensures
        match r {
            Some(n) => s@.len() > 0 && all_digits(s@) && n == digits_val(s@),
            None => s@.len() == 0 || !all_digits(s@) || digits_val(s@) > u64::MAX,
        },
{
    let n = s.unicode_len();
    if n == 0 {
        return None;
    }
    let mut acc: u64 = 0;
    let mut i: usize = 0;
    proof {
        assert(s@.take(0) =~= Seq::<char>::empty());
    }
    while i < n
        invariant
            0 <= i <= n,
            n == s@.len(),
            all_digits(s@.take(i as int)),
            acc == digits_val(s@.take(i as int)),
        decreases n - i,
    {
        let c = s.get_char(i);
        let d = c as u32;
        if d < 48 || d > 57 {
            proof {
                assert(!is_digit_char(s@[i as int]));
            }
            return None;
        }
        proof {
            assert(s@.take(i as int + 1).drop_last() =~= s@.take(i as int));
            assert(s@.take(i as int + 1).last() == s@[i as int]);
        }
        let scaled = match acc.checked_mul(10) {
            Some(x) => x,
            None => {
                proof {
                    assert(digits_val(s@.take(i as int + 1)) > u64::MAX);
                    lemma_digits_val_prefix_le(s@, i as int + 1);
                }
                return None;
            },
        };
        acc = match scaled.checked_add((d - 48) as u64) {
            Some(x) => x,
            None => {
                proof {
                    assert(digits_val(s@.take(i as int + 1)) > u64::MAX);
                    lemma_digits_val_prefix_le(s@, i as int + 1);
                }
                return None;
            },
        };
        proof {
            assert(all_digits(s@.take(i as int + 1)));
        }
        i += 1;
    }
    proof {
        assert(s@.take(n as int) =~= s@);
    }
    Some(acc)
}

/// The pieces of the string between occurrences of the separator: one piece
/// more than there are separators, in order, separators kept out.
pub open spec fn split_spec(s: Seq<char>, sep: char) -> Seq<Seq<char>>
    decreases s.len(),
{
    if s.len() == 0 {
        seq![Seq::<char>::empty()]
    } else if s[0] == sep {
        seq![Seq::<char>::empty()] + split_spec(s.drop_first(), sep)
    } else {
        let rest = split_spec(s.drop_first(), sep);
        seq![seq![s[0]] + rest[0]] + rest.drop_first()
    }
}

/// Law-sized helper: a split always yields at least one piece.
pub proof fn lemma_split_spec_len(s: Seq<char>, sep: char)
    ensures
        split_spec(s, sep).len() >= 1,
    decreases s.len(),
{
    if s.len() > 0 {
        lemma_split_spec_len(s.drop_first(), sep);
    }
}

/// The views of a sequence of strings.
pub open spec fn strings_view(ss: Seq<String>) -> Seq<Seq<char>> {
    ss.map_values(|x: String| x@)
}

/// Splits the string at every occurrence of the separator.
pub fn split_on(s: &str, sep: char) -> (r: Vec<String>)
    ensures
        strings_view(r@) == split_spec(s@, sep),
    decreases s@.len(),
{
    let n = s.unicode_len();
    if n == 0 {
        let mut out: Vec<String> = Vec::new();
        out.push(String::new());
        proof {
            assert(strings_view(out@) =~= split_spec(s@, sep));
        }
        return out;
    }
    let c = s.get_char(0);
    let tail = s.substring_char(1, n);
    assert(tail@ == s@.drop_first());
    let mut rest = split_on(tail, sep);
    proof {
        lemma_split_spec_len(tail@, sep);
        assert(rest@.len() == strings_view(rest@).len());
    }
    if c == sep {
        rest.insert(0, String::new());
        proof {
            assert(strings_view(rest@) =~= seq![Seq::<char>::empty()] + split_spec(
                s@.drop_first(),
                sep,
            ));
        }
        rest
    } else {
        let mut first = String::new();
        first.push(c);
        first.append(rest[0].as_str());
        proof {
            assert(first@ =~= seq![s@[0]] + split_spec(s@.drop_first(), sep)[0]);
        }
        let _ = rest.remove(0);
        rest.insert(0, first);
        proof {
            assert(strings_view(rest@) =~= seq![
                seq![s@[0]] + split_spec(s@.drop_first(), sep)[0],
            ] + split_spec(s@.drop_first(), sep).drop_first());
        }
        rest
    }
}

} // verus!
