//! Text building blocks: decimal numerals, pattern replacement, joining,
//! and the few std string conversions that the request logic relies on.
use vstd::prelude::*;

verus! {

// ---------------------------------------------------------------------------
// Lowercasing (trusted std call) and reading booleans
// ---------------------------------------------------------------------------

/// What std's `str::to_lowercase` returns for a string: its lowercase
/// equivalent under the Unicode `Lowercase` property. The mapping is fixed
/// by the Unicode tables, so it depends on the characters alone.
pub uninterp spec fn spec_to_lowercase(s: Seq<char>) -> Seq<char>;

/// Lowercases `s`.
///
/// Trusted: calls std's `str::to_lowercase`; the contract only says that the
/// result is the (named) lowercase form of the argument's characters.
#[verifier::external_body]
pub(crate) fn to_lowercase(s: &str) -> (res: String)
    ensures
        res@ == spec_to_lowercase(s@),
{
    s.to_lowercase()
}

/// What std's `FromStr` for `bool` accepts: exactly `"true"` and `"false"`.
pub open spec fn parse_bool_spec(s: Seq<char>) -> Option<bool> {
    if s == "true"@ {
        Some(true)
    } else if s == "false"@ {
        Some(false)
    } else {
        None
    }
}

/// Parses a `bool` the way `str::parse::<bool>` does: std documents that
/// the only accepted values are `"true"` and `"false"`.
pub(crate) fn parse_bool(s: &str) -> (res: Option<bool>)
    ensures
        res == parse_bool_spec(s@),
{
    let text = String::from_str(s);
    if text == String::from_str("true") {
        Some(true)
    } else if text == String::from_str("false") {
        Some(false)
    } else {
        None
    }
}

// ---------------------------------------------------------------------------
// Decimal numerals
// ---------------------------------------------------------------------------

/// The ASCII digit for `d` (for `0 <= d < 10`), as a one-character text.
pub open spec fn digit_text(d: nat) -> Seq<char> {
    if d == 0 {
        "0"@
    } else if d == 1 {
        "1"@
    } else if d == 2 {
        "2"@
    } else if d == 3 {
        "3"@
    } else if d == 4 {
        "4"@
    } else if d == 5 {
        "5"@
    } else if d == 6 {
        "6"@
    } else if d == 7 {
        "7"@
    } else if d == 8 {
        "8"@
    } else {
        "9"@
    }
}

/// The decimal numeral of `n`, without sign or leading zeros.
pub open spec fn decimal_spec(n: nat) -> Seq<char>
    decreases n,
{
    if n < 10 {
        digit_text(n)
    } else {
        decimal_spec(n / 10) + digit_text(n % 10)
    }
}

fn digit(d: usize) -> (t: &'static str)
    requires
        d < 10,
    ensures
        t@ == digit_text(d as nat),
{
    if d == 0 {
        "0"
    } else if d == 1 {
        "1"
    } else if d == 2 {
        "2"
    } else if d == 3 {
        "3"
    } else if d == 4 {
        "4"
    } else if d == 5 {
        "5"
    } else if d == 6 {
        "6"
    } else if d == 7 {
        "7"
    } else if d == 8 {
        "8"
    } else {
        "9"
    }
}

/// Formats `n` in decimal, as `format!("{}", n)` does.
pub fn decimal(n: usize) -> (s: String)
    ensures
        s@ == decimal_spec(n as nat),
    decreases n,
{
    if n < 10 {
        String::from_str(digit(n))
    } else {
        let mut s = decimal(n / 10);
        s.append(digit(n % 10));
        s
    }
}

// ---------------------------------------------------------------------------
// Replacing every occurrence of a pattern
// ---------------------------------------------------------------------------

/// `s` with every occurrence of the (non-empty) pattern `pat` replaced by
/// `rep`, scanning from the left and taking non-overlapping occurrences.
/// Text that a replacement inserts is not scanned again.
pub open spec fn replace_spec(s: Seq<char>, pat: Seq<char>, rep: Seq<char>) -> Seq<char>
    decreases s.len(),
{
    if s.len() == 0 {
        Seq::empty()
    } else if 0 < pat.len() <= s.len() && s.take(pat.len() as int) == pat {
        rep + replace_spec(s.skip(pat.len() as int), pat, rep)
    } else {
        seq![s[0]] + replace_spec(s.skip(1), pat, rep)
    }
}

/// Replaces every occurrence of `pat` in `s` by `rep`, as `str::replace` does.
pub fn replace_all(s: &str, pat: &str, rep: &str) -> (res: String)
    requires
        pat@.len() > 0,
    ensures
        res@ == replace_spec(s@, pat@, rep@),
{
    let n = s.unicode_len();
    let m = pat.unicode_len();
    let pat_owned = String::from_str(pat);
    let mut out = String::new();
    let mut start: usize = 0;
    let mut i: usize = 0;
    assert(s@.skip(0) =~= s@);
    while i < n
        invariant
            n == s@.len(),
            m == pat@.len(),
            m > 0,
            pat_owned@ == pat@,
            start <= i <= n,
            replace_spec(s@, pat@, rep@) == out@ + s@.subrange(start as int, i as int)
                + replace_spec(s@.skip(i as int), pat@, rep@),
        decreases n - i,
    {
        let ghost rest = s@.skip(i as int);
        let mut matched = false;
        if m <= n - i {
            let window = String::from_str(s.substring_char(i, i + m));
            if window == pat_owned {
                matched = true;
            }
            assert(rest.take(m as int) =~= s@.subrange(i as int, i + m));
        }
        if matched {
            let ghost old_out = out@;
            out.append(s.substring_char(start, i));
            out.append(rep);
            assert(rest.skip(m as int) =~= s@.skip(i + m));
            assert(s@.subrange((i + m) as int, (i + m) as int) =~= Seq::<char>::empty());
            assert(out@ =~= old_out + s@.subrange(start as int, i as int) + rep@);
            i = i + m;
            start = i;
        } else {
            assert(rest[0] == s@[i as int]);
            assert(rest.skip(1) =~= s@.skip(i + 1));
            assert(s@.subrange(start as int, i as int) + seq![s@[i as int]] =~= s@.subrange(
                start as int,
                i + 1,
            ));
            i = i + 1;
        }
    }
    assert(s@.skip(n as int) =~= Seq::<char>::empty());
    let ghost before = out@;
    out.append(s.substring_char(start, n));
    assert(out@ =~= before + s@.subrange(start as int, n as int));
    out
}

// ---------------------------------------------------------------------------
// Joining with a separator
// ---------------------------------------------------------------------------

/// The parts placed one after another with `sep` between neighbours, as
/// `[String]::join` does.
pub open spec fn join_spec(parts: Seq<Seq<char>>, sep: Seq<char>) -> Seq<char>
    decreases parts.len(),
{
    if parts.len() == 0 {
        Seq::empty()
    } else if parts.len() == 1 {
        parts[0]
    } else {
        join_spec(parts.drop_last(), sep) + sep + parts.last()
    }
}

/// The character sequences of a list of strings.
pub open spec fn views_of(parts: Seq<String>) -> Seq<Seq<char>> {
    parts.map_values(|p: String| p@)
}

/// Joins `parts` with `sep` between neighbours.
pub fn join(parts: &Vec<String>, sep: &str) -> (res: String)
    ensures
        res@ == join_spec(views_of(parts@), sep@),
{
    let mut res = String::new();
    let ghost all = views_of(parts@);
    let mut i: usize = 0;
    while i < parts.len()
        invariant
            i <= parts.len(),
            all == views_of(parts@),
            res@ == join_spec(all.take(i as int), sep@),
        decreases parts.len() - i,
    {
        if i != 0 {
            res.append(sep);
        }
        res.append(parts[i].as_str());
        assert(all.take(i + 1).drop_last() =~= all.take(i as int));
        assert(all.take(i + 1).last() == parts@[i as int]@);
        i = i + 1;
    }
    assert(all.take(parts.len() as int) =~= all);
    res
}

} // verus!
