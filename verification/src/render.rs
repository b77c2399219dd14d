//! A verified JSON rendering of a contribution series: the exact character
//! sequence served for a successful request, pinned down to the byte.

use vstd::prelude::*;

use crate::contributions::ContributionDay;

verus! {

/// Relies on String::push: appends the given character to the end of the
/// string. vstd gives this std method no specification.
pub assume_specification[ String::push ](s: &mut String, ch: char)
    ensures
        final(s)@ == old(s)@ + seq![ch],
;

/// The decimal digit character for `n`.
pub open spec fn spec_digit(n: int) -> char {
    if n == 0 {
        '0'
    } else if n == 1 {
        '1'
    } else if n == 2 {
        '2'
    } else if n == 3 {
        '3'
    } else if n == 4 {
        '4'
    } else if n == 5 {
        '5'
    } else if n == 6 {
        '6'
    } else if n == 7 {
        '7'
    } else if n == 8 {
        '8'
    } else {
        '9'
    }
}

/// The decimal rendering of a non-negative integer, most significant
/// digit first, without leading zeros (a single zero for zero).
pub open spec fn spec_decimal(n: int) -> Seq<char>
    recommends
        n >= 0,
    decreases n,
{
    if n < 10 {
        seq![spec_digit(n)]
    } else {
        spec_decimal(n / 10) + seq![spec_digit(n % 10)]
    }
}

/// The lower-case hexadecimal digit character for `n`.
pub open spec fn spec_hex_digit(n: int) -> char {
    if n == 0 {
        '0'
    } else if n == 1 {
        '1'
    } else if n == 2 {
        '2'
    } else if n == 3 {
        '3'
    } else if n == 4 {
        '4'
    } else if n == 5 {
        '5'
    } else if n == 6 {
        '6'
    } else if n == 7 {
        '7'
    } else if n == 8 {
        '8'
    } else if n == 9 {
        '9'
    } else if n == 10 {
        'a'
    } else if n == 11 {
        'b'
    } else if n == 12 {
        'c'
    } else if n == 13 {
        'd'
    } else if n == 14 {
        'e'
    } else {
        'f'
    }
}

/// The JSON escaping of one character inside a string value: quote and
/// backslash get a backslash; other control characters become a `\u00XX`
/// escape; every other character stands for itself.
pub open spec fn spec_escaped_char(c: char) -> Seq<char> {
    if c == '"' {
        seq!['\\', '"']
    } else if c == '\\' {
        seq!['\\', '\\']
    } else if (c as int) < 32 {
        seq!['\\', 'u', '0', '0', spec_hex_digit((c as int) / 16), spec_hex_digit((c as int) % 16)]
    } else {
        seq![c]
    }
}

/// The JSON escaping of a whole string value.
pub open spec fn spec_escaped(s: Seq<char>) -> Seq<char>
    decreases s.len(),
{
    if s.len() == 0 {
        Seq::empty()
    } else {
        spec_escaped(s.drop_last()) + spec_escaped_char(s.last())
    }
}

/// One day as a JSON object, keys named and ordered as the service serves
/// them.
pub open spec fn spec_day_json(d: ContributionDay) -> Seq<char> {
    "{\"contributionCount\":"@ + spec_decimal(d.contribution_count as int) + ",\"date\":\""@
        + spec_escaped(d.date@) + "\"}"@
}

/// The days of a series as comma-separated JSON objects.
pub open spec fn spec_days_json(s: Seq<ContributionDay>) -> Seq<char>
    decreases s.len(),
{
    if s.len() == 0 {
        Seq::empty()
    } else if s.len() == 1 {
        spec_day_json(s[0])
    } else {
        spec_days_json(s.drop_last()) + seq![','] + spec_day_json(s.last())
    }
}

/// The full success body: the series as one JSON array, in order.
pub open spec fn spec_series_json(s: Seq<ContributionDay>) -> Seq<char> {
    seq!['['] + spec_days_json(s) + seq![']']
}

/// Every count of the series is non-negative, as the data model promises
/// of upstream data.
pub open spec fn counts_non_negative(s: Seq<ContributionDay>) -> bool {
    forall|i: int| 0 <= i < s.len() ==> s[i].contribution_count >= 0
}

/// The decimal digit character for `n`.
fn digit_char(n: i64) -> (c: char)
    requires
        0 <= n <= 9,
    ensures
        c == spec_digit(n as int),
{
    if n == 0 {
        '0'
    } else if n == 1 {
        '1'
    } else if n == 2 {
        '2'
    } else if n == 3 {
        '3'
    } else if n == 4 {
        '4'
    } else if n == 5 {
        '5'
    } else if n == 6 {
        '6'
    } else if n == 7 {
        '7'
    } else if n == 8 {
        '8'
    } else {
        '9'
    }
}

/// The lower-case hexadecimal digit character for `n`.
fn hex_digit_char(n: u32) -> (c: char)
    requires
        n < 16,
    ensures
        c == spec_hex_digit(n as int),
{
    if n == 0 {
        '0'
    } else if n == 1 {
        '1'
    } else if n == 2 {
        '2'
    } else if n == 3 {
        '3'
    } else if n == 4 {
        '4'
    } else if n == 5 {
        '5'
    } else if n == 6 {
        '6'
    } else if n == 7 {
        '7'
    } else if n == 8 {
        '8'
    } else if n == 9 {
        '9'
    } else if n == 10 {
        'a'
    } else if n == 11 {
        'b'
    } else if n == 12 {
        'c'
    } else if n == 13 {
        'd'
    } else if n == 14 {
        'e'
    } else {
        'f'
    }
}

/// Appends the decimal rendering of a non-negative count.
fn push_decimal(out: &mut String, n: i64)
    requires
        n >= 0,
    ensures
        final(out)@ == old(out)@ + spec_decimal(n as int),
    decreases n,
{
    if n < 10 {
        out.push(digit_char(n));
    } else {
        push_decimal(out, n / 10);
        out.push(digit_char(n % 10));
        proof {
            assert(old(out)@ + spec_decimal(n as int / 10) + seq![spec_digit(n as int % 10)]
                =~= old(out)@ + (spec_decimal(n as int / 10) + seq![spec_digit(n as int % 10)]));
        }
    }
}

/// Appends the JSON escaping of a string value, character by character.
fn push_escaped(out: &mut String, s: &str)
    ensures
        final(out)@ == old(out)@ + spec_escaped(s@),
{
    let len = s.unicode_len();
    let mut i: usize = 0;
    while i < len
        invariant
            i <= len,
            len == s@.len(),
            out@ == old(out)@ + spec_escaped(s@.take(i as int)),
        decreases len - i,
    {
        let c = s.get_char(i);
        if c == '"' {
            out.push('\\');
            out.push('"');
        } else if c == '\\' {
            out.push('\\');
            out.push('\\');
        } else if (c as u32) < 32 {
            let n = c as u32;
            out.push('\\');
            out.push('u');
            out.push('0');
            out.push('0');
            out.push(hex_digit_char(n / 16));
            out.push(hex_digit_char(n % 16));
        } else {
            out.push(c);
        }
        proof {
            let pre = s@.take(i as int);
            let post = s@.take(i as int + 1);
            assert(post.drop_last() =~= pre);
            assert(post.last() == s@[i as int]);
            assert(out@ =~= old(out)@ + (spec_escaped(pre) + spec_escaped_char(s@[i as int])));
        }
        i += 1;
    }
    proof {
        assert(s@.take(len as int) =~= s@);
    }
}

/// Appends one day as a JSON object.
fn push_day(out: &mut String, d: &ContributionDay)
    requires
        d.contribution_count >= 0,
    ensures
        final(out)@ == old(out)@ + spec_day_json(*d),
{
    out.append("{\"contributionCount\":");
    push_decimal(out, d.contribution_count);
    out.append(",\"date\":\"");
    push_escaped(out, d.date.as_str());
    out.append("\"}");
    proof {
        assert(out@ =~= old(out)@ + ("{\"contributionCount\":"@ + spec_decimal(
            d.contribution_count as int,
        ) + ",\"date\":\""@ + spec_escaped(d.date@) + "\"}"@));
    }
}

/// Renders a series as the JSON array the service serves: one object per
/// day, `contributionCount` then `date`, in chronological order, with the
/// date escaped as a JSON string value. The result is a pure function of
/// the series, so equal series render to byte-identical bodies.
pub fn render_series_json(days: &Vec<ContributionDay>) -> (r: String)
    requires
        counts_non_negative(days@),
    ensures
        r@ == spec_series_json(days@),
{
    let mut out = String::from_str("[");
    proof {
        reveal_strlit("[");
        assert(out@ =~= seq!['['] + spec_days_json(days@.take(0)));
    }
    let mut i: usize = 0;
    while i < days.len()
        invariant
            i <= days@.len(),
            counts_non_negative(days@),
            out@ == seq!['['] + spec_days_json(days@.take(i as int)),
        decreases days@.len() - i,
    {
        if i > 0 {
            out.push(',');
        }
        push_day(&mut out, &days[i]);
        proof {
            let pre = days@.take(i as int);
            let post = days@.take(i as int + 1);
            assert(post.drop_last() =~= pre);
            assert(post.last() == days@[i as int]);
            if i == 0 {
                assert(post.len() == 1);
                assert(post[0] == days@[0]);
                assert(out@ =~= seq!['['] + spec_days_json(post));
            } else {
                assert(out@ =~= seq!['['] + (spec_days_json(pre) + seq![','] + spec_day_json(
                    days@[i as int],
                )));
            }
        }
        i += 1;
    }
    out.push(']');
    proof {
        assert(days@.take(days@.len() as int) =~= days@);
        assert(out@ =~= seq!['['] + spec_days_json(days@) + seq![']']);
    }
    out
}

/// Renders the series if every count is non-negative, as the data model
/// promises; answers `None` for a series that violates it.
pub fn try_render_series_json(days: &Vec<ContributionDay>) -> (r: Option<String>)
    ensures
        counts_non_negative(days@) ==> (r matches Some(s) && s@ == spec_series_json(days@)),
        !counts_non_negative(days@) ==> r is None,
{
    let mut i: usize = 0;
    while i < days.len()
        invariant
            i <= days@.len(),
            forall|k: int| 0 <= k < i ==> days@[k].contribution_count >= 0,
        decreases days@.len() - i,
    {
        if days[i].contribution_count < 0 {
            return None;
        }
        i += 1;
    }
    Some(render_series_json(days))
}

} // verus!
