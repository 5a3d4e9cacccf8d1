//! Building the elapsed-time phrase: pluralized unit phrases for days,
//! hours, minutes and seconds, omission of zero-valued higher units, and
//! comma joining with a final `"and"` before the seconds phrase.
//!
//! When the current instant lies before the epoch the elapsed total is
//! clamped to zero, so the phrase degrades to `"0 seconds"` instead of
//! rendering negative numbers.

use vstd::prelude::*;
use vstd::string::StringExecFns;
use crate::breakdown::{Breakdown, days_of, hours_of, minutes_of, seconds_of, lemma_breakdown_bounds};
use crate::decimal::{decimal_digits, u64_to_decimal};

verus! {

/// The phrase for one unit: the value in decimal, a space, the unit word,
/// and a trailing `'s'` unless the value is exactly one.
pub open spec fn unit_phrase(n: int, word: Seq<char>) -> Seq<char> {
    if n == 1 {
        decimal_digits(n) + " "@ + word
    } else {
        decimal_digits(n) + " "@ + word + "s"@
    }
}

/// The phrases of the higher units (days, hours, minutes, in that order),
/// each included only when its value is strictly positive.
pub open spec fn higher_unit_phrases(total: int) -> Seq<Seq<char>> {
    let d: Seq<Seq<char>> = if days_of(total) > 0 {
        seq![unit_phrase(days_of(total), "day"@)]
    } else {
        Seq::empty()
    };
    let h: Seq<Seq<char>> = if hours_of(total) > 0 {
        seq![unit_phrase(hours_of(total), "hour"@)]
    } else {
        Seq::empty()
    };
    let m: Seq<Seq<char>> = if minutes_of(total) > 0 {
        seq![unit_phrase(minutes_of(total), "minute"@)]
    } else {
        Seq::empty()
    };
    d + h + m
}

/// The comma join of a list of phrases: `p1, p2, ..., pn`.
pub open spec fn comma_join(parts: Seq<Seq<char>>) -> Seq<char>
    decreases parts.len(),
{
    if parts.len() == 0 {
        Seq::empty()
    } else if parts.len() == 1 {
        parts.last()
    } else {
        comma_join(parts.drop_last()) + ", "@ + parts.last()
    }
}

/// The complete phrase for a total of `total` elapsed seconds: the higher
/// unit phrases joined with commas, then `"and"`, then the seconds phrase,
/// which is always present.
pub open spec fn elapsed_phrase(total: int) -> Seq<char> {
    let parts = higher_unit_phrases(total);
    let sec = unit_phrase(seconds_of(total), "second"@);
    if parts.len() == 0 {
        sec
    } else if parts.len() == 1 {
        parts[0] + " and "@ + sec
    } else {
        comma_join(parts) + ", and "@ + sec
    }
}

/// The number of seconds elapsed from `epoch` to `now`, clamped to zero
/// when `now` lies before `epoch`.
pub open spec fn elapsed_clamped(epoch: int, now: int) -> int {
    if now >= epoch {
        now - epoch
    } else {
        0
    }
}

/// A unit phrase starts with the first digit of its value and is never
/// empty.
pub proof fn lemma_unit_phrase_first_char(n: int, word: Seq<char>)
    requires
        n >= 0,
    ensures
        unit_phrase(n, word).len() >= 1,
        unit_phrase(n, word)[0] == decimal_digits(n)[0],
{
    crate::decimal::lemma_decimal_digits_len(n);
}

/// Pluralization law: the unit word is left bare exactly when the value is
/// one, and gets a trailing `'s'` for every other value, zero included. For
/// a unit word that does not itself end in `'s'`, the phrase therefore ends
/// in `'s'` exactly when the value is not one.
pub proof fn lemma_pluralization(n: int, word: Seq<char>)
    requires
        n >= 0,
        word.len() >= 1,
        word.last() != 's',
    ensures
        n == 1 ==> unit_phrase(n, word) == decimal_digits(n) + " "@ + word,
        n != 1 ==> unit_phrase(n, word) == decimal_digits(n) + " "@ + word + "s"@,
        (unit_phrase(n, word).last() == 's') <==> n != 1,
{
    reveal_strlit("s");
    if n == 1 {
        assert(unit_phrase(n, word).last() == word.last());
    } else {
        assert(unit_phrase(n, word).last() == 's');
    }
}

/// Zero-unit omission law: a higher unit whose value is zero contributes no
/// phrase, a higher unit whose value is positive contributes its phrase,
/// and the seconds phrase is a suffix of the output even when the seconds
/// value is zero.
pub proof fn lemma_zero_units_omitted(total: int)
    requires
        total >= 0,
    ensures
        days_of(total) == 0 ==> !higher_unit_phrases(total).contains(unit_phrase(0, "day"@)),
        hours_of(total) == 0 ==> !higher_unit_phrases(total).contains(unit_phrase(0, "hour"@)),
        minutes_of(total) == 0 ==> !higher_unit_phrases(total).contains(
            unit_phrase(0, "minute"@),
        ),
        days_of(total) > 0 ==> higher_unit_phrases(total).contains(
            unit_phrase(days_of(total), "day"@),
        ),
        hours_of(total) > 0 ==> higher_unit_phrases(total).contains(
            unit_phrase(hours_of(total), "hour"@),
        ),
        minutes_of(total) > 0 ==> higher_unit_phrases(total).contains(
            unit_phrase(minutes_of(total), "minute"@),
        ),
        elapsed_phrase(total).len() >= unit_phrase(seconds_of(total), "second"@).len(),
        elapsed_phrase(total).subrange(
            elapsed_phrase(total).len() - unit_phrase(seconds_of(total), "second"@).len(),
            elapsed_phrase(total).len() as int,
        ) == unit_phrase(seconds_of(total), "second"@),
{
    lemma_breakdown_bounds(total);
    let parts = higher_unit_phrases(total);
    let dv = days_of(total);
    let hv = hours_of(total);
    let mv = minutes_of(total);
    assert forall|i: int| 0 <= i < parts.len() implies parts[i].len() >= 1 && parts[i][0]
        != '0' by {
        assert((dv > 0 && parts[i] == unit_phrase(dv, "day"@)) || (hv > 0 && parts[i]
            == unit_phrase(hv, "hour"@)) || (mv > 0 && parts[i] == unit_phrase(
            mv,
            "minute"@,
        )));
        if dv > 0 && parts[i] == unit_phrase(dv, "day"@) {
            lemma_unit_phrase_first_char(dv, "day"@);
            crate::decimal::lemma_decimal_no_leading_zero(dv);
        } else if hv > 0 && parts[i] == unit_phrase(hv, "hour"@) {
            lemma_unit_phrase_first_char(hv, "hour"@);
            crate::decimal::lemma_decimal_no_leading_zero(hv);
        } else {
            lemma_unit_phrase_first_char(mv, "minute"@);
            crate::decimal::lemma_decimal_no_leading_zero(mv);
        }
    }
    assert(unit_phrase(0, "day"@)[0] == '0') by {
        lemma_unit_phrase_first_char(0, "day"@);
    };
    assert(unit_phrase(0, "hour"@)[0] == '0') by {
        lemma_unit_phrase_first_char(0, "hour"@);
    };
    assert(unit_phrase(0, "minute"@)[0] == '0') by {
        lemma_unit_phrase_first_char(0, "minute"@);
    };
    if dv > 0 {
        assert(parts[0] == unit_phrase(dv, "day"@));
    }
    if hv > 0 {
        let at = if dv > 0 { 1int } else { 0int };
        assert(parts[at] == unit_phrase(hv, "hour"@));
    }
    if mv > 0 {
        let at = (if dv > 0 { 1int } else { 0int }) + (if hv > 0 { 1int } else { 0int });
        assert(parts[at] == unit_phrase(mv, "minute"@));
    }
    let sec = unit_phrase(seconds_of(total), "second"@);
    let phrase = elapsed_phrase(total);
    assert(phrase.subrange(phrase.len() - sec.len(), phrase.len() as int) =~= sec);
}

/// Joining law: no higher unit gives the bare seconds phrase, exactly one
/// gives `"{higher} and {seconds}"`, and two or more give the comma join of
/// the higher phrases followed by `", and "` and the seconds phrase.
pub proof fn lemma_joining(total: int)
    requires
        total >= 0,
    ensures
        higher_unit_phrases(total).len() == 0 ==> elapsed_phrase(total) == unit_phrase(
            seconds_of(total),
            "second"@,
        ),
        higher_unit_phrases(total).len() == 1 ==> elapsed_phrase(total) == higher_unit_phrases(
            total,
        )[0] + " and "@ + unit_phrase(seconds_of(total), "second"@),
        higher_unit_phrases(total).len() >= 2 ==> elapsed_phrase(total) == comma_join(
            higher_unit_phrases(total),
        ) + ", and "@ + unit_phrase(seconds_of(total), "second"@),
{
}

/// Determinism law: the elapsed-time phrase is a function of the pair of
/// instants alone, so two renderings of the same pair are identical.
pub proof fn lemma_format_elapsed_deterministic(
    epoch: int,
    now: int,
    first: Seq<char>,
    second: Seq<char>,
)
    requires
        first == elapsed_phrase(elapsed_clamped(epoch, now)),
        second == elapsed_phrase(elapsed_clamped(epoch, now)),
    ensures
        first == second,
{
}

/// Renders the phrase for one unit, pluralizing the unit word exactly when
/// the value is not one.
pub fn pluralize(n: u64, word: &str) -> (r: String)
    ensures
        r@ == unit_phrase(n as int, word@),
{
    let mut r = u64_to_decimal(n);
    r.append(" ");
    r.append(word);
    if n != 1 {
        r.append("s");
    }
    proof {
        assert(r@ =~= unit_phrase(n as int, word@));
    }
    r
}

/// The views of a list of owned phrases.
pub open spec fn views_of(parts: Seq<String>) -> Seq<Seq<char>> {
    parts.map_values(|s: String| s@)
}

fn join_comma(parts: &Vec<String>) -> (r: String)
    requires
        parts@.len() >= 1,
    ensures
        r@ == comma_join(views_of(parts@)),
{
    let mut r: String = parts[0].clone();
    let mut i: usize = 1;
    proof {
        assert(views_of(parts@).take(1) =~= seq![parts@[0]@]);
    }
    while i < parts.len()
        invariant
            1 <= i <= parts@.len(),
            r@ == comma_join(views_of(parts@).take(i as int)),
        decreases parts@.len() - i,
    {
        r.append(", ");
        r.append(parts[i].as_str());
        proof {
            let views = views_of(parts@);
            assert(views.take(i + 1).drop_last() =~= views.take(i as int));
            assert(views.take(i + 1).last() == views[i as int]);
        }
        i = i + 1;
    }
    proof {
        assert(views_of(parts@).take(parts@.len() as int) =~= views_of(parts@));
    }
    r
}

/// Renders the full phrase for a clamped total of `total` elapsed seconds.
pub fn format_total_seconds(total: u64) -> (r: String)
    ensures
        r@ == elapsed_phrase(total as int),
{
    proof {
        lemma_breakdown_bounds(total as int);
    }
    let b = Breakdown::decompose(total);
    let mut parts: Vec<String> = Vec::new();
    if b.days > 0 {
        parts.push(pluralize(b.days, "day"));
    }
    if b.hours > 0 {
        parts.push(pluralize(b.hours, "hour"));
    }
    if b.minutes > 0 {
        parts.push(pluralize(b.minutes, "minute"));
    }
    let sec = pluralize(b.seconds, "second");
    proof {
        assert(views_of(parts@) =~= higher_unit_phrases(total as int));
    }
    if parts.len() == 0 {
        sec
    } else if parts.len() == 1 {
        let mut r = parts[0].clone();
        r.append(" and ");
        r.append(sec.as_str());
        proof {
            assert(r@ =~= elapsed_phrase(total as int));
        }
        r
    } else {
        let mut r = join_comma(&parts);
        r.append(", and ");
        r.append(sec.as_str());
        proof {
            assert(r@ =~= elapsed_phrase(total as int));
        }
        r
    }
}

/// The seconds elapsed from `epoch` to `now`, clamped to zero when `now`
/// lies before `epoch`. Both instants are counted in seconds from the same
/// reference point, as signed 64-bit values.
pub fn elapsed_seconds(epoch: i64, now: i64) -> (t: u64)
    ensures
        t as int == elapsed_clamped(epoch as int, now as int),
{
    if now >= epoch {
        let wide: i128 = (now as i128) - (epoch as i128);
        proof {
            assert(0 <= wide <= u64::MAX as int);
        }
        wide as u64
    } else {
        0
    }
}

/// Renders the elapsed-time phrase for the pair of instants, clamping a
/// negative elapsed total to zero.
pub fn format_elapsed(epoch: i64, now: i64) -> (r: String)
    ensures
        r@ == elapsed_phrase(elapsed_clamped(epoch as int, now as int)),
{
    let total = elapsed_seconds(epoch, now);
    format_total_seconds(total)
}

} // verus!
