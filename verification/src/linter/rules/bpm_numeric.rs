//! Rule `bpm.numeric`.
use vstd::prelude::*;
use crate::linter::lint_target::{LintTarget, TargetView};
use crate::linter::result::{
    one, opt_v, outcome_of, push_when, violation_views, CheckOutcome, OutcomeView,
};
use crate::linter::rule::{Rule, RuleMetadata};
use crate::linter::text_field::{with_field, TagField};
use crate::linter::violation::{
    error_v, fixed, DecimalRounding, Fix, FixView, RuleViolation, ViolationView,
};
use crate::numbers::{all_ascii_digits, digits_only};
use crate::text::{
    chars_of, copy_range, push_all, push_str, string_from, string_of, trim_chars,
    trim_end_chars, trim_end_class, trim_ws, CharClass,
};
use crate::track::{first_index_exec, first_index_of, Track, TrackView};

verus! {

/// The BPM must be a plain decimal number (`^[0-9]+(\.[0-9]+)?$`), with at
/// most two decimals and no trailing decimal zero.
pub struct BpmNumericRule;

/// `^[0-9]+(\.[0-9]+)?$`.
pub open spec fn is_decimal_number(t: Seq<char>) -> bool {
    let k = first_index_of(t, '.');
    if k < 0 {
        t.len() > 0 && all_ascii_digits(t)
    } else {
        &&& k > 0
        &&& all_ascii_digits(t.subrange(0, k))
        &&& k + 1 < t.len()
        &&& all_ascii_digits(t.subrange(k + 1, t.len() as int))
    }
}

/// The digits after the first `.`; empty when there is none.
pub open spec fn decimals(t: Seq<char>) -> Seq<char> {
    let k = first_index_of(t, '.');
    if k < 0 {
        Seq::empty()
    } else {
        t.subrange(k + 1, t.len() as int)
    }
}

pub open spec fn bpm_violations(t: Seq<char>) -> Seq<ViolationView> {
    opt_v(
        decimals(t).len() > 2,
        fixed(error_v("BPM has more than 2 decimal places"@), FixView::RoundBpmToTwoDecimals),
    ) + opt_v(
        decimals(t).len() > 0 && decimals(t).last() == '0',
        fixed(error_v("BPM has trailing decimal zero"@), FixView::StripBpmTrailingZero),
    )
}

pub open spec fn bpm_outcome(t: TrackView) -> OutcomeView {
    match t.fields.bpm {
        None => OutcomeView::Passed,
        Some(b) => {
            let x = trim_ws(b);
            if !is_decimal_number(x) {
                one(error_v("BPM is not numeric: `"@ + x + "`"@))
            } else {
                outcome_of(bpm_violations(x))
            }
        },
    }
}

/// The track with trailing zeros stripped from the BPM's decimals, and the
/// dot too when no decimal is left.
pub open spec fn strip_zero_fixed(t: TrackView) -> TrackView {
    match t.fields.bpm {
        None => t,
        Some(b) => {
            let x = trim_ws(b);
            let k = first_index_of(x, '.');
            if k < 0 {
                t
            } else {
                let whole = x.subrange(0, k);
                let stripped = trim_end_class(CharClass::Zero, x.subrange(k + 1, x.len() as int));
                with_field(
                    TagField::Bpm,
                    t,
                    Some(
                        if stripped.len() == 0 {
                            whole
                        } else {
                            whole + seq!['.'] + stripped
                        },
                    ),
                )
            }
        },
    }
}

/// What the rounding fix may leave: at most the BPM changes, and it stays
/// present when it was.
pub open spec fn bpm_rounding_effect(before: TrackView, after: TrackView) -> bool {
    &&& after == with_field(TagField::Bpm, before, after.fields.bpm)
    &&& (before.fields.bpm is None ==> after == before)
    &&& (before.fields.bpm is Some ==> after.fields.bpm is Some)
}

fn is_decimal_number_exec(t: &Vec<char>) -> (r: bool)
    ensures
        r == is_decimal_number(t@),
{
    match first_index_exec(t, '.') {
        None => {
            assert(t@.subrange(0, t.len() as int) =~= t@);
            t.len() > 0 && digits_only(t, 0, t.len())
        },
        Some(k) => k > 0 && digits_only(t, 0, k) && k + 1 < t.len() && digits_only(t, k + 1, t.len()),
    }
}

fn decimals_exec(t: &Vec<char>) -> (r: Vec<char>)
    ensures
        r@ == decimals(t@),
{
    match first_index_exec(t, '.') {
        None => Vec::new(),
        Some(k) => copy_range(t, k + 1, t.len()),
    }
}

/// The track with its BPM, trimmed of white space, replaced by what
/// `rounding` gives for it; as it was where there is no BPM or `rounding`
/// gives nothing.
pub open spec fn rounded_bpm<D: DecimalRounding>(t: TrackView, rounding: D) -> TrackView {
    match t.fields.bpm {
        None => t,
        Some(b) => match rounding.rounding_of(trim_ws(b)) {
            Some(r) => with_field(TagField::Bpm, t, Some(r)),
            None => t,
        },
    }
}

/// Rounds the BPM to two decimal places with `rounding`; leaves it as it is
/// where `rounding` gives nothing.
pub fn fix_round_to_two_decimals<D: DecimalRounding>(track: &mut Track, rounding: &D)
    ensures
        final(track)@ == rounded_bpm(old(track)@, *rounding),
        bpm_rounding_effect(old(track)@, final(track)@),
{
    let text = match &track.fields.bpm {
        Some(b) => string_of(&trim_chars(CharClass::WhiteSpace, &chars_of(b.as_str()))),
        None => {
            return ;
        },
    };
    match rounding.round_two_decimals(text.as_str()) {
        Some(r) => {
            track.fields.bpm = Some(r);
        },
        None => {},
    }
}

/// Strips trailing zeros from the BPM's decimals, and the dot too when no
/// decimal is left.
pub fn fix_strip_trailing_decimal_zero(track: &mut Track)
    ensures
        final(track)@ == strip_zero_fixed(old(track)@),
{
    let x = match &track.fields.bpm {
        Some(b) => trim_chars(CharClass::WhiteSpace, &chars_of(b.as_str())),
        None => {
            return ;
        },
    };
    match first_index_exec(&x, '.') {
        None => {},
        Some(k) => {
            let mut r = copy_range(&x, 0, k);
            let stripped = trim_end_chars(CharClass::Zero, &copy_range(&x, k + 1, x.len()));
            let ghost whole = r@;
            if stripped.len() > 0 {
                r.push('.');
                push_all(&mut r, &stripped);
                assert(r@ =~= whole + seq!['.'] + stripped@);
            }
            track.fields.bpm = Some(string_of(&r));
        },
    }
}

impl Rule for BpmNumericRule {
    open spec fn rule_id(&self) -> Seq<char> {
        "bpm.numeric"@
    }

    open spec fn outcome(&self, target: TargetView) -> OutcomeView {
        bpm_outcome(target.track)
    }

    fn metadata(&self) -> RuleMetadata {
        RuleMetadata {
            id: "bpm.numeric",
            description: "BPM must be numeric with strict decimal formatting.\n\nValid:\n- 170\n- 128.5\n- 128.25\n\nInvalid:\n- fast (not numeric)\n- 12x (contains non-numeric characters)\n- 128.345 (more than two decimal places)\n- 170.50 (trailing zero in decimal form)\n- 170.00 (whole numbers should not be decimal)\n",
            autofix_notes: Some("Emits one violation per detected issue. Each fix addresses just\nthat issue:\n- More than two decimal places → rounds to two.\n- Trailing decimal zero → strips trailing zeros (and the dot if\n  nothing remains after it).\n\nNon-numeric values (`fast`, `12x`) are not fixed — the intended\nvalue can't be recovered mechanically.\n"),
        }
    }

    fn check(&self, target: &LintTarget) -> CheckOutcome {
        let x = match &target.track.fields.bpm {
            Some(b) => trim_chars(CharClass::WhiteSpace, &chars_of(b.as_str())),
            None => {
                return CheckOutcome::Passed;
            },
        };
        if !is_decimal_number_exec(&x) {
            let mut m: Vec<char> = Vec::new();
            push_str(&mut m, "BPM is not numeric: `");
            push_all(&mut m, &x);
            push_str(&mut m, "`");
            return CheckOutcome::single(self.error(string_of(&m)));
        }
        let d = decimals_exec(&x);
        let mut v: Vec<RuleViolation> = Vec::new();
        push_when(
            &mut v,
            d.len() > 2,
            self.error(string_from("BPM has more than 2 decimal places")).with_fix(
                Fix::RoundBpmToTwoDecimals,
            ),
        );
        assert(violation_views(v@) =~= opt_v(
            decimals(x@).len() > 2,
            fixed(error_v("BPM has more than 2 decimal places"@), FixView::RoundBpmToTwoDecimals),
        ));
        push_when(
            &mut v,
            d.len() > 0 && d[d.len() - 1] == '0',
            self.error(string_from("BPM has trailing decimal zero")).with_fix(
                Fix::StripBpmTrailingZero,
            ),
        );
        CheckOutcome::from_violations(v)
    }
}

} // verus!
