use vstd::prelude::*;
use vstd::string::*;
use crate::errors::ProgramError;

verus! {

/// A validated launch configuration: the target file path as given on the
/// command line, whether the scrollable view is disabled, and the requested
/// output width (0 means "use the terminal width or a fallback").
pub struct AppLaunchArgs {
    pub target: String,
    pub no_scroll: bool,
    pub width: usize,
}

/// Whether `c` is a decimal digit.
pub open spec fn is_digit_char(c: char) -> bool {
    48 <= c as int && c as int <= 57
}

/// Whether every character of `s` is a decimal digit.
pub open spec fn all_digits(s: Seq<char>) -> bool {
    forall|i: int| 0 <= i < s.len() ==> is_digit_char(#[trigger] s[i])
}

/// The value of a string of decimal digits, most significant first.
pub open spec fn digits_val(s: Seq<char>) -> nat
    decreases s.len(),
{
    if s.len() == 0 {
        0
    } else {
        digits_val(s.drop_last()) * 10 + (s.last() as int - 48) as nat
    }
}

/// The digits a width string is read from: an optional leading plus sign
/// is accepted and skipped, as the standard unsigned parse does.
pub open spec fn numeric_body(s: Seq<char>) -> Seq<char> {
    if s.len() > 0 && s[0] == '+' {
        s.drop_first()
    } else {
        s
    }
}

/// Whether `s` parses as an unsigned width: a non-empty run of decimal
/// digits, after an optional leading plus sign, whose value fits in
/// `usize`.
pub open spec fn parses_as_width(s: Seq<char>) -> bool {
    &&& numeric_body(s).len() > 0
    &&& all_digits(numeric_body(s))
    &&& digits_val(numeric_body(s)) <= usize::MAX
}

/// The width a width string resolves to: its parsed value when it parses,
/// and 0 (meaning "auto") otherwise.  A malformed width is deliberately
/// ignored rather than rejected.
pub open spec fn width_of(s: Seq<char>) -> usize {
    if parses_as_width(s) {
        digits_val(numeric_body(s)) as usize
    } else {
        0
    }
}

/// The width an optional width argument resolves to: an absent argument
/// resolves to 0, just as a malformed one does.
pub open spec fn width_of_opt(w: Option<String>) -> usize {
    match w {
        Option::None => 0,
        Option::Some(s) => width_of(s@),
    }
}

/// Law: a non-numeric or absent width string resolves to width 0, never to
/// an error — malformed width input is silently ignored.
pub proof fn lemma_malformed_width_is_zero(w: Option<String>)
    ensures
        w is None ==> width_of_opt(w) == 0,
        (w matches Option::Some(s) && !parses_as_width(s@)) ==> width_of_opt(w) == 0,
{
}

/// The value of a digit string never shrinks when more digits follow:
/// the value of any prefix is at most the value of the whole.
proof fn lemma_digits_val_prefix(s: Seq<char>, i: int)
    requires
        0 <= i <= s.len(),
    ensures
        digits_val(s.subrange(0, i)) <= digits_val(s),
    decreases s.len() - i,
{
    if i == s.len() {
        assert(s.subrange(0, i) =~= s);
    } else {
        let shorter = s.subrange(0, i);
        let longer = s.subrange(0, i + 1);
        assert(longer.drop_last() =~= shorter);
        assert(digits_val(longer) == digits_val(shorter) * 10 + (longer.last() as int - 48) as nat);
        assert(digits_val(shorter) <= digits_val(shorter) * 10);
        lemma_digits_val_prefix(s, i + 1);
    }
}

/// Parse one width string as the launcher does: an optional plus sign, then
/// decimal digits.  Anything else — the empty string, a stray character, a
/// value too large for `usize` — resolves to 0 instead of an error.
fn parse_width_str(s: &str) -> (r: usize)
    ensures
        r == width_of(s@),
{
    let n = s.unicode_len();
    if n == 0 {
        return 0;
    }
    let start: usize = if s.get_char(0) == '+' {
        1
    } else {
        0
    };
    let ghost body = numeric_body(s@);
    proof {
        assert(body =~= s@.subrange(start as int, n as int));
    }
    if start == n {
        // the string was just "+": no digits to read
        return 0;
    }
    let mut i: usize = start;
    let mut acc: usize = 0;
    while i < n
        invariant
            start <= i <= n,
            start < n,
            n == s@.len(),
            body == numeric_body(s@),
            body =~= s@.subrange(start as int, n as int),
            all_digits(body.subrange(0, i - start)),
            acc == digits_val(body.subrange(0, i - start)),
        decreases n - i,
    {
        let c = s.get_char(i);
        let u = c as u32;
        let ghost prefix = body.subrange(0, i - start);
        let ghost extended = body.subrange(0, i + 1 - start);
        proof {
            assert(extended.drop_last() =~= prefix);
            assert(extended.last() == s@[i as int]);
        }
        if u < 48 || 57 < u {
            // a non-digit anywhere makes the whole string malformed
            assert(!is_digit_char(body[i - start]));
            return 0;
        }
        let d = (u - 48) as usize;
        let stepped = match acc.checked_mul(10) {
            Option::Some(m) => m.checked_add(d),
            Option::None => Option::None,
        };
        match stepped {
            Option::Some(next) => {
                acc = next;
            },
            Option::None => {
                // the digits read so far already exceed usize::MAX, so the
                // whole string does too and the width resolves to 0
                proof {
                    assert(digits_val(extended) > usize::MAX);
                    lemma_digits_val_prefix(body, i + 1 - start);
                }
                return 0;
            },
        }
        i = i + 1;
    }
    proof {
        assert(body.subrange(0, n - start) =~= body);
    }
    acc
}

/// Resolve an optional width argument: absent or malformed widths resolve
/// to 0 ("auto"), never to an error.
pub fn parse_width(w: &Option<String>) -> (r: usize)
    ensures
        r == width_of_opt(*w),
{
    match w {
        Option::None => 0,
        Option::Some(s) => parse_width_str(s.as_str()),
    }
}

/// Resolve raw launch input into a validated configuration.
///
/// The caller hands in plain facts it gathered at the process edge: the
/// positional target (if any), whether that path exists and whether it is a
/// directory (both probed only when a target was given), the no-scroll
/// flag, and the raw width argument.  Validation order: a missing target is
/// rejected first, then a path that does not exist, then a directory; only
/// then is a configuration built, with a malformed width silently resolved
/// to 0.
pub fn read_launch_args(
    target: Option<String>,
    target_exists: bool,
    target_is_dir: bool,
    no_scroll: bool,
    width: Option<String>,
) -> (r: Result<AppLaunchArgs, ProgramError>)
    ensures
        r is Ok <==> (target is Some && target_exists && !target_is_dir),
        target is None ==> r == Result::<AppLaunchArgs, ProgramError>::Err(
            ProgramError::NoTargetProvided,
        ),
        (target is Some && !target_exists) ==> (r matches Result::Err(
            ProgramError::TargetNotFound { path },
        ) && path@ == target->0@),
        (target is Some && target_exists && target_is_dir) ==> (r matches Result::Err(
            ProgramError::TargetNotRegularFile { path },
        ) && path@ == target->0@),
        r matches Result::Ok(args) ==> {
            &&& args.target@ == target->0@
            &&& args.no_scroll == no_scroll
            &&& args.width == width_of_opt(width)
        },
{
    let width_value = parse_width(&width);
    let target_path = match target {
        Option::Some(path) => path,
        Option::None => {
            return Result::Err(ProgramError::NoTargetProvided);
        },
    };
    if !target_exists {
        return Result::Err(ProgramError::TargetNotFound { path: target_path });
    }
    if target_is_dir {
        return Result::Err(ProgramError::TargetNotRegularFile { path: target_path });
    }
    Result::Ok(
        AppLaunchArgs { target: target_path, no_scroll: no_scroll, width: width_value },
    )
}

} // verus!
