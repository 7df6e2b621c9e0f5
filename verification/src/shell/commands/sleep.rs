//! `sleep <duration>`: pause the shell.
use vstd::prelude::*;

use crate::error::{ConfluenceCliError, Result};
use crate::text::{chars_of, copy_str, parse_u64, spec_ends_with, spec_parse_u64, str_ends_with};

use super::super::{ShellRequest, SleepDuration, StageResult};

verus! {

/// The number and the unit of a duration: `ms`, `s`, `m` or `h` at the end, seconds
/// when none is given.
pub open spec fn spec_duration_parts(raw: Seq<char>) -> (Seq<char>, char) {
    if spec_ends_with(raw, "ms"@) {
        (raw.take(raw.len() - 2), 'x')
    } else if spec_ends_with(raw, "s"@) {
        (raw.take(raw.len() - 1), 's')
    } else if spec_ends_with(raw, "m"@) {
        (raw.take(raw.len() - 1), 'm')
    } else if spec_ends_with(raw, "h"@) {
        (raw.take(raw.len() - 1), 'h')
    } else {
        (raw, 's')
    }
}

/// The pause a duration names: milliseconds, or seconds for the other units; `None`
/// when the number is not an unsigned 64-bit integer or the seconds overflow.
pub open spec fn spec_parse_duration(raw: Seq<char>) -> Option<SleepDuration> {
    let (number, unit) = spec_duration_parts(raw);
    match spec_parse_u64(number) {
        None => None,
        Some(v) => if unit == 'x' {
            Some(SleepDuration::Millis(v))
        } else if unit == 's' {
            Some(SleepDuration::Secs(v))
        } else if unit == 'm' {
            if v * 60 <= u64::MAX {
                Some(SleepDuration::Secs((v * 60) as u64))
            } else {
                None
            }
        } else {
            if v * 3600 <= u64::MAX {
                Some(SleepDuration::Secs((v * 3600) as u64))
            } else {
                None
            }
        },
    }
}

/// Reads a duration like `250ms`, `1s`, `2m`, `1h` or `5`.
pub fn parse_duration(raw: &str) -> (r: Result<SleepDuration>)
    ensures
        match spec_parse_duration(raw@) {
            Some(d) => r matches Ok(x) && x == d,
            None => r matches Err(ConfluenceCliError::Config(m)) && m@ == "invalid duration: "@ + raw@,
        },
{
    let chars = chars_of(raw);
    proof {
        reveal_strlit("ms");
        reveal_strlit("s");
        reveal_strlit("m");
        reveal_strlit("h");
    }
    let (end, unit): (usize, char) = if str_ends_with(raw, "ms") {
        (chars.len() - 2, 'x')
    } else if str_ends_with(raw, "s") {
        (chars.len() - 1, 's')
    } else if str_ends_with(raw, "m") {
        (chars.len() - 1, 'm')
    } else if str_ends_with(raw, "h") {
        (chars.len() - 1, 'h')
    } else {
        (chars.len(), 's')
    };
    let number = crate::text::slice_range(chars.as_slice(), 0, end);
    assert(number@ == spec_duration_parts(raw@).0);
    assert(unit == spec_duration_parts(raw@).1);
    let parsed = parse_u64(number.as_slice());
    let value = match parsed {
        Some(v) => v,
        None => {
            let mut m = copy_str("invalid duration: ");
            m.append(raw);
            return Err(ConfluenceCliError::Config(m));
        },
    };
    if unit == 'x' {
        Ok(SleepDuration::Millis(value))
    } else if unit == 's' {
        Ok(SleepDuration::Secs(value))
    } else {
        let factor: u64 = if unit == 'm' {
            60
        } else {
            3600
        };
        match value.checked_mul(factor) {
            Some(secs) => Ok(SleepDuration::Secs(secs)),
            None => {
                let mut m = copy_str("invalid duration: ");
                m.append(raw);
                Err(ConfluenceCliError::Config(m))
            },
        }
    }
}

/// What `sleep` gives for its words and piped input.
pub open spec fn spec_sleep_outcome(argv: Seq<Seq<char>>, input: Option<String>, r: Result<StageResult>) -> bool {
    if input is Some {
        r matches Err(ConfluenceCliError::Config(m)) && m@ == "sleep does not accept piped input"@
    } else if argv.len() != 2 {
        r matches Err(ConfluenceCliError::Config(m)) && m@ == "usage: sleep <duration>"@
    } else {
        match spec_parse_duration(argv[1]) {
            Some(d) => r matches Ok(StageResult::Request(ShellRequest::Sleep(x))) && x == d,
            None => r matches Err(ConfluenceCliError::Config(m)) && m@ == "invalid duration: "@
                + argv[1],
        }
    }
}

/// `sleep <duration>`: asks the host to pause.
pub fn execute(argv: &[String], input: Option<String>) -> (r: Result<StageResult>)
    ensures
        spec_sleep_outcome(crate::text::strings_view(argv@), input, r),
{
    if input.is_some() {
        return Err(ConfluenceCliError::Config(copy_str("sleep does not accept piped input")));
    }
    if argv.len() != 2 {
        return Err(ConfluenceCliError::Config(copy_str("usage: sleep <duration>")));
    }
    let d = parse_duration(argv[1].as_str())?;
    Ok(StageResult::Request(ShellRequest::Sleep(d)))
}

} // verus!
