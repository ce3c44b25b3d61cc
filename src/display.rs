//! Human-readable renderings of the supervisor's raw numbers.

use vstd::prelude::*;

verus! {

/// Seconds in one day.
pub const SECS_PER_DAY: u64 = 86400;

/// Seconds in one hour.
pub const SECS_PER_HOUR: u64 = 3600;

/// Bytes in one megabyte, as the supervisor's memory figures are shown.
pub const BYTES_PER_MB: u64 = 1048576;

/// The ASCII digit for `d`, which is below ten.
pub open spec fn digit_char(d: nat) -> char {
    if d == 0 {
        '0'
    } else if d == 1 {
        '1'
    } else if d == 2 {
        '2'
    } else if d == 3 {
        '3'
    } else if d == 4 {
        '4'
    } else if d == 5 {
        '5'
    } else if d == 6 {
        '6'
    } else if d == 7 {
        '7'
    } else if d == 8 {
        '8'
    } else {
        '9'
    }
}

/// The decimal text of `n`, without sign or leading zeros.
pub open spec fn decimal(n: nat) -> Seq<char>
    decreases n,
{
    if n < 10 {
        seq![digit_char(n)]
    } else {
        decimal(n / 10) + seq![digit_char(n % 10)]
    }
}

/// Whole seconds from a start time in epoch milliseconds up to `now_secs`;
/// a start in the future counts as no time at all.
pub open spec fn elapsed_secs(start_ms: u64, now_secs: u64) -> nat {
    let start_secs = start_ms / 1000;
    if now_secs >= start_secs {
        (now_secs - start_secs) as nat
    } else {
        0
    }
}

/// The uptime shown for a process started at `start_ms` (epoch milliseconds,
/// zero when unknown): days and hours past one day, hours past one hour,
/// seconds below that.
pub open spec fn uptime_text(start_ms: u64, now_secs: u64) -> Seq<char> {
    if start_ms == 0 {
        seq!['0', 's']
    } else {
        let e = elapsed_secs(start_ms, now_secs);
        let days = e / 86400;
        let hours = (e % 86400) / 3600;
        if days > 0 {
            decimal(days) + seq!['d', ' '] + decimal(hours) + seq!['h']
        } else if hours > 0 {
            decimal(hours) + seq!['h']
        } else {
            decimal(e) + seq!['s']
        }
    }
}

/// The memory shown for `bytes`: whole megabytes, truncated, then " MB".
pub open spec fn memory_text(bytes: u64) -> Seq<char> {
    decimal((bytes / 1048576) as nat) + seq![' ', 'M', 'B']
}

fn digit_str(d: u64) -> (r: &'static str)
    requires
        d < 10,
    ensures
        r@ == seq![digit_char(d as nat)],
{
    proof {
        reveal_strlit("0");
        reveal_strlit("1");
        reveal_strlit("2");
        reveal_strlit("3");
        reveal_strlit("4");
        reveal_strlit("5");
        reveal_strlit("6");
        reveal_strlit("7");
        reveal_strlit("8");
        reveal_strlit("9");
    }
    if d == 0 {
        "0"
    } else if d == 1 {
        "1"
    } else if d == 2 {
        "2"
    } else if d == 3 {
        "3"
    } else if d == 4 {
        "4"
    } else if d == 5 {
        "5"
    } else if d == 6 {
        "6"
    } else if d == 7 {
        "7"
    } else if d == 8 {
        "8"
    } else {
        "9"
    }
}

/// Writes `n` in decimal.
pub fn decimal_string(n: u64) -> (r: String)
    ensures
        r@ == decimal(n as nat),
    decreases n,
{
    if n < 10 {
        String::from_str(digit_str(n))
    } else {
        let mut s = decimal_string(n / 10);
        s.append(digit_str(n % 10));
        s
    }
}

/// Renders the uptime of a process that the supervisor reports as started
/// at `timestamp` (epoch milliseconds, zero when not started), seen from the
/// wall-clock time `now_secs` (epoch seconds).
pub fn calculate_uptime(timestamp: u64, now_secs: u64) -> (r: String)
    ensures
        r@ == uptime_text(timestamp, now_secs),
{
    if timestamp == 0 {
        proof {
            reveal_strlit("0s");
        }
        return String::from_str("0s");
    }
    let start_secs = timestamp / 1000;
    let elapsed: u64 = if now_secs >= start_secs {
        now_secs - start_secs
    } else {
        0
    };
    let days = elapsed / SECS_PER_DAY;
    let hours = (elapsed % SECS_PER_DAY) / SECS_PER_HOUR;
    if days > 0 {
        let mut s = decimal_string(days);
        proof {
            reveal_strlit("d ");
            reveal_strlit("h");
        }
        s.append("d ");
        let h = decimal_string(hours);
        s.append(h.as_str());
        s.append("h");
        s
    } else if hours > 0 {
        let mut s = decimal_string(hours);
        proof {
            reveal_strlit("h");
        }
        s.append("h");
        s
    } else {
        let mut s = decimal_string(elapsed);
        proof {
            reveal_strlit("s");
        }
        s.append("s");
        s
    }
}

/// Renders a memory figure in bytes as whole megabytes.
pub fn format_memory(bytes: u64) -> (r: String)
    ensures
        r@ == memory_text(bytes),
{
    let mut s = decimal_string(bytes / BYTES_PER_MB);
    proof {
        reveal_strlit(" MB");
    }
    s.append(" MB");
    s
}

} // verus!
