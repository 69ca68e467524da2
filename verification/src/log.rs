//! The text written to the crash report when the application panics.
use vstd::prelude::*;
use vstd::string::StringExecFns;

verus! {

/// The character of a decimal digit.
pub open spec fn digit_char(d: nat) -> char {
    if d == 0 { '0' }
    else if d == 1 { '1' }
    else if d == 2 { '2' }
    else if d == 3 { '3' }
    else if d == 4 { '4' }
    else if d == 5 { '5' }
    else if d == 6 { '6' }
    else if d == 7 { '7' }
    else if d == 8 { '8' }
    else { '9' }
}

/// The decimal notation of a number, without leading zeros.
pub open spec fn decimal(n: nat) -> Seq<char>
    decreases n,
{
    if n < 10 {
        seq![digit_char(n)]
    } else {
        decimal(n / 10) + seq![digit_char(n % 10)]
    }
}

/// The one-character string of a decimal digit.
fn digit_str(d: u32) -> (s: &'static str)
    requires
        d < 10,
    ensures
        s@ == seq![digit_char(d as nat)],
{
    proof {
        reveal_strlit("0");
        reveal_strlit("1");
        reveal_strlit("2");
        reveal_strlit("3");
        reveal_strlit("4");
        reveal_strlit("5");
        reveal_strlit("6");
        reveal_strlit("7");
        reveal_strlit("8");
        reveal_strlit("9");
    }
    let s = if d == 0 { "0" }
        else if d == 1 { "1" }
        else if d == 2 { "2" }
        else if d == 3 { "3" }
        else if d == 4 { "4" }
        else if d == 5 { "5" }
        else if d == 6 { "6" }
        else if d == 7 { "7" }
        else if d == 8 { "8" }
        else { "9" };
    assert(s@ =~= seq![digit_char(d as nat)]);
    s
}

/// Appends the decimal notation of `n` to `out`.
pub fn push_decimal(n: u32, out: &mut String)
    ensures
        final(out)@ == old(out)@ + decimal(n as nat),
    decreases n,
{
    if n >= 10 {
        push_decimal(n / 10, out);
    }
    out.append(digit_str(n % 10));
    assert(final(out)@ =~= old(out)@ + decimal(n as nat));
}

/// The location part of a crash report: the source file and line of the
/// panic, or nothing when it is not known.
pub open spec fn spec_crash_location(location: Option<(Seq<char>, u32)>) -> Seq<char> {
    match location {
        Some((file, line)) => "at "@ + file + ":"@ + decimal(line as nat),
        None => Seq::empty(),
    }
}

/// The text of a crash report: when it happened, the panic's message (or
/// that it is unknown) and where.
pub open spec fn spec_crash_report(time: Seq<char>, message: Option<Seq<char>>, location: Option<(Seq<char>, u32)>) -> Seq<char> {
    let msg = match message {
        Some(m) => m,
        None => "Unknown panic"@,
    };
    "--- Application Crash ---\nTime: "@ + time + "\nMessage: "@ + msg + "\nLocation: "@
        + spec_crash_location(location) + "\n\n"@
}

/// The text of a crash report. `time` is the local time already written out,
/// `message` the panic's message when it is a string, `location` the source
/// file and line of the panic when known.
pub fn crash_report(time: &str, message: Option<&str>, location: Option<(&str, u32)>) -> (report: String)
    ensures
        report@ == spec_crash_report(
            time@,
            match message {
                Some(m) => Some(m@),
                None => None,
            },
            match location {
                Some((f, l)) => Some((f@, l)),
                None => None,
            },
        ),
{
    let mut report = String::from_str("--- Application Crash ---\nTime: ");
    report.append(time);
    report.append("\nMessage: ");
    match message {
        Some(m) => report.append(m),
        None => report.append("Unknown panic"),
    }
    report.append("\nLocation: ");
    match location {
        Some((file, line)) => {
            report.append("at ");
            report.append(file);
            report.append(":");
            push_decimal(line, &mut report);
        },
        None => {},
    }
    report.append("\n\n");
    report
}

} // verus!
