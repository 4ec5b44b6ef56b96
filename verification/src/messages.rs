//! The log lines the pipeline emits for process lifecycle milestones,
//! rendered exactly: all failures of this system surface only through
//! the log stream, so the lines themselves are part of its behaviour.

use vstd::prelude::*;

verus! {

/// The character of one decimal digit.
pub open spec fn digit_char(d: nat) -> char {
    if d == 0 {
        '0'
    } else if d == 1 {
        '1'
    } else if d == 2 {
        '2'
    } else if d == 3 {
        '3'
    } else if d == 4 {
        '4'
    } else if d == 5 {
        '5'
    } else if d == 6 {
        '6'
    } else if d == 7 {
        '7'
    } else if d == 8 {
        '8'
    } else {
        '9'
    }
}

/// A number written out in decimal, most significant digit first, no
/// leading zeroes (zero itself is "0").
pub open spec fn decimal_digits(n: nat) -> Seq<char>
    decreases n,
{
    if n < 10 {
        seq![digit_char(n)]
    } else {
        decimal_digits(n / 10).push(digit_char(n % 10))
    }
}

fn digit_str(d: u32) -> (s: &'static str)
    requires
        d < 10,
    ensures
        s@ == seq![digit_char(d as nat)],
{
    if d == 0 {
        proof {
            reveal_strlit("0");
        }
        let s = "0";
        proof {
            assert(s@ =~= seq![digit_char(d as nat)]);
        }
        s
    } else if d == 1 {
        proof {
            reveal_strlit("1");
        }
        let s = "1";
        proof {
            assert(s@ =~= seq![digit_char(d as nat)]);
        }
        s
    } else if d == 2 {
        proof {
            reveal_strlit("2");
        }
        let s = "2";
        proof {
            assert(s@ =~= seq![digit_char(d as nat)]);
        }
        s
    } else if d == 3 {
        proof {
            reveal_strlit("3");
        }
        let s = "3";
        proof {
            assert(s@ =~= seq![digit_char(d as nat)]);
        }
        s
    } else if d == 4 {
        proof {
            reveal_strlit("4");
        }
        let s = "4";
        proof {
            assert(s@ =~= seq![digit_char(d as nat)]);
        }
        s
    } else if d == 5 {
        proof {
            reveal_strlit("5");
        }
        let s = "5";
        proof {
            assert(s@ =~= seq![digit_char(d as nat)]);
        }
        s
    } else if d == 6 {
        proof {
            reveal_strlit("6");
        }
        let s = "6";
        proof {
            assert(s@ =~= seq![digit_char(d as nat)]);
        }
        s
    } else if d == 7 {
        proof {
            reveal_strlit("7");
        }
        let s = "7";
        proof {
            assert(s@ =~= seq![digit_char(d as nat)]);
        }
        s
    } else if d == 8 {
        proof {
            reveal_strlit("8");
        }
        let s = "8";
        proof {
            assert(s@ =~= seq![digit_char(d as nat)]);
        }
        s
    } else {
        proof {
            reveal_strlit("9");
        }
        let s = "9";
        proof {
            assert(s@ =~= seq![digit_char(d as nat)]);
        }
        s
    }
}

/// Renders a process identifier in decimal.
pub fn u32_to_decimal(n: u32) -> (s: String)
    ensures
        s@ == decimal_digits(n as nat),
    decreases n,
{
    if n < 10 {
        String::from_str(digit_str(n))
    } else {
        let prefix = u32_to_decimal(n / 10);
        let s = prefix.concat(digit_str(n % 10));
        proof {
            assert(s@ =~= decimal_digits(n as nat));
        }
        s
    }
}

/// "Injected module into existing process NAME (PID N)" — emitted by
/// startup discovery for each process it injected.
pub fn injected_existing_message(name: &str, pid: u32) -> (m: String)
    ensures
        m@ == "Injected module into existing process "@ + name@ + " (PID "@ + decimal_digits(
            pid as nat,
        ) + ")"@,
{
    let digits = u32_to_decimal(pid);
    String::from_str("Injected module into existing process ").concat(name).concat(
        " (PID ",
    ).concat(digits.as_str()).concat(")")
}

/// "Hooked in callback: NAME (PID N)" — emitted when a lifecycle event
/// led to a successful injection.
pub fn hooked_in_callback_message(name: &str, pid: u32) -> (m: String)
    ensures
        m@ == "Hooked in callback: "@ + name@ + " (PID "@ + decimal_digits(pid as nat) + ")"@,
{
    let digits = u32_to_decimal(pid);
    String::from_str("Hooked in callback: ").concat(name).concat(" (PID ").concat(
        digits.as_str(),
    ).concat(")")
}

/// "Process exited: NAME (PID N)" — emitted when a tracked process's
/// termination event arrived.
pub fn process_exited_message(name: &str, pid: u32) -> (m: String)
    ensures
        m@ == "Process exited: "@ + name@ + " (PID "@ + decimal_digits(pid as nat) + ")"@,
{
    let digits = u32_to_decimal(pid);
    String::from_str("Process exited: ").concat(name).concat(" (PID ").concat(
        digits.as_str(),
    ).concat(")")
}

/// The warning for a process that vanished without its unload event
/// ever being captured, noticed only during cleanup.
pub fn cleanup_pid_gone_message(pid: u32) -> (m: String)
    ensures
        m@ == "PID "@ + decimal_digits(pid as nat)
            + " exited without the image unload event being captured (detected during cleanup)."@,
{
    let digits = u32_to_decimal(pid);
    String::from_str("PID ").concat(digits.as_str()).concat(
        " exited without the image unload event being captured (detected during cleanup).",
    )
}

/// "Successfully ejected module from NAME (PID N)." — emitted by the
/// cleanup pass per process it ejected.
pub fn ejected_message(name: &str, pid: u32) -> (m: String)
    ensures
        m@ == "Successfully ejected module from "@ + name@ + " (PID "@ + decimal_digits(
            pid as nat,
        ) + ")."@,
{
    let digits = u32_to_decimal(pid);
    String::from_str("Successfully ejected module from ").concat(name).concat(" (PID ").concat(
        digits.as_str(),
    ).concat(").")
}

} // verus!
