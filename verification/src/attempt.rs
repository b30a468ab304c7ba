//! Modelling one attempt of a supervised command: the exit status it ended
//! with, the time-of-day stamps put on captured lines, and the name of the
//! crash folder written for a failed attempt.

use vstd::prelude::*;
use vstd::string::StrSliceExecFns;
use vstd::string::StringExecFns;

verus! {

/// Exit status of a child process, as the process layer reports it.
#[derive(Debug, Clone, Copy, PartialEq, Eq, Structural)]
pub enum ExitStatus {
    /// The process exited with the given status code.
    Exited(u32),
    /// The process was terminated by a signal.
    Signaled(u8),
    /// Some other kind of exit status.
    Other(i32),
    /// The status could not be determined.
    Undetermined,
}

/// How one spawn-to-exit lifecycle of a child process ended. A failure to
/// spawn or to take the stdio pipes counts as a failed attempt too.
#[derive(Debug, Clone, Copy, PartialEq, Eq, Structural)]
pub enum AttemptOutcome {
    Success,
    Failure,
}

/// An attempt succeeds exactly when the child exited with status zero.
pub open spec fn outcome_of(status: ExitStatus) -> AttemptOutcome {
    if status == ExitStatus::Exited(0u32) {
        AttemptOutcome::Success
    } else {
        AttemptOutcome::Failure
    }
}

impl ExitStatus {
    pub fn outcome(&self) -> (r: AttemptOutcome)
        ensures
            r == outcome_of(*self),
    {
        match self {
            ExitStatus::Exited(code) => {
                if *code == 0 {
                    AttemptOutcome::Success
                } else {
                    AttemptOutcome::Failure
                }
            },
            _ => AttemptOutcome::Failure,
        }
    }
}

/// The full argv handed to the process layer: the command followed by its
/// arguments, in order.
pub fn create_command<'a>(command: &'a str, args: &'a [String]) -> (r: Vec<&'a str>)
    ensures
        r@.len() == 1 + args@.len(),
        r@[0]@ == command@,
        forall|i: int| 1 <= i < r@.len() ==> (#[trigger] r@[i])@ == args@[i - 1]@,
{
    let mut res: Vec<&'a str> = Vec::new();
    res.push(command);
    let mut i: usize = 0;
    while i < args.len()
        invariant
            0 <= i <= args@.len(),
            res@.len() == 1 + i,
            res@[0]@ == command@,
            forall|j: int| 1 <= j < res@.len() ==> (#[trigger] res@[j])@ == args@[j - 1]@,
        decreases args@.len() - i,
    {
        let arg: &String = vstd::slice::slice_index_get(args, i);
        res.push(arg.as_str());
        i += 1;
    }
    res
}

/// The character for one decimal digit.
pub open spec fn digit_char(d: int) -> char {
    if d == 0 {
        '0'
    } else if d == 1 {
        '1'
    } else if d == 2 {
        '2'
    } else if d == 3 {
        '3'
    } else if d == 4 {
        '4'
    } else if d == 5 {
        '5'
    } else if d == 6 {
        '6'
    } else if d == 7 {
        '7'
    } else if d == 8 {
        '8'
    } else {
        '9'
    }
}

/// Two digits, zero padded.
pub open spec fn two_digit_chars(v: int) -> Seq<char> {
    seq![digit_char(v / 10), digit_char(v % 10)]
}

/// `HH:MM:SS` for the time of day of a timestamp `ts` seconds after the
/// epoch.
pub open spec fn hms_chars(ts: int) -> Seq<char> {
    let sec_of_day = ts % 86400;
    two_digit_chars(sec_of_day / 3600) + ":"@ + two_digit_chars((sec_of_day % 3600) / 60) + ":"@
        + two_digit_chars(sec_of_day % 60)
}

/// One line of a crash log: the time of day, a separator, the text, and a
/// newline.
pub open spec fn line_chars(ts: int, text: Seq<char>) -> Seq<char> {
    hms_chars(ts) + " | "@ + text + "\n"@
}

fn digit_str(d: u64) -> (r: &'static str)
    requires
        d < 10,
    ensures
        r@ == seq![digit_char(d as int)],
{
    if d == 0 {
        proof {
            reveal_strlit("0");
            assert("0"@ =~= seq![digit_char(0)]);
        }
        "0"
    } else if d == 1 {
        proof {
            reveal_strlit("1");
            assert("1"@ =~= seq![digit_char(1)]);
        }
        "1"
    } else if d == 2 {
        proof {
            reveal_strlit("2");
            assert("2"@ =~= seq![digit_char(2)]);
        }
        "2"
    } else if d == 3 {
        proof {
            reveal_strlit("3");
            assert("3"@ =~= seq![digit_char(3)]);
        }
        "3"
    } else if d == 4 {
        proof {
            reveal_strlit("4");
            assert("4"@ =~= seq![digit_char(4)]);
        }
        "4"
    } else if d == 5 {
        proof {
            reveal_strlit("5");
            assert("5"@ =~= seq![digit_char(5)]);
        }
        "5"
    } else if d == 6 {
        proof {
            reveal_strlit("6");
            assert("6"@ =~= seq![digit_char(6)]);
        }
        "6"
    } else if d == 7 {
        proof {
            reveal_strlit("7");
            assert("7"@ =~= seq![digit_char(7)]);
        }
        "7"
    } else if d == 8 {
        proof {
            reveal_strlit("8");
            assert("8"@ =~= seq![digit_char(8)]);
        }
        "8"
    } else {
        proof {
            reveal_strlit("9");
            assert("9"@ =~= seq![digit_char(9)]);
        }
        "9"
    }
}

fn two_digit(v: u64) -> (r: String)
    requires
        v < 100,
    ensures
        r@ == two_digit_chars(v as int),
{
    let mut s = String::from_str(digit_str(v / 10));
    s.append(digit_str(v % 10));
    proof {
        assert(s@ =~= two_digit_chars(v as int));
    }
    s
}

/// Renders the time of day of `ts` as `HH:MM:SS`.
pub fn format_hms(ts: i64) -> (r: String)
    requires
        ts >= 0,
    ensures
        r@ == hms_chars(ts as int),
{
    let t = ts as u64;
    let sec_of_day = t % 86400;
    let mut s = two_digit(sec_of_day / 3600);
    s.append(":");
    let m = two_digit((sec_of_day % 3600) / 60);
    s.append(m.as_str());
    s.append(":");
    let sec = two_digit(sec_of_day % 60);
    s.append(sec.as_str());
    proof {
        assert(s@ =~= hms_chars(ts as int));
    }
    s
}

/// One line of a crash log: `HH:MM:SS | text` and a newline.
pub fn render_log_line(ts: i64, text: &str) -> (r: String)
    requires
        ts >= 0,
    ensures
        r@ == line_chars(ts as int, text@),
{
    let mut s = format_hms(ts);
    s.append(" | ");
    s.append(text);
    s.append("\n");
    proof {
        assert(s@ =~= line_chars(ts as int, text@));
    }
    s
}

/// The text `%Y-%m-%d_%H:%M:%S` of the launch time, a function of the
/// timestamp alone.
pub uninterp spec fn launch_stamp_chars(ts: i64) -> Seq<char>;

/// Relies on chrono's `DateTime<Utc>` formatting with the pattern
/// `%Y-%m-%d_%H:%M:%S`: the rendered text depends on the timestamp alone.
#[verifier::external_body]
fn format_launch_stamp(ts: i64) -> (r: String)
    ensures
        r@ == launch_stamp_chars(ts),
{
    let stamp = match chrono::DateTime::<chrono::Utc>::from_timestamp(ts, 0) {
        Some(dt) => dt,
        None => chrono::DateTime::<chrono::Utc>::UNIX_EPOCH,
    };
    format!("{}", stamp.format("%Y-%m-%d_%H:%M:%S"))
}

/// The per-attempt crash folder: `{root}/{name}-{launch stamp}`.
pub open spec fn crash_folder_chars(root: Seq<char>, name: Seq<char>, ts: i64) -> Seq<char> {
    root + "/"@ + name + "-"@ + launch_stamp_chars(ts)
}

/// Builds the crash-folder path for the attempt of `name` launched at
/// `ts`, under the crash-folder root.
pub fn crash_folder_path(root: &str, name: &str, ts: i64) -> (r: String)
    ensures
        r@ == crash_folder_chars(root@, name@, ts),
{
    let mut s = root.to_owned();
    s.append("/");
    s.append(name);
    s.append("-");
    let stamp = format_launch_stamp(ts);
    s.append(stamp.as_str());
    proof {
        assert(s@ =~= crash_folder_chars(root@, name@, ts));
    }
    s
}

/// Where a failed attempt's stdout history is flushed.
pub fn stdout_file_path(folder: &str) -> (r: String)
    ensures
        r@ == folder@ + "/stdout.txt"@,
{
    let mut s = folder.to_owned();
    s.append("/stdout.txt");
    s
}

/// Where an attempt's stderr lines are appended as they arrive.
pub fn stderr_file_path(folder: &str) -> (r: String)
    ensures
        r@ == folder@ + "/stderr.txt"@,
{
    let mut s = folder.to_owned();
    s.append("/stderr.txt");
    s
}

} // verus!
