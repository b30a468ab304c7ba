//! Static configuration for one supervised command: the restart mode, the
//! stdout history size, and the optional crash-escalation strategy, together
//! with the parsing rules that build those values from configuration text.

use vstd::prelude::*;
use vstd::string::StrSliceExecFns;
use vstd::string::StringExecFns;

use crate::text::is_i64_string;
use crate::text::int_val;
use crate::text::last_index_of;
use crate::text::lemma_last_index_of;
use crate::text::parse_i64;
use crate::text::rfind_char;
use crate::text::str_eq;

verus! {

/// Number of stdout lines retained when the configuration names no other.
pub const DEFAULT_HISTORY: usize = 1000;

/// An error met while building a descriptor: the field that could not be
/// read, and the text it was read from.
#[derive(Debug)]
pub enum ConfigError {
    BadCommandConfig(String, String),
}

/// How the supervision task reacts to an attempt's outcome.
#[derive(Debug, Clone, Copy, PartialEq, Eq, Structural)]
pub enum RestartMode {
    /// Run once, never repeat.
    RunOnce,
    /// Run once, and hold back later commands until it finishes.
    RunOnceAndWait,
    /// Repeat until an attempt exits successfully.
    RunUntilSuccess,
    /// Repeat until success, holding back later commands meanwhile.
    RunUntilSuccessAndWait,
    /// Restart no matter how an attempt ends.
    KeepAlive,
}

/// The restart mode a configuration names, if it names one of the five.
pub open spec fn mode_of_name(s: Seq<char>) -> Option<RestartMode> {
    if s == "run once"@ {
        Some(RestartMode::RunOnce)
    } else if s == "run once and wait"@ {
        Some(RestartMode::RunOnceAndWait)
    } else if s == "run until success"@ {
        Some(RestartMode::RunUntilSuccess)
    } else if s == "run until success and wait"@ {
        Some(RestartMode::RunUntilSuccessAndWait)
    } else if s == "keep alive"@ {
        Some(RestartMode::KeepAlive)
    } else {
        None
    }
}

impl RestartMode {
    /// The "...AndWait" modes are run inline by the launcher: they delay
    /// starting the commands that come later in the list.
    pub fn blocks_launcher(&self) -> (r: bool)
        ensures
            r == (self is RunOnceAndWait || self is RunUntilSuccessAndWait),
    {
        match self {
            RestartMode::RunOnceAndWait => true,
            RestartMode::RunUntilSuccessAndWait => true,
            _ => false,
        }
    }

    /// Reads one of the five mode names used in configuration files.
    pub fn from_name(s: &str) -> (r: Option<RestartMode>)
        ensures
            r == mode_of_name(s@),
    {
        if str_eq(s, "run once") {
            Some(RestartMode::RunOnce)
        } else if str_eq(s, "run once and wait") {
            Some(RestartMode::RunOnceAndWait)
        } else if str_eq(s, "run until success") {
            Some(RestartMode::RunUntilSuccess)
        } else if str_eq(s, "run until success and wait") {
            Some(RestartMode::RunUntilSuccessAndWait)
        } else if str_eq(s, "keep alive") {
            Some(RestartMode::KeepAlive)
        } else {
            None
        }
    }
}

/// What to do about a command that keeps crashing: when more than `times`
/// crashes fall inside a sliding window of `period_secs` seconds, run the
/// remedies; with no remedy configured, abandon the command.
pub struct BackupStrategy {
    pub times: u64,
    pub period_secs: i64,
    pub script: Option<String>,
    pub safe_mode: Option<Vec<String>>,
}

/// Mathematical image of a [`BackupStrategy`].
pub struct StrategyView {
    pub times: u64,
    pub period_secs: i64,
    pub script: Option<Seq<char>>,
    pub safe_mode: Option<Seq<Seq<char>>>,
}

impl View for BackupStrategy {
    type V = StrategyView;

    open spec fn view(&self) -> StrategyView {
        StrategyView {
            times: self.times,
            period_secs: self.period_secs,
            script: match self.script {
                Some(s) => Some(s@),
                None => None,
            },
            safe_mode: match self.safe_mode {
                Some(v) => Some(v.deep_view()),
                None => None,
            },
        }
    }
}

impl StrategyView {
    /// A strategy with neither a script nor safe-mode arguments has no
    /// remedy: crossing the threshold abandons the command.
    pub open spec fn has_remedy(&self) -> bool {
        self.script is Some || self.safe_mode is Some
    }
}

impl BackupStrategy {
    pub fn has_remedy(&self) -> (r: bool)
        ensures
            r == self@.has_remedy(),
    {
        self.script.is_some() || self.safe_mode.is_some()
    }
}

/// Static, immutable configuration for one supervised command.
pub struct CommandDescriptor {
    pub command: String,
    pub args: Vec<String>,
    pub stdout_history: usize,
    pub mode: RestartMode,
    pub name: String,
    pub backup_strategy: Option<BackupStrategy>,
}

/// Mathematical image of a [`CommandDescriptor`].
pub struct DescriptorView {
    pub command: Seq<char>,
    pub args: Seq<Seq<char>>,
    pub stdout_history: nat,
    pub mode: RestartMode,
    pub name: Seq<char>,
    pub backup_strategy: Option<StrategyView>,
}

impl View for CommandDescriptor {
    type V = DescriptorView;

    open spec fn view(&self) -> DescriptorView {
        DescriptorView {
            command: self.command@,
            args: self.args.deep_view(),
            stdout_history: self.stdout_history as nat,
            mode: self.mode,
            name: self.name@,
            backup_strategy: match self.backup_strategy {
                Some(b) => Some(b@),
                None => None,
            },
        }
    }
}

/// The one-shot descriptor that runs an escalation script: the script with
/// no arguments, run once inline, with no strategy of its own.
pub open spec fn script_remedy(d: DescriptorView) -> DescriptorView
    recommends
        d.backup_strategy matches Some(st) && st.script is Some,
{
    DescriptorView {
        command: d.backup_strategy->0.script->0,
        args: Seq::empty(),
        stdout_history: d.stdout_history,
        mode: RestartMode::RunOnceAndWait,
        name: d.backup_strategy->0.script->0,
        backup_strategy: None,
    }
}

/// The one-shot descriptor that relaunches the command with its safe-mode
/// arguments substituted.
pub open spec fn safe_mode_remedy(d: DescriptorView) -> DescriptorView
    recommends
        d.backup_strategy matches Some(st) && st.safe_mode is Some,
{
    DescriptorView {
        command: d.command,
        args: d.backup_strategy->0.safe_mode->0,
        stdout_history: d.stdout_history,
        mode: RestartMode::RunOnceAndWait,
        name: d.name,
        backup_strategy: None,
    }
}

/// Copies a list of argument strings.
pub fn clone_string_vec(v: &Vec<String>) -> (r: Vec<String>)
    ensures
        r.deep_view() == v.deep_view(),
{
    let mut r: Vec<String> = Vec::new();
    let mut i: usize = 0;
    while i < v.len()
        invariant
            0 <= i <= v.len(),
            r.deep_view() =~= v.deep_view().take(i as int),
        decreases v.len() - i,
    {
        let c = v[i].clone();
        let ghost pre = r@;
        let ghost predeep = r.deep_view();
        r.push(c);
        proof {
            assert(predeep.len() == pre.len());
            assert(pre.len() == i as int);
            assert(r@ == pre.push(c));
            assert forall|j: int| 0 <= j < r@.len() implies r.deep_view()[j] == v.deep_view().take(
                i as int + 1,
            )[j] by {
                assert(r.deep_view()[j] == r@[j].deep_view());
                if j < i as int {
                    assert(r@[j] == pre[j]);
                    assert(predeep[j] == pre[j].deep_view());
                    assert(predeep[j] == v.deep_view().take(i as int)[j]);
                } else {
                    assert(r@[j] == c);
                    assert(c == v@[i as int]);
                }
            }
            assert(r.deep_view() =~= v.deep_view().take(i as int + 1));
        }
        i += 1;
    }
    proof {
        assert(r.deep_view() =~= v.deep_view());
    }
    r
}

/// Copies a strategy, preserving its mathematical image.
pub fn clone_strategy(b: &BackupStrategy) -> (r: BackupStrategy)
    ensures
        r@ == b@,
{
    BackupStrategy {
        times: b.times,
        period_secs: b.period_secs,
        script: match &b.script {
            Some(s) => Some(s.clone()),
            None => None,
        },
        safe_mode: match &b.safe_mode {
            Some(v) => Some(clone_string_vec(v)),
            None => None,
        },
    }
}

impl CommandDescriptor {
    /// Copies a descriptor, preserving its mathematical image.
    pub fn duplicate(&self) -> (r: CommandDescriptor)
        ensures
            r@ == self@,
    {
        CommandDescriptor {
            command: self.command.clone(),
            args: clone_string_vec(&self.args),
            stdout_history: self.stdout_history,
            mode: self.mode,
            name: self.name.clone(),
            backup_strategy: match &self.backup_strategy {
                Some(b) => Some(clone_strategy(b)),
                None => None,
            },
        }
    }

    /// Builds the one-shot descriptor for this command's escalation script.
    pub fn script_descriptor(&self) -> (r: CommandDescriptor)
        requires
            self@.backup_strategy matches Some(st) && st.script is Some,
        ensures
            r@ == script_remedy(self@),
    {
        let st = match &self.backup_strategy {
            Some(st) => st,
            None => vstd::pervasive::unreached(),
        };
        let script = match &st.script {
            Some(s) => s.clone(),
            None => vstd::pervasive::unreached(),
        };
        let r = CommandDescriptor {
            command: script.clone(),
            args: Vec::new(),
            stdout_history: self.stdout_history,
            mode: RestartMode::RunOnceAndWait,
            name: script,
            backup_strategy: None,
        };
        proof {
            assert(r@.args =~= script_remedy(self@).args);
        }
        r
    }

    /// Builds the one-shot descriptor that relaunches this command with its
    /// safe-mode arguments.
    pub fn safe_mode_descriptor(&self) -> (r: CommandDescriptor)
        requires
            self@.backup_strategy matches Some(st) && st.safe_mode is Some,
        ensures
            r@ == safe_mode_remedy(self@),
    {
        let st = match &self.backup_strategy {
            Some(st) => st,
            None => vstd::pervasive::unreached(),
        };
        let args = match &st.safe_mode {
            Some(v) => clone_string_vec(v),
            None => vstd::pervasive::unreached(),
        };
        CommandDescriptor {
            command: self.command.clone(),
            args,
            stdout_history: self.stdout_history,
            mode: RestartMode::RunOnceAndWait,
            name: self.name.clone(),
            backup_strategy: None,
        }
    }
}

// ---------------------------------------------------------------------------
// Period strings: a signed count followed by a single unit letter.
// ---------------------------------------------------------------------------

/// The five period unit letters.
pub open spec fn is_unit_char(c: char) -> bool {
    c == 's' || c == 'm' || c == 'h' || c == 'd' || c == 'w'
}

/// Seconds denoted by one unit letter.
pub open spec fn unit_secs(c: char) -> int {
    if c == 's' {
        1
    } else if c == 'm' {
        60
    } else if c == 'h' {
        3600
    } else if c == 'd' {
        86400
    } else if c == 'w' {
        604800
    } else {
        0
    }
}

/// A well-formed period string: an integer count, then a unit letter, the
/// whole denoting a number of seconds that fits in an `i64`.
pub open spec fn is_period_string(s: Seq<char>) -> bool {
    &&& s.len() >= 1
    &&& is_unit_char(s.last())
    &&& is_i64_string(s.drop_last())
    &&& i64::MIN <= int_val(s.drop_last()) * unit_secs(s.last()) <= i64::MAX
}

/// The number of seconds a well-formed period string denotes.
pub open spec fn period_secs(s: Seq<char>) -> int {
    int_val(s.drop_last()) * unit_secs(s.last())
}

/// Which field a rejected period string is reported under: the unit suffix
/// when only the suffix is wrong, the period itself otherwise.
pub open spec fn period_error_field(s: Seq<char>) -> Seq<char> {
    if s.len() >= 1 && is_i64_string(s.drop_last()) && !is_unit_char(s.last()) {
        "backup strategy duration"@
    } else {
        "backup strategy period"@
    }
}

/// Reads a period string such as `"30s"` or `"125w"` into whole seconds.
pub fn parse_period(s: &str) -> (r: Result<i64, ConfigError>)
    ensures
        match r {
            Ok(v) => is_period_string(s@) && v == period_secs(s@),
            Err(e) => {
                &&& !is_period_string(s@)
                &&& e matches ConfigError::BadCommandConfig(field, ctx) && field@
                    == period_error_field(s@) && ctx@ == s@
            },
        },
{
    let n = s.unicode_len();
    if n == 0 {
        return Err(
            ConfigError::BadCommandConfig(
                String::from_str("backup strategy period"),
                s.to_owned(),
            ),
        );
    }
    let unit = s.get_char(n - 1);
    let number_part = s.substring_char(0, n - 1);
    proof {
        assert(number_part@ =~= s@.drop_last());
    }
    let value = match parse_i64(number_part) {
        Some(v) => v,
        None => {
            return Err(
                ConfigError::BadCommandConfig(
                    String::from_str("backup strategy period"),
                    s.to_owned(),
                ),
            );
        },
    };
    let mult: i64 = if unit == 's' {
        1
    } else if unit == 'm' {
        60
    } else if unit == 'h' {
        3600
    } else if unit == 'd' {
        86400
    } else if unit == 'w' {
        604800
    } else {
        return Err(
            ConfigError::BadCommandConfig(
                String::from_str("backup strategy duration"),
                s.to_owned(),
            ),
        );
    };
    match value.checked_mul(mult) {
        Some(v) => Ok(v),
        None => Err(
            ConfigError::BadCommandConfig(
                String::from_str("backup strategy period"),
                s.to_owned(),
            ),
        ),
    }
}

// ---------------------------------------------------------------------------
// Deriving a command's display name from its executable path.
// ---------------------------------------------------------------------------

/// `s` with its trailing path separators removed.
pub open spec fn strip_trailing_slashes(s: Seq<char>) -> Seq<char>
    decreases s.len(),
{
    if s.len() > 0 && s.last() == '/' {
        strip_trailing_slashes(s.drop_last())
    } else {
        s
    }
}

/// The final path component of `s`, with trailing separators ignored:
/// everything after the last remaining `/`.
pub open spec fn base_of(s: Seq<char>) -> Seq<char> {
    let t = strip_trailing_slashes(s);
    t.subrange(last_index_of(t, '/') + 1, t.len() as int)
}

/// A component that names no real file: empty, `.` or `..`.
pub open spec fn is_dot_component(b: Seq<char>) -> bool {
    ||| b.len() == 0
    ||| (b.len() == 1 && b[0] == '.')
    ||| (b.len() == 2 && b[0] == '.' && b[1] == '.')
}

/// The stem of the final path component: the part before the last `.`,
/// unless that dot starts the component.
pub open spec fn stem_of(s: Seq<char>) -> Seq<char> {
    let b = base_of(s);
    if last_index_of(b, '.') > 0 {
        b.take(last_index_of(b, '.'))
    } else {
        b
    }
}

/// A name can be derived only when the final path component, trailing
/// separators aside, names a real file.
pub open spec fn has_stem(s: Seq<char>) -> bool {
    !is_dot_component(base_of(s))
}

/// When every character from `end` on is a separator and the one before
/// `end` is not, stripping trailing separators keeps exactly `end`
/// characters.
proof fn lemma_strip_trailing_slashes(s: Seq<char>, end: int)
    requires
        0 <= end <= s.len(),
        forall|j: int| end <= j < s.len() ==> s[j] == '/',
        end > 0 ==> s[end - 1] != '/',
    ensures
        strip_trailing_slashes(s) == s.take(end),
    decreases s.len(),
{
    if s.len() > end {
        assert(s.last() == '/');
        let t = s.drop_last();
        assert(forall|j: int| end <= j < t.len() ==> t[j] == s[j]);
        if end > 0 {
            assert(t[end - 1] == s[end - 1]);
        }
        lemma_strip_trailing_slashes(t, end);
        assert(t.take(end) =~= s.take(end));
    } else {
        assert(s.take(end) =~= s);
    }
}

impl CommandDescriptor {
    /// Derives a command's display name from its executable path, failing
    /// loudly when the path has no file stem: when, trailing separators
    /// aside, its final component is empty, `.` or `..`.
    pub fn get_name(command: &str) -> (r: Result<String, ConfigError>)
        ensures
            match r {
                Ok(name) => has_stem(command@) && name@ == stem_of(command@),
                Err(e) => {
                    &&& !has_stem(command@)
                    &&& e matches ConfigError::BadCommandConfig(field, ctx) && field@
                        == "command"@ && ctx@ == command@
                },
            },
    {
        let n = command.unicode_len();
        // ignore trailing separators
        let mut end: usize = n;
        while end > 0 && command.get_char(end - 1) == '/'
            invariant
                0 <= end <= n,
                n == command@.len(),
                forall|j: int| end <= j < n ==> command@[j] == '/',
            decreases end,
        {
            end -= 1;
        }
        proof {
            lemma_strip_trailing_slashes(command@, end as int);
        }
        let trimmed = command.substring_char(0, end);
        proof {
            assert(trimmed@ =~= strip_trailing_slashes(command@));
            lemma_last_index_of(trimmed@, '/');
        }
        let start: usize = match rfind_char(trimmed, '/') {
            Some(j) => j + 1,
            None => 0,
        };
        let base = trimmed.substring_char(start, end);
        proof {
            assert(base@ =~= base_of(command@));
        }
        // a final component of `.` or `..`, or none at all, has no stem
        let base_len = end - start;
        let dot_component = if base_len == 0 {
            true
        } else if base_len == 1 {
            base.get_char(0) == '.'
        } else if base_len == 2 {
            base.get_char(0) == '.' && base.get_char(1) == '.'
        } else {
            false
        };
        if dot_component {
            return Err(
                ConfigError::BadCommandConfig(String::from_str("command"), command.to_owned()),
            );
        }
        proof {
            lemma_last_index_of(base@, '.');
        }
        let stem: &str = match rfind_char(base, '.') {
            Some(j) => {
                if j > 0 {
                    base.substring_char(0, j)
                } else {
                    base
                }
            },
            None => base,
        };
        proof {
            assert(stem@ =~= stem_of(command@));
        }
        Ok(stem.to_owned())
    }
}

} // verus!
