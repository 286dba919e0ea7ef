//! CLI command parsing: splits a terminal line into a command name and
//! positional arguments, and identifies the fixed command vocabulary.

use vstd::prelude::*;
use vstd::string::StrSliceExecFns;

verus! {

/// Maximum number of command arguments; excess tokens are ignored.
pub const MAX_ARGS: usize = 4;

/// Characters the terminal treats as whitespace.
pub open spec fn is_sep_char(c: char) -> bool {
    c == ' ' || c == '\t' || c == '\r' || c == '\n'
}

/// End of the token starting at `i`: the first position at or after `i`
/// holding a whitespace character, or `s.len()`.
pub open spec fn tok_end_chars(s: Seq<char>, i: int) -> int
    decreases s.len() - i,
{
    if i < 0 || i >= s.len() || is_sep_char(s[i]) {
        i
    } else {
        tok_end_chars(s, i + 1)
    }
}

/// The tokens of `s` from position `i` on: maximal runs of non-whitespace
/// characters, in order.
pub open spec fn tokens_from_chars(s: Seq<char>, i: int) -> Seq<Seq<char>>
    decreases s.len() - i,
{
    if i < 0 || i >= s.len() {
        Seq::empty()
    } else if is_sep_char(s[i]) {
        tokens_from_chars(s, i + 1)
    } else {
        let e = tok_end_chars(s, i);
        let next = if i < e <= s.len() { e } else { i + 1 };
        seq![s.subrange(i, next)] + tokens_from_chars(s, next)
    }
}

/// The whitespace-separated tokens of `s`.
pub open spec fn spec_tokens_chars(s: Seq<char>) -> Seq<Seq<char>> {
    tokens_from_chars(s, 0)
}

/// Where the end of a token lies, relative to its start.
pub proof fn lemma_tok_end_chars_bounds(s: Seq<char>, i: int)
    requires
        0 <= i <= s.len(),
    ensures
        i <= tok_end_chars(s, i) <= s.len(),
        i < s.len() && !is_sep_char(s[i]) ==> tok_end_chars(s, i) > i,
        forall|k: int| i <= k < tok_end_chars(s, i) ==> !is_sep_char(s[k]),
        tok_end_chars(s, i) < s.len() ==> is_sep_char(s[tok_end_chars(s, i)]),
    decreases s.len() - i,
{
    if i < s.len() && !is_sep_char(s[i]) {
        lemma_tok_end_chars_bounds(s, i + 1);
    }
}

/// Whether `c` is a space, tab, carriage return, or newline.
fn sep_char(c: char) -> (r: bool)
    ensures
        r == is_sep_char(c),
{
    c == ' ' || c == '\t' || c == '\r' || c == '\n'
}

/// Parsed command with arguments, borrowed out of the input line.
#[derive(Debug, Clone)]
pub struct Command<'a> {
    pub name: &'a str,
    pub args: Vec<&'a str>,
}

/// Parse a command line into a command name and arguments: the first
/// whitespace-separated token names the command, the following tokens (at
/// most `MAX_ARGS`; the rest are ignored, not an error) are its arguments. A
/// blank or all-whitespace line parses to nothing.
pub fn parse_command(line: &str) -> (r: Option<Command<'_>>)
    ensures
        ({
            let toks = spec_tokens_chars(line@);
            match r {
                None => toks.len() == 0,
                Some(cmd) => {
                    &&& toks.len() > 0
                    &&& cmd.name@ == toks[0]
                    &&& cmd.args@.len() == if toks.len() - 1 <= MAX_ARGS {
                        toks.len() - 1
                    } else {
                        MAX_ARGS as int
                    }
                    &&& forall|k: int| 0 <= k < cmd.args@.len() ==> cmd.args@[k]@ == toks[k + 1]
                },
            }
        }),
{
    let ghost all = spec_tokens_chars(line@);
    let n = line.unicode_len();
    let mut ranges: Vec<(usize, usize)> = Vec::new();
    let mut i: usize = 0;
    while i < n
        invariant
            i <= n,
            n == line@.len(),
            all == spec_tokens_chars(line@),
            ranges@.len() + tokens_from_chars(line@, i as int).len() == all.len(),
            forall|k: int| 0 <= k < ranges@.len()
                ==> 0 <= #[trigger] ranges@[k].0 <= ranges@[k].1 <= line@.len(),
            forall|k: int| 0 <= k < ranges@.len()
                ==> line@.subrange(#[trigger] ranges@[k].0 as int, ranges@[k].1 as int) == all[k],
            tokens_from_chars(line@, i as int) == all.skip(ranges@.len() as int),
        decreases n - i,
    {
        if sep_char(line.get_char(i)) {
            i = i + 1;
        } else {
            let ghost e = tok_end_chars(line@, i as int);
            proof {
                lemma_tok_end_chars_bounds(line@, i as int);
            }
            let mut j: usize = i;
            while j < n && !sep_char(line.get_char(j))
                invariant
                    i <= j <= n,
                    n == line@.len(),
                    e == tok_end_chars(line@, j as int),
                decreases n - j,
            {
                j = j + 1;
            }
            assert(e == j);
            proof {
                let rest = tokens_from_chars(line@, e);
                assert(tokens_from_chars(line@, i as int)
                    == seq![line@.subrange(i as int, e)] + rest);
                assert(tokens_from_chars(line@, i as int)[0] == line@.subrange(i as int, e));
                assert(all.skip(ranges@.len() as int)[0] == all[ranges@.len() as int]);
                assert((seq![line@.subrange(i as int, e)] + rest).skip(1) =~= rest);
                assert(all.skip(ranges@.len() as int).skip(1)
                    =~= all.skip(ranges@.len() as int + 1));
            }
            ranges.push((i, j));
            i = j;
        }
    }
    proof {
        assert(tokens_from_chars(line@, line@.len() as int) =~= Seq::<Seq<char>>::empty());
        assert(ranges@.len() == all.len());
    }
    if ranges.len() == 0 {
        return None;
    }
    let (n0, n1) = ranges[0];
    let name = line.substring_char(n0, n1);
    let mut args: Vec<&str> = Vec::new();
    let mut k: usize = 1;
    while k < ranges.len() && args.len() < MAX_ARGS
        invariant
            1 <= k <= ranges@.len(),
            ranges@.len() == all.len(),
            n == line@.len(),
            all == spec_tokens_chars(line@),
            forall|m: int| 0 <= m < ranges@.len()
                ==> 0 <= #[trigger] ranges@[m].0 <= ranges@[m].1 <= line@.len(),
            forall|m: int| 0 <= m < ranges@.len()
                ==> line@.subrange(#[trigger] ranges@[m].0 as int, ranges@[m].1 as int) == all[m],
            args@.len() == k - 1,
            args@.len() <= MAX_ARGS,
            forall|m: int| 0 <= m < args@.len() ==> args@[m]@ == all[m + 1],
        decreases ranges@.len() - k,
    {
        let (a0, a1) = ranges[k];
        args.push(line.substring_char(a0, a1));
        k = k + 1;
    }
    Some(Command { name, args })
}

/// Command response or result.
#[derive(Debug, Clone, Copy, PartialEq, Eq)]
pub enum CommandResult {
    Success,
    OkWithMessage(&'static str),
    Error(&'static str),
    Unknown,
}

/// Available commands.
#[derive(Debug, Clone, Copy, PartialEq, Eq, Structural)]
pub enum CliCommand {
    Help,
    Status,
    Reset,
    ImuRead,
    ImuStream,
    ImuStreamStop,
    ImuRange,
    ImuFilter,
    ImuStatus,
    LedOn,
    LedOff,
    LedColor,
    Unknown,
}

/// Which command a (case-sensitive) name denotes.
pub open spec fn spec_identify(name: Seq<char>) -> CliCommand {
    if name == "help"@ { CliCommand::Help }
    else if name == "status"@ { CliCommand::Status }
    else if name == "reset"@ { CliCommand::Reset }
    else if name == "imu_read"@ { CliCommand::ImuRead }
    else if name == "imu_stream"@ { CliCommand::ImuStream }
    else if name == "imu_stop"@ { CliCommand::ImuStreamStop }
    else if name == "imu_range"@ { CliCommand::ImuRange }
    else if name == "imu_filter"@ { CliCommand::ImuFilter }
    else if name == "imu_status"@ { CliCommand::ImuStatus }
    else if name == "led_on"@ { CliCommand::LedOn }
    else if name == "led_off"@ { CliCommand::LedOff }
    else if name == "led_color"@ { CliCommand::LedColor }
    else { CliCommand::Unknown }
}

/// Whether two strings hold the same characters.
fn str_eq(a: &str, b: &str) -> (r: bool)
    ensures
        r == (a@ == b@),
{
    let n = a.unicode_len();
    let m = b.unicode_len();
    if n != m {
        return false;
    }
    let mut i: usize = 0;
    while i < n
        invariant
            i <= n,
            n == a@.len(),
            n == b@.len(),
            forall|k: int| 0 <= k < i ==> a@[k] == b@[k],
        decreases n - i,
    {
        if a.get_char(i) != b.get_char(i) {
            return false;
        }
        i = i + 1;
    }
    proof {
        assert(a@ =~= b@);
    }
    true
}

/// Identify a command from its name.
pub fn identify_command(name: &str) -> (c: CliCommand)
    ensures
        c == spec_identify(name@),
{
    if str_eq(name, "help") { CliCommand::Help }
    else if str_eq(name, "status") { CliCommand::Status }
    else if str_eq(name, "reset") { CliCommand::Reset }
    else if str_eq(name, "imu_read") { CliCommand::ImuRead }
    else if str_eq(name, "imu_stream") { CliCommand::ImuStream }
    else if str_eq(name, "imu_stop") { CliCommand::ImuStreamStop }
    else if str_eq(name, "imu_range") { CliCommand::ImuRange }
    else if str_eq(name, "imu_filter") { CliCommand::ImuFilter }
    else if str_eq(name, "imu_status") { CliCommand::ImuStatus }
    else if str_eq(name, "led_on") { CliCommand::LedOn }
    else if str_eq(name, "led_off") { CliCommand::LedOff }
    else if str_eq(name, "led_color") { CliCommand::LedColor }
    else { CliCommand::Unknown }
}

/// Help text for all commands.
pub const HELP_TEXT: &'static str = "\
Available Commands:
  help                    - Show this help
  status                  - Show system status
  reset                   - Reset system

  IMU Commands:
  imu_read                - Read accelerometer once
  imu_stream <hz>         - Stream IMU data (10, 50, 100 Hz)
  imu_stop                - Stop IMU streaming
  imu_range <g>           - Set accel range (2, 4, 8, 16)
  imu_filter <hz>         - Set filter bandwidth
  imu_status              - Show IMU configuration

  LED Commands:
  led_on                  - Turn on LED (blue)
  led_off                 - Turn off LED
  led_color <r> <g> <b>   - Set LED color (0-255)
";

} // verus!
