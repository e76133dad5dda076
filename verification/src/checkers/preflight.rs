//! The preflight checker: runs a command and compares its exit code.

use vstd::prelude::*;
use crate::json::{JsonNumber, JsonValue, json_as_i64, json_as_str, json_as_u64, json_field,
    json_string_items, spec_number_from_i64};
use crate::models::check_result::{CheckStatus, classify, spec_classify};
use vstd::utf8::{decode_utf8, valid_utf8};
use crate::text::{decimal, int_decimal, spec_trim, trim, utf8_lossy, utf8_lossy_of};
use super::{CheckOutput, ConfigError, is_invalid_config, object_view, or_default};

verus! {

/// A command check: what to run and what counts as healthy.
#[derive(Debug)]
pub struct PreflightChecker {
    pub command: String,
    pub args: Vec<String>,
    pub expected_exit_code: i32,
    pub timeout_ms: u64,
    pub degraded_ms: Option<u64>,
}

/// How running the command went.
#[derive(Debug)]
pub enum CommandOutcome {
    /// The command did not finish within the timeout.
    TimedOut,
    /// The command could not be run; the error's text.
    Failed(String),
    /// The command finished: its exit code (none where a signal ended it)
    /// and what it wrote.
    Finished { exit_code: Option<i32>, stdout: Vec<u8>, stderr: Vec<u8> },
}

/// The message for a configuration without a command.
pub open spec fn preflight_missing_command() -> Seq<char> {
    "preflight checker requires 'command'"@
}

/// The checker that a configuration describes, where it holds a command:
/// the string arguments, the expected exit code (0 by default, kept to its
/// low 32 bits), the timeout (30 000 ms by default) and the optional
/// degraded threshold.
pub open spec fn preflight_checker_matches(c: PreflightChecker, config: JsonValue, command: Seq<char>) -> bool {
    &&& c.command@ == command
    &&& c.args.deep_view() == json_string_items(json_field(config, "args"@))
    &&& c.expected_exit_code == (or_default(json_as_i64(json_field(config, "expected_exit_code"@)), 0i64) as i32)
    &&& c.timeout_ms == or_default(json_as_u64(json_field(config, "timeout_ms"@)), 30000u64)
    &&& c.degraded_ms == json_as_u64(json_field(config, "degraded_ms"@))
}

/// A configuration's command is used as given and only its string
/// arguments are kept, in order; its expected exit code, where it is an
/// integer, is kept to 32 bits, and is 0 otherwise; its timeout is the given
/// integer or 30 000 ms; a configuration without a command is refused with
/// the message naming `command`.
pub proof fn lemma_preflight_config_fields(c: PreflightChecker, config: JsonValue, command: Seq<char>)
    requires
        preflight_checker_matches(c, config, command),
    ensures
        c.command@ == command,
        c.args.deep_view() == json_string_items(json_field(config, "args"@)),
        forall|v: i64| json_as_i64(json_field(config, "expected_exit_code"@)) == Some(v) ==> c.expected_exit_code
            == v as i32,
        json_as_i64(json_field(config, "expected_exit_code"@)) is None ==> c.expected_exit_code == 0,
        forall|t: u64|
            json_field(config, "timeout_ms"@) == JsonValue::Number(JsonNumber::PosInt(t)) ==> c.timeout_ms == t,
        json_as_u64(json_field(config, "timeout_ms"@)) is None ==> c.timeout_ms == 30000,
        preflight_missing_command() == "preflight checker requires 'command'"@,
{
}

/// A finished command without an exit code is judged as exit code -1; one
/// with a code, by that code.
pub proof fn lemma_effective_exit_code(code: i32)
    ensures
        effective_exit_code(None) == -1,
        effective_exit_code(Some(code)) == code,
{
}

/// The exit code that a finished command is judged by: -1 where it has none.
pub open spec fn effective_exit_code(exit_code: Option<i32>) -> i32 {
    or_default(exit_code, -1i32)
}

/// The message for an unexpected exit code.
pub open spec fn exit_code_message(code: i32, expected: i32) -> Seq<char> {
    "Exit code "@ + int_decimal(code as int) + ", expected "@ + int_decimal(expected as int)
}

/// Whether a detail holds the exit code and the trimmed output of a command;
/// output that is valid UTF-8 is shown as its decoded text.
pub open spec fn preflight_detail(detail: JsonValue, code: i32, stdout: Seq<u8>, stderr: Seq<u8>) -> bool {
    object_view(detail) matches Some(m) && {
        &&& m.len() == 3
        &&& m[0].0 == "exit_code"@
        &&& m[0].1 == JsonValue::Number(spec_number_from_i64(code as i64))
        &&& m[1].0 == "stdout"@
        &&& json_as_str(m[1].1) == Some(spec_trim(utf8_lossy_of(stdout)))
        &&& m[2].0 == "stderr"@
        &&& json_as_str(m[2].1) == Some(spec_trim(utf8_lossy_of(stderr)))
        &&& valid_utf8(stdout) ==> json_as_str(m[1].1) == Some(spec_trim(decode_utf8(stdout)))
        &&& valid_utf8(stderr) ==> json_as_str(m[2].1) == Some(spec_trim(decode_utf8(stderr)))
    }
}

impl PreflightChecker {
    /// Reads a preflight checker from its configuration. Fails exactly where
    /// `command` is missing or not a string.
    pub fn from_config(config: &JsonValue) -> (res: Result<PreflightChecker, ConfigError>)
        ensures
            match json_as_str(json_field(*config, "command"@)) {
                None => is_invalid_config(res, preflight_missing_command()),
                Some(command) => res matches Ok(c) && preflight_checker_matches(c, *config, command),
            },
            res matches Ok(c) ==> c.degraded_ms == json_as_u64(json_field(*config, "degraded_ms"@))
                && c.timeout_ms == or_default(json_as_u64(json_field(*config, "timeout_ms"@)), 30000u64)
                && c.args.deep_view() == json_string_items(json_field(*config, "args"@)),
    {
        let command = match config.str_member(&String::from_str("command")) {
            Some(c) => c,
            None => {
                return Err(
                    ConfigError::InvalidConfig(String::from_str("preflight checker requires 'command'")),
                );
            },
        };
        let args = config.string_items_member(&String::from_str("args"));
        let expected_exit_code = match config.i64_member(&String::from_str("expected_exit_code")) {
            Some(v) => v as i32,
            None => 0i32,
        };
        let timeout_ms = match config.u64_member(&String::from_str("timeout_ms")) {
            Some(v) => v,
            None => 30000u64,
        };
        let degraded_ms = config.u64_member(&String::from_str("degraded_ms"));
        Ok(PreflightChecker { command, args, expected_exit_code, timeout_ms, degraded_ms })
    }

    /// The outcome of a check, given how running the command went and the
    /// time it took. A timeout or a failure to run is `Down` with a message;
    /// a finished command is classified by its exit code, with the code and
    /// its trimmed output as detail, and a message where the code is not the
    /// expected one.
    pub fn evaluate(&self, outcome: CommandOutcome, elapsed_ms: u64) -> (res: CheckOutput)
        ensures
            res.response_ms == Some(elapsed_ms),
            match outcome {
                CommandOutcome::TimedOut => {
                    &&& res.status == CheckStatus::Down
                    &&& res.detail is None
                    &&& res.error_message matches Some(m) && m@ == "Command timed out"@
                },
                CommandOutcome::Failed(e) => {
                    &&& res.status == CheckStatus::Down
                    &&& res.detail is None
                    &&& res.error_message matches Some(m) && m@ == e@
                },
                CommandOutcome::Finished { exit_code, stdout, stderr } => {
                    let code = effective_exit_code(exit_code);
                    &&& res.status == spec_classify(code == self.expected_exit_code, self.degraded_ms, elapsed_ms)
                    &&& res.detail matches Some(d) && preflight_detail(d, code, stdout@, stderr@)
                    &&& if code != self.expected_exit_code {
                        res.error_message matches Some(m) && m@ == exit_code_message(code, self.expected_exit_code)
                    } else {
                        res.error_message is None
                    }
                    &&& res.detail matches Some(d) && {
                        &&& json_field(d, "exit_code"@) == JsonValue::Number(spec_number_from_i64(code as i64))
                        &&& json_as_str(json_field(d, "stdout"@)) == Some(spec_trim(utf8_lossy_of(stdout@)))
                        &&& json_as_str(json_field(d, "stderr"@)) == Some(spec_trim(utf8_lossy_of(stderr@)))
                    }
                    &&& (res.error_message is Some) == (code != self.expected_exit_code)
                    &&& code != self.expected_exit_code ==> (res.error_message matches Some(m) && m@ == "Exit code "@
                        + int_decimal(code as int) + ", expected "@ + int_decimal(self.expected_exit_code as int))
                },
            },
    {
        match outcome {
            CommandOutcome::TimedOut => CheckOutput {
                status: CheckStatus::Down,
                response_ms: Some(elapsed_ms),
                detail: None,
                error_message: Some(String::from_str("Command timed out")),
            },
            CommandOutcome::Failed(e) => CheckOutput {
                status: CheckStatus::Down,
                response_ms: Some(elapsed_ms),
                detail: None,
                error_message: Some(e),
            },
            CommandOutcome::Finished { exit_code, stdout, stderr } => {
                let code: i32 = match exit_code {
                    Some(c) => c,
                    None => -1i32,
                };
                let out_text = utf8_lossy(stdout.as_slice());
                let err_text = utf8_lossy(stderr.as_slice());
                let status = classify(code == self.expected_exit_code, self.degraded_ms, elapsed_ms);
                let mut entries: Vec<(String, JsonValue)> = Vec::new();
                entries.push((String::from_str("exit_code"), JsonValue::Number(JsonNumber::from_i64(code as i64))));
                entries.push((String::from_str("stdout"), JsonValue::String(trim(out_text.as_str()))));
                entries.push((String::from_str("stderr"), JsonValue::String(trim(err_text.as_str()))));
                proof {
                    reveal_strlit("exit_code");
                    reveal_strlit("stdout");
                    reveal_strlit("stderr");
                    assert("stdout"@[0] != "exit_code"@[0]);
                    assert("stderr"@[0] != "exit_code"@[0]);
                    assert("stderr"@[3] != "stdout"@[3]);
                    crate::json::lemma_field_of_first_member(entries, "exit_code"@, 0);
                    crate::json::lemma_field_of_first_member(entries, "stdout"@, 1);
                    crate::json::lemma_field_of_first_member(entries, "stderr"@, 2);
                }
                let detail = JsonValue::Object(entries);
                let error_message = if code != self.expected_exit_code {
                    let mut m = String::from_str("Exit code ");
                    m.append(decimal(code as i64).as_str());
                    m.append(", expected ");
                    m.append(decimal(self.expected_exit_code as i64).as_str());
                    Some(m)
                } else {
                    None
                };
                CheckOutput { status, response_ms: Some(elapsed_ms), detail: Some(detail), error_message }
            },
        }
    }
}

} // verus!
