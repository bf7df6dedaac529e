//! The captured result of running one command against one binary.

use vstd::prelude::*;
use vstd::utf8::{decode_utf8, valid_utf8};
use crate::config::Command;
use crate::env::EnvVars;

verus! {

/// Why a command could not be run to a result.
#[derive(Clone, Debug)]
pub enum ExecutionError {
    /// The binary could not be started.
    SpawnError(String),
    /// The output was not valid UTF-8 text.
    DecodeError,
    /// The process ended without an exit code.
    ProcessError,
}

/// What one run of a command against one binary produced.
pub struct CommandExecution {
    pub stdout: String,
    pub stderr: String,
    pub retcode: i32,
    /// Wall-clock time in milliseconds; never compared.
    pub duration: u128,
    pub log_file: Option<String>,
    pub env: Option<EnvVars>,
    pub binary_realpath: String,
}

/// The text of an optional string.
pub open spec fn opt_text(o: Option<String>) -> Option<Seq<char>> {
    match o {
        Some(s) => Some(s@),
        None => None,
    }
}

/// The mapping of optional overrides.
pub open spec fn opt_env(o: Option<EnvVars>) -> Option<Map<Seq<char>, Seq<char>>> {
    match o {
        Some(e) => Some(e@),
        None => None,
    }
}

impl CommandExecution {
    /// Equality of two executions: every field but the duration.
    pub open spec fn same_spec(&self, o: &CommandExecution) -> bool {
        &&& self.stdout@ == o.stdout@
        &&& self.stderr@ == o.stderr@
        &&& self.retcode == o.retcode
        &&& opt_text(self.log_file) == opt_text(o.log_file)
        &&& opt_env(self.env) == opt_env(o.env)
        &&& self.binary_realpath@ == o.binary_realpath@
    }

    /// The two executions behaved alike: same output and exit code.
    pub open spec fn same_behavior(&self, o: &CommandExecution) -> bool {
        &&& self.stdout@ == o.stdout@
        &&& self.stderr@ == o.stderr@
        &&& self.retcode == o.retcode
    }
}

fn same_opt_text(a: &Option<String>, b: &Option<String>) -> (r: bool)
    ensures
        r == (opt_text(*a) == opt_text(*b)),
{
    match (a, b) {
        (Some(x), Some(y)) => *x == *y,
        (None, None) => true,
        _ => false,
    }
}

fn same_opt_env(a: &Option<EnvVars>, b: &Option<EnvVars>) -> (r: bool)
    ensures
        r == (opt_env(*a) == opt_env(*b)),
{
    match (a, b) {
        (Some(x), Some(y)) => x.same_as(y),
        (None, None) => true,
        _ => false,
    }
}

impl PartialEq for CommandExecution {
    fn eq(&self, other: &CommandExecution) -> (r: bool) {
        self.stdout == other.stdout && self.stderr == other.stderr && self.retcode
            == other.retcode && same_opt_text(&self.log_file, &other.log_file) && same_opt_env(
            &self.env,
            &other.env,
        ) && self.binary_realpath == other.binary_realpath
    }
}

impl vstd::std_specs::cmp::PartialEqSpecImpl for CommandExecution {
    open spec fn obeys_eq_spec() -> bool {
        true
    }

    open spec fn eq_spec(&self, o: &CommandExecution) -> bool {
        self.same_spec(o)
    }
}

/// Relies on `String::from_utf8`: the decoded text when the bytes are valid
/// UTF-8, and an error otherwise.
#[verifier::external_body]
fn text_from_utf8(b: Vec<u8>) -> (r: Option<String>)
    ensures
        r is Some <==> valid_utf8(b@),
        r matches Some(s) ==> s@ == decode_utf8(b@),
{
    String::from_utf8(b).ok()
}

fn copy_env(e: &Option<EnvVars>) -> (r: Option<EnvVars>)
    ensures
        opt_env(r) == opt_env(*e),
{
    match e {
        Some(v) => Some(v.duplicate()),
        None => None,
    }
}

impl CommandExecution {
    /// Builds the execution record of a finished run of `cmd` against
    /// `binary` from its captured output and exit code.
    pub fn from_output(
        binary: &String,
        cmd: &Command,
        stdout: Vec<u8>,
        stderr: Vec<u8>,
        code: Option<i32>,
        duration: u128,
    ) -> (r: Result<CommandExecution, ExecutionError>)
        ensures
            (!valid_utf8(stdout@) || !valid_utf8(stderr@)) <==> (r matches Err(
                ExecutionError::DecodeError,
            )),
            (valid_utf8(stdout@) && valid_utf8(stderr@) && code is None) <==> (r matches Err(
                ExecutionError::ProcessError,
            )),
            valid_utf8(stdout@) && valid_utf8(stderr@) && code is Some ==> (r matches Ok(ce) && {
                &&& ce.stdout@ == decode_utf8(stdout@)
                &&& ce.stderr@ == decode_utf8(stderr@)
                &&& ce.retcode == code.unwrap()
                &&& ce.duration == duration
                &&& ce.log_file is None
                &&& opt_env(ce.env) == opt_env(cmd.env)
                &&& ce.binary_realpath@ == binary@
            }),
    {
        let out = match text_from_utf8(stdout) {
            Some(s) => s,
            None => {
                return Err(ExecutionError::DecodeError);
            },
        };
        let err = match text_from_utf8(stderr) {
            Some(s) => s,
            None => {
                return Err(ExecutionError::DecodeError);
            },
        };
        let retcode = match code {
            Some(c) => c,
            None => {
                return Err(ExecutionError::ProcessError);
            },
        };
        Ok(
            CommandExecution {
                stdout: out,
                stderr: err,
                retcode,
                duration,
                log_file: None,
                env: copy_env(&cmd.env),
                binary_realpath: binary.clone(),
            },
        )
    }
}

/// Executions that differ only in their duration are equal.
pub proof fn lemma_duration_ignored(a: CommandExecution, b: CommandExecution)
    requires
        a.stdout == b.stdout,
        a.stderr == b.stderr,
        a.retcode == b.retcode,
        a.log_file == b.log_file,
        a.env == b.env,
        a.binary_realpath == b.binary_realpath,
    ensures
        a.same_spec(&b),
{
}

} // verus!
