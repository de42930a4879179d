//! One session: its configuration, its process and its log.

use crate::pi::config::{builtin_config, ConfigView, PiConfig};
use crate::text::opt_text;
use vstd::prelude::*;
use vstd::string::StringExecFns;

verus! {

/// What a session knows of the process started for it: the key under which
/// the driver keeps the operating-system handle, and whether the process has
/// been seen to exit.
#[derive(Clone, Copy, Debug)]
pub struct ProcessHandle {
    pub key: u64,
    pub exited: bool,
}

/// What a non-blocking liveness probe of a process reported.
#[derive(Clone, Copy, Debug)]
pub enum Liveness {
    /// The process has not exited yet.
    Alive,
    /// The process has exited.
    Exited,
    /// The probe itself failed; nothing is known.
    Unknown,
}

/// Why an operation on a session failed.
#[derive(Debug)]
pub enum PiError {
    /// No session is registered under the identifier, or no process was ever
    /// started for it.
    NotFound,
    /// The process could not be started; the text is the underlying cause.
    SpawnFailed(String),
}

/// The mathematical value of a [`PiError`].
pub ghost enum ErrorView {
    NotFound,
    SpawnFailed(Seq<char>),
}

impl View for PiError {
    type V = ErrorView;

    open spec fn view(&self) -> ErrorView {
        match self {
            PiError::NotFound => ErrorView::NotFound,
            PiError::SpawnFailed(cause) => ErrorView::SpawnFailed(cause@),
        }
    }
}

/// The text shown for an error.
pub open spec fn error_text(e: ErrorView) -> Seq<char> {
    match e {
        ErrorView::NotFound => "Session not found"@,
        ErrorView::SpawnFailed(cause) => cause,
    }
}

impl PiError {
    /// The text shown for this error.
    pub fn message(&self) -> (r: String)
        ensures
            r@ == error_text(self@),
    {
        match self {
            PiError::NotFound => String::from_str("Session not found"),
            PiError::SpawnFailed(cause) => cause.clone(),
        }
    }
}

/// One invocation of an executable, as the driver has to make it.
pub struct Invocation {
    /// Name of the executable, found on the search path.
    pub program: String,
    /// Arguments, in order.
    pub args: Vec<String>,
    /// Value of the credential variable to set for the child, if any.
    pub credential: Option<String>,
    /// Directory to run in; `None` keeps the driver's own.
    pub workdir: Option<String>,
    /// Whether standard output and standard error are captured as pipes.
    pub piped: bool,
}

/// The mathematical value of an [`Invocation`].
pub ghost struct InvocationView {
    pub program: Seq<char>,
    pub args: Seq<Seq<char>>,
    pub credential: Option<Seq<char>>,
    pub workdir: Option<Seq<char>>,
    pub piped: bool,
}

impl View for Invocation {
    type V = InvocationView;

    open spec fn view(&self) -> InvocationView {
        InvocationView {
            program: self.program@,
            args: self.args.deep_view(),
            credential: self.credential.deep_view(),
            workdir: self.workdir.deep_view(),
            piped: self.piped,
        }
    }
}

/// The invocation that runs `prompt` under `config` in `workdir`.
pub open spec fn session_command(
    config: ConfigView,
    prompt: Seq<char>,
    workdir: Seq<char>,
    credential: Option<Seq<char>>,
) -> InvocationView {
    InvocationView {
        program: "pi"@,
        args: seq![
            "--provider"@,
            config.provider,
            "--model"@,
            config.model,
            "--thinking"@,
            config.thinking,
            "-p"@,
            prompt,
        ],
        credential,
        workdir: Some(workdir),
        piped: true,
    }
}

/// The environment variable that carries the credential to the child.
pub fn credential_variable() -> (r: &'static str)
    ensures
        r@ == "GITHUB_TOKEN"@,
{
    "GITHUB_TOKEN"
}

/// One named unit of work: at most one process and the lines it has printed.
pub struct PiSession {
    pub id: String,
    pub config: PiConfig,
    pub process: Option<ProcessHandle>,
    pub output: Vec<String>,
}

/// The mathematical value of a [`PiSession`].
pub ghost struct SessionView {
    pub id: Seq<char>,
    pub config: ConfigView,
    pub process: Option<ProcessHandle>,
    pub output: Seq<Seq<char>>,
}

impl View for PiSession {
    type V = SessionView;

    open spec fn view(&self) -> SessionView {
        SessionView {
            id: self.id@,
            config: self.config@,
            process: self.process,
            output: self.output.deep_view(),
        }
    }
}

impl SessionView {
    /// A session as registration leaves it: no process, an empty log.
    pub open spec fn fresh(id: Seq<char>, config: ConfigView) -> SessionView {
        SessionView { id, config, process: None, output: Seq::empty() }
    }

    /// Whether a process was started and has not been seen to exit.
    pub open spec fn running(self) -> bool {
        match self.process {
            Some(h) => !h.exited,
            None => false,
        }
    }

    /// Whether the session's current process is the one kept under `key`.
    pub open spec fn owns(self, key: u64) -> bool {
        match self.process {
            Some(h) => h.key == key,
            None => false,
        }
    }

    /// The session after a process was started under `key`.
    pub open spec fn spawned(self, key: u64) -> SessionView {
        SessionView {
            id: self.id,
            config: self.config,
            process: Some(ProcessHandle { key, exited: false }),
            output: self.output,
        }
    }

    /// The session after the process under `key` was seen to exit.
    pub open spec fn reaped(self, key: u64) -> SessionView {
        if self.owns(key) {
            SessionView {
                id: self.id,
                config: self.config,
                process: Some(ProcessHandle { key, exited: true }),
                output: self.output,
            }
        } else {
            self
        }
    }

    /// The session after the process under `key` printed `line`.
    pub open spec fn logged(self, key: u64, line: Seq<char>) -> SessionView {
        if self.owns(key) {
            SessionView {
                id: self.id,
                config: self.config,
                process: self.process,
                output: self.output.push(line),
            }
        } else {
            self
        }
    }

    /// The session after a probe of the process under `key`.
    pub open spec fn probed(self, key: u64, probe: Liveness) -> SessionView {
        match probe {
            Liveness::Exited => self.reaped(key),
            _ => self,
        }
    }
}

/// A copy of `lines`, text for text.
pub fn copy_lines(lines: &Vec<String>) -> (r: Vec<String>)
    ensures
        r.deep_view() == lines.deep_view(),
{
    let mut out: Vec<String> = Vec::new();
    let mut i: usize = 0;
    while i < lines.len()
        invariant
            i <= lines.len(),
            out.len() == i,
            forall|j: int| 0 <= j < i ==> out[j]@ == lines[j]@,
        decreases lines.len() - i,
    {
        out.push(lines[i].clone());
        i += 1;
    }
    assert(out.deep_view() =~= lines.deep_view());
    out
}

impl PiSession {
    /// A session without a process and with an empty log, under `config` or,
    /// where none is given, under the built-in configuration.
    pub fn new(id: &str, config: Option<PiConfig>) -> (r: Self)
        ensures
            r@ == SessionView::fresh(
                id@,
                match config {
                    Some(c) => c@,
                    None => builtin_config(),
                },
            ),
    {
        let config = match config {
            Some(c) => c,
            None => PiConfig::default(),
        };
        let r = PiSession { id: String::from_str(id), config, process: None, output: Vec::new() };
        assert(r.output.deep_view() =~= Seq::empty());
        r
    }

    /// The invocation that runs `prompt` in this session: the executable,
    /// its flags from the configuration, the working directory, and the
    /// credential to forward where the driver found one.
    pub fn command(&self, prompt: &str, workdir: &str, credential: Option<&str>) -> (r:
        Invocation)
        ensures
            r@ == session_command(
                self@.config,
                prompt@,
                workdir@,
                opt_text(credential),
            ),
    {
        let args: Vec<String> = vec![
            String::from_str("--provider"),
            self.config.provider.clone(),
            String::from_str("--model"),
            self.config.model.clone(),
            String::from_str("--thinking"),
            self.config.thinking.clone(),
            String::from_str("-p"),
            String::from_str(prompt),
        ];
        let forwarded = match credential {
            Some(c) => Some(String::from_str(c)),
            None => None,
        };
        let r = Invocation {
            program: String::from_str("pi"),
            args,
            credential: forwarded,
            workdir: Some(String::from_str(workdir)),
            piped: true,
        };
        assert(r@.args =~= session_command(
            self@.config,
            prompt@,
            workdir@,
            opt_text(credential),
        ).args);
        r
    }

    /// Records how starting the process went. A started process, kept by the
    /// driver under `key`, replaces whatever handle the session held; a
    /// failure leaves the session as it was and is returned with its cause.
    pub fn spawn(&mut self, started: Result<u64, String>) -> (r: Result<(), PiError>)
        ensures
            match started {
                Ok(key) => r.is_ok() && final(self)@ == old(self)@.spawned(key),
                Err(cause) => {
                    &&& r.is_err()
                    &&& r->Err_0@ == ErrorView::SpawnFailed(cause@)
                    &&& final(self)@ == old(self)@
                },
            },
    {
        match started {
            Ok(key) => {
                self.process = Some(ProcessHandle { key, exited: false });
                Ok(())
            },
            Err(cause) => Err(PiError::SpawnFailed(cause)),
        }
    }

    /// The key of the process that a wait has to await: `NotFound` exactly
    /// when no process was ever started.
    pub fn wait_target(&self) -> (r: Result<u64, PiError>)
        ensures
            match self.process {
                Some(h) => r == Ok::<u64, PiError>(h.key),
                None => r.is_err() && r->Err_0@ == ErrorView::NotFound,
            },
    {
        match self.process {
            Some(h) => Ok(h.key),
            None => Err(PiError::NotFound),
        }
    }

    /// Records that the process kept under `key` has terminated. Fails with
    /// `NotFound` exactly when no process was ever started; a key other than
    /// that of the current process changes nothing.
    pub fn wait(&mut self, key: u64) -> (r: Result<(), PiError>)
        ensures
            final(self)@ == old(self)@.reaped(key),
            match old(self).process {
                Some(_) => r.is_ok(),
                None => r.is_err() && r->Err_0@ == ErrorView::NotFound,
            },
    {
        match self.process {
            Some(h) => {
                if h.key == key {
                    self.process = Some(ProcessHandle { key, exited: true });
                }
                Ok(())
            },
            None => Err(PiError::NotFound),
        }
    }

    /// The key of the process to terminate: that of the current process
    /// while it has not been seen to exit, and none otherwise.
    pub fn kill(&self) -> (r: Option<u64>)
        ensures
            r == (match self.process {
                Some(h) => if h.exited {
                    None
                } else {
                    Some(h.key)
                },
                None => None::<u64>,
            }),
            r.is_some() == self@.running(),
    {
        match self.process {
            Some(h) => if h.exited {
                None
            } else {
                Some(h.key)
            },
            None => None,
        }
    }

    /// Records a liveness probe of the process kept under `key` and tells
    /// whether the session is running afterwards.
    pub fn poll(&mut self, key: u64, probe: Liveness) -> (r: bool)
        ensures
            final(self)@ == old(self)@.probed(key, probe),
            r == final(self)@.running(),
    {
        match probe {
            Liveness::Exited => {
                let _ = self.wait(key);
            },
            _ => {},
        }
        self.is_running()
    }

    /// Whether a process was started and has not been seen to exit.
    pub fn is_running(&self) -> (r: bool)
        ensures
            r == self@.running(),
    {
        match self.process {
            Some(h) => !h.exited,
            None => false,
        }
    }

    /// A copy of the log as it stands.
    pub fn get_output(&self) -> (r: Vec<String>)
        ensures
            r.deep_view() == self@.output,
    {
        copy_lines(&self.output)
    }

    /// Appends `line` to the log if it comes from the current process, the
    /// one kept under `key`, and tells whether it did.
    pub fn push_output(&mut self, key: u64, line: String) -> (r: bool)
        ensures
            final(self)@ == old(self)@.logged(key, line@),
            r == old(self)@.owns(key),
    {
        let accepted = match self.process {
            Some(h) => h.key == key,
            None => false,
        };
        if accepted {
            self.output.push(line);
            assert(self.output.deep_view() =~= old(self).output.deep_view().push(line@));
        }
        accepted
    }
}

} // verus!
