use vstd::prelude::*;

verus! {

/// The words of `parts` with one `sep` between neighbours.
pub open spec fn joined(parts: Seq<Seq<char>>, sep: Seq<char>) -> Seq<char>
    decreases parts.len(),
{
    if parts.len() == 0 {
        Seq::empty()
    } else if parts.len() == 1 {
        parts[0]
    } else {
        joined(parts.drop_last(), sep) + sep + parts.last()
    }
}

/// Concatenates `parts`, with `sep` between neighbours.
pub fn join(parts: &Vec<String>, sep: &str) -> (r: String)
    ensures
        r@ == joined(parts.deep_view(), sep@),
{
    let mut out = String::new();
    let mut i: usize = 0;
    while i < parts.len()
        invariant
            i <= parts.len(),
            out@ == joined(parts.deep_view().take(i as int), sep@),
        decreases parts.len() - i,
    {
        proof {
            let dv = parts.deep_view();
            assert(dv.take(i as int + 1).drop_last() =~= dv.take(i as int));
        }
        if i > 0 {
            out.append(sep);
        }
        out.append(parts[i].as_str());
        i = i + 1;
    }
    proof {
        assert(parts.deep_view().take(parts.len() as int) =~= parts.deep_view());
    }
    out
}

/// One variable of an environment overlay.
pub struct EnvVar {
    pub name: String,
    pub value: String,
}

/// A program to start directly (no shell), with its arguments, the variables
/// laid over the ambient environment, and its working directory.
pub struct CommandSpec {
    pub program: String,
    pub args: Vec<String>,
    pub env: Vec<EnvVar>,
    pub cwd: String,
}

pub ghost struct CommandView {
    pub program: Seq<char>,
    pub args: Seq<Seq<char>>,
    pub env: Seq<(Seq<char>, Seq<char>)>,
    pub cwd: Seq<char>,
}

impl View for EnvVar {
    type V = (Seq<char>, Seq<char>);

    open spec fn view(&self) -> (Seq<char>, Seq<char>) {
        (self.name@, self.value@)
    }
}

impl View for CommandSpec {
    type V = CommandView;

    open spec fn view(&self) -> CommandView {
        CommandView {
            program: self.program@,
            args: self.args.deep_view(),
            env: self.env@.map_values(|v: EnvVar| v@),
            cwd: self.cwd@,
        }
    }
}

/// The command line as it is shown to the user: the program, a space, and
/// the arguments separated by spaces.
pub open spec fn command_line_of(c: CommandView) -> Seq<char> {
    c.program + " "@ + joined(c.args, " "@)
}

impl CommandSpec {
    pub fn command_line(&self) -> (r: String)
        ensures
            r@ == command_line_of(self@),
    {
        let args = join(&self.args, " ");
        let mut out = self.program.clone();
        out.append(" ");
        out.append(args.as_str());
        out
    }
}

/// How a spawned process ended, as the operating system reported it.
pub enum ProcessStatus {
    /// The program could not be started; the system's error text.
    SpawnFailed(String),
    /// Waiting for the process failed; the system's error text.
    WaitFailed(String),
    /// The process exited with this code.
    Exited(i32),
    /// The process ended without an exit code (a signal); what the platform
    /// reported of its status.
    Terminated(String),
}

/// Why a command did not succeed.
pub enum CommandError {
    Spawn { program: String, message: String },
    Wait { program: String, message: String },
    Exit { command: String, code: i32 },
    Abnormal { command: String, status: String },
}

/// Decides the outcome of one command from how its process ended: success
/// exactly on exit code zero, and otherwise an error that keeps the command
/// line (or the program) and what the system reported.
pub fn classify(cmd: &CommandSpec, status: ProcessStatus) -> (r: Result<(), CommandError>)
    ensures
        match status {
            ProcessStatus::SpawnFailed(m) => r matches Err(CommandError::Spawn { program, message })
                && program@ == cmd.program@ && message@ == m@,
            ProcessStatus::WaitFailed(m) => r matches Err(CommandError::Wait { program, message })
                && program@ == cmd.program@ && message@ == m@,
            ProcessStatus::Exited(c) => if c == 0 {
                r is Ok
            } else {
                r matches Err(CommandError::Exit { command, code })
                    && command@ == command_line_of(cmd@) && code == c
            },
            ProcessStatus::Terminated(s) => r matches Err(CommandError::Abnormal { command, status })
                && command@ == command_line_of(cmd@) && status@ == s@,
        },
{
    match status {
        ProcessStatus::SpawnFailed(message) => Err(
            CommandError::Spawn { program: cmd.program.clone(), message },
        ),
        ProcessStatus::WaitFailed(message) => Err(
            CommandError::Wait { program: cmd.program.clone(), message },
        ),
        ProcessStatus::Exited(code) => {
            if code == 0 {
                Ok(())
            } else {
                Err(CommandError::Exit { command: cmd.command_line(), code })
            }
        },
        ProcessStatus::Terminated(status) => Err(
            CommandError::Abnormal { command: cmd.command_line(), status },
        ),
    }
}

} // verus!
