use vstd::prelude::*;

use crate::child::Child;
use crate::error::PtyError;

verus! {

/// The pseudo-console and pipe ends a command is bound to: the program reads
/// `input`, writes `output`, and is attached to `console`.
#[derive(Clone, Copy, Debug, PartialEq, Eq, Structural)]
pub struct PtyBinding {
    pub input: usize,
    pub output: usize,
    pub console: usize,
}

/// What the OS hands back for a created process: its process and main
/// thread handles.
#[derive(Clone, Copy, Debug, PartialEq, Eq, Structural)]
pub struct ProcessInfo {
    pub process: usize,
    pub thread: usize,
}

/// Why a spawn attempt failed at the OS level.
#[derive(Clone, Debug, PartialEq, Eq)]
pub enum SpawnFailure {
    /// The attribute list could not be initialised or given the pseudo-console.
    AttributeList { code: u32 },
    /// Process creation failed for the given rendered command line.
    ProcessCreation { code: u32, command_line: String },
}

/// A program to run: its path, arguments, environment overrides, and the
/// terminal it is bound to, once bound.
#[derive(Debug)]
pub struct Command {
    program: String,
    args: Vec<String>,
    env: Vec<(String, String)>,
    pty: Option<PtyBinding>,
}

/// The error a spawn failure is reported as.
pub open spec fn spawn_error(f: SpawnFailure) -> PtyError {
    match f {
        SpawnFailure::AttributeList { code } => PtyError::AttributeList { code },
        SpawnFailure::ProcessCreation { code, command_line } => PtyError::ProcessCreation { code, command_line },
    }
}

impl Command {
    pub closed spec fn program_spec(&self) -> Seq<char> {
        self.program@
    }

    pub closed spec fn args_spec(&self) -> Seq<Seq<char>> {
        self.args@.map_values(|a: String| a@)
    }

    pub closed spec fn env_spec(&self) -> Seq<(Seq<char>, Seq<char>)> {
        self.env@.map_values(|kv: (String, String)| (kv.0@, kv.1@))
    }

    pub closed spec fn pty_spec(&self) -> Option<PtyBinding> {
        self.pty
    }

    /// A command for `program`, with no arguments, no overrides, and no terminal.
    pub fn new(program: &str) -> (r: Command)
        ensures
            r.program_spec() == program@,
            r.args_spec() == Seq::<Seq<char>>::empty(),
            r.env_spec() == Seq::<(Seq<char>, Seq<char>)>::empty(),
            r.pty_spec() is None,
    {
        let r = Command { program: program.to_owned(), args: Vec::new(), env: Vec::new(), pty: None };
        assert(r.args_spec() =~= Seq::<Seq<char>>::empty());
        assert(r.env_spec() =~= Seq::<(Seq<char>, Seq<char>)>::empty());
        r
    }

    /// Appends one argument.
    pub fn arg(&mut self, arg: &str) -> (r: &mut Command)
        ensures
            r.args_spec() == old(self).args_spec().push(arg@),
            r.program_spec() == old(self).program_spec(),
            r.env_spec() == old(self).env_spec(),
            r.pty_spec() == old(self).pty_spec(),
            *final(self) == *final(r),
    {
        self.args.push(arg.to_owned());
        assert(self.args_spec() =~= old(self).args_spec().push(arg@));
        self
    }

    /// Appends each argument of `args`, in order.
    pub fn args(&mut self, args: &Vec<&str>) -> (r: &mut Command)
        ensures
            r.args_spec() == old(self).args_spec() + args@.map_values(|a: &str| a@),
            r.program_spec() == old(self).program_spec(),
            r.env_spec() == old(self).env_spec(),
            r.pty_spec() == old(self).pty_spec(),
            *final(self) == *final(r),
    {
        let mut i: usize = 0;
        while i < args.len()
            invariant
                0 <= i <= args@.len(),
                self.args_spec() == old(self).args_spec() + args@.subrange(0, i as int).map_values(|a: &str| a@),
                self.program_spec() == old(self).program_spec(),
                self.env_spec() == old(self).env_spec(),
                self.pty_spec() == old(self).pty_spec(),
            decreases args@.len() - i,
        {
            let _ = self.arg(args[i]);
            assert(args@.subrange(0, i + 1).map_values(|a: &str| a@) =~= args@.subrange(0, i as int).map_values(|a: &str| a@).push(args@[i as int]@));
            i = i + 1;
        }
        assert(args@.subrange(0, i as int) =~= args@);
        self
    }

    /// Records an environment override. The spawned process does not receive
    /// it: it is started with an empty environment block.
    pub fn env(&mut self, key: &str, val: &str) -> (r: &mut Command)
        ensures
            r.env_spec() == old(self).env_spec().push((key@, val@)),
            r.program_spec() == old(self).program_spec(),
            r.args_spec() == old(self).args_spec(),
            r.pty_spec() == old(self).pty_spec(),
            *final(self) == *final(r),
    {
        self.env.push((key.to_owned(), val.to_owned()));
        assert(self.env_spec() =~= old(self).env_spec().push((key@, val@)));
        self
    }

    /// Binds the command to a terminal, and hands back the earlier binding,
    /// if any, whose handles the caller releases.
    pub fn set_pty(&mut self, input: usize, output: usize, console: usize) -> (r: Option<PtyBinding>)
        ensures
            r == old(self).pty_spec(),
            final(self).pty_spec() == Some(PtyBinding { input, output, console }),
            final(self).program_spec() == old(self).program_spec(),
            final(self).args_spec() == old(self).args_spec(),
            final(self).env_spec() == old(self).env_spec(),
    {
        let previous = self.pty;
        self.pty = Some(PtyBinding { input, output, console });
        previous
    }

    /// The program path.
    pub fn program(&self) -> (r: &str)
        ensures
            r@ == self.program_spec(),
    {
        self.program.as_str()
    }

    /// The arguments, in order.
    pub fn get_args(&self) -> (r: &Vec<String>)
        ensures
            r@.map_values(|a: String| a@) == self.args_spec(),
    {
        &self.args
    }

    /// The terminal the command is bound to.
    pub fn pty(&self) -> (r: Option<PtyBinding>)
        ensures
            r == self.pty_spec(),
    {
        self.pty
    }

    /// Completes a spawn from what the OS reported. A created process becomes
    /// a `Child`; the main thread handle is handed back for the caller to
    /// close, as it is never exposed. Only a command bound to a terminal
    /// can be spawned.
    pub fn spawn(&self, outcome: Result<ProcessInfo, SpawnFailure>) -> (r: Result<(Child, usize), PtyError>)
        requires
            self.pty_spec() is Some,
        ensures
            outcome matches Ok(info) ==> r matches Ok((c, t)) && c.process_spec() == info.process
                && c.exit_seen() is None && t == info.thread,
            outcome matches Err(f) ==> r == Err::<(Child, usize), PtyError>(spawn_error(f)),
    {
        match outcome {
            Ok(info) => Ok((Child::from_process(info.process), info.thread)),
            Err(SpawnFailure::AttributeList { code }) => Err(PtyError::AttributeList { code }),
            Err(SpawnFailure::ProcessCreation { code, command_line }) => Err(
                PtyError::ProcessCreation { code, command_line },
            ),
        }
    }
}

} // verus!
