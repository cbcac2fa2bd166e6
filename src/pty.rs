use vstd::prelude::*;

use crate::command::{Command, PtyBinding};
use crate::conpty::{after_lookup, outcome_of, PlatformSupport};
use crate::error::PtyError;
use crate::size::{coord_of, Coord, PtySize};

verus! {

/// The status the console subsystem returns on success.
pub const S_OK: i32 = 0;

/// What an OS call that yields a handle value or a byte count answers:
/// the value, or the OS error code.
pub type OsResult = Result<usize, u32>;

/// What pipe creation answers: both ends, or the OS error code.
pub type PipeResult = Result<PipeEnds, u32>;

/// What pseudo-console creation answers: its status, and the handle value
/// that is valid where the status is `S_OK`.
pub type ConsoleResult = (i32, usize);

/// The two ends of one anonymous pipe, as handle values.
#[derive(Clone, Copy, Debug, PartialEq, Eq, Structural)]
pub struct PipeEnds {
    pub read: usize,
    pub write: usize,
}

/// The shared state of one pseudo-terminal: the pseudo-console, the host's
/// ends of the two pipes, and the current size.
#[derive(Debug)]
pub struct Inner {
    pub console: usize,
    pub readable: usize,
    pub writable: usize,
    pub console_size: Coord,
    pub size: PtySize,
}

impl Inner {
    /// The stored size and the pseudo-console's own size agree.
    pub open spec fn wf(self) -> bool {
        self.console_size == coord_of(self.size)
    }

    /// The state after a resize request that the console answered with `hresult`.
    pub open spec fn resized(self, size: PtySize, hresult: i32) -> Inner {
        if hresult == S_OK {
            Inner { console_size: coord_of(size), size, ..self }
        } else {
            self
        }
    }

    /// The state of a pseudo-console just created with `size`.
    pub fn new(console: usize, readable: usize, writable: usize, size: PtySize) -> (r: Inner)
        ensures
            r.wf(),
            r.console == console,
            r.readable == readable,
            r.writable == writable,
            r.size == size,
    {
        Inner { console, readable, writable, console_size: size.coord(), size }
    }

    /// The stored size.
    pub fn get_size(&self) -> (r: PtySize)
        ensures
            r == self.size,
    {
        self.size
    }

    /// Records the outcome of resizing the pseudo-console: `hresult` is what
    /// the console answered for the coordinate of the new size. On failure
    /// nothing changes.
    pub fn resize(
        &mut self,
        num_rows: u16,
        num_cols: u16,
        pixel_width: u16,
        pixel_height: u16,
        hresult: i32,
    ) -> (r: Result<(), PtyError>)
        requires
            old(self).wf(),
        ensures
            final(self).wf(),
            *final(self) == old(self).resized(PtySize { rows: num_rows, cols: num_cols, pixel_width, pixel_height }, hresult),
            hresult == S_OK <==> r is Ok,
            hresult != S_OK ==> r == Err::<(), PtyError>(PtyError::PseudoConsole { hresult, rows: num_rows, cols: num_cols }),
    {
        if hresult != S_OK {
            return Err(PtyError::PseudoConsole { hresult, rows: num_rows, cols: num_cols });
        }
        let size = PtySize::new(num_rows, num_cols, pixel_width, pixel_height);
        self.console_size = size.coord();
        self.size = size;
        Ok(())
    }
}

/// After a successful resize the stored size is exactly the requested one,
/// the pseudo-console agrees with it, and the handles stay bound.
pub proof fn resize_reports_size(inner: Inner, size: PtySize)
    requires
        inner.wf(),
    ensures
        inner.resized(size, S_OK).size == size,
        inner.resized(size, S_OK).wf(),
        inner.resized(size, S_OK).console == inner.console,
        inner.resized(size, S_OK).readable == inner.readable,
        inner.resized(size, S_OK).writable == inner.writable,
{
}

/// A failed resize leaves the state, and so the reported size, unchanged.
pub proof fn failed_resize_keeps_size(inner: Inner, size: PtySize, hresult: i32)
    requires
        hresult != S_OK,
    ensures
        inner.resized(size, hresult) == inner,
{
}


/// The pseudo-console and host pipe ends a terminal is bound to for its
/// whole life.
#[derive(Clone, Copy, Debug, PartialEq, Eq, Structural)]
pub struct Binding {
    pub console: usize,
    pub readable: usize,
    pub writable: usize,
}

/// The host side of a pseudo-terminal: the pseudo-console, the host's pipe
/// ends and the current size. Callers that share it between threads hold it
/// behind one lock.
#[derive(Debug)]
pub struct MasterPty {
    inner: Inner,
}

/// The child side of a pseudo-terminal, used once to spawn a program.
#[derive(Debug)]
pub struct SlavePty {
    binding: Binding,
}

/// Why `openpty` or `spawn_command` failed, and the handles acquired before
/// the failure, which the caller releases.
#[derive(Debug)]
pub struct OpenFailure {
    pub error: PtyError,
    pub release: Vec<usize>,
}

/// The binding of a terminal state.
pub open spec fn binding_of(inner: Inner) -> Binding {
    Binding { console: inner.console, readable: inner.readable, writable: inner.writable }
}

/// The handles an earlier binding of a command leaves to release.
pub open spec fn released_by(previous: Option<PtyBinding>) -> Seq<usize> {
    match previous {
        Some(p) => seq![p.input, p.output],
        None => Seq::empty(),
    }
}

impl MasterPty {
    /// The whole state.
    pub closed spec fn state(&self) -> Inner {
        self.inner
    }

    /// The stored size.
    pub open spec fn size_spec(&self) -> PtySize {
        self.state().size
    }

    /// The pseudo-console and pipe ends this terminal is bound to.
    pub open spec fn binding(&self) -> Binding {
        binding_of(self.state())
    }

    /// Resizes the pseudo-console and the stored size together.
    /// `resize_console` asks the console subsystem to resize the given
    /// pseudo-console to the given coordinate and returns its status; where
    /// that fails nothing changes.
    pub fn resize<F>(
        &mut self,
        num_rows: u16,
        num_cols: u16,
        pixel_width: u16,
        pixel_height: u16,
        resize_console: F,
    ) -> (r: Result<(), PtyError>)
        where
            F: Fn(usize, Coord) -> i32,
        requires
            old(self).state().wf(),
            forall|h: usize, c: Coord| resize_console.requires((h, c)),
        ensures
            final(self).state().wf(),
            exists|h: i32|
                #![trigger call_ensures(resize_console, (old(self).binding().console, coord_of(PtySize { rows: num_rows, cols: num_cols, pixel_width, pixel_height })), h)]
                {
                    &&& call_ensures(
                        resize_console,
                        (old(self).binding().console, coord_of(PtySize { rows: num_rows, cols: num_cols, pixel_width, pixel_height })),
                        h,
                    )
                    &&& final(self).state() == old(self).state().resized(
                        PtySize { rows: num_rows, cols: num_cols, pixel_width, pixel_height },
                        h,
                    )
                    &&& (h == S_OK <==> r is Ok)
                    &&& (h != S_OK ==> r == Err::<(), PtyError>(PtyError::PseudoConsole { hresult: h, rows: num_rows, cols: num_cols }))
                },
    {
        let size = PtySize::new(num_rows, num_cols, pixel_width, pixel_height);
        let hresult = resize_console(self.inner.console, size.coord());
        let r = self.inner.resize(num_rows, num_cols, pixel_width, pixel_height, hresult);
        r
    }

    /// The stored size.
    pub fn get_size(&self) -> (r: PtySize)
        ensures
            r == self.size_spec(),
    {
        self.inner.get_size()
    }

    /// The pseudo-console and host pipe ends, for the owner that releases
    /// them once the terminal is gone.
    pub fn handles(&self) -> (r: Binding)
        ensures
            r == self.binding(),
    {
        Binding { console: self.inner.console, readable: self.inner.readable, writable: self.inner.writable }
    }

    /// A new reader of the program's output: `duplicate` duplicates the
    /// given handle. Reads on the result need no access to the terminal.
    pub fn try_clone_reader<F>(&self, duplicate: F) -> (r: Result<usize, PtyError>)
        where
            F: Fn(usize) -> OsResult,
        requires
            forall|h: usize| duplicate.requires((h,)),
        ensures
            r matches Ok(d) ==> call_ensures(duplicate, (self.binding().readable,), Ok::<usize, u32>(d)),
            r matches Err(e) ==> exists|code: u32|
                #![trigger call_ensures(duplicate, (self.binding().readable,), Err::<usize, u32>(code))]
                call_ensures(duplicate, (self.binding().readable,), Err::<usize, u32>(code))
                && e == (PtyError::HandleDuplication { code }),
    {
        match duplicate(self.inner.readable) {
            Ok(d) => Ok(d),
            Err(code) => {
                assert(call_ensures(duplicate, (self.binding().readable,), Err::<usize, u32>(code)));
                Err(PtyError::HandleDuplication { code })
            },
        }
    }

    /// Writes through the program's input pipe. `write_pipe` writes to the
    /// given handle and returns what the OS answered. The state is unchanged.
    pub fn write<F>(&self, write_pipe: F) -> (r: Result<usize, u32>)
        where
            F: Fn(usize) -> OsResult,
        requires
            forall|h: usize| write_pipe.requires((h,)),
        ensures
            call_ensures(write_pipe, (self.binding().writable,), r),
    {
        write_pipe(self.inner.writable)
    }

    /// Writes are unbuffered: there is nothing to flush.
    pub fn flush(&self) -> (r: Result<(), u32>)
        ensures
            r is Ok,
    {
        Ok(())
    }
}

impl SlavePty {
    /// The pseudo-console and pipe ends this terminal is bound to.
    pub closed spec fn binding(&self) -> Binding {
        self.binding
    }

    /// Binds `cmd` to this terminal, consuming it: the program gets its own
    /// duplicates of the input end and the output end, and the pseudo-console.
    /// `duplicate` duplicates the given handle. The handles of an earlier
    /// binding of `cmd` are handed back for release; where the second
    /// duplicate fails, so is the first.
    pub fn spawn_command<F>(self, cmd: Command, duplicate: F) -> (r: Result<(Command, Vec<usize>), OpenFailure>)
        where
            F: Fn(usize) -> OsResult,
        requires
            forall|h: usize| duplicate.requires((h,)),
        ensures
            r matches Ok((c, released)) ==> {
                &&& c.program_spec() == cmd.program_spec()
                &&& c.args_spec() == cmd.args_spec()
                &&& c.env_spec() == cmd.env_spec()
                &&& released@ == released_by(cmd.pty_spec())
                &&& c.pty_spec() matches Some(p)
                &&& p.console == self.binding().console
                &&& call_ensures(duplicate, (self.binding().writable,), Ok::<usize, u32>(p.input))
                &&& call_ensures(duplicate, (self.binding().readable,), Ok::<usize, u32>(p.output))
            },
            r matches Err(f) ==> {
                ||| exists|code: u32|
                    #![trigger call_ensures(duplicate, (self.binding().writable,), Err::<usize, u32>(code))]
                    {
                        &&& call_ensures(duplicate, (self.binding().writable,), Err::<usize, u32>(code))
                        &&& f.error == (PtyError::HandleDuplication { code })
                        &&& f.release@.len() == 0
                    }
                ||| exists|input: usize, code: u32|
                    #![trigger call_ensures(duplicate, (self.binding().writable,), Ok::<usize, u32>(input)), call_ensures(duplicate, (self.binding().readable,), Err::<usize, u32>(code))]
                    {
                        &&& call_ensures(duplicate, (self.binding().writable,), Ok::<usize, u32>(input))
                        &&& call_ensures(duplicate, (self.binding().readable,), Err::<usize, u32>(code))
                        &&& f.error == (PtyError::HandleDuplication { code })
                        &&& f.release@ == seq![input]
                    }
            },
    {
        let input = match duplicate(self.binding.writable) {
            Ok(h) => h,
            Err(code) => {
                assert(call_ensures(duplicate, (self.binding().writable,), Err::<usize, u32>(code)));
                return Err(OpenFailure { error: PtyError::HandleDuplication { code }, release: Vec::new() });
            },
        };
        let output = match duplicate(self.binding.readable) {
            Ok(h) => h,
            Err(code) => {
                let mut release = Vec::new();
                release.push(input);
                assert(release@ =~= seq![input]);
                assert(call_ensures(duplicate, (self.binding().writable,), Ok::<usize, u32>(input)));
                assert(call_ensures(duplicate, (self.binding().readable,), Err::<usize, u32>(code)));
                return Err(OpenFailure { error: PtyError::HandleDuplication { code }, release });
            },
        };
        let mut cmd = cmd;
        let previous = cmd.set_pty(input, output, self.binding.console);
        let mut released = Vec::new();
        if let Some(p) = previous {
            released.push(p.input);
            released.push(p.output);
        }
        assert(released@ =~= released_by(previous));
        Ok((cmd, released))
    }
}

/// Opens a pseudo-terminal of the given size. `support` records whether
/// pseudo-consoles exist, and `found` is the result of looking them up, which
/// counts only on the first lookup: without them nothing is created.
/// `create_pipe` creates one anonymous pipe; `create_console` creates a
/// pseudo-console of the given coordinate that reads the first handle and
/// writes the second, and answers its status and handle. The program reads
/// the first pipe and writes the second; the host keeps the other ends.
/// On success the program's ends of the two pipes are handed back, for the
/// caller to close once the pseudo-console holds them; on failure, every
/// handle acquired so far is listed in `release`.
pub fn openpty<P, C>(
    support: &mut PlatformSupport,
    found: bool,
    num_rows: u16,
    num_cols: u16,
    pixel_width: u16,
    pixel_height: u16,
    create_pipe: P,
    create_console: C,
) -> (r: Result<(MasterPty, SlavePty, Vec<usize>), OpenFailure>)
    where
        P: Fn() -> PipeResult,
        C: Fn(Coord, usize, usize) -> ConsoleResult,
    requires
        create_pipe.requires(()),
        forall|c: Coord, i: usize, o: usize| create_console.requires((c, i, o)),
    ensures
        final(support).state_spec() == after_lookup(old(support).state_spec(), found),
        outcome_of(final(support).state_spec()) is Err ==> (r matches Err(f) && f.error
            == PtyError::PlatformUnsupported && f.release@.len() == 0),
        r matches Ok((m, s, program_ends)) ==> {
            &&& outcome_of(final(support).state_spec()) is Ok
            &&& m.size_spec() == (PtySize { rows: num_rows, cols: num_cols, pixel_width, pixel_height })
            &&& m.state().wf()
            &&& m.binding() == s.binding()
            &&& exists|input: PipeEnds, output: PipeEnds|
                #![trigger call_ensures(create_console, (coord_of(PtySize { rows: num_rows, cols: num_cols, pixel_width, pixel_height }), input.read, output.write), (S_OK, m.binding().console))]
                {
                    &&& call_ensures(create_pipe, (), Ok::<PipeEnds, u32>(input))
                    &&& call_ensures(create_pipe, (), Ok::<PipeEnds, u32>(output))
                    &&& call_ensures(
                        create_console,
                        (coord_of(PtySize { rows: num_rows, cols: num_cols, pixel_width, pixel_height }), input.read, output.write),
                        (S_OK, m.binding().console),
                    )
                    &&& m.binding().readable == output.read
                    &&& m.binding().writable == input.write
                    &&& program_ends@ == seq![input.read, output.write]
                }
        },
        r matches Err(f) ==> {
            ||| outcome_of(final(support).state_spec()) is Err
            ||| {
                &&& f.release@.len() == 0
                &&& f.error matches PtyError::PipeCreation { code }
                &&& call_ensures(create_pipe, (), Err::<PipeEnds, u32>(code))
            }
            ||| exists|input: PipeEnds|
                #![trigger call_ensures(create_pipe, (), Ok::<PipeEnds, u32>(input))]
                {
                    &&& call_ensures(create_pipe, (), Ok::<PipeEnds, u32>(input))
                    &&& f.release@ == seq![input.read, input.write]
                    &&& f.error matches PtyError::PipeCreation { code }
                    &&& call_ensures(create_pipe, (), Err::<PipeEnds, u32>(code))
                }
            ||| exists|input: PipeEnds, output: PipeEnds, hresult: i32, con: usize|
                #![trigger call_ensures(create_console, (coord_of(PtySize { rows: num_rows, cols: num_cols, pixel_width, pixel_height }), input.read, output.write), (hresult, con))]
                {
                    &&& call_ensures(create_pipe, (), Ok::<PipeEnds, u32>(input))
                    &&& call_ensures(create_pipe, (), Ok::<PipeEnds, u32>(output))
                    &&& call_ensures(
                        create_console,
                        (coord_of(PtySize { rows: num_rows, cols: num_cols, pixel_width, pixel_height }), input.read, output.write),
                        (hresult, con),
                    )
                    &&& hresult != S_OK
                    &&& f.release@ == seq![input.read, input.write, output.read, output.write]
                    &&& f.error == (PtyError::PseudoConsole { hresult, rows: num_rows, cols: num_cols })
                }
        },
{
    if support.check_platform_support(found).is_err() {
        return Err(OpenFailure { error: PtyError::PlatformUnsupported, release: Vec::new() });
    }
    let input = match create_pipe() {
        Ok(p) => p,
        Err(code) => {
            return Err(OpenFailure { error: PtyError::PipeCreation { code }, release: Vec::new() });
        },
    };
    let output = match create_pipe() {
        Ok(p) => p,
        Err(code) => {
            let mut release = Vec::new();
            release.push(input.read);
            release.push(input.write);
            assert(release@ =~= seq![input.read, input.write]);
            assert(call_ensures(create_pipe, (), Ok::<PipeEnds, u32>(input)));
            return Err(OpenFailure { error: PtyError::PipeCreation { code }, release });
        },
    };
    let size = PtySize::new(num_rows, num_cols, pixel_width, pixel_height);
    let (hresult, console) = create_console(size.coord(), input.read, output.write);
    if hresult != S_OK {
        let mut release = Vec::new();
        release.push(input.read);
        release.push(input.write);
        release.push(output.read);
        release.push(output.write);
        assert(release@ =~= seq![input.read, input.write, output.read, output.write]);
        assert(call_ensures(
            create_console,
            (coord_of(PtySize { rows: num_rows, cols: num_cols, pixel_width, pixel_height }), input.read, output.write),
            (hresult, console),
        ));
        return Err(OpenFailure { error: PtyError::PseudoConsole { hresult, rows: num_rows, cols: num_cols }, release });
    }
    let inner = Inner::new(console, output.read, input.write, size);
    let master = MasterPty { inner };
    let slave = SlavePty { binding: Binding { console, readable: output.read, writable: input.write } };
    let mut program_ends = Vec::new();
    program_ends.push(input.read);
    program_ends.push(output.write);
    assert(program_ends@ =~= seq![input.read, output.write]);
    Ok((master, slave, program_ends))
}

} // verus!
