use vstd::prelude::*;

use crate::command::SpawnFailure;

verus! {

/// The attribute that attaches a pseudo-console to a new process.
pub const PROC_THREAD_ATTRIBUTE_PSEUDOCONSOLE: usize = 0x00020016;

/// The buffer that extends process creation with extra attributes. Its size
/// is the one the OS asked for in the sizing query; its contents belong to
/// the OS.
#[derive(Debug)]
pub struct ProcThreadAttributeList {
    data: Vec<u8>,
    console: Option<usize>,
}

impl ProcThreadAttributeList {
    /// The number of bytes of the buffer.
    pub closed spec fn len_spec(&self) -> nat {
        self.data@.len()
    }

    /// The pseudo-console installed into slot 0, if any.
    pub closed spec fn console_spec(&self) -> Option<usize> {
        self.console
    }

    /// A zeroed buffer of exactly the size the sizing query reported; the
    /// OS then initialises it in place, and `initialized` takes its answer.
    pub fn with_capacity(bytes_required: usize) -> (r: ProcThreadAttributeList)
        ensures
            r.len_spec() == bytes_required,
            r.console_spec() is None,
    {
        let mut data: Vec<u8> = Vec::with_capacity(bytes_required);
        let mut i: usize = 0;
        while i < bytes_required
            invariant
                i <= bytes_required,
                data@.len() == i,
            decreases bytes_required - i,
        {
            data.push(0u8);
            i = i + 1;
        }
        ProcThreadAttributeList { data, console: None }
    }

    /// The number of bytes of the buffer.
    pub fn len(&self) -> (r: usize)
        ensures
            r == self.len_spec(),
    {
        self.data.len()
    }

    /// Takes the OS's answer to initialising the buffer in place.
    pub fn initialized(&self, status: Result<(), u32>) -> (r: Result<(), SpawnFailure>)
        ensures
            status is Ok <==> r is Ok,
            status matches Err(code) ==> r == Err::<(), SpawnFailure>(SpawnFailure::AttributeList { code }),
    {
        match status {
            Ok(()) => Ok(()),
            Err(code) => Err(SpawnFailure::AttributeList { code }),
        }
    }

    /// Takes the OS's answer to installing `console` as the pseudo-console
    /// attribute; it is recorded only where the OS accepted it.
    pub fn set_pty(&mut self, console: usize, status: Result<(), u32>) -> (r: Result<(), SpawnFailure>)
        ensures
            status is Ok <==> r is Ok,
            status matches Err(code) ==> r == Err::<(), SpawnFailure>(SpawnFailure::AttributeList { code }),
            final(self).console_spec() == (if status is Ok { Some(console) } else { old(self).console_spec() }),
            final(self).len_spec() == old(self).len_spec(),
    {
        match status {
            Ok(()) => {
                self.console = Some(console);
                Ok(())
            },
            Err(code) => Err(SpawnFailure::AttributeList { code }),
        }
    }

    /// The pseudo-console installed into slot 0, if any.
    pub fn console(&self) -> (r: Option<usize>)
        ensures
            r == self.console_spec(),
    {
        self.console
    }

    /// The buffer itself, for the OS calls that fill and read it.
    pub fn as_mut_vec(&mut self) -> (r: &mut Vec<u8>)
        ensures
            r@.len() == old(self).len_spec(),
            final(self).len_spec() == final(r)@.len(),
            final(self).console_spec() == old(self).console_spec(),
    {
        &mut self.data
    }
}

} // verus!
