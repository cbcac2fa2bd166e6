//! A host-side pseudo-terminal for the Windows pseudo-console facility: the
//! shared terminal state, the command builder, the child lifecycle, and the
//! decisions around each OS call, with the calls themselves supplied by the
//! caller.

pub mod attrs;
pub mod child;
pub mod command;
pub mod conpty;
pub mod error;
pub mod pty;
pub mod size;

pub use child::{Child, ExitStatus};
pub use command::Command;
pub use error::PtyError;
pub use pty::{openpty, MasterPty, SlavePty};
pub use size::PtySize;
