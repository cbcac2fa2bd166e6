use std::cell::Cell;

use conpty::attrs::ProcThreadAttributeList;
use conpty::child::{Child, ExitStatus, KILLED_EXIT_CODE, STILL_ACTIVE};
use conpty::command::{Command, ProcessInfo, PtyBinding, SpawnFailure};
use conpty::conpty::{PlatformSupport, Support};
use conpty::error::PtyError;
use conpty::pty::{openpty, Binding, Inner, MasterPty, PipeEnds, PipeResult, SlavePty, S_OK};
use conpty::size::{to_i16, Coord, PtySize};

fn open(rows: u16, cols: u16, pw: u16, ph: u16) -> (MasterPty, SlavePty) {
    let next = Cell::new(10usize);
    let pipe = || -> PipeResult {
        let n = next.get();
        next.set(n + 2);
        Ok(PipeEnds { read: n, write: n + 1 })
    };
    match openpty(&mut PlatformSupport::new(), true, rows, cols, pw, ph, pipe, |_c: Coord, _i: usize, _o: usize| (S_OK, 99)) {
        Ok((m, s, ends)) => {
            assert_eq!(ends.len(), 2);
            (m, s)
        },
        Err(_) => panic!("openpty failed"),
    }
}

#[test]
fn open_reports_requested_size() {
    for &(r, c, pw, ph) in &[(24u16, 80u16, 0u16, 0u16), (1, 1, 1, 1), (50, 200, 1600, 900), (32767, 32767, 65535, 65535)] {
        let (m, _s) = open(r, c, pw, ph);
        assert_eq!(m.get_size(), PtySize { rows: r, cols: c, pixel_width: pw, pixel_height: ph });
    }
}

#[test]
fn open_binds_console_to_program_ends() {
    let seen = Cell::new((Coord { x: 0, y: 0 }, 0usize, 0usize));
    let next = Cell::new(10usize);
    let pipe = || -> PipeResult {
        let n = next.get();
        next.set(n + 2);
        Ok(PipeEnds { read: n, write: n + 1 })
    };
    let res = openpty(&mut PlatformSupport::new(), true, 24, 80, 0, 0, pipe, |c: Coord, i: usize, o: usize| {
        seen.set((c, i, o));
        (S_OK, 7)
    });
    assert!(res.is_ok());
    assert_eq!(seen.get(), (Coord { x: 80, y: 24 }, 10, 13));
    let (m, _s, ends) = res.ok().unwrap();
    assert_eq!(ends, vec![10, 13]);
    assert_eq!(m.handles(), Binding { console: 7, readable: 12, writable: 11 });
    assert_eq!(m.try_clone_reader(|h| Ok(h + 100)), Ok(112));
    assert_eq!(m.write(|h| Ok(h)), Ok(11));
}

#[test]
fn open_pipe_failure_releases_nothing() {
    let res = openpty(&mut PlatformSupport::new(), true, 24, 80, 0, 0, || -> PipeResult { Err(5) }, |_c: Coord, _i: usize, _o: usize| (S_OK, 1));
    let f = res.err().unwrap();
    assert_eq!(f.error, PtyError::PipeCreation { code: 5 });
    assert!(f.release.is_empty());
}

#[test]
fn open_second_pipe_failure_releases_first() {
    let n = Cell::new(0usize);
    let pipe = || -> PipeResult {
        n.set(n.get() + 1);
        if n.get() == 1 { Ok(PipeEnds { read: 3, write: 4 }) } else { Err(8) }
    };
    let f = openpty(&mut PlatformSupport::new(), true, 24, 80, 0, 0, pipe, |_c: Coord, _i: usize, _o: usize| (S_OK, 1)).err().unwrap();
    assert_eq!(f.error, PtyError::PipeCreation { code: 8 });
    assert_eq!(f.release, vec![3, 4]);
}

#[test]
fn open_console_failure_releases_all_pipes() {
    let n = Cell::new(0usize);
    let pipe = || -> PipeResult {
        n.set(n.get() + 2);
        Ok(PipeEnds { read: n.get(), write: n.get() + 1 })
    };
    let f = openpty(&mut PlatformSupport::new(), true, 30, 100, 0, 0, pipe, |_c: Coord, _i: usize, _o: usize| (-2147024809, 0)).err().unwrap();
    assert_eq!(f.error, PtyError::PseudoConsole { hresult: -2147024809, rows: 30, cols: 100 });
    assert_eq!(f.release, vec![2, 3, 4, 5]);
}

#[test]
fn resize_then_get_size() {
    let (mut m, _s) = open(24, 80, 0, 0);
    let asked = Cell::new(Coord { x: 0, y: 0 });
    assert!(m.resize(40, 120, 960, 640, |_h, c| { asked.set(c); S_OK }).is_ok());
    assert_eq!(asked.get(), Coord { x: 120, y: 40 });
    assert_eq!(m.get_size(), PtySize { rows: 40, cols: 120, pixel_width: 960, pixel_height: 640 });
    assert!(m.resize(10, 20, 0, 0, |_h, _c| S_OK).is_ok());
    assert_eq!(m.get_size(), PtySize { rows: 10, cols: 20, pixel_width: 0, pixel_height: 0 });
}

#[test]
fn failed_resize_keeps_size() {
    let (mut m, _s) = open(24, 80, 0, 0);
    let r = m.resize(40, 120, 0, 0, |_h, _c| -1);
    assert_eq!(r, Err(PtyError::PseudoConsole { hresult: -1, rows: 40, cols: 120 }));
    assert_eq!(m.get_size(), PtySize { rows: 24, cols: 80, pixel_width: 0, pixel_height: 0 });
}

#[test]
fn inner_resize_updates_together() {
    let mut inner = Inner::new(1, 2, 3, PtySize::new(24, 80, 0, 0));
    assert!(inner.resize(5, 6, 7, 8, S_OK).is_ok());
    assert_eq!(inner.get_size(), PtySize::new(5, 6, 7, 8));
    assert_eq!(inner.console_size, Coord { x: 6, y: 5 });
    assert!(inner.resize(9, 9, 9, 9, 3).is_err());
    assert_eq!(inner.get_size(), PtySize::new(5, 6, 7, 8));
}

#[test]
fn coordinate_keeps_bit_pattern() {
    assert_eq!(to_i16(80), 80);
    assert_eq!(to_i16(32767), 32767);
    assert_eq!(to_i16(32768), -32768);
    assert_eq!(to_i16(65535), -1);
    assert_eq!(PtySize::new(24, 80, 0, 0).coord(), Coord { x: 80, y: 24 });
}

#[test]
fn spawn_command_binds_duplicates() {
    let (_m, s) = open(24, 80, 0, 0);
    let mut cmd = Command::new("cmd.exe");
    cmd.arg("/c");
    cmd.args(&vec!["echo", "hi"]);
    cmd.env("KEY", "VALUE");
    let (bound, released) = s.spawn_command(cmd, |h| Ok(h + 1000)).ok().unwrap();
    assert!(released.is_empty());
    assert_eq!(bound.pty(), Some(PtyBinding { input: 1011, output: 1012, console: 99 }));
    assert_eq!(bound.program(), "cmd.exe");
    assert_eq!(bound.get_args(), &vec!["/c".to_string(), "echo".to_string(), "hi".to_string()]);
}

#[test]
fn spawn_command_second_duplicate_failure_releases_first() {
    let (_m, s) = open(24, 80, 0, 0);
    let f = s.spawn_command(Command::new("a"), |h| if h == 11 { Ok(500) } else { Err(6) }).err().unwrap();
    assert_eq!(f.error, PtyError::HandleDuplication { code: 6 });
    assert_eq!(f.release, vec![500]);
}

#[test]
fn spawn_outcomes() {
    let mut cmd = Command::new("a.exe");
    assert_eq!(cmd.set_pty(1, 2, 3), None);
    let (child, thread) = cmd.spawn(Ok(ProcessInfo { process: 40, thread: 41 })).ok().unwrap();
    assert_eq!(child.process(), 40);
    assert_eq!(child.exited(), None);
    assert_eq!(thread, 41);
    assert_eq!(cmd.spawn(Err(SpawnFailure::AttributeList { code: 87 })).err(), Some(PtyError::AttributeList { code: 87 }));
    let e = cmd.spawn(Err(SpawnFailure::ProcessCreation { code: 2, command_line: "a.exe x".to_string() }));
    assert_eq!(e.err(), Some(PtyError::ProcessCreation { code: 2, command_line: "a.exe x".to_string() }));
}

#[test]
fn exit_zero_is_observed_and_stable() {
    let mut c = Child::from_process(5);
    assert_eq!(c.try_wait(Ok(STILL_ACTIVE)), Ok(None));
    assert_eq!(c.try_wait(Ok(0)), Ok(Some(ExitStatus { status: 0 })));
    assert!(c.try_wait(Ok(0)).unwrap().unwrap().success());
    assert_eq!(c.wait(Ok(3)), Ok(ExitStatus { status: 0 }));
    assert_eq!(c.try_wait(Ok(STILL_ACTIVE)), Ok(Some(ExitStatus { status: 0 })));
    assert_eq!(c.try_wait(Err(6)), Ok(Some(ExitStatus { status: 0 })));
}

#[test]
fn kill_reports_forced_status_then_poll_agrees() {
    let mut c = Child::from_process(5);
    let s = c.kill(Ok(KILLED_EXIT_CODE)).ok().unwrap();
    assert_eq!(s.code(), 1);
    assert!(!s.success());
    assert_eq!(c.try_wait(Ok(0)), Ok(Some(s)));
    assert_eq!(c.kill(Ok(0)), Ok(s));
}

#[test]
fn poll_query_failure_is_an_error() {
    let mut c = Child::from_process(5);
    assert_eq!(c.try_wait(Err(6)), Err(PtyError::StatusQuery { code: 6 }));
    assert_eq!(c.exited(), None);
    assert_eq!(c.try_wait(Ok(4)), Ok(Some(ExitStatus { status: 4 })));
}

#[test]
fn builder_calls_chain() {
    let mut c = Command::new("prog");
    c.arg("a").args(&vec!["b", "c"]).env("K", "V").arg("d");
    assert_eq!(c.get_args(), &vec!["a".to_string(), "b".to_string(), "c".to_string(), "d".to_string()]);
}

#[test]
fn wait_query_failure_is_an_error() {
    let mut c = Child::from_process(5);
    assert_eq!(c.wait(Err(6)), Err(PtyError::StatusQuery { code: 6 }));
    assert_eq!(c.exited(), None);
}

#[test]
fn repeated_open_spawn_kill_cycles() {
    for i in 0..100usize {
        let (m, s) = open(24, 80, 0, 0);
        let (bound, _released) = s.spawn_command(Command::new("p"), |h| Ok(h + i)).ok().unwrap();
        let (mut child, _t) = bound.spawn(Ok(ProcessInfo { process: i, thread: i + 1 })).ok().unwrap();
        assert_eq!(child.kill(Ok(KILLED_EXIT_CODE)), Ok(ExitStatus { status: 1 }));
        drop(m);
    }
}

#[test]
fn builder_records_arguments_and_environment() {
    let mut c = Command::new("prog");
    c.args(&vec![]);
    assert!(c.get_args().is_empty());
    c.arg("x");
    c.env("A", "B");
    assert_eq!(c.get_args(), &vec!["x".to_string()]);
    assert_eq!(c.pty(), None);
}

#[test]
fn attribute_list_sizes_and_records_console() {
    let mut a = ProcThreadAttributeList::with_capacity(48);
    assert_eq!(a.len(), 48);
    assert!(a.as_mut_vec().iter().all(|&b| b == 0));
    assert!(a.initialized(Ok(())).is_ok());
    assert_eq!(a.initialized(Err(87)), Err(SpawnFailure::AttributeList { code: 87 }));
    assert_eq!(a.set_pty(9, Err(5)), Err(SpawnFailure::AttributeList { code: 5 }));
    assert_eq!(a.console(), None);
    assert!(a.set_pty(9, Ok(())).is_ok());
    assert_eq!(a.console(), Some(9));
    assert_eq!(ProcThreadAttributeList::with_capacity(0).len(), 0);
}

#[test]
fn platform_support_is_latched() {
    let mut p = PlatformSupport::new();
    assert!(p.needs_lookup());
    assert_eq!(p.check_platform_support(false), Err(PtyError::PlatformUnsupported));
    assert_eq!(p.check_platform_support(true), Err(PtyError::PlatformUnsupported));
    assert_eq!(p.state(), Support::Unsupported);
    let mut q = PlatformSupport::new();
    assert_eq!(q.check_platform_support(true), Ok(()));
    assert_eq!(q.check_platform_support(false), Ok(()));
    assert!(!q.needs_lookup());
}

#[test]
fn flush_is_a_no_op() {
    let (m, _s) = open(24, 80, 0, 0);
    assert_eq!(m.flush(), Ok(()));
}

#[test]
fn open_without_pseudo_consoles_is_latched() {
    let mut support = PlatformSupport::new();
    let calls = Cell::new(0usize);
    let pipe = || -> PipeResult {
        calls.set(calls.get() + 1);
        Ok(PipeEnds { read: 1, write: 2 })
    };
    let f = openpty(&mut support, false, 24, 80, 0, 0, &pipe, |_c: Coord, _i: usize, _o: usize| (S_OK, 1)).err().unwrap();
    assert_eq!(f.error, PtyError::PlatformUnsupported);
    assert!(f.release.is_empty());
    let f = openpty(&mut support, true, 24, 80, 0, 0, &pipe, |_c: Coord, _i: usize, _o: usize| (S_OK, 1)).err().unwrap();
    assert_eq!(f.error, PtyError::PlatformUnsupported);
    assert_eq!(calls.get(), 0);
}

#[test]
fn open_reports_size_with_pixels() {
    let (m, _s) = open(24, 80, 640, 480);
    assert_eq!(m.get_size(), PtySize { rows: 24, cols: 80, pixel_width: 640, pixel_height: 480 });
    assert_eq!(m.write(|_h| Ok(3)), Ok(3));
    assert_eq!(m.get_size(), PtySize { rows: 24, cols: 80, pixel_width: 640, pixel_height: 480 });
}

#[test]
fn rebinding_a_command_releases_the_earlier_handles() {
    let (_m, s) = open(24, 80, 0, 0);
    let mut cmd = Command::new("p");
    assert_eq!(cmd.set_pty(70, 71, 72), None);
    let (bound, released) = s.spawn_command(cmd, |h| Ok(h + 1000)).ok().unwrap();
    assert_eq!(released, vec![70, 71]);
    assert_eq!(bound.pty(), Some(PtyBinding { input: 1011, output: 1012, console: 99 }));
}

#[test]
fn set_pty_hands_back_previous_binding() {
    let mut cmd = Command::new("p");
    assert_eq!(cmd.set_pty(1, 2, 3), None);
    assert_eq!(cmd.set_pty(4, 5, 6), Some(PtyBinding { input: 1, output: 2, console: 3 }));
    assert_eq!(cmd.pty(), Some(PtyBinding { input: 4, output: 5, console: 6 }));
}
