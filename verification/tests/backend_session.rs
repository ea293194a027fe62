//! Scenario tests against the real terminal backend: sessions held in the
//! verified registry, one backend call per operation, outcomes mapped by the
//! verified completion functions.

use std::io::Read;
use std::io::Write;
use std::sync::Arc;
use std::sync::Mutex;
use std::time::Duration;
use std::time::Instant;

use portable_pty::native_pty_system;
use portable_pty::Child;
use portable_pty::ChildKiller;
use portable_pty::CommandBuilder;
use portable_pty::PtyPair;
use portable_pty::PtySize;

use pty_sessions::backend_result;
use pty_sessions::encode_input;
use pty_sessions::read_result;
use pty_sessions::Registry;

struct Session {
    pair: Mutex<PtyPair>,
    child: Mutex<Box<dyn Child + Send + Sync>>,
    killer: Mutex<Box<dyn ChildKiller + Send + Sync>>,
    writer: Mutex<Box<dyn Write + Send>>,
    reader: Mutex<Box<dyn Read + Send>>,
}

fn spawn_session(reg: &mut Registry<Arc<Session>>, program: &str, args: &[&str]) -> u32 {
    let pty = native_pty_system();
    let pair = pty
        .openpty(PtySize { rows: 24, cols: 80, pixel_width: 0, pixel_height: 0 })
        .expect("openpty failed");
    let writer = pair.master.take_writer().expect("take_writer failed");
    let reader = pair.master.try_clone_reader().expect("clone_reader failed");
    let mut cmd = CommandBuilder::new(program);
    cmd.args(args);
    let child = pair.slave.spawn_command(cmd).expect("spawn failed");
    let killer = child.clone_killer();
    assert!(reg.handles_allocated() < u32::MAX);
    reg.register(Arc::new(Session {
        pair: Mutex::new(pair),
        child: Mutex::new(child),
        killer: Mutex::new(killer),
        writer: Mutex::new(writer),
        reader: Mutex::new(reader),
    }))
}

fn write_text(reg: &Registry<Arc<Session>>, handle: u32, text: &str) {
    let session = reg.resolve(handle).ok().expect("session not found").clone();
    let bytes = encode_input(text);
    let outcome = session
        .writer
        .lock()
        .unwrap()
        .write_all(&bytes)
        .map_err(|e| e.to_string());
    backend_result(outcome).ok().expect("write failed");
}

fn read_text(reg: &Registry<Arc<Session>>, handle: u32) -> String {
    let session = reg.resolve(handle).ok().expect("session not found").clone();
    let mut buf = [0u8; 1024];
    let outcome = session
        .reader
        .lock()
        .unwrap()
        .read(&mut buf)
        .map(|n| buf[..n].to_vec())
        .map_err(|e| e.to_string());
    read_result(outcome).ok().expect("read failed")
}

fn exit_code(reg: &Registry<Arc<Session>>, handle: u32) -> Option<u32> {
    let session = reg.resolve(handle).ok().expect("session not found").clone();
    let outcome = session
        .child
        .lock()
        .unwrap()
        .try_wait()
        .map(|st| st.map(|x| x.exit_code()))
        .map_err(|e| e.to_string());
    backend_result(outcome).ok().expect("exitstatus failed")
}

fn wait_for_exit(reg: &Registry<Arc<Session>>, handle: u32) -> u32 {
    let deadline = Instant::now() + Duration::from_secs(10);
    loop {
        if let Some(code) = exit_code(reg, handle) {
            return code;
        }
        assert!(Instant::now() < deadline, "child did not exit in time");
    }
}

fn kill(reg: &Registry<Arc<Session>>, handle: u32) {
    let session = reg.resolve(handle).ok().expect("session not found").clone();
    let outcome = session.killer.lock().unwrap().kill().map_err(|e| e.to_string());
    backend_result(outcome).ok().expect("kill failed");
}

fn read_until_contains(reg: &Registry<Arc<Session>>, handle: u32, needle: &str) -> String {
    let deadline = Instant::now() + Duration::from_secs(10);
    let mut seen = String::new();
    while !seen.contains(needle) {
        assert!(Instant::now() < deadline, "expected output did not arrive in time");
        seen.push_str(&read_text(reg, handle));
    }
    seen
}

#[test]
fn write_read_round_trip_through_echoing_child() {
    let mut reg: Registry<Arc<Session>> = Registry::new();
    let handle = spawn_session(&mut reg, "/bin/cat", &[]);
    write_text(&reg, handle, "hello\n");
    let seen = read_until_contains(&reg, handle, "hello");
    assert!(seen.contains("hello"));
    kill(&reg, handle);
    wait_for_exit(&reg, handle);
}

#[test]
fn resize_is_reported_by_the_backend() {
    let mut reg: Registry<Arc<Session>> = Registry::new();
    let handle = spawn_session(&mut reg, "/bin/cat", &[]);
    let session = reg.resolve(handle).ok().expect("session not found").clone();
    let outcome = session
        .pair
        .lock()
        .unwrap()
        .master
        .resize(PtySize { rows: 43, cols: 132, pixel_width: 0, pixel_height: 0 })
        .map_err(|e| e.to_string());
    backend_result(outcome).ok().expect("resize failed");
    let size = session.pair.lock().unwrap().master.get_size().expect("get_size failed");
    assert_eq!(size.cols, 132);
    assert_eq!(size.rows, 43);
    kill(&reg, handle);
    wait_for_exit(&reg, handle);
}

#[test]
fn exit_status_becomes_the_child_exit_code() {
    let mut reg: Registry<Arc<Session>> = Registry::new();
    let handle = spawn_session(&mut reg, "/bin/sh", &["-c", "exit 7"]);
    let code = wait_for_exit(&reg, handle);
    assert_eq!(code, 7);
}

#[test]
fn kill_makes_exit_status_appear() {
    let mut reg: Registry<Arc<Session>> = Registry::new();
    let handle = spawn_session(&mut reg, "/bin/cat", &[]);
    assert_eq!(exit_code(&reg, handle), None);
    kill(&reg, handle);
    wait_for_exit(&reg, handle);
}

#[test]
fn writes_on_distinct_handles_are_independent() {
    let mut reg: Registry<Arc<Session>> = Registry::new();
    let a = spawn_session(&mut reg, "/bin/cat", &[]);
    let b = spawn_session(&mut reg, "/bin/cat", &[]);
    assert_ne!(a, b);
    write_text(&reg, a, "alpha\n");
    write_text(&reg, b, "beta\n");
    let seen_a = read_until_contains(&reg, a, "alpha");
    let seen_b = read_until_contains(&reg, b, "beta");
    assert!(!seen_a.contains("beta"));
    assert!(!seen_b.contains("alpha"));
    kill(&reg, a);
    kill(&reg, b);
    wait_for_exit(&reg, a);
    wait_for_exit(&reg, b);
}
