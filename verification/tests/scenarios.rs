use jgrab_client::connector::{send_message_retrying, Connector, Effect, Event};
use jgrab_client::daemon::{start_daemon, Launch, LaunchEffect, LaunchEvent, Probe, Written};
use jgrab_client::input::{Input, Stream};
use jgrab_client::invocation::{select, stop, version_query, Invocation, Job, Stop};
use jgrab_client::paths::{jar_path, token_path};
use jgrab_client::relay::{send_message, show_daemon_version, Action, Exchange, Reply};
use jgrab_client::report::{client_version, help, INFO, USAGE};

/// A scripted stand-in for the machine around the client.
struct World {
    /// Whether each connection attempt finds a listener, in order; the last
    /// entry holds for all later attempts.
    listening: Vec<bool>,
    token: Option<String>,
    file: Option<Vec<Vec<u8>>>,
    stdin: Vec<Vec<u8>>,
    answer: Vec<Vec<u8>>,
    jar_in_place: bool,
    probes: Vec<Probe>,
    connects: usize,
    spawned: Vec<Vec<String>>,
    jars_written: usize,
    socket: Vec<u8>,
    half_closed: bool,
    printed: Vec<u8>,
    paused: u64,
}

fn world() -> World {
    World {
        listening: vec![true],
        token: Some("letmein".to_string()),
        file: Some(vec![b"class Hello {}\n".to_vec()]),
        stdin: vec![],
        answer: vec![b"Hello ".to_vec(), b"world\n".to_vec()],
        jar_in_place: true,
        probes: vec![Probe::Running],
        connects: 0,
        spawned: vec![],
        jars_written: 0,
        socket: vec![],
        half_closed: false,
        printed: vec![],
        paused: 0,
    }
}

fn next<T: Clone>(script: &mut Vec<T>) -> T {
    if script.len() > 1 {
        script.remove(0)
    } else {
        script[0].clone()
    }
}

fn pull(chunks: &mut Vec<Vec<u8>>) -> Vec<u8> {
    if chunks.is_empty() {
        vec![]
    } else {
        chunks.remove(0)
    }
}

impl World {
    fn say(&mut self, line: &str) {
        self.printed.extend_from_slice(line.as_bytes());
        self.printed.push(b'\n');
    }

    /// Runs one exchange; `Err` carries the exit code of a fatal end.
    fn exchange(&mut self, input: &mut Input, is_retry: bool, ignore: bool) -> Result<Option<String>, i32> {
        let mut state = Exchange::new(is_retry, ignore);
        let mut reply = Reply::Begin;
        let mut answer = self.answer.clone();
        loop {
            let (after, actions) = send_message(state, input, reply);
            state = after;
            let mut answered = None;
            for action in actions {
                match action {
                    Action::Connect => {
                        self.connects += 1;
                        answered = Some(if next(&mut self.listening) {
                            Reply::Connected
                        } else {
                            Reply::ConnectFailed("Connection refused (os error 111)".to_string())
                        });
                    }
                    Action::Log(line) => self.say(&line),
                    Action::ReadToken => {
                        answered = Some(match &self.token {
                            Some(token) => Reply::Token(token.clone()),
                            None => Reply::TokenUnreadable("No such file or directory".to_string()),
                        });
                    }
                    Action::Send(bytes) => {
                        assert!(!self.half_closed);
                        self.socket.extend_from_slice(&bytes);
                        answered = Some(Reply::Written);
                    }
                    Action::ReadInput(Stream::File) => {
                        answered = Some(Reply::InputRead(pull(self.file.as_mut().unwrap())));
                    }
                    Action::ReadInput(Stream::Stdin) => {
                        answered = Some(Reply::InputRead(pull(&mut self.stdin)));
                    }
                    Action::HalfClose => {
                        self.half_closed = true;
                        answered = Some(Reply::Closed);
                    }
                    Action::Receive => answered = Some(Reply::Received(pull(&mut answer))),
                    Action::Print(bytes) => {
                        self.printed.extend_from_slice(&bytes);
                        answered = Some(Reply::Printed);
                    }
                    Action::Done => return Ok(None),
                    Action::Unreachable(cause) => return Ok(Some(cause)),
                    Action::Exit(exit) => {
                        self.say(&exit.line);
                        return Err(exit.code);
                    }
                }
            }
            reply = answered.expect("every step asks for something");
        }
    }

    fn launch(&mut self, jar: &str) -> Result<(), i32> {
        let mut state = Launch::Idle;
        let mut event = LaunchEvent::Begin;
        loop {
            let (after, effects) = start_daemon(jar, state, &event);
            state = after;
            let mut answered = None;
            for effect in effects {
                match effect {
                    LaunchEffect::Log(line) => self.say(&line),
                    LaunchEffect::FindJar => answered = Some(LaunchEvent::JarFound(self.jar_in_place)),
                    LaunchEffect::WriteJar => {
                        self.jars_written += 1;
                        answered = Some(LaunchEvent::JarWritten(Written::Done));
                    }
                    LaunchEffect::Spawn(command) => {
                        self.spawned.push(command);
                        answered = Some(LaunchEvent::Spawned(4242));
                    }
                    LaunchEffect::Done => return Ok(()),
                    LaunchEffect::Exit(exit) => {
                        self.say(&exit.line);
                        return Err(exit.code);
                    }
                }
            }
            event = answered.expect("every step asks for something");
        }
    }

    fn relay(&mut self, mut job: Job, home: &str) -> i32 {
        let jar = jar_path(home);
        let mut state = Connector::Idle;
        let mut event = Event::Begin;
        loop {
            let (after, effects) = send_message_retrying(state, event);
            state = after;
            let mut answered = None;
            for effect in effects {
                match effect {
                    Effect::Attempt(again) => {
                        match self.exchange(&mut job.input, again, job.ignore_read_error) {
                            Ok(outcome) => answered = Some(Event::Attempted(outcome)),
                            Err(code) => return code,
                        }
                    }
                    Effect::StartDaemon => match self.launch(&jar) {
                        Ok(()) => answered = Some(Event::Started),
                        Err(code) => return code,
                    },
                    Effect::Probe(_) => answered = Some(Event::Probed(next(&mut self.probes))),
                    Effect::Pause(secs) => self.paused += secs,
                    Effect::Log(line) => self.say(&line),
                    Effect::Done => return 0,
                    Effect::Exit(exit) => {
                        self.say(&exit.line);
                        return exit.code;
                    }
                }
            }
            event = answered.expect("every step asks for something");
        }
    }

    /// Runs the client on these arguments; gives the exit code.
    fn client(&mut self, args: &[&str]) -> i32 {
        let args: Vec<String> = args.iter().map(|arg| arg.to_string()).collect();
        let home = "/home/alice/.jgrab";
        assert_eq!(token_path(home), "/home/alice/.jgrab/token");
        match select(&args) {
            Invocation::Help => {
                let text = help();
                self.say(&text);
                0
            }
            Invocation::Version => {
                let line = client_version("9.9.9");
                self.say(&line);
                let mut job = version_query();
                match self.exchange(&mut job.input, false, job.ignore_read_error) {
                    Ok(outcome) => {
                        if let Some(hint) = show_daemon_version(&outcome) {
                            self.say(&hint);
                        }
                        0
                    }
                    Err(code) => code,
                }
            }
            Invocation::Stop => {
                self.connects += 1;
                match stop(next(&mut self.listening)) {
                    Stop::NotRunning(notice) => {
                        self.say(&notice);
                        0
                    }
                    Stop::Proceed(job) => self.relay(job, home),
                }
            }
            Invocation::Reject(exit) => {
                self.say(&exit.line);
                exit.code
            }
            Invocation::Relay(request) => {
                let opened = match request.path() {
                    Some(_) if self.file.is_none() => Err("No such file or directory (os error 2)".to_string()),
                    _ => Ok(()),
                };
                match request.open(opened) {
                    Ok(job) => self.relay(job, home),
                    Err(exit) => {
                        self.say(&exit.line);
                        exit.code
                    }
                }
            }
        }
    }

    fn output(&self) -> String {
        String::from_utf8(self.printed.clone()).unwrap()
    }
}

#[test]
fn scenario_daemon_already_listening_single_file() {
    let mut world = world();
    world.file = Some(vec![b"class Hello {".to_vec(), b"}\n".to_vec(), vec![]]);
    let code = world.client(&["Hello.java"]);
    assert_eq!(code, 0);
    assert_eq!(world.connects, 1);
    assert_eq!(world.socket, b"letmein\nclass Hello {}\n".to_vec());
    assert!(world.half_closed);
    assert_eq!(world.output(), "Hello world\n");
    assert!(world.spawned.is_empty());
    assert_eq!(world.paused, 0);
}

#[test]
fn scenario_no_daemon_snippet_bootstraps_then_connects() {
    let mut world = world();
    world.listening = vec![false, true];
    world.answer = vec![b"3\n".to_vec()];
    let code = world.client(&["-e", "System.out.println(1", "+", "2);"]);
    assert_eq!(code, 0);
    assert_eq!(world.connects, 2);
    assert_eq!(
        world.spawned,
        vec![vec![
            "java".to_string(),
            "-jar".to_string(),
            "/home/alice/.jgrab/jgrab.jar".to_string(),
            "--daemon".to_string()
        ]]
    );
    assert_eq!(world.jars_written, 0);
    assert_eq!(world.socket, b"letmein\nSystem.out.println(1 + 2);".to_vec());
    assert_eq!(
        world.output(),
        "=== JGrab Client - Starting daemon ===\n\
         === JGrab Client - Daemon started, pid=4242 ===\n\
         === JGrab Client - Connected! ===\n\
         3\n"
    );
    assert_eq!(world.paused, 1);
}

#[test]
fn scenario_daemon_dies_within_the_liveness_window() {
    let mut world = world();
    world.listening = vec![false];
    world.probes = vec![Probe::Exited("exit status: 1".to_string())];
    let code = world.client(&["-e", "int", "x;"]);
    assert_eq!(code, 1);
    assert_eq!(world.connects, 1);
    assert_eq!(world.spawned.len(), 1);
    assert!(world.socket.is_empty());
    assert_eq!(
        world.output(),
        "=== JGrab Client - Starting daemon ===\n\
         === JGrab Client - Daemon started, pid=4242 ===\n\
         ### JGrab Client Error - The JGrab daemon has died prematurely, exit status: 1 ###\n"
    );
}

#[test]
fn scenario_help_prints_and_opens_no_socket() {
    let mut world = world();
    let code = world.client(&["--help"]);
    assert_eq!(code, 0);
    assert_eq!(world.connects, 0);
    assert!(world.socket.is_empty());
    assert_eq!(world.output(), format!("{}\n\n{}\n", INFO, USAGE));
}

#[test]
fn unreachable_daemon_exhausts_the_retries() {
    let mut world = world();
    world.listening = vec![false];
    let code = world.client(&["Hello.java"]);
    assert_eq!(code, 1);
    assert_eq!(world.connects, 6);
    assert_eq!(world.spawned.len(), 1);
    assert_eq!(world.paused, 6);
    assert!(world.output().ends_with(
        "=== JGrab Client - will re-try 1 more times ===\n\
         ### JGrab Client Error - unable to start JGrab daemon. Make sure JGrab's port [5002] is not already bound ###\n"
    ));
}

#[test]
fn missing_token_is_tried_again_like_a_refused_connection() {
    let mut world = world();
    world.token = None;
    let code = world.client(&["--start"]);
    assert_eq!(code, 1);
    assert_eq!(world.connects, 6);
    assert_eq!(world.spawned.len(), 1);
    assert!(world.socket.is_empty());
    assert!(world.output().contains(
        "=== JGrab Client - unable to connect to JGrab daemon: No such file or directory ===\n"
    ));
}

#[test]
fn missing_jar_is_written_out_before_the_start() {
    let mut world = world();
    world.listening = vec![false, false, true];
    world.jar_in_place = false;
    let code = world.client(&["-t"]);
    assert_eq!(code, 0);
    assert_eq!(world.jars_written, 1);
    assert_eq!(world.connects, 3);
    assert_eq!(world.socket, b"letmein\n-e null".to_vec());
    assert!(world.output().starts_with(
        "=== JGrab Client - Starting daemon ===\n\
         === JGrab Client - Created JGrab jar at: /home/alice/.jgrab/jgrab.jar ===\n\
         === JGrab Client - Daemon started, pid=4242 ===\n\
         === JGrab Client - unable to connect to JGrab daemon: Connection refused (os error 111) ===\n\
         === JGrab Client - will re-try 5 more times ===\n\
         === JGrab Client - Connected! ===\n"
    ));
}

#[test]
fn file_with_arguments_sends_the_list_before_the_file() {
    let mut world = world();
    world.file = Some(vec![b"class A {}".to_vec()]);
    let code = world.client(&["A.java", "1", "two"]);
    assert_eq!(code, 0);
    assert_eq!(world.socket, b"letmein\n[1 two]\nclass A {}".to_vec());
}

#[test]
fn standard_input_is_relayed_without_arguments() {
    let mut world = world();
    world.stdin = vec![b"int a = 1;\n".to_vec(), b"a + 1\n".to_vec()];
    let code = world.client(&[]);
    assert_eq!(code, 0);
    assert_eq!(world.socket, b"letmein\nint a = 1;\na + 1\n".to_vec());
}

#[test]
fn unreadable_file_is_fatal_before_any_connection() {
    let mut world = world();
    world.file = None;
    let code = world.client(&["Missing.java"]);
    assert_eq!(code, 1);
    assert_eq!(world.connects, 0);
    assert_eq!(
        world.output(),
        "### JGrab Client Error - unable to read file: No such file or directory (os error 2) ###\n"
    );
}

#[test]
fn stop_without_daemon_starts_none() {
    let mut world = world();
    world.listening = vec![false];
    let code = world.client(&["--stop"]);
    assert_eq!(code, 0);
    assert!(world.spawned.is_empty());
    assert_eq!(world.output(), "=== JGrab Client - daemon is not running ===\n");
}

#[test]
fn stop_with_daemon_sends_the_stop_message() {
    let mut world = world();
    world.answer = vec![];
    let code = world.client(&["-s"]);
    assert_eq!(code, 0);
    assert_eq!(world.socket, b"letmein\n--stop".to_vec());
    assert_eq!(world.output(), "");
}

#[test]
fn version_without_daemon_gives_the_hint_and_starts_none() {
    let mut world = world();
    world.listening = vec![false];
    let code = world.client(&["--version"]);
    assert_eq!(code, 0);
    assert_eq!(world.connects, 1);
    assert!(world.spawned.is_empty());
    assert_eq!(
        world.output(),
        "JGrab Client Version: 9.9.9\n(Run the JGrab daemon to see its version)\n"
    );
}

#[test]
fn version_with_daemon_prints_both_versions() {
    let mut world = world();
    world.answer = vec![b"JGrab Version: 1.1.0\n".to_vec()];
    let code = world.client(&["-v"]);
    assert_eq!(code, 0);
    assert_eq!(world.socket, b"letmein\n--version".to_vec());
    assert_eq!(world.output(), "JGrab Client Version: 9.9.9\nJGrab Version: 1.1.0\n");
}

#[test]
fn usage_errors_leave_with_two() {
    let mut world = world();
    assert_eq!(world.client(&["-e"]), 2);
    assert_eq!(world.connects, 0);
    assert_eq!(world.output(), format!("### -e option missing code snippet ###\n\n{}\n", USAGE));
}
