use jgrab_client::daemon::{
    check_status, create_jgrab_jar, start_daemon, Launch, LaunchEffect, LaunchEvent, Probe,
    Verdict, Written, PAUSE_SECS, PROBE_SECS,
};
use jgrab_client::report::Exit;

const JAR: &str = "/home/alice/.jgrab/jgrab.jar";

fn fatal(message: &str) -> Exit {
    Exit { line: format!("### JGrab Client Error - {} ###", message), code: 1 }
}

fn spawn() -> LaunchEffect {
    LaunchEffect::Spawn(vec![
        "java".to_string(),
        "-jar".to_string(),
        JAR.to_string(),
        "--daemon".to_string(),
    ])
}

#[test]
fn probe_and_pause_take_one_second_each() {
    assert_eq!(PROBE_SECS, 1);
    assert_eq!(PAUSE_SECS, 1);
}

#[test]
fn exited_daemon_is_fatal() {
    assert_eq!(
        check_status(&Probe::Exited("exit status: 1".to_string())),
        Verdict::Fatal(fatal("The JGrab daemon has died prematurely, exit status: 1"))
    );
}

#[test]
fn running_daemon_means_pause_and_go_on() {
    assert_eq!(check_status(&Probe::Running), Verdict::Proceed(1));
}

#[test]
fn failed_probe_is_fatal() {
    assert_eq!(
        check_status(&Probe::Failed("no child process".to_string())),
        Verdict::Fatal(fatal("unable to wait for JGrab daemon process status: no child process"))
    );
}

#[test]
fn jar_report_names_place_or_cause() {
    assert_eq!(
        create_jgrab_jar(JAR, &Written::Done),
        Ok("=== JGrab Client - Created JGrab jar at: /home/alice/.jgrab/jgrab.jar ===".to_string())
    );
    assert_eq!(
        create_jgrab_jar(JAR, &Written::NotCreated("read-only file system".to_string())),
        Err(fatal("Cannot create jgrab jar: read-only file system"))
    );
    assert_eq!(
        create_jgrab_jar(JAR, &Written::NotFilled("disk full".to_string())),
        Err(fatal("Cannot write to jgrab jar path: disk full"))
    );
}

#[test]
fn start_with_the_jar_in_place() {
    let (state, effects) = start_daemon(JAR, Launch::Idle, &LaunchEvent::Begin);
    assert_eq!(state, Launch::FindingJar);
    assert_eq!(
        effects,
        vec![
            LaunchEffect::Log("=== JGrab Client - Starting daemon ===".to_string()),
            LaunchEffect::FindJar
        ]
    );
    let (state, effects) = start_daemon(JAR, state, &LaunchEvent::JarFound(true));
    assert_eq!(state, Launch::Spawning);
    assert_eq!(effects, vec![spawn()]);
    let (state, effects) = start_daemon(JAR, state, &LaunchEvent::Spawned(4711));
    assert_eq!(state, Launch::Started);
    assert_eq!(
        effects,
        vec![
            LaunchEffect::Log("=== JGrab Client - Daemon started, pid=4711 ===".to_string()),
            LaunchEffect::Done
        ]
    );
}

#[test]
fn start_writes_the_jar_out_where_it_is_missing() {
    let (state, effects) = start_daemon(JAR, Launch::FindingJar, &LaunchEvent::JarFound(false));
    assert_eq!(state, Launch::WritingJar);
    assert_eq!(effects, vec![LaunchEffect::WriteJar]);
    let (state, effects) = start_daemon(JAR, state, &LaunchEvent::JarWritten(Written::Done));
    assert_eq!(state, Launch::Spawning);
    assert_eq!(
        effects,
        vec![
            LaunchEffect::Log(
                "=== JGrab Client - Created JGrab jar at: /home/alice/.jgrab/jgrab.jar ==="
                    .to_string()
            ),
            spawn()
        ]
    );
}

#[test]
fn start_fails_where_the_jar_cannot_be_written() {
    let (state, effects) = start_daemon(
        JAR,
        Launch::WritingJar,
        &LaunchEvent::JarWritten(Written::NotCreated("denied".to_string())),
    );
    assert_eq!(state, Launch::Failed);
    assert_eq!(effects, vec![LaunchEffect::Exit(fatal("Cannot create jgrab jar: denied"))]);
    let (state, effects) = start_daemon(
        JAR,
        Launch::WritingJar,
        &LaunchEvent::JarWritten(Written::NotFilled("disk full".to_string())),
    );
    assert_eq!(state, Launch::Failed);
    assert_eq!(effects, vec![LaunchEffect::Exit(fatal("Cannot write to jgrab jar path: disk full"))]);
}

#[test]
fn start_fails_where_the_process_cannot_be_started() {
    let (state, effects) = start_daemon(
        JAR,
        Launch::Spawning,
        &LaunchEvent::SpawnFailed("No such file or directory (os error 2)".to_string()),
    );
    assert_eq!(state, Launch::Failed);
    assert_eq!(effects, vec![LaunchEffect::Exit(fatal("No such file or directory (os error 2)"))]);
}

#[test]
fn start_ignores_what_was_not_asked_for() {
    let stray = [
        (Launch::Idle, LaunchEvent::Spawned(1)),
        (Launch::FindingJar, LaunchEvent::Begin),
        (Launch::WritingJar, LaunchEvent::JarFound(true)),
        (Launch::Spawning, LaunchEvent::JarWritten(Written::Done)),
        (Launch::Started, LaunchEvent::Begin),
        (Launch::Started, LaunchEvent::Spawned(2)),
        (Launch::Failed, LaunchEvent::Begin),
    ];
    for (state, event) in stray {
        assert_eq!(start_daemon(JAR, state, &event), (state, vec![]));
    }
}

#[test]
fn pid_is_written_in_decimal() {
    let (_, effects) = start_daemon(JAR, Launch::Spawning, &LaunchEvent::Spawned(u32::MAX));
    assert_eq!(
        effects[0],
        LaunchEffect::Log("=== JGrab Client - Daemon started, pid=4294967295 ===".to_string())
    );
}
