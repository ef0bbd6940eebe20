use cmd_harness::executor::{execute, finish, take_index, ExecError};
use cmd_harness::shell::{Platform, RawOutput, ShellCall, SpawnFailure};

fn echo_hello(_call: ShellCall) -> Result<RawOutput, SpawnFailure> {
    Ok(RawOutput { code: Some(0), stdout: b"hello\n".to_vec(), stderr: Vec::new() })
}

fn no_shell(_call: ShellCall) -> Result<RawOutput, SpawnFailure> {
    Err(SpawnFailure { reason: String::from("No such file or directory (os error 2)") })
}

#[test]
fn take_index_hands_out_the_counter_and_advances_it() {
    let mut counter: u64 = 0;
    assert_eq!(take_index(&mut counter), 0);
    assert_eq!(counter, 1);
    assert_eq!(take_index(&mut counter), 1);
    assert_eq!(counter, 2);
    let mut late: u64 = u64::MAX - 1;
    assert_eq!(take_index(&mut late), u64::MAX - 1);
    assert_eq!(late, u64::MAX);
}

#[test]
fn first_trigger_of_echo_hello() {
    let mut counter: u64 = 0;
    let record = execute(Some(&mut counter), Platform::Other, "echo hello", echo_hello).unwrap();
    assert_eq!(record.index, 0);
    assert_eq!(record.status, Some(0));
    assert_eq!(record.stdout, "hello\n");
    assert_eq!(record.stderr, "");
    assert_eq!(counter, 1);
}

#[test]
fn second_trigger_has_index_one() {
    let mut counter: u64 = 0;
    let first = execute(Some(&mut counter), Platform::Other, "echo hello", echo_hello).unwrap();
    let second = execute(Some(&mut counter), Platform::Other, "echo hello", echo_hello).unwrap();
    assert_eq!(first.index, 0);
    assert_eq!(second.index, 1);
    assert_eq!(second.status, Some(0));
    assert_eq!(second.stdout, "hello\n");
    assert_eq!(second.stderr, "");
    assert_eq!(counter, 2);
}

#[test]
fn indices_of_many_triggers_have_no_duplicates_and_no_gaps() {
    let mut counter: u64 = 40;
    let mut indices: Vec<u64> = Vec::new();
    for _ in 0..25 {
        let record = execute(Some(&mut counter), Platform::Other, "echo hello", echo_hello).unwrap();
        indices.push(record.index);
    }
    let expected: Vec<u64> = (40..65).collect();
    assert_eq!(indices, expected);
    assert_eq!(counter, 65);
}

#[test]
fn run_gets_the_shell_call_for_the_command() {
    let mut counter: u64 = 0;
    let mut seen: Option<ShellCall> = None;
    let result = execute(Some(&mut counter), Platform::Windows, "dir", |call| {
        seen = Some(call);
        Ok(RawOutput { code: Some(0), stdout: Vec::new(), stderr: Vec::new() })
    });
    assert!(result.is_ok());
    let call = seen.unwrap();
    assert_eq!(call.program, "cmd");
    assert_eq!(call.flag, "/C");
    assert_eq!(call.command, "dir");
}

#[test]
fn index_is_taken_before_the_command_runs() {
    let cell = std::cell::Cell::new(0u64);
    let mut counter: u64 = 5;
    let record = execute(Some(&mut counter), Platform::Other, "true", |_call| {
        cell.set(cell.get() + 1);
        Ok(RawOutput { code: Some(0), stdout: Vec::new(), stderr: Vec::new() })
    })
    .unwrap();
    assert_eq!(cell.get(), 1);
    assert_eq!(record.index, 5);
    assert_eq!(counter, 6);
}

#[test]
fn exit_code_three_is_a_record_with_status_three() {
    let mut counter: u64 = 0;
    let record = execute(Some(&mut counter), Platform::Other, "exit 3", |_call| {
        Ok(RawOutput { code: Some(3), stdout: Vec::new(), stderr: b"failed\n".to_vec() })
    })
    .unwrap();
    assert_eq!(record.status, Some(3));
    assert_eq!(record.stdout, "");
    assert_eq!(record.stderr, "failed\n");
}

#[test]
fn missing_exit_code_is_kept_missing() {
    let record = finish(9, Ok(RawOutput { code: None, stdout: Vec::new(), stderr: Vec::new() })).unwrap();
    assert_eq!(record.index, 9);
    assert_eq!(record.status, None);
}

#[test]
fn negative_exit_code_is_kept() {
    let record = finish(1, Ok(RawOutput { code: Some(-1), stdout: Vec::new(), stderr: Vec::new() })).unwrap();
    assert_eq!(record.status, Some(-1));
}

#[test]
fn spawn_failure_is_an_error_and_not_a_record() {
    let mut counter: u64 = 0;
    let result = execute(Some(&mut counter), Platform::Other, "echo hello", no_shell);
    assert_eq!(
        result,
        Err(ExecError::Spawn { reason: String::from("No such file or directory (os error 2)") })
    );
}

#[test]
fn spawn_failure_uses_up_its_index() {
    let mut counter: u64 = 0;
    assert!(execute(Some(&mut counter), Platform::Other, "echo hello", no_shell).is_err());
    assert_eq!(counter, 1);
    let record = execute(Some(&mut counter), Platform::Other, "echo hello", echo_hello).unwrap();
    assert_eq!(record.index, 1);
    assert_eq!(counter, 2);
}

#[test]
fn without_access_nothing_runs() {
    let mut ran = false;
    let result = execute(None, Platform::Other, "echo hello", |call| {
        ran = true;
        echo_hello(call)
    });
    assert_eq!(result, Err(ExecError::Lock));
    assert!(!ran);
}

#[test]
fn captured_streams_are_decoded_permissively() {
    let raw = RawOutput {
        code: Some(0),
        stdout: vec![b'o', b'k', 0xff, b'\n', b'2', b'\n'],
        stderr: vec![0xf0, 0x9f, 0x98],
    };
    let record = finish(4, Ok(raw)).unwrap();
    assert_eq!(record.stdout, "ok\u{fffd}\n2\n");
    assert_eq!(record.stderr, "\u{fffd}");
}

#[test]
fn finish_passes_a_spawn_failure_on() {
    let result = finish(2, Err(SpawnFailure { reason: String::from("permission denied") }));
    assert_eq!(result, Err(ExecError::Spawn { reason: String::from("permission denied") }));
}

#[test]
fn exec_error_messages() {
    assert_eq!(ExecError::Lock.message(), "Unable to write into index for increment");
    assert_eq!(
        ExecError::Spawn { reason: String::from("x") }.message(),
        "Unable to perform execute"
    );
}
