use asciinema::error::Error;
use asciinema::launch::{
    build_exec_args, build_exec_env, capture_env, format_env_var, is_listed, output_mode,
    recording_marker_entry, OutputMode,
};

fn var(key: &str, value: &str) -> (Vec<u8>, Vec<u8>) {
    (key.as_bytes().to_vec(), value.as_bytes().to_vec())
}

#[test]
fn args_use_the_command_given() {
    let args = build_exec_args(Some("htop".to_owned()), Some("/bin/zsh".to_owned()));
    assert_eq!(args, vec!["/bin/sh", "-c", "htop"]);
}

#[test]
fn args_default_to_the_users_shell() {
    let args = build_exec_args(None, Some("/bin/zsh".to_owned()));
    assert_eq!(args, vec!["/bin/sh", "-c", "/bin/zsh"]);
}

#[test]
fn args_fall_back_to_bin_sh() {
    let args = build_exec_args(None, None);
    assert_eq!(args, vec!["/bin/sh", "-c", "/bin/sh"]);
}

#[test]
fn env_entry_is_key_equals_value() {
    assert_eq!(format_env_var(b"TERM", b"xterm-256color"), b"TERM=xterm-256color".to_vec());
    assert_eq!(format_env_var(b"EMPTY", b""), b"EMPTY=".to_vec());
    assert_eq!(format_env_var(b"A", b"b=c"), b"A=b=c".to_vec());
}

#[test]
fn marker_entry_reads_asciinema_rec() {
    assert_eq!(recording_marker_entry(), b"ASCIINEMA_REC=1".to_vec());
}

#[test]
fn child_env_is_parent_env_plus_marker() {
    let vars = vec![var("SHELL", "/bin/bash"), var("TERM", "xterm")];
    let env = build_exec_env(&vars);
    assert_eq!(
        env,
        vec![b"SHELL=/bin/bash".to_vec(), b"TERM=xterm".to_vec(), b"ASCIINEMA_REC=1".to_vec()]
    );
}

#[test]
fn child_env_of_empty_parent_env_is_the_marker() {
    assert_eq!(build_exec_env(&Vec::new()), vec![b"ASCIINEMA_REC=1".to_vec()]);
}

#[test]
fn listed_names_are_whole_entries() {
    assert!(is_listed(b"SHELL,TERM", b"SHELL"));
    assert!(is_listed(b"SHELL,TERM", b"TERM"));
    assert!(!is_listed(b"SHELL,TERM", b"TER"));
    assert!(!is_listed(b"SHELL,TERM", b"HELL"));
    assert!(!is_listed(b"SHELL,TERM", b"SHELL,TERM"));
    assert!(!is_listed(b"SHELL,TERM", b""));
    assert!(is_listed(b"SHELL,,TERM", b""));
    assert!(is_listed(b"", b""));
    assert!(is_listed(b"TERM,", b""));
    assert!(is_listed(b"A", b"A"));
    assert!(!is_listed(b"A", b"B"));
}

#[test]
fn capture_keeps_listed_variables_in_order() {
    let vars = vec![
        var("HOME", "/root"),
        var("TERM", "xterm"),
        var("PATH", "/bin"),
        var("SHELL", "/bin/bash"),
    ];
    assert_eq!(
        capture_env(b"SHELL,TERM", &vars),
        vec![var("TERM", "xterm"), var("SHELL", "/bin/bash")]
    );
    assert_eq!(capture_env(b"NONE", &vars), Vec::new());
    assert_eq!(capture_env(b"", &vars), Vec::new());
}

#[test]
fn new_file_is_created() {
    assert_eq!(output_mode(false, 0, false, false), Ok(OutputMode::CreateNew));
    assert_eq!(output_mode(false, 0, true, false), Ok(OutputMode::CreateNew));
    assert_eq!(output_mode(false, 0, false, true), Ok(OutputMode::Overwrite));
}

#[test]
fn empty_file_is_overwritten() {
    assert_eq!(output_mode(true, 0, false, false), Ok(OutputMode::Overwrite));
    assert_eq!(output_mode(true, 0, true, false), Ok(OutputMode::Overwrite));
    assert_eq!(output_mode(true, 0, false, true), Ok(OutputMode::Overwrite));
}

#[test]
fn existing_recording_needs_a_decision() {
    assert_eq!(output_mode(true, 120, false, false), Err(Error::FileConflict));
    assert_eq!(output_mode(true, 120, true, false), Ok(OutputMode::Append));
    assert_eq!(output_mode(true, 120, false, true), Ok(OutputMode::Overwrite));
}
