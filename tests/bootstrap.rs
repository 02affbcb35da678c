use krun_guest::decimal::decimal_string;
use krun_guest::error::InitError;
use krun_guest::exit::{check_helper_exit, exit_disposition, ProcessExit};
use krun_guest::hostname::hostname_from_contents;
use krun_guest::net::{passt_command, NetMode, NetworkPath};
use krun_guest::sommelier::sommelier_args;

#[test]
fn hostname_stops_at_first_terminator() {
    assert_eq!(hostname_from_contents("guest-vm\nextra"), "guest-vm");
}

#[test]
fn hostname_with_trailing_terminator() {
    assert_eq!(hostname_from_contents("guest-vm\n"), "guest-vm");
}

#[test]
fn hostname_with_several_lines() {
    assert_eq!(hostname_from_contents("a\nb\nc\n"), "a");
}

#[test]
fn hostname_without_terminator_is_whole() {
    assert_eq!(hostname_from_contents("guest-vm"), "guest-vm");
    assert_eq!(hostname_from_contents(" spaced name "), " spaced name ");
}

#[test]
fn hostname_of_empty_contents() {
    assert_eq!(hostname_from_contents(""), "");
    assert_eq!(hostname_from_contents("\nrest"), "");
}

#[test]
fn hostname_with_multibyte_characters() {
    assert_eq!(hostname_from_contents("hôte-é\nx"), "hôte-é");
}

#[test]
fn decimal_values() {
    assert_eq!(decimal_string(0), "0");
    assert_eq!(decimal_string(9), "9");
    assert_eq!(decimal_string(10), "10");
    assert_eq!(decimal_string(1234), "1234");
    assert_eq!(decimal_string(-7), "-7");
    assert_eq!(decimal_string(i32::MAX), "2147483647");
    assert_eq!(decimal_string(i32::MIN), "-2147483648");
}

#[test]
fn exit_code_zero_is_success() {
    let exit = exit_disposition(Some(0), None);
    assert_eq!(exit, ProcessExit::Success);
    assert_eq!(check_helper_exit("dhclient", exit), Ok(()));
}

#[test]
fn exit_code_one_is_fatal_with_code() {
    let exit = exit_disposition(Some(1), None);
    assert_eq!(exit, ProcessExit::Code(1));
    let err = check_helper_exit("dhclient", exit).unwrap_err();
    assert_eq!(
        err,
        InitError::HelperExitCode { program: "dhclient".to_string(), code: 1 }
    );
    let msg = err.message();
    assert_eq!(msg, "`dhclient` process exited with status code: 1");
    assert!(msg.contains('1'));
    assert!(!msg.contains("signal"));
}

#[test]
fn signal_nine_is_fatal_with_signal() {
    let exit = exit_disposition(None, Some(9));
    assert_eq!(exit, ProcessExit::Signal(9));
    let err = check_helper_exit("dhclient", exit).unwrap_err();
    assert_eq!(
        err,
        InitError::HelperSignal { program: "dhclient".to_string(), signal: 9 }
    );
    let msg = err.message();
    assert_eq!(msg, "`dhclient` process terminated by signal: 9");
    assert!(msg.contains('9'));
    assert!(!msg.contains("status code"));
}

#[test]
fn status_code_takes_precedence_over_signal() {
    assert_eq!(exit_disposition(Some(3), Some(9)), ProcessExit::Code(3));
    assert_eq!(exit_disposition(Some(0), Some(9)), ProcessExit::Success);
}

#[test]
fn backend_not_found_is_lookup_failure() {
    let err = passt_command(None, 5).unwrap_err();
    assert_eq!(err, InitError::LookupFailure { program: "passt".to_string() });
    assert_eq!(err.message(), "`passt` executable not found in PATH");
}

#[test]
fn lookup_failure_differs_from_spawn_failure() {
    let lookup = passt_command(None, 5).unwrap_err();
    let spawn = InitError::SpawnFailure {
        program: "passt".to_string(),
        detail: "Permission denied (os error 13)".to_string(),
    };
    assert_ne!(lookup, spawn);
    assert!(matches!(lookup, InitError::LookupFailure { .. }));
    assert_eq!(
        spawn.message(),
        "Failed to execute `passt` as child process: Permission denied (os error 13)"
    );
}

#[test]
fn backend_command_passes_descriptor() {
    let cmd = passt_command(Some("/usr/bin/passt".to_string()), 17).unwrap();
    assert_eq!(cmd.program, "/usr/bin/passt");
    assert_eq!(cmd.args, vec!["-q", "-f", "--fd", "17"]);
}

#[test]
fn io_and_kernel_messages() {
    let io = InitError::IoFailure {
        operation: "Failed to read `/etc/hostname`".to_string(),
        detail: "No such file or directory (os error 2)".to_string(),
    };
    assert_eq!(
        io.message(),
        "Failed to read `/etc/hostname`: No such file or directory (os error 2)"
    );
    let kernel = InitError::KernelOperationFailure {
        operation: "Failed to set hostname".to_string(),
        detail: "Operation not permitted (os error 1)".to_string(),
    };
    assert_eq!(
        kernel.message(),
        "Failed to set hostname: Operation not permitted (os error 1)"
    );
    assert_ne!(io, kernel);
}

#[test]
fn sommelier_args_without_driver_path() {
    let args = sommelier_args(None, &"app".to_string(), &vec!["-v".to_string(), "x".to_string()]);
    assert_eq!(args, vec!["--virtgpu-channel", "-X", "--glamor", "app", "-v", "x"]);
}

#[test]
fn sommelier_args_with_driver_path() {
    let args = sommelier_args(Some("/usr/lib/dri".to_string()), &"app".to_string(), &vec![]);
    assert_eq!(
        args,
        vec![
            "--virtgpu-channel",
            "-X",
            "--glamor",
            "--xwayland-gl-driver-path=/usr/lib/dri",
            "app"
        ]
    );
}

#[test]
fn net_modes_are_distinct() {
    assert_ne!(NetMode::PASST, NetMode::TSI);
    let m = NetMode::TSI;
    assert_eq!(m, m.clone());
}

#[test]
fn each_mode_runs_one_connector() {
    assert_eq!(NetMode::PASST.network_path(), NetworkPath::ConnectToHost);
    assert_eq!(NetMode::TSI.network_path(), NetworkPath::ConfigureGuest);
}
