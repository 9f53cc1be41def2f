//! Tests of the subprocess lifecycle model, the launch command, and the
//! child-side privilege-drop decision.

use driver_supervisor::decimal::u16_to_decimal;
use driver_supervisor::error::Error;
use driver_supervisor::webdriver::child_action_after_setup;
use driver_supervisor::webdriver::child_setup;
use driver_supervisor::webdriver::launch_command;
use driver_supervisor::webdriver::start_result;
use driver_supervisor::webdriver::ChildAction;
use driver_supervisor::webdriver::ChromeDriver;

#[test]
fn started_driver_is_alive_immediately() {
    let d = ChromeDriver::new(4444);
    assert_eq!(d.port, 4444);
    assert!(d.is_alive());
    assert!(!d.has_exited());
}

#[test]
fn kill_then_observed_exit_means_not_alive() {
    let mut d = ChromeDriver::new(4444);
    let sent = d.kill();
    assert!(sent);
    d.observe(true);
    assert!(!d.is_alive());
    assert!(d.has_exited());
}

#[test]
fn kill_is_idempotent_in_effect() {
    let mut d = ChromeDriver::new(4444);
    assert!(d.kill());
    let sent_again = d.kill();
    assert!(!sent_again);
    assert!(!d.is_alive());
}

#[test]
fn observation_without_exit_keeps_it_alive() {
    let mut d = ChromeDriver::new(4444);
    d.observe(false);
    assert!(d.is_alive());
    d.observe(true);
    assert!(d.has_exited());
    d.observe(false);
    assert!(d.has_exited());
}

#[test]
fn teardown_kills_a_running_child() {
    let mut d = ChromeDriver::new(4444);
    assert!(d.teardown_needs_kill());
    let killed = d.teardown();
    assert!(killed);
    assert!(!d.is_alive());
}

#[test]
fn teardown_leaves_an_exited_child_alone() {
    let mut d = ChromeDriver::new(4444);
    d.observe(true);
    assert!(!d.teardown_needs_kill());
    let killed = d.teardown();
    assert!(!killed);
    assert!(!d.is_alive());
}

#[test]
fn launch_command_has_port_and_verbose_flags() {
    let c = launch_command("/usr/bin/chromedriver", 4444);
    assert_eq!(c.program, "/usr/bin/chromedriver");
    assert_eq!(c.args, vec!["--port=4444".to_string(), "--verbose".to_string()]);
}

#[test]
fn launch_command_renders_other_ports() {
    let c = launch_command("/opt/driver", 80);
    assert_eq!(c.args[0], "--port=80");
}

#[test]
fn decimal_rendering_is_exact() {
    assert_eq!(u16_to_decimal(0), "0");
    assert_eq!(u16_to_decimal(7), "7");
    assert_eq!(u16_to_decimal(10), "10");
    assert_eq!(u16_to_decimal(3000), "3000");
    assert_eq!(u16_to_decimal(4444), "4444");
    assert_eq!(u16_to_decimal(65535), "65535");
}

#[test]
fn child_aborts_exactly_when_setup_failed() {
    let failed: Result<(), Error> =
        Err(Error::CapSetError(caps::errors::CapsError::from("denied")));
    assert!(matches!(child_action_after_setup(&failed), ChildAction::Abort));
    let ok: Result<(), Error> = Ok(());
    assert!(matches!(child_action_after_setup(&ok), ChildAction::Exec));
}

#[test]
fn child_setup_reports_only_the_privilege_drop_kind() {
    // Whatever the OS answers, a failure of the setup is always the
    // privilege-drop kind, and the child then aborts.
    match child_setup() {
        Ok(()) => {
            assert!(matches!(child_action_after_setup(&Ok(())), ChildAction::Exec));
        }
        Err(e) => {
            assert!(matches!(e, Error::CapSetError(_)));
            assert!(matches!(child_action_after_setup(&Err(e)), ChildAction::Abort));
        }
    }
}

#[test]
fn start_hands_back_a_running_handle_or_the_spawn_error() {
    let d = start_result(4444, Ok(())).unwrap();
    assert!(d.is_alive());
    assert_eq!(d.port, 4444);
    let os_error = std::io::Error::new(std::io::ErrorKind::NotFound, "no such file");
    let e = start_result(4444, Err(os_error)).unwrap_err();
    assert!(matches!(e, Error::ChromeDriverStartError(_)));
    assert_eq!(e.message(), "Could not launch chromedriver");
}

#[test]
fn error_messages_name_each_kind() {
    let e = Error::CapSetError(caps::errors::CapsError::from("denied"));
    assert_eq!(e.message(), "Could not set process capabilities");
    assert!(e.is_fatal_to_start());
    let e = Error::ChromeDriverStartError(std::io::Error::new(
        std::io::ErrorKind::NotFound,
        "no such file",
    ));
    assert_eq!(e.message(), "Could not launch chromedriver");
    assert!(e.is_fatal_to_start());
    let e = Error::MissingParameter("url");
    assert_eq!(e.message(), "Missing parameter: url");
    assert!(!e.is_fatal_to_start());
}
