use toolchain_sync::sync::{
    check_report, compare_toolchain, complete_toolchain, plan_install, read_report,
    run_rustup_command,
};
use toolchain_sync::{
    command_args, failure_notice, status_args, upgrade_toolchain, upgrade_toolchain_if_outdated,
    Outcome, Progress, Stage,
};

const STABLE_REPORT: &str = "Default host: x86_64-unknown-linux-gnu\n\
\n\
stable-x86_64-unknown-linux-gnu (default)\n\
\n\
1.70.0-x86_64-unknown-linux-gnu (directory override for '/work')\n";

const DEFAULT_ONLY_REPORT: &str = "Default host: x86_64-unknown-linux-gnu\n\
\n\
stable-x86_64-unknown-linux-gnu (default)\n\
rustc 1.75.0\n";

const COMPLETE: &str = "1.71.0-x86_64-unknown-linux-gnu";

fn report(text: &str) -> Outcome {
    Outcome::Exited { success: true, stdout: text.as_bytes().to_vec(), stderr: Vec::new() }
}

fn succeeded() -> Outcome {
    Outcome::Exited { success: true, stdout: b"done".to_vec(), stderr: b"info".to_vec() }
}

fn failed(stderr: &[u8]) -> Outcome {
    Outcome::Exited { success: false, stdout: Vec::new(), stderr: stderr.to_vec() }
}

fn words(args: &[&str]) -> Vec<String> {
    args.iter().map(|s| s.to_string()).collect()
}

fn not_run() -> Progress {
    Progress::Done(Err("Could not run rustup command".to_string()))
}

#[test]
fn complete_name_joins_pin_and_host_with_a_hyphen() {
    assert_eq!(
        complete_toolchain("1.70.0", "x86_64-unknown-linux-gnu"),
        "1.70.0-x86_64-unknown-linux-gnu"
    );
    assert_eq!(complete_toolchain("", ""), "-");
    assert_eq!(complete_toolchain("nightly", ""), "nightly-");
}

#[test]
fn matching_toolchain_ends_the_workflow_at_once() {
    assert_eq!(
        upgrade_toolchain_if_outdated("1.70.0", &report(STABLE_REPORT)),
        Progress::Done(Ok(()))
    );
    assert_eq!(
        upgrade_toolchain_if_outdated("1.70.0-x86_64-unknown-linux-gnu", &report(STABLE_REPORT)),
        Progress::Done(Ok(()))
    );
}

#[test]
fn default_toolchain_is_asked_for_where_no_override_is_set() {
    assert_eq!(
        upgrade_toolchain_if_outdated("stable", &report(DEFAULT_ONLY_REPORT)),
        Progress::Run(Stage::ReadDefault)
    );
    assert_eq!(command_args(&Stage::ReadDefault), words(&["show"]));
    assert_eq!(
        upgrade_toolchain("stable", Stage::ReadDefault, &report(DEFAULT_ONLY_REPORT)),
        Progress::Done(Ok(()))
    );
    assert_eq!(
        upgrade_toolchain("1.71.0", Stage::ReadDefault, &report(DEFAULT_ONLY_REPORT)),
        Progress::Run(Stage::ReadHost)
    );
    assert_eq!(
        upgrade_toolchain("1.70.0", Stage::ReadDefault, &report(STABLE_REPORT)),
        Progress::Run(Stage::ReadHost)
    );
}

#[test]
fn verdict_on_the_toolchain_in_effect() {
    assert_eq!(compare_toolchain("1.70", Ok("1.70.0-x86_64".to_string())), Progress::Done(Ok(())));
    assert_eq!(compare_toolchain("1.71", Ok("1.70.0-x86_64".to_string())), Progress::Run(Stage::ReadHost));
    assert_eq!(compare_toolchain("a", Ok(String::new())), Progress::Run(Stage::ReadHost));
    assert_eq!(
        compare_toolchain("1.70", Err("no report".to_string())),
        Progress::Done(Err("no report".to_string()))
    );
}

#[test]
fn containment_not_equality_decides() {
    assert_eq!(check_report("70", STABLE_REPORT), Progress::Done(Ok(())));
    assert_eq!(check_report("", STABLE_REPORT), Progress::Done(Ok(())));
    assert_eq!(check_report("stable", STABLE_REPORT), Progress::Run(Stage::ReadHost));
    assert_eq!(check_report("1.70.0 ", STABLE_REPORT), Progress::Run(Stage::ReadHost));
}

#[test]
fn outdated_toolchain_runs_the_three_commands_in_order() {
    assert_eq!(status_args(), words(&["show"]));
    let first = upgrade_toolchain_if_outdated("1.71.0", &report(STABLE_REPORT));
    assert_eq!(first, Progress::Run(Stage::ReadHost));

    assert_eq!(command_args(&Stage::ReadHost), words(&["show"]));
    let second = upgrade_toolchain("1.71.0", Stage::ReadHost, &report(STABLE_REPORT));
    assert_eq!(second, Progress::Run(Stage::Install { toolchain: COMPLETE.to_string() }));

    let install = Stage::Install { toolchain: COMPLETE.to_string() };
    assert_eq!(command_args(&install), words(&["toolchain", "install", COMPLETE]));
    let third = upgrade_toolchain("1.71.0", install, &succeeded());
    assert_eq!(third, Progress::Run(Stage::AddTarget { toolchain: COMPLETE.to_string() }));

    let target = Stage::AddTarget { toolchain: COMPLETE.to_string() };
    assert_eq!(command_args(&target), words(&["target", "add", "wasm32-unknown-unknown"]));
    let fourth = upgrade_toolchain("1.71.0", target, &succeeded());
    assert_eq!(fourth, Progress::Run(Stage::SetOverride { toolchain: COMPLETE.to_string() }));

    let set = Stage::SetOverride { toolchain: COMPLETE.to_string() };
    assert_eq!(command_args(&set), words(&["override", "set", COMPLETE]));
    assert_eq!(upgrade_toolchain("1.71.0", set, &succeeded()), Progress::Done(Ok(())));
}

#[test]
fn driving_the_workflow_to_its_end() {
    let outcomes = vec![report(STABLE_REPORT), report(STABLE_REPORT), succeeded(), succeeded(), succeeded()];
    let mut commands = vec![status_args()];
    let mut progress = upgrade_toolchain_if_outdated("1.71.0", &outcomes[0]);
    let mut used = 1;
    let result = loop {
        match progress {
            Progress::Done(result) => break result,
            Progress::Run(stage) => {
                commands.push(command_args(&stage));
                progress = upgrade_toolchain("1.71.0", stage, &outcomes[used]);
                used += 1;
            }
        }
    };
    assert_eq!(result, Ok(()));
    assert_eq!(used, 5);
    assert_eq!(
        commands,
        vec![
            words(&["show"]),
            words(&["show"]),
            words(&["toolchain", "install", COMPLETE]),
            words(&["target", "add", "wasm32-unknown-unknown"]),
            words(&["override", "set", COMPLETE]),
        ]
    );
}

#[test]
fn driving_the_workflow_without_an_override() {
    let outcomes = vec![
        report(DEFAULT_ONLY_REPORT),
        report(DEFAULT_ONLY_REPORT),
        report(DEFAULT_ONLY_REPORT),
        succeeded(),
        failed(b"no network"),
        succeeded(),
    ];
    let mut commands = vec![status_args()];
    let mut progress = upgrade_toolchain_if_outdated("1.71.0", &outcomes[0]);
    let mut used = 1;
    let result = loop {
        match progress {
            Progress::Done(result) => break result,
            Progress::Run(stage) => {
                commands.push(command_args(&stage));
                progress = upgrade_toolchain("1.71.0", stage, &outcomes[used]);
                used += 1;
            }
        }
    };
    assert_eq!(result, Err("no network".to_string()));
    assert_eq!(used, 5);
    assert_eq!(
        commands,
        vec![
            words(&["show"]),
            words(&["show"]),
            words(&["show"]),
            words(&["toolchain", "install", COMPLETE]),
            words(&["target", "add", "wasm32-unknown-unknown"]),
        ]
    );
}

#[test]
fn driving_a_failed_install() {
    let outcomes = vec![report(STABLE_REPORT), report(STABLE_REPORT), failed(b"disk full")];
    let mut commands = vec![status_args()];
    let mut progress = upgrade_toolchain_if_outdated("1.71.0", &outcomes[0]);
    let mut used = 1;
    let result = loop {
        match progress {
            Progress::Done(result) => break result,
            Progress::Run(stage) => {
                commands.push(command_args(&stage));
                progress = upgrade_toolchain("1.71.0", stage, &outcomes[used]);
                used += 1;
            }
        }
    };
    assert_eq!(result, Err("disk full".to_string()));
    assert_eq!(
        commands,
        vec![words(&["show"]), words(&["show"]), words(&["toolchain", "install", COMPLETE])]
    );
}

#[test]
fn failed_install_ends_the_workflow_with_its_error_text() {
    let install = Stage::Install { toolchain: COMPLETE.to_string() };
    let next = upgrade_toolchain("1.71.0", install, &failed(b"error: no such toolchain\n"));
    assert_eq!(next, Progress::Done(Err("error: no such toolchain\n".to_string())));
    match next {
        Progress::Done(Err(message)) => assert!(message.contains("error: no such toolchain\n")),
        _ => panic!("the workflow went on after a failed install"),
    }
}

#[test]
fn failed_target_and_override_end_the_workflow() {
    let target = Stage::AddTarget { toolchain: COMPLETE.to_string() };
    assert_eq!(
        upgrade_toolchain("1.71.0", target, &failed(b"offline")),
        Progress::Done(Err("offline".to_string()))
    );
    let set = Stage::SetOverride { toolchain: COMPLETE.to_string() };
    assert_eq!(
        upgrade_toolchain("1.71.0", set, &failed(b"")),
        Progress::Done(Err(String::new()))
    );
}

#[test]
fn command_that_could_not_start_ends_the_workflow() {
    assert_eq!(upgrade_toolchain_if_outdated("1.71.0", &Outcome::NotRun), not_run());
    assert_eq!(upgrade_toolchain("1.71.0", Stage::ReadDefault, &Outcome::NotRun), not_run());
    assert_eq!(upgrade_toolchain("1.71.0", Stage::ReadHost, &Outcome::NotRun), not_run());
    assert_eq!(
        upgrade_toolchain("1.71.0", Stage::Install { toolchain: COMPLETE.to_string() }, &Outcome::NotRun),
        not_run()
    );
    assert_eq!(
        upgrade_toolchain("1.71.0", Stage::AddTarget { toolchain: COMPLETE.to_string() }, &Outcome::NotRun),
        not_run()
    );
    assert_eq!(
        upgrade_toolchain("1.71.0", Stage::SetOverride { toolchain: COMPLETE.to_string() }, &Outcome::NotRun),
        not_run()
    );
}

#[test]
fn report_errors_end_the_workflow() {
    assert_eq!(
        upgrade_toolchain_if_outdated("1.71.0", &report("nothing of use")),
        Progress::Run(Stage::ReadDefault)
    );
    assert_eq!(
        upgrade_toolchain("1.71.0", Stage::ReadDefault, &report("nothing of use")),
        Progress::Done(Err("Could not extract information from rustup".to_string()))
    );
    assert_eq!(
        upgrade_toolchain_if_outdated("1.71.0", &report(" (directory override)")),
        Progress::Done(Err("incompatible meta section".to_string()))
    );
    assert_eq!(
        upgrade_toolchain("1.71.0", Stage::ReadHost, &report("stable (default)")),
        Progress::Done(Err("Could not extract information from rustup".to_string()))
    );
    assert_eq!(
        plan_install("1.71.0", "Default host:"),
        Progress::Done(Err("Could not get default-host".to_string()))
    );
}

#[test]
fn status_query_is_read_whatever_its_exit_status() {
    let outcome = Outcome::Exited {
        success: false,
        stdout: STABLE_REPORT.as_bytes().to_vec(),
        stderr: b"warning".to_vec(),
    };
    assert_eq!(read_report(&outcome), Ok(STABLE_REPORT.to_string()));
    assert_eq!(upgrade_toolchain_if_outdated("1.70.0", &outcome), Progress::Done(Ok(())));
    assert_eq!(read_report(&Outcome::NotRun), Err("Could not run rustup command".to_string()));
}

#[test]
fn invalid_bytes_are_replaced_not_refused() {
    let outcome = Outcome::Exited {
        success: true,
        stdout: b"Default host: x\xffy\n".to_vec(),
        stderr: Vec::new(),
    };
    assert_eq!(read_report(&outcome), Ok("Default host: x\u{fffd}y\n".to_string()));
    assert_eq!(
        upgrade_toolchain("p", Stage::ReadHost, &outcome),
        Progress::Run(Stage::Install { toolchain: "p-x\u{fffd}y".to_string() })
    );
    assert_eq!(
        run_rustup_command(&failed(b"bad \xc3\x28 byte")),
        Err("bad \u{fffd}( byte".to_string())
    );
    let valid = Outcome::Exited {
        success: true,
        stdout: "h\u{e9}".as_bytes().to_vec(),
        stderr: Vec::new(),
    };
    assert_eq!(read_report(&valid), Ok("h\u{e9}".to_string()));
}

#[test]
fn step_outcomes_are_judged_by_exit_status() {
    assert_eq!(run_rustup_command(&succeeded()), Ok(()));
    assert_eq!(run_rustup_command(&failed(b"why")), Err("why".to_string()));
    assert_eq!(run_rustup_command(&failed(b"")), Err(String::new()));
    assert_eq!(
        run_rustup_command(&Outcome::NotRun),
        Err("Could not run rustup command".to_string())
    );
}

#[test]
fn failed_step_hands_on_the_error_text_as_it_stands() {
    assert_eq!(run_rustup_command(&failed(b"error: boom\n")), Err("error: boom\n".to_string()));
    let target = Stage::AddTarget { toolchain: COMPLETE.to_string() };
    assert_eq!(
        upgrade_toolchain("1.71.0", target, &failed(b"error: boom\n")),
        Progress::Done(Err("error: boom\n".to_string()))
    );
    assert_eq!(
        run_rustup_command(&failed(b"  two lines\n\tof text  \n")),
        Err("  two lines\n\tof text  \n".to_string())
    );
}

#[test]
fn notice_names_the_step_that_failed() {
    let install = Stage::Install { toolchain: COMPLETE.to_string() };
    let target = Stage::AddTarget { toolchain: COMPLETE.to_string() };
    let set = Stage::SetOverride { toolchain: COMPLETE.to_string() };
    assert_eq!(
        failure_notice(&install, &failed(b"boom")),
        Some("problem installing toolchain".to_string())
    );
    assert_eq!(
        failure_notice(&target, &failed(b"boom")),
        Some("Failed to add wasm target".to_string())
    );
    assert_eq!(failure_notice(&set, &failed(b"")), Some("Failed to set override".to_string()));
    assert_eq!(failure_notice(&install, &succeeded()), None);
    assert_eq!(failure_notice(&target, &succeeded()), None);
    assert_eq!(failure_notice(&set, &succeeded()), None);
    assert_eq!(failure_notice(&install, &Outcome::NotRun), None);
    assert_eq!(failure_notice(&Stage::ReadDefault, &failed(b"boom")), None);
    assert_eq!(failure_notice(&Stage::ReadHost, &failed(b"boom")), None);
}

#[test]
fn host_is_read_anew_for_the_complete_name() {
    let other = "Default host: aarch64-apple-darwin\n";
    assert_eq!(
        upgrade_toolchain("1.71.0", Stage::ReadHost, &report(other)),
        Progress::Run(Stage::Install { toolchain: "1.71.0-aarch64-apple-darwin".to_string() })
    );
    assert_eq!(
        plan_install("1.70.0", "Default host: x86_64-unknown-linux-gnu"),
        Progress::Run(Stage::Install { toolchain: "1.70.0-x86_64-unknown-linux-gnu".to_string() })
    );
}
