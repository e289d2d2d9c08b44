use naive_ui_lsp::command::{launch_command, STDIO_FLAG};
use naive_ui_lsp::resolver::{
    Event, InstallStatus, Request, ResolveError, ServerResolver, Step, PACKAGE_NAME, SERVER_PATH,
};

const PATH: &str = "node_modules/pkg/dist/server.js";

/// Answers fixed in advance for one resolution.
struct Host {
    exists_before: bool,
    latest: Result<String, String>,
    install: Result<(), String>,
    exists_after: bool,
}

/// Runs a resolution against `host`; returns the requests made and the result.
fn run(host: &Host) -> (Vec<Request>, Result<String, ResolveError>) {
    let mut resolver = ServerResolver::new(PATH.to_string());
    let mut requests = Vec::new();
    let mut installed = false;
    let mut event = Event::Begin;
    loop {
        match resolver.step(event) {
            Step::Finish(result) => return (requests, result),
            Step::Perform(request) => {
                event = match &request {
                    Request::CheckServerExists => Event::ServerExists(if installed {
                        host.exists_after
                    } else {
                        host.exists_before
                    }),
                    Request::ReportStatus(_) => Event::StatusReported,
                    Request::FetchLatestVersion => Event::LatestVersion(host.latest.clone()),
                    Request::InstallPackage(_) => {
                        installed = true;
                        Event::InstallFinished(host.install.clone())
                    }
                };
                requests.push(request);
            }
        }
        assert!(requests.len() <= 6, "resolution did not finish");
    }
}

fn asks_registry(requests: &[Request]) -> bool {
    requests.iter().any(|r| matches!(r, Request::FetchLatestVersion))
}

fn installs(requests: &[Request]) -> Vec<String> {
    requests
        .iter()
        .filter_map(|r| match r {
            Request::InstallPackage(v) => Some(v.clone()),
            _ => None,
        })
        .collect()
}

#[test]
fn existing_script_returns_at_once() {
    let host = Host {
        exists_before: true,
        latest: Err("unreachable registry".to_string()),
        install: Err("no installer".to_string()),
        exists_after: false,
    };
    let (requests, result) = run(&host);
    assert_eq!(result.unwrap(), PATH);
    assert_eq!(requests.len(), 1);
    assert!(matches!(requests[0], Request::CheckServerExists));
    assert!(!asks_registry(&requests));
    assert!(installs(&requests).is_empty());
}

#[test]
fn registry_failure_aborts_without_install() {
    let host = Host {
        exists_before: false,
        latest: Err("network down".to_string()),
        install: Ok(()),
        exists_after: true,
    };
    let (requests, result) = run(&host);
    match result {
        Err(ResolveError::RegistryQuery(e)) => assert_eq!(e, "network down"),
        other => panic!("unexpected result {:?}", other),
    }
    assert!(asks_registry(&requests));
    assert!(installs(&requests).is_empty());
}

#[test]
fn absent_script_installs_latest_version() {
    // The locally installed version plays no part: the missing file decides.
    let host = Host {
        exists_before: false,
        latest: Ok("1.4.2".to_string()),
        install: Ok(()),
        exists_after: true,
    };
    let (requests, result) = run(&host);
    assert_eq!(result.unwrap(), PATH);
    assert_eq!(installs(&requests), vec!["1.4.2".to_string()]);
}

#[test]
fn status_reports_come_in_order() {
    let host = Host {
        exists_before: false,
        latest: Ok("1.0.0".to_string()),
        install: Ok(()),
        exists_after: true,
    };
    let (requests, _) = run(&host);
    let statuses: Vec<InstallStatus> = requests
        .iter()
        .filter_map(|r| match r {
            Request::ReportStatus(s) => Some(*s),
            _ => None,
        })
        .collect();
    assert_eq!(statuses, vec![InstallStatus::CheckingForUpdate, InstallStatus::Downloading]);
    assert_eq!(requests.len(), 6);
    assert!(matches!(requests[5], Request::CheckServerExists));
}

#[test]
fn successful_install_without_script_is_incomplete() {
    let host = Host {
        exists_before: false,
        latest: Ok("2.0.0".to_string()),
        install: Ok(()),
        exists_after: false,
    };
    let (_, result) = run(&host);
    assert!(matches!(result, Err(ResolveError::InstallIncomplete)));
}

#[test]
fn failed_install_with_script_present_succeeds() {
    let host = Host {
        exists_before: false,
        latest: Ok("2.0.0".to_string()),
        install: Err("EEXIST".to_string()),
        exists_after: true,
    };
    let (_, result) = run(&host);
    assert_eq!(result.unwrap(), PATH);
}

#[test]
fn failed_install_without_script_keeps_installer_error() {
    let host = Host {
        exists_before: false,
        latest: Ok("2.0.0".to_string()),
        install: Err("npm exited with 1".to_string()),
        exists_after: false,
    };
    let (_, result) = run(&host);
    match result {
        Err(ResolveError::Installer(e)) => assert_eq!(e, "npm exited with 1"),
        other => panic!("unexpected result {:?}", other),
    }
}

#[test]
fn out_of_sequence_answer_ends_resolution() {
    let mut resolver = ServerResolver::new(PATH.to_string());
    assert!(matches!(resolver.step(Event::StatusReported), Step::Finish(Err(ResolveError::OutOfSequence))));
    assert!(matches!(resolver.step(Event::Begin), Step::Finish(Err(ResolveError::OutOfSequence))));
}

#[test]
fn finished_resolver_rejects_further_answers() {
    let mut resolver = ServerResolver::new(PATH.to_string());
    assert!(matches!(resolver.step(Event::Begin), Step::Perform(Request::CheckServerExists)));
    assert!(matches!(resolver.step(Event::ServerExists(true)), Step::Finish(Ok(_))));
    assert!(matches!(resolver.step(Event::ServerExists(true)), Step::Finish(Err(ResolveError::OutOfSequence))));
}

#[test]
fn fresh_install_scenario_builds_launch_command() {
    let host = Host {
        exists_before: false,
        latest: Ok("2.0.0".to_string()),
        install: Ok(()),
        exists_after: true,
    };
    let (requests, result) = run(&host);
    assert_eq!(installs(&requests), vec!["2.0.0".to_string()]);
    let path = result.unwrap();
    assert_eq!(path, "node_modules/pkg/dist/server.js");

    let cmd = launch_command("/usr/bin/node".to_string(), "/home/user/project", &path);
    assert_eq!(cmd.command, "/usr/bin/node");
    assert_eq!(
        cmd.args,
        vec![
            "/home/user/project/node_modules/pkg/dist/server.js".to_string(),
            "--stdio".to_string(),
        ]
    );
    assert!(cmd.env.is_empty());
}

#[test]
fn launch_command_joins_against_directory_with_trailing_slash() {
    let cmd = launch_command("node".to_string(), "/work/", SERVER_PATH);
    assert_eq!(cmd.args[0], "/work/node_modules/naive-ui-language-server/dist/server.js");
    assert_eq!(cmd.args[1], STDIO_FLAG);
}

#[test]
fn resolver_keeps_configured_path() {
    let resolver = ServerResolver::new(SERVER_PATH.to_string());
    assert_eq!(resolver.server_path(), SERVER_PATH);
    assert!(SERVER_PATH.starts_with("node_modules/"));
    assert!(SERVER_PATH.contains(PACKAGE_NAME));
}
