use hyperlight_nanvix::config::RuntimeConfig;
use hyperlight_nanvix::error::RunError;
use hyperlight_nanvix::protocol::{Action, Event};
use hyperlight_nanvix::runtime::Runtime;

/// A process whose working directory and disk the actions change, and whose
/// other answers are scripted.
struct Process {
    cwd: String,
    directories: Vec<String>,
    exists: bool,
    cached: bool,
    install: Result<(), String>,
    interpreter: Option<String>,
    kernel: Option<String>,
    mkdir: Result<(), String>,
    canonical: Option<String>,
    engine: Result<(), String>,
    chdir: Result<(), String>,
    log: Vec<String>,
}

fn scripted() -> Process {
    Process {
        cwd: "/home/alice/project".to_string(),
        directories: Vec::new(),
        exists: true,
        cached: true,
        install: Ok(()),
        interpreter: Some("/c/hyperlight-single-process-1.0/bin/python3".to_string()),
        kernel: Some("/c/hyperlight-single-process-1.0/bin/kernel.elf".to_string()),
        mkdir: Ok(()),
        canonical: Some("/home/alice/project/script.py".to_string()),
        engine: Ok(()),
        chdir: Ok(()),
        log: Vec::new(),
    }
}

fn answer(process: &mut Process, action: &Action<u32>) -> Event {
    match action {
        Action::ProbeRegularFile(_) => Event::Flag(process.exists),
        Action::ProbeExists(_) => Event::Flag(process.exists),
        Action::ProbeCached(_) => Event::Flag(process.cached),
        Action::Install(request) => {
            process.log.push(format!("install {}", request.package));
            Event::Completed(process.install.clone())
        },
        Action::Resolve(name) => {
            if name == "kernel.elf" {
                Event::Located(process.kernel.clone())
            } else {
                Event::Located(process.interpreter.clone())
            }
        },
        Action::CreateDirectory(dir) => {
            if process.mkdir.is_ok() {
                process.directories.push(dir.clone());
            }
            Event::Completed(process.mkdir.clone())
        },
        Action::Canonicalize(_) => Event::Located(process.canonical.clone()),
        Action::CurrentDirectory => Event::Located(Some(process.cwd.clone())),
        Action::ChangeDirectory(dir) => {
            if process.chdir.is_ok() {
                process.cwd = dir.clone();
            }
            process.log.push(format!("chdir {}", dir));
            Event::Completed(process.chdir.clone())
        },
        Action::Invoke(engine, invocation) => {
            assert!(process.directories.contains(&engine.log_directory));
            assert!(process.directories.contains(&engine.tmp_directory));
            process.log.push(format!("invoke {} in {}", invocation.binary_path, process.cwd));
            Event::Completed(process.engine.clone())
        },
        Action::RestoreDirectory(dir) => {
            process.cwd = dir.clone();
            process.log.push(format!("restore {}", dir));
            Event::Completed(Ok(()))
        },
        Action::Finish(_) => unreachable!(),
    }
}

fn run_to_end(process: &mut Process, path: &str, clock: Option<u128>) -> Result<(), RunError> {
    let config = RuntimeConfig::for_process(1, 2).with_log_directory("/var/log/run");
    let runtime: Runtime<u32> = match Runtime::new(config) {
        Ok(runtime) => runtime,
        Err(e) => panic!("no runtime: {:?}", e),
    };
    let (mut run, mut action) = runtime.run(path);
    for _ in 0..32 {
        if let Action::Finish(outcome) = action {
            return outcome;
        }
        let event = answer(process, &action);
        let (next, following) = run.step_at(event, clock);
        run = next;
        action = following;
    }
    panic!("the run did not finish");
}

#[test]
fn working_directory_is_restored_after_success() {
    let mut process = scripted();
    let outcome = run_to_end(&mut process, "script.py", Some(5));
    assert_eq!(outcome, Ok(()));
    assert_eq!(process.cwd, "/home/alice/project");
    assert_eq!(
        process.log,
        vec![
            "chdir /c/hyperlight-single-process-1.0".to_string(),
            "invoke bin/python3 in /c/hyperlight-single-process-1.0".to_string(),
            "restore /home/alice/project".to_string(),
        ]
    );
}

#[test]
fn working_directory_is_restored_after_engine_failure() {
    let mut process = scripted();
    process.engine = Err("guest crashed".to_string());
    let outcome = run_to_end(&mut process, "script.py", Some(5));
    assert_eq!(outcome, Err(RunError::Engine("guest crashed".to_string())));
    assert_eq!(process.cwd, "/home/alice/project");
    assert_eq!(process.log.last(), Some(&"restore /home/alice/project".to_string()));
}

#[test]
fn working_directory_is_restored_after_late_failures() {
    let mut process = scripted();
    let outcome = run_to_end(&mut process, "script.py", None);
    assert_eq!(outcome, Err(RunError::ClockBeforeEpoch));
    assert_eq!(process.cwd, "/home/alice/project");

    let mut process = scripted();
    process.canonical = Some("/".to_string());
    let outcome = run_to_end(&mut process, "script.py", Some(5));
    assert_eq!(outcome, Err(RunError::InvalidWorkloadPath));
    assert_eq!(process.cwd, "/home/alice/project");
}

#[test]
fn working_directory_is_untouched_by_early_failures() {
    let mut process = scripted();
    process.exists = false;
    assert_eq!(run_to_end(&mut process, "script.py", Some(5)), Err(RunError::WorkloadNotFound));
    assert_eq!(process.cwd, "/home/alice/project");
    assert!(process.log.is_empty());

    let mut process = scripted();
    process.cached = false;
    process.install = Err("offline".to_string());
    assert_eq!(
        run_to_end(&mut process, "script.py", Some(5)),
        Err(RunError::ArtifactInstallFailed("offline".to_string()))
    );
    assert_eq!(process.cwd, "/home/alice/project");
    assert_eq!(process.log, vec!["install python".to_string()]);

    let mut process = scripted();
    process.kernel = None;
    assert_eq!(
        run_to_end(&mut process, "script.py", Some(5)),
        Err(RunError::ArtifactResolutionFailed("kernel.elf".to_string()))
    );
    assert_eq!(process.cwd, "/home/alice/project");

    let mut process = scripted();
    process.mkdir = Err("denied".to_string());
    assert_eq!(
        run_to_end(&mut process, "script.py", Some(5)),
        Err(RunError::DirectorySetupFailed("denied".to_string()))
    );
    assert_eq!(process.cwd, "/home/alice/project");
}

#[test]
fn working_directory_is_untouched_where_the_change_fails() {
    let mut process = scripted();
    process.chdir = Err("no such directory".to_string());
    let outcome = run_to_end(&mut process, "script.py", Some(5));
    assert_eq!(outcome, Ok(()));
    assert_eq!(process.cwd, "/home/alice/project");
    assert_eq!(
        process.log,
        vec![
            "chdir /c/hyperlight-single-process-1.0".to_string(),
            "invoke bin/python3 in /home/alice/project".to_string(),
        ]
    );
}

#[test]
fn other_workload_types_never_change_the_working_directory() {
    for path in ["file_ops.js", "module.mjs", "program.elf", "unit.o", "program"] {
        let mut process = scripted();
        process.interpreter = Some("/c/hyperlight-single-process-1.0/bin/qjs".to_string());
        process.canonical = Some(format!("/home/alice/project/{}", path));
        let outcome = run_to_end(&mut process, path, Some(5));
        assert_eq!(outcome, Ok(()));
        assert_eq!(process.cwd, "/home/alice/project");
        assert_eq!(process.log.len(), 1);
        assert!(process.log[0].starts_with("invoke "));
        assert!(process.log[0].ends_with(" in /home/alice/project"));
    }
}

#[test]
fn engine_finds_the_directories_it_is_configured_with() {
    let mut process = scripted();
    let outcome = run_to_end(&mut process, "file_ops.js", Some(5));
    assert_eq!(outcome, Ok(()));
    assert_eq!(
        process.directories,
        vec!["/tmp/hyperlight-nanvix-1-2".to_string(), "/var/log/run".to_string()]
    );
    assert_eq!(process.log.len(), 1);
}

#[test]
fn engine_is_not_invoked_without_its_directories() {
    let mut process = scripted();
    process.mkdir = Err("read-only file system".to_string());
    let outcome = run_to_end(&mut process, "file_ops.js", Some(5));
    assert_eq!(outcome, Err(RunError::DirectorySetupFailed("read-only file system".to_string())));
    assert!(process.directories.is_empty());
    assert!(process.log.is_empty());
}
