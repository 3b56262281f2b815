use aws_build::builder::Builder;
use aws_build::command::CommandLine;
use aws_build::container::ContainerLauncher;
use aws_build::error::BuildError;
use aws_build::mode::{BuildMode, Relabel};
use aws_build::package::bootstrap_zip;
use aws_build::paths::{join_path, relative_project_path, BuildLayout};
use aws_build::permissions::PermissionGuard;
use aws_build::session::{Action, BuildSession, BuilderOutput, Event, Stage};
use aws_build::targets::{binary_names, select_bin, TargetInfo};

fn strings(v: &[&str]) -> Vec<String> {
    v.iter().map(|s| s.to_string()).collect()
}

fn argv(c: &CommandLine) -> Vec<String> {
    let mut v = vec![c.program.clone()];
    v.extend(c.args.iter().cloned());
    v
}

fn target(name: &str, kinds: &[&str]) -> TargetInfo {
    TargetInfo { name: name.to_string(), kinds: strings(kinds) }
}

fn builder(mode: BuildMode, launcher: &str) -> Builder {
    Builder {
        mode,
        launcher: ContainerLauncher::parse(launcher).unwrap(),
        relabel: Some(Relabel::Unshared),
        ..Default::default()
    }
}

/// Everything a simulated build handed out, and how it ended.
struct Trace {
    actions: Vec<String>,
    runs: Vec<Vec<String>>,
    links: Vec<(String, String)>,
    written: Vec<String>,
    end: Result<BuilderOutput, BuildError>,
}

/// Drive a session to its end, answering each action successfully
/// unless `fail_run` names the subcommand word of a process to fail.
fn simulate(b: Builder, root: &str, project: &str, targets: Vec<TargetInfo>, fail_run: Option<&str>) -> (Trace, BuildSession) {
    let (mut s, mut action) = BuildSession::new(b, root, project, 1000, 1000).unwrap();
    let mut trace = Trace { actions: vec![], runs: vec![], links: vec![], written: vec![], end: Err(BuildError::Filesystem(String::new())) };
    loop {
        let ev = match action {
            Action::EnsureDir(p) => {
                trace.actions.push(format!("mkdir {}", p));
                Event::Done
            }
            Action::ListTargets(p) => {
                trace.actions.push(format!("targets {}", p));
                Event::Targets(targets.clone())
            }
            Action::PrepareContext => {
                trace.actions.push("context".to_string());
                Event::ContextReady("/tmp/ctx".to_string())
            }
            Action::Run(c) => {
                let words = argv(&c);
                trace.actions.push(format!("run {}", words.join(" ")));
                let fail = fail_run.map_or(false, |w| words.iter().any(|x| x == w));
                trace.runs.push(words);
                Event::Exited { success: !fail, output: if fail { "boom".to_string() } else { String::new() } }
            }
            Action::ReadFile(p) => {
                trace.actions.push(format!("read {}", p));
                Event::Contents(b"testcontents".to_vec())
            }
            Action::CopyFile { from, to } => {
                trace.actions.push(format!("copy {} {}", from, to));
                trace.written.push(to);
                Event::Done
            }
            Action::WriteFile { path, contents } => {
                assert!(contents.starts_with(b"PK\x03\x04"));
                trace.actions.push(format!("write {}", path));
                trace.written.push(path);
                Event::Done
            }
            Action::Link { target, link } => {
                trace.actions.push(format!("link {} -> {}", link, target));
                trace.links.push((link, target));
                Event::Done
            }
            Action::Finished(out) => {
                trace.end = Ok(out);
                break;
            }
            Action::Failed(e) => {
                trace.end = Err(e);
                break;
            }
        };
        action = s.step(ev);
    }
    (trace, s)
}

#[test]
fn test_bad_project_path() {
    let root = "/tmp/projects";
    let proj1 = join_path(root, "proj1");
    let proj2 = join_path(root, "proj2");
    let mut b = builder(BuildMode::AmazonLinux2, "docker");
    b.code_root = proj1.clone();
    b.project_path = proj2.clone();
    let r = BuildSession::new(b, &proj1, &proj2, 1000, 1000);
    assert!(r.is_err());
    assert!(matches!(r, Err(BuildError::Configuration(_))));
}

#[test]
fn project_outside_code_root_is_rejected() {
    for (root, project) in [("/a/b", "/a/bc"), ("/a/b", "/a"), ("/a/b", "/x/b"), ("/a/b/", "/a/c")] {
        let r = BuildSession::new(builder(BuildMode::Lambda, "docker"), root, project, 0, 0);
        assert!(matches!(r, Err(BuildError::Configuration(_))), "{} {}", root, project);
    }
}

#[test]
fn relative_paths() {
    assert_eq!(relative_project_path("/a/b", "/a/b").unwrap(), "");
    assert_eq!(relative_project_path("/a/b", "/a/b/c/d").unwrap(), "c/d");
    assert_eq!(relative_project_path("/", "/a/b").unwrap(), "a/b");
    assert!(relative_project_path("/a/b", "/a/bc").is_err());
    assert_eq!(join_path("/", "target"), "/target");
    assert_eq!(join_path("/p", "target"), "/p/target");
}

#[test]
fn layout_paths() {
    let l = BuildLayout::new("/r", "/r/p", BuildMode::Lambda).unwrap();
    assert_eq!(l.relative_project, "p");
    assert_eq!(l.target_dir, "/r/p/target");
    assert_eq!(l.output_dir, "/r/p/target/aws-build");
    assert_eq!(l.registry_dir, "/r/p/target/aws-build/lambda-cargo-registry");
    assert_eq!(l.git_dir, "/r/p/target/aws-build/lambda-cargo-git");
    assert_eq!(l.mode_dir, "/r/p/target/aws-build/lambda");
    assert_eq!(l.symlink, "/r/p/target/latest-lambda");
}

#[test]
fn binary_target_selection() {
    let ts = vec![target("lib", &["lib"]), target("a", &["bin"]), target("b", &["example", "bin"])];
    assert_eq!(binary_names(&ts), strings(&["a", "b"]));
    assert_eq!(
        select_bin(&None, &strings(&["a", "b"])),
        Err(BuildError::Configuration("must specify bin target when package has more than one".to_string()))
    );
    assert!(matches!(select_bin(&None, &Vec::new()), Err(BuildError::Configuration(_))));
    assert_eq!(select_bin(&None, &strings(&["a"])).unwrap(), "a");
    assert_eq!(select_bin(&Some("z".to_string()), &strings(&["a", "b"])).unwrap(), "z");
}

#[test]
fn ambiguous_binary_fails_before_container_work() {
    let targets = vec![target("a", &["bin"]), target("b", &["bin"])];
    let (trace, s) = simulate(builder(BuildMode::AmazonLinux2, "docker"), "/r", "/r", targets, None);
    assert!(matches!(trace.end, Err(BuildError::Configuration(_))));
    assert!(trace.runs.is_empty());
    assert!(!trace.actions.iter().any(|a| a == "context"));
    assert!(!s.container_started);
}

#[test]
fn explicit_bin_resolves_ambiguity() {
    let targets = vec![target("a", &["bin"]), target("b", &["bin"])];
    let mut b = builder(BuildMode::AmazonLinux2, "docker");
    b.bin = Some("b".to_string());
    let (trace, _) = simulate(b, "/r", "/r", targets, None);
    let out = trace.end.unwrap();
    assert!(out.real.starts_with("/r/target/aws-build/al2/al2-b-"));
}

#[test]
fn docker_al2_build_end_to_end() {
    let (trace, s) = simulate(builder(BuildMode::AmazonLinux2, "docker"), "/r", "/r/proj", vec![target("proj", &["bin"])], None);
    let out = trace.end.unwrap();
    assert_eq!(trace.actions[0], "mkdir /r/proj/target");
    assert_eq!(trace.actions[1], "mkdir /r/proj/target/aws-build");
    assert_eq!(trace.actions[2], "targets /r/proj");
    assert_eq!(trace.actions[3], "context");
    assert_eq!(
        trace.runs[0],
        strings(&[
            "docker",
            "build",
            "--build-arg",
            "FROM_IMAGE=docker.io/amazonlinux:2",
            "--build-arg",
            "RUST_VERSION=stable",
            "--build-arg",
            "DEV_PKGS=",
            "--build-arg",
            "PROJECT_PATH=proj",
            "--tag",
            "aws-build-al2-stable",
            "/tmp/ctx",
        ])
    );
    assert_eq!(
        trace.runs[1],
        strings(&[
            "docker",
            "run",
            "--env",
            "TARGET_DIR=/code/target/al2",
            "--env",
            "BIN_TARGET=proj",
            "--init",
            "--rm",
            "--user",
            "1000:1000",
            "--volume",
            "/r:/code:ro,Z",
            "--volume",
            "/r/proj/target/aws-build/al2-cargo-registry:/cargo/registry:rw,Z",
            "--volume",
            "/r/proj/target/aws-build/al2-cargo-git:/cargo/git:rw,Z",
            "--volume",
            "/r/proj/target/aws-build:/code/target:rw,Z",
            "aws-build-al2-stable",
        ])
    );
    // No ownership changes with a rootful runtime.
    assert_eq!(trace.runs.len(), 2);
    assert!(trace.actions.contains(&"read /r/proj/target/aws-build/al2/release/proj".to_string()));
    // The pointer names exactly the artifact just produced.
    assert_eq!(trace.links, vec![(out.symlink.clone(), out.real.clone())]);
    assert_eq!(out.symlink, "/r/proj/target/latest-al2");
    let file = out.real.strip_prefix("/r/proj/target/aws-build/al2/").unwrap();
    let parts: Vec<&str> = file.split('-').collect();
    assert_eq!(parts.len(), 4);
    assert_eq!(parts[0], "al2");
    assert_eq!(parts[1], "proj");
    assert_eq!(parts[2].len(), 8);
    assert_eq!(parts[3], "7097a82a108e78da");
    assert_eq!(trace.written, vec![out.real.clone()]);
    assert_eq!(s.stage, Stage::Finished);
}

#[test]
fn lambda_build_writes_zip_and_links_it() {
    let mut b = builder(BuildMode::Lambda, "docker");
    b.packages = strings(&["openssl-devel", "gcc"]);
    b.strip = true;
    let (trace, _) = simulate(b, "/r", "/r", vec![target("proj", &["bin"])], None);
    let out = trace.end.unwrap();
    assert!(trace.runs[0].contains(&"DEV_PKGS=openssl-devel gcc".to_string()));
    assert!(trace.runs[0].contains(&"PROJECT_PATH=".to_string()));
    assert!(trace.runs.contains(&strings(&["strip", "/r/target/aws-build/lambda/release/proj"])));
    assert!(out.real.starts_with("/r/target/aws-build/lambda/lambda-proj-"));
    assert!(out.real.ends_with("-7097a82a108e78da.zip"));
    assert_eq!(out.symlink, "/r/target/latest-lambda");
    assert_eq!(trace.links, vec![(out.symlink.clone(), out.real.clone())]);
}

#[test]
fn repeated_build_gives_same_name_and_latest_pointer() {
    let (first, _) = simulate(builder(BuildMode::Lambda, "docker"), "/r", "/r", vec![target("p", &["bin"])], None);
    let (second, _) = simulate(builder(BuildMode::Lambda, "docker"), "/r", "/r", vec![target("p", &["bin"])], None);
    let a = first.end.unwrap();
    let b = second.end.unwrap();
    // Same day and contents: the same name (a run across midnight would
    // differ only in the date).
    let tail = |p: &str| p[p.len() - 20..].to_string();
    assert_eq!(tail(&a.real), tail(&b.real));
    assert_eq!(second.links.last().unwrap(), &(b.symlink.clone(), b.real.clone()));
}

fn count_chowns(trace: &Trace, owner: &str) -> usize {
    trace
        .runs
        .iter()
        .filter(|r| r.len() > 4 && r[0] == "podman" && r[2] == "chown" && r[4] == owner)
        .count()
}

#[test]
fn podman_success_hands_back_once() {
    let (trace, s) = simulate(builder(BuildMode::AmazonLinux2, "podman"), "/r", "/r", vec![target("p", &["bin"])], None);
    assert!(trace.end.is_ok());
    assert_eq!(count_chowns(&trace, "1000:1000"), 1);
    assert_eq!(count_chowns(&trace, "0:0"), 1);
    let order: Vec<&str> = trace.runs.iter().map(|r| r[1].as_str()).collect();
    assert_eq!(order, vec!["build", "unshare", "run", "unshare"]);
    assert!(s.guard.is_released());
}

#[test]
fn podman_container_failure_still_hands_back() {
    let (trace, s) = simulate(builder(BuildMode::AmazonLinux2, "podman"), "/r", "/r", vec![target("p", &["bin"])], Some("run"));
    match &trace.end {
        Err(BuildError::ExternalProcess { command, output }) => {
            assert!(command.starts_with("podman run "));
            assert_eq!(output, "boom");
        }
        other => panic!("unexpected end {:?}", other),
    }
    assert_eq!(count_chowns(&trace, "0:0"), 1);
    assert!(s.secondary.is_none());
}

#[test]
fn failed_hand_back_after_failed_run_keeps_primary_error() {
    // Fail the run, then the hand-back.
    let (mut s2, mut a) = BuildSession::new(builder(BuildMode::AmazonLinux2, "podman"), "/r", "/r", 5, 6).unwrap();
    let mut handed_back = 0;
    loop {
        let ev = match &a {
            Action::EnsureDir(_) => Event::Done,
            Action::ListTargets(_) => Event::Targets(vec![target("p", &["bin"])]),
            Action::PrepareContext => Event::ContextReady("/c".to_string()),
            Action::Run(c) if c.args.get(0).map(String::as_str) == Some("run") => {
                Event::Exited { success: false, output: "run failed".to_string() }
            }
            Action::Run(c) if c.args.get(3).map(String::as_str) == Some("0:0") => {
                handed_back += 1;
                Event::Exited { success: false, output: "chown failed".to_string() }
            }
            Action::Run(_) => Event::Exited { success: true, output: String::new() },
            _ => break,
        };
        a = s2.step(ev);
    }
    assert_eq!(handed_back, 1);
    match a {
        Action::Failed(BuildError::ExternalProcess { output, .. }) => assert_eq!(output, "run failed"),
        other => panic!("unexpected action {:?}", other),
    }
    assert_eq!(s2.secondary.as_deref(), Some("chown failed"));
    assert_eq!(s2.stage, Stage::Finished);
}

#[test]
fn failed_hand_over_needs_no_hand_back() {
    let (trace, _) = simulate(builder(BuildMode::AmazonLinux2, "podman"), "/r", "/r", vec![target("p", &["bin"])], Some("unshare"));
    assert!(matches!(trace.end, Err(BuildError::ExternalProcess { .. })));
    assert_eq!(count_chowns(&trace, "0:0"), 0);
    assert_eq!(trace.runs.len(), 2);
}

#[test]
fn abandoning_while_running_hands_back_once() {
    let (mut s, mut a) = BuildSession::new(builder(BuildMode::Lambda, "podman"), "/r", "/r", 1, 2).unwrap();
    while !matches!(s.stage, Stage::Container) {
        let ev = match &a {
            Action::EnsureDir(_) => Event::Done,
            Action::ListTargets(_) => Event::Targets(vec![target("p", &["bin"])]),
            Action::PrepareContext => Event::ContextReady("/c".to_string()),
            _ => Event::Exited { success: true, output: String::new() },
        };
        a = s.step(ev);
    }
    let cmd = s.abandon().unwrap();
    assert_eq!(argv(&cmd), strings(&["podman", "unshare", "chown", "--recursive", "0:0", "/r/target/aws-build"]));
    assert!(s.abandon().is_none());
    assert_eq!(s.stage, Stage::Finished);
}

#[test]
fn abandoning_before_hand_over_does_nothing() {
    let (mut s, _) = BuildSession::new(builder(BuildMode::Lambda, "podman"), "/r", "/r", 1, 2).unwrap();
    assert!(s.abandon().is_none());
}

#[test]
fn directory_failure_names_the_path() {
    let (mut s, _) = BuildSession::new(builder(BuildMode::Lambda, "docker"), "/r", "/r", 1, 2).unwrap();
    match s.step(Event::Failed("exists as a file".to_string())) {
        Action::Failed(BuildError::Filesystem(m)) => assert_eq!(m, "failed to create directory /r/target"),
        other => panic!("unexpected action {:?}", other),
    }
}

#[test]
fn symlink_failure_fails_the_build() {
    let (mut s, mut a) = BuildSession::new(builder(BuildMode::AmazonLinux2, "docker"), "/r", "/r", 1, 2).unwrap();
    loop {
        let ev = match &a {
            Action::EnsureDir(_) | Action::CopyFile { .. } => Event::Done,
            Action::ListTargets(_) => Event::Targets(vec![target("p", &["bin"])]),
            Action::PrepareContext => Event::ContextReady("/c".to_string()),
            Action::Run(_) => Event::Exited { success: true, output: String::new() },
            Action::ReadFile(_) => Event::Contents(vec![1, 2, 3]),
            Action::Link { .. } => Event::Failed("denied".to_string()),
            _ => break,
        };
        a = s.step(ev);
    }
    assert!(matches!(a, Action::Failed(BuildError::Filesystem(_))));
}

#[test]
fn permission_guard_releases_once() {
    let mut g = PermissionGuard::new("/out");
    assert!(!g.is_released());
    let c = g.release().unwrap();
    assert_eq!(argv(&c), strings(&["podman", "unshare", "chown", "--recursive", "0:0", "/out"]));
    assert!(g.release().is_none());
    assert!(g.is_released());
}

#[test]
fn zip_bundle_is_deterministic() {
    let a = bootstrap_zip(b"testcontents").unwrap();
    let b = bootstrap_zip(b"testcontents").unwrap();
    assert_eq!(a, b);
    assert!(a.starts_with(b"PK\x03\x04"));
    assert!(a.windows(9).any(|w| w == b"bootstrap"));
    assert_ne!(a, b"testcontents".to_vec());
}

#[test]
fn builder_defaults() {
    let b = Builder::default();
    assert_eq!(b.rust_version, "stable");
    assert_eq!(b.mode, BuildMode::AmazonLinux2);
    assert!(b.bin.is_none());
    assert!(!b.strip);
    assert_eq!(b.launcher.program, "docker");
    assert!(b.packages.is_empty());
    assert!(b.relabel.is_none());
}

/// Run a build whose actions are answered by the simulated runner and
/// check its outputs the way a real build's outputs are checked.
fn build_and_check(builder: Builder, project_name: &str) {
    let project_path = builder.project_path.clone();
    let code_root = builder.code_root.clone();
    let mode = builder.mode;
    let (trace, _) = simulate(builder, &code_root, &project_path, vec![target(project_name, &["bin"])], None);
    let output = trace.end.unwrap();
    let mode_name = match mode {
        BuildMode::AmazonLinux2 => "al2",
        BuildMode::Lambda => "lambda",
    };

    // Symlink points to the real output.
    assert_eq!(trace.links.last().unwrap(), &(output.symlink.clone(), output.real.clone()));

    // Symlink is at the expected path.
    assert_eq!(output.symlink, format!("{}/target/latest-{}", project_path, mode_name));

    // Real output is in the right directory.
    let dir = format!("{}/target/aws-build/{}/", project_path, mode_name);
    assert!(output.real.starts_with(&dir));

    // Real output's file name has the right form.
    let file_name = &output.real[dir.len()..];
    let (stem, extension) = match file_name.strip_suffix(".zip") {
        Some(stem) => (stem, Some("zip")),
        None => (file_name, None),
    };
    let parts = stem.split('-').collect::<Vec<_>>();
    assert_eq!(parts.len(), 4);
    assert_eq!(parts[0], mode_name);
    assert_eq!(parts[1], project_name);
    assert_eq!(parts[2].len(), 8);
    assert_eq!(parts[3].len(), 16);

    // Real output's extension is correct.
    let expected_extension = match mode {
        BuildMode::AmazonLinux2 => None,
        BuildMode::Lambda => Some("zip"),
    };
    assert_eq!(extension, expected_extension);
}

fn project_builder(mode: BuildMode, code_root: &str, project_path: &str) -> Builder {
    Builder {
        mode,
        project_path: project_path.to_string(),
        code_root: code_root.to_string(),
        relabel: Some(Relabel::Unshared),
        ..Default::default()
    }
}

/// Simple Amazon Linux 2 build.
#[test]
fn test_al2() {
    let root = "/tmp/build-root";
    build_and_check(project_builder(BuildMode::AmazonLinux2, root, root), "proj");
}

/// Simple Lambda build.
#[test]
fn test_lambda() {
    let root = "/tmp/build-root";
    build_and_check(project_builder(BuildMode::Lambda, root, root), "proj");
}

/// A project with a dependency builds the same way; the dependency is
/// fetched inside the container.
#[test]
fn test_with_deps() {
    let root = "/tmp/build-root";
    build_and_check(project_builder(BuildMode::AmazonLinux2, root, root), "proj");
}

/// Building a project in a subdirectory of the code root works.
#[test]
fn test_code_root() {
    let root = "/tmp/projects";
    let proj2 = join_path(root, "proj2");
    build_and_check(project_builder(BuildMode::AmazonLinux2, root, &proj2), "proj2");
    let (trace, _) = simulate(project_builder(BuildMode::AmazonLinux2, root, &proj2), root, &proj2, vec![target("proj2", &["bin"])], None);
    assert!(trace.runs[0].contains(&"PROJECT_PATH=proj2".to_string()));
    assert!(trace.runs[1].contains(&"/tmp/projects:/code:ro,Z".to_string()));
}

#[test]
fn failed_strip_reports_command_and_output() {
    let mut b = builder(BuildMode::AmazonLinux2, "docker");
    b.strip = true;
    let (trace, _) = simulate(b, "/r", "/r", vec![target("p", &["bin"])], Some("strip"));
    assert_eq!(
        trace.end.unwrap_err(),
        BuildError::ExternalProcess {
            command: "strip /r/target/aws-build/al2/release/p".to_string(),
            output: "boom".to_string(),
        }
    );
}
