use aws_build::builder::{container_env, image_tag};
use aws_build::command::{join_strings, CommandLine};
use aws_build::container::{chown_command, format_user, run_command, strip_command, ContainerLauncher, Mount};
use aws_build::docker::{Docker, Volume};
use aws_build::error::BuildError;
use aws_build::git::{parse_commit_hash, Repo};
use aws_build::mode::{mount_options, BuildMode, Relabel};

fn argv(c: &CommandLine) -> Vec<String> {
    let mut v = vec![c.program.clone()];
    v.extend(c.args.iter().cloned());
    v
}

fn strings(v: &[&str]) -> Vec<String> {
    v.iter().map(|s| s.to_string()).collect()
}

#[test]
fn test_volume_arg() {
    let mut vol = Volume { src: "/mySrc".into(), dst: "/myDst".into(), read_only: false };
    assert_eq!(vol.arg(), "/mySrc:/myDst:rw");

    vol.read_only = true;
    assert_eq!(vol.arg(), "/mySrc:/myDst:ro");
}

#[test]
fn docker_build_and_run_commands() {
    let docker = Docker::new("podman".to_string());
    let build = docker.build("/ctx", "tag1");
    assert_eq!(argv(&build), strings(&["podman", "build", "--tag", "tag1", "."]));
    assert_eq!(build.dir.as_deref(), Some("/ctx"));

    let vols = vec![
        Volume { src: "/a".into(), dst: "/b".into(), read_only: true },
        Volume { src: "/c".into(), dst: "/d".into(), read_only: false },
    ];
    let run = docker.run(&vols, "img", 1000, 100);
    assert_eq!(
        argv(&run),
        strings(&["podman", "run", "--rm", "--init", "-u", "1000:100", "-v", "/a:/b:ro", "-v", "/c:/d:rw", "img"])
    );
}

#[test]
fn user_argument_in_decimal() {
    assert_eq!(format_user(0, 0), "0:0");
    assert_eq!(format_user(1000, 1001), "1000:1001");
    assert_eq!(format_user(4294967295, 7), "4294967295:7");
}

#[test]
fn launcher_parse_and_podman_detection() {
    let l = ContainerLauncher::parse("  sudo   docker ").unwrap();
    assert_eq!(l.program, "sudo");
    assert_eq!(l.args, strings(&["docker"]));
    assert!(!l.is_podman());
    assert!(ContainerLauncher::parse("podman").unwrap().is_podman());
    assert!(ContainerLauncher::parse("sudo podman").unwrap().is_podman());
    assert!(!ContainerLauncher::parse("/usr/bin/podman").unwrap().is_podman());
    assert!(matches!(ContainerLauncher::parse(" \t "), Err(BuildError::Configuration(_))));
}

#[test]
fn container_run_command_layout() {
    let launcher = ContainerLauncher::parse("sudo docker").unwrap();
    let env = container_env(BuildMode::Lambda, "proj");
    let mounts = vec![Mount {
        src: "/src".into(),
        dst: "/code".into(),
        read_write: false,
        options: mount_options(Some(Relabel::Unshared)),
    }];
    let cmd = run_command(&launcher, env, 1000, 1000, mounts, "aws-build-lambda-stable");
    assert_eq!(
        argv(&cmd),
        strings(&[
            "sudo",
            "docker",
            "run",
            "--env",
            "TARGET_DIR=/code/target/lambda",
            "--env",
            "BIN_TARGET=proj",
            "--init",
            "--rm",
            "--user",
            "1000:1000",
            "--volume",
            "/src:/code:ro,Z",
            "aws-build-lambda-stable",
        ])
    );
}

#[test]
fn image_tags() {
    assert_eq!(image_tag(BuildMode::AmazonLinux2, "1.45.2"), "aws-build-al2-1.45.2");
    assert_eq!(image_tag(BuildMode::Lambda, "stable"), "aws-build-lambda-stable");
}

#[test]
fn relabel_options() {
    assert_eq!(mount_options(Some(Relabel::Shared)), strings(&["z"]));
    assert_eq!(mount_options(Some(Relabel::Unshared)), strings(&["Z"]));
    assert!(mount_options(None).is_empty());
}

#[test]
fn chown_and_strip_commands() {
    let c = chown_command(1000, 1000, "/p/target/aws-build");
    assert_eq!(
        argv(&c),
        strings(&["podman", "unshare", "chown", "--recursive", "1000:1000", "/p/target/aws-build"])
    );
    assert_eq!(argv(&strip_command("/x/y")), strings(&["strip", "/x/y"]));
}

#[test]
fn command_display_and_join() {
    let c = strip_command("/bin/x");
    assert_eq!(c.display(), "strip /bin/x");
    assert_eq!(join_strings(&strings(&["a", "b", "c"]), " "), "a b c");
    assert_eq!(join_strings(&Vec::new(), " "), "");
}

#[test]
fn git_commands() {
    let repo = Repo::new("/r".to_string());
    assert_eq!(argv(&repo.clone("https://x")), strings(&["git", "clone", "https://x", "/r"]));
    assert_eq!(argv(&repo.fetch()), strings(&["git", "-C", "/r", "fetch"]));
    assert_eq!(
        argv(&repo.remote_set_url("u")),
        strings(&["git", "-C", "/r", "remote", "set-url", "origin", "u"])
    );
    let (first, fallback) = repo.checkout("main");
    assert_eq!(argv(&first), strings(&["git", "-C", "/r", "checkout", "origin/main"]));
    assert_eq!(argv(&fallback), strings(&["git", "-C", "/r", "checkout", "main"]));
    assert_eq!(argv(&repo.rev_parse("HEAD")), strings(&["git", "-C", "/r", "rev-parse", "HEAD"]));
}

#[test]
fn commit_hash_parsing() {
    let hash = "46794db6816e4a07077cf02711ff1921d50e08d3";
    assert_eq!(parse_commit_hash(&format!("  {}\n", hash)).unwrap(), hash);
    assert!(matches!(parse_commit_hash("abc\n"), Err(BuildError::ExternalProcess { .. })));
}

#[test]
fn mode_names() {
    assert_eq!(BuildMode::from_str("al2"), Ok(BuildMode::AmazonLinux2));
    assert_eq!(BuildMode::from_str("lambda"), Ok(BuildMode::Lambda));
    assert_eq!(BuildMode::from_str("Lambda"), Err(BuildError::Configuration("invalid mode Lambda".to_string())));
    assert_eq!(BuildMode::Lambda.name(), "lambda");
    assert_eq!(BuildMode::AmazonLinux2.base_image(), "docker.io/amazonlinux:2");
}
