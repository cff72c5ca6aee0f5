use echidnabot::dispatcher::ProverKind;
use echidnabot::executor::container::{
    container_command, prover_command, prover_extension, prover_to_env_name,
    runtimes_include_gvisor, ContainerExecutor, SecurityProfile,
};

#[test]
fn test_prover_extensions() {
    assert_eq!(prover_extension(ProverKind::Coq), ".v");
    assert_eq!(prover_extension(ProverKind::Lean), ".lean");
    assert_eq!(prover_extension(ProverKind::Metamath), ".mm");
}

#[test]
fn test_security_profiles() {
    let executor = ContainerExecutor::new().with_profile(SecurityProfile::Maximum);
    assert_eq!(executor.profile(), SecurityProfile::Maximum);
}

#[test]
fn test_resource_limits() {
    let executor = ContainerExecutor::new().with_memory_limit(4096).with_cpu_limit(4000);
    assert_eq!(executor.memory_limit_mb(), 4096);
    assert_eq!(executor.cpu_limit(), 4000);
}

#[test]
fn default_arguments_are_exact() {
    let args = ContainerExecutor::new().docker_args(ProverKind::Metamath);
    let expected = vec![
        "run",
        "--rm",
        "--network=none",
        "--memory=2048m",
        "--cpus=2",
        "--pids-limit=100",
        "--read-only",
        "--tmpfs=/tmp:rw,noexec,nosuid,size=100m",
        "--security-opt=no-new-privileges",
        "--cap-drop=ALL",
        "-w",
        "/workspace",
        "-e",
        "PROVER=METAMATH",
        "-i",
        "echidna-provers:latest",
        "sh",
        "-c",
        "cat > /tmp/proof.mm && metamath /tmp/proof.mm",
    ];
    assert_eq!(args, expected);
}

#[test]
fn minimal_profile_drops_the_hardening() {
    let args = ContainerExecutor::new()
        .with_profile(SecurityProfile::Minimal)
        .with_cpu_limit(500)
        .with_memory_limit(0)
        .with_image("img:1")
        .docker_args(ProverKind::Isabelle);
    assert!(!args.contains(&"--read-only".to_string()));
    assert!(!args.contains(&"--cap-drop=ALL".to_string()));
    assert!(args.contains(&"--network=none".to_string()));
    assert!(args.contains(&"--cpus=0.500".to_string()));
    assert!(args.contains(&"--memory=0m".to_string()));
    assert!(args.contains(&"img:1".to_string()));
    assert_eq!(
        args.last().unwrap(),
        "cat > /tmp/proof.thy && isabelle build /tmp/proof.thy"
    );
}

#[test]
fn gvisor_is_used_only_under_the_maximum_profile() {
    let mut e = ContainerExecutor::new().with_profile(SecurityProfile::Maximum);
    assert!(e.needs_gvisor_probe());
    assert!(!e.docker_args(ProverKind::Coq).contains(&"--runtime=runsc".to_string()));
    e.note_gvisor(true);
    assert!(!e.needs_gvisor_probe());
    assert_eq!(e.docker_args(ProverKind::Coq)[3], "--runtime=runsc");
    let mut absent = ContainerExecutor::new().with_profile(SecurityProfile::Maximum);
    absent.note_gvisor(false);
    assert!(!absent.needs_gvisor_probe());
    assert!(!absent.docker_args(ProverKind::Coq).contains(&"--runtime=runsc".to_string()));
    let mut s = ContainerExecutor::new();
    assert!(!s.needs_gvisor_probe());
    s.note_gvisor(true);
    assert!(!s.docker_args(ProverKind::Coq).contains(&"--runtime=runsc".to_string()));
}

#[test]
fn timeout_is_a_result_not_an_error() {
    let e = ContainerExecutor::new().with_timeout(1);
    let r = e.timed_out(1003);
    assert!(r.timed_out);
    assert!(!r.success);
    assert!(r.duration_ms >= 1000);
    assert_eq!(r.exit_code, None);
    assert!(!r.oom_killed);
    assert_eq!(r.stderr, "Execution timed out after 1s");
}

#[test]
fn exit_code_137_is_out_of_memory() {
    let none = || (String::new(), String::new());
    let (out, err) = none();
    let r = ContainerExecutor::finished(false, Some(137), 5, out, err);
    assert!(r.oom_killed && !r.success && !r.timed_out);
    let (out, err) = none();
    let r = ContainerExecutor::finished(false, Some(1), 5, out, err);
    assert!(!r.oom_killed);
    let (out, err) = none();
    let r = ContainerExecutor::finished(true, Some(0), 5, out, err);
    assert!(r.success && !r.oom_killed);
    assert_eq!(r.exit_code, Some(0));
    let (out, err) = none();
    let r = ContainerExecutor::finished(false, None, 5, out, err);
    assert!(!r.oom_killed);
}

#[test]
fn the_output_of_the_process_is_handed_on() {
    let r = ContainerExecutor::finished(
        false,
        Some(1),
        12,
        "checking proof.mm\n".to_string(),
        "error: step 3 does not follow\n".to_string(),
    );
    assert_eq!(r.stdout, "checking proof.mm\n");
    assert_eq!(r.stderr, "error: step 3 does not follow\n");
    assert_eq!(r.duration_ms, 12);
    assert!(!r.success && !r.timed_out);
    let r = ContainerExecutor::finished(true, Some(0), 1, String::new(), String::new());
    assert!(r.stdout.is_empty() && r.stderr.is_empty());
}

#[test]
fn prover_tables() {
    assert_eq!(prover_to_env_name(ProverKind::HolLight), "HOL_LIGHT");
    assert_eq!(prover_command(ProverKind::Hol4), "Holmake");
    assert_eq!(prover_command(ProverKind::Coq), "coqc");
    assert_eq!(
        container_command(ProverKind::Lean),
        "cat > /tmp/proof.lean && lean /tmp/proof.lean"
    );
    assert!(runtimes_include_gvisor("map[io.containerd.runc.v2:{} runsc:{}]"));
    assert!(!runtimes_include_gvisor("map[runc:{}]"));
}
