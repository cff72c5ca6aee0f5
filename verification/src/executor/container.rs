//! The container in which a prover runs: its limits, the command line that
//! starts it, and the reading of how it ended.
//!
//! The proof is written to the container's standard input; inside, it is
//! stored under the prover's extension and the prover is run on it. The
//! container has no network. Starting the process and waiting for it is
//! the caller's part.

use crate::dispatcher::ProverKind;
use crate::error::Error;
use crate::text::{concat2, contains_text, decimal, digit, digit_char, push_decimal, str_contains, texts};
use vstd::prelude::*;
use vstd::string::StringExecFns;

verus! {

/// How tightly the container is closed.
#[derive(Debug, Clone, Copy, PartialEq, Eq, Structural)]
pub enum SecurityProfile {
    /// Kernel-isolating runtime where there is one, read-only root, no
    /// capabilities.
    Maximum,
    /// Read-only root, no capabilities.
    Standard,
    /// Writable root, default capabilities.
    Minimal,
}

/// How a run ended.
#[derive(Debug)]
pub struct ExecutionResult {
    pub success: bool,
    pub stdout: String,
    pub stderr: String,
    pub exit_code: Option<i32>,
    pub duration_ms: u64,
    pub timed_out: bool,
    pub oom_killed: bool,
}

/// The settings of the executor.
#[derive(Debug)]
pub struct ContainerExecutor {
    image: String,
    profile: SecurityProfile,
    memory_limit_mb: usize,
    cpu_limit_millis: u32,
    timeout_secs: u64,
    work_dir: String,
    use_gvisor: bool,
    gvisor_probed: bool,
}

/// The executor as contracts see it.
pub struct ExecutorView {
    pub image: Seq<char>,
    pub profile: SecurityProfile,
    /// Memory limit in megabytes.
    pub memory_limit_mb: usize,
    /// Processor limit in thousandths of a core.
    pub cpu_limit_millis: u32,
    /// Wall-clock limit in seconds.
    pub timeout_secs: u64,
    pub work_dir: Seq<char>,
    /// Whether the kernel-isolating runtime was found.
    pub use_gvisor: bool,
    /// Whether the search for that runtime was made.
    pub gvisor_probed: bool,
}

/// The exit code of a process that was killed for want of memory.
pub const OOM_EXIT_CODE: i32 = 137;

/// The most processes that a container may hold.
pub const PID_LIMIT: u64 = 100;

/// The defaults: the stock image, standard isolation, 2 GB, two cores,
/// five minutes.
pub open spec fn default_executor() -> ExecutorView {
    ExecutorView {
        image: "echidna-provers:latest"@,
        profile: SecurityProfile::Standard,
        memory_limit_mb: 2048,
        cpu_limit_millis: 2000,
        timeout_secs: 300,
        work_dir: "/workspace"@,
        use_gvisor: false,
        gvisor_probed: false,
    }
}

/// The tag under which the container learns which prover to run.
pub open spec fn env_name(p: ProverKind) -> Seq<char> {
    match p {
        ProverKind::Coq => "COQ"@,
        ProverKind::Lean => "LEAN"@,
        ProverKind::Isabelle => "ISABELLE"@,
        ProverKind::Agda => "AGDA"@,
        ProverKind::Z3 => "Z3"@,
        ProverKind::Cvc5 => "CVC5"@,
        ProverKind::Metamath => "METAMATH"@,
        ProverKind::HolLight => "HOL_LIGHT"@,
        ProverKind::Mizar => "MIZAR"@,
        ProverKind::Pvs => "PVS"@,
        ProverKind::Acl2 => "ACL2"@,
        ProverKind::Hol4 => "HOL4"@,
    }
}

/// The command that runs a prover.
pub open spec fn command(p: ProverKind) -> Seq<char> {
    match p {
        ProverKind::Coq => "coqc"@,
        ProverKind::Lean => "lean"@,
        ProverKind::Isabelle => "isabelle build"@,
        ProverKind::Agda => "agda"@,
        ProverKind::Z3 => "z3"@,
        ProverKind::Cvc5 => "cvc5"@,
        ProverKind::Metamath => "metamath"@,
        ProverKind::HolLight => "ocaml"@,
        ProverKind::Mizar => "mizf"@,
        ProverKind::Pvs => "pvs"@,
        ProverKind::Acl2 => "acl2"@,
        ProverKind::Hol4 => "Holmake"@,
    }
}

/// What the shell in the container is told: store standard input under the
/// prover's extension, then run the prover on the file.
pub open spec fn container_script(p: ProverKind) -> Seq<char> {
    "cat > /tmp/proof"@ + crate::dispatcher::extension(p) + " && "@ + command(p) + " /tmp/proof"@
        + crate::dispatcher::extension(p)
}

/// A number of thousandths as a decimal: whole where it is whole, else
/// with three digits behind the point.
pub open spec fn millis_text(m: nat) -> Seq<char> {
    if m % 1000 == 0 {
        decimal(m / 1000)
    } else {
        decimal(m / 1000) + seq![
            '.',
            digit(m % 1000 / 100),
            digit(m % 100 / 10),
            digit(m % 10),
        ]
    }
}

/// The arguments that close the container: none under the minimal profile.
pub open spec fn hardening(profile: SecurityProfile) -> Seq<Seq<char>> {
    match profile {
        SecurityProfile::Maximum | SecurityProfile::Standard => seq![
            "--read-only"@,
            "--tmpfs=/tmp:rw,noexec,nosuid,size=100m"@,
            "--security-opt=no-new-privileges"@,
            "--cap-drop=ALL"@,
        ],
        SecurityProfile::Minimal => Seq::empty(),
    }
}

/// The arguments that pick the kernel-isolating runtime: only under the
/// maximum profile, and only where the runtime was found.
pub open spec fn runtime(e: ExecutorView) -> Seq<Seq<char>> {
    if e.use_gvisor && e.profile is Maximum {
        seq!["--runtime=runsc"@]
    } else {
        Seq::empty()
    }
}

/// The arguments of `docker` for a run of `p`.
pub open spec fn docker_arguments(e: ExecutorView, p: ProverKind) -> Seq<Seq<char>> {
    seq!["run"@, "--rm"@, "--network=none"@] + runtime(e) + seq![
        "--memory="@ + decimal(e.memory_limit_mb as nat) + "m"@,
        "--cpus="@ + millis_text(e.cpu_limit_millis as nat),
        "--pids-limit=100"@,
    ] + hardening(e.profile) + seq![
        "-w"@,
        e.work_dir,
        "-e"@,
        "PROVER="@ + env_name(p),
        "-i"@,
        e.image,
        "sh"@,
        "-c"@,
        container_script(p),
    ]
}

impl View for ContainerExecutor {
    type V = ExecutorView;

    closed spec fn view(&self) -> ExecutorView {
        ExecutorView {
            image: self.image@,
            profile: self.profile,
            memory_limit_mb: self.memory_limit_mb,
            cpu_limit_millis: self.cpu_limit_millis,
            timeout_secs: self.timeout_secs,
            work_dir: self.work_dir@,
            use_gvisor: self.use_gvisor,
            gvisor_probed: self.gvisor_probed,
        }
    }
}

impl Default for ContainerExecutor {
    fn default() -> (r: Self)
        ensures
            r@ == default_executor(),
    {
        ContainerExecutor {
            image: "echidna-provers:latest".to_owned(),
            profile: SecurityProfile::Standard,
            memory_limit_mb: 2048,
            cpu_limit_millis: 2000,
            timeout_secs: 300,
            work_dir: "/workspace".to_owned(),
            use_gvisor: false,
            gvisor_probed: false,
        }
    }
}

impl ContainerExecutor {
    /// An executor with the defaults.
    pub fn new() -> (r: Self)
        ensures
            r@ == default_executor(),
    {
        ContainerExecutor::default()
    }

    /// The same executor with another image.
    pub fn with_image(self, image: &str) -> (r: Self)
        ensures
            r@ == (ExecutorView { image: image@, ..self@ }),
    {
        let mut e = self;
        e.image = image.to_owned();
        e
    }

    /// The same executor with another profile.
    pub fn with_profile(self, profile: SecurityProfile) -> (r: Self)
        ensures
            r@ == (ExecutorView { profile, ..self@ }),
    {
        let mut e = self;
        e.profile = profile;
        e
    }

    /// The same executor with another memory limit, in megabytes.
    pub fn with_memory_limit(self, mb: usize) -> (r: Self)
        ensures
            r@ == (ExecutorView { memory_limit_mb: mb, ..self@ }),
    {
        let mut e = self;
        e.memory_limit_mb = mb;
        e
    }

    /// The same executor with another processor limit, in thousandths of a
    /// core.
    pub fn with_cpu_limit(self, millicores: u32) -> (r: Self)
        ensures
            r@ == (ExecutorView { cpu_limit_millis: millicores, ..self@ }),
    {
        let mut e = self;
        e.cpu_limit_millis = millicores;
        e
    }

    /// The same executor with another wall-clock limit, in seconds.
    pub fn with_timeout(self, seconds: u64) -> (r: Self)
        ensures
            r@ == (ExecutorView { timeout_secs: seconds, ..self@ }),
    {
        let mut e = self;
        e.timeout_secs = seconds;
        e
    }

    /// The image.
    pub fn image(&self) -> (r: &str)
        ensures
            r@ == self@.image,
    {
        self.image.as_str()
    }

    /// The profile.
    pub fn profile(&self) -> (r: SecurityProfile)
        ensures
            r == self@.profile,
    {
        self.profile
    }

    /// The memory limit in megabytes.
    pub fn memory_limit_mb(&self) -> (r: usize)
        ensures
            r == self@.memory_limit_mb,
    {
        self.memory_limit_mb
    }

    /// The processor limit in thousandths of a core.
    pub fn cpu_limit(&self) -> (r: u32)
        ensures
            r == self@.cpu_limit_millis,
    {
        self.cpu_limit_millis
    }

    /// The wall-clock limit in seconds.
    pub fn timeout_secs(&self) -> (r: u64)
        ensures
            r == self@.timeout_secs,
    {
        self.timeout_secs
    }

    /// Whether the search for the kernel-isolating runtime is still to be
    /// made: under the maximum profile, until it was made once.
    pub fn needs_gvisor_probe(&self) -> (r: bool)
        ensures
            r == (!self@.gvisor_probed && self@.profile is Maximum),
    {
        !self.gvisor_probed && matches!(self.profile, SecurityProfile::Maximum)
    }

    /// Records what the search for the kernel-isolating runtime found. The
    /// search is not made again.
    pub fn note_gvisor(&mut self, available: bool)
        ensures
            final(self)@ == (ExecutorView {
                use_gvisor: available,
                gvisor_probed: true,
                ..old(self)@
            }),
    {
        self.use_gvisor = available;
        self.gvisor_probed = true;
    }

    /// The arguments of `docker` for a run of `prover`.
    pub fn docker_args(&self, prover: ProverKind) -> (r: Vec<String>)
        ensures
            texts(r@) == docker_arguments(self@, prover),
    {
        let mut args: Vec<String> = Vec::new();
        args.push("run".to_owned());
        args.push("--rm".to_owned());
        args.push("--network=none".to_owned());
        if self.use_gvisor && matches!(self.profile, SecurityProfile::Maximum) {
            args.push("--runtime=runsc".to_owned());
        }
        let mut memory = "--memory=".to_owned();
        push_decimal(&mut memory, self.memory_limit_mb as u64);
        memory.append("m");
        args.push(memory);
        let mut cpus = "--cpus=".to_owned();
        push_millis(&mut cpus, self.cpu_limit_millis);
        args.push(cpus);
        args.push("--pids-limit=100".to_owned());
        match self.profile {
            SecurityProfile::Maximum | SecurityProfile::Standard => {
                args.push("--read-only".to_owned());
                args.push("--tmpfs=/tmp:rw,noexec,nosuid,size=100m".to_owned());
                args.push("--security-opt=no-new-privileges".to_owned());
                args.push("--cap-drop=ALL".to_owned());
            },
            SecurityProfile::Minimal => {},
        }
        args.push("-w".to_owned());
        args.push(self.work_dir.clone());
        args.push("-e".to_owned());
        args.push(concat2("PROVER=", prover_to_env_name(prover)));
        args.push("-i".to_owned());
        args.push(self.image.clone());
        args.push("sh".to_owned());
        args.push("-c".to_owned());
        args.push(container_command(prover));
        assert(texts(args@) =~= docker_arguments(self@, prover));
        args
    }

    /// The result of a run that ended by itself: successful if the process
    /// says so, killed for want of memory if the exit code is 137. What the
    /// process wrote to its standard output and standard error is handed
    /// on as it is.
    pub fn finished(
        success: bool,
        exit_code: Option<i32>,
        duration_ms: u64,
        stdout: String,
        stderr: String,
    ) -> (r: ExecutionResult)
        ensures
            r.success == success,
            r.stdout@ == stdout@,
            r.stderr@ == stderr@,
            r.exit_code == exit_code,
            r.duration_ms == duration_ms,
            !r.timed_out,
            r.oom_killed == (exit_code == Some(137i32)),
    {
        let oom = match exit_code {
            Some(code) => code == OOM_EXIT_CODE,
            None => false,
        };
        ExecutionResult {
            success,
            stdout,
            stderr,
            exit_code,
            duration_ms,
            timed_out: false,
            oom_killed: oom,
        }
    }

    /// The result of a run that was cut off at the wall-clock limit: a
    /// failure without an exit code, marked as timed out.
    pub fn timed_out(&self, duration_ms: u64) -> (r: ExecutionResult)
        ensures
            !r.success,
            r.stdout@.len() == 0,
            r.stderr@ == "Execution timed out after "@ + decimal(self@.timeout_secs as nat) + "s"@,
            r.exit_code is None,
            r.duration_ms == duration_ms,
            r.timed_out,
            !r.oom_killed,
    {
        let mut stderr = "Execution timed out after ".to_owned();
        push_decimal(&mut stderr, self.timeout_secs);
        stderr.append("s");
        ExecutionResult {
            success: false,
            stdout: String::new(),
            stderr,
            exit_code: None,
            duration_ms,
            timed_out: true,
            oom_killed: false,
        }
    }
}

/// Appends a number of thousandths as a decimal.
pub fn push_millis(out: &mut String, m: u32)
    ensures
        final(out)@ == old(out)@ + millis_text(m as nat),
{
    push_decimal(out, (m / 1000) as u64);
    let frac: u32 = m % 1000;
    if frac != 0 {
        let ghost whole = out@;
        let hundreds: u8 = (frac / 100) as u8;
        let tens: u8 = (frac % 100 / 10) as u8;
        let ones: u8 = (frac % 10) as u8;
        proof {
            let n = m as int;
            assert((n % 1000) % 100 == n % 100 && (n % 1000) % 10 == n % 10) by (nonlinear_arith)
                requires
                    n >= 0,
            ;
            assert(hundreds as nat == (m as nat) % 1000 / 100);
            assert(tens as nat == (m as nat) % 100 / 10);
            assert(ones as nat == (m as nat) % 10);
        }
        out.push('.');
        out.push(digit_char(hundreds));
        out.push(digit_char(tens));
        out.push(digit_char(ones));
        assert(out@ =~= whole + seq![
            '.',
            digit(hundreds as nat),
            digit(tens as nat),
            digit(ones as nat),
        ]);
    }
}

/// The tag under which the container learns which prover to run.
pub fn prover_to_env_name(prover: ProverKind) -> (r: &'static str)
    ensures
        r@ == env_name(prover),
{
    match prover {
        ProverKind::Coq => "COQ",
        ProverKind::Lean => "LEAN",
        ProverKind::Isabelle => "ISABELLE",
        ProverKind::Agda => "AGDA",
        ProverKind::Z3 => "Z3",
        ProverKind::Cvc5 => "CVC5",
        ProverKind::Metamath => "METAMATH",
        ProverKind::HolLight => "HOL_LIGHT",
        ProverKind::Mizar => "MIZAR",
        ProverKind::Pvs => "PVS",
        ProverKind::Acl2 => "ACL2",
        ProverKind::Hol4 => "HOL4",
    }
}

/// The extension under which a proof is stored for a prover.
pub fn prover_extension(prover: ProverKind) -> (r: &'static str)
    ensures
        r@ == crate::dispatcher::extension(prover),
{
    prover.extension()
}

/// The command that runs a prover.
pub fn prover_command(prover: ProverKind) -> (r: &'static str)
    ensures
        r@ == command(prover),
{
    match prover {
        ProverKind::Coq => "coqc",
        ProverKind::Lean => "lean",
        ProverKind::Isabelle => "isabelle build",
        ProverKind::Agda => "agda",
        ProverKind::Z3 => "z3",
        ProverKind::Cvc5 => "cvc5",
        ProverKind::Metamath => "metamath",
        ProverKind::HolLight => "ocaml",
        ProverKind::Mizar => "mizf",
        ProverKind::Pvs => "pvs",
        ProverKind::Acl2 => "acl2",
        ProverKind::Hol4 => "Holmake",
    }
}

/// What the shell in the container is told.
pub fn container_command(prover: ProverKind) -> (r: String)
    ensures
        r@ == container_script(prover),
{
    let mut r = "cat > /tmp/proof".to_owned();
    r.append(prover_extension(prover));
    r.append(" && ");
    r.append(prover_command(prover));
    r.append(" /tmp/proof");
    r.append(prover_extension(prover));
    r
}

/// Whether the list of runtimes that `docker info` printed names the
/// kernel-isolating runtime.
pub fn runtimes_include_gvisor(listing: &str) -> (r: bool)
    ensures
        r == contains_text(listing@, "runsc"@),
{
    str_contains(listing, "runsc")
}

/// The error for a container that could not be started.
pub fn spawn_error(cause: &str) -> (r: Error)
    ensures
        r is Internal,
        r.text() == "Failed to spawn Docker container: "@ + cause@,
{
    Error::Internal(concat2("Failed to spawn Docker container: ", cause))
}

/// The error for a wait that failed.
pub fn wait_error(cause: &str) -> (r: Error)
    ensures
        r is Internal,
        r.text() == "Container execution failed: "@ + cause@,
{
    Error::Internal(concat2("Container execution failed: ", cause))
}

/// The error for an image that could not be pulled.
pub fn pull_error(cause: &str) -> (r: Error)
    ensures
        r is Internal,
        r.text() == "Failed to pull image: "@ + cause@,
{
    Error::Internal(concat2("Failed to pull image: ", cause))
}

/// Every run is cut off from the network, whatever the settings.
pub proof fn law_no_network(e: ExecutorView, p: ProverKind)
    ensures
        docker_arguments(e, p)[2] == "--network=none"@,
{
}

} // verus!
