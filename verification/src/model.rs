//! The mathematical model of a run: what a host policy and a container
//! description are, and which argument vector each operation stands for.
//!
//! Every string is a `Seq<char>` here and every list a `Seq`; the executable
//! types relate to this model through their views.

use crate::text::decimal;
use vstd::prelude::*;

verus! {

/// A bind mount: the path on the host, then the path inside the container.
pub type Bind = (Seq<char>, Seq<char>);

/// An environment variable: its name, then its value.
pub type Var = (Seq<char>, Seq<char>);

/// The resource and isolation policy of a host, as plain values.
pub struct HostConfigView {
    pub cpu_shares: Option<u64>,
    pub cpus: Option<u64>,
    pub memory: Option<u64>,
    pub memory_reservation: Option<u64>,
    pub binds: Option<Seq<Bind>>,
    pub contain_all: bool,
}

/// One container invocation, as plain values. `env` lists the variables in
/// the order in which their names were first set.
pub struct SingularityView {
    pub image: Seq<char>,
    pub program: Seq<char>,
    pub args: Seq<Seq<char>>,
    pub attach_stdout: bool,
    pub attach_stderr: bool,
    pub env: Seq<Var>,
    pub work_dir: Option<Seq<char>>,
    pub host_config: Option<HostConfigView>,
}

/// The soft memory limit of the default host policy: 2 GiB.
pub const DEFAULT_MEMORY_RESERVATION: u64 = 2147483648;

/// The host policy that applies when none is chosen field by field: one CPU,
/// a memory reservation of 2 GiB, full containment, nothing else set.
pub open spec fn default_host_config() -> HostConfigView {
    HostConfigView {
        cpu_shares: None,
        cpus: Some(1u64),
        memory: None,
        memory_reservation: Some(DEFAULT_MEMORY_RESERVATION),
        binds: None,
        contain_all: true,
    }
}

/// The description that a fresh builder starts from: every text empty, no
/// argument, no variable, nothing attached, no working directory, no policy.
pub open spec fn blank_singularity() -> SingularityView {
    SingularityView {
        image: Seq::empty(),
        program: Seq::empty(),
        args: Seq::empty(),
        attach_stdout: false,
        attach_stderr: false,
        env: Seq::empty(),
        work_dir: None,
        host_config: None,
    }
}

/// A limit that is present must be positive.
pub open spec fn limit_ok(limit: Option<u64>) -> bool {
    limit matches Some(n) ==> n > 0
}

/// Both paths of every bind mount are non-empty.
pub open spec fn binds_ok(binds: Seq<Bind>) -> bool {
    forall|i: int| 0 <= i < binds.len() ==> (#[trigger] binds[i]).0.len() > 0 && binds[i].1.len() > 0
}

/// The invariant of a host policy: limits that are present are positive, and
/// no bind mount has an empty path.
pub open spec fn host_config_ok(host: HostConfigView) -> bool {
    &&& limit_ok(host.cpu_shares)
    &&& limit_ok(host.cpus)
    &&& limit_ok(host.memory)
    &&& limit_ok(host.memory_reservation)
    &&& (host.binds matches Some(binds) ==> binds_ok(binds))
}

/// A description can be executed when it names an image and a program.
pub open spec fn runnable(s: SingularityView) -> bool {
    s.image.len() > 0 && s.program.len() > 0
}

// ---------------------------------------------------------------------------
// Environment variables
// ---------------------------------------------------------------------------

/// Some variable of `env` is called `name`.
pub open spec fn has_var(env: Seq<Var>, name: Seq<char>) -> bool {
    exists|i: int| 0 <= i < env.len() && (#[trigger] env[i]).0 == name
}

/// No name occurs twice in `env`.
pub open spec fn names_distinct(env: Seq<Var>) -> bool {
    forall|i: int, j: int|
        0 <= i < j < env.len() ==> (#[trigger] env[i]).0 != (#[trigger] env[j]).0
}

/// `env` after setting `name` to `value`: a variable of that name keeps its
/// place and takes the new value; a new name goes to the end.
pub open spec fn set_var(env: Seq<Var>, name: Seq<char>, value: Seq<char>) -> Seq<Var> {
    if has_var(env, name) {
        Seq::new(
            env.len(),
            |i: int|
                if env[i].0 == name {
                    (env[i].0, value)
                } else {
                    env[i]
                },
        )
    } else {
        env.push((name, value))
    }
}

/// `env` after setting each variable of `vars`, first to last.
pub open spec fn set_vars(env: Seq<Var>, vars: Seq<Var>) -> Seq<Var>
    decreases vars.len(),
{
    if vars.len() == 0 {
        env
    } else {
        set_var(set_vars(env, vars.drop_last()), vars.last().0, vars.last().1)
    }
}

// ---------------------------------------------------------------------------
// Flags
// ---------------------------------------------------------------------------

/// The argument that mounts `bind`.
pub open spec fn bind_flag(bind: Bind) -> Seq<char> {
    "--bind "@ + bind.0 + ":"@ + bind.1
}

/// One mount argument per bind, in order.
pub open spec fn bind_flags(binds: Seq<Bind>) -> Seq<Seq<char>> {
    Seq::new(binds.len(), |i: int| bind_flag(binds[i]))
}

/// The binds that count: those of the host policy where it lists any, else
/// those that the caller passed.
pub open spec fn effective_binds(host: Option<HostConfigView>, caller: Seq<Bind>) -> Seq<Bind> {
    match host {
        Some(h) => match h.binds {
            Some(binds) => binds,
            None => caller,
        },
        None => caller,
    }
}

/// The argument for a numeric limit, if the limit is present: the flag's
/// name (with its `=`) followed by the number in decimal.
pub open spec fn limit_flags(name: Seq<char>, limit: Option<u64>) -> Seq<Seq<char>> {
    match limit {
        Some(n) => seq![name + decimal(n as nat)],
        None => Seq::empty(),
    }
}

/// The resource-limit arguments of a host policy: CPU shares, CPUs, memory,
/// memory reservation, each only if present.
pub open spec fn resource_flags(host: Option<HostConfigView>) -> Seq<Seq<char>> {
    match host {
        Some(h) => limit_flags("--cpu-shares="@, h.cpu_shares) + limit_flags("--cpus="@, h.cpus)
            + limit_flags("--memory="@, h.memory) + limit_flags(
            "--memory-reservation="@,
            h.memory_reservation,
        ),
        None => Seq::empty(),
    }
}

/// The argument that sets the variable `var`.
pub open spec fn env_flag(var: Var) -> Seq<char> {
    "--env "@ + var.0 + "="@ + var.1
}

/// One argument per variable, in the order of `env`.
pub open spec fn env_flags(env: Seq<Var>) -> Seq<Seq<char>> {
    Seq::new(env.len(), |i: int| env_flag(env[i]))
}

/// The working-directory argument, if a directory is set.
pub open spec fn work_dir_flags(work_dir: Option<Seq<char>>) -> Seq<Seq<char>> {
    match work_dir {
        Some(dir) => seq!["--workdir "@ + dir],
        None => Seq::empty(),
    }
}

/// The containment argument, if a host policy is attached and asks for it.
pub open spec fn contain_flags(host: Option<HostConfigView>) -> Seq<Seq<char>> {
    match host {
        Some(h) => if h.contain_all {
            seq!["--containall"@]
        } else {
            Seq::empty()
        },
        None => Seq::empty(),
    }
}

/// Every flag of an `exec` invocation, in the order the runtime expects:
/// binds, resource limits, environment, working directory, containment.
pub open spec fn exec_flags(s: SingularityView, binds: Seq<Bind>) -> Seq<Seq<char>> {
    bind_flags(effective_binds(s.host_config, binds)) + resource_flags(s.host_config) + env_flags(
        s.env,
    ) + work_dir_flags(s.work_dir) + contain_flags(s.host_config)
}

// ---------------------------------------------------------------------------
// Argument vectors
// ---------------------------------------------------------------------------

/// The argument vector that runs `s`: the subcommand, the flags, the
/// caller's extra arguments, the image, the program, the program's arguments.
pub open spec fn exec_argv(s: SingularityView, binds: Seq<Bind>, extra: Seq<Seq<char>>) -> Seq<
    Seq<char>,
> {
    seq!["exec"@] + exec_flags(s, binds) + extra + seq![s.image, s.program] + s.args
}

/// The argument vector that pulls `image` into the file `output_path`.
pub open spec fn pull_argv(image: Seq<char>, output_path: Seq<char>) -> Seq<Seq<char>> {
    seq!["pull"@, output_path, image]
}

/// The argument vector that asks the runtime for its version.
pub open spec fn version_argv() -> Seq<Seq<char>> {
    seq!["--version"@]
}

} // verus!
