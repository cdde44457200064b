//! The description of one container invocation, built step by step, and the
//! argument vectors that it stands for.

use crate::env_map::{
    env_clone, env_entries, env_extend, env_get_index, env_insert, env_len, env_new,
};
use crate::gateway::ExecError;
use crate::host::{host_view, HostConfig};
use crate::model::{
    bind_flags, blank_singularity, contain_flags, effective_binds, env_flags, exec_argv,
    exec_flags, limit_flags, pull_argv, resource_flags, runnable, set_var, set_vars,
    version_argv, work_dir_flags, SingularityView,
};
use crate::text::decimal_string;
use indexmap::IndexMap;
use vstd::prelude::*;
use vstd::string::StringExecFns;

verus! {

/// The name of the runtime's executable.
pub const COMMAND_BASE: &'static str = "singularity";

/// A Singularity client: the image, the program to run in it and everything
/// else that one invocation needs. Each builder method takes the value and
/// returns it with one field changed.
#[derive(Debug)]
pub struct Singularity {
    /// The image (e.g., `ubuntu:latest`).
    image: String,
    /// The program to run.
    program: String,
    /// The arguments to the program.
    args: Vec<String>,
    /// Whether or not the standard output is attached.
    attach_stdout: bool,
    /// Whether or not the standard error is attached.
    attach_stderr: bool,
    /// Environment variables, in the order in which they were first set.
    env: IndexMap<String, String>,
    /// The working directory.
    work_dir: Option<String>,
    /// Host configuration.
    host_config: Option<HostConfig>,
}

/// What pulling an image takes.
#[derive(Debug)]
pub enum PullStep {
    /// The output file is already there: the pull is done, and the runtime
    /// is not to be started.
    AlreadyPulled,
    /// The runtime is to be started with this argument vector.
    Run(Vec<String>),
}

impl View for Singularity {
    type V = SingularityView;

    closed spec fn view(&self) -> SingularityView {
        SingularityView {
            image: self.image@,
            program: self.program@,
            args: self.args.deep_view(),
            attach_stdout: self.attach_stdout,
            attach_stderr: self.attach_stderr,
            env: env_entries(self.env),
            work_dir: self.work_dir.deep_view(),
            host_config: host_view(self.host_config),
        }
    }
}

/// Appends one argument.
fn push_arg(argv: &mut Vec<String>, arg: String)
    ensures
        final(argv).deep_view() == old(argv).deep_view().push(arg@),
{
    argv.push(arg);
}

/// Appends a copy of each of `items`, in order.
fn push_all(argv: &mut Vec<String>, items: &Vec<String>)
    ensures
        final(argv).deep_view() == old(argv).deep_view() + items.deep_view(),
{
    let mut i: usize = 0;
    while i < items.len()
        invariant
            i <= items.len(),
            argv.deep_view() == old(argv).deep_view() + items.deep_view().take(i as int),
        decreases items.len() - i,
    {
        let item = items[i].clone();
        push_arg(argv, item);
        i += 1;
    }
}

/// Appends one mount argument per bind.
fn push_bind_flags(argv: &mut Vec<String>, binds: &Vec<(String, String)>)
    ensures
        final(argv).deep_view() == old(argv).deep_view() + bind_flags(binds.deep_view()),
{
    let mut i: usize = 0;
    while i < binds.len()
        invariant
            i <= binds.len(),
            argv.deep_view() == old(argv).deep_view() + bind_flags(binds.deep_view()).take(
                i as int,
            ),
        decreases binds.len() - i,
    {
        let mut flag = String::from_str("--bind ");
        flag.append(binds[i].0.as_str());
        flag.append(":");
        flag.append(binds[i].1.as_str());
        push_arg(argv, flag);
        i += 1;
    }
}

/// Appends the argument of a numeric limit, if the limit is present.
fn push_limit_flag(argv: &mut Vec<String>, name: &str, limit: Option<u64>)
    ensures
        final(argv).deep_view() == old(argv).deep_view() + limit_flags(name@, limit),
{
    match limit {
        Some(n) => {
            let mut flag = String::from_str(name);
            let number = decimal_string(n);
            flag.append(number.as_str());
            push_arg(argv, flag);
        },
        None => {
        },
    }
}

/// Appends the mount arguments of the binds that count: the host
/// configuration's where it lists any, else the caller's.
fn push_effective_binds(
    argv: &mut Vec<String>,
    host: &Option<HostConfig>,
    binds: &Vec<(String, String)>,
)
    ensures
        final(argv).deep_view() == old(argv).deep_view() + bind_flags(
            effective_binds(host_view(*host), binds.deep_view()),
        ),
{
    match host {
        Some(h) => match &h.binds {
            Some(own) => push_bind_flags(argv, own),
            None => push_bind_flags(argv, binds),
        },
        None => push_bind_flags(argv, binds),
    }
}

/// Appends the resource-limit arguments of the host configuration, if there
/// is one: CPU shares, CPUs, memory, memory reservation.
fn push_resource_flags(argv: &mut Vec<String>, host: &Option<HostConfig>)
    ensures
        final(argv).deep_view() == old(argv).deep_view() + resource_flags(host_view(*host)),
{
    match host {
        Some(h) => {
            push_limit_flag(argv, "--cpu-shares=", h.cpu_shares);
            push_limit_flag(argv, "--cpus=", h.cpus);
            push_limit_flag(argv, "--memory=", h.memory);
            push_limit_flag(argv, "--memory-reservation=", h.memory_reservation);
        },
        None => {
        },
    }
}

/// Appends the working-directory argument, if a directory is set.
fn push_work_dir_flag(argv: &mut Vec<String>, work_dir: &Option<String>)
    ensures
        final(argv).deep_view() == old(argv).deep_view() + work_dir_flags(work_dir.deep_view()),
{
    match work_dir {
        Some(dir) => {
            let mut flag = String::from_str("--workdir ");
            flag.append(dir.as_str());
            push_arg(argv, flag);
        },
        None => {},
    }
}

/// Appends the containment argument, if a host configuration is attached
/// and asks for it.
fn push_contain_flag(argv: &mut Vec<String>, host: &Option<HostConfig>)
    ensures
        final(argv).deep_view() == old(argv).deep_view() + contain_flags(host_view(*host)),
{
    match host {
        Some(h) => {
            if h.contain_all {
                push_arg(argv, String::from_str("--containall"));
            }
        },
        None => {},
    }
}

/// Appends one argument per environment variable, in the map's order.
fn push_env_flags(argv: &mut Vec<String>, env: &IndexMap<String, String>)
    ensures
        final(argv).deep_view() == old(argv).deep_view() + env_flags(env_entries(*env)),
{
    let n = env_len(env);
    let mut i: usize = 0;
    while i < n
        invariant
            i <= n,
            n == env_entries(*env).len(),
            argv.deep_view() == old(argv).deep_view() + env_flags(env_entries(*env)).take(
                i as int,
            ),
        decreases n - i,
    {
        match env_get_index(env, i) {
            Some(pair) => {
                let mut flag = String::from_str("--env ");
                flag.append(pair.0.as_str());
                flag.append("=");
                flag.append(pair.1.as_str());
                push_arg(argv, flag);
            },
            None => {},
        }
        i += 1;
    }
}

impl Clone for Singularity {
    /// A copy that describes the same invocation.
    fn clone(&self) -> (copy: Self)
        ensures
            copy@ == self@,
    {
        let mut args: Vec<String> = Vec::new();
        push_all(&mut args, &self.args);
        Singularity {
            image: self.image.clone(),
            program: self.program.clone(),
            args,
            attach_stdout: self.attach_stdout,
            attach_stderr: self.attach_stderr,
            env: env_clone(&self.env),
            work_dir: match &self.work_dir {
                Some(dir) => Some(dir.clone()),
                None => None,
            },
            host_config: match &self.host_config {
                Some(host) => Some(host.clone()),
                None => None,
            },
        }
    }
}

impl Default for Singularity {
    /// The same as [`Singularity::new`].
    fn default() -> (s: Self)
        ensures
            s@ == blank_singularity(),
    {
        Singularity::new()
    }
}

impl Singularity {
    /// Creates a new [`Singularity`] client with nothing set.
    pub fn new() -> (s: Self)
        ensures
            s@ == blank_singularity(),
    {
        let s = Singularity {
            image: String::new(),
            program: String::new(),
            args: Vec::new(),
            attach_stdout: false,
            attach_stderr: false,
            env: env_new(),
            work_dir: None,
            host_config: None,
        };
        assert(s.args.deep_view() =~= Seq::<Seq<char>>::empty());
        s
    }

    /// Sets the image name.
    pub fn image(self, image: &str) -> (s: Self)
        ensures
            s@ == (SingularityView { image: image@, ..self@ }),
    {
        let mut s = self;
        s.image = String::from_str(image);
        s
    }

    /// Sets the program to run.
    pub fn program(self, program: &str) -> (s: Self)
        ensures
            s@ == (SingularityView { program: program@, ..self@ }),
    {
        let mut s = self;
        s.program = String::from_str(program);
        s
    }

    /// Adds an argument after those already given.
    pub fn arg(self, arg: &str) -> (s: Self)
        ensures
            s@ == (SingularityView { args: self@.args.push(arg@), ..self@ }),
    {
        let mut s = self;
        push_arg(&mut s.args, String::from_str(arg));
        s
    }

    /// Adds several arguments, in order, after those already given.
    pub fn args(self, args: Vec<String>) -> (s: Self)
        ensures
            s@ == (SingularityView { args: self@.args + args.deep_view(), ..self@ }),
    {
        let mut s = self;
        push_all(&mut s.args, &args);
        s
    }

    /// Sets stdout to be attached.
    pub fn attach_stdout(self) -> (s: Self)
        ensures
            s@ == (SingularityView { attach_stdout: true, ..self@ }),
    {
        let mut s = self;
        s.attach_stdout = true;
        s
    }

    /// Sets stderr to be attached.
    pub fn attach_stderr(self) -> (s: Self)
        ensures
            s@ == (SingularityView { attach_stderr: true, ..self@ }),
    {
        let mut s = self;
        s.attach_stderr = true;
        s
    }

    /// Sets an environment variable. A name that is already set keeps its
    /// place among the variables and takes the new value.
    pub fn env(self, name: &str, value: &str) -> (s: Self)
        ensures
            s@ == (SingularityView { env: set_var(self@.env, name@, value@), ..self@ }),
    {
        let mut s = self;
        env_insert(&mut s.env, String::from_str(name), String::from_str(value));
        s
    }

    /// Sets several environment variables, first to last.
    pub fn envs(self, variables: Vec<(String, String)>) -> (s: Self)
        ensures
            s@ == (SingularityView {
                env: set_vars(self@.env, variables.deep_view()),
                ..self@
            }),
    {
        let mut s = self;
        env_extend(&mut s.env, variables);
        s
    }

    /// Sets the working directory.
    pub fn work_dir(self, work_dir: &str) -> (s: Self)
        ensures
            s@ == (SingularityView { work_dir: Some(work_dir@), ..self@ }),
    {
        let mut s = self;
        s.work_dir = Some(String::from_str(work_dir));
        s
    }

    /// Sets the host configuration.
    pub fn host_config(self, host_config: HostConfig) -> (s: Self)
        ensures
            s@ == (SingularityView { host_config: Some(host_config@), ..self@ }),
    {
        let mut s = self;
        s.host_config = Some(host_config);
        s
    }

    /// The argument vector that runs this description: `exec`, the flags,
    /// the caller's `args`, then the image, the program and the program's
    /// own arguments. `binds` are used only where the host configuration
    /// lists none. Each flag is one argument that holds its name and value.
    pub fn exec_args(&self, binds: &Vec<(String, String)>, args: &Vec<String>) -> (argv: Vec<
        String,
    >)
        ensures
            argv.deep_view() == exec_argv(self@, binds.deep_view(), args.deep_view()),
    {
        let mut argv: Vec<String> = Vec::new();
        push_arg(&mut argv, String::from_str("exec"));
        self.push_exec_flags(&mut argv, binds);
        push_all(&mut argv, args);
        push_arg(&mut argv, self.image.clone());
        push_arg(&mut argv, self.program.clone());
        push_all(&mut argv, &self.args);
        argv
    }

    /// Appends the flags of an `exec` invocation: binds, resource limits,
    /// environment, working directory, containment.
    fn push_exec_flags(&self, argv: &mut Vec<String>, binds: &Vec<(String, String)>)
        ensures
            final(argv).deep_view() == old(argv).deep_view() + exec_flags(
                self@,
                binds.deep_view(),
            ),
    {
        push_effective_binds(argv, &self.host_config, binds);
        push_resource_flags(argv, &self.host_config);
        push_env_flags(argv, &self.env);
        push_work_dir_flag(argv, &self.work_dir);
        push_contain_flag(argv, &self.host_config);
    }

    /// Pulls a Singularity image from a given URL: says what there is to do,
    /// given whether anything exists at `output_path`. An image that is
    /// already there is never pulled again; otherwise the runtime is to be
    /// run with `pull`, the output path and the image, and its outcome goes
    /// to [`pull_outcome`](crate::gateway::pull_outcome).
    pub fn pull_image(&self, image: &str, output_path: &str, output_exists: bool) -> (step:
        PullStep)
        ensures
            match step {
                PullStep::AlreadyPulled => output_exists,
                PullStep::Run(argv) => !output_exists && argv.deep_view() == pull_argv(
                    image@,
                    output_path@,
                ),
            },
    {
        if output_exists {
            PullStep::AlreadyPulled
        } else {
            PullStep::Run(pull_args(image, output_path))
        }
    }

    /// Executes a command inside a Singularity container: checks that the
    /// description names an image and a program, and hands out the argument
    /// vector of [`exec_args`](Singularity::exec_args) to run the runtime
    /// with. The outcome of that run goes to
    /// [`exec_outcome`](crate::gateway::exec_outcome).
    pub fn exec(&self, binds: Vec<(String, String)>, args: Vec<String>) -> (result: Result<
        Vec<String>,
        ExecError,
    >)
        ensures
            match result {
                Ok(argv) => runnable(self@) && argv.deep_view() == exec_argv(
                    self@,
                    binds.deep_view(),
                    args.deep_view(),
                ),
                Err(e) => if self@.image.len() == 0 {
                    e == ExecError::MissingImage
                } else {
                    self@.program.len() == 0 && e == ExecError::MissingProgram
                },
            },
    {
        if self.image.as_str().is_empty() {
            Err(ExecError::MissingImage)
        } else if self.program.as_str().is_empty() {
            Err(ExecError::MissingProgram)
        } else {
            Ok(self.exec_args(&binds, &args))
        }
    }

    /// Gets the version of Singularity: the argument vector to run the
    /// runtime with. The outcome of that run goes to
    /// [`version_outcome`](crate::gateway::version_outcome).
    pub fn version(&self) -> (argv: Vec<String>)
        ensures
            argv.deep_view() == version_argv(),
    {
        let mut argv: Vec<String> = Vec::new();
        push_arg(&mut argv, String::from_str("--version"));
        argv
    }
}

/// The argument vector that pulls `image` into the file `output_path`. Both
/// are passed on as they are, each as one argument.
pub fn pull_args(image: &str, output_path: &str) -> (argv: Vec<String>)
    ensures
        argv.deep_view() == pull_argv(image@, output_path@),
{
    let mut argv: Vec<String> = Vec::new();
    push_arg(&mut argv, String::from_str("pull"));
    push_arg(&mut argv, String::from_str(output_path));
    push_arg(&mut argv, String::from_str(image));
    argv
}

/// The notice for a pull that found its output in place.
pub fn already_pulled_notice(image: &str) -> (text: String)
    ensures
        text@ == "Image already pulled: "@ + image@,
{
    let mut text = String::from_str("Image already pulled: ");
    text.append(image);
    text
}

} // verus!
