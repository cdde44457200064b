//! What holds of every description and of every argument vector built from
//! one, proved over the model.

use crate::model::{
    bind_flag, bind_flags, effective_binds, env_flag, env_flags, exec_argv, exec_flags, has_var,
    names_distinct, resource_flags, set_var, set_vars, Bind, HostConfigView, SingularityView,
    Var,
};
use vstd::prelude::*;

verus! {

/// An argument is a flag when it begins with two dashes.
pub open spec fn is_flag(arg: Seq<char>) -> bool {
    arg.len() >= 2 && arg[0] == '-' && arg[1] == '-'
}

/// Setting a variable keeps every variable that was there in its place and
/// under its name. Only the value of the variable that is set changes; a
/// name that was not there before is added at the end.
pub proof fn lemma_set_var_keeps_order(env: Seq<Var>, name: Seq<char>, value: Seq<char>)
    ensures
        set_var(env, name, value).len() == if has_var(env, name) {
            env.len()
        } else {
            env.len() + 1
        },
        forall|i: int|
            0 <= i < env.len() ==> (#[trigger] set_var(env, name, value)[i]).0 == env[i].0,
        forall|i: int|
            0 <= i < env.len() ==> (#[trigger] set_var(env, name, value)[i]).1 == if env[i].0
                == name {
                value
            } else {
                env[i].1
            },
        !has_var(env, name) ==> set_var(env, name, value).last() == (name, value),
        has_var(set_var(env, name, value), name),
{
    if has_var(env, name) {
        let i = choose|i: int| 0 <= i < env.len() && (#[trigger] env[i]).0 == name;
        assert(set_var(env, name, value)[i].0 == name);
    }
}

/// Setting a variable whose name is already at place `i`, among distinct
/// names, changes the value at place `i` and nothing else.
pub proof fn lemma_overwrite_in_place(env: Seq<Var>, i: int, value: Seq<char>)
    requires
        names_distinct(env),
        0 <= i < env.len(),
    ensures
        set_var(env, env[i].0, value) == env.update(i, (env[i].0, value)),
        env_flags(set_var(env, env[i].0, value)) == env_flags(env).update(
            i,
            env_flag((env[i].0, value)),
        ),
{
}

/// Setting a variable leaves the names distinct.
pub proof fn lemma_set_var_keeps_names_distinct(env: Seq<Var>, name: Seq<char>, value: Seq<char>)
    requires
        names_distinct(env),
    ensures
        names_distinct(set_var(env, name, value)),
{
}

/// Setting several variables leaves the names distinct.
pub proof fn lemma_set_vars_keeps_names_distinct(env: Seq<Var>, vars: Seq<Var>)
    requires
        names_distinct(env),
    ensures
        names_distinct(set_vars(env, vars)),
    decreases vars.len(),
{
    if vars.len() > 0 {
        lemma_set_vars_keeps_names_distinct(env, vars.drop_last());
        lemma_set_var_keeps_names_distinct(
            set_vars(env, vars.drop_last()),
            vars.last().0,
            vars.last().1,
        );
    }
}

/// After setting `a`, then `b`, then `a` again, the variables are `a` with
/// its last value and then `b`: the second write to `a` does not move it
/// behind `b`. The environment flags come in that order.
pub proof fn lemma_overwrite_keeps_first_place(
    a: Seq<char>,
    b: Seq<char>,
    first: Seq<char>,
    second: Seq<char>,
    third: Seq<char>,
)
    requires
        a != b,
    ensures
        set_var(set_var(set_var(Seq::empty(), a, first), b, second), a, third) == seq![
            (a, third),
            (b, second),
        ],
        env_flags(set_var(set_var(set_var(Seq::empty(), a, first), b, second), a, third)) == seq![
            env_flag((a, third)),
            env_flag((b, second)),
        ],
{
    let both = set_var(set_var(Seq::empty(), a, first), b, second);
    assert(both[0].0 == a);
}

/// The environment flags come one per variable, in the variables' order.
pub proof fn lemma_env_flags_in_order(s: SingularityView, binds: Seq<Bind>)
    ensures
        ({
            let from: int = (bind_flags(effective_binds(s.host_config, binds)).len()
                + resource_flags(s.host_config).len()) as int;
            &&& from + s.env.len() <= exec_flags(s, binds).len()
            &&& forall|i: int|
                0 <= i < s.env.len() ==> #[trigger] exec_flags(s, binds)[from + i] == env_flag(
                    s.env[i],
                )
        }),
{
}

/// Binds that the host configuration lists are the only ones that show;
/// the caller's binds change nothing then.
pub proof fn lemma_host_binds_win(
    s: SingularityView,
    host_binds: Seq<Bind>,
    caller: Seq<Bind>,
    extra: Seq<Seq<char>>,
)
    requires
        s.host_config matches Some(h) && h.binds == Some(host_binds),
    ensures
        effective_binds(s.host_config, caller) == host_binds,
        exec_flags(s, caller).take(host_binds.len() as int) == bind_flags(host_binds),
        exec_flags(s, caller) == exec_flags(s, Seq::empty()),
        exec_argv(s, caller, extra) == exec_argv(s, Seq::empty(), extra),
{
}

/// Where the host configuration lists no binds, or there is no host
/// configuration, the caller's binds show, first among the flags and in the
/// caller's order.
pub proof fn lemma_caller_binds_fall_back(s: SingularityView, caller: Seq<Bind>)
    requires
        s.host_config matches Some(h) ==> h.binds is None,
    ensures
        effective_binds(s.host_config, caller) == caller,
        exec_flags(s, caller) == bind_flags(caller) + exec_flags(s, Seq::empty()),
        forall|i: int|
            0 <= i < caller.len() ==> #[trigger] exec_flags(s, caller)[i] == bind_flag(caller[i]),
{
}

/// One if `present`, else zero.
pub open spec fn count(present: bool) -> nat {
    if present {
        1
    } else {
        0
    }
}

/// The number of limits that a host configuration sets, out of the four.
pub open spec fn limits_present(host: Option<HostConfigView>) -> nat {
    match host {
        Some(h) => count(h.cpu_shares is Some) + count(h.cpus is Some) + count(h.memory is Some)
            + count(h.memory_reservation is Some),
        None => 0,
    }
}

/// Whether a host configuration is attached and asks for containment.
pub open spec fn contained(host: Option<HostConfigView>) -> bool {
    host matches Some(h) && h.contain_all
}

/// A limit that is absent gives no flag. There are as many resource flags
/// as limits present, so none where every limit is absent, and none without
/// a host configuration.
pub proof fn lemma_absent_limits_give_no_flags(host: Option<HostConfigView>)
    ensures
        resource_flags(host).len() == limits_present(host),
        (host matches Some(h) ==> h.cpu_shares is None && h.cpus is None && h.memory is None
            && h.memory_reservation is None) ==> resource_flags(host) == Seq::<Seq<char>>::empty(),
{
}

/// Every bind that counts, every limit that is present, every variable, the
/// working directory and the containment each give exactly one argument,
/// whatever characters their values hold.
pub proof fn lemma_one_argument_per_flag(s: SingularityView, binds: Seq<Bind>)
    ensures
        exec_flags(s, binds).len() == effective_binds(s.host_config, binds).len()
            + limits_present(s.host_config) + s.env.len() + count(s.work_dir is Some) + count(
            contained(s.host_config),
        ),
{
    lemma_absent_limits_give_no_flags(s.host_config);
}

/// Every argument that the library adds on its own account, between
/// `exec` and the caller's extra arguments, is a flag.
pub proof fn lemma_exec_flags_are_flags(s: SingularityView, binds: Seq<Bind>)
    ensures
        forall|i: int|
            0 <= i < exec_flags(s, binds).len() ==> is_flag(#[trigger] exec_flags(s, binds)[i]),
{
    reveal_strlit("--bind ");
    reveal_strlit("--cpu-shares=");
    reveal_strlit("--cpus=");
    reveal_strlit("--memory=");
    reveal_strlit("--memory-reservation=");
    reveal_strlit("--env ");
    reveal_strlit("--workdir ");
    reveal_strlit("--containall");
}

/// Whether the streams are marked as attached has no part in the argument
/// vector.
pub proof fn lemma_attach_marks_change_nothing(
    s: SingularityView,
    stdout: bool,
    stderr: bool,
    binds: Seq<Bind>,
    extra: Seq<Seq<char>>,
)
    ensures
        exec_argv(
            SingularityView { attach_stdout: stdout, attach_stderr: stderr, ..s },
            binds,
            extra,
        ) == exec_argv(s, binds, extra),
{
}

/// The argument vector of an `exec` is the subcommand, then the flags, then
/// the caller's extra arguments, then the image, directly followed by the
/// program, then the program's arguments and nothing more. So every flag
/// stands before the image.
pub proof fn lemma_image_directly_before_program(
    s: SingularityView,
    binds: Seq<Bind>,
    extra: Seq<Seq<char>>,
)
    ensures
        ({
            let argv = exec_argv(s, binds, extra);
            let flags = exec_flags(s, binds);
            let after_flags: int = 1 + flags.len() as int;
            let at: int = after_flags + extra.len();
            &&& argv.len() == at + 2 + s.args.len()
            &&& argv[0] == "exec"@
            &&& argv.subrange(1, after_flags) == flags
            &&& forall|i: int| 1 <= i < after_flags ==> is_flag(#[trigger] argv[i])
            &&& argv.subrange(after_flags, at) == extra
            &&& argv[at] == s.image
            &&& argv[at + 1] == s.program
            &&& argv.subrange(at + 2, argv.len() as int) == s.args
        }),
{
    lemma_exec_flags_are_flags(s, binds);
}

} // verus!
