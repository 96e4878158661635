//! Assembly of the system-call allow-list that is installed before the
//! machine runs guest code.

use vstd::prelude::*;
use crate::pipeline::Action;
use crate::pipeline::Pipeline;
use crate::pipeline::PipelineView;

verus! {

/// What happens to a system call that no rule allows.
#[derive(Clone, Copy, Debug, PartialEq, Eq, Structural)]
pub enum SeccompOpt {
    /// The calling thread is sent a signal.
    Trap,
    /// The process is killed.
    Kill,
}

/// An ordered allow-list of system calls, and what happens to the others.
///
/// The rules themselves are the platform's affair: the core orders them
/// and never looks inside one.
#[derive(Debug, PartialEq, Eq)]
pub struct SyscallPolicy<R> {
    /// What happens to a call outside the list.
    pub on_violation: SeccompOpt,
    /// The rules, in the order in which they are compiled.
    pub rules: Vec<R>,
}

/// The rules of a machine: its own allow-list, followed by the rules of the
/// memory balloon when the machine has one.
pub open spec fn policy_rules<R>(whitelist: Seq<R>, balloon_rules: Seq<R>, balloon_enable: bool) -> Seq<
    R,
> {
    if balloon_enable {
        whitelist + balloon_rules
    } else {
        whitelist
    }
}

/// What installing the filter asks of the host.
pub open spec fn seccomp_plan() -> Seq<Action> {
    seq![Action::InstallFilter]
}

/// A balloon only adds rules.
///
/// The policy of a machine with a balloon begins with the whole policy of
/// the same machine without one, in the same order; what follows are the
/// balloon's rules and nothing else. Without a balloon the policy is the
/// machine's own allow-list.
pub proof fn lemma_balloon_only_adds<R>(whitelist: Seq<R>, balloon_rules: Seq<R>)
    ensures
        policy_rules(whitelist, balloon_rules, false) == whitelist,
        policy_rules(whitelist, balloon_rules, true) == policy_rules(
            whitelist,
            balloon_rules,
            false,
        ) + balloon_rules,
        policy_rules(whitelist, balloon_rules, true).len() >= policy_rules(
            whitelist,
            balloon_rules,
            false,
        ).len(),
        policy_rules(whitelist, balloon_rules, true).take(whitelist.len() as int) == whitelist,
        policy_rules(whitelist, balloon_rules, true).skip(whitelist.len() as int)
            == balloon_rules,
{
    let with = policy_rules(whitelist, balloon_rules, true);
    assert(with.take(whitelist.len() as int) =~= whitelist);
    assert(with.skip(whitelist.len() as int) =~= balloon_rules);
}

/// Assembles the allow-list of a machine and plans its installation.
///
/// `whitelist` is the machine's own allow-list and `balloon_rules` are the
/// system calls that only a memory balloon needs; they are added when
/// `balloon_enable` is set. A call outside the list traps.
pub fn register_seccomp<R>(whitelist: Vec<R>, balloon_rules: Vec<R>, balloon_enable: bool) -> (planned:
    (SyscallPolicy<R>, Pipeline))
    ensures
        planned.0.on_violation == SeccompOpt::Trap,
        planned.0.rules@ == policy_rules(whitelist@, balloon_rules@, balloon_enable),
        planned.1@ == PipelineView::start(seccomp_plan(), None),
{
    let mut bpf_rules = whitelist;
    let mut extra = balloon_rules;
    if balloon_enable {
        bpf_rules.append(&mut extra);
    }
    let mut steps: Vec<Action> = Vec::new();
    steps.push(Action::InstallFilter);
    assert(steps@ =~= seccomp_plan());
    (SyscallPolicy { on_violation: SeccompOpt::Trap, rules: bpf_rules }, Pipeline::new(steps, None))
}

} // verus!
