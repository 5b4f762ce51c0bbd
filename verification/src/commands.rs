//! Command lines, and what is done around running them.
//!
//! A command is run by a forked child, which becomes the program, while the
//! parent waits for it to end. Its texts are handed over as C strings, which
//! end at the first NUL character, so no text of a command line holds one.
use vstd::prelude::*;

use crate::text::{copy_texts, own_texts, texts};

verus! {

/// A program and its arguments.
pub struct CommandLine {
    pub program: String,
    pub args: Vec<String>,
}

/// What a [`CommandLine`] holds.
#[verifier::ext_equal]
pub struct CommandView {
    pub program: Seq<char>,
    pub args: Seq<Seq<char>>,
}

impl View for CommandLine {
    type V = CommandView;

    open spec fn view(&self) -> CommandView {
        CommandView { program: self.program@, args: self.args.deep_view() }
    }
}

impl DeepView for CommandLine {
    type V = CommandView;

    open spec fn deep_view(&self) -> CommandView {
        self@
    }
}

impl Clone for CommandLine {
    fn clone(&self) -> (copy: Self)
        ensures
            copy@ == self@,
            copy.program@ == self.program@,
            copy.args.deep_view() == self.args.deep_view(),
    {
        CommandLine { program: self.program.clone(), args: copy_texts(&self.args) }
    }
}

/// Whether a text holds no NUL character.
pub open spec fn no_nul(text: Seq<char>) -> bool {
    forall|i: int| 0 <= i < text.len() ==> #[trigger] text[i] != '\0'
}

/// Whether none of the texts holds a NUL character.
pub open spec fn no_nuls(items: Seq<Seq<char>>) -> bool {
    forall|i: int| 0 <= i < items.len() ==> no_nul(#[trigger] items[i])
}

impl CommandView {
    /// Whether the program and the arguments can be handed over as C strings.
    pub open spec fn runnable(self) -> bool {
        no_nul(self.program) && no_nuls(self.args)
    }

    /// The argument vector of the new process: the program names itself first.
    pub open spec fn argv(self) -> Seq<Seq<char>> {
        seq![self.program] + self.args
    }
}

impl CommandLine {
    /// The argument vector of the new process.
    pub fn argv(&self) -> (argv: Vec<String>)
        ensures
            argv.deep_view() == self@.argv(),
            argv@.len() == self.args@.len() + 1,
            argv@[0]@ == self.program@,
            forall|i: int| 0 <= i < self.args@.len() ==> (#[trigger] self.args@[i])@ == argv@[i + 1]@,
            self@.runnable() ==> no_nuls(argv.deep_view()),
    {
        let mut argv: Vec<String> = Vec::new();
        argv.push(self.program.clone());
        let mut i: usize = 0;
        while i < self.args.len()
            invariant
                i <= self.args.len(),
                argv@.len() == i + 1,
                argv@[0]@ == self.program@,
                forall|j: int| 0 <= j < i ==> (#[trigger] argv@[j + 1])@ == self.args@[j]@,
            decreases self.args.len() - i,
        {
            argv.push(self.args[i].clone());
            i += 1;
        }
        assert forall|j: int| 0 <= j < argv.deep_view().len() implies argv.deep_view()[j]
            == self@.argv()[j] by {
            if j > 0 {
                assert(argv@[(j - 1) + 1]@ == self.args@[j - 1]@);
            }
        }
        assert(argv.deep_view() =~= self@.argv());
        argv
    }
}

/// The command line of a program.
pub fn run_cmd_safe(cmd: &str, args: &[&str]) -> (command: CommandLine)
    requires
        no_nul(cmd@),
        no_nuls(texts(args@)),
    ensures
        command@ == (CommandView { program: cmd@, args: texts(args@) }),
        command.program@ == cmd@,
        command.args@.len() == args@.len(),
        forall|i: int| 0 <= i < args@.len() ==> (#[trigger] command.args@[i])@ == args@[i]@,
        command@.runnable(),
{
    CommandLine { program: cmd.to_string(), args: own_texts(args) }
}

/// A command line of `iptables`.
pub open spec fn iptables(args: Seq<Seq<char>>) -> CommandView {
    CommandView { program: "iptables"@, args }
}

/// A command line of `ip`.
pub open spec fn ip(args: Seq<Seq<char>>) -> CommandView {
    CommandView { program: "ip"@, args }
}

/// A command line of `sysctl`.
pub open spec fn sysctl(args: Seq<Seq<char>>) -> CommandView {
    CommandView { program: "sysctl"@, args }
}

/// The command line of `iptables` with the arguments.
pub fn run_iptables_safe(args: &[&str]) -> (command: CommandLine)
    requires
        no_nuls(texts(args@)),
    ensures
        command@ == iptables(texts(args@)),
        command.program@ == "iptables"@,
        command.args@.len() == args@.len(),
        forall|i: int| 0 <= i < args@.len() ==> (#[trigger] command.args@[i])@ == args@[i]@,
        command@.runnable(),
{
    proof {
        reveal_strlit("iptables");
    }
    run_cmd_safe("iptables", args)
}

/// The command line of `ip` with the arguments.
pub fn run_ip_safe(args: &[&str]) -> (command: CommandLine)
    requires
        no_nuls(texts(args@)),
    ensures
        command@ == ip(texts(args@)),
        command.program@ == "ip"@,
        command.args@.len() == args@.len(),
        forall|i: int| 0 <= i < args@.len() ==> (#[trigger] command.args@[i])@ == args@[i]@,
        command@.runnable(),
{
    proof {
        reveal_strlit("ip");
    }
    run_cmd_safe("ip", args)
}

/// The command line of `sysctl` with the arguments.
pub fn run_sysctl_safe(args: &[&str]) -> (command: CommandLine)
    requires
        no_nuls(texts(args@)),
    ensures
        command@ == sysctl(texts(args@)),
        command.program@ == "sysctl"@,
        command.args@.len() == args@.len(),
        forall|i: int| 0 <= i < args@.len() ==> (#[trigger] command.args@[i])@ == args@[i]@,
        command@.runnable(),
{
    proof {
        reveal_strlit("sysctl");
    }
    run_cmd_safe("sysctl", args)
}

/// What a fork returned.
pub enum Fork {
    /// This process is the child.
    Child,
    /// This process is the parent of the child with the id.
    Parent(i32),
    /// There is no child.
    Failed,
}

/// What is done after a fork.
pub enum ForkAction {
    /// Become the program; where that fails, exit with the code.
    Execute(i32),
    /// Wait for the child to end, so that the next command finds its locks free.
    Wait(i32),
    /// Print the message.
    Complain(String),
}

/// What is done after a fork: the child becomes the program, the parent waits.
pub fn after_fork(fork: Fork) -> (action: ForkAction)
    ensures
        match fork {
            Fork::Child => action == ForkAction::Execute(1),
            Fork::Parent(child) => action == ForkAction::Wait(child),
            Fork::Failed => action matches ForkAction::Complain(message) && message@
                == "Fork failed"@,
        },
{
    match fork {
        Fork::Child => ForkAction::Execute(1),
        Fork::Parent(child) => ForkAction::Wait(child),
        Fork::Failed => ForkAction::Complain("Fork failed".to_string()),
    }
}

/// The message that is printed where waiting for a child failed.
pub fn wait_complaint(error: &str) -> (message: String)
    ensures
        message@ == "Error waiting for iptables command: "@ + error@,
{
    "Error waiting for iptables command: ".to_string().concat(error)
}

/// The view of a command line holds its program and its arguments, in order.
pub proof fn command_view_is_faithful(command: CommandLine)
    ensures
        command@.program == command.program@,
        command@.args.len() == command.args@.len(),
        forall|i: int|
            0 <= i < command.args@.len() ==> #[trigger] command@.args[i] == command.args@[i]@,
        command.deep_view() == command@,
{
}

/// A process is given the program and then every argument, in order.
pub proof fn arguments_follow_the_program(command: CommandView)
    ensures
        command.argv().len() == command.args.len() + 1,
        command.argv().first() == command.program,
        command.argv().drop_first() == command.args,
{
    assert(command.argv().drop_first() =~= command.args);
}

/// The three programs are run with the arguments given, and no others.
pub proof fn programs_get_their_arguments(args: Seq<Seq<char>>)
    ensures
        iptables(args).program == "iptables"@ && iptables(args).args == args,
        ip(args).program == "ip"@ && ip(args).args == args,
        sysctl(args).program == "sysctl"@ && sysctl(args).args == args,
{
}

/// A command can be run exactly where neither its program nor any of its arguments
/// holds a NUL character.
pub proof fn runnable_commands_hold_no_nul(command: CommandView)
    ensures
        command.runnable() == (!command.program.contains('\0') && forall|i: int|
            0 <= i < command.args.len() ==> !(#[trigger] command.args[i]).contains('\0')),
{
    lemma_no_nul(command.program);
    assert forall|i: int| 0 <= i < command.args.len() implies no_nul(#[trigger] command.args[i])
        == !command.args[i].contains('\0') by {
        lemma_no_nul(command.args[i]);
    }
}

proof fn lemma_no_nul(text: Seq<char>)
    ensures
        no_nul(text) == !text.contains('\0'),
{
    if !text.contains('\0') {
        assert forall|i: int| 0 <= i < text.len() implies #[trigger] text[i] != '\0' by {
            assert(text.contains(text[i]));
        }
    }
}

} // verus!
