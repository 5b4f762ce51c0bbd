//! The captive portal: the commands that install it, and those that let a client
//! out to the internet for a while.
//!
//! Clients of the subnet reach the internet only through a chain of the portal.
//! Web traffic of clients that have not connected is marked and redirected to
//! this machine. A client that connects gets a rule ahead of the others in the
//! filter and mangle chains, which is removed when the time is up.
use vstd::prelude::*;

use crate::commands::{
    ip, iptables, no_nul, run_ip_safe, run_iptables_safe, run_sysctl_safe, sysctl,
    CommandLine, CommandView,
};
use crate::page::header_texts;

verus! {

/// The addresses of the clients.
pub const SUBNET: &'static str = "192.168.3.0/24";

/// The addresses that clients may always reach.
pub const LOCAL_PRIVATE_RANGE: &'static str = "192.168.3.0/24";

/// How long a client stays connected, in seconds.
pub const CONNECTED_SECONDS: u64 = 1800;

/// The commands that remove what an earlier run installed: its hooks into the
/// filter, mangle and NAT tables, its chains and its routing policy.
pub open spec fn purge_plan() -> Seq<CommandView> {
    seq![
        iptables(
            seq![
                "-D"@, "forwarding_rule"@, "-s"@, SUBNET@, "!"@, "-d"@, LOCAL_PRIVATE_RANGE@,
                "-j"@, "portal_auth"@,
            ],
        ),
        iptables(
            seq![
                "-D"@, "forwarding_rule"@, "-s"@, SUBNET@, "!"@, "-d"@, LOCAL_PRIVATE_RANGE@,
                "-p"@, "tcp"@, "-j"@, "REJECT"@, "--reject-with"@, "tcp-reset"@,
            ],
        ),
        iptables(
            seq![
                "-D"@, "forwarding_rule"@, "-s"@, SUBNET@, "!"@, "-d"@, LOCAL_PRIVATE_RANGE@,
                "-j"@, "DROP"@,
            ],
        ),
        iptables(
            seq![
                "-D"@, "INPUT"@, "-m"@, "mark"@, "--mark"@, "99"@, "-p"@, "tcp"@, "-m"@,
                "conntrack"@, "--ctstate"@, "INVALID"@, "-j"@, "REJECT"@, "--reject-with"@,
                "tcp-reset"@,
            ],
        ),
        iptables(
            seq![
                "-t"@, "mangle"@, "-D"@, "PREROUTING"@, "-s"@, SUBNET@, "!"@, "-d"@,
                LOCAL_PRIVATE_RANGE@, "-p"@, "tcp"@, "--dport"@, "80"@, "-j"@,
                "portal_mangle"@,
            ],
        ),
        iptables(
            seq![
                "-t"@, "nat"@, "-D"@, "PREROUTING"@, "-m"@, "mark"@, "--mark"@, "99"@, "-j"@,
                "portal_nat"@,
            ],
        ),
        iptables(
            seq![
                "-F"@, "portal_auth"@,
            ],
        ),
        iptables(
            seq![
                "-X"@, "portal_auth"@,
            ],
        ),
        iptables(
            seq![
                "-t"@, "mangle"@, "-F"@, "portal_mangle"@,
            ],
        ),
        iptables(
            seq![
                "-t"@, "mangle"@, "-X"@, "portal_mangle"@,
            ],
        ),
        iptables(
            seq![
                "-t"@, "nat"@, "-F"@, "portal_nat"@,
            ],
        ),
        iptables(
            seq![
                "-t"@, "nat"@, "-X"@, "portal_nat"@,
            ],
        ),
        ip(
            seq![
                "rule"@, "del"@, "fwmark"@, "99"@, "table"@, "99"@,
            ],
        ),
        ip(
            seq![
                "route"@, "flush"@, "table"@, "99"@,
            ],
        ),
    ]
}

/// The commands that create the chains of the portal, and let name lookups
/// through.
pub open spec fn chain_plan() -> Seq<CommandView> {
    seq![
        iptables(
            seq![
                "-N"@, "portal_auth"@,
            ],
        ),
        iptables(
            seq![
                "-t"@, "mangle"@, "-N"@, "portal_mangle"@,
            ],
        ),
        iptables(
            seq![
                "-t"@, "nat"@, "-N"@, "portal_nat"@,
            ],
        ),
        iptables(
            seq![
                "-A"@, "portal_auth"@, "-p"@, "udp"@, "--dport"@, "53"@, "-j"@, "ACCEPT"@,
            ],
        ),
        iptables(
            seq![
                "-A"@, "portal_auth"@, "-p"@, "tcp"@, "--dport"@, "53"@, "-j"@, "ACCEPT"@,
            ],
        ),
    ]
}

/// The commands that send traffic to the internet through the portal's chain, and
/// reject or drop what the chain does not accept.
pub open spec fn jail_plan() -> Seq<CommandView> {
    seq![
        iptables(
            seq![
                "-A"@, "forwarding_rule"@, "-s"@, SUBNET@, "!"@, "-d"@, LOCAL_PRIVATE_RANGE@,
                "-j"@, "portal_auth"@,
            ],
        ),
        iptables(
            seq![
                "-A"@, "forwarding_rule"@, "-s"@, SUBNET@, "!"@, "-d"@, LOCAL_PRIVATE_RANGE@,
                "-p"@, "tcp"@, "-j"@, "REJECT"@, "--reject-with"@, "tcp-reset"@,
            ],
        ),
        iptables(
            seq![
                "-A"@, "forwarding_rule"@, "-s"@, SUBNET@, "!"@, "-d"@, LOCAL_PRIVATE_RANGE@,
                "-j"@, "DROP"@,
            ],
        ),
    ]
}

/// The commands that let clients reach the router itself: names, addresses,
/// shell and web pages; and that reset connections left over from before.
pub open spec fn input_plan(portal_port: Seq<char>) -> Seq<CommandView> {
    seq![
        iptables(
            seq![
                "-I"@, "INPUT"@, "1"@, "-s"@, SUBNET@, "-p"@, "udp"@, "--dport"@, "53"@, "-j"@,
                "ACCEPT"@,
            ],
        ),
        iptables(
            seq![
                "-I"@, "INPUT"@, "1"@, "-s"@, SUBNET@, "-p"@, "tcp"@, "--dport"@, "53"@, "-j"@,
                "ACCEPT"@,
            ],
        ),
        iptables(
            seq![
                "-I"@, "INPUT"@, "1"@, "-s"@, SUBNET@, "-p"@, "udp"@, "--dport"@, "67:68"@,
                "-j"@, "ACCEPT"@,
            ],
        ),
        iptables(
            seq![
                "-I"@, "INPUT"@, "1"@, "-s"@, SUBNET@, "-p"@, "tcp"@, "--dport"@, "22"@, "-j"@,
                "ACCEPT"@,
            ],
        ),
        iptables(
            seq![
                "-I"@, "INPUT"@, "1"@, "-s"@, SUBNET@, "-p"@, "tcp"@, "--dport"@, portal_port,
                "-j"@, "ACCEPT"@,
            ],
        ),
        iptables(
            seq![
                "-I"@, "INPUT"@, "1"@, "-m"@, "mark"@, "--mark"@, "99"@, "-p"@, "tcp"@, "-m"@,
                "conntrack"@, "--ctstate"@, "INVALID"@, "-j"@, "REJECT"@, "--reject-with"@,
                "tcp-reset"@,
            ],
        ),
    ]
}

/// The commands that mark web traffic of clients that have not connected, and
/// redirect it to the portal.
pub open spec fn capture_plan(portal_port: Seq<char>) -> Seq<CommandView> {
    seq![
        iptables(
            seq![
                "-t"@, "mangle"@, "-I"@, "PREROUTING"@, "1"@, "-s"@, SUBNET@, "!"@, "-d"@,
                LOCAL_PRIVATE_RANGE@, "-p"@, "tcp"@, "--dport"@, "80"@, "-j"@,
                "portal_mangle"@,
            ],
        ),
        iptables(
            seq![
                "-t"@, "mangle"@, "-A"@, "portal_mangle"@, "-p"@, "tcp"@, "-j"@, "MARK"@,
                "--set-mark"@, "99"@,
            ],
        ),
        iptables(
            seq![
                "-t"@, "nat"@, "-I"@, "PREROUTING"@, "1"@, "-m"@, "mark"@, "--mark"@, "99"@,
                "-j"@, "portal_nat"@,
            ],
        ),
        iptables(
            seq![
                "-t"@, "nat"@, "-A"@, "portal_nat"@, "-p"@, "tcp"@, "-j"@, "REDIRECT"@,
                "--to-ports"@, portal_port,
            ],
        ),
    ]
}

/// The commands that route marked packets to this machine, and let the kernel
/// accept them.
pub open spec fn routing_plan() -> Seq<CommandView> {
    seq![
        ip(
            seq![
                "rule"@, "add"@, "fwmark"@, "99"@, "table"@, "99"@,
            ],
        ),
        ip(
            seq![
                "route"@, "add"@, "local"@, "default"@, "dev"@, "lo"@, "table"@, "99"@,
            ],
        ),
        sysctl(
            seq![
                "-w"@, "net.ipv4.conf.all.rp_filter=2"@,
            ],
        ),
        sysctl(
            seq![
                "-w"@, "net.ipv4.conf.br-wlan.rp_filter=2"@,
            ],
        ),
        sysctl(
            seq![
                "-w"@, "net.ipv4.conf.lo.rp_filter=2"@,
            ],
        ),
        sysctl(
            seq![
                "-w"@, "net.ipv4.conf.all.route_localnet=1"@,
            ],
        ),
        sysctl(
            seq![
                "-w"@, "net.ipv4.conf.br-wlan.route_localnet=1"@,
            ],
        ),
    ]
}

/// The commands that install the portal once nothing of an earlier run is left.
pub open spec fn setup_plan(portal_port: Seq<char>) -> Seq<CommandView> {
    chain_plan() + jail_plan() + input_plan(portal_port) + capture_plan(portal_port)
        + routing_plan()
}

/// A step of the installation.
pub enum PortalStep {
    /// Print the line.
    Say(String),
    /// Run the command and wait for it, whatever comes of it.
    Run(CommandLine),
}

/// What a [`PortalStep`] holds.
pub enum PortalStepView {
    Say(Seq<char>),
    Run(CommandView),
}

impl View for PortalStep {
    type V = PortalStepView;

    open spec fn view(&self) -> PortalStepView {
        match self {
            PortalStep::Say(line) => PortalStepView::Say(line@),
            PortalStep::Run(command) => PortalStepView::Run(command@),
        }
    }
}

impl DeepView for PortalStep {
    type V = PortalStepView;

    open spec fn deep_view(&self) -> PortalStepView {
        self@
    }
}

/// Steps that run commands, in order.
pub open spec fn runs(commands: Seq<CommandView>) -> Seq<PortalStepView> {
    commands.map_values(|command: CommandView| PortalStepView::Run(command))
}

/// The steps of the installation.
pub open spec fn portal_plan(portal_port: Seq<char>) -> Seq<PortalStepView> {
    seq![PortalStepView::Say("Cleaning up previous walled garden configs..."@)] + runs(purge_plan())
        + seq![PortalStepView::Say("Configuring explicit OpenWrt Walled Garden..."@)] + runs(
        setup_plan(portal_port),
    ) + seq![PortalStepView::Say("Walled Garden successfully installed!"@)]
}

/// Whether all commands can be run.
pub open spec fn all_runnable(commands: Seq<CommandView>) -> bool {
    forall|i: int| 0 <= i < commands.len() ==> (#[trigger] commands[i]).runnable()
}

proof fn lemma_words_hold_no_nul()
    ensures
        no_nul("-D"@),
        no_nul("forwarding_rule"@),
        no_nul("-s"@),
        no_nul("!"@),
        no_nul("-d"@),
        no_nul("-j"@),
        no_nul("portal_auth"@),
        no_nul("-p"@),
        no_nul("tcp"@),
        no_nul("REJECT"@),
        no_nul("--reject-with"@),
        no_nul("tcp-reset"@),
        no_nul("DROP"@),
        no_nul("INPUT"@),
        no_nul("-m"@),
        no_nul("mark"@),
        no_nul("--mark"@),
        no_nul("99"@),
        no_nul("conntrack"@),
        no_nul("--ctstate"@),
        no_nul("INVALID"@),
        no_nul("-t"@),
        no_nul("mangle"@),
        no_nul("PREROUTING"@),
        no_nul("--dport"@),
        no_nul("80"@),
        no_nul("portal_mangle"@),
        no_nul("nat"@),
        no_nul("portal_nat"@),
        no_nul("-F"@),
        no_nul("-X"@),
        no_nul("rule"@),
        no_nul("del"@),
        no_nul("fwmark"@),
        no_nul("table"@),
        no_nul("route"@),
        no_nul("flush"@),
        no_nul("-N"@),
        no_nul("-A"@),
        no_nul("udp"@),
        no_nul("53"@),
        no_nul("ACCEPT"@),
        no_nul("-I"@),
        no_nul("1"@),
        no_nul("67:68"@),
        no_nul("22"@),
        no_nul("MARK"@),
        no_nul("--set-mark"@),
        no_nul("REDIRECT"@),
        no_nul("--to-ports"@),
        no_nul("add"@),
        no_nul("local"@),
        no_nul("default"@),
        no_nul("dev"@),
        no_nul("lo"@),
        no_nul("-w"@),
        no_nul("net.ipv4.conf.all.rp_filter=2"@),
        no_nul("net.ipv4.conf.br-wlan.rp_filter=2"@),
        no_nul("net.ipv4.conf.lo.rp_filter=2"@),
        no_nul("net.ipv4.conf.all.route_localnet=1"@),
        no_nul("net.ipv4.conf.br-wlan.route_localnet=1"@),
        no_nul("RETURN"@),
        no_nul("192.168.3.0/24"@),
{
    reveal_strlit("-D");
    reveal_strlit("forwarding_rule");
    reveal_strlit("-s");
    reveal_strlit("!");
    reveal_strlit("-d");
    reveal_strlit("-j");
    reveal_strlit("portal_auth");
    reveal_strlit("-p");
    reveal_strlit("tcp");
    reveal_strlit("REJECT");
    reveal_strlit("--reject-with");
    reveal_strlit("tcp-reset");
    reveal_strlit("DROP");
    reveal_strlit("INPUT");
    reveal_strlit("-m");
    reveal_strlit("mark");
    reveal_strlit("--mark");
    reveal_strlit("99");
    reveal_strlit("conntrack");
    reveal_strlit("--ctstate");
    reveal_strlit("INVALID");
    reveal_strlit("-t");
    reveal_strlit("mangle");
    reveal_strlit("PREROUTING");
    reveal_strlit("--dport");
    reveal_strlit("80");
    reveal_strlit("portal_mangle");
    reveal_strlit("nat");
    reveal_strlit("portal_nat");
    reveal_strlit("-F");
    reveal_strlit("-X");
    reveal_strlit("rule");
    reveal_strlit("del");
    reveal_strlit("fwmark");
    reveal_strlit("table");
    reveal_strlit("route");
    reveal_strlit("flush");
    reveal_strlit("-N");
    reveal_strlit("-A");
    reveal_strlit("udp");
    reveal_strlit("53");
    reveal_strlit("ACCEPT");
    reveal_strlit("-I");
    reveal_strlit("1");
    reveal_strlit("67:68");
    reveal_strlit("22");
    reveal_strlit("MARK");
    reveal_strlit("--set-mark");
    reveal_strlit("REDIRECT");
    reveal_strlit("--to-ports");
    reveal_strlit("add");
    reveal_strlit("local");
    reveal_strlit("default");
    reveal_strlit("dev");
    reveal_strlit("lo");
    reveal_strlit("-w");
    reveal_strlit("net.ipv4.conf.all.rp_filter=2");
    reveal_strlit("net.ipv4.conf.br-wlan.rp_filter=2");
    reveal_strlit("net.ipv4.conf.lo.rp_filter=2");
    reveal_strlit("net.ipv4.conf.all.route_localnet=1");
    reveal_strlit("net.ipv4.conf.br-wlan.route_localnet=1");
    reveal_strlit("RETURN");
    reveal_strlit("192.168.3.0/24");
}

fn purge_commands() -> (commands: Vec<CommandLine>)
    ensures
        commands.deep_view() == purge_plan(),
        all_runnable(commands.deep_view()),
{
    proof {
        lemma_words_hold_no_nul();
    }
    let commands = vec![
        run_iptables_safe(
            &[
                "-D", "forwarding_rule", "-s", SUBNET, "!", "-d", LOCAL_PRIVATE_RANGE, "-j",
                "portal_auth",
            ],
        ),
        run_iptables_safe(
            &[
                "-D", "forwarding_rule", "-s", SUBNET, "!", "-d", LOCAL_PRIVATE_RANGE, "-p",
                "tcp", "-j", "REJECT", "--reject-with", "tcp-reset",
            ],
        ),
        run_iptables_safe(
            &[
                "-D", "forwarding_rule", "-s", SUBNET, "!", "-d", LOCAL_PRIVATE_RANGE, "-j",
                "DROP",
            ],
        ),
        run_iptables_safe(
            &[
                "-D", "INPUT", "-m", "mark", "--mark", "99", "-p", "tcp", "-m", "conntrack",
                "--ctstate", "INVALID", "-j", "REJECT", "--reject-with", "tcp-reset",
            ],
        ),
        run_iptables_safe(
            &[
                "-t", "mangle", "-D", "PREROUTING", "-s", SUBNET, "!", "-d",
                LOCAL_PRIVATE_RANGE, "-p", "tcp", "--dport", "80", "-j", "portal_mangle",
            ],
        ),
        run_iptables_safe(
            &[
                "-t", "nat", "-D", "PREROUTING", "-m", "mark", "--mark", "99", "-j",
                "portal_nat",
            ],
        ),
        run_iptables_safe(
            &[
                "-F", "portal_auth",
            ],
        ),
        run_iptables_safe(
            &[
                "-X", "portal_auth",
            ],
        ),
        run_iptables_safe(
            &[
                "-t", "mangle", "-F", "portal_mangle",
            ],
        ),
        run_iptables_safe(
            &[
                "-t", "mangle", "-X", "portal_mangle",
            ],
        ),
        run_iptables_safe(
            &[
                "-t", "nat", "-F", "portal_nat",
            ],
        ),
        run_iptables_safe(
            &[
                "-t", "nat", "-X", "portal_nat",
            ],
        ),
        run_ip_safe(
            &[
                "rule", "del", "fwmark", "99", "table", "99",
            ],
        ),
        run_ip_safe(
            &[
                "route", "flush", "table", "99",
            ],
        ),
    ];
    assert(commands.deep_view() =~~= purge_plan());
    commands
}

fn chain_commands() -> (commands: Vec<CommandLine>)
    ensures
        commands.deep_view() == chain_plan(),
        all_runnable(commands.deep_view()),
{
    proof {
        lemma_words_hold_no_nul();
    }
    let commands = vec![
        run_iptables_safe(
            &[
                "-N", "portal_auth",
            ],
        ),
        run_iptables_safe(
            &[
                "-t", "mangle", "-N", "portal_mangle",
            ],
        ),
        run_iptables_safe(
            &[
                "-t", "nat", "-N", "portal_nat",
            ],
        ),
        run_iptables_safe(
            &[
                "-A", "portal_auth", "-p", "udp", "--dport", "53", "-j", "ACCEPT",
            ],
        ),
        run_iptables_safe(
            &[
                "-A", "portal_auth", "-p", "tcp", "--dport", "53", "-j", "ACCEPT",
            ],
        ),
    ];
    assert(commands.deep_view() =~~= chain_plan());
    commands
}

fn jail_commands() -> (commands: Vec<CommandLine>)
    ensures
        commands.deep_view() == jail_plan(),
        all_runnable(commands.deep_view()),
{
    proof {
        lemma_words_hold_no_nul();
    }
    let commands = vec![
        run_iptables_safe(
            &[
                "-A", "forwarding_rule", "-s", SUBNET, "!", "-d", LOCAL_PRIVATE_RANGE, "-j",
                "portal_auth",
            ],
        ),
        run_iptables_safe(
            &[
                "-A", "forwarding_rule", "-s", SUBNET, "!", "-d", LOCAL_PRIVATE_RANGE, "-p",
                "tcp", "-j", "REJECT", "--reject-with", "tcp-reset",
            ],
        ),
        run_iptables_safe(
            &[
                "-A", "forwarding_rule", "-s", SUBNET, "!", "-d", LOCAL_PRIVATE_RANGE, "-j",
                "DROP",
            ],
        ),
    ];
    assert(commands.deep_view() =~~= jail_plan());
    commands
}

fn input_commands(portal_port: &str) -> (commands: Vec<CommandLine>)
    requires
        no_nul(portal_port@),
    ensures
        commands.deep_view() == input_plan(portal_port@),
        all_runnable(commands.deep_view()),
{
    proof {
        lemma_words_hold_no_nul();
    }
    let commands = vec![
        run_iptables_safe(
            &[
                "-I", "INPUT", "1", "-s", SUBNET, "-p", "udp", "--dport", "53", "-j", "ACCEPT",
            ],
        ),
        run_iptables_safe(
            &[
                "-I", "INPUT", "1", "-s", SUBNET, "-p", "tcp", "--dport", "53", "-j", "ACCEPT",
            ],
        ),
        run_iptables_safe(
            &[
                "-I", "INPUT", "1", "-s", SUBNET, "-p", "udp", "--dport", "67:68", "-j",
                "ACCEPT",
            ],
        ),
        run_iptables_safe(
            &[
                "-I", "INPUT", "1", "-s", SUBNET, "-p", "tcp", "--dport", "22", "-j", "ACCEPT",
            ],
        ),
        run_iptables_safe(
            &[
                "-I", "INPUT", "1", "-s", SUBNET, "-p", "tcp", "--dport", portal_port, "-j",
                "ACCEPT",
            ],
        ),
        run_iptables_safe(
            &[
                "-I", "INPUT", "1", "-m", "mark", "--mark", "99", "-p", "tcp", "-m",
                "conntrack", "--ctstate", "INVALID", "-j", "REJECT", "--reject-with",
                "tcp-reset",
            ],
        ),
    ];
    assert(commands.deep_view() =~~= input_plan(portal_port@));
    commands
}

fn capture_commands(portal_port: &str) -> (commands: Vec<CommandLine>)
    requires
        no_nul(portal_port@),
    ensures
        commands.deep_view() == capture_plan(portal_port@),
        all_runnable(commands.deep_view()),
{
    proof {
        lemma_words_hold_no_nul();
    }
    let commands = vec![
        run_iptables_safe(
            &[
                "-t", "mangle", "-I", "PREROUTING", "1", "-s", SUBNET, "!", "-d",
                LOCAL_PRIVATE_RANGE, "-p", "tcp", "--dport", "80", "-j", "portal_mangle",
            ],
        ),
        run_iptables_safe(
            &[
                "-t", "mangle", "-A", "portal_mangle", "-p", "tcp", "-j", "MARK", "--set-mark",
                "99",
            ],
        ),
        run_iptables_safe(
            &[
                "-t", "nat", "-I", "PREROUTING", "1", "-m", "mark", "--mark", "99", "-j",
                "portal_nat",
            ],
        ),
        run_iptables_safe(
            &[
                "-t", "nat", "-A", "portal_nat", "-p", "tcp", "-j", "REDIRECT", "--to-ports",
                portal_port,
            ],
        ),
    ];
    assert(commands.deep_view() =~~= capture_plan(portal_port@));
    commands
}

fn routing_commands() -> (commands: Vec<CommandLine>)
    ensures
        commands.deep_view() == routing_plan(),
        all_runnable(commands.deep_view()),
{
    proof {
        lemma_words_hold_no_nul();
    }
    let commands = vec![
        run_ip_safe(
            &[
                "rule", "add", "fwmark", "99", "table", "99",
            ],
        ),
        run_ip_safe(
            &[
                "route", "add", "local", "default", "dev", "lo", "table", "99",
            ],
        ),
        run_sysctl_safe(
            &[
                "-w", "net.ipv4.conf.all.rp_filter=2",
            ],
        ),
        run_sysctl_safe(
            &[
                "-w", "net.ipv4.conf.br-wlan.rp_filter=2",
            ],
        ),
        run_sysctl_safe(
            &[
                "-w", "net.ipv4.conf.lo.rp_filter=2",
            ],
        ),
        run_sysctl_safe(
            &[
                "-w", "net.ipv4.conf.all.route_localnet=1",
            ],
        ),
        run_sysctl_safe(
            &[
                "-w", "net.ipv4.conf.br-wlan.route_localnet=1",
            ],
        ),
    ];
    assert(commands.deep_view() =~~= routing_plan());
    commands
}

fn push_runs(steps: &mut Vec<PortalStep>, commands: &Vec<CommandLine>)
    ensures
        final(steps).deep_view() == old(steps).deep_view() + runs(commands.deep_view()),
{
    let ghost before = steps@;
    let mut i: usize = 0;
    while i < commands.len()
        invariant
            i <= commands.len(),
            steps@.len() == before.len() + i,
            forall|j: int| 0 <= j < before.len() ==> steps@[j] == before[j],
            forall|j: int|
                0 <= j < i ==> (#[trigger] steps@[before.len() + j])@ == PortalStepView::Run(
                    commands@[j]@,
                ),
        decreases commands.len() - i,
    {
        steps.push(PortalStep::Run(commands[i].clone()));
        i += 1;
    }
    let ghost expected = old(steps).deep_view() + runs(commands.deep_view());
    assert forall|j: int| 0 <= j < expected.len() implies steps.deep_view()[j] == expected[j] by {
        if j >= before.len() {
            let k = j - before.len();
            assert(steps@[before.len() + k]@ == PortalStepView::Run(commands@[k]@));
        }
    }
    assert(steps.deep_view() =~= expected);
}

fn push_line(steps: &mut Vec<PortalStep>, line: &str)
    ensures
        final(steps).deep_view() == old(steps).deep_view() + seq![PortalStepView::Say(line@)],
{
    let ghost before = steps.deep_view();
    steps.push(PortalStep::Say(line.to_string()));
    assert(steps.deep_view() =~= before + seq![PortalStepView::Say(line@)]);
}

proof fn lemma_runs_of_five(
    a: Seq<CommandView>,
    b: Seq<CommandView>,
    c: Seq<CommandView>,
    d: Seq<CommandView>,
    e: Seq<CommandView>,
)
    ensures
        runs(a + b + c + d + e) == runs(a) + runs(b) + runs(c) + runs(d) + runs(e),
{
    assert(runs(a + b + c + d + e) =~= runs(a) + runs(b) + runs(c) + runs(d) + runs(e));
}

proof fn lemma_steps_joined(
    head: Seq<PortalStepView>,
    a: Seq<PortalStepView>,
    b: Seq<PortalStepView>,
    c: Seq<PortalStepView>,
    d: Seq<PortalStepView>,
    e: Seq<PortalStepView>,
)
    ensures
        head + a + b + c + d + e == head + (a + b + c + d + e),
{
    assert(head + a + b + c + d + e =~= head + (a + b + c + d + e));
}

/// Installs the captive portal, whose pages are served at a port: first removes
/// what an earlier run installed, then sets everything up. Commands are run one
/// after the other, and one that fails does not keep the next from running.
pub fn initialize_captive_portal(portal_port: &str) -> (result: Result<Vec<PortalStep>, String>)
    requires
        no_nul(portal_port@),
    ensures
        result matches Ok(steps) && steps.deep_view() == portal_plan(portal_port@),
        result matches Ok(steps) && forall|i: int| #![trigger steps.deep_view()[i]]
            0 <= i < steps.deep_view().len() ==> (steps.deep_view()[i] matches PortalStepView::Run(
                command,
            ) ==> command.runnable()),
{
    let purge = purge_commands();
    let chain = chain_commands();
    let jail = jail_commands();
    let input = input_commands(portal_port);
    let capture = capture_commands(portal_port);
    let routing = routing_commands();
    let mut steps: Vec<PortalStep> = Vec::new();
    assert(steps.deep_view() =~= Seq::empty());
    push_line(&mut steps, "Cleaning up previous walled garden configs...");
    assert(steps.deep_view() =~= seq![
        PortalStepView::Say("Cleaning up previous walled garden configs..."@),
    ]);
    push_runs(&mut steps, &purge);
    push_line(&mut steps, "Configuring explicit OpenWrt Walled Garden...");
    push_runs(&mut steps, &chain);
    push_runs(&mut steps, &jail);
    push_runs(&mut steps, &input);
    push_runs(&mut steps, &capture);
    push_runs(&mut steps, &routing);
    push_line(&mut steps, "Walled Garden successfully installed!");
    proof {
        let port = portal_port@;
        lemma_runs_of_five(
            chain_plan(),
            jail_plan(),
            input_plan(port),
            capture_plan(port),
            routing_plan(),
        );
        lemma_steps_joined(
            seq![PortalStepView::Say("Cleaning up previous walled garden configs..."@)] + runs(
                purge_plan(),
            ) + seq![PortalStepView::Say("Configuring explicit OpenWrt Walled Garden..."@)],
            runs(chain_plan()),
            runs(jail_plan()),
            runs(input_plan(port)),
            runs(capture_plan(port)),
            runs(routing_plan()),
        );
    }
    Ok(steps)
}

/// The commands that let a client out: ahead of the rules of the portal, its
/// packets are accepted, and not marked.
pub open spec fn grant_plan(client_ip: Seq<char>) -> Seq<CommandView> {
    seq![
        iptables(seq!["-I"@, "portal_auth"@, "1"@, "-s"@, client_ip, "-j"@, "ACCEPT"@]),
        iptables(
            seq![
                "-t"@, "mangle"@, "-I"@, "portal_mangle"@, "1"@, "-s"@, client_ip, "-j"@, "RETURN"@,
            ],
        ),
    ]
}

/// The commands that shut a client in again.
pub open spec fn revoke_plan(client_ip: Seq<char>) -> Seq<CommandView> {
    seq![
        iptables(seq!["-D"@, "portal_auth"@, "-s"@, client_ip, "-j"@, "ACCEPT"@]),
        iptables(
            seq!["-t"@, "mangle"@, "-D"@, "portal_mangle"@, "-s"@, client_ip, "-j"@, "RETURN"@],
        ),
    ]
}

/// The page that a client gets that connects: it sends the browser on.
pub const CONNECTED_HTML: &'static str = r#"
        <html>
            <body>
                <script>
                    if (window.opener) {
                        window.opener.location.href = "http://www.google.com";
                        window.close();
                    } else {
                        window.location.href = "http://www.google.com";
                    }
                </script>
            </body>
        </html>
    "#;

/// What is done for a client that connects.
pub struct Connection {
    /// The commands that are run at once.
    pub grant: Vec<CommandLine>,
    /// How long the client stays connected, in seconds.
    pub seconds: u64,
    /// The commands that are run when the time is up.
    pub revoke: Vec<CommandLine>,
    /// The headers of the reply.
    pub headers: Vec<(&'static str, &'static str)>,
    /// The body of the reply.
    pub body: &'static str,
}

/// Lets a client out to the internet for half an hour. The reply closes the
/// connection, so that the browser opens its next one under the new rules.
pub fn handle_connect(client_ip: &str) -> (connection: Connection)
    requires
        no_nul(client_ip@),
    ensures
        connection.grant.deep_view() == grant_plan(client_ip@),
        all_runnable(connection.grant.deep_view()),
        connection.seconds == 30 * 60,
        connection.revoke.deep_view() == revoke_plan(client_ip@),
        all_runnable(connection.revoke.deep_view()),
        header_texts(connection.headers@) == seq![
            ("connection"@, "close"@),
            ("content-type"@, "text/html"@),
        ],
        connection.body@ == CONNECTED_HTML@,
        connection.grant@.len() == 2,
        connection.grant@[0]@.program == "iptables"@,
        connection.grant@[0]@.args == seq![
            "-I"@, "portal_auth"@, "1"@, "-s"@, client_ip@, "-j"@, "ACCEPT"@,
        ],
        connection.grant@[1]@.program == "iptables"@,
        connection.grant@[1]@.args == seq![
            "-t"@, "mangle"@, "-I"@, "portal_mangle"@, "1"@, "-s"@, client_ip@, "-j"@, "RETURN"@,
        ],
        connection.revoke@.len() == 2,
        connection.revoke@[0]@.program == "iptables"@,
        connection.revoke@[0]@.args == seq![
            "-D"@, "portal_auth"@, "-s"@, client_ip@, "-j"@, "ACCEPT"@,
        ],
        connection.revoke@[1]@.program == "iptables"@,
        connection.revoke@[1]@.args == seq![
            "-t"@, "mangle"@, "-D"@, "portal_mangle"@, "-s"@, client_ip@, "-j"@, "RETURN"@,
        ],
        connection.headers@.len() == 2,
        connection.headers@[0].0@ == "connection"@ && connection.headers@[0].1@ == "close"@,
        connection.headers@[1].0@ == "content-type"@ && connection.headers@[1].1@ == "text/html"@,
{
    proof {
        lemma_words_hold_no_nul();
    }
    let grant = vec![
        run_iptables_safe(&["-I", "portal_auth", "1", "-s", client_ip, "-j", "ACCEPT"]),
        run_iptables_safe(
            &["-t", "mangle", "-I", "portal_mangle", "1", "-s", client_ip, "-j", "RETURN"],
        ),
    ];
    let revoke = vec![
        run_iptables_safe(&["-D", "portal_auth", "-s", client_ip, "-j", "ACCEPT"]),
        run_iptables_safe(
            &["-t", "mangle", "-D", "portal_mangle", "-s", client_ip, "-j", "RETURN"],
        ),
    ];
    assert(grant.deep_view() =~~= grant_plan(client_ip@));
    assert(revoke.deep_view() =~~= revoke_plan(client_ip@));
    assert(grant.deep_view()[0] == grant@[0]@ && grant.deep_view()[1] == grant@[1]@);
    assert(revoke.deep_view()[0] == revoke@[0]@ && revoke.deep_view()[1] == revoke@[1]@);
    let headers = vec![("connection", "close"), ("content-type", "text/html")];
    assert(header_texts(headers@) =~= seq![
        ("connection"@, "close"@),
        ("content-type"@, "text/html"@),
    ]);
    Connection { grant, seconds: CONNECTED_SECONDS, revoke, headers, body: CONNECTED_HTML }
}

/// The view of a step holds the line that is printed, or the command that is run.
pub proof fn portal_step_view_is_faithful(step: PortalStep)
    ensures
        match step {
            PortalStep::Say(line) => step@ == PortalStepView::Say(line@),
            PortalStep::Run(command) => step@ == PortalStepView::Run(command@),
        },
        step.deep_view() == step@,
{
}

/// An installation says three lines and runs all its commands, each of them once and
/// in order: first those that purge, then those that set up.
pub proof fn installation_runs_every_command(portal_port: Seq<char>)
    ensures
        ({
            let plan = portal_plan(portal_port);
            let (purge, setup) = (purge_plan(), setup_plan(portal_port));
            &&& plan.len() == purge.len() + setup.len() + 3
            &&& plan[0] == PortalStepView::Say("Cleaning up previous walled garden configs..."@)
            &&& plan[purge.len() + 1int] == PortalStepView::Say(
                "Configuring explicit OpenWrt Walled Garden..."@,
            )
            &&& plan.last() == PortalStepView::Say("Walled Garden successfully installed!"@)
            &&& forall|i: int|
                0 <= i < purge.len() ==> plan[1 + i] == PortalStepView::Run(#[trigger] purge[i])
            &&& forall|i: int|
                0 <= i < setup.len() ==> plan[purge.len() + 2 + i] == PortalStepView::Run(
                    #[trigger] setup[i],
                )
        }),
{
}

} // verus!
