//! How the rules of the portal hang together: what one command adds, another
//! removes.
use vstd::prelude::*;

use crate::commands::{ip, iptables, CommandView};
use crate::portal::{
    capture_plan, chain_plan, grant_plan, input_plan, jail_plan, portal_plan, purge_plan,
    revoke_plan, routing_plan, setup_plan, PortalStepView,
};

verus! {

/// The beginning of a command that chooses a table; empty where it does not.
pub open spec fn table_part(command: CommandView) -> Seq<Seq<char>> {
    if command.args[0] == "-t"@ {
        command.args.take(2)
    } else {
        Seq::empty()
    }
}

/// The rest of a command, behind the choice of a table.
pub open spec fn rule_part(command: CommandView) -> Seq<Seq<char>> {
    if command.args[0] == "-t"@ {
        command.args.skip(2)
    } else {
        command.args
    }
}

/// Whether a command adds a rule to a chain.
pub open spec fn adds_rule(command: CommandView) -> bool {
    &&& command.program == "iptables"@
    &&& rule_part(command)[0] == "-A"@ || rule_part(command)[0] == "-I"@
}

/// Whether a command creates a chain.
pub open spec fn creates_chain(command: CommandView) -> bool {
    &&& command.program == "iptables"@
    &&& rule_part(command)[0] == "-N"@
}

/// The chain that a command works on.
pub open spec fn chain_of(command: CommandView) -> Seq<char> {
    rule_part(command)[1]
}

/// Whether a chain is one of the portal's own.
pub open spec fn is_portal_chain(chain: Seq<char>) -> bool {
    chain == "portal_auth"@ || chain == "portal_mangle"@ || chain == "portal_nat"@
}

/// Whether the rule of a command hands its packets to a target, and says no more
/// of what becomes of them.
pub open spec fn jumps_to(command: CommandView, target: Seq<char>) -> bool {
    let rule = rule_part(command);
    rule[rule.len() - 2] == "-j"@ && rule.last() == target
}

/// Whether a command opens the router itself to some packets.
pub open spec fn opens_router(command: CommandView) -> bool {
    chain_of(command) == "INPUT"@ && jumps_to(command, "ACCEPT"@)
}

/// Whether a command hooks into a chain that is not the portal's own, other than
/// to open the router.
pub open spec fn is_hook(command: CommandView) -> bool {
    adds_rule(command) && !is_portal_chain(chain_of(command)) && !opens_router(command)
}

/// The command that deletes the rule that a command adds. A rule that is inserted
/// is inserted at a place, which is no part of the rule.
pub open spec fn deletion(command: CommandView) -> CommandView {
    let rule = rule_part(command);
    let matched = if rule[0] == "-I"@ {
        rule.skip(3)
    } else {
        rule.skip(2)
    };
    iptables(table_part(command) + seq!["-D"@, rule[1]] + matched)
}

/// The command that does something to the chain that a command creates.
pub open spec fn on_chain(action: Seq<char>, command: CommandView) -> CommandView {
    iptables(table_part(command) + seq![action, chain_of(command)])
}

proof fn lemma_words_differ()
    ensures
        "-A"@ != "-t"@,
        "-I"@ != "-t"@,
        "-N"@ != "-t"@,
        "-N"@ != "-A"@,
        "-N"@ != "-I"@,
        "-A"@ != "-I"@,
        "ip"@ != "iptables"@,
        "sysctl"@ != "iptables"@,
        "ip"@ != "sysctl"@,
        "route"@ != "rule"@,
{
    reveal_strlit("route");
    reveal_strlit("rule");
    reveal_strlit("-A");
    reveal_strlit("-I");
    reveal_strlit("-N");
    reveal_strlit("-t");
    reveal_strlit("ip");
    reveal_strlit("iptables");
    reveal_strlit("sysctl");
    assert("-A"@[1] != "-t"@[1]);
    assert("-I"@[1] != "-t"@[1]);
    assert("-N"@[1] != "-t"@[1]);
    assert("ip"@.len() != "iptables"@.len());
    assert("ip"@.len() != "sysctl"@.len());
    assert("sysctl"@.len() != "iptables"@.len());
    assert("route"@.len() != "rule"@.len());
    assert("-N"@[1] != "-A"@[1]);
    assert("-N"@[1] != "-I"@[1]);
    assert("-A"@[1] != "-I"@[1]);
}

/// Shutting a client in again deletes, one by one, the rules that let it out.
pub proof fn revoke_undoes_grant(client_ip: Seq<char>)
    ensures
        revoke_plan(client_ip).len() == grant_plan(client_ip).len(),
        forall|i: int|
            0 <= i < grant_plan(client_ip).len() ==> adds_rule(#[trigger] grant_plan(client_ip)[i])
                && revoke_plan(client_ip)[i] == deletion(grant_plan(client_ip)[i]),
{
    let grant = grant_plan(client_ip);
    let revoke = revoke_plan(client_ip);
    lemma_words_differ();
    assert(rule_part(grant[0]) =~= grant[0].args);
    assert(rule_part(grant[1])[0] == "-I"@);
    assert(deletion(grant[0]).args =~= revoke[0].args);
    assert(deletion(grant[1]).args =~= revoke[1].args);
}

proof fn lemma_chain_hooks_are_purged()
    ensures
        forall|i: int|
            0 <= i < chain_plan().len() && is_hook(#[trigger] chain_plan()[i])
                ==> purge_plan().contains(deletion(chain_plan()[i])),
{
    let plan = chain_plan();
    let purge = purge_plan();
    lemma_words_differ();
    assert(!is_hook(plan[0]));
    assert(!is_hook(plan[1]));
    assert(!is_hook(plan[2]));
    assert(!is_hook(plan[3]));
    assert(!is_hook(plan[4]));
}

proof fn lemma_jail_hooks_are_purged()
    ensures
        forall|i: int|
            0 <= i < jail_plan().len() && is_hook(#[trigger] jail_plan()[i])
                ==> purge_plan().contains(deletion(jail_plan()[i])),
{
    let plan = jail_plan();
    let purge = purge_plan();
    lemma_words_differ();
    assert(deletion(plan[0]).args =~= purge[0].args);
    assert(purge[0] == deletion(plan[0]));
    assert(deletion(plan[1]).args =~= purge[1].args);
    assert(purge[1] == deletion(plan[1]));
    assert(deletion(plan[2]).args =~= purge[2].args);
    assert(purge[2] == deletion(plan[2]));
}

proof fn lemma_input_hooks_are_purged(portal_port: Seq<char>)
    ensures
        forall|i: int|
            0 <= i < input_plan(portal_port).len() && is_hook(#[trigger] input_plan(portal_port)[i])
                ==> purge_plan().contains(deletion(input_plan(portal_port)[i])),
{
    let plan = input_plan(portal_port);
    let purge = purge_plan();
    lemma_words_differ();
    assert(!is_hook(plan[0]));
    assert(!is_hook(plan[1]));
    assert(!is_hook(plan[2]));
    assert(!is_hook(plan[3]));
    assert(!is_hook(plan[4]));
    assert(deletion(plan[5]).args =~= purge[3].args);
    assert(purge[3] == deletion(plan[5]));
}

proof fn lemma_capture_hooks_are_purged(portal_port: Seq<char>)
    ensures
        forall|i: int|
            0 <= i < capture_plan(portal_port).len() && is_hook(
                #[trigger] capture_plan(portal_port)[i],
            ) ==> purge_plan().contains(deletion(capture_plan(portal_port)[i])),
{
    let plan = capture_plan(portal_port);
    let purge = purge_plan();
    lemma_words_differ();
    assert(deletion(plan[0]).args =~= purge[4].args);
    assert(purge[4] == deletion(plan[0]));
    assert(!is_hook(plan[1]));
    assert(deletion(plan[2]).args =~= purge[5].args);
    assert(purge[5] == deletion(plan[2]));
    assert(!is_hook(plan[3]));
}

proof fn lemma_routing_hooks_are_purged()
    ensures
        forall|i: int|
            0 <= i < routing_plan().len() && is_hook(#[trigger] routing_plan()[i])
                ==> purge_plan().contains(deletion(routing_plan()[i])),
{
    let plan = routing_plan();
    let purge = purge_plan();
    lemma_words_differ();
    assert(!is_hook(plan[0]));
    assert(!is_hook(plan[1]));
    assert(!is_hook(plan[2]));
    assert(!is_hook(plan[3]));
    assert(!is_hook(plan[4]));
    assert(!is_hook(plan[5]));
    assert(!is_hook(plan[6]));
}

/// Whatever an installation hooks into chains that are not the portal's own, the
/// next one removes before it sets anything up; what opens the router stays.
pub proof fn hooks_are_purged(portal_port: Seq<char>)
    ensures
        forall|i: int|
            0 <= i < setup_plan(portal_port).len() && is_hook(#[trigger] setup_plan(portal_port)[i])
                ==> purge_plan().contains(deletion(setup_plan(portal_port)[i])),
{
    lemma_chain_hooks_are_purged();
    lemma_jail_hooks_are_purged();
    lemma_input_hooks_are_purged(portal_port);
    lemma_capture_hooks_are_purged(portal_port);
    lemma_routing_hooks_are_purged();
    let plan = setup_plan(portal_port);
    let (a, b, c, d, e) = (
        chain_plan(),
        jail_plan(),
        input_plan(portal_port),
        capture_plan(portal_port),
        routing_plan(),
    );
    assert forall|i: int|
        0 <= i < plan.len() && is_hook(#[trigger] plan[i]) implies purge_plan().contains(
        deletion(plan[i]),
    ) by {
        lemma_found_in_part(a, b, c, d, e, i);
    }
}

proof fn lemma_found_in_part(
    a: Seq<CommandView>,
    b: Seq<CommandView>,
    c: Seq<CommandView>,
    d: Seq<CommandView>,
    e: Seq<CommandView>,
    i: int,
)
    requires
        0 <= i < (a + b + c + d + e).len(),
    ensures
        ({
            let item = (a + b + c + d + e)[i];
            let j = i - a.len();
            let k = j - b.len();
            let l = k - c.len();
            let m = l - d.len();
            ||| 0 <= i < a.len() && item == a[i]
            ||| 0 <= j < b.len() && item == b[j]
            ||| 0 <= k < c.len() && item == c[k]
            ||| 0 <= l < d.len() && item == d[l]
            ||| 0 <= m < e.len() && item == e[m]
        }),
{
}

/// Whether a purge empties the chain that a command creates, and then deletes it.
pub open spec fn purges_chain(purge: Seq<CommandView>, command: CommandView) -> bool {
    exists|j: int, k: int|
        0 <= j < k < purge.len() && #[trigger] purge[j] == on_chain("-F"@, command)
            && #[trigger] purge[k] == on_chain("-X"@, command)
}

/// Whether a purge deletes the rule that a command adds, and then the chain that
/// the rule jumps to.
pub open spec fn unhooks_chain(purge: Seq<CommandView>, command: CommandView) -> bool {
    exists|j: int, k: int|
        0 <= j < k < purge.len() && #[trigger] purge[j] == deletion(command)
            && #[trigger] purge[k] == iptables(
            table_part(command) + seq!["-X"@, rule_part(command).last()],
        )
}

/// Whether a chain is created, in the table that a command works on, before the
/// command is run.
pub open spec fn created_before(
    plan: Seq<CommandView>,
    i: int,
    chain: Seq<char>,
) -> bool {
    exists|k: int|
        0 <= k < i && #[trigger] plan[k] == iptables(table_part(plan[i]) + seq!["-N"@, chain])
}

proof fn lemma_targets_differ()
    ensures
        !is_portal_chain("forwarding_rule"@),
        !is_portal_chain("INPUT"@),
        !is_portal_chain("PREROUTING"@),
        !is_portal_chain("ACCEPT"@),
        !is_portal_chain("DROP"@),
        "--reject-with"@ != "-j"@,
        "--to-ports"@ != "-j"@,
        "--set-mark"@ != "-j"@,
{
    reveal_strlit("forwarding_rule");
    reveal_strlit("INPUT");
    reveal_strlit("PREROUTING");
    reveal_strlit("ACCEPT");
    reveal_strlit("DROP");
    reveal_strlit("portal_auth");
    reveal_strlit("portal_mangle");
    reveal_strlit("portal_nat");
    reveal_strlit("--reject-with");
    reveal_strlit("--to-ports");
    reveal_strlit("--set-mark");
    reveal_strlit("-j");
    assert("forwarding_rule"@[0] != "portal_auth"@[0]);
    assert("forwarding_rule"@[0] != "portal_mangle"@[0]);
    assert("forwarding_rule"@[0] != "portal_nat"@[0]);
    assert("INPUT"@[0] != "portal_auth"@[0]);
    assert("INPUT"@[0] != "portal_mangle"@[0]);
    assert("INPUT"@[0] != "portal_nat"@[0]);
    assert("PREROUTING"@[0] != "portal_auth"@[0]);
    assert("PREROUTING"@[0] != "portal_mangle"@[0]);
    assert("PREROUTING"@[0] != "portal_nat"@[0]);
    assert("ACCEPT"@[0] != "portal_auth"@[0]);
    assert("ACCEPT"@[0] != "portal_mangle"@[0]);
    assert("ACCEPT"@[0] != "portal_nat"@[0]);
    assert("DROP"@[0] != "portal_auth"@[0]);
    assert("DROP"@[0] != "portal_mangle"@[0]);
    assert("DROP"@[0] != "portal_nat"@[0]);
    assert("--reject-with"@.len() != "-j"@.len());
    assert("--to-ports"@.len() != "-j"@.len());
    assert("--set-mark"@.len() != "-j"@.len());
}

/// Whether the rule of a command hands its packets to a chain of the portal.
pub open spec fn jumps_to_portal(command: CommandView) -> bool {
    is_portal_chain(rule_part(command).last()) && jumps_to(command, rule_part(command).last())
}

/// What holds of the chains of the portal at a command of a plan. The chain that
/// it creates, the purge has emptied and deleted. The rule by which it hooks a
/// chain of the portal into another, the purge has deleted before that chain.
/// And the chains of the portal that its rule belongs to or jumps to, the plan has
/// created.
pub open spec fn chain_laws(plan: Seq<CommandView>, command: CommandView, i: int) -> bool {
    let rule = rule_part(command);
    &&& creates_chain(command) ==> purges_chain(purge_plan(), command)
    &&& is_hook(command) && jumps_to_portal(command) ==> unhooks_chain(purge_plan(), command)
    &&& adds_rule(command) && is_portal_chain(rule[1]) ==> created_before(plan, i, rule[1])
    &&& adds_rule(command) && jumps_to_portal(command) ==> created_before(plan, i, rule.last())
}

proof fn lemma_chain_chains(portal_port: Seq<char>)
    ensures
        forall|i: int|
            0 <= i < 5 ==> chain_laws(
                setup_plan(portal_port),
                #[trigger] setup_plan(portal_port)[i],
                i,
            ),
{
    lemma_words_differ();
    lemma_targets_differ();
    let purge = purge_plan();
    let plan = setup_plan(portal_port);
    let part = chain_plan();
    assert forall|i: int| 0 <= i < 5 implies plan[i] == part[i - 0] by {}
    assert forall|k: int| 0 <= k < 3 implies plan[k] == chain_plan()[k] by {}
    assert(chain_laws(plan, plan[0], 0)) by {
        assert(plan[0] == part[0]);
        assert(purge[6].args =~= on_chain("-F"@, plan[0]).args);
        assert(purge[7].args =~= on_chain("-X"@, plan[0]).args);
    }
    assert(chain_laws(plan, plan[1], 1)) by {
        assert(plan[1] == part[1]);
        assert(purge[8].args =~= on_chain("-F"@, plan[1]).args);
        assert(purge[9].args =~= on_chain("-X"@, plan[1]).args);
    }
    assert(chain_laws(plan, plan[2], 2)) by {
        assert(plan[2] == part[2]);
        assert(purge[10].args =~= on_chain("-F"@, plan[2]).args);
        assert(purge[11].args =~= on_chain("-X"@, plan[2]).args);
    }
    assert(chain_laws(plan, plan[3], 3)) by {
        assert(plan[3] == part[3]);
        assert(plan[0].args =~= table_part(plan[3]) + seq!["-N"@, "portal_auth"@]);
        assert(created_before(plan, 3, "portal_auth"@));
    }
    assert(chain_laws(plan, plan[4], 4)) by {
        assert(plan[4] == part[4]);
        assert(plan[0].args =~= table_part(plan[4]) + seq!["-N"@, "portal_auth"@]);
        assert(created_before(plan, 4, "portal_auth"@));
    }
}

proof fn lemma_jail_chains(portal_port: Seq<char>)
    ensures
        forall|i: int|
            5 <= i < 8 ==> chain_laws(
                setup_plan(portal_port),
                #[trigger] setup_plan(portal_port)[i],
                i,
            ),
{
    lemma_words_differ();
    lemma_targets_differ();
    let purge = purge_plan();
    let plan = setup_plan(portal_port);
    let part = jail_plan();
    assert forall|i: int| 5 <= i < 8 implies plan[i] == part[i - 5] by {}
    assert forall|k: int| 0 <= k < 3 implies plan[k] == chain_plan()[k] by {}
    assert(chain_laws(plan, plan[5], 5)) by {
        assert(plan[5] == part[0]);
        assert(plan[0].args =~= table_part(plan[5]) + seq!["-N"@, "portal_auth"@]);
        assert(created_before(plan, 5, "portal_auth"@));
        assert(deletion(plan[5]).args =~= purge[0].args);
        assert(purge[7].args =~= table_part(plan[5]) + seq!["-X"@, "portal_auth"@]);
        assert(purge[0] == deletion(plan[5]));
    }
    assert(chain_laws(plan, plan[6], 6)) by {
        assert(plan[6] == part[1]);
    }
    assert(chain_laws(plan, plan[7], 7)) by {
        assert(plan[7] == part[2]);
    }
}

proof fn lemma_input_chains(portal_port: Seq<char>)
    ensures
        forall|i: int|
            8 <= i < 14 ==> chain_laws(
                setup_plan(portal_port),
                #[trigger] setup_plan(portal_port)[i],
                i,
            ),
{
    lemma_words_differ();
    lemma_targets_differ();
    let purge = purge_plan();
    let plan = setup_plan(portal_port);
    let part = input_plan(portal_port);
    assert forall|i: int| 8 <= i < 14 implies plan[i] == part[i - 8] by {}
    assert forall|k: int| 0 <= k < 3 implies plan[k] == chain_plan()[k] by {}
    assert(chain_laws(plan, plan[8], 8)) by {
        assert(plan[8] == part[0]);
    }
    assert(chain_laws(plan, plan[9], 9)) by {
        assert(plan[9] == part[1]);
    }
    assert(chain_laws(plan, plan[10], 10)) by {
        assert(plan[10] == part[2]);
    }
    assert(chain_laws(plan, plan[11], 11)) by {
        assert(plan[11] == part[3]);
    }
    assert(chain_laws(plan, plan[12], 12)) by {
        assert(plan[12] == part[4]);
    }
    assert(chain_laws(plan, plan[13], 13)) by {
        assert(plan[13] == part[5]);
    }
}

proof fn lemma_capture_chains(portal_port: Seq<char>)
    ensures
        forall|i: int|
            14 <= i < 18 ==> chain_laws(
                setup_plan(portal_port),
                #[trigger] setup_plan(portal_port)[i],
                i,
            ),
{
    lemma_words_differ();
    lemma_targets_differ();
    let purge = purge_plan();
    let plan = setup_plan(portal_port);
    let part = capture_plan(portal_port);
    assert forall|i: int| 14 <= i < 18 implies plan[i] == part[i - 14] by {}
    assert forall|k: int| 0 <= k < 3 implies plan[k] == chain_plan()[k] by {}
    assert(chain_laws(plan, plan[14], 14)) by {
        assert(plan[14] == part[0]);
        assert(plan[1].args =~= table_part(plan[14]) + seq!["-N"@, "portal_mangle"@]);
        assert(created_before(plan, 14, "portal_mangle"@));
        assert(deletion(plan[14]).args =~= purge[4].args);
        assert(purge[9].args =~= table_part(plan[14]) + seq!["-X"@, "portal_mangle"@]);
        assert(purge[4] == deletion(plan[14]));
    }
    assert(chain_laws(plan, plan[15], 15)) by {
        assert(plan[15] == part[1]);
        assert(plan[1].args =~= table_part(plan[15]) + seq!["-N"@, "portal_mangle"@]);
        assert(created_before(plan, 15, "portal_mangle"@));
    }
    assert(chain_laws(plan, plan[16], 16)) by {
        assert(plan[16] == part[2]);
        assert(plan[2].args =~= table_part(plan[16]) + seq!["-N"@, "portal_nat"@]);
        assert(created_before(plan, 16, "portal_nat"@));
        assert(deletion(plan[16]).args =~= purge[5].args);
        assert(purge[11].args =~= table_part(plan[16]) + seq!["-X"@, "portal_nat"@]);
        assert(purge[5] == deletion(plan[16]));
    }
    assert(chain_laws(plan, plan[17], 17)) by {
        assert(plan[17] == part[3]);
        assert(plan[2].args =~= table_part(plan[17]) + seq!["-N"@, "portal_nat"@]);
        assert(created_before(plan, 17, "portal_nat"@));
    }
}

proof fn lemma_routing_chains(portal_port: Seq<char>)
    ensures
        forall|i: int|
            18 <= i < 25 ==> chain_laws(
                setup_plan(portal_port),
                #[trigger] setup_plan(portal_port)[i],
                i,
            ),
{
    lemma_words_differ();
    lemma_targets_differ();
    let purge = purge_plan();
    let plan = setup_plan(portal_port);
    let part = routing_plan();
    assert forall|i: int| 18 <= i < 25 implies plan[i] == part[i - 18] by {}
    assert forall|k: int| 0 <= k < 3 implies plan[k] == chain_plan()[k] by {}
    assert(chain_laws(plan, plan[18], 18)) by {
        assert(plan[18].program != "iptables"@);
    }
    assert(chain_laws(plan, plan[19], 19)) by {
        assert(plan[19].program != "iptables"@);
    }
    assert(chain_laws(plan, plan[20], 20)) by {
        assert(plan[20].program != "iptables"@);
    }
    assert(chain_laws(plan, plan[21], 21)) by {
        assert(plan[21].program != "iptables"@);
    }
    assert(chain_laws(plan, plan[22], 22)) by {
        assert(plan[22].program != "iptables"@);
    }
    assert(chain_laws(plan, plan[23], 23)) by {
        assert(plan[23].program != "iptables"@);
    }
    assert(chain_laws(plan, plan[24], 24)) by {
        assert(plan[24].program != "iptables"@);
    }
}

/// The chains of the portal are gone before they are created, and nothing refers to
/// one that is not there: at every command of the setup, the laws of its chains
/// hold.
pub proof fn chains_are_in_order(portal_port: Seq<char>, i: int)
    requires
        0 <= i < setup_plan(portal_port).len(),
    ensures
        chain_laws(setup_plan(portal_port), setup_plan(portal_port)[i], i),
{
    lemma_chain_chains(portal_port);
    lemma_jail_chains(portal_port);
    lemma_input_chains(portal_port);
    lemma_capture_chains(portal_port);
    lemma_routing_chains(portal_port);
    assert(setup_plan(portal_port).len() == 25);
}

/// The routing policies that an installation adds, the next one deletes before it
/// adds them again.
pub proof fn policies_are_purged(portal_port: Seq<char>, i: int)
    requires
        0 <= i < setup_plan(portal_port).len(),
        setup_plan(portal_port)[i].program == "ip"@,
        setup_plan(portal_port)[i].args[0] == "rule"@,
    ensures
        purge_plan().contains(
            ip(seq!["rule"@, "del"@] + setup_plan(portal_port)[i].args.skip(2)),
        ),
{
    lemma_words_differ();
    let plan = setup_plan(portal_port);
    let purge = purge_plan();
    let routing = routing_plan();
    assert(plan.len() == 25);
    assert(plan[18] == routing[0]);
    assert(plan[19] == routing[1]);
    if i >= 20 {
        assert(plan[i] == routing[i - 18]);
        assert(plan[i].program == "sysctl"@);
    }
    lemma_found_in_part(
        chain_plan(),
        jail_plan(),
        input_plan(portal_port),
        capture_plan(portal_port),
        routing_plan(),
        i,
    );
    assert(i == 18);
    assert(purge[12].args =~= seq!["rule"@, "del"@] + plan[18].args.skip(2));
    assert(purge[12] == ip(seq!["rule"@, "del"@] + plan[18].args.skip(2)));
}

/// The table to which an installation adds a route, the next one empties before it
/// adds the route again.
pub proof fn routes_are_purged(portal_port: Seq<char>, i: int)
    requires
        0 <= i < setup_plan(portal_port).len(),
        setup_plan(portal_port)[i].program == "ip"@,
        setup_plan(portal_port)[i].args[0] == "route"@,
    ensures
        ({
            let args = setup_plan(portal_port)[i].args;
            purge_plan().contains(ip(seq!["route"@, "flush"@] + args.skip(args.len() - 2)))
        }),
{
    lemma_words_differ();
    let plan = setup_plan(portal_port);
    let purge = purge_plan();
    let routing = routing_plan();
    assert(plan.len() == 25);
    assert(plan[18] == routing[0]);
    assert(plan[19] == routing[1]);
    if i >= 20 {
        assert(plan[i] == routing[i - 18]);
        assert(plan[i].program == "sysctl"@);
    }
    lemma_found_in_part(
        chain_plan(),
        jail_plan(),
        input_plan(portal_port),
        capture_plan(portal_port),
        routing_plan(),
        i,
    );
    assert(i == 19);
    let args = plan[19].args;
    assert(purge[13].args =~= seq!["route"@, "flush"@] + args.skip(args.len() - 2));
    assert(purge[13] == ip(seq!["route"@, "flush"@] + args.skip(args.len() - 2)));
}

proof fn lemma_redirect_differs()
    ensures
        "ACCEPT"@ != "REDIRECT"@,
        "DROP"@ != "REDIRECT"@,
        "MARK"@ != "REDIRECT"@,
        "REJECT"@ != "REDIRECT"@,
        "portal_auth"@ != "REDIRECT"@,
        "portal_mangle"@ != "REDIRECT"@,
        "portal_nat"@ != "REDIRECT"@,
{
    reveal_strlit("REDIRECT");
    reveal_strlit("ACCEPT");
    reveal_strlit("DROP");
    reveal_strlit("MARK");
    reveal_strlit("REJECT");
    reveal_strlit("portal_auth");
    reveal_strlit("portal_mangle");
    reveal_strlit("portal_nat");
    assert("ACCEPT"@.len() != "REDIRECT"@.len());
    assert("DROP"@.len() != "REDIRECT"@.len());
    assert("MARK"@.len() != "REDIRECT"@.len());
    assert("REJECT"@.len() != "REDIRECT"@.len());
    assert("portal_auth"@.len() != "REDIRECT"@.len());
    assert("portal_mangle"@.len() != "REDIRECT"@.len());
    assert("portal_nat"@.len() != "REDIRECT"@.len());
}

/// Whether the rule of a command hands packets to a target.
pub open spec fn hands_to(command: CommandView, target: Seq<char>) -> bool {
    exists|k: int|
        0 <= k < command.args.len() - 1 && #[trigger] command.args[k] == "-j"@ && command.args[k
            + 1] == target
}

proof fn lemma_jump_differs()
    ensures
        "!"@ != "-j"@,
        "--ctstate"@ != "-j"@,
        "--dport"@ != "-j"@,
        "--mark"@ != "-j"@,
        "--reject-with"@ != "-j"@,
        "--set-mark"@ != "-j"@,
        "--to-ports"@ != "-j"@,
        "-A"@ != "-j"@,
        "-I"@ != "-j"@,
        "-N"@ != "-j"@,
        "-d"@ != "-j"@,
        "-m"@ != "-j"@,
        "-p"@ != "-j"@,
        "-s"@ != "-j"@,
        "-t"@ != "-j"@,
        "-w"@ != "-j"@,
        "1"@ != "-j"@,
        "22"@ != "-j"@,
        "53"@ != "-j"@,
        "67:68"@ != "-j"@,
        "80"@ != "-j"@,
        "99"@ != "-j"@,
        "ACCEPT"@ != "-j"@,
        "DROP"@ != "-j"@,
        "INPUT"@ != "-j"@,
        "INVALID"@ != "-j"@,
        "MARK"@ != "-j"@,
        "PREROUTING"@ != "-j"@,
        "REDIRECT"@ != "-j"@,
        "REJECT"@ != "-j"@,
        "add"@ != "-j"@,
        "conntrack"@ != "-j"@,
        "default"@ != "-j"@,
        "dev"@ != "-j"@,
        "forwarding_rule"@ != "-j"@,
        "fwmark"@ != "-j"@,
        "lo"@ != "-j"@,
        "local"@ != "-j"@,
        "mangle"@ != "-j"@,
        "mark"@ != "-j"@,
        "nat"@ != "-j"@,
        "net.ipv4.conf.all.route_localnet=1"@ != "-j"@,
        "net.ipv4.conf.all.rp_filter=2"@ != "-j"@,
        "net.ipv4.conf.br-wlan.route_localnet=1"@ != "-j"@,
        "net.ipv4.conf.br-wlan.rp_filter=2"@ != "-j"@,
        "net.ipv4.conf.lo.rp_filter=2"@ != "-j"@,
        "portal_auth"@ != "-j"@,
        "portal_mangle"@ != "-j"@,
        "portal_nat"@ != "-j"@,
        "route"@ != "-j"@,
        "rule"@ != "-j"@,
        "table"@ != "-j"@,
        "tcp"@ != "-j"@,
        "tcp-reset"@ != "-j"@,
        "udp"@ != "-j"@,
        "192.168.3.0/24"@ != "-j"@,
{
    reveal_strlit("-j");
    reveal_strlit("!");
    reveal_strlit("--ctstate");
    reveal_strlit("--dport");
    reveal_strlit("--mark");
    reveal_strlit("--reject-with");
    reveal_strlit("--set-mark");
    reveal_strlit("--to-ports");
    reveal_strlit("-A");
    reveal_strlit("-I");
    reveal_strlit("-N");
    reveal_strlit("-d");
    reveal_strlit("-m");
    reveal_strlit("-p");
    reveal_strlit("-s");
    reveal_strlit("-t");
    reveal_strlit("-w");
    reveal_strlit("1");
    reveal_strlit("22");
    reveal_strlit("53");
    reveal_strlit("67:68");
    reveal_strlit("80");
    reveal_strlit("99");
    reveal_strlit("ACCEPT");
    reveal_strlit("DROP");
    reveal_strlit("INPUT");
    reveal_strlit("INVALID");
    reveal_strlit("MARK");
    reveal_strlit("PREROUTING");
    reveal_strlit("REDIRECT");
    reveal_strlit("REJECT");
    reveal_strlit("add");
    reveal_strlit("conntrack");
    reveal_strlit("default");
    reveal_strlit("dev");
    reveal_strlit("forwarding_rule");
    reveal_strlit("fwmark");
    reveal_strlit("lo");
    reveal_strlit("local");
    reveal_strlit("mangle");
    reveal_strlit("mark");
    reveal_strlit("nat");
    reveal_strlit("net.ipv4.conf.all.route_localnet=1");
    reveal_strlit("net.ipv4.conf.all.rp_filter=2");
    reveal_strlit("net.ipv4.conf.br-wlan.route_localnet=1");
    reveal_strlit("net.ipv4.conf.br-wlan.rp_filter=2");
    reveal_strlit("net.ipv4.conf.lo.rp_filter=2");
    reveal_strlit("portal_auth");
    reveal_strlit("portal_mangle");
    reveal_strlit("portal_nat");
    reveal_strlit("route");
    reveal_strlit("rule");
    reveal_strlit("table");
    reveal_strlit("tcp");
    reveal_strlit("tcp-reset");
    reveal_strlit("udp");
    reveal_strlit("192.168.3.0/24");
    assert("!"@.len() != "-j"@.len());
    assert("--ctstate"@.len() != "-j"@.len());
    assert("--dport"@.len() != "-j"@.len());
    assert("--mark"@.len() != "-j"@.len());
    assert("--reject-with"@.len() != "-j"@.len());
    assert("--set-mark"@.len() != "-j"@.len());
    assert("--to-ports"@.len() != "-j"@.len());
    assert("-A"@[1] != "-j"@[1]);
    assert("-I"@[1] != "-j"@[1]);
    assert("-N"@[1] != "-j"@[1]);
    assert("-d"@[1] != "-j"@[1]);
    assert("-m"@[1] != "-j"@[1]);
    assert("-p"@[1] != "-j"@[1]);
    assert("-s"@[1] != "-j"@[1]);
    assert("-t"@[1] != "-j"@[1]);
    assert("-w"@[1] != "-j"@[1]);
    assert("1"@.len() != "-j"@.len());
    assert("22"@[0] != "-j"@[0]);
    assert("53"@[0] != "-j"@[0]);
    assert("67:68"@.len() != "-j"@.len());
    assert("80"@[0] != "-j"@[0]);
    assert("99"@[0] != "-j"@[0]);
    assert("ACCEPT"@.len() != "-j"@.len());
    assert("DROP"@.len() != "-j"@.len());
    assert("INPUT"@.len() != "-j"@.len());
    assert("INVALID"@.len() != "-j"@.len());
    assert("MARK"@.len() != "-j"@.len());
    assert("PREROUTING"@.len() != "-j"@.len());
    assert("REDIRECT"@.len() != "-j"@.len());
    assert("REJECT"@.len() != "-j"@.len());
    assert("add"@.len() != "-j"@.len());
    assert("conntrack"@.len() != "-j"@.len());
    assert("default"@.len() != "-j"@.len());
    assert("dev"@.len() != "-j"@.len());
    assert("forwarding_rule"@.len() != "-j"@.len());
    assert("fwmark"@.len() != "-j"@.len());
    assert("lo"@[0] != "-j"@[0]);
    assert("local"@.len() != "-j"@.len());
    assert("mangle"@.len() != "-j"@.len());
    assert("mark"@.len() != "-j"@.len());
    assert("nat"@.len() != "-j"@.len());
    assert("net.ipv4.conf.all.route_localnet=1"@.len() != "-j"@.len());
    assert("net.ipv4.conf.all.rp_filter=2"@.len() != "-j"@.len());
    assert("net.ipv4.conf.br-wlan.route_localnet=1"@.len() != "-j"@.len());
    assert("net.ipv4.conf.br-wlan.rp_filter=2"@.len() != "-j"@.len());
    assert("net.ipv4.conf.lo.rp_filter=2"@.len() != "-j"@.len());
    assert("portal_auth"@.len() != "-j"@.len());
    assert("portal_mangle"@.len() != "-j"@.len());
    assert("portal_nat"@.len() != "-j"@.len());
    assert("route"@.len() != "-j"@.len());
    assert("rule"@.len() != "-j"@.len());
    assert("table"@.len() != "-j"@.len());
    assert("tcp"@.len() != "-j"@.len());
    assert("tcp-reset"@.len() != "-j"@.len());
    assert("udp"@.len() != "-j"@.len());
    assert("192.168.3.0/24"@.len() != "-j"@.len());
}

/// The port is where clients are sent, and where the router lets them in. Marked
/// traffic is redirected to it, in the portal's own chain of the NAT table, and
/// nothing is redirected anywhere else; and connections of clients to it are accepted.
pub proof fn clients_are_sent_to_the_port(portal_port: Seq<char>)
    ensures
        exists|i: int|
            0 <= i < setup_plan(portal_port).len() && {
                let command = #[trigger] setup_plan(portal_port)[i];
                &&& command.program == "iptables"@
                &&& command.args.take(4) == seq!["-t"@, "nat"@, "-A"@, "portal_nat"@]
                &&& hands_to(command, "REDIRECT"@)
                &&& command.args.len() >= 6
                &&& command.args[command.args.len() - 2] == "--to-ports"@
                &&& command.args.last() == portal_port
            },
        forall|i: int|
            0 <= i < setup_plan(portal_port).len() && hands_to(
                #[trigger] setup_plan(portal_port)[i],
                "REDIRECT"@,
            ) ==> {
                let command = setup_plan(portal_port)[i];
                &&& command.args[command.args.len() - 2] == "--to-ports"@
                &&& command.args.last() == portal_port
            },
        exists|i: int|
            0 <= i < setup_plan(portal_port).len() && {
                let command = #[trigger] setup_plan(portal_port)[i];
                &&& command.program == "iptables"@
                &&& command.args.take(3) == seq!["-I"@, "INPUT"@, "1"@]
                &&& hands_to(command, "ACCEPT"@)
                &&& command.args.subrange(5, 9) == seq!["-p"@, "tcp"@, "--dport"@, portal_port]
            },
{
    lemma_redirect_differs();
    lemma_jump_differs();
    let plan = setup_plan(portal_port);
    let input = input_plan(portal_port);
    let capture = capture_plan(portal_port);
    assert(plan.len() == 25);
    assert(plan[17] == capture[3]);
    assert(plan[12] == input[4]);
    assert(plan[17].args[6] == "-j"@ && plan[17].args[7] == "REDIRECT"@);
    assert(plan[12].args[9] == "-j"@ && plan[12].args[10] == "ACCEPT"@);
    assert(plan[17].args.take(4) =~= seq!["-t"@, "nat"@, "-A"@, "portal_nat"@]);
    assert(plan[12].args.take(3) =~= seq!["-I"@, "INPUT"@, "1"@]);
    assert(plan[12].args.subrange(5, 9) =~= seq!["-p"@, "tcp"@, "--dport"@, portal_port]);
    assert(hands_to(plan[17], "REDIRECT"@));
    assert(hands_to(plan[12], "ACCEPT"@));
    assert forall|i: int| 0 <= i < plan.len() && hands_to(
        #[trigger] plan[i],
        "REDIRECT"@,
    ) implies i == 17 by {
        if i != 17 {
            lemma_redirects_nothing_else(portal_port, i);
        }
    }
}

proof fn lemma_redirects_nothing_else(portal_port: Seq<char>, i: int)
    requires
        0 <= i < setup_plan(portal_port).len(),
        i != 17,
    ensures
        !hands_to(setup_plan(portal_port)[i], "REDIRECT"@),
{
    lemma_redirect_differs();
    lemma_jump_differs();
    let plan = setup_plan(portal_port);
    assert(plan.len() == 25);
    if i == 0 {
        let command = chain_plan()[0];
        assert(plan[0] == command);
        assert forall|k: int| 0 <= k < command.args.len() - 1 && #[trigger] command.args[k]
            == "-j"@ implies command.args[k + 1] != "REDIRECT"@ by {
            assert(false);
        }
    }
    if i == 1 {
        let command = chain_plan()[1];
        assert(plan[1] == command);
        assert forall|k: int| 0 <= k < command.args.len() - 1 && #[trigger] command.args[k]
            == "-j"@ implies command.args[k + 1] != "REDIRECT"@ by {
            assert(false);
        }
    }
    if i == 2 {
        let command = chain_plan()[2];
        assert(plan[2] == command);
        assert forall|k: int| 0 <= k < command.args.len() - 1 && #[trigger] command.args[k]
            == "-j"@ implies command.args[k + 1] != "REDIRECT"@ by {
            assert(false);
        }
    }
    if i == 3 {
        let command = chain_plan()[3];
        assert(plan[3] == command);
        assert forall|k: int| 0 <= k < command.args.len() - 1 && #[trigger] command.args[k]
            == "-j"@ implies command.args[k + 1] != "REDIRECT"@ by {
            assert(k == 6);
        }
    }
    if i == 4 {
        let command = chain_plan()[4];
        assert(plan[4] == command);
        assert forall|k: int| 0 <= k < command.args.len() - 1 && #[trigger] command.args[k]
            == "-j"@ implies command.args[k + 1] != "REDIRECT"@ by {
            assert(k == 6);
        }
    }
    if i == 5 {
        let command = jail_plan()[0];
        assert(plan[5] == command);
        assert forall|k: int| 0 <= k < command.args.len() - 1 && #[trigger] command.args[k]
            == "-j"@ implies command.args[k + 1] != "REDIRECT"@ by {
            assert(k == 7);
        }
    }
    if i == 6 {
        let command = jail_plan()[1];
        assert(plan[6] == command);
        assert forall|k: int| 0 <= k < command.args.len() - 1 && #[trigger] command.args[k]
            == "-j"@ implies command.args[k + 1] != "REDIRECT"@ by {
            assert(k == 9);
        }
    }
    if i == 7 {
        let command = jail_plan()[2];
        assert(plan[7] == command);
        assert forall|k: int| 0 <= k < command.args.len() - 1 && #[trigger] command.args[k]
            == "-j"@ implies command.args[k + 1] != "REDIRECT"@ by {
            assert(k == 7);
        }
    }
    if i == 8 {
        let command = input_plan(portal_port)[0];
        assert(plan[8] == command);
        assert forall|k: int| 0 <= k < command.args.len() - 1 && #[trigger] command.args[k]
            == "-j"@ implies command.args[k + 1] != "REDIRECT"@ by {
            assert(k == 9);
        }
    }
    if i == 9 {
        let command = input_plan(portal_port)[1];
        assert(plan[9] == command);
        assert forall|k: int| 0 <= k < command.args.len() - 1 && #[trigger] command.args[k]
            == "-j"@ implies command.args[k + 1] != "REDIRECT"@ by {
            assert(k == 9);
        }
    }
    if i == 10 {
        let command = input_plan(portal_port)[2];
        assert(plan[10] == command);
        assert forall|k: int| 0 <= k < command.args.len() - 1 && #[trigger] command.args[k]
            == "-j"@ implies command.args[k + 1] != "REDIRECT"@ by {
            assert(k == 9);
        }
    }
    if i == 11 {
        let command = input_plan(portal_port)[3];
        assert(plan[11] == command);
        assert forall|k: int| 0 <= k < command.args.len() - 1 && #[trigger] command.args[k]
            == "-j"@ implies command.args[k + 1] != "REDIRECT"@ by {
            assert(k == 9);
        }
    }
    if i == 12 {
        let command = input_plan(portal_port)[4];
        assert(plan[12] == command);
        assert forall|k: int| 0 <= k < command.args.len() - 1 && #[trigger] command.args[k]
            == "-j"@ implies command.args[k + 1] != "REDIRECT"@ by {
            assert(k == 9 || k == 8);
        }
    }
    if i == 13 {
        let command = input_plan(portal_port)[5];
        assert(plan[13] == command);
        assert forall|k: int| 0 <= k < command.args.len() - 1 && #[trigger] command.args[k]
            == "-j"@ implies command.args[k + 1] != "REDIRECT"@ by {
            assert(k == 13);
        }
    }
    if i == 14 {
        let command = capture_plan(portal_port)[0];
        assert(plan[14] == command);
        assert forall|k: int| 0 <= k < command.args.len() - 1 && #[trigger] command.args[k]
            == "-j"@ implies command.args[k + 1] != "REDIRECT"@ by {
            assert(k == 14);
        }
    }
    if i == 15 {
        let command = capture_plan(portal_port)[1];
        assert(plan[15] == command);
        assert forall|k: int| 0 <= k < command.args.len() - 1 && #[trigger] command.args[k]
            == "-j"@ implies command.args[k + 1] != "REDIRECT"@ by {
            assert(k == 6);
        }
    }
    if i == 16 {
        let command = capture_plan(portal_port)[2];
        assert(plan[16] == command);
        assert forall|k: int| 0 <= k < command.args.len() - 1 && #[trigger] command.args[k]
            == "-j"@ implies command.args[k + 1] != "REDIRECT"@ by {
            assert(k == 9);
        }
    }
    if i == 18 {
        let command = routing_plan()[0];
        assert(plan[18] == command);
        assert forall|k: int| 0 <= k < command.args.len() - 1 && #[trigger] command.args[k]
            == "-j"@ implies command.args[k + 1] != "REDIRECT"@ by {
            assert(false);
        }
    }
    if i == 19 {
        let command = routing_plan()[1];
        assert(plan[19] == command);
        assert forall|k: int| 0 <= k < command.args.len() - 1 && #[trigger] command.args[k]
            == "-j"@ implies command.args[k + 1] != "REDIRECT"@ by {
            assert(false);
        }
    }
    if i == 20 {
        let command = routing_plan()[2];
        assert(plan[20] == command);
        assert forall|k: int| 0 <= k < command.args.len() - 1 && #[trigger] command.args[k]
            == "-j"@ implies command.args[k + 1] != "REDIRECT"@ by {
            assert(false);
        }
    }
    if i == 21 {
        let command = routing_plan()[3];
        assert(plan[21] == command);
        assert forall|k: int| 0 <= k < command.args.len() - 1 && #[trigger] command.args[k]
            == "-j"@ implies command.args[k + 1] != "REDIRECT"@ by {
            assert(false);
        }
    }
    if i == 22 {
        let command = routing_plan()[4];
        assert(plan[22] == command);
        assert forall|k: int| 0 <= k < command.args.len() - 1 && #[trigger] command.args[k]
            == "-j"@ implies command.args[k + 1] != "REDIRECT"@ by {
            assert(false);
        }
    }
    if i == 23 {
        let command = routing_plan()[5];
        assert(plan[23] == command);
        assert forall|k: int| 0 <= k < command.args.len() - 1 && #[trigger] command.args[k]
            == "-j"@ implies command.args[k + 1] != "REDIRECT"@ by {
            assert(false);
        }
    }
    if i == 24 {
        let command = routing_plan()[6];
        assert(plan[24] == command);
        assert forall|k: int| 0 <= k < command.args.len() - 1 && #[trigger] command.args[k]
            == "-j"@ implies command.args[k + 1] != "REDIRECT"@ by {
            assert(false);
        }
    }
}

/// The port shows in two commands only, as one of their arguments: an installation at
/// another port is the same in every other step, and in every other argument of
/// these two.
pub proof fn port_changes_two_arguments(port1: Seq<char>, port2: Seq<char>, i: int)
    requires
        0 <= i < portal_plan(port1).len(),
    ensures
        portal_plan(port1).len() == portal_plan(port2).len(),
        i != 28 && i != 33 ==> portal_plan(port1)[i] == portal_plan(port2)[i],
        portal_plan(port1)[28] matches PortalStepView::Run(command) && portal_plan(port2)[28]
            == PortalStepView::Run(
            CommandView { program: command.program, args: command.args.update(8, port2) },
        ) && command.args[7] == "--dport"@ && command.args[8] == port1,
        portal_plan(port1)[33] matches PortalStepView::Run(command) && portal_plan(port2)[33]
            == PortalStepView::Run(
            CommandView { program: command.program, args: command.args.update(9, port2) },
        ) && command.args[8] == "--to-ports"@ && command.args[9] == port1,
{
    let (one, two) = (portal_plan(port1), portal_plan(port2));
    let (plan1, plan2) = (setup_plan(port1), setup_plan(port2));
    assert(plan1.len() == 25 && plan2.len() == 25);
    assert(purge_plan().len() == 14);
    assert forall|j: int| 0 <= j < 25 implies one[16 + j] == PortalStepView::Run(plan1[j])
        && #[trigger] two[16 + j] == PortalStepView::Run(plan2[j]) by {}
    assert(plan1[12] == input_plan(port1)[4] && plan2[12] == input_plan(port2)[4]);
    assert(plan1[17] == capture_plan(port1)[3] && plan2[17] == capture_plan(port2)[3]);
    assert(one[28] == PortalStepView::Run(plan1[12]) && two[28] == PortalStepView::Run(
        plan2[12],
    ));
    assert(one[33] == PortalStepView::Run(plan1[17]) && two[33] == PortalStepView::Run(
        plan2[17],
    ));
    assert(plan1[12].args.update(8, port2) =~= plan2[12].args);
    assert(plan1[17].args.update(9, port2) =~= plan2[17].args);
    if i != 28 && i != 33 && 16 <= i < 41 {
        let j = i - 16;
        assert(two[16 + j] == PortalStepView::Run(plan2[j]));
        lemma_found_in_part(
            chain_plan(),
            jail_plan(),
            input_plan(port1),
            capture_plan(port1),
            routing_plan(),
            j,
        );
        lemma_found_in_part(
            chain_plan(),
            jail_plan(),
            input_plan(port2),
            capture_plan(port2),
            routing_plan(),
            j,
        );
        lemma_ports_agree(port1, port2);
    }
}

proof fn lemma_ports_agree(port1: Seq<char>, port2: Seq<char>)
    ensures
        forall|i: int| 0 <= i < 6 && i != 4 ==> #[trigger] input_plan(port1)[i] == input_plan(port2)[i],
        forall|i: int|
            0 <= i < 4 && i != 3 ==> #[trigger] capture_plan(port1)[i] == capture_plan(port2)[i],
{
    assert forall|i: int| 0 <= i < 6 && i != 4 implies #[trigger] input_plan(port1)[i] == input_plan(
        port2,
    )[i] by {
        assert(i == 0 || i == 1 || i == 2 || i == 3 || i == 5);
    }
    assert forall|i: int| 0 <= i < 4 && i != 3 implies #[trigger] capture_plan(port1)[i]
        == capture_plan(port2)[i] by {
        assert(i == 0 || i == 1 || i == 2);
    }
}

/// The address of a client shows once in each of the commands that let it out and shut
/// it in again, behind `-s`: for another client they are the same but for that.
pub proof fn client_is_the_source(client1: Seq<char>, client2: Seq<char>)
    ensures
        grant_plan(client1).len() == 2 && revoke_plan(client1).len() == 2,
        grant_plan(client1)[0].args.subrange(3, 5) == seq!["-s"@, client1],
        grant_plan(client1)[1].args.subrange(5, 7) == seq!["-s"@, client1],
        revoke_plan(client1)[0].args.subrange(2, 4) == seq!["-s"@, client1],
        revoke_plan(client1)[1].args.subrange(4, 6) == seq!["-s"@, client1],
        grant_plan(client2) == seq![
            iptables(grant_plan(client1)[0].args.update(4, client2)),
            iptables(grant_plan(client1)[1].args.update(6, client2)),
        ],
        revoke_plan(client2) == seq![
            iptables(revoke_plan(client1)[0].args.update(3, client2)),
            iptables(revoke_plan(client1)[1].args.update(5, client2)),
        ],
{
    assert(grant_plan(client1)[0].args.subrange(3, 5) =~= seq!["-s"@, client1]);
    assert(grant_plan(client1)[1].args.subrange(5, 7) =~= seq!["-s"@, client1]);
    assert(revoke_plan(client1)[0].args.subrange(2, 4) =~= seq!["-s"@, client1]);
    assert(revoke_plan(client1)[1].args.subrange(4, 6) =~= seq!["-s"@, client1]);
    assert(grant_plan(client2)[0].args =~= grant_plan(client1)[0].args.update(4, client2));
    assert(grant_plan(client2)[1].args =~= grant_plan(client1)[1].args.update(6, client2));
    assert(revoke_plan(client2)[0].args =~= revoke_plan(client1)[0].args.update(3, client2));
    assert(revoke_plan(client2)[1].args =~= revoke_plan(client1)[1].args.update(5, client2));
    assert(grant_plan(client2) =~= seq![
        iptables(grant_plan(client1)[0].args.update(4, client2)),
        iptables(grant_plan(client1)[1].args.update(6, client2)),
    ]);
    assert(revoke_plan(client2) =~= seq![
        iptables(revoke_plan(client1)[0].args.update(3, client2)),
        iptables(revoke_plan(client1)[1].args.update(5, client2)),
    ]);
}

/// A client that connects is accepted and left unmarked ahead of all other rules of
/// the portal's chains.
pub proof fn connected_client_comes_first(client_ip: Seq<char>, i: int)
    requires
        0 <= i < grant_plan(client_ip).len(),
    ensures
        is_portal_chain(chain_of(grant_plan(client_ip)[i])),
        rule_part(grant_plan(client_ip)[i])[0] == "-I"@,
        rule_part(grant_plan(client_ip)[i])[2] == "1"@,
        jumps_to(grant_plan(client_ip)[0], "ACCEPT"@),
        jumps_to(grant_plan(client_ip)[1], "RETURN"@),
{
    lemma_words_differ();
    assert(rule_part(grant_plan(client_ip)[0]) =~= grant_plan(client_ip)[0].args);
}

} // verus!
