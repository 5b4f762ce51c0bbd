use resume_mainframe::commands::{
    after_fork, run_cmd_safe, run_ip_safe, run_iptables_safe, run_sysctl_safe, wait_complaint,
    CommandLine, Fork, ForkAction,
};
use resume_mainframe::page::{form, index};
use resume_mainframe::portal::{handle_connect, initialize_captive_portal, PortalStep};
use resume_mainframe::status::StatusCode;

fn line(command: &CommandLine) -> String {
    command.argv().join(" ")
}

fn lines(port: &str) -> Vec<String> {
    let mut all = Vec::new();
    for step in initialize_captive_portal(port).unwrap() {
        match step {
            PortalStep::Say(text) => all.push(format!("# {}", text)),
            PortalStep::Run(command) => all.push(line(&command)),
        }
    }
    all
}

/// The command that deletes the rule that a command adds.
fn deletion(command: &str) -> String {
    let words: Vec<&str> = command.split(' ').collect();
    let mut rest = Vec::new();
    let mut skip = 0;
    for word in words {
        if skip > 0 {
            skip -= 1;
            if skip == 0 {
                continue;
            }
        }
        match word {
            "-A" => rest.push("-D"),
            "-I" => {
                rest.push("-D");
                skip = 2;
            }
            other => rest.push(other),
        }
    }
    rest.join(" ")
}

#[test]
fn command_lines_name_their_program() {
    assert_eq!(line(&run_iptables_safe(&["-F", "portal_auth"])), "iptables -F portal_auth");
    assert_eq!(line(&run_ip_safe(&["rule"])), "ip rule");
    assert_eq!(line(&run_sysctl_safe(&["-w", "a=1"])), "sysctl -w a=1");
    assert_eq!(line(&run_cmd_safe("true", &[])), "true");
    let copy = run_ip_safe(&["route", "flush"]).clone();
    assert_eq!(copy.program, "ip");
    assert_eq!(copy.args, vec!["route".to_string(), "flush".to_string()]);
}

#[test]
fn fork_outcomes() {
    assert!(matches!(after_fork(Fork::Child), ForkAction::Execute(1)));
    assert!(matches!(after_fork(Fork::Parent(42)), ForkAction::Wait(42)));
    match after_fork(Fork::Failed) {
        ForkAction::Complain(message) => assert_eq!(message, "Fork failed"),
        _ => panic!("a failed fork is complained about"),
    }
    assert_eq!(wait_complaint("ECHILD"), "Error waiting for iptables command: ECHILD");
}

#[test]
fn installation_in_full() {
    let expected = vec![
        "# Cleaning up previous walled garden configs...",
        "iptables -D forwarding_rule -s 192.168.3.0/24 ! -d 192.168.3.0/24 -j portal_auth",
        "iptables -D forwarding_rule -s 192.168.3.0/24 ! -d 192.168.3.0/24 -p tcp -j REJECT --reject-with tcp-reset",
        "iptables -D forwarding_rule -s 192.168.3.0/24 ! -d 192.168.3.0/24 -j DROP",
        "iptables -D INPUT -m mark --mark 99 -p tcp -m conntrack --ctstate INVALID -j REJECT --reject-with tcp-reset",
        "iptables -t mangle -D PREROUTING -s 192.168.3.0/24 ! -d 192.168.3.0/24 -p tcp --dport 80 -j portal_mangle",
        "iptables -t nat -D PREROUTING -m mark --mark 99 -j portal_nat",
        "iptables -F portal_auth",
        "iptables -X portal_auth",
        "iptables -t mangle -F portal_mangle",
        "iptables -t mangle -X portal_mangle",
        "iptables -t nat -F portal_nat",
        "iptables -t nat -X portal_nat",
        "ip rule del fwmark 99 table 99",
        "ip route flush table 99",
        "# Configuring explicit OpenWrt Walled Garden...",
        "iptables -N portal_auth",
        "iptables -t mangle -N portal_mangle",
        "iptables -t nat -N portal_nat",
        "iptables -A portal_auth -p udp --dport 53 -j ACCEPT",
        "iptables -A portal_auth -p tcp --dport 53 -j ACCEPT",
        "iptables -A forwarding_rule -s 192.168.3.0/24 ! -d 192.168.3.0/24 -j portal_auth",
        "iptables -A forwarding_rule -s 192.168.3.0/24 ! -d 192.168.3.0/24 -p tcp -j REJECT --reject-with tcp-reset",
        "iptables -A forwarding_rule -s 192.168.3.0/24 ! -d 192.168.3.0/24 -j DROP",
        "iptables -I INPUT 1 -s 192.168.3.0/24 -p udp --dport 53 -j ACCEPT",
        "iptables -I INPUT 1 -s 192.168.3.0/24 -p tcp --dport 53 -j ACCEPT",
        "iptables -I INPUT 1 -s 192.168.3.0/24 -p udp --dport 67:68 -j ACCEPT",
        "iptables -I INPUT 1 -s 192.168.3.0/24 -p tcp --dport 22 -j ACCEPT",
        "iptables -I INPUT 1 -s 192.168.3.0/24 -p tcp --dport 8080 -j ACCEPT",
        "iptables -I INPUT 1 -m mark --mark 99 -p tcp -m conntrack --ctstate INVALID -j REJECT --reject-with tcp-reset",
        "iptables -t mangle -I PREROUTING 1 -s 192.168.3.0/24 ! -d 192.168.3.0/24 -p tcp --dport 80 -j portal_mangle",
        "iptables -t mangle -A portal_mangle -p tcp -j MARK --set-mark 99",
        "iptables -t nat -I PREROUTING 1 -m mark --mark 99 -j portal_nat",
        "iptables -t nat -A portal_nat -p tcp -j REDIRECT --to-ports 8080",
        "ip rule add fwmark 99 table 99",
        "ip route add local default dev lo table 99",
        "sysctl -w net.ipv4.conf.all.rp_filter=2",
        "sysctl -w net.ipv4.conf.br-wlan.rp_filter=2",
        "sysctl -w net.ipv4.conf.lo.rp_filter=2",
        "sysctl -w net.ipv4.conf.all.route_localnet=1",
        "sysctl -w net.ipv4.conf.br-wlan.route_localnet=1",
        "# Walled Garden successfully installed!",
    ];
    assert_eq!(lines("8080"), expected);
}

#[test]
fn hooks_are_removed_before_they_are_added() {
    let all = lines("80");
    let setup = all.iter().position(|l| l.starts_with("# Configuring")).unwrap();
    let purge = &all[..setup];
    let mut hooks = 0;
    for command in &all[setup..] {
        let adds = command.contains(" -A ") || command.contains(" -I ");
        let own = command.contains("-A portal_");
        let opens = command.contains("-I INPUT") && command.ends_with("-j ACCEPT");
        if adds && !own && !opens {
            hooks += 1;
            assert!(purge.contains(&deletion(command)), "{} stays", command);
        }
    }
    assert_eq!(hooks, 6);
    assert!(!purge.contains(&deletion(
        "iptables -I INPUT 1 -s 192.168.3.0/24 -p tcp --dport 22 -j ACCEPT"
    )));
}

#[test]
fn chains_are_created_before_use_and_unhooked_before_deletion() {
    let all = lines("80");
    let at = |text: &str| all.iter().position(|l| l == text).unwrap();
    assert!(at("iptables -F portal_auth") < at("iptables -X portal_auth"));
    assert!(at("iptables -X portal_auth") < at("iptables -N portal_auth"));
    assert!(
        at("iptables -t nat -D PREROUTING -m mark --mark 99 -j portal_nat")
            < at("iptables -t nat -X portal_nat")
    );
    assert!(
        at("iptables -t nat -N portal_nat")
            < at("iptables -t nat -I PREROUTING 1 -m mark --mark 99 -j portal_nat")
    );
    assert!(at("ip rule del fwmark 99 table 99") < at("ip rule add fwmark 99 table 99"));
    assert!(
        at("ip route flush table 99") < at("ip route add local default dev lo table 99")
    );
}

#[test]
fn connecting_lets_a_client_out_for_half_an_hour() {
    let connection = handle_connect("192.168.3.7");
    let grant: Vec<String> = connection.grant.iter().map(line).collect();
    let revoke: Vec<String> = connection.revoke.iter().map(line).collect();
    assert_eq!(
        grant,
        vec![
            "iptables -I portal_auth 1 -s 192.168.3.7 -j ACCEPT",
            "iptables -t mangle -I portal_mangle 1 -s 192.168.3.7 -j RETURN",
        ]
    );
    assert_eq!(
        revoke,
        vec![
            "iptables -D portal_auth -s 192.168.3.7 -j ACCEPT",
            "iptables -t mangle -D portal_mangle -s 192.168.3.7 -j RETURN",
        ]
    );
    assert_eq!(connection.seconds, 1800);
    assert_eq!(
        connection.headers,
        vec![("connection", "close"), ("content-type", "text/html")]
    );
    assert!(connection.body.contains("window.location.href = \"http://www.google.com\";"));
}

#[test]
fn revoking_undoes_granting() {
    let connection = handle_connect("10.0.0.1");
    let undone: Vec<String> = connection.grant.iter().map(|c| deletion(&line(c))).collect();
    let revoke: Vec<String> = connection.revoke.iter().map(line).collect();
    assert_eq!(undone, revoke);
}

#[test]
fn main_page_is_never_kept() {
    let page = index("<html></html>");
    assert_eq!(page.status, StatusCode::Success);
    assert_eq!(page.html, "<html></html>");
    assert_eq!(
        page.headers,
        vec![
            ("cache-control", "no-store, no-cache, must-revalidate, max-age=0"),
            ("pragma", "no-cache"),
            ("expires", "-1"),
            ("connection", "close"),
        ]
    );
}

#[test]
fn form_page_has_no_headers_of_its_own() {
    let page = form("<form></form>");
    assert_eq!(page.status, StatusCode::Success);
    assert_eq!(page.html, "<form></form>");
    assert!(page.headers.is_empty());
}
