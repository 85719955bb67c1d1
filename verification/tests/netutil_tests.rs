use openvmm::netutil::{
    addtap_command, command_outcome, deltap_command, host_network_commands, netvm_bridge_commands, parse_netutil_args, CommandSpec,
    NetUtilRequest,
};

fn strings(v: &[&str]) -> Vec<String> {
    v.iter().map(|s| s.to_string()).collect()
}

fn cmd(program: &str, args: &[&str]) -> CommandSpec {
    CommandSpec { program: program.to_string(), args: strings(args) }
}

#[test]
fn tap_commands() {
    assert_eq!(addtap_command("vmtap1", "alice"), cmd("tunctl", &["-t", "vmtap1", "-u", "alice"]));
    assert_eq!(deltap_command("vmtap1"), cmd("ip", &["link", "delete", "vmtap1"]));
    assert_eq!(
        netvm_bridge_commands("vmtap1", "vmbr_pass"),
        vec![
            cmd("brctl", &["addif", "vmbr_pass", "vmtap1"]),
            cmd("bridge", &["link", "set", "dev", "vmtap1", "isolated", "on"]),
        ]
    );
}

#[test]
fn host_network_commands_route_through_the_default_interface() {
    assert_eq!(
        host_network_commands("vmtap2", "eth0"),
        vec![
            cmd("ip", &["addr", "add", "dev", "vmtap2", "10.1.1.1/24"]),
            cmd("ip", &["link", "set", "dev", "vmtap2", "up"]),
            cmd("iptables", &["-t", "nat", "-A", "POSTROUTING", "-o", "eth0", "-j", "MASQUERADE"]),
            cmd("iptables", &[
                "-A", "FORWARD", "-i", "eth0", "-o", "vmtap2", "-m", "state", "--state", "RELATED,ESTABLISHED", "-j",
                "ACCEPT",
            ]),
            cmd("iptables", &["-A", "FORWARD", "-o", "eth0", "-i", "vmtap2", "-j", "ACCEPT"]),
        ]
    );
}

#[test]
fn netutil_command_lines() {
    assert_eq!(
        parse_netutil_args(&strings(&["netutil", "addtap", "netvm", "t0", "br0"])),
        Ok(NetUtilRequest::AddTapNetvm { tap: "t0".to_string(), bridge: "br0".to_string() })
    );
    assert_eq!(
        parse_netutil_args(&strings(&["netutil", "addtap", "host", "t1"])),
        Ok(NetUtilRequest::AddTapHost { tap: "t1".to_string() })
    );
    assert_eq!(
        parse_netutil_args(&strings(&["netutil", "deltap", "t2"])),
        Ok(NetUtilRequest::DelTap { tap: "t2".to_string() })
    );
}

#[test]
fn netutil_command_line_errors() {
    assert_eq!(
        parse_netutil_args(&strings(&["netutil", "addtap", "netvm", "t0"])),
        Err("Wrong number of arguments : 3".to_string())
    );
    assert_eq!(
        parse_netutil_args(&strings(&["netutil", "addtap", "host", "t1", "x"])),
        Err("Wrong number of arguments : 4".to_string())
    );
    assert_eq!(
        parse_netutil_args(&strings(&["netutil", "deltap"])),
        Err("Wrong number of arguments : 1".to_string())
    );
    assert_eq!(
        parse_netutil_args(&strings(&["netutil", "addtap", "wifi", "t"])),
        Err("network kind not supported: wifi".to_string())
    );
    assert_eq!(
        parse_netutil_args(&strings(&["netutil", "reboot"])),
        Err("Command not supported: reboot".to_string())
    );
}

#[test]
fn command_outcomes() {
    assert_eq!(command_outcome("brctl", true, "exit status: 0"), Ok(()));
    assert_eq!(
        command_outcome("brctl", false, "exit status: 1"),
        Err("brctl failed status: exit status: 1".to_string())
    );
}
