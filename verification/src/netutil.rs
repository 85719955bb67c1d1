//! The host network helper: the commands that create, wire and delete the
//! tap interfaces of a VM, and how the helper reads its own command line.

use vstd::prelude::*;
use vstd::string::*;
use crate::text::{decimal, usize_to_decimal};

verus! {

/// A program to run and its arguments.
#[derive(Debug, PartialEq)]
pub struct CommandSpec {
    pub program: String,
    pub args: Vec<String>,
}

impl View for CommandSpec {
    type V = (Seq<char>, Seq<Seq<char>>);

    open spec fn view(&self) -> (Seq<char>, Seq<Seq<char>>) {
        (self.program@, self.args.deep_view())
    }
}

/// The command that creates the tap interface `tap` owned by `user`.
pub fn addtap_command(tap: &str, user: &str) -> (r: CommandSpec)
    ensures
        r@ == ("tunctl"@, seq!["-t"@, tap@, "-u"@, user@]),
{
    let r = CommandSpec {
        program: "tunctl".to_owned(),
        args: vec!["-t".to_owned(), tap.to_owned(), "-u".to_owned(), user.to_owned()],
    };
    assert(r.args.deep_view() =~= seq!["-t"@, tap@, "-u"@, user@]);
    r
}

/// The commands that attach the tap interface `tap` to the bridge `bridge`
/// and isolate it there, in order.
pub fn netvm_bridge_commands(tap: &str, bridge: &str) -> (r: Vec<CommandSpec>)
    ensures
        r@.len() == 2,
        r@[0]@ == ("brctl"@, seq!["addif"@, bridge@, tap@]),
        r@[1]@ == ("bridge"@, seq!["link"@, "set"@, "dev"@, tap@, "isolated"@, "on"@]),
{
    let brctl = CommandSpec {
        program: "brctl".to_owned(),
        args: vec!["addif".to_owned(), bridge.to_owned(), tap.to_owned()],
    };
    assert(brctl.args.deep_view() =~= seq!["addif"@, bridge@, tap@]);
    let isolate = CommandSpec {
        program: "bridge".to_owned(),
        args: vec![
            "link".to_owned(),
            "set".to_owned(),
            "dev".to_owned(),
            tap.to_owned(),
            "isolated".to_owned(),
            "on".to_owned(),
        ],
    };
    assert(isolate.args.deep_view() =~= seq!["link"@, "set"@, "dev"@, tap@, "isolated"@, "on"@]);
    vec![brctl, isolate]
}

/// The commands that give the host side of the tap interface `tap` its
/// address, bring it up, and route the VM's traffic out through
/// `default_iface`, in order.
pub fn host_network_commands(tap: &str, default_iface: &str) -> (r: Vec<CommandSpec>)
    ensures
        r@.len() == 5,
        r@[0]@ == ("ip"@, seq!["addr"@, "add"@, "dev"@, tap@, "10.1.1.1/24"@]),
        r@[1]@ == ("ip"@, seq!["link"@, "set"@, "dev"@, tap@, "up"@]),
        r@[2]@ == ("iptables"@, seq![
            "-t"@, "nat"@, "-A"@, "POSTROUTING"@, "-o"@, default_iface@, "-j"@, "MASQUERADE"@,
        ]),
        r@[3]@ == ("iptables"@, seq![
            "-A"@, "FORWARD"@, "-i"@, default_iface@, "-o"@, tap@, "-m"@, "state"@, "--state"@,
            "RELATED,ESTABLISHED"@, "-j"@, "ACCEPT"@,
        ]),
        r@[4]@ == ("iptables"@, seq![
            "-A"@, "FORWARD"@, "-o"@, default_iface@, "-i"@, tap@, "-j"@, "ACCEPT"@,
        ]),
{
    let address = CommandSpec {
        program: "ip".to_owned(),
        args: vec![
            "addr".to_owned(),
            "add".to_owned(),
            "dev".to_owned(),
            tap.to_owned(),
            "10.1.1.1/24".to_owned(),
        ],
    };
    assert(address.args.deep_view() =~= seq!["addr"@, "add"@, "dev"@, tap@, "10.1.1.1/24"@]);
    let up = CommandSpec {
        program: "ip".to_owned(),
        args: vec![
            "link".to_owned(),
            "set".to_owned(),
            "dev".to_owned(),
            tap.to_owned(),
            "up".to_owned(),
        ],
    };
    assert(up.args.deep_view() =~= seq!["link"@, "set"@, "dev"@, tap@, "up"@]);
    let masquerade = CommandSpec {
        program: "iptables".to_owned(),
        args: vec![
            "-t".to_owned(),
            "nat".to_owned(),
            "-A".to_owned(),
            "POSTROUTING".to_owned(),
            "-o".to_owned(),
            default_iface.to_owned(),
            "-j".to_owned(),
            "MASQUERADE".to_owned(),
        ],
    };
    assert(masquerade.args.deep_view() =~= seq![
        "-t"@, "nat"@, "-A"@, "POSTROUTING"@, "-o"@, default_iface@, "-j"@, "MASQUERADE"@,
    ]);
    let inbound = CommandSpec {
        program: "iptables".to_owned(),
        args: vec![
            "-A".to_owned(),
            "FORWARD".to_owned(),
            "-i".to_owned(),
            default_iface.to_owned(),
            "-o".to_owned(),
            tap.to_owned(),
            "-m".to_owned(),
            "state".to_owned(),
            "--state".to_owned(),
            "RELATED,ESTABLISHED".to_owned(),
            "-j".to_owned(),
            "ACCEPT".to_owned(),
        ],
    };
    assert(inbound.args.deep_view() =~= seq![
        "-A"@, "FORWARD"@, "-i"@, default_iface@, "-o"@, tap@, "-m"@, "state"@, "--state"@,
        "RELATED,ESTABLISHED"@, "-j"@, "ACCEPT"@,
    ]);
    let outbound = CommandSpec {
        program: "iptables".to_owned(),
        args: vec![
            "-A".to_owned(),
            "FORWARD".to_owned(),
            "-o".to_owned(),
            default_iface.to_owned(),
            "-i".to_owned(),
            tap.to_owned(),
            "-j".to_owned(),
            "ACCEPT".to_owned(),
        ],
    };
    assert(outbound.args.deep_view() =~= seq![
        "-A"@, "FORWARD"@, "-o"@, default_iface@, "-i"@, tap@, "-j"@, "ACCEPT"@,
    ]);
    vec![address, up, masquerade, inbound, outbound]
}

/// The command that deletes the tap interface `tap`.
pub fn deltap_command(tap: &str) -> (r: CommandSpec)
    ensures
        r@ == ("ip"@, seq!["link"@, "delete"@, tap@]),
{
    let r = CommandSpec {
        program: "ip".to_owned(),
        args: vec!["link".to_owned(), "delete".to_owned(), tap.to_owned()],
    };
    assert(r.args.deep_view() =~= seq!["link"@, "delete"@, tap@]);
    r
}

/// What the network helper was asked to do.
#[derive(Debug, PartialEq)]
pub enum NetUtilRequest {
    /// Create a tap interface and attach it to a bridge.
    AddTapNetvm { tap: String, bridge: String },
    /// Create a tap interface routed through the host.
    AddTapHost { tap: String },
    /// Delete a tap interface.
    DelTap { tap: String },
}

impl View for NetUtilRequest {
    type V = (nat, Seq<char>, Seq<char>);

    /// The kind (0 netvm, 1 host, 2 delete), the tap and the bridge (empty
    /// when there is none).
    open spec fn view(&self) -> (nat, Seq<char>, Seq<char>) {
        match self {
            NetUtilRequest::AddTapNetvm { tap, bridge } => (0, tap@, bridge@),
            NetUtilRequest::AddTapHost { tap } => (1, tap@, Seq::empty()),
            NetUtilRequest::DelTap { tap } => (2, tap@, Seq::empty()),
        }
    }
}

/// The message for a command line with the wrong number of arguments.
pub open spec fn wrong_count_message(argc: nat) -> Seq<char> {
    "Wrong number of arguments : "@ + decimal(argc)
}

/// How the network helper reads its command line (`args[0]` is the
/// program's name): `addtap netvm <tap> <bridge>`, `addtap host <tap>` or
/// `deltap <tap>`, each with exactly its number of arguments.
pub open spec fn netutil_request(args: Seq<Seq<char>>) -> Result<(nat, Seq<char>, Seq<char>), Seq<char>> {
    if args[1] == "addtap"@ {
        if args[2] == "netvm"@ {
            if args.len() != 5 {
                Err(wrong_count_message((args.len() - 1) as nat))
            } else {
                Ok((0, args[3], args[4]))
            }
        } else if args[2] == "host"@ {
            if args.len() != 4 {
                Err(wrong_count_message((args.len() - 1) as nat))
            } else {
                Ok((1, args[3], Seq::empty()))
            }
        } else {
            Err("network kind not supported: "@ + args[2])
        }
    } else if args[1] == "deltap"@ {
        if args.len() != 3 {
            Err(wrong_count_message((args.len() - 1) as nat))
        } else {
            Ok((2, args[2], Seq::empty()))
        }
    } else {
        Err("Command not supported: "@ + args[1])
    }
}

/// Reads the network helper's command line.
pub fn parse_netutil_args(args: &Vec<String>) -> (r: Result<NetUtilRequest, String>)
    requires
        args@.len() >= 2,
        args@[1]@ == "addtap"@ ==> args@.len() >= 3,
    ensures
        netutil_request(args.deep_view()) == (match r {
            Ok(q) => Ok(q@),
            Err(m) => Err(m@),
        }),
{
    let ghost av = args.deep_view();
    assert(av[1] == args@[1]@);
    if args[1] == "addtap".to_owned() {
        assert(av[2] == args@[2]@);
        if args[2] == "netvm".to_owned() {
            if args.len() != 5 {
                return Err(wrong_count(args.len() - 1));
            }
            assert(av[3] == args@[3]@ && av[4] == args@[4]@);
            Ok(NetUtilRequest::AddTapNetvm { tap: args[3].clone(), bridge: args[4].clone() })
        } else if args[2] == "host".to_owned() {
            if args.len() != 4 {
                return Err(wrong_count(args.len() - 1));
            }
            assert(av[3] == args@[3]@);
            Ok(NetUtilRequest::AddTapHost { tap: args[3].clone() })
        } else {
            Err("network kind not supported: ".to_owned().concat(args[2].as_str()))
        }
    } else if args[1] == "deltap".to_owned() {
        if args.len() != 3 {
            return Err(wrong_count(args.len() - 1));
        }
        assert(av[2] == args@[2]@);
        Ok(NetUtilRequest::DelTap { tap: args[2].clone() })
    } else {
        Err("Command not supported: ".to_owned().concat(args[1].as_str()))
    }
}

fn wrong_count(argc: usize) -> (r: String)
    ensures
        r@ == wrong_count_message(argc as nat),
{
    let n = usize_to_decimal(argc);
    "Wrong number of arguments : ".to_owned().concat(n.as_str())
}


/// What one of the helper's commands comes to: nothing when it succeeded,
/// else the error `<program> failed status: <status>`, with the exit status
/// as the host writes it.
pub fn command_outcome(program: &str, success: bool, status: &str) -> (r: Result<(), String>)
    ensures
        match r {
            Ok(()) => success,
            Err(m) => !success && m@ == program@ + " failed status: "@ + status@,
        },
{
    if success {
        Ok(())
    } else {
        Err(program.to_owned().concat(" failed status: ").concat(status))
    }
}

} // verus!
