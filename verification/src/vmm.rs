//! Preparing an app's VM: the settings the VM monitor is given, and the host
//! actions (environment, tap interfaces, shared directory, hard links) that
//! go with them.

use vstd::prelude::*;
use vstd::string::*;
use crate::config::{AppConfig, VmNetworkConfig, VmPermission, VmmConfig};
use crate::netutil::{CommandSpec, netutil_request};
use crate::path::{file_name, path_file_name, path_join, path_join_str};
use crate::text::{decimal, parse_unsigned, usize_to_decimal};

verus! {

/// How the virtual GPU renders.
#[derive(Debug, Clone, Copy, PartialEq, Eq, Structural)]
pub enum GpuMode {
    Mode2D,
    ModeVirglRenderer,
    ModeGfxstream,
}

/// The virtual GPU's settings; the render server and the shader cache are
/// never set.
#[derive(Debug, Clone, Copy, PartialEq, Eq, Structural)]
pub struct GpuSettings {
    pub display_width: u32,
    pub display_height: u32,
    pub renderer_use_egl: bool,
    pub renderer_use_gles: bool,
    pub renderer_use_glx: bool,
    pub renderer_use_surfaceless: bool,
    pub gfxstream_use_guest_angle: bool,
    pub gfxstream_use_syncfd: bool,
    pub use_vulkan: bool,
    pub mode: GpuMode,
    pub udmabuf: bool,
}

/// The GPU every app VM gets: one 1920x1080 display rendered in 2D.
pub open spec fn app_gpu_settings() -> GpuSettings {
    GpuSettings {
        display_width: 1920,
        display_height: 1080,
        renderer_use_egl: true,
        renderer_use_gles: true,
        renderer_use_glx: false,
        renderer_use_surfaceless: true,
        gfxstream_use_guest_angle: false,
        gfxstream_use_syncfd: true,
        use_vulkan: false,
        mode: GpuMode::Mode2D,
        udmabuf: false,
    }
}

/// The GPU settings of an app VM.
pub fn make_gpu_parameters() -> (r: Option<GpuSettings>)
    ensures
        r == Some(app_gpu_settings()),
{
    Some(
        GpuSettings {
            display_width: 1920,
            display_height: 1080,
            renderer_use_egl: true,
            renderer_use_gles: true,
            renderer_use_glx: false,
            renderer_use_surfaceless: true,
            gfxstream_use_guest_angle: false,
            gfxstream_use_syncfd: true,
            use_vulkan: false,
            mode: GpuMode::Mode2D,
            udmabuf: false,
        },
    )
}

/// A disk image attached to the VM.
#[derive(Debug, PartialEq)]
pub struct DiskSpec {
    pub path: String,
    pub read_only: bool,
    pub o_direct: bool,
    pub sparse: bool,
    pub block_size: u32,
}

impl View for DiskSpec {
    type V = (Seq<char>, bool, bool, bool, u32);

    open spec fn view(&self) -> (Seq<char>, bool, bool, bool, u32) {
        (self.path@, self.read_only, self.o_direct, self.sparse, self.block_size)
    }
}

/// A host directory shared with the guest through a file-system device.
#[derive(Debug, PartialEq)]
pub struct SharedDirSpec {
    pub src: String,
    pub tag: String,
}

impl View for SharedDirSpec {
    type V = (Seq<char>, Seq<char>);

    open spec fn view(&self) -> (Seq<char>, Seq<char>) {
        (self.src@, self.tag@)
    }
}

/// The settings handed to the VM monitor. Every field left at `None` (or
/// empty, or `false`) keeps the monitor's default.
#[derive(Debug, PartialEq)]
pub struct VmConfig {
    pub vcpu_count: Option<usize>,
    pub memory: Option<u64>,
    pub sandbox: Option<bool>,
    pub cid: Option<u64>,
    pub tap_name: Vec<String>,
    pub params: Vec<String>,
    pub disks: Vec<DiskSpec>,
    pub gpu_parameters: Option<GpuSettings>,
    pub software_tpm: Option<bool>,
    pub display_window_keyboard: Option<bool>,
    pub display_window_mouse: Option<bool>,
    pub shared_dirs: Vec<SharedDirSpec>,
    pub default_serial_parameters: bool,
    pub kernel: Option<String>,
}

/// The abstract content of a `VmConfig`.
#[verifier::ext_equal]
pub struct VmConfigView {
    pub vcpu_count: Option<usize>,
    pub memory: Option<u64>,
    pub sandbox: Option<bool>,
    pub cid: Option<u64>,
    pub tap_name: Seq<Seq<char>>,
    pub params: Seq<Seq<char>>,
    pub disks: Seq<(Seq<char>, bool, bool, bool, u32)>,
    pub gpu_parameters: Option<GpuSettings>,
    pub software_tpm: Option<bool>,
    pub display_window_keyboard: Option<bool>,
    pub display_window_mouse: Option<bool>,
    pub shared_dirs: Seq<(Seq<char>, Seq<char>)>,
    pub default_serial_parameters: bool,
    pub kernel: Option<Seq<char>>,
}

impl View for VmConfig {
    type V = VmConfigView;

    open spec fn view(&self) -> VmConfigView {
        VmConfigView {
            vcpu_count: self.vcpu_count,
            memory: self.memory,
            sandbox: self.sandbox,
            cid: self.cid,
            tap_name: self.tap_name.deep_view(),
            params: self.params.deep_view(),
            disks: self.disks@.map_values(|d: DiskSpec| d@),
            gpu_parameters: self.gpu_parameters,
            software_tpm: self.software_tpm,
            display_window_keyboard: self.display_window_keyboard,
            display_window_mouse: self.display_window_mouse,
            shared_dirs: self.shared_dirs@.map_values(|d: SharedDirSpec| d@),
            default_serial_parameters: self.default_serial_parameters,
            kernel: match self.kernel {
                Some(k) => Some(k@),
                None => None,
            },
        }
    }
}

/// The settings that keep every default of the monitor.
pub open spec fn default_vm_config() -> VmConfigView {
    VmConfigView {
        vcpu_count: None,
        memory: None,
        sandbox: None,
        cid: None,
        tap_name: Seq::empty(),
        params: Seq::empty(),
        disks: Seq::empty(),
        gpu_parameters: None,
        software_tpm: None,
        display_window_keyboard: None,
        display_window_mouse: None,
        shared_dirs: Seq::empty(),
        default_serial_parameters: false,
        kernel: None,
    }
}

impl VmConfig {
    /// The settings that keep every default of the monitor.
    pub fn new() -> (r: VmConfig)
        ensures
            r@ == default_vm_config(),
    {
        let r = VmConfig {
            vcpu_count: None,
            memory: None,
            sandbox: None,
            cid: None,
            tap_name: Vec::new(),
            params: Vec::new(),
            disks: Vec::new(),
            gpu_parameters: None,
            software_tpm: None,
            display_window_keyboard: None,
            display_window_mouse: None,
            shared_dirs: Vec::new(),
            default_serial_parameters: false,
            kernel: None,
        };
        assert(r@ =~= default_vm_config());
        r
    }
}

/// Something the host must do for a VM to run, in the order given.
#[derive(Debug, PartialEq)]
pub enum HostAction {
    /// Set an environment variable of this process.
    SetEnv { key: String, value: String },
    /// Run the network helper; its failure is fatal.
    NetUtil(CommandSpec),
    /// Create a directory; its failure is fatal.
    CreateDir(String),
    /// Write the app's configuration, serialized, to this file; its failure
    /// is fatal.
    WriteAppConfig(String),
    /// Run a command and wait for it, whatever its exit status.
    Run(CommandSpec),
}

/// The abstract content of a `HostAction`.
pub enum HostActionView {
    SetEnv(Seq<char>, Seq<char>),
    NetUtil((Seq<char>, Seq<Seq<char>>)),
    CreateDir(Seq<char>),
    WriteAppConfig(Seq<char>),
    Run((Seq<char>, Seq<Seq<char>>)),
}

impl View for HostAction {
    type V = HostActionView;

    open spec fn view(&self) -> HostActionView {
        match self {
            HostAction::SetEnv { key, value } => HostActionView::SetEnv(key@, value@),
            HostAction::NetUtil(c) => HostActionView::NetUtil(c@),
            HostAction::CreateDir(d) => HostActionView::CreateDir(d@),
            HostAction::WriteAppConfig(f) => HostActionView::WriteAppConfig(f@),
            HostAction::Run(c) => HostActionView::Run(c@),
        }
    }
}

/// The views of a list of host actions.
pub open spec fn actions_view(v: Seq<HostAction>) -> Seq<HostActionView> {
    v.map_values(|a: HostAction| a@)
}

/// The network helper, run as `program`.
pub struct NetUtil {
    pub program: String,
}

impl NetUtil {
    /// The network helper found at `program`.
    pub fn new(program: String) -> (r: NetUtil)
        ensures
            r.program == program,
    {
        NetUtil { program }
    }

    /// The helper's command that creates the tap `tap_name` on the bridge
    /// `br_name`.
    pub fn add_netvm(&self, tap_name: &str, br_name: &str) -> (r: CommandSpec)
        ensures
            r@ == (self.program@, seq!["addtap"@, "netvm"@, tap_name@, br_name@]),
    {
        let r = CommandSpec {
            program: self.program.clone(),
            args: vec!["addtap".to_owned(), "netvm".to_owned(), tap_name.to_owned(), br_name.to_owned()],
        };
        assert(r.args.deep_view() =~= seq!["addtap"@, "netvm"@, tap_name@, br_name@]);
        r
    }

    /// The helper's command that creates the tap `tap_name` routed through
    /// the host.
    pub fn add_host(&self, tap_name: &str) -> (r: CommandSpec)
        ensures
            r@ == (self.program@, seq!["addtap"@, "host"@, tap_name@]),
    {
        let r = CommandSpec {
            program: self.program.clone(),
            args: vec!["addtap".to_owned(), "host".to_owned(), tap_name.to_owned()],
        };
        assert(r.args.deep_view() =~= seq!["addtap"@, "host"@, tap_name@]);
        r
    }

    /// What a run of the helper comes to: nothing when it succeeded, else the
    /// error `opennetutil failed with status: <status>`.
    pub fn run_outcome(&self, success: bool, status: &str) -> (r: Result<(), String>)
        ensures
            match r {
                Ok(()) => success,
                Err(m) => !success && m@ == "opennetutil failed with status: "@ + status@,
            },
    {
        if success {
            Ok(())
        } else {
            Err("opennetutil failed with status: ".to_owned().concat(status))
        }
    }

    /// The helper's command that deletes the tap `tap_name`.
    pub fn del_tap(&self, tap_name: &str) -> (r: CommandSpec)
        ensures
            r@ == (self.program@, seq!["deltap"@, tap_name@]),
    {
        let r = CommandSpec {
            program: self.program.clone(),
            args: vec!["deltap".to_owned(), tap_name.to_owned()],
        };
        assert(r.args.deep_view() =~= seq!["deltap"@, tap_name@]);
        r
    }
}


/// A network kind the manager knows how to set up.
pub open spec fn is_supported_network(n: VmNetworkConfig) -> bool {
    n.kind@ == "netvm"@ || n.kind@ == "host"@
}

/// The index of the first network from `i` on whose kind is not supported,
/// or the number of networks when there is none.
pub open spec fn supported_prefix(nets: Seq<VmNetworkConfig>, i: int) -> int
    decreases nets.len() - i,
{
    if 0 <= i < nets.len() && is_supported_network(nets[i]) {
        supported_prefix(nets, i + 1)
    } else {
        i
    }
}

/// A permission kind the manager accepts.
pub open spec fn is_known_permission(p: VmPermission) -> bool {
    p.kind@ == "sound"@
}

/// The index of the first permission from `i` on whose kind is not known,
/// or the number of permissions when there is none.
pub open spec fn known_prefix(perms: Seq<VmPermission>, i: int) -> int
    decreases perms.len() - i,
{
    if 0 <= i < perms.len() && is_known_permission(perms[i]) {
        known_prefix(perms, i + 1)
    } else {
        i
    }
}

/// The network helper's command that creates the tap of a supported
/// network: on the bridge `vmbr_<name>` for a `netvm` network, routed
/// through the host for a `host` network.
pub open spec fn network_command(netutil: Seq<char>, n: VmNetworkConfig) -> (Seq<char>, Seq<Seq<char>>) {
    if n.kind@ == "netvm"@ {
        (netutil, seq!["addtap"@, "netvm"@, n.tap_ifname@, "vmbr_"@ + n.name@])
    } else {
        (netutil, seq!["addtap"@, "host"@, n.tap_ifname@])
    }
}

/// The helper runs that create the taps of the given networks, in order.
pub open spec fn network_actions(netutil: Seq<char>, nets: Seq<VmNetworkConfig>) -> Seq<HostActionView> {
    nets.map_values(|n: VmNetworkConfig| HostActionView::NetUtil(network_command(netutil, n)))
}

/// The tap names of the given networks, in order.
pub open spec fn tap_names_of(nets: Seq<VmNetworkConfig>) -> Seq<Seq<char>> {
    nets.map_values(|n: VmNetworkConfig| n.tap_ifname@)
}

/// The host directory shared with the guest, inside the temporary
/// directory.
pub open spec fn mount_dir(temp: Seq<char>) -> Seq<char> {
    path_join(temp, "mount"@)
}

/// Where a mounted host file appears inside the shared directory.
pub open spec fn mount_point(temp: Seq<char>, m: Seq<char>) -> Seq<char> {
    path_join(mount_dir(temp), file_name(m)->0)
}

/// For each mount, in order: hard link the host file into the shared
/// directory under its own file name.
pub open spec fn mount_actions(temp: Seq<char>, mounts: Seq<Seq<char>>) -> Seq<HostActionView>
    decreases mounts.len(),
{
    if mounts.len() == 0 {
        Seq::empty()
    } else {
        let m = mounts.last();
        mount_actions(temp, mounts.drop_last()) + seq![
            HostActionView::Run(("ln"@, seq![m, mount_point(temp, m)])),
        ]
    }
}

/// The shell command that records the host's default gateway in the shared
/// directory, for the guest to find.
pub open spec fn host_ip_command(temp: Seq<char>) -> (Seq<char>, Seq<Seq<char>>) {
    (
        "sh"@,
        seq!["-c"@, "/sbin/ip route|awk '/default/ { print $3 }' > "@ + mount_dir(temp) + "/host_ip"@],
    )
}

/// The kernel command line every app VM starts with.
pub open spec fn base_kernel_params() -> Seq<Seq<char>> {
    seq!["root=/dev/vda rw"@, "init=/init"@]
}

/// The state of a VM manager that matters to what it does.
#[verifier::ext_equal]
pub struct VmmView {
    pub config: VmConfigView,
    pub tap_names: Seq<Seq<char>>,
    pub actions: Seq<HostActionView>,
}

/// Whether loading `c` gets as far as setting up the mounts: every network
/// and every permission is known.
pub open spec fn reaches_mounts(c: AppConfig) -> bool {
    supported_prefix(c.networks@, 0) == c.networks@.len() && known_prefix(c.permissions@, 0)
        == c.permissions@.len()
}

/// What loading the app configuration `c` makes of the manager's state, and
/// its outcome. The monitor's settings start again from its defaults; the
/// tap names and the host actions are added to those already there.
pub open spec fn load_outcome(
    s: VmmView,
    netutil: Seq<char>,
    kernel_path: Seq<char>,
    c: AppConfig,
    temp: Seq<char>,
    kernel_exists: bool,
) -> (VmmView, Result<(), Seq<char>>) {
    let nets = c.networks@;
    let k = supported_prefix(nets, 0);
    let created = nets.take(k);
    let cfg1 = VmConfigView {
        vcpu_count: Some(c.vcpu_count as usize),
        memory: Some(c.memory as u64),
        sandbox: Some(false),
        cid: Some(c.vm_cid as u64),
        tap_name: tap_names_of(created),
        ..default_vm_config()
    };
    let taps = s.tap_names + tap_names_of(created);
    let acts1 = s.actions + seq![HostActionView::SetEnv("VM_CID"@, decimal(c.vm_cid as nat))]
        + network_actions(netutil, created);
    if k < nets.len() {
        (
            VmmView { config: cfg1, tap_names: taps, actions: acts1 },
            Err("Unsupported network kink : "@ + nets[k].kind@),
        )
    } else {
        let perms = c.permissions@;
        let j = known_prefix(perms, 0);
        if j < perms.len() {
            (
                VmmView { config: cfg1, tap_names: taps, actions: acts1 },
                Err("Invalid permission kind : "@ + perms[j].kind@),
            )
        } else {
            let md = mount_dir(temp);
            let cfg2 = VmConfigView {
                params: base_kernel_params() + c.params.deep_view(),
                disks: seq![(c.rootfs.path@, false, false, true, 512u32)],
                gpu_parameters: Some(app_gpu_settings()),
                software_tpm: Some(false),
                display_window_keyboard: Some(true),
                display_window_mouse: Some(true),
                shared_dirs: seq![(md, "shared"@)],
                default_serial_parameters: true,
                ..cfg1
            };
            let acts2 = acts1 + seq![
                HostActionView::CreateDir(md),
                HostActionView::WriteAppConfig(md + "/app.yaml"@),
            ] + mount_actions(temp, c.mounts.deep_view()) + seq![
                HostActionView::Run(host_ip_command(temp)),
            ];
            if kernel_exists {
                (
                    VmmView {
                        config: VmConfigView { kernel: Some(kernel_path), ..cfg2 },
                        tap_names: taps,
                        actions: acts2,
                    },
                    Ok(()),
                )
            } else {
                (
                    VmmView { config: cfg2, tap_names: taps, actions: acts2 },
                    Err("kernel path does not exist on host"@),
                )
            }
        }
    }
}


/// Adds, for each network from the first on while its kind is supported, its
/// tap to `tap_names` and `config_taps` and the helper run that creates it to
/// `actions`; stops with an error at the first unsupported kind.
fn setup_networks(
    tap_names: &mut Vec<String>,
    config_taps: &mut Vec<String>,
    actions: &mut Vec<HostAction>,
    nets: &Vec<VmNetworkConfig>,
    netutil: &NetUtil,
) -> (r: Result<(), String>)
    ensures
        ({
            let k = supported_prefix(nets@, 0);
            &&& final(tap_names).deep_view() == old(tap_names).deep_view() + tap_names_of(nets@.take(k))
            &&& final(config_taps).deep_view() == old(config_taps).deep_view() + tap_names_of(nets@.take(k))
            &&& actions_view(final(actions)@) == actions_view(old(actions)@) + network_actions(
                netutil.program@,
                nets@.take(k),
            )
            &&& match r {
                Ok(()) => k == nets@.len(),
                Err(m) => k < nets@.len() && m@ == "Unsupported network kink : "@ + nets@[k].kind@,
            }
        }),
{
    let ghost n0 = old(tap_names).deep_view();
    let ghost c0 = old(config_taps).deep_view();
    let ghost a0 = actions_view(old(actions)@);
    let k = first_unsupported_network(nets);
    let mut i: usize = 0;
    while i < k
        invariant
            i <= k <= nets@.len(),
            k == supported_prefix(nets@, 0),
            forall|j: int| 0 <= j < k ==> is_supported_network(#[trigger] nets@[j]),
            tap_names.deep_view() == n0 + tap_names_of(nets@.take(i as int)),
            config_taps.deep_view() == c0 + tap_names_of(nets@.take(i as int)),
            actions_view(actions@) == a0 + network_actions(netutil.program@, nets@.take(i as int)),
        decreases k - i,
    {
        let network = &nets[i];
        let ghost nb = tap_names.deep_view();
        let ghost cb = config_taps.deep_view();
        let ghost ab = actions_view(actions@);
        assert(is_supported_network(nets@[i as int]));
        tap_names.push(network.tap_ifname.clone());
        if network.kind == "netvm".to_owned() {
            let br_name = "vmbr_".to_owned().concat(network.name.as_str());
            actions.push(HostAction::NetUtil(netutil.add_netvm(network.tap_ifname.as_str(), br_name.as_str())));
        } else {
            actions.push(HostAction::NetUtil(netutil.add_host(network.tap_ifname.as_str())));
        }
        config_taps.push(network.tap_ifname.clone());
        proof {
            let nt = nets@.take(i as int);
            let nt1 = nets@.take(i + 1);
            assert(nt1 =~= nt.push(nets@[i as int]));
            assert(tap_names_of(nt1) =~= tap_names_of(nt).push(nets@[i as int].tap_ifname@));
            assert(network_actions(netutil.program@, nt1) =~= network_actions(netutil.program@, nt).push(
                HostActionView::NetUtil(network_command(netutil.program@, nets@[i as int])),
            ));
            assert(tap_names.deep_view() =~= nb.push(nets@[i as int].tap_ifname@));
            assert(config_taps.deep_view() =~= cb.push(nets@[i as int].tap_ifname@));
            assert(actions_view(actions@) =~= ab.push(
                HostActionView::NetUtil(network_command(netutil.program@, nets@[i as int])),
            ));
        }
        i = i + 1;
    }
    if k < nets.len() {
        return Err("Unsupported network kink : ".to_owned().concat(nets[k].kind.as_str()));
    }
    Ok(())
}

/// The index of the first network whose kind is not supported, or the number
/// of networks.
fn first_unsupported_network(nets: &Vec<VmNetworkConfig>) -> (k: usize)
    ensures
        k == supported_prefix(nets@, 0),
        k <= nets@.len(),
        forall|j: int| 0 <= j < k ==> is_supported_network(#[trigger] nets@[j]),
{
    let mut i: usize = 0;
    while i < nets.len()
        invariant
            i <= nets@.len(),
            supported_prefix(nets@, 0) == supported_prefix(nets@, i as int),
            forall|j: int| 0 <= j < i ==> is_supported_network(#[trigger] nets@[j]),
        decreases nets@.len() - i,
    {
        if !(nets[i].kind == "netvm".to_owned() || nets[i].kind == "host".to_owned()) {
            return i;
        }
        i = i + 1;
    }
    i
}


/// Accepts the permissions when every kind is known, else names the first
/// unknown kind.
fn check_permissions(perms: &Vec<VmPermission>) -> (r: Result<(), String>)
    ensures
        match r {
            Ok(()) => known_prefix(perms@, 0) == perms@.len(),
            Err(m) => known_prefix(perms@, 0) < perms@.len() && m@ == "Invalid permission kind : "@
                + perms@[known_prefix(perms@, 0)].kind@,
        },
{
    let mut i: usize = 0;
    while i < perms.len()
        invariant
            i <= perms@.len(),
            known_prefix(perms@, 0) == known_prefix(perms@, i as int),
        decreases perms@.len() - i,
    {
        if !(perms[i].kind == "sound".to_owned()) {
            return Err("Invalid permission kind : ".to_owned().concat(perms[i].kind.as_str()));
        }
        i = i + 1;
    }
    Ok(())
}

/// Adds, for each mount, the hard link that puts it into the shared
/// directory.
fn push_mount_actions(actions: &mut Vec<HostAction>, temp_dir: &str, mounts: &Vec<String>)
    requires
        forall|i: int| 0 <= i < mounts@.len() ==> (#[trigger] file_name(mounts@[i]@)) is Some,
    ensures
        actions_view(final(actions)@) == actions_view(old(actions)@) + mount_actions(
            temp_dir@,
            mounts.deep_view(),
        ),
{
    let ghost a0 = actions_view(old(actions)@);
    let mount_dir = path_join_str(temp_dir, "mount");
    let mut i: usize = 0;
    while i < mounts.len()
        invariant
            i <= mounts@.len(),
            mount_dir@ == crate::vmm::mount_dir(temp_dir@),
            forall|j: int| 0 <= j < mounts@.len() ==> (#[trigger] file_name(mounts@[j]@)) is Some,
            actions_view(actions@) == a0 + mount_actions(temp_dir@, mounts.deep_view().take(i as int)),
        decreases mounts@.len() - i,
    {
        let mount = mounts[i].as_str();
        assert(file_name(mounts@[i as int]@) is Some);
        let name = path_file_name(mount);
        let ghost ab = actions_view(actions@);
        match name {
            Some(n) => {
                let mount_path = path_join_str(mount_dir.as_str(), n.as_str());
                let link = CommandSpec { program: "ln".to_owned(), args: vec![mount.to_owned(), mount_path] };
                proof {
                    let m = mounts@[i as int]@;
                    assert(link.args.deep_view() =~= seq![m, mount_point(temp_dir@, m)]);
                }
                actions.push(HostAction::Run(link));
            },
            None => {
                assert(false);
            },
        }
        proof {
            let m = mounts@[i as int]@;
            let dv = mounts.deep_view();
            assert(dv.take(i + 1).drop_last() =~= dv.take(i as int));
            assert(dv.take(i + 1).last() == m);
            assert(actions_view(actions@) =~= ab + seq![
                HostActionView::Run(("ln"@, seq![m, mount_point(temp_dir@, m)])),
            ]);
        }
        i = i + 1;
    }
    assert(mounts.deep_view().take(i as int) =~= mounts.deep_view());
}

/// Whether loading `config` gets as far as setting up its mounts: every
/// network kind is supported and every permission kind is known.
pub fn load_reaches_mounts(config: &AppConfig) -> (r: bool)
    ensures
        r == reaches_mounts(*config),
{
    first_unsupported_network(&config.networks) == config.networks.len() && check_permissions(
        &config.permissions,
    ).is_ok()
}

/// Prepares the VM of an app from its configuration.
pub trait VMM {
    /// Loads the app configuration `config` into the VM's settings, using
    /// `temp_dir` for the files the VM shares with the host;
    /// `kernel_exists` tells whether the configured kernel exists on the
    /// host.
    fn load_config(&mut self, config: &AppConfig, temp_dir: &str, kernel_exists: bool) -> Result<(), String>
        requires
            reaches_mounts(*config) ==> forall|i: int|
                0 <= i < config.mounts@.len() ==> (#[trigger] file_name(config.mounts@[i]@)) is Some,
    ;
}

/// A VM run by the crosvm monitor.
pub struct VmmCrosVm {
    /// The settings the monitor is given.
    pub config: VmConfig,
    /// The tap interfaces created for the VM, which are deleted again when
    /// the VM is cleaned up.
    pub tap_names: Vec<String>,
    /// The host configuration.
    pub vmm_config: VmmConfig,
    /// Host actions decided on and not yet carried out.
    pub actions: Vec<HostAction>,
}

impl View for VmmCrosVm {
    type V = VmmView;

    open spec fn view(&self) -> VmmView {
        VmmView {
            config: self.config@,
            tap_names: self.tap_names.deep_view(),
            actions: actions_view(self.actions@),
        }
    }
}

/// The helper runs that delete the given taps, in order.
pub open spec fn cleanup_actions(netutil: Seq<char>, taps: Seq<Seq<char>>) -> Seq<(Seq<char>, Seq<Seq<char>>)> {
    taps.map_values(|t: Seq<char>| (netutil, seq!["deltap"@, t]))
}

impl VmmCrosVm {
    /// A VM manager for the host configuration `vmm_config`, with the
    /// monitor's default settings, no taps and nothing to do.
    pub fn new(vmm_config: VmmConfig) -> (r: VmmCrosVm)
        ensures
            r@ == (VmmView { config: default_vm_config(), tap_names: Seq::empty(), actions: Seq::empty() }),
            r.vmm_config == vmm_config,
    {
        let r = VmmCrosVm { config: VmConfig::new(), tap_names: Vec::new(), vmm_config, actions: Vec::new() };
        assert(r.tap_names.deep_view() =~= Seq::<Seq<char>>::empty());
        assert(actions_view(r.actions@) =~= Seq::<HostActionView>::empty());
        r
    }

    /// Hands out the host actions decided on so far and forgets them.
    pub fn take_actions(&mut self) -> (r: Vec<HostAction>)
        ensures
            actions_view(r@) == old(self)@.actions,
            final(self)@ == (VmmView { actions: Seq::empty(), ..old(self)@ }),
            final(self).vmm_config == old(self).vmm_config,
    {
        let mut taken: Vec<HostAction> = Vec::new();
        std::mem::swap(&mut taken, &mut self.actions);
        assert(actions_view(self.actions@) =~= Seq::<HostActionView>::empty());
        taken
    }

    /// The network helper's runs that delete every tap created for the VM,
    /// in the order the taps were created.
    pub fn cleanup_commands(&self) -> (r: Vec<CommandSpec>)
        ensures
            r@.map_values(|c: CommandSpec| c@) == cleanup_actions(
                self.vmm_config.dependencies.netutil@,
                self@.tap_names,
            ),
    {
        let netutil = NetUtil::new(self.vmm_config.dependencies.netutil.clone());
        let mut r: Vec<CommandSpec> = Vec::new();
        let mut i: usize = 0;
        while i < self.tap_names.len()
            invariant
                i <= self.tap_names@.len(),
                netutil.program@ == self.vmm_config.dependencies.netutil@,
                r@.map_values(|c: CommandSpec| c@) == cleanup_actions(
                    self.vmm_config.dependencies.netutil@,
                    self.tap_names.deep_view().take(i as int),
                ),
            decreases self.tap_names@.len() - i,
        {
            let ghost rb = r@.map_values(|c: CommandSpec| c@);
            let c = netutil.del_tap(self.tap_names[i].as_str());
            r.push(c);
            proof {
                let tv = self.tap_names.deep_view();
                assert(tv.take(i + 1) =~= tv.take(i as int).push(self.tap_names@[i as int]@));
                assert(r@.map_values(|c: CommandSpec| c@) =~= rb.push(c@));
                assert(cleanup_actions(self.vmm_config.dependencies.netutil@, tv.take(i + 1))
                    =~= cleanup_actions(self.vmm_config.dependencies.netutil@, tv.take(i as int)).push(
                    c@,
                ));
            }
            i = i + 1;
        }
        assert(self.tap_names.deep_view().take(i as int) =~= self@.tap_names);
        r
    }
}


impl VMM for VmmCrosVm {
    /// The monitor's settings start again from its defaults and receive the
    /// VM's size, identity, taps, disk, kernel command line, GPU, input and
    /// shared directory; the host actions are queued in `actions`. The
    /// first unsupported network kind, the first unknown permission kind, or
    /// a missing kernel stops it with an error.
    fn load_config(&mut self, config: &AppConfig, temp_dir: &str, kernel_exists: bool) -> (r: Result<
        (),
        String,
    >)
        ensures
            final(self).vmm_config == old(self).vmm_config,
            final(self)@ == load_outcome(
                old(self)@,
                old(self).vmm_config.dependencies.netutil@,
                old(self).vmm_config.app.kernel_path@,
                *config,
                temp_dir@,
                kernel_exists,
            ).0,
            (match r {
                Ok(()) => Ok(()),
                Err(m) => Err(m@),
            }) == load_outcome(
                old(self)@,
                old(self).vmm_config.dependencies.netutil@,
                old(self).vmm_config.app.kernel_path@,
                *config,
                temp_dir@,
                kernel_exists,
            ).1,
            final(self)@.actions.len() > old(self)@.actions.len(),
            final(self)@.actions.take(old(self)@.actions.len() as int) == old(self)@.actions,
            final(self)@.actions[old(self)@.actions.len() as int] == HostActionView::SetEnv(
                "VM_CID"@,
                decimal(config.vm_cid as nat),
            ),
            final(self)@.config.cid == Some(config.vm_cid as u64),
            reaches_mounts(*config) ==> final(self)@.config.params == seq![
                "root=/dev/vda rw"@,
                "init=/init"@,
            ] + config.params.deep_view(),
            r is Ok ==> reaches_mounts(*config),
    {
        proof {
            let netutil = self.vmm_config.dependencies.netutil@;
            let kernel_path = self.vmm_config.app.kernel_path@;
            lemma_load_announces_cid(self@, netutil, kernel_path, *config, temp_dir@, kernel_exists);
            lemma_load_kernel_command_line(self@, netutil, kernel_path, *config, temp_dir@, kernel_exists);
            lemma_load_succeeds_iff(self@, netutil, kernel_path, *config, temp_dir@, kernel_exists);
            if reaches_mounts(*config) {
                let p = load_outcome(self@, netutil, kernel_path, *config, temp_dir@, kernel_exists).0.config.params;
                assert(p =~= seq!["root=/dev/vda rw"@, "init=/init"@] + config.params.deep_view());
            }
        }
        self.config = VmConfig::new();
        self.config.vcpu_count = Some(config.vcpu_count as usize);
        self.config.memory = Some(config.memory as u64);
        self.config.sandbox = Some(false);
        self.config.cid = Some(config.vm_cid as u64);
        let cid_text = usize_to_decimal(config.vm_cid as usize);
        let ghost a_start = actions_view(self.actions@);
        self.actions.push(HostAction::SetEnv { key: "VM_CID".to_owned(), value: cid_text });
        assert(actions_view(self.actions@) =~= a_start.push(
            HostActionView::SetEnv("VM_CID"@, decimal(config.vm_cid as nat)),
        ));
        let netutil = NetUtil::new(self.vmm_config.dependencies.netutil.clone());
        let networks = setup_networks(
            &mut self.tap_names,
            &mut self.config.tap_name,
            &mut self.actions,
            &config.networks,
            &netutil,
        );
        assert(self.config.tap_name.deep_view() =~= tap_names_of(
            config.networks@.take(supported_prefix(config.networks@, 0)),
        ));
        if let Err(m) = networks {
            return Err(m);
        }
        if let Err(m) = check_permissions(&config.permissions) {
            return Err(m);
        }
        assert(self.config@.disks.len() == 0);
        self.config.disks.push(
            DiskSpec {
                path: config.rootfs.path.clone(),
                read_only: false,
                o_direct: false,
                sparse: true,
                block_size: 512,
            },
        );
        assert(self.config.disks@.len() == 1);
        assert(self.config@.disks =~= seq![(config.rootfs.path@, false, false, true, 512u32)]);
        self.config.params.push("root=/dev/vda rw".to_owned());
        self.config.params.push("init=/init".to_owned());
        let ghost snap = self@;
        let mut i: usize = 0;
        while i < config.params.len()
            invariant
                i <= config.params@.len(),
                self@ == (VmmView { config: VmConfigView { params: self@.config.params, ..snap.config }, ..snap }),
                self.vmm_config == old(self).vmm_config,
                self.config.params.deep_view() == base_kernel_params() + config.params.deep_view().take(
                    i as int,
                ),
            decreases config.params@.len() - i,
        {
            let ghost pb = self.config.params.deep_view();
            self.config.params.push(config.params[i].clone());
            assert(self.config.params.deep_view() =~= pb.push(config.params@[i as int]@));
            assert(config.params.deep_view().take(i + 1) =~= config.params.deep_view().take(
                i as int,
            ).push(config.params@[i as int]@));
            i = i + 1;
        }
        assert(config.params.deep_view().take(i as int) =~= config.params.deep_view());
        self.config.gpu_parameters = make_gpu_parameters();
        self.config.software_tpm = Some(false);
        self.config.display_window_keyboard = Some(true);
        self.config.display_window_mouse = Some(true);
        let mount_dir = path_join_str(temp_dir, "mount");
        let ghost a_mid = actions_view(self.actions@);
        self.actions.push(HostAction::CreateDir(mount_dir.clone()));
        self.actions.push(HostAction::WriteAppConfig(mount_dir.clone().concat("/app.yaml")));
        assert(actions_view(self.actions@) =~= a_mid + seq![
            HostActionView::CreateDir(crate::vmm::mount_dir(temp_dir@)),
            HostActionView::WriteAppConfig(crate::vmm::mount_dir(temp_dir@) + "/app.yaml"@),
        ]);
        push_mount_actions(&mut self.actions, temp_dir, &config.mounts);
        assert(self.config@.shared_dirs.len() == 0);
        self.config.shared_dirs.push(SharedDirSpec { src: mount_dir.clone(), tag: "shared".to_owned() });
        assert(self.config.shared_dirs@.len() == 1);
        assert(self.config@.shared_dirs =~= seq![(crate::vmm::mount_dir(temp_dir@), "shared"@)]);
        let host_ip = CommandSpec {
            program: "sh".to_owned(),
            args: vec![
                "-c".to_owned(),
                "/sbin/ip route|awk '/default/ { print $3 }' > ".to_owned().concat(
                    mount_dir.as_str(),
                ).concat("/host_ip"),
            ],
        };
        assert(host_ip.args.deep_view() =~= host_ip_command(temp_dir@).1);
        let ghost a_end = actions_view(self.actions@);
        self.actions.push(HostAction::Run(host_ip));
        assert(actions_view(self.actions@) =~= a_end.push(HostActionView::Run(host_ip_command(temp_dir@))));
        self.config.default_serial_parameters = true;
        assert(self.config@.disks =~= seq![(config.rootfs.path@, false, false, true, 512u32)]);
        assert(self.config@.shared_dirs =~= seq![(crate::vmm::mount_dir(temp_dir@), "shared"@)]);
        if !kernel_exists {
            return Err("kernel path does not exist on host".to_owned());
        }
        self.config.kernel = Some(self.vmm_config.app.kernel_path.clone());
        Ok(())
    }
}


/// Loading succeeds exactly when every network kind is supported, every
/// permission kind is known and the kernel exists; the kernel is handed to
/// the monitor exactly then.
pub proof fn lemma_load_succeeds_iff(
    s: VmmView,
    netutil: Seq<char>,
    kernel_path: Seq<char>,
    c: AppConfig,
    temp: Seq<char>,
    kernel_exists: bool,
)
    ensures
        ({
            let (s2, r) = load_outcome(s, netutil, kernel_path, c, temp, kernel_exists);
            &&& (r is Ok <==> reaches_mounts(c) && kernel_exists)
            &&& (r is Ok ==> s2.config.kernel == Some(kernel_path))
            &&& (r is Err ==> s2.config.kernel is None)
        }),
{
    lemma_supported_prefix_bounds(c.networks@, 0);
    lemma_known_prefix_bounds(c.permissions@, 0);
}

/// The monitor's settings after a load depend only on the app
/// configuration, the temporary directory and the kernel's presence, never
/// on the settings of an earlier load.
pub proof fn lemma_load_resets_settings(
    s1: VmmView,
    s2: VmmView,
    netutil: Seq<char>,
    kernel_path: Seq<char>,
    c: AppConfig,
    temp: Seq<char>,
    kernel_exists: bool,
)
    ensures
        load_outcome(s1, netutil, kernel_path, c, temp, kernel_exists).0.config == load_outcome(
            s2,
            netutil,
            kernel_path,
            c,
            temp,
            kernel_exists,
        ).0.config,
        load_outcome(s1, netutil, kernel_path, c, temp, kernel_exists).1 == load_outcome(
            s2,
            netutil,
            kernel_path,
            c,
            temp,
            kernel_exists,
        ).1,
{
}

/// Every tap that a load asks the network helper to create is recorded, in
/// the same order, among the taps that cleanup deletes: the `i`-th helper
/// run of the load creates the tap that the `i`-th new cleanup run deletes.
pub proof fn lemma_created_taps_are_cleaned_up(
    s: VmmView,
    netutil: Seq<char>,
    kernel_path: Seq<char>,
    c: AppConfig,
    temp: Seq<char>,
    kernel_exists: bool,
)
    ensures
        ({
            let s2 = load_outcome(s, netutil, kernel_path, c, temp, kernel_exists).0;
            let k = supported_prefix(c.networks@, 0);
            let old_taps = s.tap_names.len();
            let first_run = s.actions.len() + 1;
            &&& s2.tap_names.len() == old_taps + k
            &&& s2.tap_names.take(old_taps as int) == s.tap_names
            &&& s2.actions.len() >= first_run + k
            &&& forall|i: int|
                0 <= i < k ==> {
                    &&& #[trigger] s2.actions[first_run + i] matches HostActionView::NetUtil(cmd)
                    &&& cmd.0 == netutil
                    &&& cmd.1[0] == "addtap"@
                    &&& cmd.1[2] == s2.tap_names[old_taps + i]
                    &&& cleanup_actions(netutil, s2.tap_names)[old_taps + i] == (
                        netutil,
                        seq!["deltap"@, cmd.1[2]],
                    )
                }
        }),
{
    let s2 = load_outcome(s, netutil, kernel_path, c, temp, kernel_exists).0;
    let nets = c.networks@;
    let k = supported_prefix(nets, 0);
    lemma_supported_prefix_bounds(nets, 0);
    let created = nets.take(k);
    let old_taps = s.tap_names.len();
    let first_run = s.actions.len() + 1;
    let acts1 = s.actions + seq![HostActionView::SetEnv("VM_CID"@, decimal(c.vm_cid as nat))]
        + network_actions(netutil, created);
    assert(s2.tap_names =~= s.tap_names + tap_names_of(created));
    assert(s2.tap_names.take(old_taps as int) =~= s.tap_names);
    assert forall|i: int| 0 <= i < k implies {
        &&& #[trigger] s2.actions[first_run + i] matches HostActionView::NetUtil(cmd)
        &&& cmd.0 == netutil
        &&& cmd.1[0] == "addtap"@
        &&& cmd.1[2] == s2.tap_names[old_taps + i]
        &&& cleanup_actions(netutil, s2.tap_names)[old_taps + i] == (netutil, seq!["deltap"@, cmd.1[2]])
    } by {
        assert(s2.actions[first_run + i] == acts1[first_run + i]);
        assert(acts1[first_run + i] == network_actions(netutil, created)[i]);
        assert(created[i] == nets[i]);
        assert(s2.tap_names[old_taps + i] == nets[i].tap_ifname@);
    }
}

proof fn lemma_supported_prefix_bounds(nets: Seq<VmNetworkConfig>, i: int)
    requires
        0 <= i <= nets.len(),
    ensures
        i <= supported_prefix(nets, i) <= nets.len(),
    decreases nets.len() - i,
{
    if i < nets.len() && is_supported_network(nets[i]) {
        lemma_supported_prefix_bounds(nets, i + 1);
    }
}


proof fn lemma_known_prefix_bounds(perms: Seq<VmPermission>, i: int)
    requires
        0 <= i <= perms.len(),
    ensures
        i <= known_prefix(perms, i) <= perms.len(),
    decreases perms.len() - i,
{
    if i < perms.len() && is_known_permission(perms[i]) {
        lemma_known_prefix_bounds(perms, i + 1);
    }
}


/// The network helper accepts every command the manager sends it: the run
/// that creates a supported network's tap is read as a request for that tap
/// (on the bridge `vmbr_<name>` for a `netvm` network, through the host for
/// a `host` network), and the cleanup run as a request to delete it.
pub proof fn lemma_helper_accepts_manager_commands(netutil: Seq<char>, n: VmNetworkConfig)
    requires
        is_supported_network(n),
    ensures
        netutil_request(seq![netutil] + network_command(netutil, n).1) == (if n.kind@ == "netvm"@ {
            Ok::<(nat, Seq<char>, Seq<char>), Seq<char>>((0, n.tap_ifname@, "vmbr_"@ + n.name@))
        } else {
            Ok::<(nat, Seq<char>, Seq<char>), Seq<char>>((1, n.tap_ifname@, Seq::empty()))
        }),
        netutil_request(seq![netutil] + cleanup_actions(netutil, seq![n.tap_ifname@])[0].1) == Ok::<
            (nat, Seq<char>, Seq<char>),
            Seq<char>,
        >((2, n.tap_ifname@, Seq::empty())),
{
    reveal_strlit("addtap");
    reveal_strlit("deltap");
    reveal_strlit("netvm");
    reveal_strlit("host");
    let line = seq![netutil] + network_command(netutil, n).1;
    if n.kind@ == "netvm"@ {
        assert(line =~= seq![netutil, "addtap"@, "netvm"@, n.tap_ifname@, "vmbr_"@ + n.name@]);
    } else {
        assert(line =~= seq![netutil, "addtap"@, "host"@, n.tap_ifname@]);
        assert("host"@ != "netvm"@) by {
            assert("host"@[0] != "netvm"@[0]);
        }
    }
    let del = seq![netutil] + cleanup_actions(netutil, seq![n.tap_ifname@])[0].1;
    assert(del =~= seq![netutil, "deltap"@, n.tap_ifname@]);
    assert("deltap"@ != "addtap"@) by {
        assert("deltap"@[0] != "addtap"@[0]);
    }
}


/// The host links into the shared directory exactly the configured mounts,
/// each once and in order: the `j`-th action hard links the `j`-th mount
/// under its own file name. No other host file is put there.
pub proof fn lemma_only_configured_files_are_linked(temp: Seq<char>, mounts: Seq<Seq<char>>)
    ensures
        mount_actions(temp, mounts).len() == mounts.len(),
        forall|j: int|
            0 <= j < mounts.len() ==> #[trigger] mount_actions(temp, mounts)[j] == HostActionView::Run(
                ("ln"@, seq![mounts[j], mount_point(temp, mounts[j])]),
            ),
    decreases mounts.len(),
{
    if mounts.len() > 0 {
        let rest = mounts.drop_last();
        lemma_only_configured_files_are_linked(temp, rest);
        assert forall|j: int| 0 <= j < mounts.len() implies #[trigger] mount_actions(temp, mounts)[j]
            == HostActionView::Run(("ln"@, seq![mounts[j], mount_point(temp, mounts[j])])) by {
            if j < rest.len() {
                assert(mounts[j] == rest[j]);
            }
        }
    }
}

/// The guest finds each mounted file under the same name that the host
/// linked it under in the shared directory, and that name is the host file's
/// own.
pub proof fn lemma_guest_sees_linked_file(temp: Seq<char>, mount_base: Seq<char>, m: Seq<char>)
    requires
        file_name(m) is Some,
    ensures
        file_name(mount_point(temp, m)) == file_name(m),
        file_name(path_join(mount_base, file_name(m)->0)) == file_name(m),
{
    crate::path::lemma_mount_keeps_file_name(mount_dir(temp), m);
    crate::path::lemma_mount_keeps_file_name(mount_base, m);
}


/// Once every network and permission is accepted, the monitor's kernel
/// command line is `root=/dev/vda rw`, then `init=/init`, then each of the
/// app's parameters once, in the app's order.
pub proof fn lemma_load_kernel_command_line(
    s: VmmView,
    netutil: Seq<char>,
    kernel_path: Seq<char>,
    c: AppConfig,
    temp: Seq<char>,
    kernel_exists: bool,
)
    ensures
        reaches_mounts(c) ==> ({
            let p = load_outcome(s, netutil, kernel_path, c, temp, kernel_exists).0.config.params;
            &&& p.len() == 2 + c.params@.len()
            &&& p[0] == "root=/dev/vda rw"@
            &&& p[1] == "init=/init"@
            &&& forall|i: int| 0 <= i < c.params@.len() ==> p[2 + i] == (#[trigger] c.params@[i])@
        }),
{
    lemma_supported_prefix_bounds(c.networks@, 0);
    lemma_known_prefix_bounds(c.permissions@, 0);
    if reaches_mounts(c) {
        let p = load_outcome(s, netutil, kernel_path, c, temp, kernel_exists).0.config.params;
        assert(p == seq!["root=/dev/vda rw"@, "init=/init"@] + c.params.deep_view());
        assert forall|i: int| 0 <= i < c.params@.len() implies p[2 + i] == (#[trigger] c.params@[i])@ by {
            assert(c.params.deep_view()[i] == c.params@[i]@);
        }
    }
}

/// Every load first queues setting `VM_CID` to the app's context id written
/// in decimal, after the actions already queued; the value reads back as the
/// same id the monitor is given.
pub proof fn lemma_load_announces_cid(
    s: VmmView,
    netutil: Seq<char>,
    kernel_path: Seq<char>,
    c: AppConfig,
    temp: Seq<char>,
    kernel_exists: bool,
)
    ensures
        ({
            let s2 = load_outcome(s, netutil, kernel_path, c, temp, kernel_exists).0;
            &&& s2.actions.len() > s.actions.len()
            &&& s2.actions.take(s.actions.len() as int) == s.actions
            &&& s2.actions[s.actions.len() as int] == HostActionView::SetEnv(
                "VM_CID"@,
                decimal(c.vm_cid as nat),
            )
            &&& s2.config.cid == Some(c.vm_cid as u64)
            &&& s2.actions[s.actions.len() as int] matches HostActionView::SetEnv(_, v) && parse_unsigned(
                v,
                u64::MAX as nat,
            ) == Some(c.vm_cid as nat)
        }),
{
    let s2 = load_outcome(s, netutil, kernel_path, c, temp, kernel_exists).0;
    let n = s.actions.len() as int;
    let acts1 = s.actions + seq![HostActionView::SetEnv("VM_CID"@, decimal(c.vm_cid as nat))]
        + network_actions(netutil, c.networks@.take(supported_prefix(c.networks@, 0)));
    assert(acts1[n] == HostActionView::SetEnv("VM_CID"@, decimal(c.vm_cid as nat)));
    assert(s2.actions.len() >= acts1.len());
    assert(s2.actions[n] == acts1[n]);
    assert(s2.actions.take(n) =~= s.actions);
    crate::text::lemma_decimal_parse_roundtrip(c.vm_cid as nat, u64::MAX as nat);
}

} // verus!
