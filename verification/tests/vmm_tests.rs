use openvmm::config::{
    AppConfig, VmDisplayConfig, VmNetworkConfig, VmParentfs, VmPermission, VmmConfig, VmmConfigApp, VmmDependencies,
};
use openvmm::netutil::{parse_netutil_args, CommandSpec, NetUtilRequest};
use openvmm::vmm::{load_reaches_mounts, make_gpu_parameters, GpuMode, HostAction, NetUtil, VmConfig, VmmCrosVm, VMM};

fn strings(v: &[&str]) -> Vec<String> {
    v.iter().map(|s| s.to_string()).collect()
}

fn cmd(program: &str, args: &[&str]) -> CommandSpec {
    CommandSpec { program: program.to_string(), args: strings(args) }
}

fn vmm_config() -> VmmConfig {
    VmmConfig {
        dependencies: VmmDependencies { socat: "socat".to_string(), netutil: "/bin/opennetutil".to_string() },
        app: VmmConfigApp {
            kernel_path: "/boot/vmlinux".to_string(),
            vm_init: "/init".to_string(),
            mount_base: "/mnt".to_string(),
        },
    }
}

fn net(kind: &str, name: &str, tap: &str) -> VmNetworkConfig {
    VmNetworkConfig { kind: kind.to_string(), name: name.to_string(), tap_ifname: tap.to_string() }
}

fn app_config(networks: Vec<VmNetworkConfig>, permissions: &[&str], mounts: &[&str]) -> AppConfig {
    AppConfig {
        version: "1".to_string(),
        kind: "app".to_string(),
        name: "vlc".to_string(),
        vm_cid: 42,
        rootfs: VmParentfs {
            format: "qcow2".to_string(),
            name: "root".to_string(),
            version: "1".to_string(),
            path: "/images/root.qcow2".to_string(),
        },
        vcpu_count: 4,
        memory: 4096,
        display: VmDisplayConfig { main_window: "vlc".to_string() },
        args: Vec::new(),
        mounts: strings(mounts),
        params: strings(&["OPENVM_LAUNCH=vlc"]),
        networks,
        permissions: permissions
            .iter()
            .map(|k| VmPermission { kind: k.to_string(), value: String::new() })
            .collect(),
    }
}

#[test]
fn gpu_is_one_2d_display() {
    let g = make_gpu_parameters().unwrap();
    assert_eq!((g.display_width, g.display_height), (1920, 1080));
    assert_eq!(g.mode, GpuMode::Mode2D);
    assert!(g.renderer_use_egl && g.renderer_use_gles && g.renderer_use_surfaceless && g.gfxstream_use_syncfd);
    assert!(!g.renderer_use_glx && !g.gfxstream_use_guest_angle && !g.use_vulkan && !g.udmabuf);
}

#[test]
fn netutil_commands() {
    let n = NetUtil::new("/bin/opennetutil".to_string());
    assert_eq!(n.add_netvm("t0", "vmbr_x"), cmd("/bin/opennetutil", &["addtap", "netvm", "t0", "vmbr_x"]));
    assert_eq!(n.add_host("t1"), cmd("/bin/opennetutil", &["addtap", "host", "t1"]));
    assert_eq!(n.del_tap("t1"), cmd("/bin/opennetutil", &["deltap", "t1"]));
    assert_eq!(n.run_outcome(true, "exit status: 0"), Ok(()));
    assert_eq!(
        n.run_outcome(false, "exit status: 2"),
        Err("opennetutil failed with status: exit status: 2".to_string())
    );
}

#[test]
fn new_manager_is_empty() {
    let v = VmmCrosVm::new(vmm_config());
    assert_eq!(v.config, VmConfig::new());
    assert!(v.tap_names.is_empty() && v.actions.is_empty());
    assert!(v.cleanup_commands().is_empty());
}

#[test]
fn full_load() {
    let mut v = VmmCrosVm::new(vmm_config());
    let config = app_config(
        vec![net("netvm", "pass", "vmtap1"), net("host", "", "vmtap2")],
        &["sound"],
        &["/home/me/a.mkv"],
    );
    assert_eq!(v.load_config(&config, "/tmp/x", true), Ok(()));
    let c = &v.config;
    assert_eq!(c.vcpu_count, Some(4));
    assert_eq!(c.memory, Some(4096));
    assert_eq!(c.sandbox, Some(false));
    assert_eq!(c.cid, Some(42));
    assert_eq!(c.tap_name, strings(&["vmtap1", "vmtap2"]));
    assert_eq!(c.params, strings(&["root=/dev/vda rw", "init=/init", "OPENVM_LAUNCH=vlc"]));
    assert_eq!(c.disks.len(), 1);
    assert_eq!(c.disks[0].path, "/images/root.qcow2");
    assert!(!c.disks[0].read_only && !c.disks[0].o_direct && c.disks[0].sparse);
    assert_eq!(c.disks[0].block_size, 512);
    assert_eq!(c.gpu_parameters, make_gpu_parameters());
    assert_eq!(c.software_tpm, Some(false));
    assert_eq!(c.display_window_keyboard, Some(true));
    assert_eq!(c.display_window_mouse, Some(true));
    assert_eq!(c.shared_dirs.len(), 1);
    assert_eq!(c.shared_dirs[0].src, "/tmp/x/mount");
    assert_eq!(c.shared_dirs[0].tag, "shared");
    assert!(c.default_serial_parameters);
    assert_eq!(c.kernel, Some("/boot/vmlinux".to_string()));
    assert_eq!(v.tap_names, strings(&["vmtap1", "vmtap2"]));
    let actions = v.take_actions();
    assert_eq!(
        actions,
        vec![
            HostAction::SetEnv { key: "VM_CID".to_string(), value: "42".to_string() },
            HostAction::NetUtil(cmd("/bin/opennetutil", &["addtap", "netvm", "vmtap1", "vmbr_pass"])),
            HostAction::NetUtil(cmd("/bin/opennetutil", &["addtap", "host", "vmtap2"])),
            HostAction::CreateDir("/tmp/x/mount".to_string()),
            HostAction::WriteAppConfig("/tmp/x/mount/app.yaml".to_string()),
            HostAction::Run(cmd("ln", &["/home/me/a.mkv", "/tmp/x/mount/a.mkv"])),
            HostAction::Run(cmd("sh", &[
                "-c",
                "/sbin/ip route|awk '/default/ { print $3 }' > /tmp/x/mount/host_ip",
            ])),
        ]
    );
    assert!(v.actions.is_empty());
    assert_eq!(
        v.cleanup_commands(),
        vec![cmd("/bin/opennetutil", &["deltap", "vmtap1"]), cmd("/bin/opennetutil", &["deltap", "vmtap2"])]
    );
}

#[test]
fn unsupported_network_stops_after_earlier_taps() {
    let mut v = VmmCrosVm::new(vmm_config());
    let config = app_config(vec![net("host", "", "t1"), net("wifi", "", "t2"), net("host", "", "t3")], &[], &[]);
    assert_eq!(v.load_config(&config, "/tmp/x", true), Err("Unsupported network kink : wifi".to_string()));
    assert_eq!(v.tap_names, strings(&["t1"]));
    assert_eq!(v.config.tap_name, strings(&["t1"]));
    assert_eq!(v.config.kernel, None);
    assert_eq!(v.actions.len(), 2);
}

#[test]
fn unknown_permission_is_an_error() {
    let mut v = VmmCrosVm::new(vmm_config());
    let config = app_config(vec![], &["sound", "camera"], &[]);
    assert_eq!(v.load_config(&config, "/tmp/x", true), Err("Invalid permission kind : camera".to_string()));
    assert!(v.config.params.is_empty());
}

#[test]
fn missing_kernel_is_an_error() {
    let mut v = VmmCrosVm::new(vmm_config());
    let config = app_config(vec![], &[], &[]);
    assert_eq!(v.load_config(&config, "/tmp/x", false), Err("kernel path does not exist on host".to_string()));
    assert_eq!(v.config.kernel, None);
    assert_eq!(v.config.params.len(), 3);
}

#[test]
fn second_load_restarts_settings_but_keeps_taps() {
    let mut v = VmmCrosVm::new(vmm_config());
    let first = app_config(vec![net("host", "", "t1")], &[], &[]);
    v.load_config(&first, "/tmp/a", true).unwrap();
    let second = app_config(vec![net("host", "", "t2")], &[], &[]);
    v.load_config(&second, "/tmp/b", true).unwrap();
    assert_eq!(v.config.tap_name, strings(&["t2"]));
    assert_eq!(v.tap_names, strings(&["t1", "t2"]));
    assert_eq!(v.config.shared_dirs[0].src, "/tmp/b/mount");
}

#[test]
fn helper_accepts_the_manager_commands() {
    let mut v = VmmCrosVm::new(vmm_config());
    let config = app_config(vec![net("netvm", "pass", "vmtap1"), net("host", "", "vmtap2")], &[], &[]);
    v.load_config(&config, "/tmp/x", true).unwrap();
    let mut requests = Vec::new();
    for a in v.take_actions() {
        if let HostAction::NetUtil(c) = a {
            let mut line = vec![c.program.clone()];
            line.extend(c.args.clone());
            requests.push(parse_netutil_args(&line).unwrap());
        }
    }
    assert_eq!(
        requests,
        vec![
            NetUtilRequest::AddTapNetvm { tap: "vmtap1".to_string(), bridge: "vmbr_pass".to_string() },
            NetUtilRequest::AddTapHost { tap: "vmtap2".to_string() },
        ]
    );
    for c in v.cleanup_commands() {
        let mut line = vec![c.program.clone()];
        line.extend(c.args.clone());
        assert!(matches!(parse_netutil_args(&line), Ok(NetUtilRequest::DelTap { .. })));
    }
}

#[test]
fn mounts_are_reached_only_with_known_kinds() {
    assert!(load_reaches_mounts(&app_config(vec![net("netvm", "n", "t")], &["sound"], &[])));
    assert!(!load_reaches_mounts(&app_config(vec![net("wifi", "n", "t")], &[], &[])));
    assert!(!load_reaches_mounts(&app_config(vec![], &["camera"], &[])));
}
