use openvmm::config::{
    app_config_file, get_config_path, guest_mount_location, random_tapname, tapname_for, vmm_config_file,
    VmmConfig, VmmConfigApp, VmmDependencies,
};

fn vmm_config(mount_base: &str) -> VmmConfig {
    VmmConfig {
        dependencies: VmmDependencies { socat: "/usr/bin/socat".to_string(), netutil: "/usr/bin/opennetutil".to_string() },
        app: VmmConfigApp {
            kernel_path: "/boot/vmlinux".to_string(),
            vm_init: "/init".to_string(),
            mount_base: mount_base.to_string(),
        },
    }
}

#[test]
fn config_dir_defaults_to_local_config() {
    assert_eq!(get_config_path(None), "./config");
    assert_eq!(get_config_path(Some("/etc/openos".to_string())), "/etc/openos");
}

#[test]
fn config_files_lie_in_the_config_dir() {
    assert_eq!(vmm_config_file("./config"), "./config/config.yaml");
    assert_eq!(vmm_config_file("/etc/openos/"), "/etc/openos/config.yaml");
    assert_eq!(app_config_file("./config", "vlc"), "./config/apps/vlc.yaml");
    assert_eq!(app_config_file("/etc/openos", "firefox"), "/etc/openos/apps/firefox.yaml");
}

#[test]
fn guest_mount_location_uses_the_file_name() {
    let v = vmm_config("/mnt");
    assert_eq!(guest_mount_location("/home/me/movie.mkv", &v), "/mnt/movie.mkv");
    assert_eq!(guest_mount_location("relative/dir/", &v), "/mnt/dir");
    let v2 = vmm_config("/mnt/");
    assert_eq!(guest_mount_location("a.txt", &v2), "/mnt/a.txt");
}

#[test]
fn tapname_is_prefix_and_number() {
    assert_eq!(tapname_for(0), "vmtap0");
    assert_eq!(tapname_for(42), "vmtap42");
    assert_eq!(tapname_for(65535), "vmtap65535");
}

#[test]
fn random_tapname_has_the_tap_shape() {
    for _ in 0..20 {
        let name = random_tapname();
        let digits = name.strip_prefix("vmtap").expect("prefix");
        let n: u16 = digits.parse().expect("a u16");
        assert_eq!(n.to_string(), digits);
    }
}
