use openvmm::config::{AppConfig, VmDisplayConfig, VmParentfs, VmmConfig, VmmConfigApp, VmmDependencies};
use openvmm::params::{
    check_app_config, check_expansion, expand_params, get_slice_limits, load_app_config, match_placeholder,
    valid_slice_limits, ParamError, PlaceholderCaptures,
};

fn strings(v: &[&str]) -> Vec<String> {
    v.iter().map(|s| s.to_string()).collect()
}

fn vmm_config() -> VmmConfig {
    VmmConfig {
        dependencies: VmmDependencies { socat: "socat".to_string(), netutil: "opennetutil".to_string() },
        app: VmmConfigApp {
            kernel_path: "/boot/vmlinux".to_string(),
            vm_init: "/init".to_string(),
            mount_base: "/mnt".to_string(),
        },
    }
}

fn app_config(args: &[&str], mounts: &[&str], params: &[&str]) -> AppConfig {
    AppConfig {
        version: "1".to_string(),
        kind: "app".to_string(),
        name: "vlc".to_string(),
        vm_cid: 7,
        rootfs: VmParentfs {
            format: "qcow2".to_string(),
            name: "root".to_string(),
            version: "1".to_string(),
            path: "/path/to/rootfs.qcow2".to_string(),
        },
        vcpu_count: 2,
        memory: 2048,
        display: VmDisplayConfig { main_window: "vlc".to_string() },
        args: strings(args),
        mounts: strings(mounts),
        params: strings(params),
        networks: Vec::new(),
        permissions: Vec::new(),
    }
}

fn captures(from: Option<&str>, to: Option<&str>) -> PlaceholderCaptures {
    PlaceholderCaptures { from: from.map(|s| s.to_string()), to: to.map(|s| s.to_string()) }
}

#[test]
fn placeholder_matching_agrees_with_the_regex() {
    let re = regex::Regex::new(r"^\$ARGS\[\s*(-?\d+)?\s*:\s*(-?\d+)?\s*\]$").unwrap();
    let inputs = [
        "$ARGS[:]", "$ARGS[1:]", "$ARGS[:2]", "$ARGS[1:2]", "$ARGS[ 1 : 2 ]", "$ARGS[\t3\u{a0}:\u{2003}]",
        "$ARGS[-1:]", "$ARGS[:-2]", "$ARGS[-:]", "$ARGS[1 2:]", "$ARGS[1:2", "$ARGS[1:2]]", "$ARGS[1:2] ",
        " $ARGS[1:2]", "$ARGS[]", "$ARGS[::]", "$ARGS[a:b]", "$ARGS[\u{663}:]", "$ARGS[+1:]", "$ARG[1:2]",
        "$MOUNTS[1:]", "ARGS[1:2]", "$ARGS[1:2]\n", "", "$", "$ARGS[", "$ARGS[:]x", "$ARGS[0012:0003]",
        "$ARGS[--1:]", "$ARGS[1-:]",
    ];
    for t in inputs {
        let expected = re.captures(t).map(|c| {
            captures(c.get(1).map(|m| m.as_str()), c.get(2).map(|m| m.as_str()))
        });
        assert_eq!(match_placeholder("ARGS", t), expected, "input {:?}", t);
    }
    let re_m = regex::Regex::new(r"^\$MOUNTS\[\s*(-?\d+)?\s*:\s*(-?\d+)?\s*\]$").unwrap();
    for t in ["$MOUNTS[1:]", "$MOUNTS[ : ]", "$ARGS[1:]", "$MOUNTS[1:2:3]"] {
        let expected = re_m.captures(t).map(|c| {
            captures(c.get(1).map(|m| m.as_str()), c.get(2).map(|m| m.as_str()))
        });
        assert_eq!(match_placeholder("MOUNTS", t), expected, "input {:?}", t);
    }
}

#[test]
fn slice_limits_default_to_the_whole_list() {
    assert_eq!(get_slice_limits(&captures(None, None), 5), (0, 5));
    assert_eq!(get_slice_limits(&captures(Some("2"), None), 5), (2, 5));
    assert_eq!(get_slice_limits(&captures(None, Some("3")), 5), (0, 3));
    assert_eq!(get_slice_limits(&captures(Some("7"), Some("1")), 5), (7, 1));
    assert_eq!(get_slice_limits(&captures(None, None), 0), (0, 0));
}

#[test]
fn negative_or_foreign_bounds_are_invalid() {
    assert!(!valid_slice_limits(&captures(Some("-1"), None), 5));
    assert!(!valid_slice_limits(&captures(None, Some("-2")), 5));
    assert!(!valid_slice_limits(&captures(Some("\u{663}"), None), 5));
    assert!(!valid_slice_limits(&captures(Some("99999999999999999999999"), None), 5));
}

#[test]
fn readme_example_expands() {
    let vmm = vmm_config();
    let config = app_config(
        &[],
        &["/path/to/openvmm/target/debug/openosguest", "$ARGS[:]"],
        &["OPENVM_LAUNCH=vlc", "$MOUNTS[1:]"],
    );
    let cli = strings(&["/home/me/a.mkv", "/home/me/b.mkv"]);
    assert_eq!(check_app_config(&config, &cli, &vmm, &vec![true, true]), Ok(()));
    let done = load_app_config(config, &cli, &vmm, &vec![true, true]);
    assert_eq!(done.args, strings(&["/home/me/a.mkv", "/home/me/b.mkv"]));
    assert_eq!(
        done.mounts,
        strings(&["/path/to/openvmm/target/debug/openosguest", "/home/me/a.mkv", "/home/me/b.mkv"])
    );
    assert_eq!(done.params, strings(&["OPENVM_LAUNCH=vlc", "/mnt/a.mkv", "/mnt/b.mkv"]));
    assert_eq!(done.name, "vlc");
    assert_eq!(done.vm_cid, 7);
}

#[test]
fn plain_params_are_unchanged() {
    let vmm = vmm_config();
    let config = app_config(&["x"], &["/m/y"], &[]);
    let params = strings(&["a", "$ARGS", "$ARGS[1:2] ", "$PATH[1:2]"]);
    assert_eq!(expand_params(&params, &config, &vmm, &vec![true]), params.clone());
}

#[test]
fn argument_ranges_select_in_order() {
    let vmm = vmm_config();
    let config = app_config(&["a0", "a1", "a2", "a3"], &[], &[]);
    let exists = vec![true; 4];
    let params = strings(&["$ARGS[1:3]", "mid", "$ARGS[ 3 : ]", "$ARGS[2:1]"]);
    assert_eq!(expand_params(&params, &config, &vmm, &exists), strings(&["a1", "a2", "mid", "a3"]));
}

#[test]
fn mount_ranges_give_guest_locations() {
    let vmm = vmm_config();
    let config = app_config(&[], &["/h/one.txt", "/h/dir/", "rel/two"], &[]);
    let params = strings(&["$MOUNTS[:]"]);
    assert_eq!(
        expand_params(&params, &config, &vmm, &vec![]),
        strings(&["/mnt/one.txt", "/mnt/dir", "/mnt/two"])
    );
}

#[test]
fn each_expansion_error_has_its_input() {
    let vmm = vmm_config();
    let config = app_config(&["a0", "a1"], &["/h/x", "/"], &[]);
    let exists = vec![true, false];
    assert_eq!(
        check_expansion(&strings(&["$ARGS[-1:]"]), &config, &vmm, &exists),
        Err(ParamError::InvalidSliceBound)
    );
    assert_eq!(
        check_expansion(&strings(&["$ARGS[0:5]"]), &config, &vmm, &vec![true, true]),
        Err(ParamError::IndexOutOfRange { index: 2, len: 2 })
    );
    assert_eq!(
        check_expansion(&strings(&["$ARGS[0:5]"]), &config, &vmm, &exists),
        Err(ParamError::MissingArgFile { index: 1 })
    );
    assert_eq!(
        check_expansion(&strings(&["$MOUNTS[:]"]), &config, &vmm, &exists),
        Err(ParamError::NoFileName { index: 1 })
    );
    assert_eq!(
        check_expansion(&strings(&["$MOUNTS[:9]"]), &config, &vmm, &exists),
        Err(ParamError::NoFileName { index: 1 })
    );
    assert_eq!(
        check_expansion(&strings(&["$MOUNTS[2:9]"]), &config, &vmm, &exists),
        Err(ParamError::IndexOutOfRange { index: 2, len: 2 })
    );
}

#[test]
fn expanding_a_concatenation_concatenates() {
    let vmm = vmm_config();
    let config = app_config(&["a0", "a1"], &["/h/x"], &[]);
    let exists = vec![true, true];
    let p1 = strings(&["$ARGS[1:]", "k"]);
    let p2 = strings(&["$MOUNTS[:]", "$ARGS[:1]"]);
    let mut both = p1.clone();
    both.extend(p2.clone());
    let mut expected = expand_params(&p1, &config, &vmm, &exists);
    expected.extend(expand_params(&p2, &config, &vmm, &exists));
    assert_eq!(expand_params(&both, &config, &vmm, &exists), expected);
}

#[test]
fn check_app_config_reports_expansion_errors() {
    let vmm = vmm_config();
    let config = app_config(&[], &["$ARGS[:]"], &[]);
    let cli = strings(&["/missing"]);
    assert_eq!(check_app_config(&config, &cli, &vmm, &vec![false]), Err(ParamError::MissingArgFile { index: 0 }));
}

#[test]
fn checks_accept_what_expands() {
    let vmm = vmm_config();
    let config = app_config(&["a0"], &["/h/x"], &["$ARGS[:]", "$MOUNTS[:]"]);
    assert_eq!(check_expansion(&config.params, &config, &vmm, &vec![true]), Ok(()));
    assert!(valid_slice_limits(&captures(Some("1"), Some("2")), 5));
    assert!(valid_slice_limits(&captures(None, None), 0));
}
