//! The host's and the apps' configuration, the places where it is found,
//! and the names it defaults to.

use vstd::prelude::*;
use vstd::string::*;
use crate::path::{file_name, path_file_name, path_join, path_join_str};
use crate::text::{decimal, usize_to_decimal};

verus! {

/// Paths of the kernel, the guest init and the guest's mount point.
#[derive(Debug, PartialEq)]
pub struct VmmConfigApp {
    pub kernel_path: String,
    pub vm_init: String,
    pub mount_base: String,
}

/// Host programs the manager runs.
#[derive(Debug, PartialEq)]
pub struct VmmDependencies {
    pub socat: String,
    pub netutil: String,
}

/// The host's global configuration.
#[derive(Debug, PartialEq)]
pub struct VmmConfig {
    pub dependencies: VmmDependencies,
    pub app: VmmConfigApp,
}

/// The root filesystem image an app's VM boots from.
#[derive(Debug, PartialEq)]
pub struct VmParentfs {
    pub format: String,
    pub name: String,
    pub version: String,
    pub path: String,
}

/// One network interface of an app's VM.
#[derive(Debug, PartialEq)]
pub struct VmNetworkConfig {
    pub kind: String,
    pub name: String,
    pub tap_ifname: String,
}

/// One permission granted to an app's VM.
#[derive(Debug, PartialEq)]
pub struct VmPermission {
    pub kind: String,
    pub value: String,
}

/// Which window of the guest is the app's main window.
#[derive(Debug, PartialEq)]
pub struct VmDisplayConfig {
    pub main_window: String,
}

/// The configuration of one app's VM.
#[derive(Debug, PartialEq)]
pub struct AppConfig {
    pub version: String,
    pub kind: String,
    pub name: String,
    pub vm_cid: u16,
    pub rootfs: VmParentfs,
    pub vcpu_count: u8,
    pub memory: u32,
    pub display: VmDisplayConfig,
    pub args: Vec<String>,
    pub mounts: Vec<String>,
    pub params: Vec<String>,
    pub networks: Vec<VmNetworkConfig>,
    pub permissions: Vec<VmPermission>,
}

/// The configuration directory used when none is given.
pub open spec fn default_config_dir() -> Seq<char> {
    seq!['.', '/', 'c', 'o', 'n', 'f', 'i', 'g']
}

/// The configuration directory: the one named by the environment when it
/// names one, else `./config`.
pub fn get_config_path(env_dir: Option<String>) -> (r: String)
    ensures
        r@ == (match env_dir {
            Some(d) => d@,
            None => default_config_dir(),
        }),
{
    match env_dir {
        Some(d) => d,
        None => {
            proof {
                reveal_strlit("./config");
            }
            "./config".to_owned()
        },
    }
}

/// Where the host configuration lies inside the configuration directory.
pub fn vmm_config_file(config_dir: &str) -> (r: String)
    ensures
        r@ == path_join(config_dir@, seq!['c', 'o', 'n', 'f', 'i', 'g', '.', 'y', 'a', 'm', 'l']),
{
    proof {
        reveal_strlit("config.yaml");
    }
    path_join_str(config_dir, "config.yaml")
}

/// Where an app's configuration lies inside the configuration directory:
/// `apps/<name>.yaml`.
pub fn app_config_file(config_dir: &str, app_name: &str) -> (r: String)
    ensures
        r@ == path_join(
            path_join(config_dir@, seq!['a', 'p', 'p', 's']),
            app_name@ + seq!['.', 'y', 'a', 'm', 'l'],
        ),
{
    proof {
        reveal_strlit("apps");
        reveal_strlit(".yaml");
    }
    let apps = path_join_str(config_dir, "apps");
    let file = app_name.to_owned().concat(".yaml");
    path_join_str(apps.as_str(), file.as_str())
}

/// Where the guest sees a mounted host file: the file's name under the
/// guest's mount base.
pub fn guest_mount_location(path: &str, vmm_config: &VmmConfig) -> (r: String)
    requires
        file_name(path@) is Some,
    ensures
        r@ == path_join(vmm_config.app.mount_base@, file_name(path@)->0),
{
    let name = path_file_name(path);
    match name {
        Some(n) => path_join_str(vmm_config.app.mount_base.as_str(), n.as_str()),
        None => {
            assert(false);
            String::new()
        },
    }
}

/// The prefix of generated tap interface names.
pub open spec fn tap_prefix() -> Seq<char> {
    seq!['v', 'm', 't', 'a', 'p']
}

/// The tap interface name built from a number: `vmtap<n>`.
pub fn tapname_for(n: u16) -> (r: String)
    ensures
        r@ == tap_prefix() + decimal(n as nat),
{
    proof {
        reveal_strlit("vmtap");
    }
    let digits = usize_to_decimal(n as usize);
    "vmtap".to_owned().concat(digits.as_str())
}

/// A uniformly random `u16` (`rand::random`); nothing is known of which.
#[verifier::external_body]
fn random_u16() -> u16 {
    rand::random::<u16>()
}

/// A tap interface name for a network that names none: `vmtap` followed by a
/// random number.
pub fn random_tapname() -> (r: String)
    ensures
        exists|n: u16| r@ == tap_prefix() + decimal(n as nat),
{
    let n = random_u16();
    tapname_for(n)
}

} // verus!
