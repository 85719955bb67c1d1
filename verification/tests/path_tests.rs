use openvmm::path::{path_file_name, path_join_str};
use std::path::{Path, PathBuf};

const PATHS: [&str; 24] = [
    "", "/", "//", ".", "..", "./", "/.", "a", "a/", "a//", "a/.", "a/./", "a/..", "/a/b",
    "/a/b/", "a/b/.", "./a", "../a", "a/./b", "/home/user/My File.txt", "dir/..hidden",
    "x/.../", "a/b/../", "\u{e9}t\u{e9}/caf\u{e9}",
];

#[test]
fn file_name_agrees_with_std() {
    for p in PATHS {
        let expected = Path::new(p).file_name().map(|n| n.to_str().unwrap().to_string());
        assert_eq!(path_file_name(p), expected, "path {:?}", p);
    }
}

#[test]
fn join_agrees_with_pathbuf_push() {
    let segs = ["", "b", "/abs", "b/c", "./x", ".."];
    for base in PATHS {
        for seg in segs {
            let mut expected = PathBuf::from(base);
            expected.push(seg);
            assert_eq!(path_join_str(base, seg), expected.to_str().unwrap(), "{:?} + {:?}", base, seg);
        }
    }
}

#[test]
fn join_examples() {
    assert_eq!(path_join_str("./config", "apps"), "./config/apps");
    assert_eq!(path_join_str("/tmp/", "mount"), "/tmp/mount");
    assert_eq!(path_join_str("/tmp", "/etc"), "/etc");
    assert_eq!(path_join_str("", "x"), "x");
}

#[test]
fn file_name_examples() {
    assert_eq!(path_file_name("/usr/bin/vlc"), Some("vlc".to_string()));
    assert_eq!(path_file_name("/usr/bin/"), Some("bin".to_string()));
    assert_eq!(path_file_name("/"), None);
    assert_eq!(path_file_name("a/.."), None);
}

#[test]
fn mount_location_keeps_the_file_name() {
    for p in PATHS {
        if let Some(name) = path_file_name(p) {
            let joined = path_join_str("/mnt", &name);
            assert_eq!(path_file_name(&joined), Some(name));
        }
    }
}
