//! Resolving a path to its mount.

use fs_quota::error::FqError;
use fs_quota::mtab::{read_mtab, MountRecord};
use fs_quota::resolve::{resolve, resolve_index};

fn mount(device: &str, directory: &str) -> MountRecord {
    MountRecord {
        host: None,
        device: device.to_string(),
        directory: directory.to_string(),
        filesystem_type: "ext4".to_string(),
    }
}

#[test]
fn the_longest_mount_point_wins() {
    let mounts = vec![mount("root", "/"), mount("home", "/home"), mount("user", "/home/user")];
    assert_eq!(resolve_index(&mounts, "/home/user/file"), Some(2));
    assert_eq!(resolve_index(&mounts, "/home/other"), Some(1));
    assert_eq!(resolve_index(&mounts, "/etc"), Some(0));
    assert_eq!(resolve(&mounts, "/home/user/file").unwrap().device, "user");
    assert_eq!(resolve(&mounts, "/home/other").unwrap().device, "home");
    assert_eq!(resolve(&mounts, "/etc").unwrap().device, "root");
}

#[test]
fn the_order_of_the_table_does_not_decide_between_lengths() {
    let mounts = vec![mount("user", "/home/user"), mount("home", "/home"), mount("root", "/")];
    assert_eq!(resolve_index(&mounts, "/home/user/file"), Some(0));
    assert_eq!(resolve_index(&mounts, "/home/other"), Some(1));
    assert_eq!(resolve_index(&mounts, "/etc"), Some(2));
}

#[test]
fn a_later_mount_shadows_an_earlier_one_on_the_same_directory() {
    let mounts = vec![mount("first", "/mnt"), mount("root", "/"), mount("second", "/mnt")];
    assert_eq!(resolve_index(&mounts, "/mnt/data"), Some(2));
    assert_eq!(resolve(&mounts, "/mnt/data").unwrap().device, "second");
    let mounts = vec![mount("a", "/"), mount("b", "/"), mount("c", "/")];
    assert_eq!(resolve_index(&mounts, "/anything"), Some(2));
}

#[test]
fn the_mount_point_itself_is_covered() {
    let mounts = vec![mount("root", "/"), mount("home", "/home")];
    assert_eq!(resolve_index(&mounts, "/home"), Some(1));
    assert_eq!(resolve_index(&mounts, "/"), Some(0));
}

#[test]
fn a_path_shorter_than_the_mount_point_is_not_covered() {
    let mounts = vec![mount("home", "/home/user")];
    assert_eq!(resolve_index(&mounts, "/home"), None);
    assert_eq!(resolve_index(&mounts, "/home/use"), None);
}

#[test]
fn coverage_is_decided_character_by_character() {
    let mounts = vec![mount("nfs", "/mnt/nfs")];
    assert_eq!(resolve_index(&mounts, "/mnt/nfs/data"), Some(0));
    assert_eq!(resolve_index(&mounts, "/mnt/nfs2"), Some(0));
    assert_eq!(resolve_index(&mounts, "/mnt/nf"), None);
    assert_eq!(resolve_index(&mounts, "/mnt/NFS"), None);
}

#[test]
fn no_covering_mount_is_unsupported() {
    let mounts = vec![mount("home", "/home"), mount("srv", "/srv")];
    assert_eq!(resolve(&mounts, "/etc/passwd"), Err(FqError::Unsupported));
    assert_eq!(resolve(&mounts, ""), Err(FqError::Unsupported));
    assert_eq!(resolve(&Vec::new(), "/"), Err(FqError::Unsupported));
    assert_eq!(resolve_index(&Vec::new(), "/"), None);
}

#[test]
fn lengths_are_counted_in_characters() {
    // "/é" is two characters and three bytes, "/ab" three characters and
    // three bytes; both cover nothing in common, so bytes cannot mislead.
    let mounts = vec![mount("accent", "/é"), mount("root", "/")];
    assert_eq!(resolve_index(&mounts, "/é/file"), Some(0));
    assert_eq!(resolve_index(&mounts, "/e/file"), Some(1));
}

#[test]
fn resolution_follows_the_table_as_read() {
    let mounts = read_mtab(
        "/dev/sda1 / ext4 rw\n/dev/sda2 /home ext4 rw\nfs:/h /home nfs rw\n/dev/sda3 /var xfs rw\n",
    );
    assert_eq!(resolve(&mounts, "/home/user").unwrap().device, "/h");
    assert_eq!(resolve(&mounts, "/var/log").unwrap().device, "/dev/sda3");
    assert_eq!(resolve(&mounts, "/usr").unwrap().device, "/dev/sda1");
}
