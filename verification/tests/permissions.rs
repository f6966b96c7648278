use fs_operations_core::common::FsError;
use fs_operations_core::host::{HostCall, Platform};
use fs_operations_core::permissions::{
    build_unix_mode, get_permissions, set_permissions, set_permissions_detailed,
    set_permissions_generic, set_permissions_unix, set_permissions_windows, split_unix_mode,
    supports_unix_permissions, PermissionFlags, PermissionReading, ACCESS_MASK, GROUP_ALL,
    GROUP_EXEC, GROUP_READ, GROUP_WRITE, MODE_600, MODE_644, MODE_755, MODE_777, OTHERS_ALL,
    OTHERS_EXEC, OTHERS_READ, OTHERS_WRITE, OWNER_ALL, OWNER_EXEC, OWNER_READ, OWNER_WRITE,
    PERMISSION_MASK, READ_ONLY_MODE, WRITABLE_MODE,
};

fn flags(read: bool, write: bool, execute: bool) -> PermissionFlags {
    PermissionFlags { read, write, execute }
}

#[test]
fn test_permission_platform_support() {
    assert!(supports_unix_permissions(Platform::Unix));
    assert!(!supports_unix_permissions(Platform::Windows));
}

#[test]
fn other_platforms_have_no_unix_permissions() {
    assert!(!supports_unix_permissions(Platform::Other));
}

#[test]
fn constants_have_their_octal_values() {
    assert_eq!(OWNER_READ | OWNER_WRITE | OWNER_EXEC, OWNER_ALL);
    assert_eq!(GROUP_READ | GROUP_WRITE | GROUP_EXEC, GROUP_ALL);
    assert_eq!(OTHERS_READ | OTHERS_WRITE | OTHERS_EXEC, OTHERS_ALL);
    assert_eq!(OWNER_ALL | GROUP_ALL | OTHERS_ALL, MODE_777);
    assert_eq!(MODE_755, 493);
    assert_eq!(MODE_644, 420);
    assert_eq!(MODE_600, 384);
    assert_eq!(ACCESS_MASK, 0o777);
    assert_eq!(PERMISSION_MASK, 0o7777);
    assert_eq!(READ_ONLY_MODE, 0o444);
    assert_eq!(WRITABLE_MODE, 0o666);
}

#[test]
fn build_common_modes() {
    let rwx = flags(true, true, true);
    let rx = flags(true, false, true);
    let rw = flags(true, true, false);
    let r = flags(true, false, false);
    let none = flags(false, false, false);
    assert_eq!(build_unix_mode(&rwx, &rx, &rx), 0o755);
    assert_eq!(build_unix_mode(&rw, &r, &r), 0o644);
    assert_eq!(build_unix_mode(&rw, &none, &none), 0o600);
    assert_eq!(build_unix_mode(&rwx, &rwx, &rwx), 0o777);
    assert_eq!(build_unix_mode(&none, &none, &none), 0);
}

#[test]
fn build_single_bits() {
    let none = flags(false, false, false);
    assert_eq!(build_unix_mode(&flags(true, false, false), &none, &none), 0o400);
    assert_eq!(build_unix_mode(&flags(false, true, false), &none, &none), 0o200);
    assert_eq!(build_unix_mode(&flags(false, false, true), &none, &none), 0o100);
    assert_eq!(build_unix_mode(&none, &flags(true, false, false), &none), 0o040);
    assert_eq!(build_unix_mode(&none, &flags(false, true, false), &none), 0o020);
    assert_eq!(build_unix_mode(&none, &flags(false, false, true), &none), 0o010);
    assert_eq!(build_unix_mode(&none, &none, &flags(true, false, false)), 0o004);
    assert_eq!(build_unix_mode(&none, &none, &flags(false, true, false)), 0o002);
    assert_eq!(build_unix_mode(&none, &none, &flags(false, false, true)), 0o001);
}

#[test]
fn split_common_modes() {
    assert_eq!(
        split_unix_mode(0o754),
        (flags(true, true, true), flags(true, false, true), flags(true, false, false))
    );
    assert_eq!(
        split_unix_mode(0o021),
        (flags(false, false, false), flags(false, true, false), flags(false, false, true))
    );
}

#[test]
fn split_ignores_the_bits_above() {
    assert_eq!(split_unix_mode(0o100644), split_unix_mode(0o644));
    assert_eq!(split_unix_mode(0o4755), split_unix_mode(0o755));
}

#[test]
fn build_and_split_are_inverse_on_every_mode() {
    for mode in 0..=0o777u32 {
        let (owner, group, others) = split_unix_mode(mode);
        assert_eq!(build_unix_mode(&owner, &group, &others), mode);
    }
    for mode in [0o7777u32, 0o100644, u32::MAX] {
        let (owner, group, others) = split_unix_mode(mode);
        assert_eq!(build_unix_mode(&owner, &group, &others), mode & 0o777);
    }
}

#[test]
fn set_permissions_on_unix_applies_every_bit() {
    assert_eq!(
        set_permissions(Platform::Unix, "/tmp/f", 0o4755),
        HostCall::SetMode { path: b"/tmp/f".to_vec(), mode: 0o4755 }
    );
    assert_eq!(
        set_permissions_unix("/tmp/f", 0),
        HostCall::SetMode { path: b"/tmp/f".to_vec(), mode: 0 }
    );
}

#[test]
fn set_permissions_elsewhere_looks_at_owner_write_only() {
    for platform in [Platform::Windows, Platform::Other] {
        for mode in [0o200u32, 0o644, 0o777, 0o222, 0o7277] {
            assert_eq!(
                set_permissions(platform, "f", mode),
                HostCall::SetReadonly { path: b"f".to_vec(), readonly: false }
            );
        }
        for mode in [0u32, 0o444, 0o555, 0o577, 0o7577] {
            assert_eq!(
                set_permissions(platform, "f", mode),
                HostCall::SetReadonly { path: b"f".to_vec(), readonly: true }
            );
        }
    }
    assert_eq!(
        set_permissions_windows("f", 0o600),
        HostCall::SetReadonly { path: b"f".to_vec(), readonly: false }
    );
    assert_eq!(
        set_permissions_generic("f", 0o400),
        HostCall::SetReadonly { path: b"f".to_vec(), readonly: true }
    );
}

#[test]
fn detailed_permissions_on_unix() {
    let call = set_permissions_detailed(
        Platform::Unix,
        "/tmp/f",
        flags(true, true, false),
        flags(true, false, false),
        flags(false, false, false),
    );
    assert_eq!(call, Ok(HostCall::SetMode { path: b"/tmp/f".to_vec(), mode: 0o640 }));
}

#[test]
fn detailed_permissions_elsewhere_are_unsupported() {
    let all = flags(true, true, true);
    assert_eq!(
        set_permissions_detailed(Platform::Windows, "/tmp/f", all, all, all),
        Err(FsError::UnsupportedPlatform)
    );
    assert_eq!(
        set_permissions_detailed(Platform::Other, "/tmp/f", all, all, all),
        Err(FsError::UnsupportedPlatform)
    );
}

#[test]
fn get_permissions_reports_the_permission_bits_of_the_mode_word() {
    // A regular file, a directory and a symbolic link with their type bits.
    assert_eq!(get_permissions(Ok(PermissionReading::Mode(0o100644))), Ok(0o644));
    assert_eq!(get_permissions(Ok(PermissionReading::Mode(0o040755))), Ok(0o755));
    assert_eq!(get_permissions(Ok(PermissionReading::Mode(0o120777))), Ok(0o777));
    assert_eq!(get_permissions(Ok(PermissionReading::Mode(0o644))), Ok(0o644));
    assert_eq!(get_permissions(Ok(PermissionReading::Mode(0))), Ok(0));
    assert_eq!(get_permissions(Ok(PermissionReading::Mode(u32::MAX))), Ok(0o7777));
}

#[test]
fn get_permissions_keeps_set_id_and_sticky_bits() {
    assert_eq!(get_permissions(Ok(PermissionReading::Mode(0o104755))), Ok(0o4755));
    assert_eq!(get_permissions(Ok(PermissionReading::Mode(0o041777))), Ok(0o1777));
}

#[test]
fn get_permissions_reports_two_values_for_read_only() {
    assert_eq!(get_permissions(Ok(PermissionReading::ReadOnly(true))), Ok(0o444));
    assert_eq!(get_permissions(Ok(PermissionReading::ReadOnly(false))), Ok(0o666));
}

#[test]
fn get_permissions_passes_the_failure_on() {
    assert_eq!(
        get_permissions(Err(FsError::NotFound("gone".to_string()))),
        Err(FsError::NotFound("gone".to_string()))
    );
}
