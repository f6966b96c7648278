//! The permission adapter: one numeric mode mapped onto the permission model
//! of the platform.
//!
//! On a POSIX-like platform the mode is applied bit for bit. Elsewhere only
//! the owner-write bit is looked at and becomes the read-only attribute, and
//! a read can report two values only.

use crate::common::{FsError, FsErrorView, FsResult};
use crate::host::{HostCall, HostCallView, Platform};
use vstd::prelude::*;
use vstd::string::*;
use vstd::utf8::*;

verus! {

pub const OWNER_READ: u32 = 0o400;

pub const OWNER_WRITE: u32 = 0o200;

pub const OWNER_EXEC: u32 = 0o100;

pub const OWNER_ALL: u32 = 0o700;

pub const GROUP_READ: u32 = 0o040;

pub const GROUP_WRITE: u32 = 0o020;

pub const GROUP_EXEC: u32 = 0o010;

pub const GROUP_ALL: u32 = 0o070;

pub const OTHERS_READ: u32 = 0o004;

pub const OTHERS_WRITE: u32 = 0o002;

pub const OTHERS_EXEC: u32 = 0o001;

pub const OTHERS_ALL: u32 = 0o007;

/// rwxr-xr-x
pub const MODE_755: u32 = 0o755;

/// rw-r--r--
pub const MODE_644: u32 = 0o644;

/// rw-------
pub const MODE_600: u32 = 0o600;

/// rwxrwxrwx
pub const MODE_777: u32 = 0o777;

/// The nine read, write and execute bits.
pub const ACCESS_MASK: u32 = 0o777;

/// The bits that a POSIX-like platform keeps as the permissions of a file:
/// the nine access bits with set-user-id, set-group-id and sticky.
pub const PERMISSION_MASK: u32 = 0o7777;

/// What a read reports for a file with the read-only attribute.
pub const READ_ONLY_MODE: u32 = 0o444;

/// What a read reports for a file without the read-only attribute.
pub const WRITABLE_MODE: u32 = 0o666;

/// Read, write and execute permission for one class of users.
#[derive(Clone, Copy, Debug, PartialEq, Eq, Structural)]
pub struct PermissionFlags {
    pub read: bool,
    pub write: bool,
    pub execute: bool,
}

impl PermissionFlags {
    /// The flags as an octal digit: 4 for read, 2 for write, 1 for execute.
    pub open spec fn digit(self) -> nat {
        ((if self.read { 4nat } else { 0nat }) + (if self.write { 2nat } else { 0nat }) + (
        if self.execute {
            1nat
        } else {
            0nat
        })) as nat
    }
}

/// The mode whose three octal digits are the flags of owner, group and
/// others.
pub open spec fn unix_mode(
    owner: PermissionFlags,
    group: PermissionFlags,
    others: PermissionFlags,
) -> nat {
    64 * owner.digit() + 8 * group.digit() + others.digit()
}

spec fn with_bit(mode: u32, on: bool, bit: u32) -> u32 {
    if on {
        mode | bit
    } else {
        mode
    }
}

proof fn lemma_packed_bits(
    a: bool,
    b: bool,
    c: bool,
    d: bool,
    e: bool,
    f: bool,
    g: bool,
    h: bool,
    i: bool,
)
    by (bit_vector)
    ensures
        with_bit(
            with_bit(
                with_bit(
                    with_bit(
                        with_bit(
                            with_bit(
                                with_bit(with_bit(with_bit(0u32, a, 0o400u32), b, 0o200u32), c, 0o100u32),
                                d,
                                0o040u32,
                            ),
                            e,
                            0o020u32,
                        ),
                        f,
                        0o010u32,
                    ),
                    g,
                    0o004u32,
                ),
                h,
                0o002u32,
            ),
            i,
            0o001u32,
        ) == (if a { 0o400u32 } else { 0u32 }) + (if b { 0o200u32 } else { 0u32 }) + (if c {
            0o100u32
        } else {
            0u32
        }) + (if d { 0o040u32 } else { 0u32 }) + (if e { 0o020u32 } else { 0u32 }) + (if f {
            0o010u32
        } else {
            0u32
        }) + (if g { 0o004u32 } else { 0u32 }) + (if h { 0o002u32 } else { 0u32 }) + (if i {
            0o001u32
        } else {
            0u32
        }),
{
}

/// Packs the flags of owner, group and others into a numeric mode.
pub fn build_unix_mode(
    owner: &PermissionFlags,
    group: &PermissionFlags,
    others: &PermissionFlags,
) -> (mode: u32)
    ensures
        mode == unix_mode(*owner, *group, *others),
        mode <= 0o777,
{
    let mut mode: u32 = 0;
    if owner.read {
        mode |= 0o400;
    }
    if owner.write {
        mode |= 0o200;
    }
    if owner.execute {
        mode |= 0o100;
    }
    if group.read {
        mode |= 0o040;
    }
    if group.write {
        mode |= 0o020;
    }
    if group.execute {
        mode |= 0o010;
    }
    if others.read {
        mode |= 0o004;
    }
    if others.write {
        mode |= 0o002;
    }
    if others.execute {
        mode |= 0o001;
    }
    proof {
        lemma_packed_bits(
            owner.read,
            owner.write,
            owner.execute,
            group.read,
            group.write,
            group.execute,
            others.read,
            others.write,
            others.execute,
        );
    }
    mode
}

/// The flags that the octal digit `digit` of a mode stands for.
pub open spec fn flags_of_digit(digit: nat) -> PermissionFlags {
    PermissionFlags {
        read: (digit / 4) % 2 == 1,
        write: (digit / 2) % 2 == 1,
        execute: digit % 2 == 1,
    }
}

fn flags_from_digit(digit: u32) -> (flags: PermissionFlags)
    requires
        digit < 8,
    ensures
        flags == flags_of_digit(digit as nat),
        flags.digit() == digit,
{
    PermissionFlags {
        read: (digit / 4) % 2 == 1,
        write: (digit / 2) % 2 == 1,
        execute: digit % 2 == 1,
    }
}

/// Unpacks the nine access bits of a mode into the flags of owner, group and
/// others. Bits above them are not looked at.
pub fn split_unix_mode(mode: u32) -> (flags: (PermissionFlags, PermissionFlags, PermissionFlags))
    ensures
        flags.0 == flags_of_digit(((mode as nat) / 64) % 8),
        flags.1 == flags_of_digit(((mode as nat) / 8) % 8),
        flags.2 == flags_of_digit((mode as nat) % 8),
        unix_mode(flags.0, flags.1, flags.2) == (mode as nat) % 512,
{
    let owner = flags_from_digit((mode / 64) % 8);
    let group = flags_from_digit((mode / 8) % 8);
    let others = flags_from_digit(mode % 8);
    proof {
        lemma_octal_digits_of_mode(mode);
    }
    (owner, group, others)
}

proof fn lemma_octal_digits_of_mode(mode: u32)
    ensures
        64 * ((mode / 64) % 8) + 8 * ((mode / 8) % 8) + mode % 8 == mode % 512,
        mode & ACCESS_MASK == mode % 512,
{
    assert(64 * ((mode / 64) % 8) + 8 * ((mode / 8) % 8) + mode % 8 == mode % 512)
        by (bit_vector);
    assert(mode & 0o777u32 == mode % 512) by (bit_vector);
}

proof fn lemma_digit_of_flags(digit: nat)
    requires
        digit < 8,
    ensures
        flags_of_digit(digit).digit() == digit,
{
}

/// Packing flags and unpacking the mode gives the flags back.
pub proof fn lemma_split_of_build(
    owner: PermissionFlags,
    group: PermissionFlags,
    others: PermissionFlags,
)
    ensures
        unix_mode(owner, group, others) < 512,
        flags_of_digit((unix_mode(owner, group, others) / 64) % 8) == owner,
        flags_of_digit((unix_mode(owner, group, others) / 8) % 8) == group,
        flags_of_digit(unix_mode(owner, group, others) % 8) == others,
{
    let o = owner.digit();
    let g = group.digit();
    let t = others.digit();
    let mode = unix_mode(owner, group, others);
    lemma_digit_is_small(owner);
    lemma_digit_is_small(group);
    lemma_digit_is_small(others);
    lemma_digits_of_packed(o as u32, g as u32, t as u32);
    lemma_flags_of_own_digit(owner);
    lemma_flags_of_own_digit(group);
    lemma_flags_of_own_digit(others);
}

proof fn lemma_digit_is_small(flags: PermissionFlags)
    ensures
        flags.digit() < 8,
{
}

proof fn lemma_digits_of_packed(o: u32, g: u32, t: u32)
    requires
        o < 8,
        g < 8,
        t < 8,
    ensures
        64 * o + 8 * g + t < 512,
        ((64 * o + 8 * g + t) / 64) % 8 == o,
        ((64 * o + 8 * g + t) / 8) % 8 == g,
        (64 * o + 8 * g + t) % 8 == t,
{
    assert(o < 8 && g < 8 && t < 8 ==> {
        &&& 64 * o + 8 * g + t < 512
        &&& ((64 * o + 8 * g + t) / 64) % 8 == o
        &&& ((64 * o + 8 * g + t) / 8) % 8 == g
        &&& (64 * o + 8 * g + t) % 8 == t
    }) by (bit_vector);
}

proof fn lemma_flags_of_own_digit(flags: PermissionFlags)
    ensures
        flags_of_digit(flags.digit()) == flags,
{
}

/// Unpacking a mode and packing the flags gives the nine access bits of the
/// mode back.
pub proof fn lemma_build_of_split(mode: u32)
    ensures
        unix_mode(
            flags_of_digit(((mode as nat) / 64) % 8),
            flags_of_digit(((mode as nat) / 8) % 8),
            flags_of_digit((mode as nat) % 8),
        ) == (mode & ACCESS_MASK),
{
    lemma_octal_digits_of_mode(mode);
    lemma_digit_of_flags(((mode as nat) / 64) % 8);
    lemma_digit_of_flags(((mode as nat) / 8) % 8);
    lemma_digit_of_flags((mode as nat) % 8);
}

/// Each flag is one bit of the packed mode.
pub proof fn lemma_mode_bits(owner: PermissionFlags, group: PermissionFlags, others: PermissionFlags)
    ensures
        ({
            let mode = unix_mode(owner, group, others) as u32;
            &&& owner.read <==> mode & OWNER_READ != 0
            &&& owner.write <==> mode & OWNER_WRITE != 0
            &&& owner.execute <==> mode & OWNER_EXEC != 0
            &&& group.read <==> mode & GROUP_READ != 0
            &&& group.write <==> mode & GROUP_WRITE != 0
            &&& group.execute <==> mode & GROUP_EXEC != 0
            &&& others.read <==> mode & OTHERS_READ != 0
            &&& others.write <==> mode & OTHERS_WRITE != 0
            &&& others.execute <==> mode & OTHERS_EXEC != 0
        }),
{
    let mode = unix_mode(owner, group, others) as u32;
    assert(mode < 512);
    assert(mode < 512 ==> {
        &&& (mode & 0o400u32 != 0 <==> (mode / 256) % 2 == 1)
        &&& (mode & 0o200u32 != 0 <==> (mode / 128) % 2 == 1)
        &&& (mode & 0o100u32 != 0 <==> (mode / 64) % 2 == 1)
        &&& (mode & 0o040u32 != 0 <==> (mode / 32) % 2 == 1)
        &&& (mode & 0o020u32 != 0 <==> (mode / 16) % 2 == 1)
        &&& (mode & 0o010u32 != 0 <==> (mode / 8) % 2 == 1)
        &&& (mode & 0o004u32 != 0 <==> (mode / 4) % 2 == 1)
        &&& (mode & 0o002u32 != 0 <==> (mode / 2) % 2 == 1)
        &&& (mode & 0o001u32 != 0 <==> mode % 2 == 1)
    }) by (bit_vector);
}

/// Tells whether the platform has POSIX-style permissions in full.
pub fn supports_unix_permissions(platform: Platform) -> (supported: bool)
    ensures
        supported == (platform is Unix),
{
    match platform {
        Platform::Unix => true,
        Platform::Windows => false,
        Platform::Other => false,
    }
}

/// True when the owner may write under `mode`.
pub open spec fn owner_may_write(mode: u32) -> bool {
    mode & OWNER_WRITE != 0
}

/// The host call that applies `mode` to `path` on `platform`.
pub open spec fn permission_call(platform: Platform, path: Seq<char>, mode: u32) -> HostCallView {
    if platform is Unix {
        HostCallView::SetMode { path: encode_utf8(path), mode }
    } else {
        HostCallView::SetReadonly { path: encode_utf8(path), readonly: !owner_may_write(mode) }
    }
}

/// The call that sets the permission bits of `path` to `mode`, bit for bit.
pub fn set_permissions_unix(path: &str, mode: u32) -> (call: HostCall)
    ensures
        call@ == permission_call(Platform::Unix, path@, mode),
{
    HostCall::SetMode { path: path.as_bytes_vec(), mode }
}

/// The call that applies `mode` to `path` where a file has a read-only
/// attribute: the attribute is cleared if the owner-write bit is set, and set
/// if it is clear. Every other bit is ignored.
pub fn set_permissions_windows(path: &str, mode: u32) -> (call: HostCall)
    ensures
        call@ == permission_call(Platform::Windows, path@, mode),
{
    let readonly = (mode & 0o200) == 0;
    HostCall::SetReadonly { path: path.as_bytes_vec(), readonly }
}

/// The call that applies `mode` to `path` on a platform of which only a
/// read-only attribute is assumed.
pub fn set_permissions_generic(path: &str, mode: u32) -> (call: HostCall)
    ensures
        call@ == permission_call(Platform::Other, path@, mode),
{
    let readonly = (mode & 0o200) == 0;
    HostCall::SetReadonly { path: path.as_bytes_vec(), readonly }
}

/// The call that applies `mode` to `path` on `platform`. The call never
/// creates the path.
pub fn set_permissions(platform: Platform, path: &str, mode: u32) -> (call: HostCall)
    ensures
        call@ == permission_call(platform, path@, mode),
{
    match platform {
        Platform::Unix => set_permissions_unix(path, mode),
        Platform::Windows => set_permissions_windows(path, mode),
        Platform::Other => set_permissions_generic(path, mode),
    }
}

/// The call that gives `path` the permissions spelled out by flags, or
/// `UnsupportedPlatform` where the platform has no POSIX-style permissions.
pub open spec fn detailed_permission_call(
    platform: Platform,
    path: Seq<char>,
    owner: PermissionFlags,
    group: PermissionFlags,
    others: PermissionFlags,
) -> Result<HostCallView, FsErrorView> {
    if platform is Unix {
        Ok(
            HostCallView::SetMode {
                path: encode_utf8(path),
                mode: unix_mode(owner, group, others) as u32,
            },
        )
    } else {
        Err(FsErrorView::UnsupportedPlatform)
    }
}

/// The mathematical value of a call or the refusal to make one.
pub open spec fn call_result_view(r: FsResult<HostCall>) -> Result<HostCallView, FsErrorView> {
    match r {
        Ok(call) => Ok(call@),
        Err(e) => Err(e@),
    }
}

/// Sets permissions from flags for owner, group and others. Offered on
/// POSIX-like platforms only.
pub fn set_permissions_detailed(
    platform: Platform,
    path: &str,
    owner: PermissionFlags,
    group: PermissionFlags,
    others: PermissionFlags,
) -> (r: FsResult<HostCall>)
    ensures
        call_result_view(r) == detailed_permission_call(platform, path@, owner, group, others),
{
    if supports_unix_permissions(platform) {
        let mode = build_unix_mode(&owner, &group, &others);
        Ok(set_permissions_unix(path, mode))
    } else {
        Err(FsError::UnsupportedPlatform)
    }
}

/// What the host reads of the permissions of a path.
#[derive(Clone, Copy, Debug, PartialEq, Eq, Structural)]
pub enum PermissionReading {
    /// The mode word of a POSIX-like platform, as the host holds it: above
    /// the permission bits it may hold the file type.
    Mode(u32),
    /// The read-only attribute of any other platform.
    ReadOnly(bool),
}

/// The mode reported for a reading: the permission bits of the mode word,
/// without the file type or anything else above them, or one of two fixed
/// modes for the read-only attribute.
pub open spec fn reported_mode(reading: PermissionReading) -> u32 {
    match reading {
        PermissionReading::Mode(word) => word & PERMISSION_MASK,
        PermissionReading::ReadOnly(readonly) => if readonly {
            READ_ONLY_MODE
        } else {
            WRITABLE_MODE
        },
    }
}

/// The mathematical value of a mode or the failure to read one.
pub open spec fn mode_result_view(r: FsResult<u32>) -> Result<u32, FsErrorView> {
    match r {
        Ok(mode) => Ok(mode),
        Err(e) => Err(e@),
    }
}

/// The mode that the reading stands for, or the failure of the read.
pub open spec fn read_permissions(
    reading: Result<PermissionReading, FsErrorView>,
) -> Result<u32, FsErrorView> {
    match reading {
        Ok(r) => Ok(reported_mode(r)),
        Err(e) => Err(e),
    }
}

/// The mathematical value of a reading or the failure to take one.
pub open spec fn reading_view(r: FsResult<PermissionReading>) -> Result<
    PermissionReading,
    FsErrorView,
> {
    match r {
        Ok(reading) => Ok(reading),
        Err(e) => Err(e@),
    }
}

/// Turns what the host read of a path into a numeric mode: the permission
/// bits of a mode word and nothing above them. Where the host knows a
/// read-only attribute only, the mode is 0o444 for a read-only path and 0o666
/// for a writable one.
pub fn get_permissions(reading: FsResult<PermissionReading>) -> (r: FsResult<u32>)
    ensures
        mode_result_view(r) == read_permissions(reading_view(reading)),
{
    match reading {
        Ok(PermissionReading::Mode(word)) => Ok(word & PERMISSION_MASK),
        Ok(PermissionReading::ReadOnly(readonly)) => {
            let mode: u32 = if readonly {
                READ_ONLY_MODE
            } else {
                WRITABLE_MODE
            };
            Ok(mode)
        },
        Err(e) => Err(e),
    }
}

/// What a host that keeps what it is told reads back after `call`: the
/// permission bits that were set, below whatever else the mode word holds, or
/// the read-only attribute that was set.
pub open spec fn reads_back(call: HostCallView, reading: PermissionReading) -> bool {
    match call {
        HostCallView::SetMode { mode, .. } => reading matches PermissionReading::Mode(word)
            && word & PERMISSION_MASK == mode & PERMISSION_MASK,
        HostCallView::SetReadonly { readonly, .. } => reading == PermissionReading::ReadOnly(
            readonly,
        ),
        _ => false,
    }
}

/// Setting a mode and reading it back: on a POSIX-like platform the read
/// reports exactly the permission bits that were set, so a mode made of
/// permission bits alone comes back as it was given; elsewhere it reports
/// 0o666 if the owner-write bit was set and 0o444 if not, whatever the other
/// bits were.
pub proof fn lemma_set_then_get(
    platform: Platform,
    path: Seq<char>,
    mode: u32,
    reading: PermissionReading,
)
    requires
        reads_back(permission_call(platform, path, mode), reading),
    ensures
        platform is Unix ==> reported_mode(reading) == mode & PERMISSION_MASK,
        platform is Unix && mode <= PERMISSION_MASK ==> reported_mode(reading) == mode,
        platform is Unix ==> reported_mode(reading) & ACCESS_MASK == mode & ACCESS_MASK,
        !(platform is Unix) ==> reported_mode(reading) == (if owner_may_write(mode) {
            WRITABLE_MODE
        } else {
            READ_ONLY_MODE
        }),
{
    if platform is Unix {
        let kept = mode & PERMISSION_MASK;
        assert(kept == mode & 0o7777u32 ==> kept & 0o777u32 == mode & 0o777u32) by (bit_vector);
        assert(mode <= 0o7777u32 ==> mode & 0o7777u32 == mode) by (bit_vector);
    }
}

/// Where the platform has a read-only attribute only, two modes with the
/// same owner-write bit ask for the same call.
pub proof fn lemma_only_owner_write_counts(
    platform: Platform,
    path: Seq<char>,
    first: u32,
    second: u32,
)
    requires
        !(platform is Unix),
        owner_may_write(first) == owner_may_write(second),
    ensures
        permission_call(platform, path, first) == permission_call(platform, path, second),
{
}

} // verus!
