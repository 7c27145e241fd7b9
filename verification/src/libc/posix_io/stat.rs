//! File status as the guest's `sys/stat.h` lays it out.

use vstd::prelude::*;

verus! {

#[allow(non_camel_case_types)]
pub type dev_t = u32;

#[allow(non_camel_case_types)]
pub type mode_t = u16;

#[allow(non_camel_case_types)]
pub type nlink_t = u16;

#[allow(non_camel_case_types)]
pub type ino_t = u64;

#[allow(non_camel_case_types)]
pub type uid_t = u32;

#[allow(non_camel_case_types)]
pub type gid_t = u32;

#[allow(non_camel_case_types)]
pub type blkcnt_t = i64;

#[allow(non_camel_case_types)]
pub type blksize_t = i32;

#[allow(non_camel_case_types)]
pub type off_t = i64;

/// Mode bits of a regular file.
pub const S_IFREG: mode_t = 0o100000;

/// Mode bits of a directory.
pub const S_IFDIR: mode_t = 0o040000;

/// A point in time, in seconds and nanoseconds.
#[allow(non_camel_case_types)]
#[derive(Clone, Copy, Debug, PartialEq, Eq, Structural)]
pub struct timespec {
    pub tv_sec: i32,
    pub tv_nsec: i32,
}

/// The status of a file.
#[allow(non_camel_case_types)]
#[derive(Clone, Copy, Debug, PartialEq, Eq)]
pub struct stat {
    pub st_dev: dev_t,
    pub st_mode: mode_t,
    pub st_nlink: nlink_t,
    pub st_ino: ino_t,
    pub st_uid: uid_t,
    pub st_gid: gid_t,
    pub st_rdev: dev_t,
    pub st_atimespec: timespec,
    pub st_mtimespec: timespec,
    pub st_ctimespec: timespec,
    pub st_birthtimespec: timespec,
    pub st_size: off_t,
    pub st_blocks: blkcnt_t,
    pub st_blksize: blksize_t,
    pub st_flags: u32,
    pub st_gen: u32,
    pub st_lspare: i32,
    pub st_qspare: [u64; 2],
}

impl stat {
    /// The status in which every field is zero.
    pub open spec fn zeroed() -> stat {
        let epoch = timespec { tv_sec: 0, tv_nsec: 0 };
        stat {
            st_dev: 0,
            st_mode: 0,
            st_nlink: 0,
            st_ino: 0,
            st_uid: 0,
            st_gid: 0,
            st_rdev: 0,
            st_atimespec: epoch,
            st_mtimespec: epoch,
            st_ctimespec: epoch,
            st_birthtimespec: epoch,
            st_size: 0,
            st_blocks: 0,
            st_blksize: 0,
            st_flags: 0,
            st_gen: 0,
            st_lspare: 0,
            st_qspare: vstd::array::spec_array_fill_for_copy_type::<u64, 2>(0u64),
        }
    }
}

impl Default for stat {
    fn default() -> (s: stat)
        ensures
            s == stat::zeroed(),
    {
        let epoch = timespec { tv_sec: 0, tv_nsec: 0 };
        stat {
            st_dev: 0,
            st_mode: 0,
            st_nlink: 0,
            st_ino: 0,
            st_uid: 0,
            st_gid: 0,
            st_rdev: 0,
            st_atimespec: epoch,
            st_mtimespec: epoch,
            st_ctimespec: epoch,
            st_birthtimespec: epoch,
            st_size: 0,
            st_blocks: 0,
            st_blksize: 0,
            st_flags: 0,
            st_gen: 0,
            st_lspare: 0,
            st_qspare: [0u64; 2],
        }
    }
}

/// The kinds of file the guest's file system holds.
#[derive(Clone, Copy, Debug, PartialEq, Eq, Structural)]
pub enum FileType {
    RegularFile,
    Directory,
}

/// What the guest's file system knows about a file.
#[derive(Clone, Copy, Debug, PartialEq, Eq)]
pub struct Metadata {
    /// The kind of file.
    pub filetype: FileType,
    /// Whether the file may be read, written and executed, in that order.
    pub permissions: (bool, bool, bool),
    /// Size of the file in bytes.
    pub size: u64,
}

/// The mode bits that tell the kind of file.
pub open spec fn type_bits(filetype: FileType) -> mode_t {
    match filetype {
        FileType::RegularFile => S_IFREG,
        FileType::Directory => S_IFDIR,
    }
}

/// The permission bits of the mode for a file that may be read, written and
/// executed as given. The file system knows no groups and no other users, so
/// their bits follow the owner's: whoever may read may read, and so on,
/// except that only the owner may write a file that is also readable.
pub open spec fn permission_bits(permissions: (bool, bool, bool)) -> mode_t {
    match permissions {
        (false, false, false) => 0o000,
        (false, false, true) => 0o111,
        (false, true, false) => 0o222,
        (false, true, true) => 0o333,
        (true, false, false) => 0o444,
        (true, false, true) => 0o555,
        (true, true, false) => 0o644,
        (true, true, true) => 0o755,
    }
}

/// The status the guest sees for a file with the given metadata. A size
/// beyond the range of the guest's signed file offsets wraps around.
pub open spec fn stat_of(metadata: Metadata) -> stat {
    stat {
        st_mode: type_bits(metadata.filetype) | permission_bits(metadata.permissions),
        st_size: metadata.size as i64,
        ..stat::zeroed()
    }
}

/// Turns the file system's metadata into the guest's file status: the
/// mode holds the kind of file and its permissions, the size is the file's
/// size, and every other field is zero.
pub fn metadata_to_stat(metadata: &Metadata) -> (file_stat: stat)
    ensures
        file_stat == stat_of(*metadata),
        metadata.size <= i64::MAX ==> file_stat.st_size == metadata.size,
{
    let mut file_stat = stat::default();
    let type_bits: mode_t = match metadata.filetype {
        FileType::RegularFile => S_IFREG,
        FileType::Directory => S_IFDIR,
    };
    let permission_bits: mode_t = match metadata.permissions {
        (false, false, false) => 0o000,
        (false, false, true) => 0o111,
        (false, true, false) => 0o222,
        (false, true, true) => 0o333,
        (true, false, false) => 0o444,
        (true, false, true) => 0o555,
        (true, true, false) => 0o644,
        (true, true, true) => 0o755,
    };
    file_stat.st_mode = type_bits | permission_bits;
    file_stat.st_size = #[verifier::truncate] (metadata.size as i64);
    file_stat
}

/// What `mkdir` returns to the guest: zero if the directory was created,
/// and -1 if it was not.
pub fn mkdir_result(created: bool) -> (res: i32)
    ensures
        res == if created {
            0i32
        } else {
            -1i32
        },
{
    if created {
        0
    } else {
        -1
    }
}

/// What `stat` hands to the guest for a path: the status to write to the
/// guest's buffer and zero if the file system knows the path, and -1 with
/// nothing to write if it does not.
pub fn stat_result(metadata: Option<Metadata>) -> (res: (i32, Option<stat>))
    ensures
        res == match metadata {
            None => (-1i32, None::<stat>),
            Some(m) => (0i32, Some(stat_of(m))),
        },
{
    match metadata {
        None => (-1, None),
        Some(metadata) => (0, Some(metadata_to_stat(&metadata))),
    }
}

} // verus!
