use vstd::prelude::*;

use crate::error::OpenError;

verus! {

/// The mask of the file-type bits inside a mode word, and the value
/// those bits take for a plain regular file, as the kernel defines them.
pub const MODE_TYPE_MASK: u32 = 0o170000;

pub const MODE_TYPE_REGULAR: u32 = 0o100000;

/// The permission bit that lets everyone write.
pub const MODE_OTHERS_WRITE: u32 = 0o000002;

/// Whether a mode word has the others-write permission bit set.
pub open spec fn mode_world_writable(mode: u32) -> bool {
    mode & MODE_OTHERS_WRITE != 0
}

/// Whether a mode word marks a plain regular file.
pub open spec fn mode_regular_file(mode: u32) -> bool {
    mode & MODE_TYPE_MASK == MODE_TYPE_REGULAR
}

/// What the opener reads from a file's status: the mode word, holding
/// the file type and the permission bits. Taken afresh after each open
/// and never retained.
pub struct FileStatus {
    pub mode: u32,
}

impl FileStatus {
    /// Whether the others-write permission bit is set.
    pub fn is_world_writable(&self) -> (r: bool)
        ensures
            r == mode_world_writable(self.mode),
    {
        self.mode & MODE_OTHERS_WRITE != 0
    }

    /// Whether the file type is a plain regular file: not a directory,
    /// symlink, FIFO, socket or device node.
    pub fn is_regular_file(&self) -> (r: bool)
        ensures
            r == mode_regular_file(self.mode),
    {
        self.mode & MODE_TYPE_MASK == MODE_TYPE_REGULAR
    }
}

/// Owns one raw file descriptor and closes it exactly once, when the
/// handle is dropped. Handles are single-owner and never duplicated:
/// every constructor returns a descriptor the kernel just handed out.
pub struct File {
    fd: i32,
}

impl File {
    /// A descriptor number the kernel can have handed out.
    pub closed spec fn wf(&self) -> bool {
        self.fd >= 0
    }

    /// Relies on nix::fcntl::open of `/` with O_RDONLY|O_PATH|O_CLOEXEC|O_DIRECTORY:
    /// a reference-only, directory-only handle on the filesystem root.
    /// On success the returned descriptor is nonnegative; on failure the
    /// OS error number is returned.
    #[verifier::external_body]
    pub(crate) fn open_root() -> (r: Result<File, i32>)
        ensures
            r matches Ok(f) ==> f.wf(),
    {
        let flags = nix::fcntl::OFlag::from_bits_truncate(
            nix::libc::O_RDONLY | nix::libc::O_PATH | nix::libc::O_CLOEXEC
                | nix::libc::O_DIRECTORY,
        );
        match nix::fcntl::open("/", flags, nix::sys::stat::Mode::empty()) {
            Ok(fd) => Ok(File { fd }),
            Err(e) => Err(e as i32),
        }
    }

    /// Relies on nix::fcntl::openat with O_RDONLY|O_PATH|O_CLOEXEC|O_NOFOLLOW|O_DIRECTORY:
    /// opens `name` relative to this handle as a reference-only handle,
    /// and the kernel itself — atomically, not as a later check — refuses
    /// a symlink or a non-directory at that name.
    #[verifier::external_body]
    pub(crate) fn openat_dir(&self, name: &[u8]) -> (r: Result<File, i32>)
        ensures
            r matches Ok(f) ==> f.wf(),
    {
        let flags = nix::fcntl::OFlag::from_bits_truncate(
            nix::libc::O_RDONLY | nix::libc::O_PATH | nix::libc::O_CLOEXEC
                | nix::libc::O_NOFOLLOW | nix::libc::O_DIRECTORY,
        );
        match nix::fcntl::openat(self.fd, name, flags, nix::sys::stat::Mode::empty()) {
            Ok(fd) => Ok(File { fd }),
            Err(e) => Err(e as i32),
        }
    }

    /// Relies on nix::fcntl::openat with O_RDONLY|O_PATH|O_CLOEXEC|O_NOFOLLOW:
    /// opens `name` relative to this handle as a reference-only handle,
    /// without following a symlink; with O_PATH a symlink itself may be
    /// opened, which the status check after this call rejects.
    #[verifier::external_body]
    pub(crate) fn openat_leaf(&self, name: &[u8]) -> (r: Result<File, i32>)
        ensures
            r matches Ok(f) ==> f.wf(),
    {
        let flags = nix::fcntl::OFlag::from_bits_truncate(
            nix::libc::O_RDONLY | nix::libc::O_PATH | nix::libc::O_CLOEXEC
                | nix::libc::O_NOFOLLOW,
        );
        match nix::fcntl::openat(self.fd, name, flags, nix::sys::stat::Mode::empty()) {
            Ok(fd) => Ok(File { fd }),
            Err(e) => Err(e as i32),
        }
    }

    /// Relies on nix::fcntl::open of `/proc/self/fd/<n>` with O_RDWR|O_CLOEXEC:
    /// reopens the very inode this handle pins, with read-write rights,
    /// without resolving any directory name again.
    #[verifier::external_body]
    pub(crate) fn reopen_read_write(&self) -> (r: Result<File, i32>)
        ensures
            r matches Ok(f) ==> f.wf(),
    {
        let fd_path = format!("/proc/self/fd/{}", self.fd);
        let flags = nix::fcntl::OFlag::from_bits_truncate(
            nix::libc::O_RDWR | nix::libc::O_CLOEXEC,
        );
        match nix::fcntl::open(fd_path.as_str(), flags, nix::sys::stat::Mode::empty()) {
            Ok(fd) => Ok(File { fd }),
            Err(e) => Err(e as i32),
        }
    }

    /// Relies on nix::sys::stat::fstat: queries the status of the open
    /// file and hands back its `st_mode` word, or the OS error number.
    #[verifier::external_body]
    fn fstat_mode(&self) -> (r: Result<u32, i32>)
    {
        match nix::sys::stat::fstat(self.fd) {
            Ok(st) => Ok(st.st_mode),
            Err(e) => Err(e as i32),
        }
    }

    /// The status snapshot of the open file. What it holds depends on
    /// the filesystem at the moment of the call, so nothing is promised
    /// of the mode word itself.
    pub fn fstat(&self) -> (r: Result<FileStatus, i32>) {
        match self.fstat_mode() {
            Ok(mode) => Ok(FileStatus { mode }),
            Err(e) => Err(e),
        }
    }

    /// Relies on nix::fcntl::fcntl with F_OFD_SETLK and a write-lock
    /// `flock` over the whole file: requests the exclusive
    /// open-file-description lock without blocking; the call fails when
    /// another open-file description holds a conflicting lock.
    #[verifier::external_body]
    pub(crate) fn try_lock_exclusive(&self) -> (r: Result<(), i32>)
    {
        let fl = nix::libc::flock {
            l_type: nix::libc::F_WRLCK as i16,
            l_whence: nix::libc::SEEK_SET as i16,
            l_start: 0,
            l_len: 0,
            l_pid: 0,
        };
        match nix::fcntl::fcntl(self.fd, nix::fcntl::FcntlArg::F_OFD_SETLK(&fl)) {
            Ok(_) => Ok(()),
            Err(e) => Err(e as i32),
        }
    }

    /// Take the exclusive open-file-description lock, without blocking
    /// and without retrying. A refusal is surfaced as contention, the
    /// one failure the locking step distinguishes; the lock is released
    /// when this handle's descriptor is closed, with no separate unlock.
    pub fn lock(&self) -> (r: Result<(), OpenError>)
        ensures
            r matches Err(e) ==> e is LockContended,
    {
        match self.try_lock_exclusive() {
            Ok(_) => Ok(()),
            Err(_) => Err(OpenError::LockContended),
        }
    }

    /// Relies on nix::unistd::write: writes bytes of `data` from `from`
    /// on, and reports how many the kernel accepted — never more than
    /// were offered.
    #[verifier::external_body]
    pub(crate) fn write_from(&self, data: &[u8], from: usize) -> (r: Result<usize, i32>)
        requires
            from <= data@.len(),
        ensures
            r matches Ok(n) ==> from + n <= data@.len(),
    {
        match nix::unistd::write(self.fd, &data[from..]) {
            Ok(n) => Ok(n),
            Err(e) => Err(e as i32),
        }
    }
}

impl Drop for File {
    /// Relies on nix::unistd::close: releases the descriptor, and with
    /// it any open-file-description lock held through it.
    #[verifier::external_body]
    fn drop(&mut self)
        opens_invariants none
        no_unwind
    {
        let _ = nix::unistd::close(self.fd);
    }
}

} // verus!
