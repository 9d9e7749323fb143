use vstd::prelude::*;

use crate::error::{error_component, is_traversal_error, OpenError};
use crate::fd::File;
use crate::paths::{
    all_components_allowed, bytes_of, components_of, is_absolute, is_component_of, leaf_of,
    path_ok, validate_path, views_of,
};

verus! {

/// A regular file that survived the whole validate–walk–pin–reopen–lock
/// sequence: open read-write, exclusively locked, symlink-free along
/// the path that reached it. Dropping it closes the descriptor and with
/// it releases the lock.
pub struct SafeFile {
    fd: File,
}

/// An owned copy of one path component, for carrying it in an error.
fn copy_component(c: &Vec<u8>) -> (r: Vec<u8>)
    ensures
        r@ == c@,
{
    let mut out: Vec<u8> = Vec::new();
    let mut j: usize = 0;
    while j < c.len()
        invariant
            j <= c@.len(),
            out@ == c@.take(j as int),
        decreases c@.len() - j,
    {
        out.push(c[j]);
        proof {
            assert(c@.take(j + 1) =~= c@.take(j as int).push(c@[j as int]));
        }
        j += 1;
    }
    proof {
        assert(c@.take(c@.len() as int) =~= c@);
    }
    out
}

impl SafeFile {
    /// The handle came out of the full opening sequence.
    pub closed spec fn wf(&self) -> bool {
        self.fd.wf()
    }

    /// Walk the directory components — everything between the root
    /// marker and the final component — downward from the filesystem
    /// root. Each step opens the next component relative to the current
    /// parent handle, directory-only, reference-only and non-following,
    /// refuses it if it is others-writable, and then lets the old parent
    /// handle go, so at most two directory handles are ever live.
    ///
    /// Which steps succeed depends on the filesystem at that moment;
    /// what is promised is that any failure is an open, stat or
    /// world-writability failure about the root (an empty component
    /// name) or about one of the directory components walked.
    fn walk_open_dir(dirs: &Vec<Vec<u8>>) -> (r: Result<File, OpenError>)
        requires
            dirs@.len() >= 1,
        ensures
            r matches Ok(f) ==> f.wf(),
            r matches Err(e) ==> is_traversal_error(e) && (error_component(e).len() == 0 || (
            exists|i: int| 1 <= i < dirs@.len() - 1 && error_component(e) == #[trigger] dirs@[i]@)),
    {
        let mut parent = match File::open_root() {
            Ok(f) => f,
            Err(os) => {
                return Err(OpenError::OpenFailed { component: Vec::new(), os_error: os });
            },
        };
        let mut i: usize = 1;
        while i < dirs.len() - 1
            invariant
                1 <= i <= dirs@.len(),
                parent.wf(),
            decreases dirs@.len() - i,
        {
            let next = match parent.openat_dir(dirs[i].as_slice()) {
                Ok(f) => f,
                Err(os) => {
                    let component = copy_component(&dirs[i]);
                    proof {
                        assert(component@ == dirs@[i as int]@);
                    }
                    return Err(OpenError::OpenFailed { component, os_error: os });
                },
            };
            let status = match next.fstat() {
                Ok(st) => st,
                Err(os) => {
                    let component = copy_component(&dirs[i]);
                    proof {
                        assert(component@ == dirs@[i as int]@);
                    }
                    return Err(OpenError::StatFailed { component, os_error: os });
                },
            };
            if status.is_world_writable() {
                let component = copy_component(&dirs[i]);
                proof {
                    assert(component@ == dirs@[i as int]@);
                }
                return Err(OpenError::WorldWritableDetected { component });
            }
            parent = next;
            i += 1;
        }
        Ok(parent)
    }

    /// Open the final component relative to the fully walked parent,
    /// reference-only and non-following, and refuse it unless its
    /// status shows a regular, not others-writable file; then trade the
    /// reference-only handle for a read-write one. The type is checked
    /// first, so a symlink — which always carries wide-open permission
    /// bits — or a directory, FIFO or device node is reported as
    /// `NotRegularFile`. Any failure is about the final component
    /// `name`.
    fn safe_open_file(parent: File, name: &Vec<u8>) -> (r: Result<File, OpenError>)
        requires
            parent.wf(),
        ensures
            r matches Ok(f) ==> f.wf(),
            r matches Err(e) ==> (is_traversal_error(e) || e is NotRegularFile)
                && error_component(e) == name@,
    {
        let fd = match parent.openat_leaf(name.as_slice()) {
            Ok(f) => f,
            Err(os) => {
                return Err(
                    OpenError::OpenFailed { component: copy_component(name), os_error: os },
                );
            },
        };
        let status = match fd.fstat() {
            Ok(st) => st,
            Err(os) => {
                return Err(
                    OpenError::StatFailed { component: copy_component(name), os_error: os },
                );
            },
        };
        if !status.is_regular_file() {
            return Err(OpenError::NotRegularFile { component: copy_component(name) });
        }
        if status.is_world_writable() {
            return Err(OpenError::WorldWritableDetected { component: copy_component(name) });
        }
        Self::safe_reopen_file(fd, name)
    }

    /// Trade a reference-only handle on the already validated file for a
    /// read-write one, by reopening the handle's own entry in the
    /// process's descriptor table — no path name is resolved again, so
    /// no rename or symlink swap can redirect this step. The
    /// reference-only handle is released once the new one is obtained.
    /// `name` is the final component, named in a failure.
    fn safe_reopen_file(file: File, name: &Vec<u8>) -> (r: Result<File, OpenError>)
        requires
            file.wf(),
        ensures
            r matches Ok(f) ==> f.wf(),
            r matches Err(e) ==> e is OpenFailed && error_component(e) == name@,
    {
        match file.reopen_read_write() {
            Ok(f) => Ok(f),
            Err(os) => Err(OpenError::OpenFailed { component: copy_component(name), os_error: os }),
        }
    }

    /// Open the regular file that the absolute path `path` names, for
    /// exclusive read-write access.
    ///
    /// The path is validated first: it must be absolute and free of `.`
    /// and `..` components, and exactly those two failures are
    /// `PathNotAbsolute` and `RelativeComponentDisallowed`, found before
    /// any filesystem access. A valid path is then walked from the root
    /// with every component opened non-following and checked against
    /// world-writability; the final component must be a regular file,
    /// is reopened read-write through the descriptor table, and the
    /// exclusive open-file-description lock is taken on the result,
    /// without blocking. Every handle picked up on the way is released
    /// on every failure path.
    ///
    /// The empty path is not absolute. The root path `/` is, and its
    /// final component is the empty name, which no directory holds: it
    /// fails with `OpenFailed` at that component.
    pub fn open(path: &str) -> (r: Result<SafeFile, OpenError>)
        ensures
            r matches Ok(f) ==> f.wf() && path_ok(bytes_of(path)),
            (r matches Err(e) && e is PathNotAbsolute) <==> !is_absolute(bytes_of(path)),
            (r matches Err(e) && e is RelativeComponentDisallowed) <==> (is_absolute(
                bytes_of(path),
            ) && !all_components_allowed(bytes_of(path))),
            r matches Err(e) ==> !(e is WriteFailed) && !(e is PartialWrite),
            r matches Err(e) ==> (is_traversal_error(e) ==> path_ok(bytes_of(path)) && (
            error_component(e).len() == 0 || is_component_of(bytes_of(path), error_component(e)))),
            r matches Err(e) ==> (e is NotRegularFile ==> path_ok(bytes_of(path))
                && error_component(e) == leaf_of(bytes_of(path))),
            r matches Err(e) ==> (e is LockContended ==> path_ok(bytes_of(path))),
    {
        let bytes = path.as_bytes();
        let components = match validate_path(bytes) {
            Ok(cs) => cs,
            Err(e) => {
                return Err(e);
            },
        };
        let parent = match Self::walk_open_dir(&components) {
            Ok(f) => f,
            Err(e) => {
                proof {
                    if error_component(e).len() != 0 {
                        let i = choose|i: int|
                            1 <= i < components@.len() - 1 && error_component(e)
                                == components@[i]@;
                        assert(components_of(bytes_of(path))[i] == views_of(components@)[i]);
                        assert(is_component_of(bytes_of(path), error_component(e)));
                    }
                }
                return Err(e);
            },
        };
        let leaf_index = components.len() - 1;
        let ghost leaf_pos = components@.len() - 1;
        proof {
            assert(components_of(bytes_of(path))[leaf_pos] == views_of(components@)[leaf_pos]);
            assert(components_of(bytes_of(path)).last() == components@[leaf_pos]@);
        }
        let fd = match Self::safe_open_file(parent, &components[leaf_index]) {
            Ok(f) => f,
            Err(e) => {
                proof {
                    assert(error_component(e) == leaf_of(bytes_of(path)));
                    assert(is_component_of(bytes_of(path), error_component(e)));
                }
                return Err(e);
            },
        };
        match fd.lock() {
            Ok(_) => Ok(SafeFile { fd }),
            Err(e) => Err(e),
        }
    }

    /// Write the whole buffer to the locked file, continuing from
    /// wherever a shorter-than-asked write stopped, until every byte is
    /// written, the operating system refuses (`WriteFailed`), or a write
    /// stops making progress (`PartialWrite`, carrying how much was
    /// asked and how much arrived). Success means the kernel accepted
    /// exactly `data.len()` bytes.
    pub fn write(&self, data: &[u8]) -> (r: Result<(), OpenError>)
        ensures
            r matches Err(e) ==> (e matches OpenError::WriteFailed { os_error: _ } || (
            e matches OpenError::PartialWrite { requested, written } && requested == data@.len()
                && written < data@.len())),
    {
        let mut written: usize = 0;
        while written < data.len()
            invariant
                written <= data@.len(),
            decreases data@.len() - written,
        {
            match self.fd.write_from(data, written) {
                Ok(n) => {
                    if n == 0 {
                        return Err(
                            OpenError::PartialWrite { requested: data.len(), written },
                        );
                    }
                    written = written + n;
                },
                Err(os) => {
                    return Err(OpenError::WriteFailed { os_error: os });
                },
            }
        }
        Ok(())
    }
}

} // verus!
