use vstd::prelude::*;

verus! {

/// Everything that can go wrong while validating a path, walking it,
/// opening and locking the target, or writing to it. Component-carrying
/// variants name the path component at which the failure arose, as raw
/// path bytes; `os_error` fields carry the operating-system error number.
#[derive(Debug, PartialEq, Eq)]
pub enum OpenError {
    /// The path does not begin with the root separator.
    PathNotAbsolute,
    /// Some component of the path is `.` or `..`.
    RelativeComponentDisallowed,
    /// Opening a component failed; for the final component this covers,
    /// among others, the kernel refusing to follow a symlink.
    OpenFailed { component: Vec<u8>, os_error: i32 },
    /// Querying the status of an opened component failed.
    StatFailed { component: Vec<u8>, os_error: i32 },
    /// A directory on the path, or the target itself, is others-writable.
    WorldWritableDetected { component: Vec<u8> },
    /// The final component is not a plain regular file.
    NotRegularFile { component: Vec<u8> },
    /// Another open-file description already holds a conflicting lock.
    LockContended,
    /// The underlying write call failed.
    WriteFailed { os_error: i32 },
    /// A write stopped making progress before the whole buffer was written.
    PartialWrite { requested: usize, written: usize },
}

/// The path component a failure is about, where the variant carries one.
pub open spec fn error_component(e: OpenError) -> Seq<u8> {
    match e {
        OpenError::OpenFailed { component, .. } => component@,
        OpenError::StatFailed { component, .. } => component@,
        OpenError::WorldWritableDetected { component } => component@,
        OpenError::NotRegularFile { component } => component@,
        _ => Seq::empty(),
    }
}

/// The failures that walking the directory part of a path can produce.
pub open spec fn is_traversal_error(e: OpenError) -> bool {
    e is OpenFailed || e is StatFailed || e is WorldWritableDetected
}

} // verus!
