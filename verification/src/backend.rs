//! Items shared by every graphics backend.

use vstd::prelude::*;
use vstd::string::*;

pub mod vulkan;

verus! {

/// A graphics backend's bootstrap context: built from what the host
/// created natively, and the single place that says what to release.
pub trait Backend: Sized {
    /// What the host hands over once the first native object exists.
    type Created;

    /// One native object for the host to release.
    type Release;

    /// What the context holds that has to be released, in release order.
    spec fn pending_release(&self) -> Seq<Self::Release>;

    /// The context for what the host created.
    fn new(created: Self::Created) -> (backend: Self);

    /// Tears the context down: returns everything the host has to release,
    /// in order, and holds nothing afterwards.
    fn destroy(&mut self) -> (released: Vec<Self::Release>)
        ensures
            released@ == old(self).pending_release(),
            final(self).pending_release() == Seq::<Self::Release>::empty(),
    ;
}

/// What went wrong during bootstrap. Every kind is fatal to the sequence.
#[derive(Clone, Copy, Debug, PartialEq, Eq, Structural)]
pub enum ErrorKind {
    /// The native layer rejected instance creation, with its result code.
    InstanceCreationFailed(i32),
    /// Diagnostics were requested but the validation layer is not installed.
    UnsupportedValidationLayer,
    /// The native layer could not bind the window to a surface.
    SurfaceCreationFailed,
    /// The instance enumerated no physical device at all.
    NoPhysicalDevices,
    /// Devices were enumerated, but none has the required queue families.
    NoSuitableDevice,
    /// The native layer rejected logical-device creation, with its result code.
    DeviceCreationFailed(i32),
    /// A bootstrap step was asked for in a stage that does not allow it.
    InvalidBootstrapOrder,
}

/// A bootstrap failure: the backend it came from, its kind, and a message.
#[derive(Debug)]
pub struct Error {
    backend: &'static str,
    kind: ErrorKind,
    msg: String,
}

/// The mathematical content of an [`Error`].
pub struct ErrorView {
    pub backend: Seq<char>,
    pub kind: ErrorKind,
    pub msg: Seq<char>,
}

impl View for Error {
    type V = ErrorView;

    closed spec fn view(&self) -> ErrorView {
        ErrorView { backend: self.backend@, kind: self.kind, msg: self.msg@ }
    }
}

/// The single line shown to the user for an error.
pub open spec fn display_text(e: ErrorView) -> Seq<char> {
    "Graphics Error ("@ + e.backend + "): "@ + e.msg
}

impl Error {
    /// An error of the given backend and kind.
    pub fn with_backend(backend: &'static str, kind: ErrorKind, msg: String) -> (e: Error)
        ensures
            e@ == (ErrorView { backend: backend@, kind, msg: msg@ }),
    {
        Error { backend, kind, msg }
    }

    /// The name of the backend that failed.
    pub fn backend(&self) -> (b: &'static str)
        ensures
            b@ == self@.backend,
    {
        self.backend
    }

    /// The kind of failure.
    pub fn kind(&self) -> (k: ErrorKind)
        ensures
            k == self@.kind,
    {
        self.kind
    }

    /// The message alone, without the backend prefix.
    pub fn message(&self) -> (m: &str)
        ensures
            m@ == self@.msg,
    {
        self.msg.as_str()
    }

    /// The user-visible line: `Graphics Error (<backend>): <message>`.
    pub fn to_string(&self) -> (s: String)
        ensures
            s@ == display_text(self@),
    {
        let mut s = String::from_str("Graphics Error (");
        s.append(self.backend);
        s.append("): ");
        s.append(self.msg.as_str());
        s
    }
}

} // verus!
