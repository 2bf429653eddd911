use vstd::prelude::*;

verus! {

/// The Win32 code for "not enough memory resources are available to
/// complete this operation".
pub const ERROR_OUTOFMEMORY: u32 = 14;

/// The Win32 code for "not enough memory resources are available to
/// process this command".
pub const ERROR_NOT_ENOUGH_MEMORY: u32 = 8;

/// `ERROR_OUTOFMEMORY` wrapped in an HRESULT (`E_OUTOFMEMORY`).
pub const HRESULT_OUTOFMEMORY: u32 = 0x8007000E;

/// `ERROR_NOT_ENOUGH_MEMORY` wrapped in an HRESULT.
pub const HRESULT_NOT_ENOUGH_MEMORY: u32 = 0x80070008;

/// The result of an operation that can fail with a `PalmError`.
pub type PalmResult<T> = Result<T, PalmError>;

/// The classes of error that this library reports.
#[derive(Clone, Copy, Debug, PartialEq, Eq, Structural)]
pub enum PalmErrorKind {
    /// There is not enough memory available.
    NotEnoughMemory,
    /// The host refused to create the window.
    WindowCreation,
    /// The graphics context or the drawing surface could not be set up.
    GraphicsInit,
    /// Any other failure reported by the host.
    Unspecified,
}

impl PalmErrorKind {
    /// The human-readable description of each kind.
    pub open spec fn spec_description(self) -> Seq<char> {
        match self {
            PalmErrorKind::NotEnoughMemory => "Not enough memory"@,
            PalmErrorKind::WindowCreation => "Failed to create window"@,
            PalmErrorKind::GraphicsInit => "Failed to initialise graphics"@,
            PalmErrorKind::Unspecified => "Unspecified error"@,
        }
    }

    /// Returns a human-readable description of the error kind.
    pub fn description(&self) -> (r: &str)
        ensures
            r@ == self.spec_description(),
    {
        match self {
            PalmErrorKind::NotEnoughMemory => "Not enough memory",
            PalmErrorKind::WindowCreation => "Failed to create window",
            PalmErrorKind::GraphicsInit => "Failed to initialise graphics",
            PalmErrorKind::Unspecified => "Unspecified error",
        }
    }
}

/// What an error of this library holds: its kind and its message.
pub struct PalmErrorView {
    pub kind: PalmErrorKind,
    pub msg: Seq<char>,
}

/// An error with a kind and a human-readable message.
#[derive(Debug)]
pub struct PalmError {
    kind: PalmErrorKind,
    msg: String,
}

impl View for PalmError {
    type V = PalmErrorView;

    closed spec fn view(&self) -> PalmErrorView {
        PalmErrorView { kind: self.kind, msg: self.msg@ }
    }
}

/// An error reported by the host operating system: its code and its text.
pub struct OsError {
    pub code: i32,
    pub message: String,
}

/// Whether an OS error code stands for a lack of memory, as a plain Win32
/// code or wrapped in an HRESULT.
pub open spec fn is_out_of_memory_code(code: i32) -> bool {
    let c = code as u32;
    c == ERROR_OUTOFMEMORY || c == ERROR_NOT_ENOUGH_MEMORY || c == HRESULT_OUTOFMEMORY || c
        == HRESULT_NOT_ENOUGH_MEMORY
}

/// Tells whether an OS error code stands for a lack of memory.
pub fn is_out_of_memory(code: i32) -> (r: bool)
    ensures
        r == is_out_of_memory_code(code),
{
    let c = code as u32;
    c == ERROR_OUTOFMEMORY || c == ERROR_NOT_ENOUGH_MEMORY || c == HRESULT_OUTOFMEMORY || c
        == HRESULT_NOT_ENOUGH_MEMORY
}

impl PalmError {
    /// An error of the given kind whose message is the kind's description.
    pub fn from_kind(kind: PalmErrorKind) -> (e: PalmError)
        ensures
            e@.kind == kind,
            e@.msg == kind.spec_description(),
    {
        PalmError { kind, msg: kind.description().to_owned() }
    }

    /// Replaces the message, keeping the kind.
    pub fn with_msg(self, msg: &str) -> (e: Self)
        ensures
            e@.kind == self@.kind,
            e@.msg == msg@,
    {
        PalmError { kind: self.kind, msg: msg.to_owned() }
    }

    /// The kind of the error.
    pub fn kind(&self) -> (k: &PalmErrorKind)
        ensures
            *k == self@.kind,
    {
        &self.kind
    }

    /// The message of the error.
    pub fn msg(&self) -> (m: &String)
        ensures
            m@ == self@.msg,
    {
        &self.msg
    }

    /// Classifies an OS error: a lack of memory becomes `NotEnoughMemory`
    /// with that kind's description; anything else is `Unspecified` and keeps
    /// the OS's own text.
    pub fn from_os_error(err: OsError) -> (e: PalmError)
        ensures
            is_out_of_memory_code(err.code) ==> e@ == (PalmErrorView {
                kind: PalmErrorKind::NotEnoughMemory,
                msg: PalmErrorKind::NotEnoughMemory.spec_description(),
            }),
            !is_out_of_memory_code(err.code) ==> e@ == (PalmErrorView {
                kind: PalmErrorKind::Unspecified,
                msg: err.message@,
            }),
    {
        if is_out_of_memory(err.code) {
            PalmError::from_kind(PalmErrorKind::NotEnoughMemory)
        } else {
            PalmError { kind: PalmErrorKind::Unspecified, msg: err.message }
        }
    }

    /// Classifies an OS error met at a step that has its own kind and
    /// message: a lack of memory becomes `NotEnoughMemory`, anything else
    /// becomes `step`; either way the message is `msg`.
    pub fn from_os_error_with_msg(err: &OsError, step: PalmErrorKind, msg: &str) -> (e: PalmError)
        ensures
            e@.kind == (if is_out_of_memory_code(err.code) {
                PalmErrorKind::NotEnoughMemory
            } else {
                step
            }),
            e@.msg == msg@,
    {
        let kind = if is_out_of_memory(err.code) {
            PalmErrorKind::NotEnoughMemory
        } else {
            step
        };
        PalmError::from_kind(kind).with_msg(msg)
    }
}

} // verus!
