use vstd::prelude::*;

verus! {

/// Failures reported to the host by the input and overlay operations.
#[derive(Debug, PartialEq, Eq)]
pub enum ControlError {
    /// The native window subsystem refused to create a window.
    WindowCreationFailed(String),
    /// An overlay could not be created; carries the platform's diagnostic.
    OverlayCreationFailed(String),
    /// The native input queue accepted fewer events than were submitted.
    InjectionFailed,
    /// A mouse button name other than left, right or middle.
    UnknownButton,
    /// The capability has no implementation on this operating system.
    UnsupportedPlatform,
}

/// The human-readable text handed to the host for each error.
pub open spec fn message_of(e: ControlError) -> Seq<char> {
    match e {
        ControlError::WindowCreationFailed(d) => "window creation failed: "@ + d@,
        ControlError::OverlayCreationFailed(d) => "overlay creation failed: "@ + d@,
        ControlError::InjectionFailed => "input injection failed"@,
        ControlError::UnknownButton => "unknown mouse button"@,
        ControlError::UnsupportedPlatform => "not supported on this platform"@,
    }
}

impl ControlError {
    /// The message the host shows for this error.
    pub fn message(&self) -> (r: String)
        ensures
            r@ == message_of(*self),
    {
        match self {
            ControlError::WindowCreationFailed(d) => {
                let mut s = String::from_str("window creation failed: ");
                s.append(d.as_str());
                s
            },
            ControlError::OverlayCreationFailed(d) => {
                let mut s = String::from_str("overlay creation failed: ");
                s.append(d.as_str());
                s
            },
            ControlError::InjectionFailed => String::from_str("input injection failed"),
            ControlError::UnknownButton => String::from_str("unknown mouse button"),
            ControlError::UnsupportedPlatform => String::from_str("not supported on this platform"),
        }
    }
}

/// The outcome of handing `submitted` events to the native input queue, which
/// reported `accepted` of them taken: success exactly when none was dropped.
pub fn submission_result(submitted: usize, accepted: u32) -> (r: Result<(), ControlError>)
    ensures
        r is Ok <==> accepted as int >= submitted as int,
        r is Err ==> r == Err::<(), ControlError>(ControlError::InjectionFailed),
{
    if (accepted as usize) < submitted {
        Err(ControlError::InjectionFailed)
    } else {
        Ok(())
    }
}

} // verus!
