//! The failures the views can meet, and the words they show for each.

use rs_pwsafe::pwserrors::PwSafeError;
use vstd::prelude::*;
use vstd::std_specs::convert::FromSpecImpl;
use vstd::string::StringExecFns;

verus! {

/// The failure type of the safe engine, `rs_pwsafe::pwserrors::PwSafeError`:
/// an enum of fourteen variants, none of which carries data. The variants
/// are taken from the engine's own definition, so that the functions below
/// can tell them apart; nothing else is claimed of the type.
#[verifier::external_type_specification]
pub struct ExPwSafeError(PwSafeError);

/// What can go wrong while a safe is opened, unlocked or copied from.
pub enum TuiPwSafeErrors {
    /// No safe file was found at the given place.
    StoreFileNotFound,
    /// The safe could not be read with the passphrase given.
    StoreFileNotRead,
    /// Any other failure of the safe engine, kept as it came.
    UnknownError(PwSafeError),
    /// The clipboard did not take the text.
    ClipboardWriteFailure,
}

/// The failure of the views that stands for a failure of the safe engine.
pub open spec fn classify(error: PwSafeError) -> TuiPwSafeErrors {
    match error {
        PwSafeError::FileNotFound => TuiPwSafeErrors::StoreFileNotFound,
        PwSafeError::InvalidKey => TuiPwSafeErrors::StoreFileNotRead,
        other => TuiPwSafeErrors::UnknownError(other),
    }
}

impl From<PwSafeError> for TuiPwSafeErrors {
    fn from(error: PwSafeError) -> (e: TuiPwSafeErrors) {
        match error {
            PwSafeError::FileNotFound => TuiPwSafeErrors::StoreFileNotFound,
            PwSafeError::InvalidKey => TuiPwSafeErrors::StoreFileNotRead,
            other => TuiPwSafeErrors::UnknownError(other),
        }
    }
}

impl FromSpecImpl<PwSafeError> for TuiPwSafeErrors {
    open spec fn obeys_from_spec() -> bool {
        true
    }

    open spec fn from_spec(error: PwSafeError) -> TuiPwSafeErrors {
        classify(error)
    }
}

/// The name of a failure of the safe engine, as its `Debug` form prints it.
pub open spec fn failure_name(error: PwSafeError) -> Seq<char> {
    match error {
        PwSafeError::FileNotFound => "FileNotFound"@,
        PwSafeError::FailedToOpenFile => "FailedToOpenFile"@,
        PwSafeError::FileReadError => "FileReadError"@,
        PwSafeError::FileNotSupported => "FileNotSupported"@,
        PwSafeError::SaltNotFound => "SaltNotFound"@,
        PwSafeError::NumberOfIterationsNotFound => "NumberOfIterationsNotFound"@,
        PwSafeError::IterationsNotInitialized => "IterationsNotInitialized"@,
        PwSafeError::FileToSmall => "FileToSmall"@,
        PwSafeError::EofPositionError => "EofPositionError"@,
        PwSafeError::InvalidKey => "InvalidKey"@,
        PwSafeError::CantCreateHmacWithL => "CantCreateHmacWithL"@,
        PwSafeError::HmacSigSizeDoesNotMatch => "HmacSigSizeDoesNotMatch"@,
        PwSafeError::InvalidSignature => "InvalidSignature"@,
        PwSafeError::SignatureAlgorithmNotInitialized => "SignatureAlgorithmNotInitialized"@,
    }
}

/// The name of a failure of the safe engine.
pub fn failure_label(error: &PwSafeError) -> (name: &'static str)
    ensures
        name@ == failure_name(*error),
{
    match error {
        PwSafeError::FileNotFound => "FileNotFound",
        PwSafeError::FailedToOpenFile => "FailedToOpenFile",
        PwSafeError::FileReadError => "FileReadError",
        PwSafeError::FileNotSupported => "FileNotSupported",
        PwSafeError::SaltNotFound => "SaltNotFound",
        PwSafeError::NumberOfIterationsNotFound => "NumberOfIterationsNotFound",
        PwSafeError::IterationsNotInitialized => "IterationsNotInitialized",
        PwSafeError::FileToSmall => "FileToSmall",
        PwSafeError::EofPositionError => "EofPositionError",
        PwSafeError::InvalidKey => "InvalidKey",
        PwSafeError::CantCreateHmacWithL => "CantCreateHmacWithL",
        PwSafeError::HmacSigSizeDoesNotMatch => "HmacSigSizeDoesNotMatch",
        PwSafeError::InvalidSignature => "InvalidSignature",
        PwSafeError::SignatureAlgorithmNotInitialized => "SignatureAlgorithmNotInitialized",
    }
}

impl TuiPwSafeErrors {
    /// The words shown for this failure.
    pub open spec fn message_spec(self) -> Seq<char> {
        match self {
            TuiPwSafeErrors::StoreFileNotFound => "PwSafe Store file not specified"@,
            TuiPwSafeErrors::StoreFileNotRead => "Store file is not read"@,
            TuiPwSafeErrors::UnknownError(error) => "Unexpected Error "@ + failure_name(error),
            TuiPwSafeErrors::ClipboardWriteFailure => "Can't copy to clipboard"@,
        }
    }

    /// The words shown for this failure.
    pub fn message(&self) -> (text: String)
        ensures
            text@ == self.message_spec(),
    {
        match self {
            TuiPwSafeErrors::StoreFileNotFound => String::from_str(
                "PwSafe Store file not specified",
            ),
            TuiPwSafeErrors::StoreFileNotRead => String::from_str("Store file is not read"),
            TuiPwSafeErrors::UnknownError(error) => String::from_str("Unexpected Error ").concat(
                failure_label(error),
            ),
            TuiPwSafeErrors::ClipboardWriteFailure => String::from_str("Can't copy to clipboard"),
        }
    }
}

} // verus!
