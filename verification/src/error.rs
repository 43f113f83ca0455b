//! The ways a transfer can fail.

use crate::text::{decimal, decimal_digits};
use vstd::prelude::*;
use vstd::string::*;

verus! {

/// Why a device operation or a whole transfer failed.
#[derive(Clone, Copy, Debug, PartialEq, Eq, Structural)]
pub enum TransferError {
    /// The device identifier names no handheld that is currently connected.
    DeviceNotFound,
    /// A single page read or write failed in the transport.
    IoError,
    /// The image to flash does not have the length of a flash image.
    SizeMismatch { expected: usize, actual: usize },
    /// The image to flash could not be loaded.
    UnreadableSource,
    /// The dumped image could not be stored.
    UnwritableSink,
    /// Writing the page with this index failed; the flashing was abandoned.
    PageWriteFailed { index: u32 },
    /// Reading the page with this index failed; the dumping was abandoned.
    PageReadFailed { index: u32 },
}

impl TransferError {
    /// The line of text that tells a person of this failure.
    pub open spec fn message_text(self) -> Seq<char> {
        match self {
            TransferError::DeviceNotFound => "Could not find handheld"@,
            TransferError::IoError => "Error transferring page"@,
            TransferError::SizeMismatch { expected, actual } => {
                "Flash file is not the correct size ("@ + decimal_digits(expected as nat) + ")."@
            },
            TransferError::UnreadableSource => "Unable to read file."@,
            TransferError::UnwritableSink => "Unable to write to file."@,
            TransferError::PageWriteFailed { index } => "Error writing page"@,
            TransferError::PageReadFailed { index } => "Error reading page"@,
        }
    }

    /// Renders the failure as the status line shown to the user.
    pub fn message(&self) -> (text: String)
        ensures
            text@ == self.message_text(),
    {
        match self {
            TransferError::DeviceNotFound => String::from_str("Could not find handheld"),
            TransferError::IoError => String::from_str("Error transferring page"),
            TransferError::SizeMismatch { expected, actual } => {
                let mut text: String = String::from_str("Flash file is not the correct size (");
                let digits: String = decimal(*expected as u64);
                text.append(digits.as_str());
                text.append(").");
                text
            },
            TransferError::UnreadableSource => String::from_str("Unable to read file."),
            TransferError::UnwritableSink => String::from_str("Unable to write to file."),
            TransferError::PageWriteFailed { index } => String::from_str("Error writing page"),
            TransferError::PageReadFailed { index } => String::from_str("Error reading page"),
        }
    }
}

} // verus!
