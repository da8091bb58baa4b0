//! What can be wrong with a text that should be an encoding.
use vstd::prelude::*;
use vstd::string::*;

verus! {

/// The ways in which a text fails to be an encoding, in the order in which
/// decoding looks for them.
#[derive(Debug, Clone, Copy, PartialEq, Eq, Structural)]
pub enum Fault {
    /// The text holds fewer than two words, so it cannot hold both data and
    /// a checksum.
    TooFewWords,
    /// A word holds a character outside ASCII.
    NotAscii,
    /// A word is not four characters long.
    WordLength,
    /// A word of four ASCII characters is not in the word table.
    UnknownWord,
    /// Every word is in the table, but the last one is not the checksum of
    /// the others.
    Checksum,
}

/// The error of a failed decoding.
#[derive(Debug, Clone)]
pub enum DecodeError {
    /// The text does not have the shape of an encoding; the reason is given
    /// in words.
    General(String),
    /// The text has the shape of an encoding, but its checksum does not fit.
    CRCError,
}

impl Fault {
    /// The sentence that names this fault in the error that reports it.
    pub open spec fn reason(self) -> Seq<char> {
        match self {
            Fault::TooFewWords => "Input must be at least two words long."@,
            Fault::NotAscii => "Input must only contain ASCII compatible UTF-8."@,
            Fault::WordLength => "Input words must be four characters long."@,
            Fault::UnknownWord => "Invalid word detected in input."@,
            Fault::Checksum => "Invalid CRC detected."@,
        }
    }

    /// True for the faults in the shape of the text, false for a checksum
    /// that does not fit.
    pub open spec fn is_structural(self) -> bool {
        self != Fault::Checksum
    }

    /// The error that reports this fault.
    pub fn into_error(self) -> (error: DecodeError)
        ensures
            error.reports(self),
    {
        match self {
            Fault::TooFewWords => DecodeError::General(
                String::from_str("Input must be at least two words long."),
            ),
            Fault::NotAscii => DecodeError::General(
                String::from_str("Input must only contain ASCII compatible UTF-8."),
            ),
            Fault::WordLength => DecodeError::General(
                String::from_str("Input words must be four characters long."),
            ),
            Fault::UnknownWord => DecodeError::General(
                String::from_str("Invalid word detected in input."),
            ),
            Fault::Checksum => DecodeError::CRCError,
        }
    }
}

impl DecodeError {
    /// True when this error is the one that decoding returns for `fault`: a
    /// checksum error for a checksum that does not fit, and otherwise a
    /// general error with the fault's reason.
    pub open spec fn reports(&self, fault: Fault) -> bool {
        match fault {
            Fault::Checksum => self is CRCError,
            _ => self matches DecodeError::General(reason) && reason@ == fault.reason(),
        }
    }

    /// What [`DecodeError::message`] returns.
    pub open spec fn message_text(&self) -> Seq<char> {
        match self {
            DecodeError::General(reason) => "Unable to decode pricklybird words: "@ + reason@,
            DecodeError::CRCError => Fault::Checksum.reason(),
        }
    }

    /// The error as a sentence for a reader.
    pub fn message(&self) -> (text: String)
        ensures
            text@ == self.message_text(),
    {
        match self {
            DecodeError::General(reason) => {
                let mut text = String::from_str("Unable to decode pricklybird words: ");
                text.append(reason.as_str());
                text
            },
            DecodeError::CRCError => String::from_str("Invalid CRC detected."),
        }
    }
}

} // verus!
