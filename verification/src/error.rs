//! Errors of the framework: a kind, and a message for the reader.

use vstd::prelude::*;
use vstd::string::StringExecFns;

verus! {

/// The kind of a failure.
#[derive(Clone, Copy, Debug, PartialEq, Eq, Structural)]
pub enum ErrorVariant {
    FFI,
    TypeParse,
    FailedFunction,
    FailedMap,
    FailedRelation,
    RelationDebug,
    FailedCast,
    DomainMismatch,
    MetricMismatch,
    MeasureMismatch,
    MakeDomain,
    MakeTransformation,
    MakeMeasurement,
    InvalidDistance,
    NotImplemented,
}

/// A failure: its kind and, where there is one, a message.
#[derive(Clone, Debug, PartialEq, Eq)]
pub struct Error {
    pub variant: ErrorVariant,
    pub message: Option<String>,
}

/// The result of every operation that can fail.
pub type Fallible<T> = Result<T, Error>;

/// The name under which a kind is written out.
pub open spec fn variant_name(variant: ErrorVariant) -> Seq<char> {
    match variant {
        ErrorVariant::FFI => "FFI"@,
        ErrorVariant::TypeParse => "TypeParse"@,
        ErrorVariant::FailedFunction => "FailedFunction"@,
        ErrorVariant::FailedMap => "FailedMap"@,
        ErrorVariant::FailedRelation => "FailedRelation"@,
        ErrorVariant::RelationDebug => "RelationDebug"@,
        ErrorVariant::FailedCast => "FailedCast"@,
        ErrorVariant::DomainMismatch => "DomainMismatch"@,
        ErrorVariant::MetricMismatch => "MetricMismatch"@,
        ErrorVariant::MeasureMismatch => "MeasureMismatch"@,
        ErrorVariant::MakeDomain => "MakeDomain"@,
        ErrorVariant::MakeTransformation => "MakeTransformation"@,
        ErrorVariant::MakeMeasurement => "MakeMeasurement"@,
        ErrorVariant::InvalidDistance => "InvalidDistance"@,
        ErrorVariant::NotImplemented => "NotImplemented"@,
    }
}

/// The kind that a name read from outside stands for. Only these eleven names
/// are understood on the way in.
pub open spec fn variant_of_name(name: Seq<char>) -> Option<ErrorVariant> {
    if name == "FFI"@ {
        Some(ErrorVariant::FFI)
    } else if name == "TypeParse"@ {
        Some(ErrorVariant::TypeParse)
    } else if name == "FailedFunction"@ {
        Some(ErrorVariant::FailedFunction)
    } else if name == "FailedRelation"@ {
        Some(ErrorVariant::FailedRelation)
    } else if name == "RelationDebug"@ {
        Some(ErrorVariant::RelationDebug)
    } else if name == "FailedCast"@ {
        Some(ErrorVariant::FailedCast)
    } else if name == "DomainMismatch"@ {
        Some(ErrorVariant::DomainMismatch)
    } else if name == "MakeTransformation"@ {
        Some(ErrorVariant::MakeTransformation)
    } else if name == "MakeMeasurement"@ {
        Some(ErrorVariant::MakeMeasurement)
    } else if name == "InvalidDistance"@ {
        Some(ErrorVariant::InvalidDistance)
    } else if name == "NotImplemented"@ {
        Some(ErrorVariant::NotImplemented)
    } else {
        None
    }
}

/// The message of an error as a sequence of characters, if it has one.
pub open spec fn message_view(message: Option<String>) -> Option<Seq<char>> {
    match message {
        Some(m) => Some(m@),
        None => None,
    }
}

impl ErrorVariant {
    /// The name of this kind.
    pub fn name(&self) -> (name: String)
        ensures
            name@ == variant_name(*self),
    {
        match self {
            ErrorVariant::FFI => String::from_str("FFI"),
            ErrorVariant::TypeParse => String::from_str("TypeParse"),
            ErrorVariant::FailedFunction => String::from_str("FailedFunction"),
            ErrorVariant::FailedMap => String::from_str("FailedMap"),
            ErrorVariant::FailedRelation => String::from_str("FailedRelation"),
            ErrorVariant::RelationDebug => String::from_str("RelationDebug"),
            ErrorVariant::FailedCast => String::from_str("FailedCast"),
            ErrorVariant::DomainMismatch => String::from_str("DomainMismatch"),
            ErrorVariant::MetricMismatch => String::from_str("MetricMismatch"),
            ErrorVariant::MeasureMismatch => String::from_str("MeasureMismatch"),
            ErrorVariant::MakeDomain => String::from_str("MakeDomain"),
            ErrorVariant::MakeTransformation => String::from_str("MakeTransformation"),
            ErrorVariant::MakeMeasurement => String::from_str("MakeMeasurement"),
            ErrorVariant::InvalidDistance => String::from_str("InvalidDistance"),
            ErrorVariant::NotImplemented => String::from_str("NotImplemented"),
        }
    }

    /// The kind that `name` stands for, if it is one of the names understood.
    pub fn from_name(name: &str) -> (variant: Option<ErrorVariant>)
        ensures
            variant == variant_of_name(name@),
    {
        let name = String::from_str(name);
        if name == String::from_str("FFI") {
            Some(ErrorVariant::FFI)
        } else if name == String::from_str("TypeParse") {
            Some(ErrorVariant::TypeParse)
        } else if name == String::from_str("FailedFunction") {
            Some(ErrorVariant::FailedFunction)
        } else if name == String::from_str("FailedRelation") {
            Some(ErrorVariant::FailedRelation)
        } else if name == String::from_str("RelationDebug") {
            Some(ErrorVariant::RelationDebug)
        } else if name == String::from_str("FailedCast") {
            Some(ErrorVariant::FailedCast)
        } else if name == String::from_str("DomainMismatch") {
            Some(ErrorVariant::DomainMismatch)
        } else if name == String::from_str("MakeTransformation") {
            Some(ErrorVariant::MakeTransformation)
        } else if name == String::from_str("MakeMeasurement") {
            Some(ErrorVariant::MakeMeasurement)
        } else if name == String::from_str("InvalidDistance") {
            Some(ErrorVariant::InvalidDistance)
        } else if name == String::from_str("NotImplemented") {
            Some(ErrorVariant::NotImplemented)
        } else {
            None
        }
    }
}

impl Error {
    /// An error of the given kind with a message.
    pub fn new(variant: ErrorVariant, message: &str) -> (error: Error)
        ensures
            error.variant == variant,
            message_view(error.message) == Some(message@),
    {
        Error { variant, message: Some(String::from_str(message)) }
    }

    /// An error of the given kind without a message.
    pub fn bare(variant: ErrorVariant) -> (error: Error)
        ensures
            error.variant == variant,
            error.message is None,
    {
        Error { variant, message: None }
    }

    /// The error that a kind's name and a message read from outside stand
    /// for. A name that is not understood gives `NotImplemented`, with a
    /// message that holds the name.
    pub fn from_name(name: &str, message: Option<String>) -> (error: Error)
        ensures
            match variant_of_name(name@) {
                Some(variant) => error.variant == variant && error.message == message,
                None => error.variant == ErrorVariant::NotImplemented && message_view(
                    error.message,
                ) == Some("Unknown ErrorVariant "@ + name@),
            },
    {
        match ErrorVariant::from_name(name) {
            Some(variant) => Error { variant, message },
            None => {
                let text = String::from_str("Unknown ErrorVariant ").concat(name);
                Error { variant: ErrorVariant::NotImplemented, message: Some(text) }
            },
        }
    }

    /// The message, or the empty text where there is none.
    pub fn message_text(&self) -> (text: String)
        ensures
            text@ == match self.message {
                Some(m) => m@,
                None => Seq::<char>::empty(),
            },
    {
        match &self.message {
            Some(m) => m.clone(),
            None => String::new(),
        }
    }
}

} // verus!
