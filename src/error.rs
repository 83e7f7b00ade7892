use vstd::prelude::*;

verus! {

/// The classification that `std::io` attaches to a stream error, declared
/// with its variants so that verified code can match on them.
#[verifier::external_type_specification]
pub struct ExIoErrorKind(std::io::ErrorKind);

/// The error kinds of embedded-hal's serial traits, declared with their
/// variants so that verified code can name the catch-all `Other`.
#[verifier::external_type_specification]
pub struct ExHalErrorKind(embedded_hal::serial::ErrorKind);

/// The error of a stream operation, reduced to its classification.
///
/// Its view is that classification; message text and OS codes are not kept.
#[derive(Debug, Copy, Clone)]
pub struct SerialError {
    kind: std::io::ErrorKind,
}

impl View for SerialError {
    type V = std::io::ErrorKind;

    closed spec fn view(&self) -> std::io::ErrorKind {
        self.kind
    }
}

impl SerialError {
    /// The error made from a stream error of classification `kind`.
    pub closed spec fn of(kind: std::io::ErrorKind) -> SerialError {
        SerialError { kind }
    }

    /// The HAL's error kind for an error: always the catch-all kind.
    pub open spec fn hal_kind(self) -> embedded_hal::serial::ErrorKind {
        embedded_hal::serial::ErrorKind::Other
    }

    /// The HAL's error kind for this error: the catch-all kind, whatever
    /// the stream's classification was.
    pub fn kind(&self) -> (r: embedded_hal::serial::ErrorKind)
        ensures
            r == self.hal_kind(),
    {
        embedded_hal::serial::ErrorKind::Other
    }

    /// The stream's classification that this error keeps.
    pub fn io_kind(&self) -> (r: std::io::ErrorKind)
        ensures
            r == self@,
    {
        self.kind
    }

    /// An error made from classification `kind` keeps exactly `kind`.
    pub proof fn lemma_of_keeps_kind(kind: std::io::ErrorKind)
        ensures
            SerialError::of(kind)@ == kind,
    {
    }

    /// Two errors made from the same classification report the same HAL
    /// error kind, the catch-all one: the kind depends on nothing else.
    pub proof fn lemma_hal_kind_by_classification(
        kind: std::io::ErrorKind,
        e1: SerialError,
        e2: SerialError,
    )
        requires
            e1@ == kind,
            e2@ == kind,
        ensures
            e1.hal_kind() == e2.hal_kind(),
            e1.hal_kind() == embedded_hal::serial::ErrorKind::Other,
    {
    }
}

impl From<std::io::ErrorKind> for SerialError {
    /// Keeps the stream error's classification, and nothing else of it.
    fn from(kind: std::io::ErrorKind) -> (r: SerialError)
        ensures
            r == SerialError::of(kind),
            r@ == kind,
    {
        SerialError { kind }
    }
}

impl vstd::std_specs::convert::FromSpecImpl<std::io::ErrorKind> for SerialError {
    open spec fn obeys_from_spec() -> bool {
        true
    }

    open spec fn from_spec(kind: std::io::ErrorKind) -> SerialError {
        SerialError::of(kind)
    }
}

} // verus!
