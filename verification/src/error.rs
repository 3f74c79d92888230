//! The errors of the speaker, and the numbers by which a NOTIFICATION names them.
use octets::BufferTooShortError;
use vstd::prelude::*;

verus! {

/// What a fallible operation of the speaker returns.
pub type Result<T> = std::result::Result<T, Error>;

/// An error, as a NOTIFICATION message would report it.
#[derive(Debug)]
pub struct Error {
    pub code: ErrorCode,
    pub subcode: ErrorSubCode,
    pub data: Option<Vec<u8>>,
}

/// What went wrong on this side, without a fault of the peer.
#[derive(Debug, Clone, Copy, PartialEq, Eq, Structural)]
pub enum LocalLogicErrorSubcode {
    BufferTooShortError,
    IOError,
}

/// What is wrong with a message header.
#[derive(Debug, Clone, Copy, PartialEq, Eq, Structural)]
pub enum MsgHeaderErrorSubcode {
    ConnectionNotSync,
    BadMessageLength,
    BadMessageType,
}

/// What is wrong with an OPEN message.
#[derive(Debug, Clone, Copy, PartialEq, Eq, Structural)]
pub enum OpenMsgErrorSubcode {
    UnsupportedVersionNumber,
    BadPeerAs,
    BadBgpIdentifier,
    UnsupportedOptionalParameter,
    UnacceptableHoldTime,
    UnSupportedCapability,
}

/// What is wrong with an UPDATE message.
#[derive(Debug, Clone, Copy, PartialEq, Eq, Structural)]
pub enum UpdateMsgErrorSubcode {
    MalformedAttributeList,
    UnrecognizedWellKnownAttribute,
    MissingWellKnownAttribute,
    AttributeFlagsError,
    AttributeLengthError,
    InvalidOriginAttribute,
    InvalidNextHopAttribute,
    OptionalAttributeError,
    InvalidNetworkField,
    MalformedAsPath,
}

/// The detail of an error, by the kind of message that it concerns.
#[derive(Debug, Clone, Copy, PartialEq, Eq, Structural)]
pub enum ErrorSubCode {
    LocalLogicErrorSubcode(LocalLogicErrorSubcode),
    MsgHeaderErrorSubcode(MsgHeaderErrorSubcode),
    OpenMsgErrorSubcode(OpenMsgErrorSubcode),
    UpdateMsgErrorSubcode(UpdateMsgErrorSubcode),
    Undefined,
}

/// The kind of an error.
#[derive(Debug, Clone, Copy, PartialEq, Eq, Structural)]
pub enum ErrorCode {
    LocalLogicError,
    MessageHeaderError,
    OpenMessageError,
    UpdateMessageError,
    HoldTimerExpired,
    FiniteStateMachineError,
    Cease,
}

/// The error without data for a fault on this side.
pub open spec fn local_error(subcode: LocalLogicErrorSubcode) -> Error {
    Error {
        code: ErrorCode::LocalLogicError,
        subcode: ErrorSubCode::LocalLogicErrorSubcode(subcode),
        data: None,
    }
}

/// The error without data for a fault in a message header.
pub open spec fn header_error(subcode: MsgHeaderErrorSubcode) -> Error {
    Error {
        code: ErrorCode::MessageHeaderError,
        subcode: ErrorSubCode::MsgHeaderErrorSubcode(subcode),
        data: None,
    }
}

/// The error without data for a fault in an OPEN message.
pub open spec fn open_error(subcode: OpenMsgErrorSubcode) -> Error {
    Error {
        code: ErrorCode::OpenMessageError,
        subcode: ErrorSubCode::OpenMsgErrorSubcode(subcode),
        data: None,
    }
}

/// The error without data for a fault in an UPDATE message.
pub open spec fn update_error(subcode: UpdateMsgErrorSubcode) -> Error {
    Error {
        code: ErrorCode::UpdateMessageError,
        subcode: ErrorSubCode::UpdateMsgErrorSubcode(subcode),
        data: None,
    }
}

/// The error for bytes that end before the field that is read.
pub open spec fn too_short() -> Error {
    local_error(LocalLogicErrorSubcode::BufferTooShortError)
}

impl Error {
    pub fn new(code: ErrorCode, subcode: ErrorSubCode, data: Option<Vec<u8>>) -> (r: Error)
        ensures
            r == (Error { code, subcode, data }),
    {
        Error { code, subcode, data }
    }

    pub fn new_local(subcode: LocalLogicErrorSubcode, data: Option<Vec<u8>>) -> (r: Error)
        ensures
            r == (Error { data, ..local_error(subcode) }),
    {
        Error::new(ErrorCode::LocalLogicError, ErrorSubCode::from(subcode), data)
    }

    pub fn new_header(subcode: MsgHeaderErrorSubcode, data: Option<Vec<u8>>) -> (r: Error)
        ensures
            r == (Error { data, ..header_error(subcode) }),
    {
        Error::new(ErrorCode::MessageHeaderError, ErrorSubCode::from(subcode), data)
    }

    pub fn new_open(subcode: OpenMsgErrorSubcode, data: Option<Vec<u8>>) -> (r: Error)
        ensures
            r == (Error { data, ..open_error(subcode) }),
    {
        Error::new(ErrorCode::OpenMessageError, ErrorSubCode::from(subcode), data)
    }

    pub fn new_update(subcode: UpdateMsgErrorSubcode, data: Option<Vec<u8>>) -> (r: Error)
        ensures
            r == (Error { data, ..update_error(subcode) }),
    {
        Error::new(ErrorCode::UpdateMessageError, ErrorSubCode::from(subcode), data)
    }

    pub fn err_local<T>(subcode: LocalLogicErrorSubcode, data: Option<Vec<u8>>) -> (r: Result<T>)
        ensures
            r == Err::<T, Error>(Error { data, ..local_error(subcode) }),
    {
        Err(Self::new_local(subcode, data))
    }

    pub fn err_header<T>(subcode: MsgHeaderErrorSubcode, data: Option<Vec<u8>>) -> (r: Result<T>)
        ensures
            r == Err::<T, Error>(Error { data, ..header_error(subcode) }),
    {
        Err(Self::new_header(subcode, data))
    }

    pub fn err_open<T>(subcode: OpenMsgErrorSubcode, data: Option<Vec<u8>>) -> (r: Result<T>)
        ensures
            r == Err::<T, Error>(Error { data, ..open_error(subcode) }),
    {
        Err(Self::new_open(subcode, data))
    }

    pub fn err_update<T>(subcode: UpdateMsgErrorSubcode, data: Option<Vec<u8>>) -> (r: Result<T>)
        ensures
            r == Err::<T, Error>(Error { data, ..update_error(subcode) }),
    {
        Err(Self::new_update(subcode, data))
    }

    /// Whether the error only says that more bytes are needed.
    pub fn is_too_short(&self) -> (r: bool)
        ensures
            r == (self.code == too_short().code && self.subcode == too_short().subcode),
    {
        self.code == ErrorCode::LocalLogicError && self.subcode
            == ErrorSubCode::LocalLogicErrorSubcode(LocalLogicErrorSubcode::BufferTooShortError)
    }
}

/// `std::io::Error`, carried as an opaque value.
#[verifier::external_type_specification]
#[verifier::external_body]
pub struct ExIoError(std::io::Error);

impl From<BufferTooShortError> for Error {
    fn from(e: BufferTooShortError) -> (r: Error) {
        Error::new_local(LocalLogicErrorSubcode::BufferTooShortError, None)
    }
}

impl vstd::std_specs::convert::FromSpecImpl<BufferTooShortError> for Error {
    open spec fn obeys_from_spec() -> bool {
        true
    }

    open spec fn from_spec(e: BufferTooShortError) -> Error {
        too_short()
    }
}

impl From<std::io::Error> for Error {
    fn from(e: std::io::Error) -> (r: Error) {
        Error::new_local(LocalLogicErrorSubcode::IOError, None)
    }
}

impl vstd::std_specs::convert::FromSpecImpl<std::io::Error> for Error {
    open spec fn obeys_from_spec() -> bool {
        true
    }

    open spec fn from_spec(e: std::io::Error) -> Error {
        local_error(LocalLogicErrorSubcode::IOError)
    }
}

impl LocalLogicErrorSubcode {
    /// The number of the subcode.
    pub open spec fn spec_number(self) -> u8 {
        match self {
            LocalLogicErrorSubcode::BufferTooShortError => 1,
            LocalLogicErrorSubcode::IOError => 2,
        }
    }

    pub fn number(self) -> (r: u8)
        ensures
            r == self.spec_number(),
    {
        match self {
            LocalLogicErrorSubcode::BufferTooShortError => 1,
            LocalLogicErrorSubcode::IOError => 2,
        }
    }
}

impl MsgHeaderErrorSubcode {
    /// The number of the subcode.
    pub open spec fn spec_number(self) -> u8 {
        match self {
            MsgHeaderErrorSubcode::ConnectionNotSync => 1,
            MsgHeaderErrorSubcode::BadMessageLength => 2,
            MsgHeaderErrorSubcode::BadMessageType => 3,
        }
    }

    pub fn number(self) -> (r: u8)
        ensures
            r == self.spec_number(),
    {
        match self {
            MsgHeaderErrorSubcode::ConnectionNotSync => 1,
            MsgHeaderErrorSubcode::BadMessageLength => 2,
            MsgHeaderErrorSubcode::BadMessageType => 3,
        }
    }
}

impl OpenMsgErrorSubcode {
    /// The number of the subcode. Number 5 is deprecated and names nothing.
    pub open spec fn spec_number(self) -> u8 {
        match self {
            OpenMsgErrorSubcode::UnsupportedVersionNumber => 1,
            OpenMsgErrorSubcode::BadPeerAs => 2,
            OpenMsgErrorSubcode::BadBgpIdentifier => 3,
            OpenMsgErrorSubcode::UnsupportedOptionalParameter => 4,
            OpenMsgErrorSubcode::UnacceptableHoldTime => 6,
            OpenMsgErrorSubcode::UnSupportedCapability => 7,
        }
    }

    pub fn number(self) -> (r: u8)
        ensures
            r == self.spec_number(),
    {
        match self {
            OpenMsgErrorSubcode::UnsupportedVersionNumber => 1,
            OpenMsgErrorSubcode::BadPeerAs => 2,
            OpenMsgErrorSubcode::BadBgpIdentifier => 3,
            OpenMsgErrorSubcode::UnsupportedOptionalParameter => 4,
            OpenMsgErrorSubcode::UnacceptableHoldTime => 6,
            OpenMsgErrorSubcode::UnSupportedCapability => 7,
        }
    }
}

impl UpdateMsgErrorSubcode {
    /// The number of the subcode. Number 7 is deprecated and names nothing.
    pub open spec fn spec_number(self) -> u8 {
        match self {
            UpdateMsgErrorSubcode::MalformedAttributeList => 1,
            UpdateMsgErrorSubcode::UnrecognizedWellKnownAttribute => 2,
            UpdateMsgErrorSubcode::MissingWellKnownAttribute => 3,
            UpdateMsgErrorSubcode::AttributeFlagsError => 4,
            UpdateMsgErrorSubcode::AttributeLengthError => 5,
            UpdateMsgErrorSubcode::InvalidOriginAttribute => 6,
            UpdateMsgErrorSubcode::InvalidNextHopAttribute => 8,
            UpdateMsgErrorSubcode::OptionalAttributeError => 9,
            UpdateMsgErrorSubcode::InvalidNetworkField => 10,
            UpdateMsgErrorSubcode::MalformedAsPath => 11,
        }
    }

    pub fn number(self) -> (r: u8)
        ensures
            r == self.spec_number(),
    {
        match self {
            UpdateMsgErrorSubcode::MalformedAttributeList => 1,
            UpdateMsgErrorSubcode::UnrecognizedWellKnownAttribute => 2,
            UpdateMsgErrorSubcode::MissingWellKnownAttribute => 3,
            UpdateMsgErrorSubcode::AttributeFlagsError => 4,
            UpdateMsgErrorSubcode::AttributeLengthError => 5,
            UpdateMsgErrorSubcode::InvalidOriginAttribute => 6,
            UpdateMsgErrorSubcode::InvalidNextHopAttribute => 8,
            UpdateMsgErrorSubcode::OptionalAttributeError => 9,
            UpdateMsgErrorSubcode::InvalidNetworkField => 10,
            UpdateMsgErrorSubcode::MalformedAsPath => 11,
        }
    }
}

impl ErrorSubCode {
    /// The number by which a NOTIFICATION names the detail.
    pub open spec fn spec_number(self) -> u8 {
        match self {
            ErrorSubCode::LocalLogicErrorSubcode(subcode) => subcode.spec_number(),
            ErrorSubCode::MsgHeaderErrorSubcode(subcode) => subcode.spec_number(),
            ErrorSubCode::OpenMsgErrorSubcode(subcode) => subcode.spec_number(),
            ErrorSubCode::UpdateMsgErrorSubcode(subcode) => subcode.spec_number(),
            ErrorSubCode::Undefined => 0,
        }
    }
}

impl ErrorCode {
    /// The number by which a NOTIFICATION names the kind.
    pub open spec fn spec_number(self) -> u8 {
        match self {
            ErrorCode::LocalLogicError => 0,
            ErrorCode::MessageHeaderError => 1,
            ErrorCode::OpenMessageError => 2,
            ErrorCode::UpdateMessageError => 3,
            ErrorCode::HoldTimerExpired => 4,
            ErrorCode::FiniteStateMachineError => 5,
            ErrorCode::Cease => 6,
        }
    }

    pub fn number(self) -> (r: u8)
        ensures
            r == self.spec_number(),
    {
        match self {
            ErrorCode::LocalLogicError => 0,
            ErrorCode::MessageHeaderError => 1,
            ErrorCode::OpenMessageError => 2,
            ErrorCode::UpdateMessageError => 3,
            ErrorCode::HoldTimerExpired => 4,
            ErrorCode::FiniteStateMachineError => 5,
            ErrorCode::Cease => 6,
        }
    }
}

impl From<ErrorSubCode> for u8 {
    fn from(subcode: ErrorSubCode) -> (r: u8) {
        match subcode {
            ErrorSubCode::LocalLogicErrorSubcode(subcode) => subcode.number(),
            ErrorSubCode::MsgHeaderErrorSubcode(subcode) => subcode.number(),
            ErrorSubCode::OpenMsgErrorSubcode(subcode) => subcode.number(),
            ErrorSubCode::UpdateMsgErrorSubcode(subcode) => subcode.number(),
            ErrorSubCode::Undefined => 0,
        }
    }
}

impl vstd::std_specs::convert::FromSpecImpl<ErrorSubCode> for u8 {
    open spec fn obeys_from_spec() -> bool {
        true
    }

    open spec fn from_spec(subcode: ErrorSubCode) -> u8 {
        subcode.spec_number()
    }
}

impl From<LocalLogicErrorSubcode> for ErrorSubCode {
    fn from(subcode: LocalLogicErrorSubcode) -> (r: ErrorSubCode) {
        ErrorSubCode::LocalLogicErrorSubcode(subcode)
    }
}

impl vstd::std_specs::convert::FromSpecImpl<LocalLogicErrorSubcode> for ErrorSubCode {
    open spec fn obeys_from_spec() -> bool {
        true
    }

    open spec fn from_spec(subcode: LocalLogicErrorSubcode) -> ErrorSubCode {
        ErrorSubCode::LocalLogicErrorSubcode(subcode)
    }
}

impl From<MsgHeaderErrorSubcode> for ErrorSubCode {
    fn from(subcode: MsgHeaderErrorSubcode) -> (r: ErrorSubCode) {
        ErrorSubCode::MsgHeaderErrorSubcode(subcode)
    }
}

impl vstd::std_specs::convert::FromSpecImpl<MsgHeaderErrorSubcode> for ErrorSubCode {
    open spec fn obeys_from_spec() -> bool {
        true
    }

    open spec fn from_spec(subcode: MsgHeaderErrorSubcode) -> ErrorSubCode {
        ErrorSubCode::MsgHeaderErrorSubcode(subcode)
    }
}

impl From<OpenMsgErrorSubcode> for ErrorSubCode {
    fn from(subcode: OpenMsgErrorSubcode) -> (r: ErrorSubCode) {
        ErrorSubCode::OpenMsgErrorSubcode(subcode)
    }
}

impl vstd::std_specs::convert::FromSpecImpl<OpenMsgErrorSubcode> for ErrorSubCode {
    open spec fn obeys_from_spec() -> bool {
        true
    }

    open spec fn from_spec(subcode: OpenMsgErrorSubcode) -> ErrorSubCode {
        ErrorSubCode::OpenMsgErrorSubcode(subcode)
    }
}

impl From<UpdateMsgErrorSubcode> for ErrorSubCode {
    fn from(subcode: UpdateMsgErrorSubcode) -> (r: ErrorSubCode) {
        ErrorSubCode::UpdateMsgErrorSubcode(subcode)
    }
}

impl vstd::std_specs::convert::FromSpecImpl<UpdateMsgErrorSubcode> for ErrorSubCode {
    open spec fn obeys_from_spec() -> bool {
        true
    }

    open spec fn from_spec(subcode: UpdateMsgErrorSubcode) -> ErrorSubCode {
        ErrorSubCode::UpdateMsgErrorSubcode(subcode)
    }
}

} // verus!
