use vstd::prelude::*;
use vstd::std_specs::convert::FromSpecImpl;
use vstd::string::*;

verus! {

/// std's I/O error, held opaquely by the library's errors.
#[verifier::external_type_specification]
#[verifier::external_body]
pub struct ExIoError(std::io::Error);

/// The error of the network's data types (safe_nd), held opaquely.
#[verifier::external_type_specification]
#[verifier::external_body]
pub struct ExDataError(safe_nd::Error);

/// What `{:?}` writes for a string slice with the given characters: the text in
/// double quotes, with std's escapes.
pub uninterp spec fn str_debug_text(s: Seq<char>) -> Seq<char>;

/// `format!("{:?}", s)` for a `&str`: std's `Debug` for `str`. The text depends on
/// the characters of `s` alone; the contract names it and says nothing more of it.
#[verifier::external_body]
fn debug_quoted(s: &str) -> (quoted: String)
    ensures
        quoted@ == str_debug_text(s@),
{
    format!("{:?}", s)
}

/// What `std::error::Error::description` gives for an I/O error; it depends on the error
/// alone.
pub uninterp spec fn io_error_description_spec(error: std::io::Error) -> Seq<char>;

/// `std::error::Error::description` on an I/O error.
#[verifier::external_body]
#[allow(deprecated)]
fn io_error_description(error: &std::io::Error) -> (description: String)
    ensures
        description@ == io_error_description_spec(*error),
{
    std::error::Error::description(error).to_string()
}

/// Client Errors
pub enum ClientError {
    /// StructuredData has no space available to fit in any user data inside it.
    StructuredDataHeaderSizeProhibitive,
    /// Could not Serialise or Deserialise
    UnsuccessfulEncodeDecode,
    /// Asymmetric Key Decryption Failed
    AsymmetricDecipherFailure,
    /// Symmetric Key Decryption Failed
    SymmetricDecipherFailure,
    /// Routing GET, PUT, POST, DELETE Immediate Failure
    RoutingFailure(std::io::Error),
    /// ReceivedUnexpectedData
    ReceivedUnexpectedData,
    /// No such data found in local version cache
    VersionCacheMiss,
    /// No such data found in routing-filled cache
    RoutingMessageCacheMiss,
    /// Network operation failed; holds the description of the routing layer's response error
    NetworkOperationFailure(String),
    /// Cannot overwrite a root directory if it already exists
    RootDirectoryAlreadyExists,
    /// Generic I/O Error
    GenericIoError(std::io::Error),
}

impl ClientError {
    /// Whether the variant carries an inner error, whose description its debug text shows.
    pub open spec fn has_inner_error(self) -> bool {
        ||| self is RoutingFailure
        ||| self is NetworkOperationFailure
        ||| self is GenericIoError
    }

    /// The debug text of the error, given the description of its inner error
    /// (ignored for the variants that have none).
    pub open spec fn debug_spec(self, description: Seq<char>) -> Seq<char> {
        match self {
            ClientError::StructuredDataHeaderSizeProhibitive =>
                "ClientError::StructuredDataHeaderSizeProhibitive"@,
            ClientError::UnsuccessfulEncodeDecode => "ClientError::UnsuccessfulEncodeDecode"@,
            ClientError::AsymmetricDecipherFailure => "ClientError::AsymmetricDecipherFailure"@,
            ClientError::SymmetricDecipherFailure => "ClientError::SymmetricDecipherFailure"@,
            ClientError::RoutingFailure(_) => "ClientError::RoutingFailure -> "@ + str_debug_text(
                description,
            ),
            ClientError::ReceivedUnexpectedData => "ClientError::ReceivedUnexpectedData"@,
            ClientError::VersionCacheMiss => "ClientError::VersionCacheMiss"@,
            ClientError::RoutingMessageCacheMiss => "ClientError::RoutingMessageCacheMiss"@,
            ClientError::NetworkOperationFailure(_) => "ClientError::NetworkOperationFailure -> "@
                + str_debug_text(description),
            ClientError::RootDirectoryAlreadyExists => "ClientError::RootDirectoryAlreadyExists"@,
            ClientError::GenericIoError(_) => "ClientError::GenericIoError -> "@ + str_debug_text(
                description,
            ),
        }
    }

    /// The debug text of the error, with `description` standing for the description of
    /// its inner error.
    pub fn debug_text_with(&self, description: &str) -> (text: String)
        ensures
            text@ == self.debug_spec(description@),
    {
        match self {
            ClientError::StructuredDataHeaderSizeProhibitive => String::from_str(
                "ClientError::StructuredDataHeaderSizeProhibitive",
            ),
            ClientError::UnsuccessfulEncodeDecode => String::from_str(
                "ClientError::UnsuccessfulEncodeDecode",
            ),
            ClientError::AsymmetricDecipherFailure => String::from_str(
                "ClientError::AsymmetricDecipherFailure",
            ),
            ClientError::SymmetricDecipherFailure => String::from_str(
                "ClientError::SymmetricDecipherFailure",
            ),
            ClientError::RoutingFailure(_) => {
                let quoted = debug_quoted(description);
                String::from_str("ClientError::RoutingFailure -> ").concat(quoted.as_str())
            },
            ClientError::ReceivedUnexpectedData => String::from_str(
                "ClientError::ReceivedUnexpectedData",
            ),
            ClientError::VersionCacheMiss => String::from_str("ClientError::VersionCacheMiss"),
            ClientError::RoutingMessageCacheMiss => String::from_str(
                "ClientError::RoutingMessageCacheMiss",
            ),
            ClientError::NetworkOperationFailure(_) => {
                let quoted = debug_quoted(description);
                String::from_str("ClientError::NetworkOperationFailure -> ").concat(
                    quoted.as_str(),
                )
            },
            ClientError::RootDirectoryAlreadyExists => String::from_str(
                "ClientError::RootDirectoryAlreadyExists",
            ),
            ClientError::GenericIoError(_) => {
                let quoted = debug_quoted(description);
                String::from_str("ClientError::GenericIoError -> ").concat(quoted.as_str())
            },
        }
    }

    /// The debug text of the error: `ClientError::` and the variant's name, followed for
    /// the variants with an inner error by ` -> ` and the quoted description of that error.
    pub fn debug_text(&self) -> (text: String)
        ensures
            !self.has_inner_error() ==> text@ == self.debug_spec(Seq::empty()),
            self matches ClientError::NetworkOperationFailure(d) ==> text@ == self.debug_spec(
                d@,
            ),
            self matches ClientError::RoutingFailure(e) ==> text@ == self.debug_spec(
                io_error_description_spec(*e),
            ),
            self matches ClientError::GenericIoError(e) ==> text@ == self.debug_spec(
                io_error_description_spec(*e),
            ),
    {
        match self {
            ClientError::RoutingFailure(error) => {
                let description = io_error_description(error);
                self.debug_text_with(description.as_str())
            },
            ClientError::NetworkOperationFailure(description) => {
                self.debug_text_with(description.as_str())
            },
            ClientError::GenericIoError(error) => {
                let description = io_error_description(error);
                self.debug_text_with(description.as_str())
            },
            _ => {
                let text = self.debug_text_with("");
                assert(self.debug_spec(""@) == self.debug_spec(Seq::empty()));
                text
            },
        }
    }
}

impl From<std::io::Error> for ClientError {
    fn from(error: std::io::Error) -> (converted: ClientError) {
        ClientError::GenericIoError(error)
    }
}

impl FromSpecImpl<std::io::Error> for ClientError {
    open spec fn obeys_from_spec() -> bool {
        true
    }

    open spec fn from_spec(v: std::io::Error) -> ClientError {
        ClientError::GenericIoError(v)
    }
}

/// The error of the client's transfer operations.
#[derive(Debug)]
pub enum CoreError {
    /// An error reported by the network's data types.
    DataError(safe_nd::Error),
    /// An error reported by the local transfer actor, by its message.
    TransferError(String),
    /// Anything else, by its message.
    Unexpected(String),
}

impl From<safe_nd::Error> for CoreError {
    fn from(error: safe_nd::Error) -> (converted: CoreError) {
        CoreError::DataError(error)
    }
}

impl FromSpecImpl<safe_nd::Error> for CoreError {
    open spec fn obeys_from_spec() -> bool {
        true
    }

    open spec fn from_spec(v: safe_nd::Error) -> CoreError {
        CoreError::DataError(v)
    }
}

} // verus!
