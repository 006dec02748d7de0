//! The errors of the library. Each layer has its own, and the wider ones wrap
//! the narrower.
//!
//! Every error has its `message`. Where an error wraps one that comes from
//! outside the library, the words of that one are part of the message, and
//! `wording` says what the message is given those words.
use crate::util::{concat_text, decimal, decimal_text};
use vstd::prelude::*;
use vstd::std_specs::convert::FromSpecImpl;

verus! {

/// `std::io::Error`: carried along, never looked into.
#[verifier::external_type_specification]
#[verifier::external_body]
pub struct ExIoError(std::io::Error);

/// `rayon::ThreadPoolBuildError`: carried along, never looked into.
#[verifier::external_type_specification]
#[verifier::external_body]
pub struct ExThreadPoolBuildError(rayon::ThreadPoolBuildError);

/// `walkdir::Error`: carried along, never looked into.
#[verifier::external_type_specification]
#[verifier::external_body]
pub struct ExWalkdirError(walkdir::Error);

/// `log::SetLoggerError`: carried along, never looked into.
#[verifier::external_type_specification]
#[verifier::external_body]
pub struct ExSetLoggerError(log::SetLoggerError);

/// Calls `to_string` on a `std::io::Error`. Nothing is known of its words.
#[verifier::external_body]
pub(crate) fn io_error_words(e: &std::io::Error) -> String {
    e.to_string()
}

/// Calls `to_string` on a `rayon::ThreadPoolBuildError`. Nothing is known of
/// its words.
#[verifier::external_body]
pub(crate) fn thread_pool_error_words(e: &rayon::ThreadPoolBuildError) -> String {
    e.to_string()
}

/// Calls `to_string` on a `walkdir::Error`. Nothing is known of its words.
#[verifier::external_body]
pub(crate) fn walk_error_words(e: &walkdir::Error) -> String {
    e.to_string()
}

/// Calls `to_string` on a `log::SetLoggerError`. Nothing is known of its
/// words.
#[verifier::external_body]
pub(crate) fn set_logger_error_words(e: &log::SetLoggerError) -> String {
    e.to_string()
}

/// A failure while bytes stream through a layer.
#[derive(Debug)]
pub enum StreamError {
    /// The medium reported a failure.
    Io(std::io::Error),
    /// A sink accepted no bytes although some were offered.
    WriteZero,
    /// A layer could not be made.
    Init(EncryptorInitError),
    /// A chunk could not be sealed.
    Encryption,
    /// A chunk failed authentication, or was too short to hold a nonce.
    Decryption,
    /// The codec could not compress its input.
    Compression,
    /// The codec rejected what it was to restore.
    Decompression,
}

impl StreamError {
    /// The message of this error, where `outside` are the words of the
    /// error from outside the library that it wraps, if it wraps one.
    pub open spec fn wording(self, outside: Seq<char>) -> Seq<char> {
        match self {
            StreamError::Io(inner) => outside,
            StreamError::WriteZero => "failed to write whole buffer"@,
            StreamError::Init(inner) => inner.wording(outside),
            StreamError::Encryption => "Failed to encrypt"@,
            StreamError::Decryption => "Failed to decrypt"@,
            StreamError::Compression => "Failed to compress"@,
            StreamError::Decompression => "Failed to decompress"@,
        }
    }

    /// What this error has to say.
    pub fn message(&self) -> (res: String)
        ensures
            exists|outside: Seq<char>| res@ == self.wording(outside),
    {
        match self {
            StreamError::Io(inner) => {
                let text = io_error_words(inner);
                assert(text@ == self.wording(text@));
                text
            },
            StreamError::WriteZero => {
                let text = "failed to write whole buffer".to_owned();
                assert(text@ == self.wording(Seq::empty()));
                text
            },
            StreamError::Init(inner) => {
                let text = inner.message();
                proof {
                    let outside = choose|outside: Seq<char>| text@ == inner.wording(outside);
                    assert(text@ == self.wording(outside));
                }
                text
            },
            StreamError::Encryption => {
                let text = "Failed to encrypt".to_owned();
                assert(text@ == self.wording(Seq::empty()));
                text
            },
            StreamError::Decryption => {
                let text = "Failed to decrypt".to_owned();
                assert(text@ == self.wording(Seq::empty()));
                text
            },
            StreamError::Compression => {
                let text = "Failed to compress".to_owned();
                assert(text@ == self.wording(Seq::empty()));
                text
            },
            StreamError::Decompression => {
                let text = "Failed to decompress".to_owned();
                assert(text@ == self.wording(Seq::empty()));
                text
            },
        }
    }
}

impl From<std::io::Error> for StreamError {
    fn from(value: std::io::Error) -> (res: Self) {
        StreamError::Io(value)
    }
}

impl FromSpecImpl<std::io::Error> for StreamError {
    open spec fn obeys_from_spec() -> bool {
        true
    }

    open spec fn from_spec(value: std::io::Error) -> Self {
        StreamError::Io(value)
    }
}

impl From<EncryptorInitError> for StreamError {
    fn from(value: EncryptorInitError) -> (res: Self) {
        StreamError::Init(value)
    }
}

impl FromSpecImpl<EncryptorInitError> for StreamError {
    open spec fn obeys_from_spec() -> bool {
        true
    }

    open spec fn from_spec(value: EncryptorInitError) -> Self {
        StreamError::Init(value)
    }
}

/// Whatever can end a run of the program.
#[derive(Debug)]
pub enum ZapError {
    /// The feature asked for does not exist yet.
    NotImplemented(String),
    Generic(String),
    HashingError(HashingError),
    PasswordError(PasswordError),
    IOError(std::io::Error),
    CompressionError(CompressionError),
    DecompressionError(DecompressionError),
    EncryptionError(EncryptionError),
    EncryptionSecretError(EncryptionSecretError),
    FailedToInitialiseLogger(log::SetLoggerError),
}

impl ZapError {
    /// The message of this error, where `outside` are the words of the
    /// error from outside the library that it wraps, if it wraps one.
    pub open spec fn wording(self, outside: Seq<char>) -> Seq<char> {
        match self {
            ZapError::NotImplemented(inner) => inner@,
            ZapError::Generic(inner) => "Generic Error: "@ + inner@,
            ZapError::HashingError(inner) => inner.wording(outside),
            ZapError::PasswordError(inner) => inner.wording(outside),
            ZapError::IOError(inner) => outside,
            ZapError::CompressionError(inner) => inner.wording(outside),
            ZapError::DecompressionError(inner) => inner.wording(outside),
            ZapError::EncryptionError(inner) => inner.wording(outside),
            ZapError::EncryptionSecretError(inner) => inner.wording(outside),
            ZapError::FailedToInitialiseLogger(inner) => outside,
        }
    }

    /// What this error has to say.
    pub fn message(&self) -> (res: String)
        ensures
            exists|outside: Seq<char>| res@ == self.wording(outside),
    {
        match self {
            ZapError::NotImplemented(inner) => {
                let text = inner.clone();
                assert(text@ == self.wording(Seq::empty()));
                text
            },
            ZapError::Generic(inner) => {
                let text = concat_text("Generic Error: ", inner.as_str());
                assert(text@ == self.wording(Seq::empty()));
                text
            },
            ZapError::HashingError(inner) => {
                let text = inner.message();
                proof {
                    let outside = choose|outside: Seq<char>| text@ == inner.wording(outside);
                    assert(text@ == self.wording(outside));
                }
                text
            },
            ZapError::PasswordError(inner) => {
                let text = inner.message();
                proof {
                    let outside = choose|outside: Seq<char>| text@ == inner.wording(outside);
                    assert(text@ == self.wording(outside));
                }
                text
            },
            ZapError::IOError(inner) => {
                let text = io_error_words(inner);
                assert(text@ == self.wording(text@));
                text
            },
            ZapError::CompressionError(inner) => {
                let text = inner.message();
                proof {
                    let outside = choose|outside: Seq<char>| text@ == inner.wording(outside);
                    assert(text@ == self.wording(outside));
                }
                text
            },
            ZapError::DecompressionError(inner) => {
                let text = inner.message();
                proof {
                    let outside = choose|outside: Seq<char>| text@ == inner.wording(outside);
                    assert(text@ == self.wording(outside));
                }
                text
            },
            ZapError::EncryptionError(inner) => {
                let text = inner.message();
                proof {
                    let outside = choose|outside: Seq<char>| text@ == inner.wording(outside);
                    assert(text@ == self.wording(outside));
                }
                text
            },
            ZapError::EncryptionSecretError(inner) => {
                let text = inner.message();
                proof {
                    let outside = choose|outside: Seq<char>| text@ == inner.wording(outside);
                    assert(text@ == self.wording(outside));
                }
                text
            },
            ZapError::FailedToInitialiseLogger(inner) => {
                let text = set_logger_error_words(inner);
                assert(text@ == self.wording(text@));
                text
            },
        }
    }
}

impl From<EncryptionSecretError> for ZapError {
    fn from(value: EncryptionSecretError) -> (res: Self) {
        ZapError::EncryptionSecretError(value)
    }
}

impl FromSpecImpl<EncryptionSecretError> for ZapError {
    open spec fn obeys_from_spec() -> bool {
        true
    }

    open spec fn from_spec(value: EncryptionSecretError) -> Self {
        ZapError::EncryptionSecretError(value)
    }
}

impl From<EncryptionError> for ZapError {
    fn from(value: EncryptionError) -> (res: Self) {
        ZapError::EncryptionError(value)
    }
}

impl FromSpecImpl<EncryptionError> for ZapError {
    open spec fn obeys_from_spec() -> bool {
        true
    }

    open spec fn from_spec(value: EncryptionError) -> Self {
        ZapError::EncryptionError(value)
    }
}

impl From<CompressionError> for ZapError {
    fn from(value: CompressionError) -> (res: Self) {
        ZapError::CompressionError(value)
    }
}

impl FromSpecImpl<CompressionError> for ZapError {
    open spec fn obeys_from_spec() -> bool {
        true
    }

    open spec fn from_spec(value: CompressionError) -> Self {
        ZapError::CompressionError(value)
    }
}

impl From<DecompressionError> for ZapError {
    fn from(value: DecompressionError) -> (res: Self) {
        ZapError::DecompressionError(value)
    }
}

impl FromSpecImpl<DecompressionError> for ZapError {
    open spec fn obeys_from_spec() -> bool {
        true
    }

    open spec fn from_spec(value: DecompressionError) -> Self {
        ZapError::DecompressionError(value)
    }
}

impl From<std::io::Error> for ZapError {
    fn from(value: std::io::Error) -> (res: Self) {
        ZapError::IOError(value)
    }
}

impl FromSpecImpl<std::io::Error> for ZapError {
    open spec fn obeys_from_spec() -> bool {
        true
    }

    open spec fn from_spec(value: std::io::Error) -> Self {
        ZapError::IOError(value)
    }
}

impl From<PasswordError> for ZapError {
    fn from(value: PasswordError) -> (res: Self) {
        ZapError::PasswordError(value)
    }
}

impl FromSpecImpl<PasswordError> for ZapError {
    open spec fn obeys_from_spec() -> bool {
        true
    }

    open spec fn from_spec(value: PasswordError) -> Self {
        ZapError::PasswordError(value)
    }
}

impl From<log::SetLoggerError> for ZapError {
    fn from(value: log::SetLoggerError) -> (res: Self) {
        ZapError::FailedToInitialiseLogger(value)
    }
}

impl FromSpecImpl<log::SetLoggerError> for ZapError {
    open spec fn obeys_from_spec() -> bool {
        true
    }

    open spec fn from_spec(value: log::SetLoggerError) -> Self {
        ZapError::FailedToInitialiseLogger(value)
    }
}

/// A failure of the encryption layer before any byte is processed.
#[derive(Debug)]
pub enum EncryptionError {
    InitError(EncryptionSecretError),
}

impl EncryptionError {
    /// The message of this error, where `outside` are the words of the
    /// error from outside the library that it wraps, if it wraps one.
    pub open spec fn wording(self, outside: Seq<char>) -> Seq<char> {
        match self {
            EncryptionError::InitError(inner) => inner.wording(outside),
        }
    }

    /// What this error has to say.
    pub fn message(&self) -> (res: String)
        ensures
            exists|outside: Seq<char>| res@ == self.wording(outside),
    {
        match self {
            EncryptionError::InitError(inner) => {
                let text = inner.message();
                proof {
                    let outside = choose|outside: Seq<char>| text@ == inner.wording(outside);
                    assert(text@ == self.wording(outside));
                }
                text
            },
        }
    }
}

impl From<EncryptionSecretError> for EncryptionError {
    fn from(value: EncryptionSecretError) -> (res: Self) {
        EncryptionError::InitError(value)
    }
}

impl FromSpecImpl<EncryptionSecretError> for EncryptionError {
    open spec fn obeys_from_spec() -> bool {
        true
    }

    open spec fn from_spec(value: EncryptionSecretError) -> Self {
        EncryptionError::InitError(value)
    }
}

/// Why an encryptor or a decryptor could not be made.
#[derive(Debug)]
pub enum EncryptorInitError {
    /// The algorithm refused its parameters; the text is its own.
    AlgorithmError(String),
    EncryptionSecretError(EncryptionSecretError),
}

impl EncryptorInitError {
    /// The message of this error, where `outside` are the words of the
    /// error from outside the library that it wraps, if it wraps one.
    pub open spec fn wording(self, outside: Seq<char>) -> Seq<char> {
        match self {
            EncryptorInitError::AlgorithmError(inner) => "Failed to init algorithm: "@ + inner@,
            EncryptorInitError::EncryptionSecretError(inner) => inner.wording(outside),
        }
    }

    /// What this error has to say.
    pub fn message(&self) -> (res: String)
        ensures
            exists|outside: Seq<char>| res@ == self.wording(outside),
    {
        match self {
            EncryptorInitError::AlgorithmError(inner) => {
                let text = concat_text("Failed to init algorithm: ", inner.as_str());
                assert(text@ == self.wording(Seq::empty()));
                text
            },
            EncryptorInitError::EncryptionSecretError(inner) => {
                let text = inner.message();
                proof {
                    let outside = choose|outside: Seq<char>| text@ == inner.wording(outside);
                    assert(text@ == self.wording(outside));
                }
                text
            },
        }
    }
}

/// Why no secret could be had.
#[derive(Debug)]
pub enum EncryptionSecretError {
    Password(PasswordError),
    Key(EncryptionKeyError),
}

impl EncryptionSecretError {
    /// The message of this error, where `outside` are the words of the
    /// error from outside the library that it wraps, if it wraps one.
    pub open spec fn wording(self, outside: Seq<char>) -> Seq<char> {
        match self {
            EncryptionSecretError::Password(inner) => inner.wording(outside),
            EncryptionSecretError::Key(inner) => inner.wording(outside),
        }
    }

    /// What this error has to say.
    pub fn message(&self) -> (res: String)
        ensures
            exists|outside: Seq<char>| res@ == self.wording(outside),
    {
        match self {
            EncryptionSecretError::Password(inner) => {
                let text = inner.message();
                proof {
                    let outside = choose|outside: Seq<char>| text@ == inner.wording(outside);
                    assert(text@ == self.wording(outside));
                }
                text
            },
            EncryptionSecretError::Key(inner) => {
                let text = inner.message();
                proof {
                    let outside = choose|outside: Seq<char>| text@ == inner.wording(outside);
                    assert(text@ == self.wording(outside));
                }
                text
            },
        }
    }
}

impl From<PasswordError> for EncryptionSecretError {
    fn from(value: PasswordError) -> (res: Self) {
        EncryptionSecretError::Password(value)
    }
}

impl FromSpecImpl<PasswordError> for EncryptionSecretError {
    open spec fn obeys_from_spec() -> bool {
        true
    }

    open spec fn from_spec(value: PasswordError) -> Self {
        EncryptionSecretError::Password(value)
    }
}

impl From<EncryptionKeyError> for EncryptionSecretError {
    fn from(value: EncryptionKeyError) -> (res: Self) {
        EncryptionSecretError::Key(value)
    }
}

impl FromSpecImpl<EncryptionKeyError> for EncryptionSecretError {
    open spec fn obeys_from_spec() -> bool {
        true
    }

    open spec fn from_spec(value: EncryptionKeyError) -> Self {
        EncryptionSecretError::Key(value)
    }
}

/// What can be wrong with a key file.
#[derive(Debug)]
pub enum EncryptionKeyError {
    KeyfileNotProvided,
    FailedToFindKeyfile(String),
}

impl EncryptionKeyError {
    /// The message of this error, where `outside` are the words of the
    /// error from outside the library that it wraps, if it wraps one.
    pub open spec fn wording(self, outside: Seq<char>) -> Seq<char> {
        match self {
            EncryptionKeyError::KeyfileNotProvided => "Keyfile not provided"@,
            EncryptionKeyError::FailedToFindKeyfile(inner) => "Keyfile not found: "@ + inner@,
        }
    }

    /// What this error has to say.
    pub fn message(&self) -> (res: String)
        ensures
            exists|outside: Seq<char>| res@ == self.wording(outside),
    {
        match self {
            EncryptionKeyError::KeyfileNotProvided => {
                let text = "Keyfile not provided".to_owned();
                assert(text@ == self.wording(Seq::empty()));
                text
            },
            EncryptionKeyError::FailedToFindKeyfile(inner) => {
                let text = concat_text("Keyfile not found: ", inner.as_str());
                assert(text@ == self.wording(Seq::empty()));
                text
            },
        }
    }
}

/// What can be wrong with a password.
#[derive(Debug)]
pub enum PasswordError {
    PasswordsDoNotMatch,
    PasswordEmpty,
    HashingError(HashingError),
    InputError(InputError),
}

impl PasswordError {
    /// The message of this error, where `outside` are the words of the
    /// error from outside the library that it wraps, if it wraps one.
    pub open spec fn wording(self, outside: Seq<char>) -> Seq<char> {
        match self {
            PasswordError::PasswordsDoNotMatch => "Passwords do not match"@,
            PasswordError::PasswordEmpty => "Password is empty"@,
            PasswordError::HashingError(inner) => inner.wording(outside),
            PasswordError::InputError(inner) => inner.wording(outside),
        }
    }

    /// What this error has to say.
    pub fn message(&self) -> (res: String)
        ensures
            exists|outside: Seq<char>| res@ == self.wording(outside),
    {
        match self {
            PasswordError::PasswordsDoNotMatch => {
                let text = "Passwords do not match".to_owned();
                assert(text@ == self.wording(Seq::empty()));
                text
            },
            PasswordError::PasswordEmpty => {
                let text = "Password is empty".to_owned();
                assert(text@ == self.wording(Seq::empty()));
                text
            },
            PasswordError::HashingError(inner) => {
                let text = inner.message();
                proof {
                    let outside = choose|outside: Seq<char>| text@ == inner.wording(outside);
                    assert(text@ == self.wording(outside));
                }
                text
            },
            PasswordError::InputError(inner) => {
                let text = inner.message();
                proof {
                    let outside = choose|outside: Seq<char>| text@ == inner.wording(outside);
                    assert(text@ == self.wording(outside));
                }
                text
            },
        }
    }
}

impl From<InputError> for PasswordError {
    fn from(value: InputError) -> (res: Self) {
        PasswordError::InputError(value)
    }
}

impl FromSpecImpl<InputError> for PasswordError {
    open spec fn obeys_from_spec() -> bool {
        true
    }

    open spec fn from_spec(value: InputError) -> Self {
        PasswordError::InputError(value)
    }
}

impl From<HashingError> for PasswordError {
    fn from(value: HashingError) -> (res: Self) {
        PasswordError::HashingError(value)
    }
}

impl FromSpecImpl<HashingError> for PasswordError {
    open spec fn obeys_from_spec() -> bool {
        true
    }

    open spec fn from_spec(value: HashingError) -> Self {
        PasswordError::HashingError(value)
    }
}

/// Why a password could not be turned into a key.
#[derive(Debug)]
pub enum HashingError {
    UnrecognisedAlgorithm(String),
    /// No hash gives a key of this many bits.
    UnrecognisedAlgorithmLength(usize),
}

impl HashingError {
    /// The message of this error, where `outside` are the words of the
    /// error from outside the library that it wraps, if it wraps one.
    pub open spec fn wording(self, outside: Seq<char>) -> Seq<char> {
        match self {
            HashingError::UnrecognisedAlgorithm(inner) => "UnrecognisedAlgorithm: "@ + inner@,
            HashingError::UnrecognisedAlgorithmLength(inner) => "UnrecognisedAlgorithmLength: "@ + decimal_text(inner as nat),
        }
    }

    /// What this error has to say.
    pub fn message(&self) -> (res: String)
        ensures
            exists|outside: Seq<char>| res@ == self.wording(outside),
    {
        match self {
            HashingError::UnrecognisedAlgorithm(inner) => {
                let text = concat_text("UnrecognisedAlgorithm: ", inner.as_str());
                assert(text@ == self.wording(Seq::empty()));
                text
            },
            HashingError::UnrecognisedAlgorithmLength(inner) => {
                let number = decimal(*inner);
                let text = concat_text("UnrecognisedAlgorithmLength: ", number.as_str());
                assert(text@ == self.wording(Seq::empty()));
                text
            },
        }
    }
}

/// A failure to read what the user types.
#[derive(Debug)]
pub enum InputError {
    UserInputFailed(std::io::Error),
}

impl InputError {
    /// The message of this error, where `outside` are the words of the
    /// error from outside the library that it wraps, if it wraps one.
    pub open spec fn wording(self, outside: Seq<char>) -> Seq<char> {
        match self {
            InputError::UserInputFailed(inner) => "Failed to get user input: "@ + outside,
        }
    }

    /// What this error has to say.
    pub fn message(&self) -> (res: String)
        ensures
            exists|outside: Seq<char>| res@ == self.wording(outside),
    {
        match self {
            InputError::UserInputFailed(inner) => {
                let words = io_error_words(inner);
                let text = concat_text("Failed to get user input: ", words.as_str());
                assert(text@ == self.wording(words@));
                text
            },
        }
    }
}

impl From<std::io::Error> for InputError {
    fn from(value: std::io::Error) -> (res: Self) {
        InputError::UserInputFailed(value)
    }
}

impl FromSpecImpl<std::io::Error> for InputError {
    open spec fn obeys_from_spec() -> bool {
        true
    }

    open spec fn from_spec(value: std::io::Error) -> Self {
        InputError::UserInputFailed(value)
    }
}

/// What can end the archiving of a directory as a whole.
#[derive(Debug)]
pub enum CompressionError {
    FailedToBuildThreadPool(rayon::ThreadPoolBuildError),
    FailedToWalkDirectory(walkdir::Error),
    IOError(std::io::Error),
}

impl CompressionError {
    /// The message of this error, where `outside` are the words of the
    /// error from outside the library that it wraps, if it wraps one.
    pub open spec fn wording(self, outside: Seq<char>) -> Seq<char> {
        match self {
            CompressionError::FailedToBuildThreadPool(inner) => "Failed to build thread pool: "@ + outside,
            CompressionError::FailedToWalkDirectory(inner) => "Failed to walk directory: "@ + outside,
            CompressionError::IOError(inner) => outside,
        }
    }

    /// What this error has to say.
    pub fn message(&self) -> (res: String)
        ensures
            exists|outside: Seq<char>| res@ == self.wording(outside),
    {
        match self {
            CompressionError::FailedToBuildThreadPool(inner) => {
                let words = thread_pool_error_words(inner);
                let text = concat_text("Failed to build thread pool: ", words.as_str());
                assert(text@ == self.wording(words@));
                text
            },
            CompressionError::FailedToWalkDirectory(inner) => {
                let words = walk_error_words(inner);
                let text = concat_text("Failed to walk directory: ", words.as_str());
                assert(text@ == self.wording(words@));
                text
            },
            CompressionError::IOError(inner) => {
                let text = io_error_words(inner);
                assert(text@ == self.wording(text@));
                text
            },
        }
    }
}

impl From<std::io::Error> for CompressionError {
    fn from(value: std::io::Error) -> (res: Self) {
        CompressionError::IOError(value)
    }
}

impl FromSpecImpl<std::io::Error> for CompressionError {
    open spec fn obeys_from_spec() -> bool {
        true
    }

    open spec fn from_spec(value: std::io::Error) -> Self {
        CompressionError::IOError(value)
    }
}

impl From<rayon::ThreadPoolBuildError> for CompressionError {
    fn from(value: rayon::ThreadPoolBuildError) -> (res: Self) {
        CompressionError::FailedToBuildThreadPool(value)
    }
}

impl FromSpecImpl<rayon::ThreadPoolBuildError> for CompressionError {
    open spec fn obeys_from_spec() -> bool {
        true
    }

    open spec fn from_spec(value: rayon::ThreadPoolBuildError) -> Self {
        CompressionError::FailedToBuildThreadPool(value)
    }
}

impl From<walkdir::Error> for CompressionError {
    fn from(value: walkdir::Error) -> (res: Self) {
        CompressionError::FailedToWalkDirectory(value)
    }
}

impl FromSpecImpl<walkdir::Error> for CompressionError {
    open spec fn obeys_from_spec() -> bool {
        true
    }

    open spec fn from_spec(value: walkdir::Error) -> Self {
        CompressionError::FailedToWalkDirectory(value)
    }
}

/// What can end the extraction of a directory as a whole.
#[derive(Debug)]
pub enum DecompressionError {
    FailedToBuildThreadPool(rayon::ThreadPoolBuildError),
    FailedToWalkDirectory(walkdir::Error),
    IOError(std::io::Error),
}

impl DecompressionError {
    /// The message of this error, where `outside` are the words of the
    /// error from outside the library that it wraps, if it wraps one.
    pub open spec fn wording(self, outside: Seq<char>) -> Seq<char> {
        match self {
            DecompressionError::FailedToBuildThreadPool(inner) => "Failed to build thread pool: "@ + outside,
            DecompressionError::FailedToWalkDirectory(inner) => "Failed to walk directory: "@ + outside,
            DecompressionError::IOError(inner) => outside,
        }
    }

    /// What this error has to say.
    pub fn message(&self) -> (res: String)
        ensures
            exists|outside: Seq<char>| res@ == self.wording(outside),
    {
        match self {
            DecompressionError::FailedToBuildThreadPool(inner) => {
                let words = thread_pool_error_words(inner);
                let text = concat_text("Failed to build thread pool: ", words.as_str());
                assert(text@ == self.wording(words@));
                text
            },
            DecompressionError::FailedToWalkDirectory(inner) => {
                let words = walk_error_words(inner);
                let text = concat_text("Failed to walk directory: ", words.as_str());
                assert(text@ == self.wording(words@));
                text
            },
            DecompressionError::IOError(inner) => {
                let text = io_error_words(inner);
                assert(text@ == self.wording(text@));
                text
            },
        }
    }
}

impl From<std::io::Error> for DecompressionError {
    fn from(value: std::io::Error) -> (res: Self) {
        DecompressionError::IOError(value)
    }
}

impl FromSpecImpl<std::io::Error> for DecompressionError {
    open spec fn obeys_from_spec() -> bool {
        true
    }

    open spec fn from_spec(value: std::io::Error) -> Self {
        DecompressionError::IOError(value)
    }
}

impl From<rayon::ThreadPoolBuildError> for DecompressionError {
    fn from(value: rayon::ThreadPoolBuildError) -> (res: Self) {
        DecompressionError::FailedToBuildThreadPool(value)
    }
}

impl FromSpecImpl<rayon::ThreadPoolBuildError> for DecompressionError {
    open spec fn obeys_from_spec() -> bool {
        true
    }

    open spec fn from_spec(value: rayon::ThreadPoolBuildError) -> Self {
        DecompressionError::FailedToBuildThreadPool(value)
    }
}

impl From<walkdir::Error> for DecompressionError {
    fn from(value: walkdir::Error) -> (res: Self) {
        DecompressionError::FailedToWalkDirectory(value)
    }
}

impl FromSpecImpl<walkdir::Error> for DecompressionError {
    open spec fn obeys_from_spec() -> bool {
        true
    }

    open spec fn from_spec(value: walkdir::Error) -> Self {
        DecompressionError::FailedToWalkDirectory(value)
    }
}

/// What can end the writing of one file through a pipeline.
#[derive(Debug)]
pub enum PipelineCompressionError {
    /// The feature asked for does not exist yet.
    NotImplemented(String),
    Generic(String),
    HashingError(HashingError),
    PasswordError(PasswordError),
    /// The first failure met while the bytes were streaming.
    IOError(StreamError),
    CompressionError(CompressionError),
    EncryptionError(EncryptionError),
    EncryptionSecretError(EncryptionSecretError),
    EncryptorInitError(EncryptorInitError),
    CompressorInitError(CompressorInitError),
    SignerInitError(SignerInitError),
}

impl PipelineCompressionError {
    /// The message of this error, where `outside` are the words of the
    /// error from outside the library that it wraps, if it wraps one.
    pub open spec fn wording(self, outside: Seq<char>) -> Seq<char> {
        match self {
            PipelineCompressionError::NotImplemented(inner) => inner@,
            PipelineCompressionError::Generic(inner) => "Generic Error: "@ + inner@,
            PipelineCompressionError::HashingError(inner) => inner.wording(outside),
            PipelineCompressionError::PasswordError(inner) => inner.wording(outside),
            PipelineCompressionError::IOError(inner) => inner.wording(outside),
            PipelineCompressionError::CompressionError(inner) => inner.wording(outside),
            PipelineCompressionError::EncryptionError(inner) => inner.wording(outside),
            PipelineCompressionError::EncryptionSecretError(inner) => inner.wording(outside),
            PipelineCompressionError::EncryptorInitError(inner) => inner.wording(outside),
            PipelineCompressionError::CompressorInitError(inner) => inner.wording(outside),
            PipelineCompressionError::SignerInitError(inner) => inner.wording(outside),
        }
    }

    /// What this error has to say.
    pub fn message(&self) -> (res: String)
        ensures
            exists|outside: Seq<char>| res@ == self.wording(outside),
    {
        match self {
            PipelineCompressionError::NotImplemented(inner) => {
                let text = inner.clone();
                assert(text@ == self.wording(Seq::empty()));
                text
            },
            PipelineCompressionError::Generic(inner) => {
                let text = concat_text("Generic Error: ", inner.as_str());
                assert(text@ == self.wording(Seq::empty()));
                text
            },
            PipelineCompressionError::HashingError(inner) => {
                let text = inner.message();
                proof {
                    let outside = choose|outside: Seq<char>| text@ == inner.wording(outside);
                    assert(text@ == self.wording(outside));
                }
                text
            },
            PipelineCompressionError::PasswordError(inner) => {
                let text = inner.message();
                proof {
                    let outside = choose|outside: Seq<char>| text@ == inner.wording(outside);
                    assert(text@ == self.wording(outside));
                }
                text
            },
            PipelineCompressionError::IOError(inner) => {
                let text = inner.message();
                proof {
                    let outside = choose|outside: Seq<char>| text@ == inner.wording(outside);
                    assert(text@ == self.wording(outside));
                }
                text
            },
            PipelineCompressionError::CompressionError(inner) => {
                let text = inner.message();
                proof {
                    let outside = choose|outside: Seq<char>| text@ == inner.wording(outside);
                    assert(text@ == self.wording(outside));
                }
                text
            },
            PipelineCompressionError::EncryptionError(inner) => {
                let text = inner.message();
                proof {
                    let outside = choose|outside: Seq<char>| text@ == inner.wording(outside);
                    assert(text@ == self.wording(outside));
                }
                text
            },
            PipelineCompressionError::EncryptionSecretError(inner) => {
                let text = inner.message();
                proof {
                    let outside = choose|outside: Seq<char>| text@ == inner.wording(outside);
                    assert(text@ == self.wording(outside));
                }
                text
            },
            PipelineCompressionError::EncryptorInitError(inner) => {
                let text = inner.message();
                proof {
                    let outside = choose|outside: Seq<char>| text@ == inner.wording(outside);
                    assert(text@ == self.wording(outside));
                }
                text
            },
            PipelineCompressionError::CompressorInitError(inner) => {
                let text = inner.message();
                proof {
                    let outside = choose|outside: Seq<char>| text@ == inner.wording(outside);
                    assert(text@ == self.wording(outside));
                }
                text
            },
            PipelineCompressionError::SignerInitError(inner) => {
                let text = inner.message();
                proof {
                    let outside = choose|outside: Seq<char>| text@ == inner.wording(outside);
                    assert(text@ == self.wording(outside));
                }
                text
            },
        }
    }
}

impl From<CompressorInitError> for PipelineCompressionError {
    fn from(value: CompressorInitError) -> (res: Self) {
        PipelineCompressionError::CompressorInitError(value)
    }
}

impl FromSpecImpl<CompressorInitError> for PipelineCompressionError {
    open spec fn obeys_from_spec() -> bool {
        true
    }

    open spec fn from_spec(value: CompressorInitError) -> Self {
        PipelineCompressionError::CompressorInitError(value)
    }
}

impl From<SignerInitError> for PipelineCompressionError {
    fn from(value: SignerInitError) -> (res: Self) {
        PipelineCompressionError::SignerInitError(value)
    }
}

impl FromSpecImpl<SignerInitError> for PipelineCompressionError {
    open spec fn obeys_from_spec() -> bool {
        true
    }

    open spec fn from_spec(value: SignerInitError) -> Self {
        PipelineCompressionError::SignerInitError(value)
    }
}

impl From<EncryptorInitError> for PipelineCompressionError {
    fn from(value: EncryptorInitError) -> (res: Self) {
        PipelineCompressionError::EncryptorInitError(value)
    }
}

impl FromSpecImpl<EncryptorInitError> for PipelineCompressionError {
    open spec fn obeys_from_spec() -> bool {
        true
    }

    open spec fn from_spec(value: EncryptorInitError) -> Self {
        PipelineCompressionError::EncryptorInitError(value)
    }
}

impl From<EncryptionSecretError> for PipelineCompressionError {
    fn from(value: EncryptionSecretError) -> (res: Self) {
        PipelineCompressionError::EncryptionSecretError(value)
    }
}

impl FromSpecImpl<EncryptionSecretError> for PipelineCompressionError {
    open spec fn obeys_from_spec() -> bool {
        true
    }

    open spec fn from_spec(value: EncryptionSecretError) -> Self {
        PipelineCompressionError::EncryptionSecretError(value)
    }
}

impl From<EncryptionError> for PipelineCompressionError {
    fn from(value: EncryptionError) -> (res: Self) {
        PipelineCompressionError::EncryptionError(value)
    }
}

impl FromSpecImpl<EncryptionError> for PipelineCompressionError {
    open spec fn obeys_from_spec() -> bool {
        true
    }

    open spec fn from_spec(value: EncryptionError) -> Self {
        PipelineCompressionError::EncryptionError(value)
    }
}

impl From<CompressionError> for PipelineCompressionError {
    fn from(value: CompressionError) -> (res: Self) {
        PipelineCompressionError::CompressionError(value)
    }
}

impl FromSpecImpl<CompressionError> for PipelineCompressionError {
    open spec fn obeys_from_spec() -> bool {
        true
    }

    open spec fn from_spec(value: CompressionError) -> Self {
        PipelineCompressionError::CompressionError(value)
    }
}

impl From<StreamError> for PipelineCompressionError {
    fn from(value: StreamError) -> (res: Self) {
        PipelineCompressionError::IOError(value)
    }
}

impl FromSpecImpl<StreamError> for PipelineCompressionError {
    open spec fn obeys_from_spec() -> bool {
        true
    }

    open spec fn from_spec(value: StreamError) -> Self {
        PipelineCompressionError::IOError(value)
    }
}

impl From<std::io::Error> for PipelineCompressionError {
    fn from(value: std::io::Error) -> (res: Self) {
        PipelineCompressionError::IOError(StreamError::Io(value))
    }
}

impl FromSpecImpl<std::io::Error> for PipelineCompressionError {
    open spec fn obeys_from_spec() -> bool {
        true
    }

    open spec fn from_spec(value: std::io::Error) -> Self {
        PipelineCompressionError::IOError(StreamError::Io(value))
    }
}

impl From<PasswordError> for PipelineCompressionError {
    fn from(value: PasswordError) -> (res: Self) {
        PipelineCompressionError::PasswordError(value)
    }
}

impl FromSpecImpl<PasswordError> for PipelineCompressionError {
    open spec fn obeys_from_spec() -> bool {
        true
    }

    open spec fn from_spec(value: PasswordError) -> Self {
        PipelineCompressionError::PasswordError(value)
    }
}

impl From<HashingError> for PipelineCompressionError {
    fn from(value: HashingError) -> (res: Self) {
        PipelineCompressionError::HashingError(value)
    }
}

impl FromSpecImpl<HashingError> for PipelineCompressionError {
    open spec fn obeys_from_spec() -> bool {
        true
    }

    open spec fn from_spec(value: HashingError) -> Self {
        PipelineCompressionError::HashingError(value)
    }
}

impl From<rayon::ThreadPoolBuildError> for PipelineCompressionError {
    fn from(value: rayon::ThreadPoolBuildError) -> (res: Self) {
        PipelineCompressionError::CompressionError(CompressionError::FailedToBuildThreadPool(value))
    }
}

impl FromSpecImpl<rayon::ThreadPoolBuildError> for PipelineCompressionError {
    open spec fn obeys_from_spec() -> bool {
        true
    }

    open spec fn from_spec(value: rayon::ThreadPoolBuildError) -> Self {
        PipelineCompressionError::CompressionError(CompressionError::FailedToBuildThreadPool(value))
    }
}

/// What can end the reading of one file through a pipeline.
#[derive(Debug)]
pub enum PipelineDecompressionError {
    /// The feature asked for does not exist yet.
    NotImplemented(String),
    Generic(String),
    HashingError(HashingError),
    PasswordError(PasswordError),
    /// The first failure met while the bytes were streaming.
    IOError(StreamError),
    DecompressionError(DecompressionError),
    EncryptionError(EncryptionError),
    EncryptionSecretError(EncryptionSecretError),
    DecryptorInitError(EncryptorInitError),
    CompressionInitError(CompressorInitError),
    SignerInitError(SignerInitError),
}

impl PipelineDecompressionError {
    /// The message of this error, where `outside` are the words of the
    /// error from outside the library that it wraps, if it wraps one.
    pub open spec fn wording(self, outside: Seq<char>) -> Seq<char> {
        match self {
            PipelineDecompressionError::NotImplemented(inner) => inner@,
            PipelineDecompressionError::Generic(inner) => "Generic Error: "@ + inner@,
            PipelineDecompressionError::HashingError(inner) => inner.wording(outside),
            PipelineDecompressionError::PasswordError(inner) => inner.wording(outside),
            PipelineDecompressionError::IOError(inner) => inner.wording(outside),
            PipelineDecompressionError::DecompressionError(inner) => inner.wording(outside),
            PipelineDecompressionError::EncryptionError(inner) => inner.wording(outside),
            PipelineDecompressionError::EncryptionSecretError(inner) => inner.wording(outside),
            PipelineDecompressionError::DecryptorInitError(inner) => inner.wording(outside),
            PipelineDecompressionError::CompressionInitError(inner) => inner.wording(outside),
            PipelineDecompressionError::SignerInitError(inner) => inner.wording(outside),
        }
    }

    /// What this error has to say.
    pub fn message(&self) -> (res: String)
        ensures
            exists|outside: Seq<char>| res@ == self.wording(outside),
    {
        match self {
            PipelineDecompressionError::NotImplemented(inner) => {
                let text = inner.clone();
                assert(text@ == self.wording(Seq::empty()));
                text
            },
            PipelineDecompressionError::Generic(inner) => {
                let text = concat_text("Generic Error: ", inner.as_str());
                assert(text@ == self.wording(Seq::empty()));
                text
            },
            PipelineDecompressionError::HashingError(inner) => {
                let text = inner.message();
                proof {
                    let outside = choose|outside: Seq<char>| text@ == inner.wording(outside);
                    assert(text@ == self.wording(outside));
                }
                text
            },
            PipelineDecompressionError::PasswordError(inner) => {
                let text = inner.message();
                proof {
                    let outside = choose|outside: Seq<char>| text@ == inner.wording(outside);
                    assert(text@ == self.wording(outside));
                }
                text
            },
            PipelineDecompressionError::IOError(inner) => {
                let text = inner.message();
                proof {
                    let outside = choose|outside: Seq<char>| text@ == inner.wording(outside);
                    assert(text@ == self.wording(outside));
                }
                text
            },
            PipelineDecompressionError::DecompressionError(inner) => {
                let text = inner.message();
                proof {
                    let outside = choose|outside: Seq<char>| text@ == inner.wording(outside);
                    assert(text@ == self.wording(outside));
                }
                text
            },
            PipelineDecompressionError::EncryptionError(inner) => {
                let text = inner.message();
                proof {
                    let outside = choose|outside: Seq<char>| text@ == inner.wording(outside);
                    assert(text@ == self.wording(outside));
                }
                text
            },
            PipelineDecompressionError::EncryptionSecretError(inner) => {
                let text = inner.message();
                proof {
                    let outside = choose|outside: Seq<char>| text@ == inner.wording(outside);
                    assert(text@ == self.wording(outside));
                }
                text
            },
            PipelineDecompressionError::DecryptorInitError(inner) => {
                let text = inner.message();
                proof {
                    let outside = choose|outside: Seq<char>| text@ == inner.wording(outside);
                    assert(text@ == self.wording(outside));
                }
                text
            },
            PipelineDecompressionError::CompressionInitError(inner) => {
                let text = inner.message();
                proof {
                    let outside = choose|outside: Seq<char>| text@ == inner.wording(outside);
                    assert(text@ == self.wording(outside));
                }
                text
            },
            PipelineDecompressionError::SignerInitError(inner) => {
                let text = inner.message();
                proof {
                    let outside = choose|outside: Seq<char>| text@ == inner.wording(outside);
                    assert(text@ == self.wording(outside));
                }
                text
            },
        }
    }
}

impl From<CompressorInitError> for PipelineDecompressionError {
    fn from(value: CompressorInitError) -> (res: Self) {
        PipelineDecompressionError::CompressionInitError(value)
    }
}

impl FromSpecImpl<CompressorInitError> for PipelineDecompressionError {
    open spec fn obeys_from_spec() -> bool {
        true
    }

    open spec fn from_spec(value: CompressorInitError) -> Self {
        PipelineDecompressionError::CompressionInitError(value)
    }
}

impl From<SignerInitError> for PipelineDecompressionError {
    fn from(value: SignerInitError) -> (res: Self) {
        PipelineDecompressionError::SignerInitError(value)
    }
}

impl FromSpecImpl<SignerInitError> for PipelineDecompressionError {
    open spec fn obeys_from_spec() -> bool {
        true
    }

    open spec fn from_spec(value: SignerInitError) -> Self {
        PipelineDecompressionError::SignerInitError(value)
    }
}

impl From<EncryptorInitError> for PipelineDecompressionError {
    fn from(value: EncryptorInitError) -> (res: Self) {
        PipelineDecompressionError::DecryptorInitError(value)
    }
}

impl FromSpecImpl<EncryptorInitError> for PipelineDecompressionError {
    open spec fn obeys_from_spec() -> bool {
        true
    }

    open spec fn from_spec(value: EncryptorInitError) -> Self {
        PipelineDecompressionError::DecryptorInitError(value)
    }
}

impl From<EncryptionSecretError> for PipelineDecompressionError {
    fn from(value: EncryptionSecretError) -> (res: Self) {
        PipelineDecompressionError::EncryptionSecretError(value)
    }
}

impl FromSpecImpl<EncryptionSecretError> for PipelineDecompressionError {
    open spec fn obeys_from_spec() -> bool {
        true
    }

    open spec fn from_spec(value: EncryptionSecretError) -> Self {
        PipelineDecompressionError::EncryptionSecretError(value)
    }
}

impl From<EncryptionError> for PipelineDecompressionError {
    fn from(value: EncryptionError) -> (res: Self) {
        PipelineDecompressionError::EncryptionError(value)
    }
}

impl FromSpecImpl<EncryptionError> for PipelineDecompressionError {
    open spec fn obeys_from_spec() -> bool {
        true
    }

    open spec fn from_spec(value: EncryptionError) -> Self {
        PipelineDecompressionError::EncryptionError(value)
    }
}

impl From<DecompressionError> for PipelineDecompressionError {
    fn from(value: DecompressionError) -> (res: Self) {
        PipelineDecompressionError::DecompressionError(value)
    }
}

impl FromSpecImpl<DecompressionError> for PipelineDecompressionError {
    open spec fn obeys_from_spec() -> bool {
        true
    }

    open spec fn from_spec(value: DecompressionError) -> Self {
        PipelineDecompressionError::DecompressionError(value)
    }
}

impl From<StreamError> for PipelineDecompressionError {
    fn from(value: StreamError) -> (res: Self) {
        PipelineDecompressionError::IOError(value)
    }
}

impl FromSpecImpl<StreamError> for PipelineDecompressionError {
    open spec fn obeys_from_spec() -> bool {
        true
    }

    open spec fn from_spec(value: StreamError) -> Self {
        PipelineDecompressionError::IOError(value)
    }
}

impl From<std::io::Error> for PipelineDecompressionError {
    fn from(value: std::io::Error) -> (res: Self) {
        PipelineDecompressionError::IOError(StreamError::Io(value))
    }
}

impl FromSpecImpl<std::io::Error> for PipelineDecompressionError {
    open spec fn obeys_from_spec() -> bool {
        true
    }

    open spec fn from_spec(value: std::io::Error) -> Self {
        PipelineDecompressionError::IOError(StreamError::Io(value))
    }
}

impl From<PasswordError> for PipelineDecompressionError {
    fn from(value: PasswordError) -> (res: Self) {
        PipelineDecompressionError::PasswordError(value)
    }
}

impl FromSpecImpl<PasswordError> for PipelineDecompressionError {
    open spec fn obeys_from_spec() -> bool {
        true
    }

    open spec fn from_spec(value: PasswordError) -> Self {
        PipelineDecompressionError::PasswordError(value)
    }
}

impl From<HashingError> for PipelineDecompressionError {
    fn from(value: HashingError) -> (res: Self) {
        PipelineDecompressionError::HashingError(value)
    }
}

impl FromSpecImpl<HashingError> for PipelineDecompressionError {
    open spec fn obeys_from_spec() -> bool {
        true
    }

    open spec fn from_spec(value: HashingError) -> Self {
        PipelineDecompressionError::HashingError(value)
    }
}

impl From<rayon::ThreadPoolBuildError> for PipelineDecompressionError {
    fn from(value: rayon::ThreadPoolBuildError) -> (res: Self) {
        PipelineDecompressionError::DecompressionError(DecompressionError::FailedToBuildThreadPool(value))
    }
}

impl FromSpecImpl<rayon::ThreadPoolBuildError> for PipelineDecompressionError {
    open spec fn obeys_from_spec() -> bool {
        true
    }

    open spec fn from_spec(value: rayon::ThreadPoolBuildError) -> Self {
        PipelineDecompressionError::DecompressionError(DecompressionError::FailedToBuildThreadPool(value))
    }
}

/// Why a pipeline could not be put together.
#[derive(Debug)]
pub enum PipelineBuildError {
    CompressInit(CompressorInitError),
    SignerInit(SignerInitError),
    EncryptorInit(EncryptorInitError),
}

impl PipelineBuildError {
    /// The message of this error, where `outside` are the words of the
    /// error from outside the library that it wraps, if it wraps one.
    pub open spec fn wording(self, outside: Seq<char>) -> Seq<char> {
        match self {
            PipelineBuildError::CompressInit(inner) => inner.wording(outside),
            PipelineBuildError::SignerInit(inner) => inner.wording(outside),
            PipelineBuildError::EncryptorInit(inner) => inner.wording(outside),
        }
    }

    /// What this error has to say.
    pub fn message(&self) -> (res: String)
        ensures
            exists|outside: Seq<char>| res@ == self.wording(outside),
    {
        match self {
            PipelineBuildError::CompressInit(inner) => {
                let text = inner.message();
                proof {
                    let outside = choose|outside: Seq<char>| text@ == inner.wording(outside);
                    assert(text@ == self.wording(outside));
                }
                text
            },
            PipelineBuildError::SignerInit(inner) => {
                let text = inner.message();
                proof {
                    let outside = choose|outside: Seq<char>| text@ == inner.wording(outside);
                    assert(text@ == self.wording(outside));
                }
                text
            },
            PipelineBuildError::EncryptorInit(inner) => {
                let text = inner.message();
                proof {
                    let outside = choose|outside: Seq<char>| text@ == inner.wording(outside);
                    assert(text@ == self.wording(outside));
                }
                text
            },
        }
    }
}

impl From<CompressorInitError> for PipelineBuildError {
    fn from(value: CompressorInitError) -> (res: Self) {
        PipelineBuildError::CompressInit(value)
    }
}

impl FromSpecImpl<CompressorInitError> for PipelineBuildError {
    open spec fn obeys_from_spec() -> bool {
        true
    }

    open spec fn from_spec(value: CompressorInitError) -> Self {
        PipelineBuildError::CompressInit(value)
    }
}

impl From<SignerInitError> for PipelineBuildError {
    fn from(value: SignerInitError) -> (res: Self) {
        PipelineBuildError::SignerInit(value)
    }
}

impl FromSpecImpl<SignerInitError> for PipelineBuildError {
    open spec fn obeys_from_spec() -> bool {
        true
    }

    open spec fn from_spec(value: SignerInitError) -> Self {
        PipelineBuildError::SignerInit(value)
    }
}

impl From<EncryptorInitError> for PipelineBuildError {
    fn from(value: EncryptorInitError) -> (res: Self) {
        PipelineBuildError::EncryptorInit(value)
    }
}

impl FromSpecImpl<EncryptorInitError> for PipelineBuildError {
    open spec fn obeys_from_spec() -> bool {
        true
    }

    open spec fn from_spec(value: EncryptorInitError) -> Self {
        PipelineBuildError::EncryptorInit(value)
    }
}

/// Why a compressor or a decompressor could not be made. None of the codecs
/// at hand ever refuses.
#[derive(Debug)]
pub enum CompressorInitError {
    Unavailable,
}

impl CompressorInitError {
    /// The message of this error, where `outside` are the words of the
    /// error from outside the library that it wraps, if it wraps one.
    pub open spec fn wording(self, outside: Seq<char>) -> Seq<char> {
        match self {
            CompressorInitError::Unavailable => "No compressor to be had"@,
        }
    }

    /// What this error has to say.
    pub fn message(&self) -> (res: String)
        ensures
            exists|outside: Seq<char>| res@ == self.wording(outside),
    {
        match self {
            CompressorInitError::Unavailable => {
                let text = "No compressor to be had".to_owned();
                assert(text@ == self.wording(Seq::empty()));
                text
            },
        }
    }
}

/// Why a signer or a verifier could not be made. The one method at hand never
/// refuses.
#[derive(Debug)]
pub enum SignerInitError {
    Unavailable,
}

impl SignerInitError {
    /// The message of this error, where `outside` are the words of the
    /// error from outside the library that it wraps, if it wraps one.
    pub open spec fn wording(self, outside: Seq<char>) -> Seq<char> {
        match self {
            SignerInitError::Unavailable => "No signer to be had"@,
        }
    }

    /// What this error has to say.
    pub fn message(&self) -> (res: String)
        ensures
            exists|outside: Seq<char>| res@ == self.wording(outside),
    {
        match self {
            SignerInitError::Unavailable => {
                let text = "No signer to be had".to_owned();
                assert(text@ == self.wording(Seq::empty()));
                text
            },
        }
    }
}

} // verus!
