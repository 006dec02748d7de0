//! What the command line asks for, and what that comes to once the
//! shorthands are resolved.
use crate::compression::codec::CompressionLevel;
use crate::compression::CompressionType;
use crate::encryption::EncryptionType;
use crate::error::ZapError;
use crate::util::same_text;
use vstd::prelude::*;
use vstd::std_specs::convert::FromSpecImpl;

verus! {

/// How much the program says while it works.
#[derive(Clone, Copy, Debug, PartialEq, Eq, Structural)]
pub enum Verbosity {
    Quiet,
    Normal,
    Verbose,
    Debug,
}

impl From<String> for CompressionLevel {
    /// `fastest` and `best` name their levels; anything else means the
    /// default.
    fn from(s: String) -> (res: Self) {
        if same_text(s.as_str(), "fastest") {
            CompressionLevel::Fastest
        } else if same_text(s.as_str(), "best") {
            CompressionLevel::Best
        } else {
            CompressionLevel::Default
        }
    }
}

impl FromSpecImpl<String> for CompressionLevel {
    open spec fn obeys_from_spec() -> bool {
        true
    }

    open spec fn from_spec(s: String) -> Self {
        if s@ == "fastest"@ {
            CompressionLevel::Fastest
        } else if s@ == "best"@ {
            CompressionLevel::Best
        } else {
            CompressionLevel::Default
        }
    }
}

/// The compression algorithm as the command line names it.
#[derive(Clone, Copy, Debug, PartialEq, Eq, Structural)]
pub enum BinCompressionType {
    Passthrough,
    Lz4,
    Gzip,
    Snappy,
}

impl Default for BinCompressionType {
    fn default() -> (res: Self)
        ensures
            res is Lz4,
    {
        BinCompressionType::Lz4
    }
}

impl From<String> for BinCompressionType {
    /// The four algorithms by their names in lower case. The empty string
    /// means the default, LZ4; any other word means none.
    fn from(s: String) -> (res: Self) {
        if same_text(s.as_str(), "passthrough") {
            BinCompressionType::Passthrough
        } else if same_text(s.as_str(), "lz4") {
            BinCompressionType::Lz4
        } else if same_text(s.as_str(), "gzip") {
            BinCompressionType::Gzip
        } else if same_text(s.as_str(), "snappy") {
            BinCompressionType::Snappy
        } else if same_text(s.as_str(), "") {
            BinCompressionType::Lz4
        } else {
            BinCompressionType::Passthrough
        }
    }
}

impl FromSpecImpl<String> for BinCompressionType {
    open spec fn obeys_from_spec() -> bool {
        true
    }

    open spec fn from_spec(s: String) -> Self {
        if s@ == "passthrough"@ {
            BinCompressionType::Passthrough
        } else if s@ == "lz4"@ {
            BinCompressionType::Lz4
        } else if s@ == "gzip"@ {
            BinCompressionType::Gzip
        } else if s@ == "snappy"@ {
            BinCompressionType::Snappy
        } else if s@ == ""@ {
            BinCompressionType::Lz4
        } else {
            BinCompressionType::Passthrough
        }
    }
}

impl From<CompressionType> for BinCompressionType {
    fn from(e: CompressionType) -> (res: Self) {
        match e {
            CompressionType::Passthrough => BinCompressionType::Passthrough,
            CompressionType::Lz4 => BinCompressionType::Lz4,
            CompressionType::Gzip => BinCompressionType::Gzip,
            CompressionType::Snappy => BinCompressionType::Snappy,
        }
    }
}

impl FromSpecImpl<CompressionType> for BinCompressionType {
    open spec fn obeys_from_spec() -> bool {
        true
    }

    open spec fn from_spec(e: CompressionType) -> Self {
        match e {
            CompressionType::Passthrough => BinCompressionType::Passthrough,
            CompressionType::Lz4 => BinCompressionType::Lz4,
            CompressionType::Gzip => BinCompressionType::Gzip,
            CompressionType::Snappy => BinCompressionType::Snappy,
        }
    }
}

impl From<BinCompressionType> for CompressionType {
    fn from(e: BinCompressionType) -> (res: Self) {
        match e {
            BinCompressionType::Passthrough => CompressionType::Passthrough,
            BinCompressionType::Lz4 => CompressionType::Lz4,
            BinCompressionType::Gzip => CompressionType::Gzip,
            BinCompressionType::Snappy => CompressionType::Snappy,
        }
    }
}

impl FromSpecImpl<BinCompressionType> for CompressionType {
    open spec fn obeys_from_spec() -> bool {
        true
    }

    open spec fn from_spec(e: BinCompressionType) -> Self {
        compression_named(e)
    }
}

/// The encryption algorithm as the command line names it.
#[derive(Clone, Copy, Debug, PartialEq, Eq, Structural)]
pub enum BinEncryptionType {
    Passthrough,
    XChaCha,
    AesGcm,
    ChaCha,
}

impl Default for BinEncryptionType {
    fn default() -> (res: Self)
        ensures
            res is XChaCha,
    {
        BinEncryptionType::XChaCha
    }
}

impl From<String> for BinEncryptionType {
    /// The four algorithms by their names in lower case. The empty string
    /// means the default, XChaCha20-Poly1305; any other word means none.
    fn from(s: String) -> (res: Self) {
        if same_text(s.as_str(), "passthrough") {
            BinEncryptionType::Passthrough
        } else if same_text(s.as_str(), "xchacha") {
            BinEncryptionType::XChaCha
        } else if same_text(s.as_str(), "aesgcm") {
            BinEncryptionType::AesGcm
        } else if same_text(s.as_str(), "chacha") {
            BinEncryptionType::ChaCha
        } else if same_text(s.as_str(), "") {
            BinEncryptionType::XChaCha
        } else {
            BinEncryptionType::Passthrough
        }
    }
}

impl FromSpecImpl<String> for BinEncryptionType {
    open spec fn obeys_from_spec() -> bool {
        true
    }

    open spec fn from_spec(s: String) -> Self {
        if s@ == "passthrough"@ {
            BinEncryptionType::Passthrough
        } else if s@ == "xchacha"@ {
            BinEncryptionType::XChaCha
        } else if s@ == "aesgcm"@ {
            BinEncryptionType::AesGcm
        } else if s@ == "chacha"@ {
            BinEncryptionType::ChaCha
        } else if s@ == ""@ {
            BinEncryptionType::XChaCha
        } else {
            BinEncryptionType::Passthrough
        }
    }
}

impl From<EncryptionType> for BinEncryptionType {
    fn from(e: EncryptionType) -> (res: Self) {
        match e {
            EncryptionType::Passthrough => BinEncryptionType::Passthrough,
            EncryptionType::XChaCha => BinEncryptionType::XChaCha,
            EncryptionType::AesGcm => BinEncryptionType::AesGcm,
            EncryptionType::ChaCha => BinEncryptionType::ChaCha,
        }
    }
}

impl FromSpecImpl<EncryptionType> for BinEncryptionType {
    open spec fn obeys_from_spec() -> bool {
        true
    }

    open spec fn from_spec(e: EncryptionType) -> Self {
        match e {
            EncryptionType::Passthrough => BinEncryptionType::Passthrough,
            EncryptionType::XChaCha => BinEncryptionType::XChaCha,
            EncryptionType::AesGcm => BinEncryptionType::AesGcm,
            EncryptionType::ChaCha => BinEncryptionType::ChaCha,
        }
    }
}

impl From<BinEncryptionType> for EncryptionType {
    fn from(e: BinEncryptionType) -> (res: Self) {
        match e {
            BinEncryptionType::Passthrough => EncryptionType::Passthrough,
            BinEncryptionType::XChaCha => EncryptionType::XChaCha,
            BinEncryptionType::AesGcm => EncryptionType::AesGcm,
            BinEncryptionType::ChaCha => EncryptionType::ChaCha,
        }
    }
}

impl FromSpecImpl<BinEncryptionType> for EncryptionType {
    open spec fn obeys_from_spec() -> bool {
        true
    }

    open spec fn from_spec(e: BinEncryptionType) -> Self {
        encryption_named(e)
    }
}

/// A command as it was typed.
#[derive(Debug)]
pub enum Command {
    /// Archive a folder.
    Archive {
        input: String,
        output: String,
        /// Encrypt with the default algorithm.
        encrypt: bool,
        /// Compress with the default algorithm.
        compress: bool,
        /// Path of a key file.
        keypath: Option<String>,
        verbosity: Verbosity,
        encryption_algorithm: BinEncryptionType,
        compression_algorithm: BinCompressionType,
        compression_level: CompressionLevel,
    },
    /// Extract an archive.
    Extract {
        input: String,
        output: String,
        /// Decrypt with the default algorithm.
        encrypt: bool,
        /// Decompress with the default algorithm.
        compress: bool,
        /// Path of a key file.
        keypath: Option<String>,
        verbosity: Verbosity,
        encryption_algorithm: BinEncryptionType,
        compression_algorithm: BinCompressionType,
    },
    /// List the contents of an archive.
    List { archive: String, verbosity: Verbosity },
}

/// Where the secret of a run is to come from.
#[derive(Debug)]
pub enum SecretSource {
    /// Nothing is encrypted, so there is none.
    NoSecret,
    /// From the key file at this path.
    KeyFile(String),
    /// From a password that is asked for.
    Password,
}

/// What a command comes to.
#[derive(Debug)]
pub enum Job {
    Archive {
        input: String,
        output: String,
        verbosity: Verbosity,
        encryption: EncryptionType,
        secret: SecretSource,
        compression: CompressionType,
        compression_level: CompressionLevel,
    },
    Extract {
        input: String,
        output: String,
        verbosity: Verbosity,
        encryption: EncryptionType,
        secret: SecretSource,
        compression: CompressionType,
    },
    List { archive: String, verbosity: Verbosity },
}

/// The library's name for what the command line names.
pub open spec fn encryption_named(e: BinEncryptionType) -> EncryptionType {
    match e {
        BinEncryptionType::Passthrough => EncryptionType::Passthrough,
        BinEncryptionType::XChaCha => EncryptionType::XChaCha,
        BinEncryptionType::AesGcm => EncryptionType::AesGcm,
        BinEncryptionType::ChaCha => EncryptionType::ChaCha,
    }
}

/// The library's name for what the command line names.
pub open spec fn compression_named(e: BinCompressionType) -> CompressionType {
    match e {
        BinCompressionType::Passthrough => CompressionType::Passthrough,
        BinCompressionType::Lz4 => CompressionType::Lz4,
        BinCompressionType::Gzip => CompressionType::Gzip,
        BinCompressionType::Snappy => CompressionType::Snappy,
    }
}

/// The encryption algorithm meant: the one chosen, or, where the plain
/// switch is set and none was chosen, XChaCha20-Poly1305.
pub open spec fn encryption_meant(switch: bool, chosen: BinEncryptionType) -> EncryptionType {
    if switch && chosen is Passthrough {
        EncryptionType::XChaCha
    } else {
        encryption_named(chosen)
    }
}

/// The compression algorithm meant: the one chosen, or, where the plain
/// switch is set and none was chosen, LZ4.
pub open spec fn compression_meant(switch: bool, chosen: BinCompressionType) -> CompressionType {
    if switch && chosen is Passthrough {
        CompressionType::Lz4
    } else {
        compression_named(chosen)
    }
}

/// Where the secret comes from: nowhere without encryption; else from the
/// key file, where one is named; else from a password.
pub open spec fn secret_meant(encryption: EncryptionType, keypath: Option<String>) -> SecretSource {
    if encryption is Passthrough {
        SecretSource::NoSecret
    } else {
        match keypath {
            Some(path) => SecretSource::KeyFile(path),
            None => SecretSource::Password,
        }
    }
}

/// The words in which a listing is refused.
pub const LISTING_REFUSAL: &'static str = "Archive listing not yet implemented.";

/// Lists what `archive` holds. No listing is offered yet: whatever the
/// archive, the answer is `ZapError::NotImplemented`, and nothing is read.
pub fn list(archive: &str) -> (res: Result<(), ZapError>)
    ensures
        res matches Err(ZapError::NotImplemented(text)) && text@ == LISTING_REFUSAL@,
{
    Err(ZapError::NotImplemented(LISTING_REFUSAL.to_owned()))
}

/// The encryption algorithm that a switch and a choice come to.
pub fn effective_encryption(switch: bool, chosen: BinEncryptionType) -> (res: EncryptionType)
    ensures
        res == encryption_meant(switch, chosen),
{
    match (switch, chosen) {
        (true, BinEncryptionType::Passthrough) => EncryptionType::XChaCha,
        (_, chosen) => EncryptionType::from(chosen),
    }
}

/// The compression algorithm that a switch and a choice come to.
pub fn effective_compression(switch: bool, chosen: BinCompressionType) -> (res: CompressionType)
    ensures
        res == compression_meant(switch, chosen),
{
    match (switch, chosen) {
        (true, BinCompressionType::Passthrough) => CompressionType::Lz4,
        (_, chosen) => CompressionType::from(chosen),
    }
}

/// Where the secret of a run comes from.
pub fn secret_source(encryption: EncryptionType, keypath: Option<String>) -> (res: SecretSource)
    ensures
        res == secret_meant(encryption, keypath),
{
    match (encryption, keypath) {
        (EncryptionType::Passthrough, _) => SecretSource::NoSecret,
        (_, Some(path)) => SecretSource::KeyFile(path),
        (_, None) => SecretSource::Password,
    }
}

impl Command {
    /// What this command comes to.
    pub open spec fn resolved(self) -> Job {
        match self {
            Command::Archive {
                input,
                output,
                encrypt,
                compress,
                keypath,
                verbosity,
                encryption_algorithm,
                compression_algorithm,
                compression_level,
            } => Job::Archive {
                input,
                output,
                verbosity,
                encryption: encryption_meant(encrypt, encryption_algorithm),
                secret: secret_meant(encryption_meant(encrypt, encryption_algorithm), keypath),
                compression: compression_meant(compress, compression_algorithm),
                compression_level,
            },
            Command::Extract {
                input,
                output,
                encrypt,
                compress,
                keypath,
                verbosity,
                encryption_algorithm,
                compression_algorithm,
            } => Job::Extract {
                input,
                output,
                verbosity,
                encryption: encryption_meant(encrypt, encryption_algorithm),
                secret: secret_meant(encryption_meant(encrypt, encryption_algorithm), keypath),
                compression: compression_meant(compress, compression_algorithm),
            },
            Command::List { archive, verbosity } => Job::List { archive, verbosity },
        }
    }

    /// Resolves the shorthands of the command: the plain switches stand for
    /// the default algorithms, and the secret's source follows from the
    /// encryption and the key path.
    pub fn resolve(self) -> (res: Job)
        ensures
            res == self.resolved(),
    {
        match self {
            Command::Archive {
                input,
                output,
                encrypt,
                compress,
                keypath,
                verbosity,
                encryption_algorithm,
                compression_algorithm,
                compression_level,
            } => {
                let encryption = effective_encryption(encrypt, encryption_algorithm);
                Job::Archive {
                    input,
                    output,
                    verbosity,
                    encryption,
                    secret: secret_source(encryption, keypath),
                    compression: effective_compression(compress, compression_algorithm),
                    compression_level,
                }
            },
            Command::Extract {
                input,
                output,
                encrypt,
                compress,
                keypath,
                verbosity,
                encryption_algorithm,
                compression_algorithm,
            } => {
                let encryption = effective_encryption(encrypt, encryption_algorithm);
                Job::Extract {
                    input,
                    output,
                    verbosity,
                    encryption,
                    secret: secret_source(encryption, keypath),
                    compression: effective_compression(compress, compression_algorithm),
                }
            },
            Command::List { archive, verbosity } => Job::List { archive, verbosity },
        }
    }
}

} // verus!
