//! What a user chooses on the command line, and the defaults for what is
//! left out.

use vstd::prelude::*;

verus! {

/// A path of the file system, as `std` has it.
#[verifier::external_type_specification]
#[verifier::external_body]
pub struct ExPathBuf(std::path::PathBuf);

/// `PathBuf::clone`: a copy of the path.
pub assume_specification[ <std::path::PathBuf as std::clone::Clone>::clone ](
    path: &std::path::PathBuf,
) -> (copy: std::path::PathBuf)
    ensures
        copy == *path,
;

/// Parquet version available for user
#[derive(Debug, Clone, Copy, PartialEq, Eq, Structural)]
pub enum ParquetVersion {
    /// Parquet version 1
    V1,
    /// Parquet version 2
    V2,
}

/// Compression available for user
#[derive(Debug, Clone, Copy, PartialEq, Eq, Structural)]
pub enum Compression {
    /// No compression
    Uncompressed,
    /// Snappy compression
    Snappy,
    /// Gzip compression
    Gzip,
    /// Lzo compression
    Lzo,
    /// Brotli compression
    Brotli,
    /// Lz4 compression
    Lz4,
    /// Zstd compression
    Zstd,
}

/// Batch size where the user gives none.
pub const DEFAULT_BATCH_SIZE: usize = 100_000;

/// Read buffer size in bytes where the user gives none.
pub const DEFAULT_READ_BUFFER: usize = 8192;

/// Convert a vcf in a parquet
#[derive(Debug, Clone)]
pub struct Convert {
    /// Output path
    pub output: std::path::PathBuf,
}

/// Convert a vcf in multiple parquet file each file contains `batch_size` record
#[derive(Debug, Clone)]
pub struct Split {
    /// Output format string, first {} are replace by number
    pub format: String,
}

/// Enum to manage sub command
#[derive(Debug, Clone)]
pub enum SubCommand {
    /// Convert a vcf in a parquet
    Convert(Convert),
    /// Convert a vcf in multiple parquet file each file contains `batch_size` record
    Split(Split),
}

/// The choices of one run.
#[derive(Debug)]
pub struct Command {
    /// Input path
    pub input: std::path::PathBuf,
    /// Batch size
    pub batch_size: Option<usize>,
    /// Compression method
    pub compression: Option<Compression>,
    /// Read buffer size in bytes
    pub read_buffer: Option<usize>,
    /// All information fields are optional
    pub info_optional: bool,
    /// Version of parquet
    pub parquet_version: Option<ParquetVersion>,
    /// What to do with the input
    pub subcommand: SubCommand,
}

impl Command {
    /// Get input
    pub fn input(&self) -> (path: &std::path::PathBuf)
        ensures
            *path == self.input,
    {
        &self.input
    }

    /// Get batch_size set by user or default value
    pub fn batch_size(&self) -> (size: usize)
        ensures
            size == match self.batch_size {
                Some(n) => n,
                None => DEFAULT_BATCH_SIZE,
            },
    {
        match self.batch_size {
            Some(n) => n,
            None => DEFAULT_BATCH_SIZE,
        }
    }

    /// Get compression set by user or default value, snappy
    pub fn compression(&self) -> (method: Compression)
        ensures
            method == match self.compression {
                Some(c) => c,
                None => Compression::Snappy,
            },
    {
        match self.compression {
            Some(c) => c,
            None => Compression::Snappy,
        }
    }

    /// Get parquet version set by user or default value, version 2
    pub fn parquet_version(&self) -> (version: ParquetVersion)
        ensures
            version == match self.parquet_version {
                Some(v) => v,
                None => ParquetVersion::V2,
            },
    {
        match self.parquet_version {
            Some(v) => v,
            None => ParquetVersion::V2,
        }
    }

    /// Get read buffer size set by user or default value
    pub fn read_buffer(&self) -> (size: usize)
        ensures
            size == match self.read_buffer {
                Some(n) => n,
                None => DEFAULT_READ_BUFFER,
            },
    {
        match self.read_buffer {
            Some(n) => n,
            None => DEFAULT_READ_BUFFER,
        }
    }

    /// Get info optional
    pub fn info_optional(&self) -> (optional: bool)
        ensures
            optional == self.info_optional,
    {
        self.info_optional
    }

    /// Get subcommand
    pub fn subcommand(&self) -> (subcommand: &SubCommand)
        ensures
            *subcommand == self.subcommand,
    {
        &self.subcommand
    }
}

impl Convert {
    /// Get output
    pub fn output(&self) -> (path: &std::path::PathBuf)
        ensures
            *path == self.output,
    {
        &self.output
    }
}

impl Split {
    /// Get output format
    pub fn format(&self) -> (format: &str)
        ensures
            format@ == self.format@,
    {
        self.format.as_str()
    }

    /// The name of the file of batch `index`: the output format with each
    /// `{}` replaced by the number.
    pub fn file_name(&self, index: usize) -> (name: String)
        ensures
            name@ == crate::template::filled(
                self.format@,
                crate::template::decimal(index as nat),
            ),
    {
        crate::template::fill(self.format.as_str(), index)
    }
}

} // verus!
