//! The ways a weather lookup can fail.

use vstd::prelude::*;
use vstd::string::*;

verus! {

/// Why a weather lookup was given up. Every failure ends the lookup: nothing
/// is retried and nothing is printed.
#[derive(Debug, Clone, Copy, PartialEq, Eq, Structural)]
pub enum WeatherError {
    /// The request to the provider failed.
    NetworkError,
    /// The provider's answer could not be reduced to a JSON document.
    ExtractionError,
    /// A document lacks a field of the record, or holds one of the wrong
    /// kind, out of range or with an unknown code.
    MalformedRecord,
    /// The cache file could not be examined, read, removed or written.
    CacheIoError,
    /// The user's home directory is not known.
    HomeDirUnavailable,
}

impl WeatherError {
    /// The sentence shown to the user for this failure.
    pub open spec fn sentence(self) -> Seq<char> {
        match self {
            WeatherError::NetworkError => "Unable to reach the weather provider"@,
            WeatherError::ExtractionError => "Unable to extract the weather record"@,
            WeatherError::MalformedRecord => "Malformed weather record"@,
            WeatherError::CacheIoError => "Unable to access the cache file"@,
            WeatherError::HomeDirUnavailable => "Unable to find home directory"@,
        }
    }

    /// The sentence shown to the user for this failure, as a string.
    pub fn message(&self) -> (message: String)
        ensures
            message@ == self.sentence(),
    {
        let sentence: &str = match self {
            WeatherError::NetworkError => "Unable to reach the weather provider",
            WeatherError::ExtractionError => "Unable to extract the weather record",
            WeatherError::MalformedRecord => "Malformed weather record",
            WeatherError::CacheIoError => "Unable to access the cache file",
            WeatherError::HomeDirUnavailable => "Unable to find home directory",
        };
        String::from_str(sentence)
    }
}

} // verus!
