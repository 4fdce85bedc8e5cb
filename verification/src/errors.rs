//! Failure taxonomy of the engine.
//!
//! Every per-tick failure is converted into one of these variants, appended
//! to the error log, and answered with a long backoff; nothing escapes the
//! capture loop. Configuration failures are fatal at construction only.

use vstd::prelude::*;
use vstd::string::*;

verus! {

/// A failure in one stage of the engine.
#[derive(Debug)]
pub enum EngineError {
    /// Configuration failure: the storage root could not be resolved.
    UnableToFindHomeDir,
    /// Capture failure: display enumeration, selection or raw-buffer
    /// acquisition failed.
    UnableToCreateScreenshot { reason: String },
    /// Processing failure: decode, resize, canvas allocation, composite or
    /// write failed for the frame at `path`.
    UnableToResizeScreenshot { path: String, reason: String },
    /// A frame path was not representable as text.
    UnableToConvertScreenshotPathToString,
    /// Classification failure: the blank detector could not sample pixels.
    UnableToCheckIfImageIsBlack { reason: String },
    /// Storage failure: the metadata store reported an error.
    DatabaseError(rusqlite::Error),
    /// Filesystem failure: day-directory creation or file deletion failed.
    IoError { reason: String },
}

impl EngineError {
    /// A human-readable description of the failure.
    pub fn message(&self) -> (r: String)
        ensures
            self matches EngineError::UnableToFindHomeDir ==> r@ == "Unable to find home dir"@,
            self matches EngineError::UnableToCreateScreenshot { reason } ==> r@
                == "Unable to create screenshot because: "@ + reason@,
            self matches EngineError::UnableToResizeScreenshot { path, reason } ==> r@
                == "Unable to resize screenshot "@ + path@ + " because: "@ + reason@,
            self matches EngineError::UnableToConvertScreenshotPathToString ==> r@
                == "Unable convert screenshot path to string"@,
            self matches EngineError::UnableToCheckIfImageIsBlack { reason } ==> r@
                == "Unable to check if image is black: "@ + reason@,
            self matches EngineError::DatabaseError(_) ==> r@.len() >= 15 && r@.take(15)
                == "Database error:"@,
            self matches EngineError::IoError { .. } ==> r@ == "IO Error"@,
    {
        match self {
            EngineError::UnableToFindHomeDir => "Unable to find home dir".to_owned(),
            EngineError::UnableToCreateScreenshot { reason } => "Unable to create screenshot because: ".to_owned().concat(reason.as_str()),
            EngineError::UnableToResizeScreenshot { path, reason } => {
                let r = "Unable to resize screenshot ".to_owned().concat(path.as_str()).concat(
                    " because: ",
                ).concat(reason.as_str());
                assert(r@ =~= "Unable to resize screenshot "@ + path@ + " because: "@ + reason@);
                r
            },
            EngineError::UnableToConvertScreenshotPathToString => "Unable convert screenshot path to string".to_owned(),
            EngineError::UnableToCheckIfImageIsBlack { reason } => "Unable to check if image is black: ".to_owned().concat(reason.as_str()),
            EngineError::DatabaseError(e) => {
                let r = "Database error:".to_owned().concat(" ").concat(
                    crate::store::sqlite_error_text(e).as_str(),
                );
                proof {
                    reveal_strlit("Database error:");
                    assert(r@.take(15) =~= "Database error:"@);
                }
                r
            },
            EngineError::IoError { .. } => "IO Error".to_owned(),
        }
    }
}

} // verus!
