use vstd::prelude::*;
use crate::layout::{image_path, image_path_of, images_dir, images_dir_of};

verus! {

/// Why a save failed, with the text of the underlying error.
pub enum SaveError {
    /// The application data directory could not be resolved.
    DataDir(String),
    /// The images directory could not be created.
    CreateDir(String),
    /// The image file could not be written.
    Write(String),
}

impl SaveError {
    /// The text carried by the error, whatever its kind.
    pub open spec fn message_of(&self) -> Seq<char> {
        match self {
            SaveError::DataDir(m) => m@,
            SaveError::CreateDir(m) => m@,
            SaveError::Write(m) => m@,
        }
    }

    /// The human-readable message that the caller sees.
    pub fn message(&self) -> (r: String)
        ensures
            r@ == self.message_of(),
    {
        match self {
            SaveError::DataDir(m) => m.clone(),
            SaveError::CreateDir(m) => m.clone(),
            SaveError::Write(m) => m.clone(),
        }
    }
}

/// A request to store `bytes` as the image called `file_name`.
pub struct SaveRequest {
    pub file_name: String,
    pub bytes: Vec<u8>,
}

/// The data directory is known: the images directory must now exist.
pub struct PendingDir {
    pub images_dir: String,
    pub file_path: String,
    pub bytes: Vec<u8>,
}

/// The images directory exists: the bytes must now be written to `file_path`.
pub struct PendingWrite {
    pub file_path: String,
    pub bytes: Vec<u8>,
}

impl SaveRequest {
    pub fn new(file_name: String, bytes: Vec<u8>) -> (r: SaveRequest)
        ensures
            r.file_name@ == file_name@,
            r.bytes@ == bytes@,
    {
        SaveRequest { file_name, bytes }
    }

    /// Takes the outcome of resolving the application data directory.
    /// On success the request learns where its directory and its file are.
    pub fn data_dir_resolved(self, outcome: Result<String, String>) -> (r: Result<
        PendingDir,
        SaveError,
    >)
        ensures
            match outcome {
                Ok(dir) => r matches Ok(p) && p.images_dir@ == images_dir_of(dir@)
                    && p.file_path@ == image_path_of(dir@, self.file_name@) && p.bytes@
                    == self.bytes@,
                Err(e) => r matches Err(SaveError::DataDir(m)) && m@ == e@,
            },
    {
        match outcome {
            Ok(dir) => {
                let images_dir = images_dir(dir.as_str());
                let file_path = image_path(dir.as_str(), self.file_name.as_str());
                Ok(PendingDir { images_dir, file_path, bytes: self.bytes })
            },
            Err(e) => Err(SaveError::DataDir(e)),
        }
    }
}

impl PendingDir {
    /// Takes the outcome of creating the images directory (and any missing
    /// parents). A directory that was already there counts as created.
    /// Only a successful outcome leads on to writing the file.
    pub fn dir_created(self, outcome: Result<(), String>) -> (r: Result<PendingWrite, SaveError>)
        ensures
            match outcome {
                Ok(()) => r matches Ok(w) && w.file_path@ == self.file_path@ && w.bytes@
                    == self.bytes@,
                Err(e) => r matches Err(SaveError::CreateDir(m)) && m@ == e@,
            },
    {
        match outcome {
            Ok(()) => Ok(PendingWrite { file_path: self.file_path, bytes: self.bytes }),
            Err(e) => Err(SaveError::CreateDir(e)),
        }
    }
}

impl PendingWrite {
    /// Takes the outcome of writing the bytes; on success the result is the
    /// path of the file.
    pub fn written(self, outcome: Result<(), String>) -> (r: Result<String, SaveError>)
        ensures
            match outcome {
                Ok(()) => r matches Ok(p) && p@ == self.file_path@,
                Err(e) => r matches Err(SaveError::Write(m)) && m@ == e@,
            },
    {
        match outcome {
            Ok(()) => Ok(self.file_path),
            Err(e) => Err(SaveError::Write(e)),
        }
    }
}

/// The result handed back to the front end: the stored path, or the error's text.
pub fn command_result(r: Result<String, SaveError>) -> (out: Result<String, String>)
    ensures
        match r {
            Ok(p) => out matches Ok(q) && q@ == p@,
            Err(e) => out matches Err(m) && m@ == e.message_of(),
        },
{
    match r {
        Ok(p) => Ok(p),
        Err(e) => Err(e.message()),
    }
}

} // verus!
