//! The handling of one file that a scan finds: recordings that the ledger
//! does not hold yet are encoded, uploaded, and only then marked as uploaded.

use vstd::prelude::*;
use crate::command::Error;
use crate::ledger::{entry_path, entry_path_spec, FileEntry};
use crate::lifecycle::Config;
use crate::names::{encoded_name, encoded_name_spec, extension_of, is_wav};

verus! {

/// `dir/name`.
pub open spec fn path_join(dir: Seq<char>, name: Seq<char>) -> Seq<char> {
    dir + seq!['/'] + name
}

fn join(dir: &str, name: &str) -> (r: String)
    ensures
        r@ == path_join(dir@, name@),
{
    proof {
        reveal_strlit("/");
    }
    let mut r = String::from_str(dir);
    r.append("/");
    r.append(name);
    r
}

/// A source recording: its extension is `wav`.
pub open spec fn is_recording(name: Seq<char>) -> bool {
    extension_of(name) == Some(seq!['w', 'a', 'v'])
}

/// Where the handling of a file stands.
#[derive(Debug, Clone, Copy, PartialEq, Eq, Structural)]
pub enum FileStage {
    Measure,
    CheckLedger,
    PrepareWorkDir,
    Encode,
    Upload,
    Mark,
    Done,
}

/// The stage after a step of `s` that succeeded (`ok`) or failed; a failure
/// ends the handling of the file.
pub open spec fn next_file_stage(s: FileStage, ok: bool) -> FileStage {
    if !ok {
        FileStage::Done
    } else {
        match s {
            FileStage::PrepareWorkDir => FileStage::Encode,
            FileStage::Encode => FileStage::Upload,
            FileStage::Upload => FileStage::Mark,
            _ => FileStage::Done,
        }
    }
}

/// What the driver is to do next for the file.
#[derive(Debug)]
pub enum FileAction {
    /// Read the file's length in bytes.
    Measure,
    /// Tell whether the marker exists.
    CheckLedger { marker: String },
    /// Make `dir` an empty directory.
    PrepareWorkDir { dir: String },
    /// Encode the recording `source` into `output`.
    Encode { source: String, output: String },
    /// Copy `path` to the remote `destination`.
    Upload { path: String, destination: String },
    /// Create the marker.
    Mark { marker: String },
    /// The file is handled; the outcome is `FileUpload::result`.
    Done,
}

/// The handling of one file found under the mount point.
pub struct FileUpload {
    stage: FileStage,
    file_name: String,
    len: u64,
    source: String,
    output: String,
    work_dir: String,
    destination: String,
    error: Option<Error>,
}

impl FileUpload {
    pub closed spec fn stage(&self) -> FileStage {
        self.stage
    }

    pub closed spec fn name(&self) -> Seq<char> {
        self.file_name@
    }

    /// The file's length, once measured.
    pub closed spec fn size(&self) -> u64 {
        self.len
    }

    pub closed spec fn source(&self) -> Seq<char> {
        self.source@
    }

    pub closed spec fn output(&self) -> Seq<char> {
        self.output@
    }

    pub closed spec fn work_dir(&self) -> Seq<char> {
        self.work_dir@
    }

    pub closed spec fn destination(&self) -> Seq<char> {
        self.destination@
    }

    pub closed spec fn error(&self) -> Option<Error> {
        self.error
    }

    /// The handling of `file_name`, found under the configured mount point.
    /// Only recordings are handled at all.
    pub fn new(config: &Config, file_name: String) -> (r: FileUpload)
        ensures
            r.name() == file_name@,
            r.stage() == (if is_recording(file_name@) {
                FileStage::Measure
            } else {
                FileStage::Done
            }),
            r.error() is None,
            r.source() == path_join(config.mount_point@, file_name@),
            r.output() == path_join(config.work_dir@, encoded_name_spec(file_name@)),
            r.work_dir() == config.work_dir@,
            r.destination() == config.destination@,
    {
        let stage = if is_wav(file_name.as_str()) {
            FileStage::Measure
        } else {
            FileStage::Done
        };
        let source = join(config.mount_point.as_str(), file_name.as_str());
        let encoded = encoded_name(file_name.as_str());
        let output = join(config.work_dir.as_str(), encoded.as_str());
        FileUpload {
            stage,
            file_name,
            len: 0,
            source,
            output,
            work_dir: config.work_dir.clone(),
            destination: config.destination.clone(),
            error: None,
        }
    }

    fn marker(&self) -> (r: String)
        ensures
            r@ == entry_path_spec(self.name(), self.size()),
    {
        let entry = FileEntry::new(self.file_name.clone(), self.len);
        entry_path(&entry)
    }

    /// What the driver is to do in the current stage.
    pub fn next_action(&self) -> (a: FileAction)
        ensures
            match self.stage() {
                FileStage::Measure => a is Measure,
                FileStage::CheckLedger => a matches FileAction::CheckLedger { marker } && marker@
                    == entry_path_spec(self.name(), self.size()),
                FileStage::PrepareWorkDir => a matches FileAction::PrepareWorkDir { dir } && dir@
                    == self.work_dir(),
                FileStage::Encode => a matches FileAction::Encode { source, output } && source@
                    == self.source() && output@ == self.output(),
                FileStage::Upload => a matches FileAction::Upload { path, destination } && path@
                    == self.output() && destination@ == self.destination(),
                FileStage::Mark => a matches FileAction::Mark { marker } && marker@
                    == entry_path_spec(self.name(), self.size()),
                FileStage::Done => a is Done,
            },
    {
        match self.stage {
            FileStage::Measure => FileAction::Measure,
            FileStage::CheckLedger => FileAction::CheckLedger { marker: self.marker() },
            FileStage::PrepareWorkDir => FileAction::PrepareWorkDir { dir: self.work_dir.clone() },
            FileStage::Encode => FileAction::Encode {
                source: self.source.clone(),
                output: self.output.clone(),
            },
            FileStage::Upload => FileAction::Upload {
                path: self.output.clone(),
                destination: self.destination.clone(),
            },
            FileStage::Mark => FileAction::Mark { marker: self.marker() },
            FileStage::Done => FileAction::Done,
        }
    }

    /// Takes the file's length.
    pub fn record_length(&mut self, len: u64)
        requires
            old(self).stage() == FileStage::Measure,
        ensures
            final(self).stage() == FileStage::CheckLedger,
            final(self).size() == len,
            final(self).name() == old(self).name(),
            final(self).source() == old(self).source(),
            final(self).output() == old(self).output(),
            final(self).work_dir() == old(self).work_dir(),
            final(self).destination() == old(self).destination(),
            final(self).error() == old(self).error(),
    {
        self.len = len;
        self.stage = FileStage::CheckLedger;
    }

    /// Takes whether the ledger already holds the file: such a file is left alone.
    pub fn record_lookup(&mut self, uploaded: bool)
        requires
            old(self).stage() == FileStage::CheckLedger,
        ensures
            final(self).stage() == (if uploaded {
                FileStage::Done
            } else {
                FileStage::PrepareWorkDir
            }),
            final(self).size() == old(self).size(),
            final(self).name() == old(self).name(),
            final(self).source() == old(self).source(),
            final(self).output() == old(self).output(),
            final(self).work_dir() == old(self).work_dir(),
            final(self).destination() == old(self).destination(),
            final(self).error() == old(self).error(),
    {
        self.stage = if uploaded {
            FileStage::Done
        } else {
            FileStage::PrepareWorkDir
        };
    }

    /// Takes the outcome of preparing, encoding, uploading or marking.
    pub fn record(&mut self, outcome: Result<(), Error>)
        requires
            old(self).stage() == FileStage::PrepareWorkDir || old(self).stage() == FileStage::Encode
                || old(self).stage() == FileStage::Upload || old(self).stage() == FileStage::Mark,
        ensures
            final(self).stage() == next_file_stage(old(self).stage(), outcome is Ok),
            final(self).error() == (match outcome {
                Ok(_) => old(self).error(),
                Err(e) => Some(e),
            }),
            final(self).size() == old(self).size(),
            final(self).name() == old(self).name(),
            final(self).source() == old(self).source(),
            final(self).output() == old(self).output(),
            final(self).work_dir() == old(self).work_dir(),
            final(self).destination() == old(self).destination(),
    {
        match outcome {
            Ok(_) => {
                self.stage = match self.stage {
                    FileStage::PrepareWorkDir => FileStage::Encode,
                    FileStage::Encode => FileStage::Upload,
                    FileStage::Upload => FileStage::Mark,
                    _ => FileStage::Done,
                };
            },
            Err(e) => {
                self.error = Some(e);
                self.stage = FileStage::Done;
            },
        }
    }

    pub fn is_done(&self) -> (r: bool)
        ensures
            r == (self.stage() == FileStage::Done),
    {
        self.stage == FileStage::Done
    }

    /// The outcome of the handling: its failure, if any.
    pub fn result(self) -> (r: Result<(), Error>)
        requires
            self.stage() == FileStage::Done,
        ensures
            match self.error() {
                None => r == Ok::<(), Error>(()),
                Some(e) => r == Err::<(), Error>(e),
            },
    {
        match self.error {
            None => Ok(()),
            Some(e) => Err(e),
        }
    }
}

/// A file is marked as uploaded only right after its upload succeeded, and
/// uploaded only right after it was encoded.
pub proof fn lemma_marked_only_after_upload(s: FileStage, ok: bool)
    ensures
        next_file_stage(s, ok) == FileStage::Mark ==> s == FileStage::Upload && ok,
        next_file_stage(s, ok) == FileStage::Upload ==> s == FileStage::Encode && ok,
        next_file_stage(s, ok) == FileStage::Encode ==> s == FileStage::PrepareWorkDir && ok,
{
}

} // verus!
