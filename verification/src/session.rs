use vstd::prelude::*;

use crate::error::DownloadError;

verus! {

/// Where one download stands. A session moves forward one step per reported
/// outcome, in the order the steps are performed: the directory check, the
/// directory creation when the check found none, opening the output file,
/// issuing the request, streaming the body chunk by chunk, and the final
/// flush.
#[derive(Clone, Copy, Debug, PartialEq, Eq, Structural)]
pub enum Step {
    /// Check whether the destination directory exists.
    EnsureDir,
    /// The directory was missing: create it and all missing ancestors.
    CreatingDir,
    /// Open the output file for writing, truncating what was there.
    OpenFile,
    /// Issue the request for the URL, with the configuration's headers.
    Fetch,
    /// Pull body chunks and append each to the file in arrival order.
    Streaming,
    /// The body is exhausted: flush the file.
    Flush,
    /// The transfer succeeded.
    Done,
    /// The transfer failed; no further step is taken.
    Failed(DownloadError),
}

/// What a session holds, as mathematical values.
pub struct SessionModel {
    pub step: Step,
    /// The full path of the output file.
    pub path: Seq<char>,
    /// The destination directory.
    pub dir: Seq<char>,
    pub verbose: bool,
    /// Every byte appended to the output file so far, in order.
    pub written: Seq<u8>,
    /// Whether the destination directory has been seen to exist.
    pub dir_ok: bool,
}

/// One download in progress: the resolved output path plus the step the
/// transfer stands at. The caller performs each step's outside work and
/// reports its outcome; the session decides what follows and accounts for
/// every byte acknowledged as written.
///
/// The output file is opened before the request is issued, so a transfer
/// that fails from `Fetch` on leaves an empty or partial file behind; no
/// step removes it.
///
/// A response's status code is, by choice, not inspected: any delivered
/// response counts as a successful fetch, and its body — an error page as
/// much as the resource — is streamed to the file. A caller who wants 4xx
/// or 5xx responses refused should check the status before reporting the
/// response and report a failed fetch instead.
pub struct DownloadSession {
    step: Step,
    path: String,
    dir: String,
    verbose: bool,
    written: Ghost<Seq<u8>>,
    dir_ok: Ghost<bool>,
}

impl View for DownloadSession {
    type V = SessionModel;

    closed spec fn view(&self) -> SessionModel {
        SessionModel {
            step: self.step,
            path: self.path@,
            dir: self.dir@,
            verbose: self.verbose,
            written: self.written@,
            dir_ok: self.dir_ok@,
        }
    }
}

impl DownloadSession {
    /// A session is well-formed when no step past the directory ones has
    /// been reached without the directory existing, and no byte is on record
    /// before streaming began.
    pub open spec fn wf(self) -> bool {
        &&& match self@.step {
            Step::OpenFile | Step::Fetch | Step::Streaming | Step::Flush | Step::Done => self@.dir_ok,
            _ => true,
        }
        &&& match self@.step {
            Step::EnsureDir | Step::CreatingDir | Step::OpenFile | Step::Fetch => self@.written
                == Seq::<u8>::empty(),
            _ => true,
        }
    }

    /// A fresh session before its first step, the directory check.
    pub(crate) fn start(path: String, dir: String, verbose: bool) -> (s: DownloadSession)
        ensures
            s@.step == Step::EnsureDir,
            s@.path == path@,
            s@.dir == dir@,
            s@.verbose == verbose,
            s@.written == Seq::<u8>::empty(),
            s@.dir_ok == false,
            s.wf(),
    {
        DownloadSession {
            step: Step::EnsureDir,
            path,
            dir,
            verbose,
            written: Ghost(Seq::empty()),
            dir_ok: Ghost(false),
        }
    }

    /// The step the transfer stands at.
    pub fn current_step(&self) -> (r: Step)
        ensures
            r == self@.step,
    {
        self.step
    }

    /// The full path of the output file.
    pub fn output_path(&self) -> (r: &String)
        ensures
            r@ == self@.path,
    {
        &self.path
    }

    /// The destination directory.
    pub fn dir(&self) -> (r: &String)
        ensures
            r@ == self@.dir,
    {
        &self.dir
    }

    /// Whether progress should be reported around this transfer.
    pub fn is_verbose(&self) -> (r: bool)
        ensures
            r == self@.verbose,
    {
        self.verbose
    }

    /// How the transfer ended, once it has: nothing while steps remain.
    pub fn outcome(&self) -> (r: Option<Result<(), DownloadError>>)
        ensures
            match self@.step {
                Step::Done => r == Option::Some(Result::<(), DownloadError>::Ok(())),
                Step::Failed(e) => r == Option::Some(Result::<(), DownloadError>::Err(e)),
                _ => r is None,
            },
    {
        match self.step {
            Step::Done => Option::Some(Result::Ok(())),
            Step::Failed(e) => Option::Some(Result::Err(e)),
            _ => Option::None,
        }
    }

    /// Reports what the directory check found. An existing directory leads
    /// straight to opening the file; a missing one is created first.
    pub fn on_dir_checked(&mut self, exists: bool)
        requires
            old(self).wf(),
            old(self)@.step == Step::EnsureDir,
        ensures
            final(self).wf(),
            final(self)@.step == (if exists {
                Step::OpenFile
            } else {
                Step::CreatingDir
            }),
            final(self)@.dir_ok == exists,
            final(self)@ == (SessionModel {
                step: final(self)@.step,
                dir_ok: final(self)@.dir_ok,
                ..old(self)@
            }),
    {
        self.dir_ok = Ghost(exists);
        if exists {
            self.step = Step::OpenFile;
        } else {
            self.step = Step::CreatingDir;
        }
    }

    /// Reports whether creating the directory (with all missing ancestors)
    /// succeeded; failure ends the transfer with `FilesystemError`.
    pub fn on_dir_created(&mut self, ok: bool)
        requires
            old(self).wf(),
            old(self)@.step == Step::CreatingDir,
        ensures
            final(self).wf(),
            final(self)@.step == (if ok {
                Step::OpenFile
            } else {
                Step::Failed(DownloadError::FilesystemError)
            }),
            final(self)@.dir_ok == ok,
            final(self)@ == (SessionModel {
                step: final(self)@.step,
                dir_ok: final(self)@.dir_ok,
                ..old(self)@
            }),
    {
        self.dir_ok = Ghost(ok);
        if ok {
            self.step = Step::OpenFile;
        } else {
            self.step = Step::Failed(DownloadError::FilesystemError);
        }
    }

    /// Reports whether the output file could be opened for writing; failure
    /// ends the transfer with `FilesystemError`.
    pub fn on_file_opened(&mut self, ok: bool)
        requires
            old(self).wf(),
            old(self)@.step == Step::OpenFile,
        ensures
            final(self).wf(),
            final(self)@.step == (if ok {
                Step::Fetch
            } else {
                Step::Failed(DownloadError::FilesystemError)
            }),
            final(self)@ == (SessionModel { step: final(self)@.step, ..old(self)@ }),
    {
        if ok {
            self.step = Step::Fetch;
        } else {
            self.step = Step::Failed(DownloadError::FilesystemError);
        }
    }

    /// Reports whether the request produced a response to stream from;
    /// failure — connection, DNS or TLS — ends the transfer with
    /// `NetworkError`. A delivered response is taken as is: its status code
    /// is deliberately not part of the decision, so a 4xx or 5xx body is
    /// streamed like any other unless the caller chooses to report it here
    /// as a failure.
    pub fn on_response(&mut self, ok: bool)
        requires
            old(self).wf(),
            old(self)@.step == Step::Fetch,
        ensures
            final(self).wf(),
            final(self)@.step == (if ok {
                Step::Streaming
            } else {
                Step::Failed(DownloadError::NetworkError)
            }),
            final(self)@ == (SessionModel { step: final(self)@.step, ..old(self)@ }),
    {
        if ok {
            self.step = Step::Streaming;
        } else {
            self.step = Step::Failed(DownloadError::NetworkError);
        }
    }

    /// Reports that a chunk arrived and whether appending it to the file
    /// succeeded. On success its bytes go on record, in arrival order, and
    /// streaming goes on; a failed write ends the transfer with
    /// `FilesystemError`.
    pub fn on_chunk_written(&mut self, chunk: &[u8], ok: bool)
        requires
            old(self).wf(),
            old(self)@.step == Step::Streaming,
        ensures
            final(self).wf(),
            final(self)@.step == (if ok {
                Step::Streaming
            } else {
                Step::Failed(DownloadError::FilesystemError)
            }),
            final(self)@.written == (if ok {
                old(self)@.written + chunk@
            } else {
                old(self)@.written
            }),
            final(self)@ == (SessionModel {
                step: final(self)@.step,
                written: final(self)@.written,
                ..old(self)@
            }),
    {
        if ok {
            self.written = Ghost(self.written@ + chunk@);
        } else {
            self.step = Step::Failed(DownloadError::FilesystemError);
        }
    }

    /// Reports that the next chunk failed to arrive — the connection dropped
    /// mid-transfer — which ends the transfer with `NetworkError`.
    pub fn on_chunk_failed(&mut self)
        requires
            old(self).wf(),
            old(self)@.step == Step::Streaming,
        ensures
            final(self).wf(),
            final(self)@ == (SessionModel {
                step: Step::Failed(DownloadError::NetworkError),
                ..old(self)@
            }),
    {
        self.step = Step::Failed(DownloadError::NetworkError);
    }

    /// Reports that the body is exhausted: what remains is the flush.
    pub fn on_body_end(&mut self)
        requires
            old(self).wf(),
            old(self)@.step == Step::Streaming,
        ensures
            final(self).wf(),
            final(self)@ == (SessionModel { step: Step::Flush, ..old(self)@ }),
    {
        self.step = Step::Flush;
    }

    /// Reports whether the final flush succeeded; failure ends the transfer
    /// with `FilesystemError`, success completes it.
    pub fn on_flushed(&mut self, ok: bool)
        requires
            old(self).wf(),
            old(self)@.step == Step::Flush,
        ensures
            final(self).wf(),
            final(self)@.step == (if ok {
                Step::Done
            } else {
                Step::Failed(DownloadError::FilesystemError)
            }),
            final(self)@ == (SessionModel { step: final(self)@.step, ..old(self)@ }),
    {
        if ok {
            self.step = Step::Done;
        } else {
            self.step = Step::Failed(DownloadError::FilesystemError);
        }
    }
}

/// The destination directory is in place before the file is opened, written
/// or flushed: a well-formed session at any step past the directory ones has
/// seen the directory exist.
pub proof fn lemma_dir_before_file(s: DownloadSession)
    requires
        s.wf(),
        s@.step == Step::OpenFile || s@.step == Step::Fetch || s@.step == Step::Streaming
            || s@.step == Step::Flush || s@.step == Step::Done,
    ensures
        s@.dir_ok,
{
}

} // verus!
