//! The atomic writer: payload bytes go to a temporary file beside the
//! target, which is renamed over the target in one step on `commit`. In
//! buffered mode the whole payload is held in memory and the temporary file
//! exists only inside `commit`; in streaming mode the temporary file is
//! created lazily on the first write and receives bytes incrementally, so a
//! session that never writes leaves nothing behind.
//!
//! The writer's view is the byte sequence written so far; the session
//! invariant ties the temporary file's contents to it, so the bytes handed to
//! the final rename are exactly the view, in either mode.

use vstd::prelude::*;
use vstd::string::StringExecFns;

use atomic_write_file::AtomicWriteFile;

use crate::error::{io_error_info, MutxError};

verus! {

#[verifier::external_type_specification]
#[verifier::external_body]
pub struct ExAtomicWriteFile(AtomicWriteFile);

/// What a temporary file holds: the bytes written to it so far.
pub uninterp spec fn temp_contents(f: AtomicWriteFile) -> Seq<u8>;

/// Relies on atomic_write_file::AtomicWriteFile::open: creates a fresh,
/// empty temporary file beside the target; the target itself is untouched.
#[verifier::external_body]
fn temp_open(target: &str) -> (r: Result<AtomicWriteFile, std::io::Error>)
    ensures
        r matches Ok(f) ==> temp_contents(f) == Seq::<u8>::empty(),
{
    AtomicWriteFile::open(target)
}

/// Relies on std::io::Write::write_all for AtomicWriteFile: on success the
/// whole buffer has been appended to the temporary file.
#[verifier::external_body]
fn temp_write_all(f: &mut AtomicWriteFile, buf: &[u8]) -> (r: Result<(), std::io::Error>)
    ensures
        r is Ok ==> temp_contents(*final(f)) == temp_contents(*old(f)) + buf@,
{
    std::io::Write::write_all(f, buf)
}

/// Relies on AtomicWriteFile::commit: flushes the temporary file and renames
/// it over the target in one filesystem step; on failure the temporary file
/// is discarded, as it also is when the file is dropped without commit.
#[verifier::external_body]
fn temp_commit(f: AtomicWriteFile) -> (r: Result<(), std::io::Error>) {
    f.commit()
}

/// Buffered (`Simple`) or streaming writer mode.
#[derive(Clone, Copy, Debug, PartialEq, Eq, Structural)]
pub enum WriteMode {
    Simple,
    Streaming,
}

/// An in-progress atomic write session.
pub struct AtomicWriter {
    mode: WriteMode,
    target: String,
    buffer: Vec<u8>,
    temp_file: Option<AtomicWriteFile>,
    written: Ghost<Seq<u8>>,
}

impl View for AtomicWriter {
    type V = Seq<u8>;

    /// The bytes written to the session so far.
    closed spec fn view(&self) -> Seq<u8> {
        match self.mode {
            WriteMode::Simple => self.buffer@,
            WriteMode::Streaming => self.written@,
        }
    }
}

impl AtomicWriter {
    /// The session invariant: in buffered mode no temporary file exists yet;
    /// in streaming mode the buffer is unused and the temporary file, once
    /// created, holds exactly the bytes written so far.
    pub closed spec fn wf(&self) -> bool {
        match self.mode {
            WriteMode::Simple => self.temp_file is None,
            WriteMode::Streaming => self.buffer@.len() == 0 && match self.temp_file {
                Some(f) => temp_contents(f) == self.written@,
                None => self.written@.len() == 0,
            },
        }
    }

    /// The target path of the session.
    pub closed spec fn spec_target(&self) -> Seq<char> {
        self.target@
    }

    /// The mode of the session.
    pub closed spec fn spec_mode(&self) -> WriteMode {
        self.mode
    }

    /// Opens a session for `target`. Nothing touches the filesystem yet.
    pub fn new(target: &str, mode: WriteMode) -> (r: Result<AtomicWriter, MutxError>)
        ensures
            r matches Ok(w) && w.wf() && w@ == Seq::<u8>::empty() && w.spec_target() == target@
                && w.spec_mode() == mode,
    {
        Ok(
            AtomicWriter {
                mode,
                target: String::from_str(target),
                buffer: Vec::new(),
                temp_file: None,
                written: Ghost(Seq::empty()),
            },
        )
    }

    /// Appends bytes to the session: to the in-memory buffer in buffered
    /// mode — which cannot fail — or to the temporary file in streaming
    /// mode, created on this first write. On success the session's view has
    /// grown by exactly `buf`; an error is `WriteFailed` for the target, and
    /// the session is then done for.
    pub fn write_all(&mut self, buf: &[u8]) -> (r: Result<(), MutxError>)
        requires
            old(self).wf(),
        ensures
            final(self).spec_target() == old(self).spec_target(),
            final(self).spec_mode() == old(self).spec_mode(),
            r is Ok ==> final(self).wf() && final(self)@ == old(self)@ + buf@,
            old(self).spec_mode() is Simple ==> r is Ok,
            r is Err ==> (r->Err_0 is WriteFailed && r->Err_0->WriteFailed_path@ == old(
                self,
            ).spec_target()),
    {
        match self.mode {
            WriteMode::Simple => {
                self.buffer.extend_from_slice(buf);
                Ok(())
            },
            WriteMode::Streaming => {
                if self.temp_file.is_none() {
                    match temp_open(self.target.as_str()) {
                        Ok(f) => {
                            self.temp_file = Some(f);
                        },
                        Err(e) => {
                            return Err(
                                MutxError::WriteFailed {
                                    path: self.target.clone(),
                                    source: io_error_info(&e),
                                },
                            );
                        },
                    }
                }
                match &mut self.temp_file {
                    Some(f) => {
                        match temp_write_all(f, buf) {
                            Ok(()) => {
                                proof {
                                    self.written@ = self.written@ + buf@;
                                }
                                Ok(())
                            },
                            Err(e) => {
                                Err(
                                    MutxError::WriteFailed {
                                        path: self.target.clone(),
                                        source: io_error_info(&e),
                                    },
                                )
                            },
                        }
                    },
                    None => {
                        // The temporary file was created just above.
                        proof {
                            assert(false);
                        }
                        Ok(())
                    },
                }
            },
        }
    }

    /// Commits the session: the temporary file — holding exactly the bytes
    /// written, or empty when nothing was — is renamed over the target in
    /// one step. Whether the rename succeeded is the filesystem's answer; an
    /// error is `WriteFailed` for the target, and the temporary file is then
    /// discarded.
    pub fn commit(self) -> (r: Result<(), MutxError>)
        requires
            self.wf(),
        ensures
            r is Err ==> (r->Err_0 is WriteFailed && r->Err_0->WriteFailed_path@
                == self.spec_target()),
    {
        match self.mode {
            WriteMode::Simple => {
                let mut temp = match temp_open(self.target.as_str()) {
                    Ok(f) => f,
                    Err(e) => {
                        return Err(
                            MutxError::WriteFailed {
                                path: self.target.clone(),
                                source: io_error_info(&e),
                            },
                        );
                    },
                };
                match temp_write_all(&mut temp, self.buffer.as_slice()) {
                    Ok(()) => {},
                    Err(e) => {
                        return Err(
                            MutxError::WriteFailed {
                                path: self.target.clone(),
                                source: io_error_info(&e),
                            },
                        );
                    },
                }
                proof {
                    // The rename hands over exactly the session's bytes.
                    assert(temp_contents(temp) =~= self@);
                }
                match temp_commit(temp) {
                    Ok(()) => Ok(()),
                    Err(e) => Err(
                        MutxError::WriteFailed {
                            path: self.target.clone(),
                            source: io_error_info(&e),
                        },
                    ),
                }
            },
            WriteMode::Streaming => {
                let temp = match self.temp_file {
                    Some(f) => f,
                    None => {
                        // No write happened: an empty temporary file still
                        // produces an empty target.
                        match temp_open(self.target.as_str()) {
                            Ok(f) => f,
                            Err(e) => {
                                return Err(
                                    MutxError::WriteFailed {
                                        path: self.target.clone(),
                                        source: io_error_info(&e),
                                    },
                                );
                            },
                        }
                    },
                };
                proof {
                    // The rename hands over exactly the session's bytes.
                    assert(temp_contents(temp) =~= self@);
                }
                match temp_commit(temp) {
                    Ok(()) => Ok(()),
                    Err(e) => Err(
                        MutxError::WriteFailed {
                            path: self.target.clone(),
                            source: io_error_info(&e),
                        },
                    ),
                }
            },
        }
    }
}

} // verus!
