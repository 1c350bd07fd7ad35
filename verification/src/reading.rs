//! Reading stored material: which file to load, and what to hand back for
//! what was found there.

use crate::format::{Format, PersistKind};
use crate::storage::{FileData, Storage};
use vstd::prelude::*;

verus! {

/// How far a read has come.
#[derive(Clone, Debug, PartialEq, Eq)]
pub enum ReadStep {
    /// Nothing was done yet.
    Locate,
    /// The file was looked up: `None` where no file exists at the path,
    /// else its whole contents.
    Loaded(Option<Vec<u8>>),
    /// The contents were converted to the encoding asked for.
    Converted(Vec<u8>),
}

/// What a read needs next.
#[derive(Clone, Debug, PartialEq, Eq)]
pub enum ReadAction {
    /// Look this file up and load its contents.
    Load(FileData),
    /// Convert `data`, which holds material of `kind`, from one encoding to
    /// the other.
    Convert { data: Vec<u8>, from: Format, to: Format, kind: PersistKind },
    /// The read is over: `None` says that nothing is stored.
    Return(Option<Vec<u8>>),
}

impl Storage {
    /// What a read of `format` gives for what was found at the file's path:
    /// `None` there says that no file exists.
    ///
    /// A missing file and an empty one both mean that nothing is stored,
    /// which is no error. Contents read in the encoding asked for are handed
    /// back as they are. Where `format` is not configured, the contents are
    /// those of the first configured encoding, and go through a conversion
    /// to `format`.
    pub open spec fn after_load(self, kind: PersistKind, format: Format, found: Option<Vec<u8>>) -> ReadAction {
        match found {
            None => ReadAction::Return(None),
            Some(contents) => if contents@.len() == 0 {
                ReadAction::Return(None)
            } else if self.formats@.contains(format) {
                ReadAction::Return(Some(contents))
            } else {
                ReadAction::Convert { data: contents, from: self.formats@[0], to: format, kind }
            },
        }
    }

    /// Whether `action` is what a read of the material of `kind` in
    /// encoding `format` needs at `step`: at first, to load the file of
    /// `format` where `format` is configured, else that of the first
    /// configured encoding; then what `after_load` says; and after a
    /// conversion, to hand its result back as it is.
    pub open spec fn answers(
        self,
        kind: PersistKind,
        format: Format,
        step: ReadStep,
        action: ReadAction,
    ) -> bool {
        match step {
            ReadStep::Locate => action matches ReadAction::Load(file) && self.locates(
                file,
                kind,
                self.spec_source_format(format),
            ),
            ReadStep::Loaded(found) => action == self.after_load(kind, format, found),
            ReadStep::Converted(data) => action == ReadAction::Return(Some(data)),
        }
    }

    /// One step of reading the material of `kind` in encoding `format`.
    pub fn get_file(&self, kind: PersistKind, format: &Format, step: ReadStep) -> (r: ReadAction)
        requires
            self.wf(),
        ensures
            self.answers(kind, *format, step, r),
    {
        let source = self.source_format(format);
        match step {
            ReadStep::Locate => ReadAction::Load(self.get_file_path(kind, &source)),
            ReadStep::Loaded(None) => ReadAction::Return(None),
            ReadStep::Loaded(Some(contents)) => {
                if contents.len() == 0 {
                    ReadAction::Return(None)
                } else if source == *format {
                    ReadAction::Return(Some(contents))
                } else {
                    ReadAction::Convert { data: contents, from: source, to: *format, kind }
                }
            },
            ReadStep::Converted(data) => ReadAction::Return(Some(data)),
        }
    }

    /// One step of reading the certificate in encoding `format`.
    pub fn get_certificate(&self, format: &Format, step: ReadStep) -> (r: ReadAction)
        requires
            self.wf(),
        ensures
            self.answers(PersistKind::Certificate, *format, step, r),
    {
        self.get_file(PersistKind::Certificate, format, step)
    }

    /// One step of reading the certificate's private key in encoding
    /// `format`.
    pub fn get_private_key(&self, format: &Format, step: ReadStep) -> (r: ReadAction)
        requires
            self.wf(),
        ensures
            self.answers(PersistKind::PrivateKey, *format, step, r),
    {
        self.get_file(PersistKind::PrivateKey, format, step)
    }

    /// One step of reading the material of `kind` in the textual encoding,
    /// the one it was handed over in.
    pub fn get(&self, kind: PersistKind, step: ReadStep) -> (r: ReadAction)
        requires
            self.wf(),
        ensures
            self.answers(kind, Format::Pem, step, r),
    {
        self.get_file(kind, &Format::Pem, step)
    }
}

} // verus!
