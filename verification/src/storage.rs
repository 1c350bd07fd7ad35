//! Where certificate material is kept, under which names and permissions,
//! in which encodings, and with which hooks around each write.

use crate::format::{Format, PersistKind};
use crate::hooks::Hook;
use crate::ident::{numeric_id, parse_id};
use crate::paths::{join, joined};
use crate::template::context_view;
use vstd::prelude::*;
use vstd::string::*;

verus! {

/// The name, directory and path of one stored file: the context that the
/// hooks around a write of that file are rendered against.
#[derive(Clone, Debug, PartialEq, Eq)]
pub struct FileData {
    pub file_name: String,
    pub file_directory: String,
    pub file_path: String,
}

/// The four points of a write at which hooks run.
#[derive(Clone, Copy, Debug, PartialEq, Eq, Structural)]
pub enum HookStage {
    PreCreate,
    PostCreate,
    PreEdit,
    PostEdit,
}

/// The storage's settings.
#[derive(Clone, Debug)]
pub struct Storage {
    pub account_directory: String,
    pub account_name: String,
    pub crt_directory: String,
    pub crt_name: String,
    pub crt_name_format: String,
    pub formats: Vec<Format>,
    pub algo: String,
    pub cert_file_mode: u32,
    pub cert_file_owner: Option<String>,
    pub cert_file_group: Option<String>,
    pub pk_file_mode: u32,
    pub pk_file_owner: Option<String>,
    pub pk_file_group: Option<String>,
    pub file_pre_create_hooks: Vec<Hook>,
    pub file_post_create_hooks: Vec<Hook>,
    pub file_pre_edit_hooks: Vec<Hook>,
    pub file_post_edit_hooks: Vec<Hook>,
}

/// The identifier that a configured owner or group asks for; none where
/// nothing is configured or the text names no numeric identifier.
pub open spec fn optional_id(id: Option<String>) -> Option<u32> {
    match id {
        Some(s) => numeric_id(s@),
        None => None,
    }
}

fn resolve_optional(id: &Option<String>) -> (r: Option<u32>)
    ensures
        r == optional_id(*id),
{
    match id {
        Some(s) => parse_id(s.as_str()),
        None => None,
    }
}

impl FileData {
    /// The three fields by name, in the order name, directory, path.
    pub open spec fn spec_context(self) -> Seq<(Seq<char>, Seq<char>)> {
        seq![
            ("file_name"@, self.file_name@),
            ("file_directory"@, self.file_directory@),
            ("file_path"@, self.file_path@),
        ]
    }

    /// The record as a template context: its three fields by name.
    pub fn context(&self) -> (r: Vec<(String, String)>)
        ensures
            context_view(r@) == self.spec_context(),
    {
        let mut fields: Vec<(String, String)> = Vec::new();
        fields.push((String::from_str("file_name"), self.file_name.clone()));
        fields.push((String::from_str("file_directory"), self.file_directory.clone()));
        fields.push((String::from_str("file_path"), self.file_path.clone()));
        proof {
            assert(context_view(fields@) =~= self.spec_context());
        }
        fields
    }
}

impl Storage {
    /// The settings can be read from: at least one encoding is configured.
    pub open spec fn wf(self) -> bool {
        self.formats@.len() > 0
    }

    /// Says whether at least one encoding is configured.
    pub fn is_well_formed(&self) -> (r: bool)
        ensures
            r == self.wf(),
    {
        self.formats.len() > 0
    }

    /// The mode bits for files of `kind`.
    pub open spec fn spec_file_mode(self, kind: PersistKind) -> u32 {
        if kind.spec_is_certificate_class() {
            self.cert_file_mode
        } else {
            self.pk_file_mode
        }
    }

    /// The mode bits for files of `kind`: the certificate mode for a
    /// certificate, the key mode for either key.
    pub fn get_file_mode(&self, kind: PersistKind) -> (r: u32)
        ensures
            r == self.spec_file_mode(kind),
    {
        match kind {
            PersistKind::Certificate => self.cert_file_mode,
            PersistKind::PrivateKey | PersistKind::AccountPrivateKey => self.pk_file_mode,
        }
    }

    /// The owner and the group to give files of `kind`; `None` leaves that
    /// part of the ownership as it is.
    pub open spec fn spec_owner(self, kind: PersistKind) -> (Option<u32>, Option<u32>) {
        if kind.spec_is_certificate_class() {
            (optional_id(self.cert_file_owner), optional_id(self.cert_file_group))
        } else {
            (optional_id(self.pk_file_owner), optional_id(self.pk_file_group))
        }
    }

    /// The owner and the group to give files of `kind`. Only a purely
    /// numeric setting is honoured; any other text leaves that part of the
    /// ownership unchanged, as an absent setting does.
    pub fn resolve_owner(&self, kind: PersistKind) -> (r: (Option<u32>, Option<u32>))
        ensures
            r == self.spec_owner(kind),
    {
        match kind {
            PersistKind::Certificate => (
                resolve_optional(&self.cert_file_owner),
                resolve_optional(&self.cert_file_group),
            ),
            PersistKind::PrivateKey | PersistKind::AccountPrivateKey => (
                resolve_optional(&self.pk_file_owner),
                resolve_optional(&self.pk_file_group),
            ),
        }
    }

    /// The directory that holds files of `kind`.
    pub open spec fn spec_directory(self, kind: PersistKind) -> Seq<char> {
        match kind {
            PersistKind::AccountPrivateKey => self.account_directory@,
            _ => self.crt_directory@,
        }
    }

    /// The name of the file of `kind` in encoding `format`.
    pub open spec fn spec_file_name(self, kind: PersistKind, format: Format) -> Seq<char> {
        match kind {
            PersistKind::AccountPrivateKey => self.account_name@ + seq!['.']
                + format.spec_extension(),
            _ => self.crt_name@ + seq!['_'] + self.algo@ + seq!['.'] + kind.spec_suffix() + seq![
                '.',
            ] + format.spec_extension(),
        }
    }

    /// Whether `file` is the record of the file of `kind` in encoding
    /// `format`.
    pub open spec fn locates(self, file: FileData, kind: PersistKind, format: Format) -> bool {
        &&& file.file_directory@ == self.spec_directory(kind)
        &&& file.file_name@ == self.spec_file_name(kind, format)
        &&& file.file_path@ == joined(self.spec_directory(kind), self.spec_file_name(kind, format))
    }

    fn get_file_name(&self, kind: PersistKind, format: &Format) -> (r: String)
        ensures
            r@ == self.spec_file_name(kind, *format),
    {
        proof {
            reveal_strlit(".");
            reveal_strlit("_");
            assert("."@ =~= seq!['.']);
            assert("_"@ =~= seq!['_']);
        }
        match kind {
            PersistKind::AccountPrivateKey => {
                let mut name = self.account_name.clone();
                name.append(".");
                name.append(format.extension());
                name
            },
            _ => {
                let mut name = self.crt_name.clone();
                name.append("_");
                name.append(self.algo.as_str());
                name.append(".");
                name.append(kind.suffix());
                name.append(".");
                name.append(format.extension());
                name
            },
        }
    }

    /// The record of the file of `kind` in encoding `format`. A certificate
    /// or its private key lies in the certificate directory, under the
    /// certificate's name, the algorithm, the kind's suffix and the
    /// encoding's extension; the account's key lies in the account
    /// directory, under the account's name and the extension. The record
    /// depends on nothing but the settings and the two arguments.
    pub fn get_file_path(&self, kind: PersistKind, format: &Format) -> (r: FileData)
        ensures
            self.locates(r, kind, *format),
    {
        let file_directory = match kind {
            PersistKind::AccountPrivateKey => self.account_directory.clone(),
            _ => self.crt_directory.clone(),
        };
        let file_name = self.get_file_name(kind, format);
        let file_path = join(file_directory.as_str(), file_name.as_str());
        FileData { file_name, file_directory, file_path }
    }

    /// The hooks configured for `stage`.
    pub open spec fn spec_hooks(self, stage: HookStage) -> Vec<Hook> {
        match stage {
            HookStage::PreCreate => self.file_pre_create_hooks,
            HookStage::PostCreate => self.file_post_create_hooks,
            HookStage::PreEdit => self.file_pre_edit_hooks,
            HookStage::PostEdit => self.file_post_edit_hooks,
        }
    }

    /// The hooks configured for `stage`, in their configured order.
    pub fn hooks(&self, stage: HookStage) -> (r: &Vec<Hook>)
        ensures
            *r == self.spec_hooks(stage),
    {
        match stage {
            HookStage::PreCreate => &self.file_pre_create_hooks,
            HookStage::PostCreate => &self.file_post_create_hooks,
            HookStage::PreEdit => &self.file_pre_edit_hooks,
            HookStage::PostEdit => &self.file_post_edit_hooks,
        }
    }

    /// The encoding to read when `format` is asked for: `format` itself
    /// where it is configured, else the first configured encoding.
    pub open spec fn spec_source_format(self, format: Format) -> Format {
        if self.formats@.contains(format) {
            format
        } else {
            self.formats@[0]
        }
    }

    /// The encoding to read when `format` is asked for.
    pub fn source_format(&self, format: &Format) -> (r: Format)
        requires
            self.formats@.len() > 0,
        ensures
            r == self.spec_source_format(*format),
    {
        let mut i: usize = 0;
        while i < self.formats.len()
            invariant
                i <= self.formats@.len(),
                forall|j: int| 0 <= j < i ==> self.formats@[j] != *format,
            decreases self.formats@.len() - i,
        {
            if self.formats[i] == *format {
                return *format;
            }
            i += 1;
        }
        self.formats[0]
    }
}

} // verus!
