//! The stored encodings and the kinds of stored material.

use vstd::prelude::*;

verus! {

/// An on-disk encoding of certificate material.
#[derive(Clone, Copy, Debug, PartialEq, Eq, Structural)]
pub enum Format {
    /// Textual encoding; the form in which material is handed to the storage.
    Pem,
    /// Binary encoding, derived from the textual one.
    Der,
}

/// What a stored file holds.
#[derive(Clone, Copy, Debug, PartialEq, Eq, Structural)]
pub enum PersistKind {
    Certificate,
    PrivateKey,
    AccountPrivateKey,
}

impl Format {
    /// The file extension of this encoding.
    pub open spec fn spec_extension(self) -> Seq<char> {
        match self {
            Format::Pem => seq!['p', 'e', 'm'],
            Format::Der => seq!['d', 'e', 'r'],
        }
    }

    /// The file extension of this encoding.
    pub fn extension(&self) -> (r: &'static str)
        ensures
            r@ == self.spec_extension(),
    {
        match self {
            Format::Pem => {
                proof {
                    reveal_strlit("pem");
                    assert("pem"@ =~= seq!['p', 'e', 'm']);
                }
                "pem"
            },
            Format::Der => {
                proof {
                    reveal_strlit("der");
                    assert("der"@ =~= seq!['d', 'e', 'r']);
                }
                "der"
            },
        }
    }
}

impl PersistKind {
    /// Whether files of this kind fall under the certificate permission
    /// class; the others fall under the key class.
    pub open spec fn spec_is_certificate_class(self) -> bool {
        self == PersistKind::Certificate
    }

    /// The kind's part of a certificate-directory file name.
    pub open spec fn spec_suffix(self) -> Seq<char> {
        match self {
            PersistKind::Certificate => seq!['c', 'r', 't'],
            _ => seq!['p', 'k'],
        }
    }

    /// The kind's part of a certificate-directory file name.
    pub fn suffix(&self) -> (r: &'static str)
        ensures
            r@ == self.spec_suffix(),
    {
        match self {
            PersistKind::Certificate => {
                proof {
                    reveal_strlit("crt");
                    assert("crt"@ =~= seq!['c', 'r', 't']);
                }
                "crt"
            },
            _ => {
                proof {
                    reveal_strlit("pk");
                    assert("pk"@ =~= seq!['p', 'k']);
                }
                "pk"
            },
        }
    }
}

} // verus!
