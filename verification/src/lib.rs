//! Certificate storage planning: file naming, permission and ownership
//! policy, encoding selection and lifecycle-hook rendering, with every rule
//! stated as a contract and proved.

pub mod errors;
pub mod format;
pub mod ident;
pub mod hooks;
pub mod template;
pub mod paths;
pub mod storage;
pub mod reading;
pub mod writing;
pub mod laws;
