//! Wire-level names: the two endpoint paths and the named fields that carry
//! request metadata in both directions.
use vstd::prelude::*;

verus! {

pub const METHOD_UPLOAD: &'static str = "upload";

pub const METHOD_DOWNLOAD: &'static str = "download";

pub const PARAM_FILENAME: &'static str = "filename";

pub const PARAM_PUBKEY: &'static str = "pubkey";

pub const PARAM_TIME: &'static str = "time";

pub const PARAM_REQUEST_SIGNATURE: &'static str = "request-signature";

pub const PARAM_FILE_SIGNATURE: &'static str = "file-signature";

} // verus!
