//! The Files API: paths, file objects, and purposes.

use vstd::prelude::*;

use crate::text::child_path;

verus! {

/// The path of the Files API.
pub const FILES_PATH: &'static str = "/files";

/// The last segment of the path of a file's content.
pub const CONTENT_SEGMENT: &'static str = "content";

/// The name under which an upload whose path has no usable file name is
/// sent.
pub const DEFAULT_UPLOAD_NAME: &'static str = "file";

/// The multipart field that carries an uploaded file.
pub const FILE_FIELD: &'static str = "file";

/// The multipart field that carries a file's purpose.
pub const PURPOSE_FIELD: &'static str = "purpose";

/// The path of the file with the given ID.
pub fn file_path(file_id: &str) -> (p: String)
    ensures
        p@ == FILES_PATH@ + seq!['/'] + file_id@,
{
    child_path(FILES_PATH, file_id)
}

/// The path of the content of the file with the given ID.
pub fn file_content_path(file_id: &str) -> (p: String)
    ensures
        p@ == FILES_PATH@ + seq!['/'] + file_id@ + seq!['/'] + CONTENT_SEGMENT@,
{
    let f = file_path(file_id);
    child_path(f.as_str(), CONTENT_SEGMENT)
}

/// The name under which a file is uploaded: the file name of its path, where
/// it has one that is valid Unicode, and `file` otherwise.
pub fn upload_file_name(file_name: Option<&str>) -> (n: String)
    ensures
        n@ == match file_name {
            Some(f) => f@,
            None => DEFAULT_UPLOAD_NAME@,
        },
{
    match file_name {
        Some(f) => String::from_str(f),
        None => String::from_str(DEFAULT_UPLOAD_NAME),
    }
}

/// A file.
#[derive(Debug, Clone)]
pub struct FileObject {
    pub id: String,
    pub object: String,
    pub bytes: Option<u64>,
    pub created_at: Option<u64>,
    pub filename: Option<String>,
    pub purpose: Option<String>,
    pub status: Option<String>,
    pub extra: Vec<(String, serde_json::Value)>,
}

/// What a file is for.
#[derive(Debug, Clone, Copy, PartialEq, Eq, Structural)]
pub enum FilePurpose {
    Assistants,
    Batch,
    FineTune,
    Vision,
    UserData,
    Eval,
}

/// The name by which the API knows a purpose.
pub open spec fn purpose_name(p: FilePurpose) -> Seq<char> {
    match p {
        FilePurpose::Assistants => seq!['a', 's', 's', 'i', 's', 't', 'a', 'n', 't', 's'],
        FilePurpose::Batch => seq!['b', 'a', 't', 'c', 'h'],
        FilePurpose::FineTune => seq!['f', 'i', 'n', 'e', '-', 't', 'u', 'n', 'e'],
        FilePurpose::Vision => seq!['v', 'i', 's', 'i', 'o', 'n'],
        FilePurpose::UserData => seq!['u', 's', 'e', 'r', '_', 'd', 'a', 't', 'a'],
        FilePurpose::Eval => seq!['e', 'v', 'a', 'l'],
    }
}

impl FilePurpose {
    /// The name by which the API knows the purpose.
    pub fn as_str(self) -> (s: &'static str)
        ensures
            s@ == purpose_name(self),
    {
        match self {
            FilePurpose::Assistants => {
                proof {
                    reveal_strlit("assistants");
                    assert("assistants"@ =~= purpose_name(self));
                }
                "assistants"
            },
            FilePurpose::Batch => {
                proof {
                    reveal_strlit("batch");
                    assert("batch"@ =~= purpose_name(self));
                }
                "batch"
            },
            FilePurpose::FineTune => {
                proof {
                    reveal_strlit("fine-tune");
                    assert("fine-tune"@ =~= purpose_name(self));
                }
                "fine-tune"
            },
            FilePurpose::Vision => {
                proof {
                    reveal_strlit("vision");
                    assert("vision"@ =~= purpose_name(self));
                }
                "vision"
            },
            FilePurpose::UserData => {
                proof {
                    reveal_strlit("user_data");
                    assert("user_data"@ =~= purpose_name(self));
                }
                "user_data"
            },
            FilePurpose::Eval => {
                proof {
                    reveal_strlit("eval");
                    assert("eval"@ =~= purpose_name(self));
                }
                "eval"
            },
        }
    }
}

/// Distinct purposes have distinct names, so a name tells its purpose.
pub proof fn lemma_purpose_names_distinct(a: FilePurpose, b: FilePurpose)
    requires
        a != b,
    ensures
        purpose_name(a) != purpose_name(b),
{
    let na = purpose_name(a);
    let nb = purpose_name(b);
    if na == nb {
        assert(na.len() == nb.len());
        assert(na[0] == nb[0]);
        assert(na[1] == nb[1]);
    }
}

} // verus!
