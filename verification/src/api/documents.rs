//! The document endpoints' request and response shapes, the media-type
//! table for uploads, and the status classification of the endpoints'
//! HTTP answers. The HTTP calls and the file reads are the caller's
//! business.

use vstd::prelude::*;

use crate::text::{
    contains_seq, format_entity_id, has_prefix, id_text, lower_of, lowercase, str_contains,
    str_eq, str_has_prefix,
};

verus! {

/// The category a document is filed under.
#[derive(Debug, Clone, Copy, PartialEq, Eq, Structural)]
pub enum DocumentCategory {
    Legal,
    Contract,
    Financial,
    Medical,
    Personal,
    Other,
}

/// The body of an upload-url request.
#[derive(Debug, PartialEq)]
pub struct UploadDocumentRequest {
    pub filename: String,
    pub category: Option<DocumentCategory>,
    pub description: Option<String>,
    pub tags: Option<Vec<String>>,
    pub mime_type: Option<String>,
}

/// The body of a successful upload-url answer; the presigned form fields
/// are carried through verbatim as text, the expiry is unix seconds.
#[derive(Debug, PartialEq)]
pub struct UploadDocumentResponse {
    pub document_id: u128,
    pub upload_url: String,
    pub upload_fields: String,
    pub expires_at: i64,
}

/// The body of the upload confirmation.
#[derive(Debug, Clone, Copy, PartialEq, Eq)]
pub struct ConfirmUploadRequest {
    pub size_bytes: i64,
}

/// One document record as the endpoints report it; timestamps are unix
/// seconds.
#[derive(Debug, PartialEq)]
pub struct DocumentResponse {
    pub id: u128,
    pub filename: String,
    pub category: Option<DocumentCategory>,
    pub size_bytes: Option<i64>,
    pub mime_type: Option<String>,
    pub created_at: i64,
    pub updated_at: i64,
    pub download_url: Option<String>,
    pub analysis_status: Option<String>,
    pub analysis_id: Option<u128>,
    pub analyzed_at: Option<i64>,
}

/// One page of the document list.
#[derive(Debug, PartialEq)]
pub struct DocumentListResponse {
    pub documents: Vec<DocumentResponse>,
    pub total: i64,
    pub limit: i32,
    pub offset: i32,
}

/// The body of a successful download-url answer; the expiry is unix
/// seconds.
#[derive(Debug, PartialEq)]
pub struct DocumentDownloadResponse {
    pub download_url: String,
    pub expires_at: i64,
}

/// The media type recorded for a file extension: the four document formats
/// the service knows get their standard type, anything else none.
pub open spec fn spec_mime_for_extension(ext: Option<Seq<char>>) -> Option<Seq<char>> {
    match ext {
        Some(e) => if e == "pdf"@ {
            Some("application/pdf"@)
        } else if e == "doc"@ {
            Some("application/msword"@)
        } else if e == "docx"@ {
            Some("application/vnd.openxmlformats-officedocument.wordprocessingml.document"@)
        } else if e == "txt"@ {
            Some("text/plain"@)
        } else {
            None
        },
        None => None,
    }
}

/// Returns the media type to record for a file extension.
pub fn mime_type_for_extension(ext: Option<&str>) -> (r: Option<String>)
    ensures
        match (
            spec_mime_for_extension(
                match ext {
                    Some(e) => Some(e@),
                    None => None,
                },
            ),
            &r,
        ) {
            (Some(m), Some(rm)) => rm@ == m,
            (None, None) => true,
            _ => false,
        },
{
    match ext {
        Some(e) => {
            if str_eq(e, "pdf") {
                Some(String::from_str("application/pdf"))
            } else if str_eq(e, "doc") {
                Some(String::from_str("application/msword"))
            } else if str_eq(e, "docx") {
                Some(
                    String::from_str(
                        "application/vnd.openxmlformats-officedocument.wordprocessingml.document",
                    ),
                )
            } else if str_eq(e, "txt") {
                Some(String::from_str("text/plain"))
            } else {
                None
            }
        },
        None => None,
    }
}

/// Builds the upload-url request body for a file: its name, the caller's
/// category and description, no tags, and the media type its extension
/// implies.
pub fn build_upload_request(
    filename: String,
    extension: Option<&str>,
    category: Option<DocumentCategory>,
    description: Option<String>,
) -> (r: UploadDocumentRequest)
    ensures
        r.filename@ == filename@,
        r.category == category,
        r.description == description,
        r.tags is None,
        match (
            spec_mime_for_extension(
                match extension {
                    Some(e) => Some(e@),
                    None => None,
                },
            ),
            &r.mime_type,
        ) {
            (Some(m), Some(rm)) => rm@ == m,
            (None, None) => true,
            _ => false,
        },
{
    let mime_type = mime_type_for_extension(extension);
    UploadDocumentRequest { filename, category, description, tags: None, mime_type }
}

/// The query names the document: the canonical hyphenated rendering of
/// its id starts with the query.
pub open spec fn id_matches(id: u128, query: Seq<char>) -> bool {
    has_prefix(id_text(id), query)
}

/// The ids in the listing whose rendering starts with the query, in
/// listing order.
pub open spec fn matching_ids(docs: Seq<DocumentResponse>, query: Seq<char>) -> Seq<u128> {
    docs.map(|i: int, d: DocumentResponse| d.id).filter(|id: u128| id_matches(id, query))
}

/// What resolving a shortened document id against a listing found.
#[derive(Debug, PartialEq)]
pub enum IdResolution {
    /// Exactly one document's id starts with the query.
    Resolved(u128),
    /// No document's id starts with the query.
    NoMatch,
    /// The query is shorter than the eight characters required.
    TooShort,
    /// Several documents match; their ids, in listing order.
    Ambiguous(Vec<u128>),
}

/// Resolves a shortened document id against a listing: a query of fewer
/// than eight characters is refused outright; otherwise the documents
/// whose ids start with it decide — one match resolves, none is reported
/// as such, and several are handed back for the caller to disambiguate.
pub fn resolve_partial_id(docs: &Vec<DocumentResponse>, query: &str) -> (r: IdResolution)
    ensures
        query@.len() < 8 ==> r == IdResolution::TooShort,
        query@.len() >= 8 ==> {
            let m = matching_ids(docs@, query@);
            match r {
                IdResolution::Resolved(id) => m.len() == 1 && m[0] == id,
                IdResolution::NoMatch => m.len() == 0,
                IdResolution::Ambiguous(ids) => ids@ == m && m.len() >= 2,
                IdResolution::TooShort => false,
            }
        },
{
    if query.unicode_len() < 8 {
        return IdResolution::TooShort;
    }
    let ghost pred = |id: u128| id_matches(id, query@);
    let ghost to_id = |i: int, d: DocumentResponse| d.id;
    let n = docs.len();
    let mut found: Vec<u128> = Vec::new();
    let mut i: usize = 0;
    while i < n
        invariant
            n == docs@.len(),
            i <= n,
            pred == (|id: u128| id_matches(id, query@)),
            to_id == (|i: int, d: DocumentResponse| d.id),
            found@ == docs@.take(i as int).map(to_id).filter(pred),
        decreases n - i,
    {
        proof {
            reveal(Seq::filter);
            let prefix_ids = docs@.take(i as int).map(to_id);
            let next_ids = docs@.take(i + 1).map(to_id);
            assert(next_ids.drop_last() =~= prefix_ids);
            assert(next_ids.last() == docs@[i as int].id);
        }
        let rendered = format_entity_id(docs[i].id);
        if str_has_prefix(rendered.as_str(), query) {
            found.push(docs[i].id);
        }
        i = i + 1;
    }
    proof {
        assert(docs@.take(n as int) =~= docs@);
    }
    if found.len() == 0 {
        IdResolution::NoMatch
    } else if found.len() == 1 {
        IdResolution::Resolved(found[0])
    } else {
        IdResolution::Ambiguous(found)
    }
}

/// The category a case-folded file path suggests: contract-like names
/// first, then legal, financial and medical ones; anything else gets no
/// category.
pub open spec fn spec_category_of_folded(folded: Seq<char>) -> Option<DocumentCategory> {
    if contains_seq(folded, "contract"@) || contains_seq(folded, "agreement"@) {
        Some(DocumentCategory::Contract)
    } else if contains_seq(folded, "legal"@) || contains_seq(folded, "lawsuit"@) {
        Some(DocumentCategory::Legal)
    } else if contains_seq(folded, "financial"@) || contains_seq(folded, "invoice"@) {
        Some(DocumentCategory::Financial)
    } else if contains_seq(folded, "medical"@) || contains_seq(folded, "health"@) {
        Some(DocumentCategory::Medical)
    } else {
        None
    }
}

/// Reads the category out of an already case-folded file path.
pub fn categorize_folded_path(folded: &str) -> (r: Option<DocumentCategory>)
    ensures
        r == spec_category_of_folded(folded@),
{
    if str_contains(folded, "contract") || str_contains(folded, "agreement") {
        Some(DocumentCategory::Contract)
    } else if str_contains(folded, "legal") || str_contains(folded, "lawsuit") {
        Some(DocumentCategory::Legal)
    } else if str_contains(folded, "financial") || str_contains(folded, "invoice") {
        Some(DocumentCategory::Financial)
    } else if str_contains(folded, "medical") || str_contains(folded, "health") {
        Some(DocumentCategory::Medical)
    } else {
        None
    }
}

/// Suggests a category for a file from its path, case-insensitively.
pub fn determine_category(file_path: &str) -> (r: Option<DocumentCategory>)
    ensures
        r == spec_category_of_folded(lower_of(file_path@)),
{
    let folded = lowercase(file_path);
    categorize_folded_path(folded.as_str())
}

/// How a document endpoint answered, by HTTP status.
#[derive(Debug, Clone, Copy, PartialEq, Eq, Structural)]
pub enum DocumentStatusClass {
    /// The body carries the record (or the delete took effect).
    Success,
    /// Authentication is required.
    Unauthorized,
    /// The document does not exist.
    NotFound,
    /// Any other status: surfaced with its code.
    Other,
}

/// The class `classify_document_status` assigns to each status code.
pub open spec fn spec_document_status_class(status: u16) -> DocumentStatusClass {
    if status == 200 || status == 201 || status == 204 {
        DocumentStatusClass::Success
    } else if status == 401 {
        DocumentStatusClass::Unauthorized
    } else if status == 404 {
        DocumentStatusClass::NotFound
    } else {
        DocumentStatusClass::Other
    }
}

/// Classifies a document endpoint's HTTP status.
pub fn classify_document_status(status: u16) -> (c: DocumentStatusClass)
    ensures
        c == spec_document_status_class(status),
{
    if status == 200 || status == 201 || status == 204 {
        DocumentStatusClass::Success
    } else if status == 401 {
        DocumentStatusClass::Unauthorized
    } else if status == 404 {
        DocumentStatusClass::NotFound
    } else {
        DocumentStatusClass::Other
    }
}

} // verus!
