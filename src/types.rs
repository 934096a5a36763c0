//! Values sent to and received from the API.
use std::collections::HashMap;
use vstd::prelude::*;
use vstd::string::StringExecFns;

verus! {

/// Content of a document.
#[derive(Clone, Debug)]
pub enum DocumentContent {
    /// Plain text.
    Text { text: String },
    /// Base64 data whose format the server detects (PDFs, images with OCR).
    Auto { base64_data: String },
}

/// Metadata of a document: named strings or lists of strings.
pub type Metadata = HashMap<String, MetadataValue>;

/// A metadata value: a string or a list of strings.
#[derive(Clone, Debug)]
pub enum MetadataValue {
    String(String),
    Array(Vec<String>),
}

/// Trade-off between latency and quality of a query.
#[derive(Clone, Copy, Debug, PartialEq, Eq, Structural)]
pub enum LatencyMode {
    Low,
    High,
}

/// Indexing state of a document.
#[derive(Clone, Copy, Debug, PartialEq, Eq, Structural)]
pub enum IndexStatus {
    NotParsed,
    NotIndexed,
    Parsing,
    ParsingFailed,
    Indexing,
    IndexingFailed,
    Indexed,
}

/// Counts of the account's documents and collections.
#[derive(Debug)]
pub struct StatusResponse {
    pub num_documents: u64,
    pub num_collections: u64,
}

/// Answer to adding or deleting a collection.
#[derive(Debug)]
pub struct CollectionResponse {
    pub message: String,
}

/// The names of all collections.
#[derive(Debug)]
pub struct CollectionListResponse {
    pub collections: Vec<String>,
}

/// Answer to adding, updating or deleting a document.
#[derive(Debug)]
pub struct DocumentResponse {
    pub message: String,
}

/// What the API knows of a document.
#[derive(Debug)]
pub struct DocumentInfo {
    pub path: String,
    pub index_status: IndexStatus,
    pub metadata: Option<Metadata>,
    pub content: Option<DocumentContent>,
}

/// Answer to a document information request.
#[derive(Debug)]
pub struct DocumentInfoResponse {
    pub document: DocumentInfo,
}

/// One page of the documents of a collection.
#[derive(Debug)]
pub struct DocumentInfoListResponse {
    pub documents: Vec<DocumentInfo>,
    pub path_gt: Option<String>,
}

/// What the API knows of one page of a document.
#[derive(Debug)]
pub struct PageInfo {
    pub path: String,
    pub page_number: u32,
    pub content: Option<String>,
}

/// Answer to a page information request.
#[derive(Debug)]
pub struct PageInfoResponse {
    pub page: PageInfo,
}

/// A document to rerank.
#[derive(Debug)]
pub struct RerankDocument {
    pub id: String,
    pub text: String,
}

/// Standard base64 (with padding) of the bytes.
pub uninterp spec fn base64_of(bytes: Seq<u8>) -> Seq<char>;

/// Relies on base64's `general_purpose::STANDARD.encode`: padded standard base64,
/// four characters for every started group of three bytes. It panics when that
/// length overflows `usize`, which the bound rules out.
#[verifier::external_body]
fn encode_base64(bytes: &Vec<u8>) -> (r: String)
    requires
        bytes@.len() <= usize::MAX / 2,
    ensures
        r@ == base64_of(bytes@),
        r@.len() == 4 * ((bytes@.len() + 2) / 3),
{
    base64::Engine::encode(&base64::engine::general_purpose::STANDARD, bytes)
}

impl DocumentContent {
    /// Plain-text content.
    pub fn text(text: String) -> (r: DocumentContent)
        ensures
            r matches DocumentContent::Text { text: t } && t@ == text@,
    {
        DocumentContent::Text { text }
    }

    /// Content given as base64 data (a PDF for OCR, for instance).
    pub fn auto(base64_data: String) -> (r: DocumentContent)
        ensures
            r matches DocumentContent::Auto { base64_data: d } && d@ == base64_data@,
    {
        DocumentContent::Auto { base64_data }
    }

    /// Content for the raw bytes of a file (a PDF, for instance), sent as base64.
    pub fn from_file_bytes(bytes: &Vec<u8>) -> (r: DocumentContent)
        requires
            bytes@.len() <= usize::MAX / 2,
        ensures
            r matches DocumentContent::Auto { base64_data: d } && d@ == base64_of(bytes@)
                && d@.len() == 4 * ((bytes@.len() + 2) / 3),
    {
        DocumentContent::Auto { base64_data: encode_base64(bytes) }
    }
}

/// Whether `a` holds the text `b`.
fn same_text(a: &String, b: &str) -> (r: bool)
    ensures
        r == (a@ == b@),
{
    a.eq(&String::from_str(b))
}

impl LatencyMode {
    /// The name of the mode on the wire.
    pub open spec fn name_of(self) -> Seq<char> {
        match self {
            LatencyMode::Low => "low"@,
            LatencyMode::High => "high"@,
        }
    }

    /// The mode whose wire name is `name`, if any.
    pub open spec fn named(name: Seq<char>) -> Option<LatencyMode> {
        if name == "low"@ {
            Some(LatencyMode::Low)
        } else if name == "high"@ {
            Some(LatencyMode::High)
        } else {
            None
        }
    }

    /// The name of the mode on the wire.
    pub fn wire_name(&self) -> (r: &'static str)
        ensures
            r@ == self.name_of(),
    {
        match self {
            LatencyMode::Low => "low",
            LatencyMode::High => "high",
        }
    }

    /// Reads a mode from its wire name.
    pub fn from_wire_name(name: &String) -> (r: Option<LatencyMode>)
        ensures
            r == LatencyMode::named(name@),
    {
        if same_text(name, "low") {
            Some(LatencyMode::Low)
        } else if same_text(name, "high") {
            Some(LatencyMode::High)
        } else {
            None
        }
    }
}

/// Reading back the wire name of a latency mode gives the same mode, and a name
/// is read as a mode only when it is that mode's wire name.
pub proof fn lemma_latency_mode_round_trip(m: LatencyMode)
    ensures
        LatencyMode::named(m.name_of()) == Some(m),
        forall|n: Seq<char>| #[trigger] LatencyMode::named(n) == Some(m) ==> n == m.name_of(),
{
    reveal_strlit("low");
    reveal_strlit("high");
    assert("low"@.len() != "high"@.len());
}

impl IndexStatus {
    /// The name of the status on the wire.
    pub open spec fn name_of(self) -> Seq<char> {
        match self {
            IndexStatus::NotParsed => "not_parsed"@,
            IndexStatus::NotIndexed => "not_indexed"@,
            IndexStatus::Parsing => "parsing"@,
            IndexStatus::ParsingFailed => "parsing_failed"@,
            IndexStatus::Indexing => "indexing"@,
            IndexStatus::IndexingFailed => "indexing_failed"@,
            IndexStatus::Indexed => "indexed"@,
        }
    }

    /// The status whose wire name is `name`, if any.
    pub open spec fn named(name: Seq<char>) -> Option<IndexStatus> {
        if name == "not_parsed"@ {
            Some(IndexStatus::NotParsed)
        } else if name == "not_indexed"@ {
            Some(IndexStatus::NotIndexed)
        } else if name == "parsing"@ {
            Some(IndexStatus::Parsing)
        } else if name == "parsing_failed"@ {
            Some(IndexStatus::ParsingFailed)
        } else if name == "indexing"@ {
            Some(IndexStatus::Indexing)
        } else if name == "indexing_failed"@ {
            Some(IndexStatus::IndexingFailed)
        } else if name == "indexed"@ {
            Some(IndexStatus::Indexed)
        } else {
            None
        }
    }

    /// The name of the status on the wire.
    pub fn wire_name(&self) -> (r: &'static str)
        ensures
            r@ == self.name_of(),
    {
        match self {
            IndexStatus::NotParsed => "not_parsed",
            IndexStatus::NotIndexed => "not_indexed",
            IndexStatus::Parsing => "parsing",
            IndexStatus::ParsingFailed => "parsing_failed",
            IndexStatus::Indexing => "indexing",
            IndexStatus::IndexingFailed => "indexing_failed",
            IndexStatus::Indexed => "indexed",
        }
    }

    /// Reads a status from its wire name.
    pub fn from_wire_name(name: &String) -> (r: Option<IndexStatus>)
        ensures
            r == IndexStatus::named(name@),
    {
        if same_text(name, "not_parsed") {
            Some(IndexStatus::NotParsed)
        } else if same_text(name, "not_indexed") {
            Some(IndexStatus::NotIndexed)
        } else if same_text(name, "parsing") {
            Some(IndexStatus::Parsing)
        } else if same_text(name, "parsing_failed") {
            Some(IndexStatus::ParsingFailed)
        } else if same_text(name, "indexing") {
            Some(IndexStatus::Indexing)
        } else if same_text(name, "indexing_failed") {
            Some(IndexStatus::IndexingFailed)
        } else if same_text(name, "indexed") {
            Some(IndexStatus::Indexed)
        } else {
            None
        }
    }
}

/// Reading back the wire name of an index status gives the same status, and a
/// name is read as a status only when it is that status's wire name.
pub proof fn lemma_index_status_round_trip(s: IndexStatus)
    ensures
        IndexStatus::named(s.name_of()) == Some(s),
        forall|n: Seq<char>| #[trigger] IndexStatus::named(n) == Some(s) ==> n == s.name_of(),
{
    reveal_strlit("not_parsed");
    reveal_strlit("not_indexed");
    reveal_strlit("parsing");
    reveal_strlit("parsing_failed");
    reveal_strlit("indexing");
    reveal_strlit("indexing_failed");
    reveal_strlit("indexed");
    // Names of one length differ at one position at least.
    assert("parsing"@[0] != "indexed"@[0]);
    assert("not_parsed"@.len() == 10 && "not_indexed"@.len() == 11 && "parsing"@.len() == 7);
    assert("parsing_failed"@.len() == 14 && "indexing"@.len() == 8);
    assert("indexing_failed"@.len() == 15 && "indexed"@.len() == 7);
}

} // verus!
