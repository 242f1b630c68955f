//! Documents ingested for retrieval (`/v1/documents`) and their chunks
//! (`/v1/chunks`).

use crate::client::{endpoint_url, segment_endpoint_url, segments_endpoint_url, url_outcome, Client};
use crate::error::Error;
use crate::text::{bool_string, bool_text, decimal_text, i64_text, opt_view};
use vstd::prelude::*;

verus! {

/// A document ingested in a collection.
#[derive(Debug, Clone)]
pub struct Document {
    /// Identifier.
    pub id: i64,
    /// Name.
    pub name: String,
    /// Collection it belongs to.
    pub collection_id: i64,
    /// Creation (Unix timestamp).
    pub created: i64,
    /// Number of chunks produced.
    pub chunks: Option<i64>,
    /// Size (bytes).
    pub size: Option<i64>,
}

/// Answer of `GET /v1/documents`.
#[derive(Debug, Clone)]
pub struct Documents {
    /// Documents.
    pub data: Vec<Document>,
}

/// Answer of `POST /v1/documents`: identifier of the created document.
#[derive(Debug, Clone)]
pub struct DocumentResponse {
    /// Identifier of the created document.
    pub id: i64,
}

/// Options of the ingestion of a document (`POST /v1/documents`, multipart).
#[derive(Debug, Clone)]
pub struct CreateDocument {
    /// Target collection.
    pub collection_id: Option<i64>,
    /// Name of the document (default: the file name).
    pub name: Option<String>,
    /// Turns chunking off.
    pub disable_chunking: Option<bool>,
    /// Target size of the chunks.
    pub chunk_size: Option<i64>,
    /// Overlap between consecutive chunks.
    pub chunk_overlap: Option<i64>,
}

/// One text field `(name, value)` of the multipart form, present when the
/// option is set.
pub open spec fn form_field(name: Seq<char>, value: Option<Seq<char>>) -> Seq<(Seq<char>, Seq<char>)> {
    match value {
        Some(v) => seq![(name, v)],
        None => Seq::empty(),
    }
}

/// The decimal text of an optional integer.
pub open spec fn opt_decimal(v: Option<i64>) -> Option<Seq<char>> {
    match v {
        Some(n) => Some(decimal_text(n as int)),
        None => None,
    }
}

/// The text of an optional boolean.
pub open spec fn opt_bool(v: Option<bool>) -> Option<Seq<char>> {
    match v {
        Some(b) => Some(bool_text(b)),
        None => None,
    }
}

/// The text fields of the multipart form of `POST /v1/documents`, in the
/// order they are sent: one per option that is set.
pub open spec fn document_form(d: CreateDocument) -> Seq<(Seq<char>, Seq<char>)> {
    form_field("collection_id"@, opt_decimal(d.collection_id)) + form_field(
        "name"@,
        opt_view(d.name),
    ) + form_field("disable_chunking"@, opt_bool(d.disable_chunking)) + form_field(
        "chunk_size"@,
        opt_decimal(d.chunk_size),
    ) + form_field("chunk_overlap"@, opt_decimal(d.chunk_overlap))
}

/// The number of options of `d` that are set.
pub open spec fn options_set(d: CreateDocument) -> nat {
    (if d.collection_id is Some { 1nat } else { 0nat }) + (if d.name is Some { 1nat } else { 0nat })
        + (if d.disable_chunking is Some { 1nat } else { 0nat }) + (if d.chunk_size is Some {
        1nat
    } else {
        0nat
    }) + (if d.chunk_overlap is Some { 1nat } else { 0nat })
}

/// Whether some field of `form` is named `name`.
pub open spec fn has_field_named(form: Seq<(Seq<char>, Seq<char>)>, name: Seq<char>) -> bool {
    exists|i: int| 0 <= i < form.len() && (#[trigger] form[i]).0 == name
}

/// Every element of a concatenation of at most one-element pieces comes from
/// one of the pieces.
proof fn lemma_form_names(d: CreateDocument, i: int)
    requires
        0 <= i < document_form(d).len(),
    ensures
        ({
            let n = document_form(d)[i].0;
            ||| n == "collection_id"@ && d.collection_id is Some
            ||| n == "name"@ && d.name is Some
            ||| n == "disable_chunking"@ && d.disable_chunking is Some
            ||| n == "chunk_size"@ && d.chunk_size is Some
            ||| n == "chunk_overlap"@ && d.chunk_overlap is Some
        }),
{
    let a = form_field("collection_id"@, opt_decimal(d.collection_id));
    let b = form_field("name"@, opt_view(d.name));
    let c = form_field("disable_chunking"@, opt_bool(d.disable_chunking));
    let e = form_field("chunk_size"@, opt_decimal(d.chunk_size));
    let f = form_field("chunk_overlap"@, opt_decimal(d.chunk_overlap));
    assert(document_form(d) == a + b + c + e + f);
    let ab = a + b;
    let abc = ab + c;
    let abce = abc + e;
    if i < abce.len() {
        if i < abc.len() {
            if i < ab.len() {
                if i < a.len() {
                } else {
                }
            } else {
            }
        } else {
        }
    } else {
    }
}

/// Each option of a document upload is sent on its own: the form holds one
/// field per option that is set, with the option's text (integers in
/// decimal, booleans as `true`/`false`), and no field for an option that is
/// not set, whatever the other options are.
pub proof fn law_form_field_per_option(d: CreateDocument)
    ensures
        document_form(d).len() == options_set(d),
        d.collection_id matches Some(n) ==> document_form(d).contains(
            ("collection_id"@, decimal_text(n as int)),
        ),
        d.name matches Some(s) ==> document_form(d).contains(("name"@, s@)),
        d.disable_chunking matches Some(b) ==> document_form(d).contains(
            ("disable_chunking"@, if b { seq!['t', 'r', 'u', 'e'] } else { seq!['f', 'a', 'l', 's', 'e'] }),
        ),
        d.chunk_size matches Some(n) ==> document_form(d).contains(("chunk_size"@, decimal_text(n as int))),
        d.chunk_overlap matches Some(n) ==> document_form(d).contains(
            ("chunk_overlap"@, decimal_text(n as int)),
        ),
        d.collection_id is None ==> !has_field_named(document_form(d), "collection_id"@),
        d.name is None ==> !has_field_named(document_form(d), "name"@),
        d.disable_chunking is None ==> !has_field_named(document_form(d), "disable_chunking"@),
        d.chunk_size is None ==> !has_field_named(document_form(d), "chunk_size"@),
        d.chunk_overlap is None ==> !has_field_named(document_form(d), "chunk_overlap"@),
{
    reveal_strlit("collection_id");
    reveal_strlit("name");
    reveal_strlit("disable_chunking");
    reveal_strlit("chunk_size");
    reveal_strlit("chunk_overlap");
    let form = document_form(d);
    let a = form_field("collection_id"@, opt_decimal(d.collection_id));
    let b = form_field("name"@, opt_view(d.name));
    let c = form_field("disable_chunking"@, opt_bool(d.disable_chunking));
    let e = form_field("chunk_size"@, opt_decimal(d.chunk_size));
    let f = form_field("chunk_overlap"@, opt_decimal(d.chunk_overlap));
    assert(form == a + b + c + e + f);
    let ab = a + b;
    let abc = ab + c;
    let abce = abc + e;
    if d.collection_id is Some {
        assert(form[0] == a[0]);
    }
    if d.name is Some {
        assert(form[a.len() as int] == b[0]);
    }
    if d.disable_chunking is Some {
        assert(form[ab.len() as int] == c[0]);
    }
    if d.chunk_size is Some {
        assert(form[abc.len() as int] == e[0]);
    }
    if d.chunk_overlap is Some {
        assert(form[abce.len() as int] == f[0]);
    }
    assert forall|i: int| 0 <= i < form.len() implies {
        let n = (#[trigger] form[i]).0;
        &&& (d.collection_id is None ==> n != "collection_id"@)
        &&& (d.name is None ==> n != "name"@)
        &&& (d.disable_chunking is None ==> n != "disable_chunking"@)
        &&& (d.chunk_size is None ==> n != "chunk_size"@)
        &&& (d.chunk_overlap is None ==> n != "chunk_overlap"@)
    } by {
        reveal_strlit("collection_id");
        reveal_strlit("name");
        reveal_strlit("disable_chunking");
        reveal_strlit("chunk_size");
        reveal_strlit("chunk_overlap");
        lemma_form_names(d, i);
        assert("collection_id"@.len() == 13);
        assert("name"@.len() == 4);
        assert("disable_chunking"@.len() == 16);
        assert("chunk_size"@.len() == 10);
        assert("chunk_overlap"@.len() == 13);
        assert("collection_id"@[1] != "chunk_overlap"@[1]);
    }
}

/// The view of a list of text fields.
pub open spec fn fields_view(v: Seq<(String, String)>) -> Seq<(Seq<char>, Seq<char>)> {
    v.map_values(|p: (String, String)| (p.0@, p.1@))
}

impl Default for CreateDocument {
    fn default() -> (res: Self)
        ensures
            res.collection_id is None,
            res.name is None,
            res.disable_chunking is None,
            res.chunk_size is None,
            res.chunk_overlap is None,
    {
        CreateDocument {
            collection_id: None,
            name: None,
            disable_chunking: None,
            chunk_size: None,
            chunk_overlap: None,
        }
    }
}

/// Appends the field `(name, value)` to `fields` when `value` is set.
fn push_field(fields: &mut Vec<(String, String)>, name: &str, value: Option<String>)
    ensures
        fields_view(final(fields)@) == fields_view(old(fields)@) + form_field(name@, opt_view(value)),
{
    match value {
        Some(v) => {
            fields.push((name.to_owned(), v));
            assert(fields_view(fields@) =~= fields_view(old(fields)@) + form_field(name@, opt_view(value)));
        },
        None => {
            assert(fields_view(fields@) =~= fields_view(old(fields)@) + form_field(name@, opt_view(value)));
        },
    }
}

/// The decimal text of an optional integer.
fn decimal_field(v: Option<i64>) -> (res: Option<String>)
    ensures
        opt_view(res) == opt_decimal(v),
{
    match v {
        Some(n) => Some(i64_text(n)),
        None => None,
    }
}

impl CreateDocument {
    /// Default options targeting a collection.
    pub fn new(collection_id: i64) -> (res: Self)
        ensures
            res.collection_id == Some(collection_id),
            res.name is None,
            res.disable_chunking is None,
            res.chunk_size is None,
            res.chunk_overlap is None,
    {
        CreateDocument {
            collection_id: Some(collection_id),
            name: None,
            disable_chunking: None,
            chunk_size: None,
            chunk_overlap: None,
        }
    }

    /// Sets the name of the document.
    pub fn name(self, name: &str) -> (res: Self)
        ensures
            res.collection_id == self.collection_id,
            opt_view(res.name) == Some(name@),
            res.disable_chunking == self.disable_chunking,
            res.chunk_size == self.chunk_size,
            res.chunk_overlap == self.chunk_overlap,
    {
        CreateDocument { name: Some(name.to_owned()), ..self }
    }

    /// Turns chunking off (or on).
    pub fn disable_chunking(self, disable: bool) -> (res: Self)
        ensures
            res.collection_id == self.collection_id,
            res.name == self.name,
            res.disable_chunking == Some(disable),
            res.chunk_size == self.chunk_size,
            res.chunk_overlap == self.chunk_overlap,
    {
        CreateDocument { disable_chunking: Some(disable), ..self }
    }

    /// Sets the target size of the chunks.
    pub fn chunk_size(self, size: i64) -> (res: Self)
        ensures
            res.collection_id == self.collection_id,
            res.name == self.name,
            res.disable_chunking == self.disable_chunking,
            res.chunk_size == Some(size),
            res.chunk_overlap == self.chunk_overlap,
    {
        CreateDocument { chunk_size: Some(size), ..self }
    }

    /// Sets the overlap between consecutive chunks.
    pub fn chunk_overlap(self, overlap: i64) -> (res: Self)
        ensures
            res.collection_id == self.collection_id,
            res.name == self.name,
            res.disable_chunking == self.disable_chunking,
            res.chunk_size == self.chunk_size,
            res.chunk_overlap == Some(overlap),
    {
        CreateDocument { chunk_overlap: Some(overlap), ..self }
    }

    /// The text fields that go with the file in the multipart form of
    /// `POST /v1/documents`: integers in decimal, booleans as `true` or
    /// `false`, unset options left out.
    pub fn form_fields(&self) -> (res: Vec<(String, String)>)
        ensures
            fields_view(res@) == document_form(*self),
    {
        let mut fields: Vec<(String, String)> = Vec::new();
        assert(fields_view(fields@) =~= Seq::<(Seq<char>, Seq<char>)>::empty());
        push_field(&mut fields, "collection_id", decimal_field(self.collection_id));
        let name = match &self.name {
            Some(n) => Some(n.clone()),
            None => None,
        };
        push_field(&mut fields, "name", name);
        let disable = match self.disable_chunking {
            Some(b) => Some(bool_string(b)),
            None => None,
        };
        push_field(&mut fields, "disable_chunking", disable);
        push_field(&mut fields, "chunk_size", decimal_field(self.chunk_size));
        push_field(&mut fields, "chunk_overlap", decimal_field(self.chunk_overlap));
        assert(fields_view(fields@) =~= document_form(*self));
        fields
    }
}

/// Parameters of `GET /v1/documents`.
#[derive(Debug, Clone)]
pub struct DocumentsQuery {
    /// Filter on a collection.
    pub collection_id: Option<i64>,
    /// Pagination offset.
    pub offset: Option<u32>,
    /// Page size.
    pub limit: Option<u32>,
}

impl Default for DocumentsQuery {
    fn default() -> (res: Self)
        ensures
            res.collection_id is None,
            res.offset is None,
            res.limit is None,
    {
        DocumentsQuery { collection_id: None, offset: None, limit: None }
    }
}

impl DocumentsQuery {
    /// No parameter.
    pub fn new() -> (res: Self)
        ensures
            res.collection_id is None,
            res.offset is None,
            res.limit is None,
    {
        DocumentsQuery { collection_id: None, offset: None, limit: None }
    }

    /// Filters on a collection.
    pub fn collection(self, collection_id: i64) -> (res: Self)
        ensures
            res.collection_id == Some(collection_id),
            res.offset == self.offset,
            res.limit == self.limit,
    {
        DocumentsQuery { collection_id: Some(collection_id), ..self }
    }

    /// Sets the pagination offset.
    pub fn offset(self, offset: u32) -> (res: Self)
        ensures
            res.collection_id == self.collection_id,
            res.offset == Some(offset),
            res.limit == self.limit,
    {
        DocumentsQuery { offset: Some(offset), ..self }
    }

    /// Sets the page size.
    pub fn limit(self, limit: u32) -> (res: Self)
        ensures
            res.collection_id == self.collection_id,
            res.offset == self.offset,
            res.limit == Some(limit),
    {
        DocumentsQuery { limit: Some(limit), ..self }
    }
}

impl Client {
    /// The URL of `POST /v1/documents` and `GET /v1/documents`.
    pub fn documents_url(&self) -> (res: Result<String, Error>)
        ensures
            url_outcome(res, endpoint_url(self@.base_url, "/v1/documents"@)),
    {
        self.endpoint("/v1/documents")
    }

    /// The URL of `GET` and `DELETE /v1/documents/{id}`.
    pub fn document_url(&self, document_id: &str) -> (res: Result<String, Error>)
        ensures
            url_outcome(res, segment_endpoint_url(self@.base_url, "/v1/documents"@, document_id@)),
    {
        self.endpoint_with_segment("/v1/documents", document_id)
    }

    /// The URL of `GET /v1/chunks/{document}`.
    pub fn document_chunks_url(&self, document_id: &str) -> (res: Result<String, Error>)
        ensures
            url_outcome(res, segment_endpoint_url(self@.base_url, "/v1/chunks"@, document_id@)),
    {
        self.endpoint_with_segment("/v1/chunks", document_id)
    }

    /// The URL of `GET /v1/chunks/{document}/{chunk}`.
    pub fn chunk_url(&self, document_id: &str, chunk_id: &str) -> (res: Result<String, Error>)
        ensures
            url_outcome(
                res,
                segments_endpoint_url(
                    self@.base_url,
                    "/v1/chunks"@,
                    seq![document_id@, chunk_id@],
                ),
            ),
    {
        let segments = [document_id, chunk_id];
        let res = self.endpoint_with_segments("/v1/chunks", &segments);
        assert(segments@.map_values(|s: &str| s@) =~= seq![document_id@, chunk_id@]);
        res
    }
}

} // verus!
