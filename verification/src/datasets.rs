//! The dataset operations: what each one sends.
//!
//! A builder collects the parameters of one operation. Its `execute` takes the
//! access token and describes the one request that carries the operation out;
//! the reply to that request is read by `reply_body` or `reply_done`.

use vstd::prelude::*;
use crate::error::{DomoErr, DomoErrView};
use crate::http::{HttpRequest, HttpRequestView, Method};
use crate::json::{json_string, json_string_text};
use crate::text::{decimal, decimal_text, join_if, joined, query_encode, query_encoded, selected};

verus! {

/// The URL under which the datasets live.
pub open spec fn datasets_url() -> Seq<char> {
    "https://api.domo.com/v1/datasets"@
}

/// The header that carries the access token.
pub open spec fn bearer(token: Seq<char>) -> (Seq<char>, Seq<char>) {
    ("Authorization"@, "Bearer "@ + token)
}

/// The request for the description of one dataset.
pub open spec fn info_request(dataset_id: Seq<char>, token: Seq<char>) -> HttpRequestView {
    HttpRequestView {
        method: Method::Get,
        url: datasets_url() + "/"@ + dataset_id,
        basic_auth: None,
        headers: seq![bearer(token)],
        body: None,
    }
}

/// The request that deletes one dataset.
pub open spec fn delete_request(dataset_id: Seq<char>, token: Seq<char>) -> HttpRequestView {
    HttpRequestView {
        method: Method::Delete,
        url: datasets_url() + "/"@ + dataset_id,
        basic_auth: None,
        headers: seq![bearer(token)],
        body: None,
    }
}

/// The request that replaces the rows of a dataset by the given CSV text.
pub open spec fn upload_request(
    dataset_id: Seq<char>,
    token: Seq<char>,
    data: Seq<char>,
) -> HttpRequestView {
    HttpRequestView {
        method: Method::Put,
        url: datasets_url() + "/"@ + dataset_id + "/data"@,
        basic_auth: None,
        headers: seq![bearer(token), ("Content-Type"@, "text/csv"@)],
        body: Some(data),
    }
}

/// A JSON object whose one member, `sql`, has the given literal as its value.
pub open spec fn sql_object(literal: Seq<char>) -> Seq<char> {
    "{\"sql\":"@ + literal + "}"@
}

/// The body of a query request: a JSON object whose one member, `sql`, is the
/// query as a JSON string.
pub open spec fn query_body(sql_query: Seq<char>) -> Seq<char> {
    sql_object(json_string_text(sql_query))
}

/// The request that runs a query on a dataset.
pub open spec fn query_request(
    dataset_id: Seq<char>,
    token: Seq<char>,
    sql_query: Seq<char>,
) -> HttpRequestView {
    HttpRequestView {
        method: Method::Post,
        url: datasets_url() + "/query/execute/"@ + dataset_id,
        basic_auth: None,
        headers: seq![bearer(token), ("Content-Type"@, "application/json"@)],
        body: Some(query_body(sql_query)),
    }
}

/// How a flag is written in a query.
pub open spec fn flag_text(flag: bool) -> Seq<char> {
    if flag {
        "true"@
    } else {
        "false"@
    }
}

/// The request for the rows of a dataset as CSV, with or without the header
/// row.
pub open spec fn data_request(
    dataset_id: Seq<char>,
    token: Seq<char>,
    include_headers: bool,
) -> HttpRequestView {
    HttpRequestView {
        method: Method::Get,
        url: datasets_url() + "/"@ + dataset_id + "/data?includeHeader="@ + flag_text(
            include_headers,
        ),
        basic_auth: None,
        headers: seq![bearer(token)],
        body: None,
    }
}

/// The parameters of a listing: how many datasets to list, how many to pass
/// over first, and the field to order by, each where it is set.
pub struct ListParams {
    pub limit: Option<usize>,
    pub offset: Option<usize>,
    pub sort: Option<Seq<char>>,
}

impl ListParams {
    /// The parameters that a new listing has: fifty entries from the start,
    /// ordered by name.
    pub open spec fn initial() -> ListParams {
        ListParams { limit: Some(50usize), offset: None, sort: Some("name"@) }
    }

    /// The parameters as they stand in the query, those that are set, each as
    /// name, `=` and value.
    pub open spec fn pairs(self) -> Seq<Seq<char>> {
        selected(self.limit is Some, "limit="@ + decimal_text(self.limit->0 as nat)) + selected(
            self.offset is Some,
            "offset="@ + decimal_text(self.offset->0 as nat),
        ) + selected(self.sort is Some, "sort="@ + query_encoded(self.sort->0))
    }

    /// The query of the listing: the pairs joined by `&`.
    pub open spec fn query(self) -> Seq<char> {
        joined(self.pairs(), "&"@)
    }
}

/// The request that lists datasets.
pub open spec fn list_request(params: ListParams, token: Seq<char>) -> HttpRequestView {
    HttpRequestView {
        method: Method::Get,
        url: datasets_url() + "?"@ + params.query(),
        basic_auth: None,
        headers: seq![bearer(token)],
        body: None,
    }
}

/// The header that carries the access token.
fn bearer_header(token: &str) -> (header: (String, String))
    ensures
        header.deep_view() == bearer(token@),
{
    let mut value = String::from_str("Bearer ");
    value.append(token);
    (String::from_str("Authorization"), value)
}

/// The URL of one dataset, with `tail` behind its id.
fn dataset_url(dataset_id: &str, tail: &str) -> (url: String)
    ensures
        url@ == datasets_url() + "/"@ + dataset_id@ + tail@,
{
    let mut url = String::from_str("https://api.domo.com/v1/datasets");
    url.append("/");
    url.append(dataset_id);
    url.append(tail);
    url
}

/// Writes the body of a query request around the JSON literal of the query.
pub fn sql_body(literal: &str) -> (body: String)
    ensures
        body@ == sql_object(literal@),
{
    let mut body = String::from_str("{\"sql\":");
    body.append(literal);
    body.append("}");
    body
}

/// The entry to the dataset operations.
#[derive(Clone, Copy, Debug, PartialEq, Eq, Structural)]
pub struct DatasetApiBuilder {}

impl DatasetApiBuilder {
    /// Starts a listing of datasets.
    pub fn list(self) -> (builder: DatasetApiListBuilder)
        ensures
            builder@ == ListParams::initial(),
    {
        DatasetApiListBuilder::new()
    }

    /// Describes the request for the description of one dataset.
    pub fn info(self, dataset_id: &str, token: &str) -> (request: HttpRequest)
        ensures
            request@ == info_request(dataset_id@, token@),
    {
        let mut headers = Vec::new();
        headers.push(bearer_header(token));
        let request = HttpRequest {
            method: Method::Get,
            url: dataset_url(dataset_id, ""),
            basic_auth: None,
            headers,
            body: None,
        };
        proof {
            reveal_strlit("");
            assert(request@.url =~= info_request(dataset_id@, token@).url);
            assert(request@.headers =~= seq![bearer(token@)]);
        }
        request
    }

    /// Describes the request that deletes one dataset.
    pub fn delete(self, dataset_id: &str, token: &str) -> (request: HttpRequest)
        ensures
            request@ == delete_request(dataset_id@, token@),
    {
        let mut headers = Vec::new();
        headers.push(bearer_header(token));
        let request = HttpRequest {
            method: Method::Delete,
            url: dataset_url(dataset_id, ""),
            basic_auth: None,
            headers,
            body: None,
        };
        proof {
            reveal_strlit("");
            assert(request@.url =~= delete_request(dataset_id@, token@).url);
            assert(request@.headers =~= seq![bearer(token@)]);
        }
        request
    }

    /// Starts a query on a dataset.
    pub fn query_data(self, dataset_id: &str, sql_query: &str) -> (builder:
        DatasetApiQueryDataBuilder)
        ensures
            builder@ == (QueryParams { dataset_id: dataset_id@, sql_query: sql_query@ }),
    {
        DatasetApiQueryDataBuilder::new(dataset_id, sql_query)
    }

    /// Starts a download of the rows of a dataset.
    pub fn get_data(self, dataset_id: &str) -> (builder: DatasetApiGetDataBuilder)
        ensures
            builder@ == (DataParams { dataset_id: dataset_id@, include_headers: false }),
    {
        DatasetApiGetDataBuilder::new(dataset_id)
    }

    /// Starts an upload of rows to a dataset.
    pub fn upload(self, dataset_id: &str) -> (builder: DatasetApiUploadBuilder)
        ensures
            builder@ == (UploadParams { dataset_id: dataset_id@, data: None }),
    {
        DatasetApiUploadBuilder::new(dataset_id)
    }
}

/// An upload of rows to a dataset.
#[derive(Clone, Debug, PartialEq, Eq)]
pub struct DatasetApiUploadBuilder {
    dataset_id: String,
    data: Option<String>,
}

/// The parameters of an upload: the id of the dataset, and the CSV text to
/// send once there is one.
pub struct UploadParams {
    pub dataset_id: Seq<char>,
    pub data: Option<Seq<char>>,
}

impl View for DatasetApiUploadBuilder {
    type V = UploadParams;

    closed spec fn view(&self) -> UploadParams {
        UploadParams { dataset_id: self.dataset_id@, data: self.data.deep_view() }
    }
}

impl UploadParams {
    /// What the upload sends: the request with the data, or the failure of
    /// an upload that has none.
    pub open spec fn step(self, token: Seq<char>) -> Result<HttpRequestView, DomoErrView> {
        match self.data {
            Some(data) => Ok(upload_request(self.dataset_id, token, data)),
            None => Err(DomoErrView::NoDataToUpload),
        }
    }
}

impl DatasetApiUploadBuilder {
    /// An upload to the given dataset, with no data yet.
    pub fn new(dataset_id: &str) -> (builder: Self)
        ensures
            builder@ == (UploadParams { dataset_id: dataset_id@, data: None }),
    {
        Self { dataset_id: String::from_str(dataset_id), data: None }
    }

    /// Sets the rows to send, already written as CSV text without a header
    /// row.
    pub fn data(&mut self, rows: String) -> (builder: &mut Self)
        ensures
            builder@ == (UploadParams { data: Some(rows@), ..old(self)@ }),
            *final(self) == *final(builder),
    {
        self.data = Some(rows);
        self
    }

    /// Sets the CSV text to send.
    pub fn csv_str(&mut self, csv: &str) -> (builder: &mut Self)
        ensures
            builder@ == (UploadParams { data: Some(csv@), ..old(self)@ }),
            *final(self) == *final(builder),
    {
        self.data = Some(String::from_str(csv));
        self
    }

    /// Describes the request that carries the upload out. An upload without
    /// data sends nothing and fails.
    pub fn execute(&self, token: &str) -> (result: Result<HttpRequest, DomoErr>)
        ensures
            match self@.step(token@) {
                Ok(request) => result matches Ok(r) && r@ == request,
                Err(e) => result matches Err(err) && err@ == e,
            },
    {
        let body = match &self.data {
            Some(data) => data.clone(),
            None => return Err(DomoErr::NoDataToUpload),
        };
        let mut headers = Vec::new();
        headers.push(bearer_header(token));
        headers.push((String::from_str("Content-Type"), String::from_str("text/csv")));
        let request = HttpRequest {
            method: Method::Put,
            url: dataset_url(self.dataset_id.as_str(), "/data"),
            basic_auth: None,
            headers,
            body: Some(body),
        };
        proof {
            assert(request@.headers =~= seq![bearer(token@), ("Content-Type"@, "text/csv"@)]);
        }
        Ok(request)
    }
}

/// A query on a dataset.
#[derive(Clone, Debug, PartialEq, Eq)]
pub struct DatasetApiQueryDataBuilder {
    dataset_id: String,
    sql_query: String,
}

/// The parameters of a query: the id of the dataset, and the query.
pub struct QueryParams {
    pub dataset_id: Seq<char>,
    pub sql_query: Seq<char>,
}

impl View for DatasetApiQueryDataBuilder {
    type V = QueryParams;

    closed spec fn view(&self) -> QueryParams {
        QueryParams { dataset_id: self.dataset_id@, sql_query: self.sql_query@ }
    }
}

impl DatasetApiQueryDataBuilder {
    /// The given query on the given dataset.
    pub fn new(dataset_id: &str, sql_query: &str) -> (builder: Self)
        ensures
            builder@ == (QueryParams { dataset_id: dataset_id@, sql_query: sql_query@ }),
    {
        Self { dataset_id: String::from_str(dataset_id), sql_query: String::from_str(sql_query) }
    }

    /// Describes the request that runs the query.
    pub fn execute(&self, token: &str) -> (request: HttpRequest)
        ensures
            request@ == query_request(self@.dataset_id, token@, self@.sql_query),
    {
        let mut url = String::from_str("https://api.domo.com/v1/datasets");
        url.append("/query/execute/");
        url.append(self.dataset_id.as_str());
        let literal = json_string(self.sql_query.as_str());
        let body = sql_body(literal.as_str());
        let mut headers = Vec::new();
        headers.push(bearer_header(token));
        headers.push((String::from_str("Content-Type"), String::from_str("application/json")));
        let request = HttpRequest {
            method: Method::Post,
            url,
            basic_auth: None,
            headers,
            body: Some(body),
        };
        proof {
            assert(request@.headers =~= seq![
                bearer(token@),
                ("Content-Type"@, "application/json"@),
            ]);
        }
        request
    }
}

/// A download of the rows of a dataset.
#[derive(Clone, Debug, PartialEq, Eq)]
pub struct DatasetApiGetDataBuilder {
    dataset_id: String,
    include_headers: bool,
}

/// The parameters of a download: the id of the dataset, and whether the
/// header row is asked for.
pub struct DataParams {
    pub dataset_id: Seq<char>,
    pub include_headers: bool,
}

impl View for DatasetApiGetDataBuilder {
    type V = DataParams;

    closed spec fn view(&self) -> DataParams {
        DataParams { dataset_id: self.dataset_id@, include_headers: self.include_headers }
    }
}

impl DatasetApiGetDataBuilder {
    /// A download from the given dataset, without the header row.
    pub fn new(dataset_id: &str) -> (builder: Self)
        ensures
            builder@ == (DataParams { dataset_id: dataset_id@, include_headers: false }),
    {
        Self { dataset_id: String::from_str(dataset_id), include_headers: false }
    }

    /// Asks for the header row too.
    pub fn with_csv_headers(&mut self) -> (builder: &mut Self)
        ensures
            builder@ == (DataParams { include_headers: true, ..old(self)@ }),
            *final(self) == *final(builder),
    {
        self.include_headers = true;
        self
    }

    /// Describes the request that fetches the rows.
    pub fn execute(&self, token: &str) -> (request: HttpRequest)
        ensures
            request@ == data_request(self@.dataset_id, token@, self@.include_headers),
    {
        let mut url = dataset_url(self.dataset_id.as_str(), "/data?includeHeader=");
        if self.include_headers {
            url.append("true");
        } else {
            url.append("false");
        }
        let mut headers = Vec::new();
        headers.push(bearer_header(token));
        let request = HttpRequest { method: Method::Get, url, basic_auth: None, headers, body: None };
        proof {
            assert(request@.headers =~= seq![bearer(token@)]);
        }
        request
    }
}

/// A listing of datasets.
#[derive(Clone, Debug, PartialEq, Eq)]
pub struct DatasetApiListBuilder {
    limit: Option<usize>,
    offset: Option<usize>,
    sort: Option<String>,
}

impl View for DatasetApiListBuilder {
    type V = ListParams;

    closed spec fn view(&self) -> ListParams {
        ListParams { limit: self.limit, offset: self.offset, sort: self.sort.deep_view() }
    }
}

impl DatasetApiListBuilder {
    /// A listing of the first fifty datasets by name.
    pub fn new() -> (builder: Self)
        ensures
            builder@ == ListParams::initial(),
    {
        Self { limit: Some(50), offset: None, sort: Some(String::from_str("name")) }
    }

    /// Sets how many datasets to list, and nothing else.
    pub fn limit(&mut self, limit: usize) -> (builder: &mut Self)
        ensures
            builder@ == (ListParams { limit: Some(limit), ..old(self)@ }),
            *final(self) == *final(builder),
    {
        self.limit = Some(limit);
        self
    }

    /// Sets how many datasets to pass over, and nothing else.
    pub fn offset(&mut self, offset: usize) -> (builder: &mut Self)
        ensures
            builder@ == (ListParams { offset: Some(offset), ..old(self)@ }),
            *final(self) == *final(builder),
    {
        self.offset = Some(offset);
        self
    }

    /// Sets the field to order by, and nothing else.
    pub fn sort(&mut self, sort: &str) -> (builder: &mut Self)
        ensures
            builder@ == (ListParams { sort: Some(sort@), ..old(self)@ }),
            *final(self) == *final(builder),
    {
        self.sort = Some(String::from_str(sort));
        self
    }

    /// Describes the request that fetches the listing.
    pub fn execute(&self, token: &str) -> (request: HttpRequest)
        ensures
            request@ == list_request(self@, token@),
    {
        let mut query = String::new();
        let ghost no_pair = Seq::<Seq<char>>::empty();
        let ghost to_limit = no_pair + selected(
            self@.limit is Some,
            "limit="@ + decimal_text(self@.limit->0 as nat),
        );
        let ghost to_offset = to_limit + selected(
            self@.offset is Some,
            "offset="@ + decimal_text(self@.offset->0 as nat),
        );
        let ghost to_sort = to_offset + selected(self@.sort is Some, "sort="@ + query_encoded(self@.sort->0));
        proof {
            reveal_strlit("limit=");
            reveal_strlit("offset=");
            reveal_strlit("sort=");
        }
        let mut limit = String::from_str("limit=");
        if let Some(n) = self.limit {
            limit.append(decimal(n).as_str());
        }
        join_if(&mut query, self.limit.is_some(), limit.as_str(), "&", Ghost(no_pair));
        let mut offset = String::from_str("offset=");
        if let Some(n) = self.offset {
            offset.append(decimal(n).as_str());
        }
        join_if(&mut query, self.offset.is_some(), offset.as_str(), "&", Ghost(to_limit));
        let mut sort = String::from_str("sort=");
        if let Some(field) = &self.sort {
            sort.append(query_encode(field.as_str()).as_str());
        }
        join_if(&mut query, self.sort.is_some(), sort.as_str(), "&", Ghost(to_offset));
        let mut url = String::from_str("https://api.domo.com/v1/datasets");
        url.append("?");
        url.append(query.as_str());
        let mut headers = Vec::new();
        headers.push(bearer_header(token));
        let request = HttpRequest { method: Method::Get, url, basic_auth: None, headers, body: None };
        proof {
            assert(to_limit =~= selected(
                self@.limit is Some,
                "limit="@ + decimal_text(self@.limit->0 as nat),
            ));
            assert(to_sort == self@.pairs());
            assert(request@.headers =~= seq![bearer(token@)]);
        }
        request
    }
}

/// An upload sends the very text that it was given last, as the body of a
/// PUT to the data of its dataset.
pub proof fn lemma_upload_sends_csv(upload: UploadParams, csv: Seq<char>, token: Seq<char>)
    ensures
        (UploadParams { data: Some(csv), ..upload }).step(token) == Ok::<
            HttpRequestView,
            DomoErrView,
        >(upload_request(upload.dataset_id, token, csv)),
        upload_request(upload.dataset_id, token, csv).body == Some(csv),
{
}

/// An upload that was given no data fails, whatever the token, and sends
/// nothing.
pub proof fn lemma_upload_needs_data(upload: UploadParams, token: Seq<char>)
    requires
        upload.data is None,
    ensures
        upload.step(token) == Err::<HttpRequestView, DomoErrView>(DomoErrView::NoDataToUpload),
{
}

} // verus!
