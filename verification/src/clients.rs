//! The client of the remote service: which call is to be issued for each of
//! its operations, and what a response means.
//!
//! Sending a request and receiving its response are left to the caller. This
//! module says what is sent, as a [`Request`], and reads what came back.

use vstd::prelude::*;
use crate::address::{
    address,
    is_not_a_base,
    extended,
    has_room,
    joined,
    with_segments,
    PathError,
};
use crate::decode::Decode;
use crate::json::{document, error_text, parse, parsed};
use crate::text::{appended, texts, unsigned_text, decimal};

verus! {

/// What a call to the remote service gives: an answer or an error.
pub type ClientResult<T> = Result<T, ClientError>;

/// A list of names with their values: the headers of a request, or the
/// parameters of its query. Header names are written in lower case.
pub type Pairs = Vec<(String, String)>;

/// The names and values of a list of pairs.
pub open spec fn pairs(list: Seq<(String, String)>) -> Seq<(Seq<char>, Seq<char>)> {
    list.map_values(|pair: (String, String)| (pair.0@, pair.1@))
}

/// The names and values of a list of pairs that may be absent.
pub open spec fn optional_pairs(list: Option<Pairs>) -> Option<Seq<(Seq<char>, Seq<char>)>> {
    match list {
        Some(list) => Some(pairs(list@)),
        None => None,
    }
}

/// Why a body could not be read.
#[derive(Debug)]
pub enum ReadError {
    /// The body is no JSON document.
    Syntax(serde_json::Error),
    /// The body is a JSON document of another shape than was asked for.
    Data,
}

/// What can go wrong with a call to the remote service.
#[derive(Debug)]
pub enum ClientError {
    /// The address of the call could not be built.
    InvalidPath(PathError),
    /// The remote service could not be reached; the text says why.
    ServerError(String),
    /// The remote service answered with a body that could not be read. The
    /// second field is the body as it came.
    InvalidResponse(ReadError, String),
    /// The remote service failed: a status from 500 to 599, with the body.
    TiledInternal(u16, String),
    /// The remote service refused the request: a status from 400 to 499,
    /// with the body.
    TiledRequest(u16, String),
}

/// A text between two others.
pub open spec fn framed(before: Seq<char>, detail: Seq<char>, after: Seq<char>) -> Seq<char> {
    before + detail + after
}

/// The message of an error that holds a status and a body.
pub open spec fn status_message(label: Seq<char>, status: u16, body: Seq<char>) -> Seq<char> {
    label + decimal(status as int) + " - "@ + body
}

impl ReadError {
    /// Whether the body was a document of another shape than was asked for.
    pub fn is_data(&self) -> (r: bool)
        ensures
            r == (self is Data),
    {
        match self {
            ReadError::Data => true,
            ReadError::Syntax(_) => false,
        }
    }

    /// Whether the body was no JSON document.
    pub fn is_syntax(&self) -> (r: bool)
        ensures
            r == (self is Syntax),
    {
        match self {
            ReadError::Data => false,
            ReadError::Syntax(_) => true,
        }
    }

    /// What the error says, for people to read. Of a body that is no
    /// document it is what the reader of JSON said.
    pub fn message(&self) -> (r: String)
        ensures
            self is Data ==> r@ == "the document has another shape than was asked for"@,
    {
        match self {
            ReadError::Syntax(error) => error_text(error),
            ReadError::Data => "the document has another shape than was asked for".to_owned(),
        }
    }
}

impl ClientError {
    /// What the error says, for people to read: the kind of the error, then
    /// what it holds. A status and a body are given as they came.
    pub fn message(&self) -> (r: String)
        ensures
            match self {
                ClientError::InvalidPath(_) => exists|detail: Seq<char>|
                    r@ == #[trigger] framed("Invalid URL path: "@, detail, Seq::empty()),
                ClientError::ServerError(cause) => r@ == "Tiled server error: "@ + cause@,
                ClientError::TiledInternal(status, body) => r@ == status_message(
                    "Internal tiled error: "@,
                    *status,
                    body@,
                ),
                ClientError::TiledRequest(status, body) => r@ == status_message(
                    "Request Error: "@,
                    *status,
                    body@,
                ),
                ClientError::InvalidResponse(_, body) => exists|detail: Seq<char>|
                    r@ == #[trigger] framed("Invalid response: "@, detail, ", response: "@ + body@),
            },
    {
        match self {
            ClientError::InvalidPath(error) => {
                let detail = error.message();
                let out = appended("Invalid URL path: ", detail.as_str());
                assert(out@ =~= framed("Invalid URL path: "@, detail@, Seq::empty()));
                out
            },
            ClientError::ServerError(cause) => appended("Tiled server error: ", cause.as_str()),
            ClientError::TiledInternal(status, body) => {
                let mut out = appended(
                    "Internal tiled error: ",
                    unsigned_text(*status as u64).as_str(),
                );
                out.append(" - ");
                out.append(body.as_str());
                out
            },
            ClientError::TiledRequest(status, body) => {
                let mut out = appended("Request Error: ", unsigned_text(*status as u64).as_str());
                out.append(" - ");
                out.append(body.as_str());
                out
            },
            ClientError::InvalidResponse(error, body) => {
                let detail = error.message();
                let mut out = appended("Invalid response: ", detail.as_str());
                out.append(", response: ");
                out.append(body.as_str());
                assert(out@ =~= framed(
                    "Invalid response: "@,
                    detail@,
                    ", response: "@ + body@,
                ));
                out
            },
        }
    }
}

/// A call to the remote service that is yet to be issued: an HTTP GET of an
/// address, with headers and query parameters where there are any.
#[derive(Debug)]
pub struct Request {
    pub url: url::Url,
    pub headers: Option<Pairs>,
    pub query: Option<Pairs>,
}

/// What a request says, as texts.
pub struct RequestView {
    pub url: Seq<char>,
    pub headers: Option<Seq<(Seq<char>, Seq<char>)>>,
    pub query: Option<Seq<(Seq<char>, Seq<char>)>>,
}

impl View for Request {
    type V = RequestView;

    open spec fn view(&self) -> RequestView {
        RequestView {
            url: address(self.url),
            headers: optional_pairs(self.headers),
            query: optional_pairs(self.query),
        }
    }
}

/// What the status of a response says of it.
#[derive(Debug, Clone, Copy, PartialEq, Eq, Structural)]
pub enum Status {
    /// 400 to 499: the request was refused.
    Refused,
    /// 500 to 599: the remote service failed.
    Failed,
    /// Any other status: the body is the answer.
    Answered,
}

/// What a status says of its response.
pub open spec fn status_of(status: u16) -> Status {
    if 400 <= status < 500 {
        Status::Refused
    } else if 500 <= status < 600 {
        Status::Failed
    } else {
        Status::Answered
    }
}

/// Classifies a response by its status alone.
pub fn classify(status: u16) -> (r: Status)
    ensures
        r == status_of(status),
{
    if 400 <= status && status < 500 {
        Status::Refused
    } else if 500 <= status && status < 600 {
        Status::Failed
    } else {
        Status::Answered
    }
}

/// Reads an answer of which the JSON document, or the error of reading it,
/// is given. A document of the wrong shape and a body that is no document
/// both give `InvalidResponse`, which keeps the body as it came.
pub fn read_answer<T: Decode>(
    body: String,
    outcome: Result<serde_json::Value, serde_json::Error>,
) -> (r: ClientResult<T>)
    ensures
        match outcome {
            Ok(value) => if T::fits(document(value)) {
                r matches Ok(read) && read.reflects(document(value))
            } else {
                r matches Err(ClientError::InvalidResponse(ReadError::Data, kept)) && kept == body
            },
            Err(error) => r matches Err(
                ClientError::InvalidResponse(ReadError::Syntax(cause), kept),
            ) && cause == error && kept == body,
        },
{
    match outcome {
        Ok(value) => match T::decode(&value) {
            Some(read) => Ok(read),
            None => Err(ClientError::InvalidResponse(ReadError::Data, body)),
        },
        Err(error) => Err(ClientError::InvalidResponse(ReadError::Syntax(error), body)),
    }
}

/// What a response means. The status decides first: a refused request and a
/// failed service give their own errors, with status and body, whatever the
/// body holds. Only then is the body read.
pub fn interpret<T: Decode>(status: u16, body: String) -> (r: ClientResult<T>)
    ensures
        match status_of(status) {
            Status::Refused => r matches Err(ClientError::TiledRequest(code, kept)) && code
                == status && kept == body,
            Status::Failed => r matches Err(ClientError::TiledInternal(code, kept)) && code
                == status && kept == body,
            Status::Answered => match parsed(body@) {
                Some(doc) => if T::fits(doc) {
                    r matches Ok(read) && read.reflects(doc)
                } else {
                    r matches Err(ClientError::InvalidResponse(ReadError::Data, kept)) && kept
                        == body
                },
                None => r matches Err(ClientError::InvalidResponse(ReadError::Syntax(_), kept))
                    && kept == body,
            },
        },
{
    match classify(status) {
        Status::Refused => Err(ClientError::TiledRequest(status, body)),
        Status::Failed => Err(ClientError::TiledInternal(status, body)),
        Status::Answered => {
            let outcome = parse(body.as_str());
            read_answer(body, outcome)
        },
    }
}

/// A list of pairs without those of one name.
pub open spec fn without(list: Seq<(Seq<char>, Seq<char>)>, name: Seq<char>) -> Seq<
    (Seq<char>, Seq<char>),
>
    decreases list.len(),
{
    if list.len() == 0 {
        list
    } else if list.last().0 == name {
        without(list.drop_last(), name)
    } else {
        without(list.drop_last(), name).push(list.last())
    }
}

/// A list of pairs in which one name has one value: what it had before is
/// gone, and the new pair stands last.
pub open spec fn replaced(list: Seq<(Seq<char>, Seq<char>)>, name: Seq<char>, value: Seq<char>) -> Seq<
    (Seq<char>, Seq<char>),
> {
    without(list, name).push((name, value))
}

/// Gives a name one value in a list of pairs, in place of any it had.
pub fn insert(list: Pairs, name: &str, value: &str) -> (r: Pairs)
    ensures
        pairs(r@) == replaced(pairs(list@), name@, value@),
{
    let ghost all = list@;
    let mut out: Pairs = Vec::new();
    for pair in it: list
        invariant
            it.seq() == all,
            pairs(out@) == without(pairs(all.take(it.index() as int)), name@),
    {
        proof {
            let i = it.index() as int;
            assert(pairs(all.take(i + 1)).drop_last() =~= pairs(all.take(i)));
        }
        if !crate::text::same_text(pair.0.as_str(), name) {
            out.push(pair);
        }
    }
    proof {
        assert(all.take(all.len() as int) =~= all);
    }
    out.push((name.to_owned(), value.to_owned()));
    out
}

/// A copy of a list of pairs that may be absent.
pub fn copied(list: &Option<Pairs>) -> (r: Option<Pairs>)
    ensures
        optional_pairs(r) == optional_pairs(*list),
{
    match list {
        None => None,
        Some(list) => {
            let mut out: Pairs = Vec::new();
            let mut i: usize = 0;
            while i < list.len()
                invariant
                    i <= list.len(),
                    out@.len() == i,
                    forall|k: int|
                        0 <= k < i ==> (#[trigger] out@[k]).0@ == list@[k].0@ && out@[k].1@
                            == list@[k].1@,
                decreases list.len() - i,
            {
                out.push((list[i].0.clone(), list[i].1.clone()));
                i += 1;
            }
            Some(out)
        },
    }
}

/// The query that asks for the given columns of a table: the parameter
/// `column` once for each, in their order.
pub open spec fn column_query(columns: Seq<Seq<char>>) -> Seq<(Seq<char>, Seq<char>)> {
    columns.map_values(|column: Seq<char>| ("column"@, column))
}

/// Builds the query that asks for the given columns of a table.
pub fn columns_query(columns: Vec<String>) -> (r: Pairs)
    ensures
        pairs(r@) == column_query(texts(columns@)),
{
    let ghost all = columns@;
    let mut out: Pairs = Vec::new();
    for column in it: columns
        invariant
            it.seq() == all,
            out@.len() == it.index(),
            forall|k: int|
                0 <= k < out@.len() ==> (#[trigger] out@[k]).0@ == "column"@ && out@[k].1@
                    == all[k]@,
    {
        out.push(("column".to_owned(), column));
    }
    out
}

/// The client of one remote service, whose address is fixed when the client
/// is made and can serve as a base.
#[derive(Debug)]
pub struct TiledClient {
    address: url::Url,
}

/// The endpoint of the service's own description.
pub open spec fn app_metadata_endpoint() -> Seq<char> {
    "/api/v1/"@
}

/// The endpoint that searches the tree at a path.
pub open spec fn search_endpoint(path: Seq<char>) -> Seq<char> {
    "api/v1/search/"@ + path
}

/// The endpoint that describes the node of an id.
pub open spec fn metadata_endpoint(id: Seq<char>) -> Seq<char> {
    "api/v1/metadata/"@ + id
}

/// The endpoint that gives the whole table at a path.
pub open spec fn table_endpoint(path: Seq<char>) -> Seq<char> {
    "/api/v1/table/full/"@ + path
}

/// The endpoint that gives the bytes of an asset.
pub open spec fn asset_endpoint() -> Seq<char> {
    "/api/v1/asset/bytes"@
}

/// The pairs of a list that may be absent; none where it is.
pub open spec fn or_empty(list: Option<Seq<(Seq<char>, Seq<char>)>>) -> Seq<(Seq<char>, Seq<char>)> {
    match list {
        Some(list) => list,
        None => Seq::empty(),
    }
}

impl TiledClient {
    #[verifier::type_invariant]
    spec fn can_be_a_base(&self) -> bool {
        !is_not_a_base(address(self.address))
    }

    /// The text of the address of the remote service.
    pub closed spec fn base(&self) -> Seq<char> {
        address(self.address)
    }

    /// A client of the service at an address. An address that cannot be a
    /// base is no address of a service.
    pub fn new(address: url::Url) -> (r: Self)
        requires
            !is_not_a_base(crate::address::address(address)),
        ensures
            r.base() == crate::address::address(address),
    {
        TiledClient { address }
    }

    /// A client of the service at an address, where the address can be a
    /// base; none where it cannot.
    pub fn try_new(address: url::Url) -> (r: Option<Self>)
        ensures
            r is Some <==> !is_not_a_base(crate::address::address(address)),
            r matches Some(client) ==> client.base() == crate::address::address(address),
    {
        if address.cannot_be_a_base() {
            None
        } else {
            Some(TiledClient::new(address))
        }
    }

    /// The address of the remote service, which can be a base.
    pub fn address(&self) -> (r: &url::Url)
        ensures
            crate::address::address(*r) == self.base(),
            !is_not_a_base(self.base()),
    {
        proof {
            use_type_invariant(self);
        }
        &self.address
    }

    /// The call to an endpoint: its address is the endpoint resolved against
    /// the address of the service, and headers and query are as given.
    pub fn request(&self, endpoint: &str, headers: Option<Pairs>, query: Option<Pairs>) -> (r:
        ClientResult<Request>)
        ensures
            match joined(self.base(), endpoint@) {
                Some(url) => r matches Ok(request) && request@ == (RequestView {
                    url,
                    headers: optional_pairs(headers),
                    query: optional_pairs(query),
                }),
                None => r matches Err(ClientError::InvalidPath(PathError::Unresolved(_))),
            },
    {
        match self.address.join(endpoint) {
            Ok(url) => Ok(Request { url, headers, query }),
            Err(error) => Err(ClientError::InvalidPath(PathError::Unresolved(error))),
        }
    }

    /// The call that asks the service to describe itself.
    pub fn app_metadata(&self) -> (r: ClientResult<Request>)
        ensures
            match joined(self.base(), app_metadata_endpoint()) {
                Some(url) => r matches Ok(request) && request@ == (RequestView {
                    url,
                    headers: None,
                    query: None,
                }),
                None => r matches Err(ClientError::InvalidPath(PathError::Unresolved(_))),
            },
    {
        self.request("/api/v1/", None, None)
    }

    /// The call that searches the tree at a path.
    pub fn search(&self, path: &str, headers: Option<Pairs>, query: Pairs) -> (r: ClientResult<
        Request,
    >)
        ensures
            match joined(self.base(), search_endpoint(path@)) {
                Some(url) => r matches Ok(request) && request@ == (RequestView {
                    url,
                    headers: optional_pairs(headers),
                    query: Some(pairs(query@)),
                }),
                None => r matches Err(ClientError::InvalidPath(PathError::Unresolved(_))),
            },
    {
        let endpoint = appended("api/v1/search/", path);
        self.request(endpoint.as_str(), headers, Some(query))
    }

    /// The call that asks for the node of an id.
    pub fn metadata(&self, id: String, headers: Option<Pairs>) -> (r: ClientResult<Request>)
        ensures
            match joined(self.base(), metadata_endpoint(id@)) {
                Some(url) => r matches Ok(request) && request@ == (RequestView {
                    url,
                    headers: optional_pairs(headers),
                    query: None,
                }),
                None => r matches Err(ClientError::InvalidPath(PathError::Unresolved(_))),
            },
    {
        let endpoint = appended("api/v1/metadata/", id.as_str());
        self.request(endpoint.as_str(), headers, None)
    }

    /// The call that asks for the whole table at a path, or for some of its
    /// columns. It accepts JSON, whatever the given headers said of that, and
    /// names each column that is asked for in a parameter `column`.
    pub fn table_full(&self, path: &str, columns: Option<Vec<String>>, headers: Option<Pairs>) -> (r:
        ClientResult<Request>)
        ensures
            match joined(self.base(), table_endpoint(path@)) {
                Some(url) => r matches Ok(request) && request@ == (RequestView {
                    url,
                    headers: Some(
                        replaced(or_empty(optional_pairs(headers)), "accept"@, "application/json"@),
                    ),
                    query: match columns {
                        Some(columns) => Some(column_query(texts(columns@))),
                        None => None,
                    },
                }),
                None => r matches Err(ClientError::InvalidPath(PathError::Unresolved(_))),
            },
    {
        let given = match headers {
            Some(list) => list,
            None => {
                let list: Pairs = Vec::new();
                assert(pairs(list@) =~= Seq::empty());
                list
            },
        };
        let headers = insert(given, "accept", "application/json");
        let query = match columns {
            Some(columns) => Some(columns_query(columns)),
            None => None,
        };
        let endpoint = appended("/api/v1/table/full/", path);
        self.request(endpoint.as_str(), Some(headers), query)
    }

    /// The call that fetches the bytes of an asset: the endpoint of assets,
    /// then the run, the stream and the dataset as three path segments, and
    /// the asset's number as the parameter `id`.
    pub fn download(
        &self,
        run: String,
        stream: String,
        det: String,
        id: u32,
        headers: Option<Pairs>,
    ) -> (r: ClientResult<Request>)
        ensures
            match joined(self.base(), asset_endpoint()) {
                Some(endpoint) => {
                    let segments = seq![run@, stream@, det@];
                    if !has_room(endpoint, segments) {
                        r matches Err(ClientError::InvalidPath(PathError::TooLong))
                    } else if is_not_a_base(endpoint) {
                        r matches Err(ClientError::InvalidPath(PathError::CannotBeABase))
                    } else {
                        r matches Ok(request) && request@ == (RequestView {
                            url: extended(endpoint, segments),
                            headers: Some(or_empty(optional_pairs(headers))),
                            query: Some(seq![("id"@, decimal(id as int))]),
                        })
                    }
                },
                None => r matches Err(ClientError::InvalidPath(PathError::Unresolved(_))),
            },
    {
        let endpoint = match self.address.join("/api/v1/asset/bytes") {
            Ok(url) => url,
            Err(error) => {
                return Err(ClientError::InvalidPath(PathError::Unresolved(error)));
            },
        };
        let mut segments: Vec<String> = Vec::new();
        segments.push(run);
        segments.push(stream);
        segments.push(det);
        assert(texts(segments@) =~= seq![run@, stream@, det@]);
        let url = match with_segments(endpoint, &segments) {
            Ok(url) => url,
            Err(error) => {
                return Err(ClientError::InvalidPath(error));
            },
        };
        let given = match headers {
            Some(list) => list,
            None => {
                let list: Pairs = Vec::new();
                assert(pairs(list@) =~= Seq::empty());
                list
            },
        };
        let mut query: Pairs = Vec::new();
        query.push(("id".to_owned(), unsigned_text(id as u64)));
        assert(pairs(query@) =~= seq![("id"@, decimal(id as int))]);
        Ok(Request { url, headers: Some(given), query: Some(query) })
    }
}

} // verus!
