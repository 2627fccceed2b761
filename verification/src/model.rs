//! What clients of this service see: sessions, runs and their data, and how
//! they are resolved from the tree of the remote service.

pub mod app;
pub mod array;
pub mod container;
pub mod node;
pub mod table;

use vstd::prelude::*;
use crate::address::{address, extended, has_room, is_not_a_base, joined, with_segments, PathError, RootAddress};
use crate::clients::{
    optional_pairs,
    pairs,
    search_endpoint,
    table_endpoint,
    column_query,
    copied,
    replaced,
    or_empty,
    ClientError,
    ClientResult,
    Pairs,
    Request,
    RequestView,
    TiledClient,
};
use crate::handlers::{forwarded, headers_for, AuthHeader};
use crate::model::node::{nodes, Attributes, Data, NodeAttributes, Root};
use crate::text::{appended, decimal, path_to, signed_text, slash_joined, texts};

verus! {

/// The root of what clients may ask.
#[derive(Debug)]
pub struct TiledQuery;

/// The visit of an instrument during which runs were taken.
#[derive(Debug)]
pub struct InstrumentSession {
    pub name: String,
}

/// One execution of an experiment.
#[derive(Debug)]
pub struct Run {
    pub data: Data,
}

/// A dataset of a run, by the way it is stored.
#[derive(Debug)]
pub enum RunData {
    Array(ArrayData),
    Internal(TableData),
}

/// A dataset that is stored as an array. It knows the run and the stream it
/// belongs to by their ids, which lead to its assets.
#[derive(Debug)]
pub struct ArrayData {
    pub run: String,
    pub id: String,
    pub stream: String,
    pub attrs: Attributes<array::Members, array::ArrayStructure>,
}

/// A dataset that is stored as a table.
#[derive(Debug)]
pub struct TableData {
    pub id: String,
    pub attrs: Attributes<array::Members, table::TableStructure>,
}

/// An asset together with the dataset that it belongs to.
#[derive(Debug)]
pub struct Asset<'a> {
    pub asset: &'a node::Asset,
    pub data: &'a ArrayData,
}

/// The query that makes a search include the data sources of what it finds.
pub open spec fn with_sources() -> Seq<(Seq<char>, Seq<char>)> {
    seq![("include_data_sources"@, "true"@)]
}

/// The query that finds the runs of a session: those whose start document
/// names the session, with their data sources.
pub open spec fn session_filter(name: Seq<char>) -> Seq<(Seq<char>, Seq<char>)> {
    seq![
        ("filter[eq][condition][key]"@, "start.instrument_session"@),
        ("filter[eq][condition][value]"@, seq!['"'] + name + seq!['"']),
        ("include_data_sources"@, "true"@),
    ]
}

/// Builds the query that makes a search include data sources.
pub fn sources_query() -> (r: Pairs)
    ensures
        pairs(r@) == with_sources(),
{
    let mut query: Pairs = Vec::new();
    query.push(("include_data_sources".to_owned(), "true".to_owned()));
    query
}

/// Builds the query that finds the runs of a session.
pub fn session_query(name: &str) -> (r: Pairs)
    ensures
        pairs(r@) == session_filter(name@),
{
    let mut quoted = appended("\"", name);
    quoted.append("\"");
    proof {
        reveal_strlit("\"");
        assert(quoted@ =~= seq!['"'] + name@ + seq!['"']);
    }
    let mut query: Pairs = Vec::new();
    query.push(("filter[eq][condition][key]".to_owned(), "start.instrument_session".to_owned()));
    query.push(("filter[eq][condition][value]".to_owned(), quoted));
    query.push(("include_data_sources".to_owned(), "true".to_owned()));
    query
}

/// The runs that a collection of nodes stands for, one for each node.
pub open spec fn runs_of(found: Seq<Data>) -> Seq<Run> {
    found.map_values(|data: Data| Run { data })
}

impl TiledQuery {
    /// The call that asks the remote service to describe itself.
    pub fn app_metadata(&self, client: &TiledClient) -> (r: ClientResult<Request>)
        ensures
            match joined(client.base(), crate::clients::app_metadata_endpoint()) {
                Some(url) => r matches Ok(request) && request@ == (RequestView {
                    url,
                    headers: None,
                    query: None,
                }),
                None => r matches Err(ClientError::InvalidPath(PathError::Unresolved(_))),
            },
    {
        client.app_metadata()
    }

    pub fn instrument_session(&self, name: String) -> (r: InstrumentSession)
        ensures
            r.name == name,
    {
        InstrumentSession { name }
    }
}

impl InstrumentSession {
    pub fn name(&self) -> (r: &str)
        ensures
            r@ == self.name@,
    {
        self.name.as_str()
    }

    /// The call that finds the runs of this session: a search at the root
    /// of the tree, with the session's filter and the request's credential.
    pub fn runs(&self, client: &TiledClient, auth: &Option<AuthHeader>) -> (r: ClientResult<Request>)
        ensures
            match joined(client.base(), search_endpoint(Seq::empty())) {
                Some(url) => r matches Ok(request) && request@ == (RequestView {
                    url,
                    headers: forwarded(*auth),
                    query: Some(session_filter(self.name@)),
                }),
                None => r matches Err(ClientError::InvalidPath(PathError::Unresolved(_))),
            },
    {
        let headers = headers_for(auth);
        let query = session_query(self.name.as_str());
        proof {
            reveal_strlit("");
        }
        client.search("", headers, query)
    }

    /// The runs that the search found: one for each node of the collection,
    /// in their order. Entries that are no nodes are dropped.
    pub fn found(root: Root) -> (r: Vec<Run>)
        ensures
            r@ == runs_of(nodes(root.data@)),
    {
        let found = root.into_data();
        let ghost all = found@;
        let mut runs: Vec<Run> = Vec::new();
        for data in it: found
            invariant
                it.seq() == all,
                runs@ == runs_of(all.take(it.index() as int)),
        {
            runs.push(Run { data });
        }
        runs
    }
}

/// What a node under a stream is to the clients: an array or a table with
/// what is needed to reach it later, and nothing for a container, which
/// groups other nodes and holds no data of its own.
pub open spec fn dataset(run: String, stream: String, found: Data) -> Option<RunData> {
    match *found.attributes {
        NodeAttributes::Array(attrs) => Some(
            RunData::Array(ArrayData { run, id: found.id, stream, attrs }),
        ),
        NodeAttributes::Table(attrs) => Some(RunData::Internal(TableData { id: found.id, attrs })),
        NodeAttributes::Container(_) => None,
    }
}

/// The datasets among the nodes under a stream, in the order of the nodes.
pub open spec fn datasets(run: String, stream: String, found: Seq<Data>) -> Seq<RunData> {
    found.filter_map(|node: Data| dataset(run, stream, node))
}

/// Classifies the nodes found under a stream and appends the datasets among
/// them to those that were collected before.
pub fn collect(run: &String, stream: &String, found: Vec<Data>, sources: &mut Vec<RunData>)
    ensures
        final(sources)@ == old(sources)@ + datasets(*run, *stream, found@),
{
    let ghost all = found@;
    let ghost before = sources@;
    for node in it: found
        invariant
            it.seq() == all,
            sources@ == before + datasets(*run, *stream, all.take(it.index() as int)),
    {
        proof {
            all.lemma_filter_map_take_succ(
                |node: Data| dataset(*run, *stream, node),
                it.index() as int,
            );
        }
        let Data { id, attributes, links: _, meta: _ } = node;
        match *attributes {
            NodeAttributes::Array(attrs) => {
                sources.push(
                    RunData::Array(ArrayData { run: run.clone(), id, stream: stream.clone(), attrs }),
                );
            },
            NodeAttributes::Table(attrs) => {
                sources.push(RunData::Internal(TableData { id, attrs }));
            },
            NodeAttributes::Container(_) => {},
        }
    }
    proof {
        assert(all.take(all.len() as int) =~= all);
    }
}

/// What the resolution of a run's data waits for. Resolving alternates
/// calls to the remote service with decisions on what came back: the caller
/// issues each call and hands its outcome to [`Resolution::advance`].
#[derive(Debug)]
pub enum Resolution {
    /// The streams of the run were asked for.
    Streams { run: String, headers: Option<Pairs> },
    /// The datasets of the stream `streams[at]` were asked for; `sources`
    /// holds the datasets of the streams before it.
    Datasets {
        run: String,
        headers: Option<Pairs>,
        streams: Vec<Data>,
        at: usize,
        sources: Vec<RunData>,
    },
}

/// What the caller is to do next.
#[derive(Debug)]
pub enum Step {
    /// Issue this call and hand its outcome to the resolution.
    Fetch(Request, Resolution),
    /// The data of the run, complete.
    Done(Vec<RunData>),
    /// The resolution failed, and nothing of it is left.
    Failed(ClientError),
}

/// The path of a stream in the tree: the run, `/`, the stream.
pub open spec fn stream_path(run: Seq<char>, stream: Seq<char>) -> Seq<char> {
    run + seq!['/'] + stream
}

/// The step that follows when the streams before `at` are done and `sources`
/// holds their datasets: the search for the datasets of the stream at `at`,
/// with the credential of the request, or the end when no stream is left.
pub open spec fn proceeds(
    base: Seq<char>,
    run: String,
    headers: Option<Seq<(Seq<char>, Seq<char>)>>,
    streams: Seq<Data>,
    at: int,
    sources: Seq<RunData>,
    step: Step,
) -> bool {
    if 0 <= at < streams.len() {
        match joined(base, search_endpoint(stream_path(run@, streams[at].id@))) {
            Some(url) => {
                &&& step matches Step::Fetch(request, Resolution::Datasets {
                    run: next_run,
                    headers: next_headers,
                    streams: next_streams,
                    at: next_at,
                    sources: next_sources,
                })
                &&& request@ == (RequestView { url, headers, query: Some(with_sources()) })
                &&& next_run == run
                &&& optional_pairs(next_headers) == headers
                &&& next_streams@ == streams
                &&& next_at == at
                &&& next_sources@ == sources
            },
            None => step matches Step::Failed(ClientError::InvalidPath(PathError::Unresolved(_))),
        }
    } else {
        step matches Step::Done(all) && all@ == sources
    }
}

/// Decides the step that follows when the streams before `at` are done.
fn proceed(
    client: &TiledClient,
    run: String,
    headers: Option<Pairs>,
    streams: Vec<Data>,
    at: usize,
    sources: Vec<RunData>,
) -> (step: Step)
    ensures
        proceeds(client.base(), run, optional_pairs(headers), streams@, at as int, sources@, step),
{
    if at < streams.len() {
        let mut path = appended(run.as_str(), "/");
        path.append(streams[at].id.as_str());
        proof {
            reveal_strlit("/");
            assert(path@ =~= stream_path(run@, streams@[at as int].id@));
        }
        match client.search(path.as_str(), copied(&headers), sources_query()) {
            Ok(request) => Step::Fetch(
                request,
                Resolution::Datasets { run, headers, streams, at, sources },
            ),
            Err(error) => Step::Failed(error),
        }
    } else {
        Step::Done(sources)
    }
}

impl Run {
    /// The scan number of the run, from its start document.
    pub fn scan_number(&self) -> (r: Option<i64>)
        ensures
            match *self.data.attributes {
                NodeAttributes::Container(attrs) => match attrs.metadata.start_doc_of() {
                    Some(start) => crate::decode::fits_required::<i64>(start, "scan_id"@)
                        && start.member("scan_id"@).unwrap().signed() == r,
                    None => r is None,
                },
                _ => r is None,
            },
    {
        match &*self.data.attributes {
            NodeAttributes::Container(attrs) => match attrs.metadata.start_doc() {
                Some(start) => Some(start.scan_id),
                None => None,
            },
            _ => None,
        }
    }

    pub fn id(&self) -> (r: &str)
        ensures
            r@ == self.data.id@,
    {
        self.data.id.as_str()
    }

    /// Begins to resolve the data of the run: the first step is the search
    /// for its streams, with the credential of the request.
    pub fn data(&self, client: &TiledClient, auth: &Option<AuthHeader>) -> (step: Step)
        ensures
            match joined(client.base(), search_endpoint(self.data.id@)) {
                Some(url) => {
                    &&& step matches Step::Fetch(request, Resolution::Streams { run, headers })
                    &&& request@ == (RequestView {
                        url,
                        headers: forwarded(*auth),
                        query: Some(with_sources()),
                    })
                    &&& run == self.data.id
                    &&& optional_pairs(headers) == forwarded(*auth)
                },
                None => step matches Step::Failed(
                    ClientError::InvalidPath(PathError::Unresolved(_)),
                ),
            },
    {
        let headers = headers_for(auth);
        match client.search(self.data.id.as_str(), copied(&headers), sources_query()) {
            Ok(request) => Step::Fetch(
                request,
                Resolution::Streams { run: self.data.id.clone(), headers },
            ),
            Err(error) => Step::Failed(error),
        }
    }
}

impl Resolution {
    /// Takes the outcome of the call that was asked for and decides the next
    /// step. A failed call ends the resolution with its error. The nodes of
    /// the run are its streams, which are searched one after the other; the
    /// nodes of a stream are classified and their datasets appended to those
    /// of the streams before it.
    pub fn advance(self, client: &TiledClient, outcome: ClientResult<Root>) -> (step: Step)
        ensures
            match outcome {
                Err(error) => step matches Step::Failed(cause) && cause == error,
                Ok(root) => match self {
                    Resolution::Streams { run, headers } => proceeds(
                        client.base(),
                        run,
                        optional_pairs(headers),
                        nodes(root.data@),
                        0,
                        Seq::empty(),
                        step,
                    ),
                    Resolution::Datasets { run, headers, streams, at, sources } => if at
                        < streams@.len() {
                        proceeds(
                            client.base(),
                            run,
                            optional_pairs(headers),
                            streams@,
                            at + 1,
                            sources@ + datasets(run, streams@[at as int].id, nodes(root.data@)),
                            step,
                        )
                    } else {
                        step matches Step::Done(all) && all@ == sources@
                    },
                },
            },
    {
        let root = match outcome {
            Ok(root) => root,
            Err(error) => {
                return Step::Failed(error);
            },
        };
        match self {
            Resolution::Streams { run, headers } => {
                let streams = root.into_data();
                proceed(client, run, headers, streams, 0, Vec::new())
            },
            Resolution::Datasets { run, headers, streams, at, sources } => {
                if at < streams.len() {
                    let mut sources = sources;
                    let stream = streams[at].id.clone();
                    collect(&run, &stream, root.into_data(), &mut sources);
                    proceed(client, run, headers, streams, at + 1, sources)
                } else {
                    Step::Done(sources)
                }
            },
        }
    }
}

/// The assets of a list of data sources: those of the first source in their
/// order, then those of the second, and so on.
pub open spec fn assets_of<S>(sources: Seq<node::DataSource<S>>) -> Seq<node::Asset>
    decreases sources.len(),
{
    if sources.len() == 0 {
        Seq::empty()
    } else {
        assets_of(sources.drop_last()) + sources.last().assets@
    }
}

/// The assets of the data sources of a dataset; none where it has no data
/// sources.
pub open spec fn files_of<S>(sources: Option<Vec<node::DataSource<S>>>) -> Seq<node::Asset> {
    match sources {
        Some(sources) => assets_of(sources@),
        None => Seq::empty(),
    }
}

/// The path segments that the address of a download adds to the address of
/// this service: `asset`, the run, the stream, the dataset and the number of
/// the asset.
pub open spec fn download_segments(
    run: Seq<char>,
    stream: Seq<char>,
    dataset: Seq<char>,
    id: i64,
) -> Seq<Seq<char>> {
    seq!["asset"@, run, stream, dataset, decimal(id as int)]
}

impl ArrayData {
    pub fn name(&self) -> (r: &str)
        ensures
            r@ == self.id@,
    {
        self.id.as_str()
    }

    /// The assets of all data sources of the dataset, in the order in which
    /// the sources hold them, each with the dataset it belongs to.
    pub fn files<'ad>(&'ad self) -> (r: Vec<Asset<'ad>>)
        ensures
            r@.len() == files_of(self.attrs.data_sources).len(),
            forall|i: int|
                0 <= i < r@.len() ==> *(#[trigger] r@[i]).asset == files_of(
                    self.attrs.data_sources,
                )[i] && *r@[i].data == *self,
    {
        let mut out: Vec<Asset<'ad>> = Vec::new();
        match &self.attrs.data_sources {
            None => {},
            Some(sources) => {
                let mut i: usize = 0;
                while i < sources.len()
                    invariant
                        i <= sources.len(),
                        out@.len() == assets_of(sources@.take(i as int)).len(),
                        forall|k: int|
                            0 <= k < out@.len() ==> *(#[trigger] out@[k]).asset == assets_of(
                                sources@.take(i as int),
                            )[k] && *out@[k].data == *self,
                    decreases sources.len() - i,
                {
                    let assets = &sources[i].assets;
                    let ghost before = assets_of(sources@.take(i as int));
                    proof {
                        assert(sources@.take(i + 1).drop_last() =~= sources@.take(i as int));
                    }
                    let mut j: usize = 0;
                    while j < assets.len()
                        invariant
                            j <= assets.len(),
                            out@.len() == before.len() + j,
                            forall|k: int|
                                0 <= k < before.len() ==> *(#[trigger] out@[k]).asset == before[k]
                                    && *out@[k].data == *self,
                            forall|k: int|
                                before.len() <= k < out@.len() ==> *(#[trigger] out@[k]).asset
                                    == assets@[k - before.len()] && *out@[k].data == *self,
                        decreases assets.len() - j,
                    {
                        out.push(Asset { asset: &assets[j], data: self });
                        j += 1;
                    }
                    i += 1;
                }
                proof {
                    assert(sources@.take(i as int) =~= sources@);
                }
            },
        }
        out
    }
}

impl<'a> Asset<'a> {
    /// Where the asset is stored.
    pub fn file(&self) -> (r: &str)
        ensures
            r@ == self.asset.data_uri@,
    {
        self.asset.data_uri.as_str()
    }

    /// The address from which clients download the asset: the address of
    /// this service with the segments of the download appended. An asset
    /// without a number has none; nor is there one where the address of this
    /// service cannot take segments.
    pub fn download(&self, root: &RootAddress) -> (r: Option<String>)
        ensures
            match self.asset.id {
                None => r is None,
                Some(id) => {
                    let segments = download_segments(
                        self.data.run@,
                        self.data.stream@,
                        self.data.id@,
                        id,
                    );
                    if has_room(address(root.0), segments) && !is_not_a_base(address(root.0)) {
                        r matches Some(text) && text@ == extended(address(root.0), segments)
                    } else {
                        r is None
                    }
                },
            },
    {
        let id = match self.asset.id {
            Some(id) => id,
            None => {
                return None;
            },
        };
        let mut segments: Vec<String> = Vec::new();
        segments.push("asset".to_owned());
        segments.push(self.data.run.clone());
        segments.push(self.data.stream.clone());
        segments.push(self.data.id.clone());
        segments.push(signed_text(id));
        assert(texts(segments@) =~= download_segments(
            self.data.run@,
            self.data.stream@,
            self.data.id@,
            id,
        ));
        match with_segments(root.0.clone(), &segments) {
            Ok(url) => Some(url.as_str().to_owned()),
            Err(_) => None,
        }
    }
}

/// The path of a node in the tree: its ancestors from the root down, then
/// its own id, separated by `/`.
pub open spec fn node_path(ancestors: Seq<String>, id: Seq<char>) -> Seq<char> {
    slash_joined(texts(ancestors).push(id))
}

impl TableData {
    pub fn name(&self) -> (r: &str)
        ensures
            r@ == self.id@,
    {
        self.id.as_str()
    }

    pub fn columns(&self) -> (r: &Vec<String>)
        ensures
            *r == self.attrs.structure.columns,
    {
        &self.attrs.structure.columns
    }

    /// The call that fetches the data of the table, or of some of its
    /// columns: the whole table at the path of its node, with the credential
    /// of the request.
    pub fn data(
        &self,
        client: &TiledClient,
        auth: &Option<AuthHeader>,
        columns: Option<Vec<String>>,
    ) -> (r: ClientResult<Request>)
        ensures
            match joined(
                client.base(),
                table_endpoint(node_path(self.attrs.ancestors@, self.id@)),
            ) {
                Some(url) => r matches Ok(request) && request@ == (RequestView {
                    url,
                    headers: Some(replaced(or_empty(forwarded(*auth)), "accept"@, "application/json"@)),
                    query: match columns {
                        Some(columns) => Some(column_query(texts(columns@))),
                        None => None,
                    },
                }),
                None => r matches Err(ClientError::InvalidPath(PathError::Unresolved(_))),
            },
    {
        let path = path_to(&self.attrs.ancestors, self.id.as_str());
        client.table_full(path.as_str(), columns, headers_for(auth))
    }
}

/// The datasets of the first `count` streams of a run, where `answers` holds
/// the nodes that were found under each stream: those of the first stream in
/// the order in which they were found, then those of the second, and so on.
pub open spec fn collected(
    run: String,
    streams: Seq<Data>,
    answers: Seq<Seq<Data>>,
    count: nat,
) -> Seq<RunData>
    decreases count,
{
    if count == 0 {
        Seq::empty()
    } else {
        collected(run, streams, answers, (count - 1) as nat) + datasets(
            run,
            streams[count - 1].id,
            answers[count - 1],
        )
    }
}

/// The data of a run are the datasets of its streams, stream by stream: a
/// resolution that holds the datasets of the streams before `at` holds,
/// after the answer for the stream at `at`, those of the streams up to it,
/// and it ends with the datasets of all streams once the last has answered.
pub proof fn lemma_resolution_collects_by_stream(
    base: Seq<char>,
    run: String,
    headers: Option<Seq<(Seq<char>, Seq<char>)>>,
    streams: Seq<Data>,
    answers: Seq<Seq<Data>>,
    at: nat,
    step: Step,
)
    requires
        at < streams.len(),
        proceeds(
            base,
            run,
            headers,
            streams,
            at as int + 1,
            collected(run, streams, answers, at) + datasets(run, streams[at as int].id, answers[at as int]),
            step,
        ),
    ensures
        proceeds(
            base,
            run,
            headers,
            streams,
            at as int + 1,
            collected(run, streams, answers, at + 1),
            step,
        ),
        at + 1 == streams.len() ==> (step matches Step::Done(all) && all@ == collected(
            run,
            streams,
            answers,
            streams.len(),
        )),
{
}

} // verus!
