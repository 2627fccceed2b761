//! The node schema of the remote service: the envelope of every response, the
//! entries of a collection, and the closed set of node variants.

use vstd::prelude::*;
use crate::decode::{
    fits_optional,
    fits_required,
    optional,
    reflects_optional,
    reflects_required,
    required,
    Decode,
};
use crate::json::{document, member, Json};
use crate::model::{array, container, table};
use crate::text::same_text;

verus! {

/// The envelope of a collection of nodes.
pub type Root = Response<Vec<DataOption>>;

/// The envelope of a single node.
pub type Metadata = Response<Data>;

/// The envelope that wraps every payload of the remote service.
#[derive(Debug, Clone, PartialEq)]
pub struct Response<D> {
    pub data: D,
    pub error: serde_json::Value,
    pub links: Option<Links>,
    pub meta: serde_json::Value,
}

/// One entry of a collection: a node, or whatever stood in its place.
#[derive(Debug, Clone, PartialEq)]
pub enum DataOption {
    Data(Data),
    Error(serde_json::Value),
}

/// A node of the remote tree.
#[derive(Debug, Clone, PartialEq)]
pub struct Data {
    pub id: String,
    pub attributes: Box<NodeAttributes>,
    pub links: Box<Links>,
    pub meta: serde_json::Value,
}

/// What a node is, chosen by its `structure_family`.
#[derive(Debug, Clone, PartialEq)]
pub enum NodeAttributes {
    Container(Attributes<container::ContainerMetadata, container::ContainerStructure>),
    Array(Attributes<array::Members, array::ArrayStructure>),
    Table(Attributes<array::Members, table::TableStructure>),
}

/// The attributes that every kind of node has, over the metadata and the
/// structure of its kind.
#[derive(Debug, Clone, PartialEq)]
pub struct Attributes<Meta, S> {
    /// The path from the root to the node's parent.
    pub ancestors: Vec<String>,
    pub specs: Vec<Spec>,
    pub metadata: Meta,
    pub structure: S,
    pub access_blob: serde_json::Value,
    pub sorting: Option<Vec<Sorting>>,
    pub data_sources: Option<Vec<DataSource<S>>>,
}

#[derive(Debug, Clone, PartialEq)]
pub struct Spec {
    pub name: String,
    pub version: Option<String>,
}

#[derive(Debug, Clone, PartialEq)]
pub struct Sorting {
    pub key: String,
    pub direction: i64,
}

#[derive(Debug, Clone, PartialEq)]
pub struct DataSource<S> {
    pub structure: S,
    pub id: Option<u64>,
    pub mimetype: Option<String>,
    pub parameters: array::Members,
    pub assets: Vec<Asset>,
    pub management: Management,
}

/// Who may change the storage behind a data source.
#[derive(Debug, Clone, Copy, PartialEq, Eq, Structural)]
pub enum Management {
    External,
    Immutable,
    Locked,
    Writable,
}

/// A binary object behind a data source.
#[derive(Debug, Clone, PartialEq)]
pub struct Asset {
    pub data_uri: String,
    pub is_directory: bool,
    pub parameter: Option<String>,
    pub num: Option<i64>,
    /// The key by which the asset is downloaded; without it there is no
    /// download.
    pub id: Option<i64>,
}

#[derive(Debug, Clone, PartialEq)]
pub struct Links {
    pub self_field: String,
    pub documentation: Option<String>,
    pub first: Option<String>,
    pub last: Option<String>,
    pub next: Option<String>,
    pub prev: Option<String>,
    pub search: Option<String>,
    pub full: Option<String>,
    pub block: Option<String>,
    pub partition: Option<String>,
}

impl Management {
    /// The lower-case word by which the remote service names this variant.
    pub open spec fn word(self) -> Seq<char> {
        match self {
            Management::External => "external"@,
            Management::Immutable => "immutable"@,
            Management::Locked => "locked"@,
            Management::Writable => "writable"@,
        }
    }

    /// The variant that a word names.
    pub open spec fn named(word: Seq<char>) -> Option<Management> {
        if word == "external"@ {
            Some(Management::External)
        } else if word == "immutable"@ {
            Some(Management::Immutable)
        } else if word == "locked"@ {
            Some(Management::Locked)
        } else if word == "writable"@ {
            Some(Management::Writable)
        } else {
            None
        }
    }

    pub fn as_str(&self) -> (r: &'static str)
        ensures
            r@ == self.word(),
    {
        match self {
            Management::External => "external",
            Management::Immutable => "immutable",
            Management::Locked => "locked",
            Management::Writable => "writable",
        }
    }

    pub fn from_word(word: &str) -> (r: Option<Management>)
        ensures
            r == Management::named(word@),
    {
        if same_text(word, "external") {
            Some(Management::External)
        } else if same_text(word, "immutable") {
            Some(Management::Immutable)
        } else if same_text(word, "locked") {
            Some(Management::Locked)
        } else if same_text(word, "writable") {
            Some(Management::Writable)
        } else {
            None
        }
    }
}

impl Decode for Management {
    open spec fn fits(doc: Json) -> bool {
        doc matches Json::Text(word) && Management::named(word) is Some
    }

    open spec fn reflects(&self, doc: Json) -> bool {
        doc matches Json::Text(word) && Management::named(word) == Some(*self)
    }

    fn decode(value: &serde_json::Value) -> (r: Option<Self>) {
        match value.as_str() {
            Some(word) => Management::from_word(word),
            None => None,
        }
    }
}

impl Decode for Spec {
    open spec fn fits(doc: Json) -> bool {
        &&& fits_required::<String>(doc, "name"@)
        &&& fits_optional::<String>(doc, "version"@)
    }

    open spec fn reflects(&self, doc: Json) -> bool {
        &&& reflects_required(self.name, doc, "name"@)
        &&& reflects_optional(self.version, doc, "version"@)
    }

    fn decode(value: &serde_json::Value) -> (r: Option<Self>) {
        let name = required::<String>(value, "name")?;
        let version = optional::<String>(value, "version")?;
        Some(Spec { name, version })
    }
}

impl Decode for Sorting {
    open spec fn fits(doc: Json) -> bool {
        &&& fits_required::<String>(doc, "key"@)
        &&& fits_required::<i64>(doc, "direction"@)
    }

    open spec fn reflects(&self, doc: Json) -> bool {
        &&& reflects_required(self.key, doc, "key"@)
        &&& reflects_required(self.direction, doc, "direction"@)
    }

    fn decode(value: &serde_json::Value) -> (r: Option<Self>) {
        let key = required::<String>(value, "key")?;
        let direction = required::<i64>(value, "direction")?;
        Some(Sorting { key, direction })
    }
}

impl Decode for Asset {
    open spec fn fits(doc: Json) -> bool {
        &&& fits_required::<String>(doc, "data_uri"@)
        &&& fits_required::<bool>(doc, "is_directory"@)
        &&& fits_optional::<String>(doc, "parameter"@)
        &&& fits_optional::<i64>(doc, "num"@)
        &&& fits_optional::<i64>(doc, "id"@)
    }

    open spec fn reflects(&self, doc: Json) -> bool {
        &&& reflects_required(self.data_uri, doc, "data_uri"@)
        &&& reflects_required(self.is_directory, doc, "is_directory"@)
        &&& reflects_optional(self.parameter, doc, "parameter"@)
        &&& reflects_optional(self.num, doc, "num"@)
        &&& reflects_optional(self.id, doc, "id"@)
    }

    fn decode(value: &serde_json::Value) -> (r: Option<Self>) {
        let data_uri = required::<String>(value, "data_uri")?;
        let is_directory = required::<bool>(value, "is_directory")?;
        let parameter = optional::<String>(value, "parameter")?;
        let num = optional::<i64>(value, "num")?;
        let id = optional::<i64>(value, "id")?;
        Some(Asset { data_uri, is_directory, parameter, num, id })
    }
}

impl Decode for Links {
    open spec fn fits(doc: Json) -> bool {
        &&& fits_required::<String>(doc, "self"@)
        &&& fits_optional::<String>(doc, "documentation"@)
        &&& fits_optional::<String>(doc, "first"@)
        &&& fits_optional::<String>(doc, "last"@)
        &&& fits_optional::<String>(doc, "next"@)
        &&& fits_optional::<String>(doc, "prev"@)
        &&& fits_optional::<String>(doc, "search"@)
        &&& fits_optional::<String>(doc, "full"@)
        &&& fits_optional::<String>(doc, "block"@)
        &&& fits_optional::<String>(doc, "partition"@)
    }

    open spec fn reflects(&self, doc: Json) -> bool {
        &&& reflects_required(self.self_field, doc, "self"@)
        &&& reflects_optional(self.documentation, doc, "documentation"@)
        &&& reflects_optional(self.first, doc, "first"@)
        &&& reflects_optional(self.last, doc, "last"@)
        &&& reflects_optional(self.next, doc, "next"@)
        &&& reflects_optional(self.prev, doc, "prev"@)
        &&& reflects_optional(self.search, doc, "search"@)
        &&& reflects_optional(self.full, doc, "full"@)
        &&& reflects_optional(self.block, doc, "block"@)
        &&& reflects_optional(self.partition, doc, "partition"@)
    }

    fn decode(value: &serde_json::Value) -> (r: Option<Self>) {
        let self_field = required::<String>(value, "self")?;
        let documentation = optional::<String>(value, "documentation")?;
        let first = optional::<String>(value, "first")?;
        let last = optional::<String>(value, "last")?;
        let next = optional::<String>(value, "next")?;
        let prev = optional::<String>(value, "prev")?;
        let search = optional::<String>(value, "search")?;
        let full = optional::<String>(value, "full")?;
        let block = optional::<String>(value, "block")?;
        let partition = optional::<String>(value, "partition")?;
        Some(
            Links {
                self_field,
                documentation,
                first,
                last,
                next,
                prev,
                search,
                full,
                block,
                partition,
            },
        )
    }
}

impl<S: Decode> Decode for DataSource<S> {
    open spec fn fits(doc: Json) -> bool {
        &&& fits_required::<S>(doc, "structure"@)
        &&& fits_optional::<u64>(doc, "id"@)
        &&& fits_optional::<String>(doc, "mimetype"@)
        &&& fits_required::<array::Members>(doc, "parameters"@)
        &&& fits_required::<Vec<Asset>>(doc, "assets"@)
        &&& fits_required::<Management>(doc, "management"@)
    }

    open spec fn reflects(&self, doc: Json) -> bool {
        &&& reflects_required(self.structure, doc, "structure"@)
        &&& reflects_optional(self.id, doc, "id"@)
        &&& reflects_optional(self.mimetype, doc, "mimetype"@)
        &&& reflects_required(self.parameters, doc, "parameters"@)
        &&& reflects_required(self.assets, doc, "assets"@)
        &&& reflects_required(self.management, doc, "management"@)
    }

    fn decode(value: &serde_json::Value) -> (r: Option<Self>) {
        let structure = required::<S>(value, "structure")?;
        let id = optional::<u64>(value, "id")?;
        let mimetype = optional::<String>(value, "mimetype")?;
        let parameters = required::<array::Members>(value, "parameters")?;
        let assets = required::<Vec<Asset>>(value, "assets")?;
        let management = required::<Management>(value, "management")?;
        Some(DataSource { structure, id, mimetype, parameters, assets, management })
    }
}

impl<Meta: Decode, S: Decode> Decode for Attributes<Meta, S> {
    open spec fn fits(doc: Json) -> bool {
        &&& fits_required::<Vec<String>>(doc, "ancestors"@)
        &&& fits_required::<Vec<Spec>>(doc, "specs"@)
        &&& fits_required::<Meta>(doc, "metadata"@)
        &&& fits_required::<S>(doc, "structure"@)
        &&& fits_required::<serde_json::Value>(doc, "access_blob"@)
        &&& fits_optional::<Vec<Sorting>>(doc, "sorting"@)
        &&& fits_optional::<Vec<DataSource<S>>>(doc, "data_sources"@)
    }

    open spec fn reflects(&self, doc: Json) -> bool {
        &&& reflects_required(self.ancestors, doc, "ancestors"@)
        &&& reflects_required(self.specs, doc, "specs"@)
        &&& reflects_required(self.metadata, doc, "metadata"@)
        &&& reflects_required(self.structure, doc, "structure"@)
        &&& reflects_required(self.access_blob, doc, "access_blob"@)
        &&& reflects_optional(self.sorting, doc, "sorting"@)
        &&& reflects_optional(self.data_sources, doc, "data_sources"@)
    }

    fn decode(value: &serde_json::Value) -> (r: Option<Self>) {
        let ancestors = required::<Vec<String>>(value, "ancestors")?;
        let specs = required::<Vec<Spec>>(value, "specs")?;
        let metadata = required::<Meta>(value, "metadata")?;
        let structure = required::<S>(value, "structure")?;
        let access_blob = required::<serde_json::Value>(value, "access_blob")?;
        let sorting = optional::<Vec<Sorting>>(value, "sorting")?;
        let data_sources = optional::<Vec<DataSource<S>>>(value, "data_sources")?;
        Some(
            Attributes { ancestors, specs, metadata, structure, access_blob, sorting, data_sources },
        )
    }
}

/// The three kinds of node that the remote service has.
#[derive(Debug, Clone, Copy, PartialEq, Eq, Structural)]
pub enum Family {
    Container,
    Array,
    Table,
}

impl Family {
    /// The kind that a word names; no other word names one.
    pub open spec fn named(word: Seq<char>) -> Option<Family> {
        if word == "container"@ {
            Some(Family::Container)
        } else if word == "array"@ {
            Some(Family::Array)
        } else if word == "table"@ {
            Some(Family::Table)
        } else {
            None
        }
    }

    /// The kind that a node's document claims: its member
    /// `structure_family`, where that is a text that names one.
    pub open spec fn of(doc: Json) -> Option<Family> {
        match doc.member("structure_family"@) {
            Some(Json::Text(word)) => Family::named(word),
            _ => None,
        }
    }

    pub fn from_word(word: &str) -> (r: Option<Family>)
        ensures
            r == Family::named(word@),
    {
        if same_text(word, "container") {
            Some(Family::Container)
        } else if same_text(word, "array") {
            Some(Family::Array)
        } else if same_text(word, "table") {
            Some(Family::Table)
        } else {
            None
        }
    }

    /// Reads the kind that a node's attributes claim.
    pub fn read(value: &serde_json::Value) -> (r: Option<Family>)
        ensures
            r == Family::of(document(*value)),
    {
        match member(value, "structure_family") {
            Some(tag) => match tag.as_str() {
                Some(word) => Family::from_word(word),
                None => None,
            },
            None => None,
        }
    }
}

impl NodeAttributes {
    /// The kind of this node.
    pub open spec fn family(self) -> Family {
        match self {
            NodeAttributes::Container(_) => Family::Container,
            NodeAttributes::Array(_) => Family::Array,
            NodeAttributes::Table(_) => Family::Table,
        }
    }
}

impl Decode for NodeAttributes {
    open spec fn fits(doc: Json) -> bool {
        match Family::of(doc) {
            Some(Family::Container) => Attributes::<
                container::ContainerMetadata,
                container::ContainerStructure,
            >::fits(doc),
            Some(Family::Array) => Attributes::<array::Members, array::ArrayStructure>::fits(doc),
            Some(Family::Table) => Attributes::<array::Members, table::TableStructure>::fits(doc),
            None => false,
        }
    }

    open spec fn reflects(&self, doc: Json) -> bool {
        &&& Family::of(doc) == Some(self.family())
        &&& match self {
            NodeAttributes::Container(attrs) => attrs.reflects(doc),
            NodeAttributes::Array(attrs) => attrs.reflects(doc),
            NodeAttributes::Table(attrs) => attrs.reflects(doc),
        }
    }

    fn decode(value: &serde_json::Value) -> (r: Option<Self>) {
        match Family::read(value)? {
            Family::Container => Some(NodeAttributes::Container(Attributes::decode(value)?)),
            Family::Array => Some(NodeAttributes::Array(Attributes::decode(value)?)),
            Family::Table => Some(NodeAttributes::Table(Attributes::decode(value)?)),
        }
    }
}

impl Decode for Data {
    open spec fn fits(doc: Json) -> bool {
        &&& fits_required::<String>(doc, "id"@)
        &&& fits_required::<NodeAttributes>(doc, "attributes"@)
        &&& fits_required::<Links>(doc, "links"@)
        &&& fits_required::<serde_json::Value>(doc, "meta"@)
    }

    open spec fn reflects(&self, doc: Json) -> bool {
        &&& reflects_required(self.id, doc, "id"@)
        &&& reflects_required(*self.attributes, doc, "attributes"@)
        &&& reflects_required(*self.links, doc, "links"@)
        &&& reflects_required(self.meta, doc, "meta"@)
    }

    fn decode(value: &serde_json::Value) -> (r: Option<Self>) {
        let id = required::<String>(value, "id")?;
        let attributes = required::<NodeAttributes>(value, "attributes")?;
        let links = required::<Links>(value, "links")?;
        let meta = required::<serde_json::Value>(value, "meta")?;
        Some(Data { id, attributes: Box::new(attributes), links: Box::new(links), meta })
    }
}

/// Every document is an entry: a node where it has the shape of one, and
/// otherwise the document itself, kept aside.
impl Decode for DataOption {
    open spec fn fits(doc: Json) -> bool {
        true
    }

    open spec fn reflects(&self, doc: Json) -> bool {
        match self {
            DataOption::Data(node) => Data::fits(doc) && node.reflects(doc),
            DataOption::Error(kept) => !Data::fits(doc) && document(*kept) == doc,
        }
    }

    fn decode(value: &serde_json::Value) -> (r: Option<Self>) {
        match Data::decode(value) {
            Some(node) => Some(DataOption::Data(node)),
            None => Some(DataOption::Error(value.clone())),
        }
    }
}

impl<D: Decode> Decode for Response<D> {
    open spec fn fits(doc: Json) -> bool {
        &&& fits_required::<D>(doc, "data"@)
        &&& fits_required::<serde_json::Value>(doc, "error"@)
        &&& fits_optional::<Links>(doc, "links"@)
        &&& fits_required::<serde_json::Value>(doc, "meta"@)
    }

    open spec fn reflects(&self, doc: Json) -> bool {
        &&& reflects_required(self.data, doc, "data"@)
        &&& reflects_required(self.error, doc, "error"@)
        &&& reflects_optional(self.links, doc, "links"@)
        &&& reflects_required(self.meta, doc, "meta"@)
    }

    fn decode(value: &serde_json::Value) -> (r: Option<Self>) {
        let data = required::<D>(value, "data")?;
        let error = required::<serde_json::Value>(value, "error")?;
        let links = optional::<Links>(value, "links")?;
        let meta = required::<serde_json::Value>(value, "meta")?;
        Some(Response { data, error, links, meta })
    }
}

impl DataOption {
    /// The node of an entry that is one.
    pub open spec fn node(self) -> Option<Data> {
        match self {
            DataOption::Data(node) => Some(node),
            DataOption::Error(_) => None,
        }
    }

    pub fn as_data(&self) -> (r: Option<&Data>)
        ensures
            match r {
                Some(node) => self.node() == Some(*node),
                None => self.node() is None,
            },
    {
        match self {
            DataOption::Data(node) => Some(node),
            DataOption::Error(_) => None,
        }
    }

    pub fn into_data(self) -> (r: Option<Data>)
        ensures
            r == self.node(),
    {
        match self {
            DataOption::Data(node) => Some(node),
            DataOption::Error(_) => None,
        }
    }
}

/// The nodes among the entries of a collection, in the order of the entries.
/// Entries that are no nodes leave no trace.
pub open spec fn nodes(entries: Seq<DataOption>) -> Seq<Data> {
    entries.filter_map(|entry: DataOption| entry.node())
}

/// The nodes among the entries, borrowed.
pub fn borrowed_nodes(entries: &Vec<DataOption>) -> (r: Vec<&Data>)
    ensures
        r@.len() == nodes(entries@).len(),
        forall|i: int| 0 <= i < r@.len() ==> *(#[trigger] r@[i]) == nodes(entries@)[i],
{
    let mut out: Vec<&Data> = Vec::new();
    let mut i: usize = 0;
    while i < entries.len()
        invariant
            i <= entries.len(),
            out@.len() == nodes(entries@.take(i as int)).len(),
            forall|k: int|
                0 <= k < out@.len() ==> *(#[trigger] out@[k]) == nodes(entries@.take(i as int))[k],
        decreases entries.len() - i,
    {
        proof {
            entries@.lemma_filter_map_take_succ(|entry: DataOption| entry.node(), i as int);
        }
        match entries[i].as_data() {
            Some(node) => {
                out.push(node);
            },
            None => {},
        }
        i += 1;
    }
    proof {
        assert(entries@.take(i as int) =~= entries@);
    }
    out
}

/// The nodes among the entries, taken out of them.
pub fn owned_nodes(entries: Vec<DataOption>) -> (r: Vec<Data>)
    ensures
        r@ == nodes(entries@),
{
    let ghost all = entries@;
    let mut out: Vec<Data> = Vec::new();
    for entry in it: entries
        invariant
            it.seq() == all,
            out@ == nodes(all.take(it.index() as int)),
    {
        proof {
            all.lemma_filter_map_take_succ(|entry: DataOption| entry.node(), it.index() as int);
        }
        match entry.into_data() {
            Some(node) => {
                out.push(node);
            },
            None => {},
        }
    }
    proof {
        assert(all.take(all.len() as int) =~= all);
    }
    out
}

impl Root {
    /// The nodes of the collection, in their order. Entries that are no
    /// nodes are passed over.
    pub fn data(&self) -> (r: Vec<&Data>)
        ensures
            r@.len() == nodes(self.data@).len(),
            forall|i: int| 0 <= i < r@.len() ==> *(#[trigger] r@[i]) == nodes(self.data@)[i],
    {
        borrowed_nodes(&self.data)
    }

    /// The nodes of the collection, in their order. Entries that are no
    /// nodes are dropped.
    pub fn into_data(self) -> (r: Vec<Data>)
        ensures
            r@ == nodes(self.data@),
    {
        owned_nodes(self.data)
    }
}

impl Metadata {
    pub fn into_data(self) -> (r: Data)
        ensures
            r == self.data,
    {
        self.data
    }
}

/// The documents of a collection that have the shape of a node, in their
/// order.
pub open spec fn well_formed(items: Seq<Json>) -> Seq<Json> {
    items.filter(|doc: Json| Data::fits(doc))
}

/// Whether the entries were read from the documents, one from each.
pub open spec fn entries_of(entries: Seq<DataOption>, items: Seq<Json>) -> bool {
    &&& entries.len() == items.len()
    &&& forall|i: int| 0 <= i < items.len() ==> (#[trigger] entries[i]).reflects(items[i])
}

proof fn lemma_nodes_of_entries(entries: Seq<DataOption>, items: Seq<Json>)
    requires
        entries_of(entries, items),
    ensures
        nodes(entries).len() == well_formed(items).len(),
        forall|k: int|
            0 <= k < nodes(entries).len() ==> (#[trigger] nodes(entries)[k]).reflects(
                well_formed(items)[k],
            ),
    decreases entries.len(),
{
    reveal(Seq::filter);
    if entries.len() > 0 {
        let shorter = entries.drop_last();
        let fewer = items.drop_last();
        assert(entries_of(shorter, fewer));
        lemma_nodes_of_entries(shorter, fewer);
    }
}

/// A collection with malformed entries among the well-formed ones resolves
/// to the well-formed ones alone, in their order: whatever the documents of
/// a collection are, they can be read as entries, and the nodes of the
/// entries are as many as the documents that have the shape of a node, each
/// read from the document in its place among those.
pub proof fn lemma_collection_keeps_well_formed_entries(entries: Vec<DataOption>, items: Seq<Json>)
    ensures
        Vec::<DataOption>::fits(Json::Array(items)),
        entries.reflects(Json::Array(items)) ==> {
            &&& nodes(entries@).len() == well_formed(items).len()
            &&& forall|k: int|
                0 <= k < nodes(entries@).len() ==> (#[trigger] nodes(entries@)[k]).reflects(
                    well_formed(items)[k],
                )
        },
{
    if entries.reflects(Json::Array(items)) {
        lemma_nodes_of_entries(entries@, items);
    }
}

/// A node whose `structure_family` names none of the three kinds is no node:
/// its attributes do not fit, so neither does the node, nor an envelope that
/// holds it.
pub proof fn lemma_unknown_family_is_rejected(envelope: Json, found: Json, attributes: Json)
    requires
        Family::of(attributes) is None,
        found.member("attributes"@) == Some(attributes),
        envelope.member("data"@) == Some(found),
    ensures
        !NodeAttributes::fits(attributes),
        !Data::fits(found),
        !Metadata::fits(envelope),
{
}

} // verus!
