//! Channels: the brands under which shows are published.

use crate::json::{Json, JsonView};
use crate::names::lemma_attribute_names;
use crate::schema::{
    lemma_reads_optional, lemma_reads_required, optional, read_optional, read_required, required,
    wire_name, with_optional, with_required, write_optional, write_required, DecodeError,
    DecodeErrorView, Schema,
};
use crate::structs::common::{Image, ImageView};
use vstd::prelude::*;

verus! {

/// The reply to a request for channels: the channels, and where the list
/// stands in the whole.
#[derive(Debug, PartialEq, Eq)]
pub struct Root {
    /// The entries of this page.
    pub data: Vec<Channel>,
    /// The number of this page, from 1.
    pub page: Option<u16>,
    /// How many entries a page holds at most.
    pub per_page: Option<u16>,
    /// How many pages there are.
    pub total_pages: Option<u16>,
    /// How many entries there are on all pages together.
    pub total_results: Option<u32>,
}

/// The model of a [`Root`].
pub struct RootView {
    pub data: Seq<ChannelView>,
    pub page: Option<u16>,
    pub per_page: Option<u16>,
    pub total_pages: Option<u16>,
    pub total_results: Option<u32>,
}

impl DeepView for Root {
    type V = RootView;

    open spec fn deep_view(&self) -> RootView {
        RootView {
            data: self.data.deep_view(),
            page: self.page.deep_view(),
            per_page: self.per_page.deep_view(),
            total_pages: self.total_pages.deep_view(),
            total_results: self.total_results.deep_view(),
        }
    }
}

impl Schema for Root {
    open spec fn valid(value: RootView) -> bool {
        true
    }

    #[verifier::opaque]
    open spec fn decoded(doc: JsonView) -> Result<RootView, DecodeErrorView> {
        let data = required::<Vec<Channel>>(doc, "data"@);
        let page = optional::<u16>(doc, "page"@);
        let per_page = optional::<u16>(doc, "per_page"@);
        let total_pages = optional::<u16>(doc, "total_pages"@);
        let total_results = optional::<u32>(doc, "total_results"@);
        if data is Err {
            Err(data->Err_0)
        } else if page is Err {
            Err(page->Err_0)
        } else if per_page is Err {
            Err(per_page->Err_0)
        } else if total_pages is Err {
            Err(total_pages->Err_0)
        } else if total_results is Err {
            Err(total_results->Err_0)
        } else {
            Ok(
                RootView {
                    data: data->Ok_0,
                    page: page->Ok_0,
                    per_page: per_page->Ok_0,
                    total_pages: total_pages->Ok_0,
                    total_results: total_results->Ok_0,
                },
            )
        }
    }

    #[verifier::opaque]
    open spec fn encoded(value: RootView) -> JsonView {
        let members = Map::empty();
        let members = with_required::<Vec<Channel>>(members, "data"@, value.data);
        let members = with_optional::<u16>(members, "page"@, value.page);
        let members = with_optional::<u16>(members, "per_page"@, value.per_page);
        let members = with_optional::<u16>(members, "total_pages"@, value.total_pages);
        let members = with_optional::<u32>(members, "total_results"@, value.total_results);
        JsonView::Object(members)
    }

    fn decode(doc: &Json) -> (result: Result<Root, DecodeError>) {
        proof {
            reveal(<Root as Schema>::decoded);
        }
        let data = read_required::<Vec<Channel>>(doc, "data")?;
        let page = read_optional::<u16>(doc, "page")?;
        let per_page = read_optional::<u16>(doc, "per_page")?;
        let total_pages = read_optional::<u16>(doc, "total_pages")?;
        let total_results = read_optional::<u32>(doc, "total_results")?;
        Ok(Root { data, page, per_page, total_pages, total_results })
    }

    fn encode(&self) -> (doc: Json) {
        proof {
            reveal(<Root as Schema>::encoded);
        }
        let doc = Json::object();
        let doc = write_required(doc, "data", &self.data);
        let doc = write_optional(doc, "page", &self.page);
        let doc = write_optional(doc, "per_page", &self.per_page);
        let doc = write_optional(doc, "total_pages", &self.total_pages);
        let doc = write_optional(doc, "total_results", &self.total_results);
        doc
    }

    proof fn decoded_is_valid(doc: JsonView) {
    }

    proof fn encoded_decodes(value: RootView) {
        reveal(<Root as Schema>::decoded);
        reveal(<Root as Schema>::encoded);
        lemma_attribute_names();
        let members = Self::encoded(value)->Object_0;
        lemma_reads_required::<Vec<Channel>>(members, "data"@, value.data);
        lemma_reads_optional::<u16>(members, "page"@, value.page);
        lemma_reads_optional::<u16>(members, "per_page"@, value.per_page);
        lemma_reads_optional::<u16>(members, "total_pages"@, value.total_pages);
        lemma_reads_optional::<u32>(members, "total_results"@, value.total_results);
    }
}

impl Root {
    /// Whether `attribute` is one that a document may leave out.
    pub open spec fn is_optional(attribute: Seq<char>) -> bool {
        attribute == "page"@
            || attribute == "per_page"@
            || attribute == "total_pages"@
            || attribute == "total_results"@
    }

    /// Whether `value` decodes as what the optional attribute `attribute`
    /// holds.
    pub open spec fn accepts(attribute: Seq<char>, value: JsonView) -> bool {
        if attribute == "page"@ {
            u16::decoded(value) is Ok
        } else if attribute == "per_page"@ {
            u16::decoded(value) is Ok
        } else if attribute == "total_pages"@ {
            u16::decoded(value) is Ok
        } else if attribute == "total_results"@ {
            u32::decoded(value) is Ok
        } else {
            false
        }
    }

    /// A document that decodes still decodes when an optional member is
    /// taken out of it.
    pub proof fn optional_may_be_absent(doc: JsonView, attribute: Seq<char>)
        requires
            Self::is_optional(attribute),
            Self::decoded(doc) is Ok,
        ensures
            Self::decoded(JsonView::Object(doc->Object_0.remove(wire_name(attribute)))) is Ok,
    {
        reveal(<Root as Schema>::decoded);
        reveal(required);
        reveal(optional);
        lemma_attribute_names();
    }

    /// A document that decodes still decodes when an optional member is
    /// set to a value that its attribute accepts.
    pub proof fn optional_may_be_present(
        doc: JsonView,
        attribute: Seq<char>,
        value: JsonView,
    )
        requires
            Self::is_optional(attribute),
            Self::accepts(attribute, value),
            Self::decoded(doc) is Ok,
        ensures
            Self::decoded(
                JsonView::Object(doc->Object_0.insert(wire_name(attribute), value)),
            ) is Ok,
    {
        reveal(<Root as Schema>::decoded);
        reveal(required);
        reveal(optional);
        lemma_attribute_names();
    }
}

/// A channel.
#[derive(Debug, PartialEq, Eq)]
pub struct Channel {
    /// The search index that served the entity; `_index` on the wire.
    pub index: String,
    /// What sort of entity this is; `type` on the wire.
    pub kind: String,
    /// Keys that the server sorted by. Not every reply carries them.
    pub sort: Option<Vec<u16>>,
    /// The number of the entity; later entities have larger ones.
    pub id: u16,
    /// The identifier of the entity; the catalogue gives each entity one of its own.
    pub uuid: String,
    pub attributes: Attributes,
    pub included: Included,
    pub links: Links,
}

/// The model of a [`Channel`].
pub struct ChannelView {
    pub index: Seq<char>,
    pub kind: Seq<char>,
    pub sort: Option<Seq<u16>>,
    pub id: u16,
    pub uuid: Seq<char>,
    pub attributes: AttributesView,
    pub included: IncludedView,
    pub links: LinksView,
}

impl DeepView for Channel {
    type V = ChannelView;

    open spec fn deep_view(&self) -> ChannelView {
        ChannelView {
            index: self.index@,
            kind: self.kind@,
            sort: self.sort.deep_view(),
            id: self.id,
            uuid: self.uuid@,
            attributes: self.attributes.deep_view(),
            included: self.included.deep_view(),
            links: self.links.deep_view(),
        }
    }
}

impl Schema for Channel {
    open spec fn valid(value: ChannelView) -> bool {
        true
    }

    #[verifier::opaque]
    open spec fn decoded(doc: JsonView) -> Result<ChannelView, DecodeErrorView> {
        let index = required::<String>(doc, "index"@);
        let kind = required::<String>(doc, "kind"@);
        let sort = optional::<Vec<u16>>(doc, "sort"@);
        let id = required::<u16>(doc, "id"@);
        let uuid = required::<String>(doc, "uuid"@);
        let attributes = required::<Attributes>(doc, "attributes"@);
        let included = required::<Included>(doc, "included"@);
        let links = required::<Links>(doc, "links"@);
        if index is Err {
            Err(index->Err_0)
        } else if kind is Err {
            Err(kind->Err_0)
        } else if sort is Err {
            Err(sort->Err_0)
        } else if id is Err {
            Err(id->Err_0)
        } else if uuid is Err {
            Err(uuid->Err_0)
        } else if attributes is Err {
            Err(attributes->Err_0)
        } else if included is Err {
            Err(included->Err_0)
        } else if links is Err {
            Err(links->Err_0)
        } else {
            Ok(
                ChannelView {
                    index: index->Ok_0,
                    kind: kind->Ok_0,
                    sort: sort->Ok_0,
                    id: id->Ok_0,
                    uuid: uuid->Ok_0,
                    attributes: attributes->Ok_0,
                    included: included->Ok_0,
                    links: links->Ok_0,
                },
            )
        }
    }

    #[verifier::opaque]
    open spec fn encoded(value: ChannelView) -> JsonView {
        let members = Map::empty();
        let members = with_required::<String>(members, "index"@, value.index);
        let members = with_required::<String>(members, "kind"@, value.kind);
        let members = with_optional::<Vec<u16>>(members, "sort"@, value.sort);
        let members = with_required::<u16>(members, "id"@, value.id);
        let members = with_required::<String>(members, "uuid"@, value.uuid);
        let members = with_required::<Attributes>(members, "attributes"@, value.attributes);
        let members = with_required::<Included>(members, "included"@, value.included);
        let members = with_required::<Links>(members, "links"@, value.links);
        JsonView::Object(members)
    }

    fn decode(doc: &Json) -> (result: Result<Channel, DecodeError>) {
        proof {
            reveal(<Channel as Schema>::decoded);
        }
        let index = read_required::<String>(doc, "index")?;
        let kind = read_required::<String>(doc, "kind")?;
        let sort = read_optional::<Vec<u16>>(doc, "sort")?;
        let id = read_required::<u16>(doc, "id")?;
        let uuid = read_required::<String>(doc, "uuid")?;
        let attributes = read_required::<Attributes>(doc, "attributes")?;
        let included = read_required::<Included>(doc, "included")?;
        let links = read_required::<Links>(doc, "links")?;
        Ok(Channel { index, kind, sort, id, uuid, attributes, included, links })
    }

    fn encode(&self) -> (doc: Json) {
        proof {
            reveal(<Channel as Schema>::encoded);
        }
        let doc = Json::object();
        let doc = write_required(doc, "index", &self.index);
        let doc = write_required(doc, "kind", &self.kind);
        let doc = write_optional(doc, "sort", &self.sort);
        let doc = write_required(doc, "id", &self.id);
        let doc = write_required(doc, "uuid", &self.uuid);
        let doc = write_required(doc, "attributes", &self.attributes);
        let doc = write_required(doc, "included", &self.included);
        let doc = write_required(doc, "links", &self.links);
        doc
    }

    proof fn decoded_is_valid(doc: JsonView) {
    }

    proof fn encoded_decodes(value: ChannelView) {
        reveal(<Channel as Schema>::decoded);
        reveal(<Channel as Schema>::encoded);
        lemma_attribute_names();
        let members = Self::encoded(value)->Object_0;
        lemma_reads_required::<String>(members, "index"@, value.index);
        lemma_reads_required::<String>(members, "kind"@, value.kind);
        lemma_reads_optional::<Vec<u16>>(members, "sort"@, value.sort);
        lemma_reads_required::<u16>(members, "id"@, value.id);
        lemma_reads_required::<String>(members, "uuid"@, value.uuid);
        lemma_reads_required::<Attributes>(members, "attributes"@, value.attributes);
        lemma_reads_required::<Included>(members, "included"@, value.included);
        lemma_reads_required::<Links>(members, "links"@, value.links);
    }
}

impl Channel {
    /// Whether `attribute` is one that a document may leave out.
    pub open spec fn is_optional(attribute: Seq<char>) -> bool {
        attribute == "sort"@
    }

    /// Whether `value` decodes as what the optional attribute `attribute`
    /// holds.
    pub open spec fn accepts(attribute: Seq<char>, value: JsonView) -> bool {
        if attribute == "sort"@ {
            Vec::<u16>::decoded(value) is Ok
        } else {
            false
        }
    }

    /// A document that decodes still decodes when an optional member is
    /// taken out of it.
    pub proof fn optional_may_be_absent(doc: JsonView, attribute: Seq<char>)
        requires
            Self::is_optional(attribute),
            Self::decoded(doc) is Ok,
        ensures
            Self::decoded(JsonView::Object(doc->Object_0.remove(wire_name(attribute)))) is Ok,
    {
        reveal(<Channel as Schema>::decoded);
        reveal(required);
        reveal(optional);
        lemma_attribute_names();
    }

    /// A document that decodes still decodes when an optional member is
    /// set to a value that its attribute accepts.
    pub proof fn optional_may_be_present(
        doc: JsonView,
        attribute: Seq<char>,
        value: JsonView,
    )
        requires
            Self::is_optional(attribute),
            Self::accepts(attribute, value),
            Self::decoded(doc) is Ok,
        ensures
            Self::decoded(
                JsonView::Object(doc->Object_0.insert(wire_name(attribute), value)),
            ) is Ok,
    {
        reveal(<Channel as Schema>::decoded);
        reveal(required);
        reveal(optional);
        lemma_attribute_names();
    }
}

/// What a channel is called and how it is presented.
#[derive(Debug, PartialEq, Eq)]
pub struct Attributes {
    pub name: String,
    /// Where the channel stands among the channels; smaller comes first.
    pub importance: u16,
    /// The name of the entity in addresses; the catalogue gives each entity of a
    /// kind one of its own.
    pub slug: String,
    /// The colour of the channel, as six hexadecimal digits.
    pub brand_color: String,
}

/// The model of an [`Attributes`].
pub struct AttributesView {
    pub name: Seq<char>,
    pub importance: u16,
    pub slug: Seq<char>,
    pub brand_color: Seq<char>,
}

impl DeepView for Attributes {
    type V = AttributesView;

    open spec fn deep_view(&self) -> AttributesView {
        AttributesView {
            name: self.name@,
            importance: self.importance,
            slug: self.slug@,
            brand_color: self.brand_color@,
        }
    }
}

impl Schema for Attributes {
    open spec fn valid(value: AttributesView) -> bool {
        true
    }

    #[verifier::opaque]
    open spec fn decoded(doc: JsonView) -> Result<AttributesView, DecodeErrorView> {
        let name = required::<String>(doc, "name"@);
        let importance = required::<u16>(doc, "importance"@);
        let slug = required::<String>(doc, "slug"@);
        let brand_color = required::<String>(doc, "brand_color"@);
        if name is Err {
            Err(name->Err_0)
        } else if importance is Err {
            Err(importance->Err_0)
        } else if slug is Err {
            Err(slug->Err_0)
        } else if brand_color is Err {
            Err(brand_color->Err_0)
        } else {
            Ok(
                AttributesView {
                    name: name->Ok_0,
                    importance: importance->Ok_0,
                    slug: slug->Ok_0,
                    brand_color: brand_color->Ok_0,
                },
            )
        }
    }

    #[verifier::opaque]
    open spec fn encoded(value: AttributesView) -> JsonView {
        let members = Map::empty();
        let members = with_required::<String>(members, "name"@, value.name);
        let members = with_required::<u16>(members, "importance"@, value.importance);
        let members = with_required::<String>(members, "slug"@, value.slug);
        let members = with_required::<String>(members, "brand_color"@, value.brand_color);
        JsonView::Object(members)
    }

    fn decode(doc: &Json) -> (result: Result<Attributes, DecodeError>) {
        proof {
            reveal(<Attributes as Schema>::decoded);
        }
        let name = read_required::<String>(doc, "name")?;
        let importance = read_required::<u16>(doc, "importance")?;
        let slug = read_required::<String>(doc, "slug")?;
        let brand_color = read_required::<String>(doc, "brand_color")?;
        Ok(Attributes { name, importance, slug, brand_color })
    }

    fn encode(&self) -> (doc: Json) {
        proof {
            reveal(<Attributes as Schema>::encoded);
        }
        let doc = Json::object();
        let doc = write_required(doc, "name", &self.name);
        let doc = write_required(doc, "importance", &self.importance);
        let doc = write_required(doc, "slug", &self.slug);
        let doc = write_required(doc, "brand_color", &self.brand_color);
        doc
    }

    proof fn decoded_is_valid(doc: JsonView) {
    }

    proof fn encoded_decodes(value: AttributesView) {
        reveal(<Attributes as Schema>::decoded);
        reveal(<Attributes as Schema>::encoded);
        lemma_attribute_names();
        let members = Self::encoded(value)->Object_0;
        lemma_reads_required::<String>(members, "name"@, value.name);
        lemma_reads_required::<u16>(members, "importance"@, value.importance);
        lemma_reads_required::<String>(members, "slug"@, value.slug);
        lemma_reads_required::<String>(members, "brand_color"@, value.brand_color);
    }
}

/// Entities that come along with a channel.
#[derive(Debug, PartialEq, Eq)]
pub struct Included {
    pub images: Vec<Image>,
}

/// The model of an [`Included`].
pub struct IncludedView {
    pub images: Seq<ImageView>,
}

impl DeepView for Included {
    type V = IncludedView;

    open spec fn deep_view(&self) -> IncludedView {
        IncludedView { images: self.images.deep_view() }
    }
}

impl Schema for Included {
    open spec fn valid(value: IncludedView) -> bool {
        true
    }

    #[verifier::opaque]
    open spec fn decoded(doc: JsonView) -> Result<IncludedView, DecodeErrorView> {
        let images = required::<Vec<Image>>(doc, "images"@);
        if images is Err {
            Err(images->Err_0)
        } else {
            Ok(IncludedView { images: images->Ok_0 })
        }
    }

    #[verifier::opaque]
    open spec fn encoded(value: IncludedView) -> JsonView {
        let members = Map::empty();
        let members = with_required::<Vec<Image>>(members, "images"@, value.images);
        JsonView::Object(members)
    }

    fn decode(doc: &Json) -> (result: Result<Included, DecodeError>) {
        proof {
            reveal(<Included as Schema>::decoded);
        }
        let images = read_required::<Vec<Image>>(doc, "images")?;
        Ok(Included { images })
    }

    fn encode(&self) -> (doc: Json) {
        proof {
            reveal(<Included as Schema>::encoded);
        }
        let doc = Json::object();
        let doc = write_required(doc, "images", &self.images);
        doc
    }

    proof fn decoded_is_valid(doc: JsonView) {
    }

    proof fn encoded_decodes(value: IncludedView) {
        reveal(<Included as Schema>::decoded);
        reveal(<Included as Schema>::encoded);
        lemma_attribute_names();
        let members = Self::encoded(value)->Object_0;
        lemma_reads_required::<Vec<Image>>(members, "images"@, value.images);
    }
}

/// Where to ask for what belongs to a channel.
#[derive(Debug, PartialEq, Eq)]
pub struct Links {
    /// The address of this entity itself; `self` on the wire.
    pub reference: String,
    pub shows: String,
    pub product_collections: String,
    pub featured_items: String,
    pub episodes: String,
    pub livestreams: String,
}

/// The model of a [`Links`].
pub struct LinksView {
    pub reference: Seq<char>,
    pub shows: Seq<char>,
    pub product_collections: Seq<char>,
    pub featured_items: Seq<char>,
    pub episodes: Seq<char>,
    pub livestreams: Seq<char>,
}

impl DeepView for Links {
    type V = LinksView;

    open spec fn deep_view(&self) -> LinksView {
        LinksView {
            reference: self.reference@,
            shows: self.shows@,
            product_collections: self.product_collections@,
            featured_items: self.featured_items@,
            episodes: self.episodes@,
            livestreams: self.livestreams@,
        }
    }
}

impl Schema for Links {
    open spec fn valid(value: LinksView) -> bool {
        true
    }

    #[verifier::opaque]
    open spec fn decoded(doc: JsonView) -> Result<LinksView, DecodeErrorView> {
        let reference = required::<String>(doc, "reference"@);
        let shows = required::<String>(doc, "shows"@);
        let product_collections = required::<String>(doc, "product_collections"@);
        let featured_items = required::<String>(doc, "featured_items"@);
        let episodes = required::<String>(doc, "episodes"@);
        let livestreams = required::<String>(doc, "livestreams"@);
        if reference is Err {
            Err(reference->Err_0)
        } else if shows is Err {
            Err(shows->Err_0)
        } else if product_collections is Err {
            Err(product_collections->Err_0)
        } else if featured_items is Err {
            Err(featured_items->Err_0)
        } else if episodes is Err {
            Err(episodes->Err_0)
        } else if livestreams is Err {
            Err(livestreams->Err_0)
        } else {
            Ok(
                LinksView {
                    reference: reference->Ok_0,
                    shows: shows->Ok_0,
                    product_collections: product_collections->Ok_0,
                    featured_items: featured_items->Ok_0,
                    episodes: episodes->Ok_0,
                    livestreams: livestreams->Ok_0,
                },
            )
        }
    }

    #[verifier::opaque]
    open spec fn encoded(value: LinksView) -> JsonView {
        let members = Map::empty();
        let members = with_required::<String>(members, "reference"@, value.reference);
        let members = with_required::<String>(members, "shows"@, value.shows);
        let members = with_required::<String>(
            members,
            "product_collections"@,
            value.product_collections,
        );
        let members = with_required::<String>(members, "featured_items"@, value.featured_items);
        let members = with_required::<String>(members, "episodes"@, value.episodes);
        let members = with_required::<String>(members, "livestreams"@, value.livestreams);
        JsonView::Object(members)
    }

    fn decode(doc: &Json) -> (result: Result<Links, DecodeError>) {
        proof {
            reveal(<Links as Schema>::decoded);
        }
        let reference = read_required::<String>(doc, "reference")?;
        let shows = read_required::<String>(doc, "shows")?;
        let product_collections = read_required::<String>(doc, "product_collections")?;
        let featured_items = read_required::<String>(doc, "featured_items")?;
        let episodes = read_required::<String>(doc, "episodes")?;
        let livestreams = read_required::<String>(doc, "livestreams")?;
        Ok(Links { reference, shows, product_collections, featured_items, episodes, livestreams })
    }

    fn encode(&self) -> (doc: Json) {
        proof {
            reveal(<Links as Schema>::encoded);
        }
        let doc = Json::object();
        let doc = write_required(doc, "reference", &self.reference);
        let doc = write_required(doc, "shows", &self.shows);
        let doc = write_required(doc, "product_collections", &self.product_collections);
        let doc = write_required(doc, "featured_items", &self.featured_items);
        let doc = write_required(doc, "episodes", &self.episodes);
        let doc = write_required(doc, "livestreams", &self.livestreams);
        doc
    }

    proof fn decoded_is_valid(doc: JsonView) {
    }

    proof fn encoded_decodes(value: LinksView) {
        reveal(<Links as Schema>::decoded);
        reveal(<Links as Schema>::encoded);
        lemma_attribute_names();
        let members = Self::encoded(value)->Object_0;
        lemma_reads_required::<String>(members, "reference"@, value.reference);
        lemma_reads_required::<String>(members, "shows"@, value.shows);
        lemma_reads_required::<String>(members, "product_collections"@, value.product_collections);
        lemma_reads_required::<String>(members, "featured_items"@, value.featured_items);
        lemma_reads_required::<String>(members, "episodes"@, value.episodes);
        lemma_reads_required::<String>(members, "livestreams"@, value.livestreams);
    }
}

} // verus!
