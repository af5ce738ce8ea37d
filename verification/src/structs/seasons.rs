//! Seasons of a show.

use crate::json::{Json, JsonView};
use crate::names::lemma_attribute_names;
use crate::schema::{
    lemma_reads_optional, lemma_reads_required, lemma_required_valid, optional, read_optional,
    read_required, required, wire_name, with_optional, with_required, write_optional,
    write_required, DecodeError, DecodeErrorView, Schema,
};
use crate::structs::common::{Image, ImageView};
use crate::timestamp::{Timestamp, TimestampView};
use vstd::prelude::*;

verus! {

/// The reply to a request for the seasons of a show: the seasons, and where
/// the list stands in the whole.
#[derive(Debug, PartialEq, Eq)]
pub struct Root {
    /// The entries of this page.
    pub data: Vec<Season>,
    /// The number of this page, from 1.
    pub page: Option<u16>,
    /// How many entries a page holds at most.
    pub per_page: Option<u16>,
    /// How many pages there are.
    pub total_pages: Option<u16>,
    /// How many entries there are on all pages together.
    pub total_results: Option<u32>,
}

/// The model of a [`Root`].
pub struct RootView {
    pub data: Seq<SeasonView>,
    pub page: Option<u16>,
    pub per_page: Option<u16>,
    pub total_pages: Option<u16>,
    pub total_results: Option<u32>,
}

impl DeepView for Root {
    type V = RootView;

    open spec fn deep_view(&self) -> RootView {
        RootView {
            data: self.data.deep_view(),
            page: self.page.deep_view(),
            per_page: self.per_page.deep_view(),
            total_pages: self.total_pages.deep_view(),
            total_results: self.total_results.deep_view(),
        }
    }
}

impl Schema for Root {
    open spec fn valid(value: RootView) -> bool {
        Vec::<Season>::valid(value.data)
    }

    #[verifier::opaque]
    open spec fn decoded(doc: JsonView) -> Result<RootView, DecodeErrorView> {
        let data = required::<Vec<Season>>(doc, "data"@);
        let page = optional::<u16>(doc, "page"@);
        let per_page = optional::<u16>(doc, "per_page"@);
        let total_pages = optional::<u16>(doc, "total_pages"@);
        let total_results = optional::<u32>(doc, "total_results"@);
        if data is Err {
            Err(data->Err_0)
        } else if page is Err {
            Err(page->Err_0)
        } else if per_page is Err {
            Err(per_page->Err_0)
        } else if total_pages is Err {
            Err(total_pages->Err_0)
        } else if total_results is Err {
            Err(total_results->Err_0)
        } else {
            Ok(
                RootView {
                    data: data->Ok_0,
                    page: page->Ok_0,
                    per_page: per_page->Ok_0,
                    total_pages: total_pages->Ok_0,
                    total_results: total_results->Ok_0,
                },
            )
        }
    }

    #[verifier::opaque]
    open spec fn encoded(value: RootView) -> JsonView {
        let members = Map::empty();
        let members = with_required::<Vec<Season>>(members, "data"@, value.data);
        let members = with_optional::<u16>(members, "page"@, value.page);
        let members = with_optional::<u16>(members, "per_page"@, value.per_page);
        let members = with_optional::<u16>(members, "total_pages"@, value.total_pages);
        let members = with_optional::<u32>(members, "total_results"@, value.total_results);
        JsonView::Object(members)
    }

    fn decode(doc: &Json) -> (result: Result<Root, DecodeError>) {
        proof {
            reveal(<Root as Schema>::decoded);
        }
        let data = read_required::<Vec<Season>>(doc, "data")?;
        let page = read_optional::<u16>(doc, "page")?;
        let per_page = read_optional::<u16>(doc, "per_page")?;
        let total_pages = read_optional::<u16>(doc, "total_pages")?;
        let total_results = read_optional::<u32>(doc, "total_results")?;
        Ok(Root { data, page, per_page, total_pages, total_results })
    }

    fn encode(&self) -> (doc: Json) {
        proof {
            reveal(<Root as Schema>::encoded);
        }
        let doc = Json::object();
        let doc = write_required(doc, "data", &self.data);
        let doc = write_optional(doc, "page", &self.page);
        let doc = write_optional(doc, "per_page", &self.per_page);
        let doc = write_optional(doc, "total_pages", &self.total_pages);
        let doc = write_optional(doc, "total_results", &self.total_results);
        doc
    }

    proof fn decoded_is_valid(doc: JsonView) {
        reveal(<Root as Schema>::decoded);
        lemma_required_valid::<Vec<Season>>(doc, "data"@);
    }

    proof fn encoded_decodes(value: RootView) {
        reveal(<Root as Schema>::decoded);
        reveal(<Root as Schema>::encoded);
        lemma_attribute_names();
        let members = Self::encoded(value)->Object_0;
        lemma_reads_required::<Vec<Season>>(members, "data"@, value.data);
        lemma_reads_optional::<u16>(members, "page"@, value.page);
        lemma_reads_optional::<u16>(members, "per_page"@, value.per_page);
        lemma_reads_optional::<u16>(members, "total_pages"@, value.total_pages);
        lemma_reads_optional::<u32>(members, "total_results"@, value.total_results);
    }
}

impl Root {
    /// Whether `attribute` is one that a document may leave out.
    pub open spec fn is_optional(attribute: Seq<char>) -> bool {
        attribute == "page"@
            || attribute == "per_page"@
            || attribute == "total_pages"@
            || attribute == "total_results"@
    }

    /// Whether `value` decodes as what the optional attribute `attribute`
    /// holds.
    pub open spec fn accepts(attribute: Seq<char>, value: JsonView) -> bool {
        if attribute == "page"@ {
            u16::decoded(value) is Ok
        } else if attribute == "per_page"@ {
            u16::decoded(value) is Ok
        } else if attribute == "total_pages"@ {
            u16::decoded(value) is Ok
        } else if attribute == "total_results"@ {
            u32::decoded(value) is Ok
        } else {
            false
        }
    }

    /// A document that decodes still decodes when an optional member is
    /// taken out of it.
    pub proof fn optional_may_be_absent(doc: JsonView, attribute: Seq<char>)
        requires
            Self::is_optional(attribute),
            Self::decoded(doc) is Ok,
        ensures
            Self::decoded(JsonView::Object(doc->Object_0.remove(wire_name(attribute)))) is Ok,
    {
        reveal(<Root as Schema>::decoded);
        reveal(required);
        reveal(optional);
        lemma_attribute_names();
    }

    /// A document that decodes still decodes when an optional member is
    /// set to a value that its attribute accepts.
    pub proof fn optional_may_be_present(
        doc: JsonView,
        attribute: Seq<char>,
        value: JsonView,
    )
        requires
            Self::is_optional(attribute),
            Self::accepts(attribute, value),
            Self::decoded(doc) is Ok,
        ensures
            Self::decoded(
                JsonView::Object(doc->Object_0.insert(wire_name(attribute), value)),
            ) is Ok,
    {
        reveal(<Root as Schema>::decoded);
        reveal(required);
        reveal(optional);
        lemma_attribute_names();
    }
}

/// A season. It belongs to the show that its attributes name.
#[derive(Debug, PartialEq, Eq)]
pub struct Season {
    /// The search index that served the entity; `_index` on the wire.
    pub index: String,
    /// Keys that the server sorted by. Not every reply carries them.
    pub sort: Option<Vec<u16>>,
    /// The number of the entity; later entities have larger ones.
    pub id: u32,
    /// What sort of entity this is; `type` on the wire.
    pub kind: String,
    /// The identifier of the entity; the catalogue gives each entity one of its own.
    pub uuid: String,
    pub attributes: Attributes,
    pub links: Links,
    pub included: Included,
}

/// The model of a [`Season`].
pub struct SeasonView {
    pub index: Seq<char>,
    pub sort: Option<Seq<u16>>,
    pub id: u32,
    pub kind: Seq<char>,
    pub uuid: Seq<char>,
    pub attributes: AttributesView,
    pub links: LinksView,
    pub included: IncludedView,
}

impl DeepView for Season {
    type V = SeasonView;

    open spec fn deep_view(&self) -> SeasonView {
        SeasonView {
            index: self.index@,
            sort: self.sort.deep_view(),
            id: self.id,
            kind: self.kind@,
            uuid: self.uuid@,
            attributes: self.attributes.deep_view(),
            links: self.links.deep_view(),
            included: self.included.deep_view(),
        }
    }
}

impl Schema for Season {
    open spec fn valid(value: SeasonView) -> bool {
        Attributes::valid(value.attributes)
    }

    #[verifier::opaque]
    open spec fn decoded(doc: JsonView) -> Result<SeasonView, DecodeErrorView> {
        let index = required::<String>(doc, "index"@);
        let sort = optional::<Vec<u16>>(doc, "sort"@);
        let id = required::<u32>(doc, "id"@);
        let kind = required::<String>(doc, "kind"@);
        let uuid = required::<String>(doc, "uuid"@);
        let attributes = required::<Attributes>(doc, "attributes"@);
        let links = required::<Links>(doc, "links"@);
        let included = required::<Included>(doc, "included"@);
        if index is Err {
            Err(index->Err_0)
        } else if sort is Err {
            Err(sort->Err_0)
        } else if id is Err {
            Err(id->Err_0)
        } else if kind is Err {
            Err(kind->Err_0)
        } else if uuid is Err {
            Err(uuid->Err_0)
        } else if attributes is Err {
            Err(attributes->Err_0)
        } else if links is Err {
            Err(links->Err_0)
        } else if included is Err {
            Err(included->Err_0)
        } else {
            Ok(
                SeasonView {
                    index: index->Ok_0,
                    sort: sort->Ok_0,
                    id: id->Ok_0,
                    kind: kind->Ok_0,
                    uuid: uuid->Ok_0,
                    attributes: attributes->Ok_0,
                    links: links->Ok_0,
                    included: included->Ok_0,
                },
            )
        }
    }

    #[verifier::opaque]
    open spec fn encoded(value: SeasonView) -> JsonView {
        let members = Map::empty();
        let members = with_required::<String>(members, "index"@, value.index);
        let members = with_optional::<Vec<u16>>(members, "sort"@, value.sort);
        let members = with_required::<u32>(members, "id"@, value.id);
        let members = with_required::<String>(members, "kind"@, value.kind);
        let members = with_required::<String>(members, "uuid"@, value.uuid);
        let members = with_required::<Attributes>(members, "attributes"@, value.attributes);
        let members = with_required::<Links>(members, "links"@, value.links);
        let members = with_required::<Included>(members, "included"@, value.included);
        JsonView::Object(members)
    }

    fn decode(doc: &Json) -> (result: Result<Season, DecodeError>) {
        proof {
            reveal(<Season as Schema>::decoded);
        }
        let index = read_required::<String>(doc, "index")?;
        let sort = read_optional::<Vec<u16>>(doc, "sort")?;
        let id = read_required::<u32>(doc, "id")?;
        let kind = read_required::<String>(doc, "kind")?;
        let uuid = read_required::<String>(doc, "uuid")?;
        let attributes = read_required::<Attributes>(doc, "attributes")?;
        let links = read_required::<Links>(doc, "links")?;
        let included = read_required::<Included>(doc, "included")?;
        Ok(Season { index, sort, id, kind, uuid, attributes, links, included })
    }

    fn encode(&self) -> (doc: Json) {
        proof {
            reveal(<Season as Schema>::encoded);
        }
        let doc = Json::object();
        let doc = write_required(doc, "index", &self.index);
        let doc = write_optional(doc, "sort", &self.sort);
        let doc = write_required(doc, "id", &self.id);
        let doc = write_required(doc, "kind", &self.kind);
        let doc = write_required(doc, "uuid", &self.uuid);
        let doc = write_required(doc, "attributes", &self.attributes);
        let doc = write_required(doc, "links", &self.links);
        let doc = write_required(doc, "included", &self.included);
        doc
    }

    proof fn decoded_is_valid(doc: JsonView) {
        reveal(<Season as Schema>::decoded);
        lemma_required_valid::<Attributes>(doc, "attributes"@);
    }

    proof fn encoded_decodes(value: SeasonView) {
        reveal(<Season as Schema>::decoded);
        reveal(<Season as Schema>::encoded);
        lemma_attribute_names();
        let members = Self::encoded(value)->Object_0;
        lemma_reads_required::<String>(members, "index"@, value.index);
        lemma_reads_optional::<Vec<u16>>(members, "sort"@, value.sort);
        lemma_reads_required::<u32>(members, "id"@, value.id);
        lemma_reads_required::<String>(members, "kind"@, value.kind);
        lemma_reads_required::<String>(members, "uuid"@, value.uuid);
        lemma_reads_required::<Attributes>(members, "attributes"@, value.attributes);
        lemma_reads_required::<Links>(members, "links"@, value.links);
        lemma_reads_required::<Included>(members, "included"@, value.included);
    }
}

impl Season {
    /// Whether `attribute` is one that a document may leave out.
    pub open spec fn is_optional(attribute: Seq<char>) -> bool {
        attribute == "sort"@
    }

    /// Whether `value` decodes as what the optional attribute `attribute`
    /// holds.
    pub open spec fn accepts(attribute: Seq<char>, value: JsonView) -> bool {
        if attribute == "sort"@ {
            Vec::<u16>::decoded(value) is Ok
        } else {
            false
        }
    }

    /// A document that decodes still decodes when an optional member is
    /// taken out of it.
    pub proof fn optional_may_be_absent(doc: JsonView, attribute: Seq<char>)
        requires
            Self::is_optional(attribute),
            Self::decoded(doc) is Ok,
        ensures
            Self::decoded(JsonView::Object(doc->Object_0.remove(wire_name(attribute)))) is Ok,
    {
        reveal(<Season as Schema>::decoded);
        reveal(required);
        reveal(optional);
        lemma_attribute_names();
    }

    /// A document that decodes still decodes when an optional member is
    /// set to a value that its attribute accepts.
    pub proof fn optional_may_be_present(
        doc: JsonView,
        attribute: Seq<char>,
        value: JsonView,
    )
        requires
            Self::is_optional(attribute),
            Self::accepts(attribute, value),
            Self::decoded(doc) is Ok,
        ensures
            Self::decoded(
                JsonView::Object(doc->Object_0.insert(wire_name(attribute), value)),
            ) is Ok,
    {
        reveal(<Season as Schema>::decoded);
        reveal(required);
        reveal(optional);
        lemma_attribute_names();
    }
}

/// What a season is called, which show it belongs to and who may watch it.
#[derive(Debug, PartialEq, Eq)]
pub struct Attributes {
    pub title: String,
    pub description: String,
    /// The name of the entity in addresses; the catalogue gives each entity of a
    /// kind one of its own.
    pub slug: String,
    /// The number of the season within its show, from 1.
    pub number: u16,
    /// The identifier of the show that the season belongs to.
    pub show_id: String,
    /// The slug of the show that the season belongs to.
    pub show_slug: String,
    pub episodes_available: EpisodesAvailable,
    /// When the season was published.
    pub published_at: Timestamp,
}

/// The model of an [`Attributes`].
pub struct AttributesView {
    pub title: Seq<char>,
    pub description: Seq<char>,
    pub slug: Seq<char>,
    pub number: u16,
    pub show_id: Seq<char>,
    pub show_slug: Seq<char>,
    pub episodes_available: EpisodesAvailableView,
    pub published_at: TimestampView,
}

impl DeepView for Attributes {
    type V = AttributesView;

    open spec fn deep_view(&self) -> AttributesView {
        AttributesView {
            title: self.title@,
            description: self.description@,
            slug: self.slug@,
            number: self.number,
            show_id: self.show_id@,
            show_slug: self.show_slug@,
            episodes_available: self.episodes_available.deep_view(),
            published_at: self.published_at.deep_view(),
        }
    }
}

impl Schema for Attributes {
    open spec fn valid(value: AttributesView) -> bool {
        Timestamp::valid(value.published_at)
    }

    #[verifier::opaque]
    open spec fn decoded(doc: JsonView) -> Result<AttributesView, DecodeErrorView> {
        let title = required::<String>(doc, "title"@);
        let description = required::<String>(doc, "description"@);
        let slug = required::<String>(doc, "slug"@);
        let number = required::<u16>(doc, "number"@);
        let show_id = required::<String>(doc, "show_id"@);
        let show_slug = required::<String>(doc, "show_slug"@);
        let episodes_available = required::<EpisodesAvailable>(doc, "episodes_available"@);
        let published_at = required::<Timestamp>(doc, "published_at"@);
        if title is Err {
            Err(title->Err_0)
        } else if description is Err {
            Err(description->Err_0)
        } else if slug is Err {
            Err(slug->Err_0)
        } else if number is Err {
            Err(number->Err_0)
        } else if show_id is Err {
            Err(show_id->Err_0)
        } else if show_slug is Err {
            Err(show_slug->Err_0)
        } else if episodes_available is Err {
            Err(episodes_available->Err_0)
        } else if published_at is Err {
            Err(published_at->Err_0)
        } else {
            Ok(
                AttributesView {
                    title: title->Ok_0,
                    description: description->Ok_0,
                    slug: slug->Ok_0,
                    number: number->Ok_0,
                    show_id: show_id->Ok_0,
                    show_slug: show_slug->Ok_0,
                    episodes_available: episodes_available->Ok_0,
                    published_at: published_at->Ok_0,
                },
            )
        }
    }

    #[verifier::opaque]
    open spec fn encoded(value: AttributesView) -> JsonView {
        let members = Map::empty();
        let members = with_required::<String>(members, "title"@, value.title);
        let members = with_required::<String>(members, "description"@, value.description);
        let members = with_required::<String>(members, "slug"@, value.slug);
        let members = with_required::<u16>(members, "number"@, value.number);
        let members = with_required::<String>(members, "show_id"@, value.show_id);
        let members = with_required::<String>(members, "show_slug"@, value.show_slug);
        let members = with_required::<EpisodesAvailable>(
            members,
            "episodes_available"@,
            value.episodes_available,
        );
        let members = with_required::<Timestamp>(members, "published_at"@, value.published_at);
        JsonView::Object(members)
    }

    fn decode(doc: &Json) -> (result: Result<Attributes, DecodeError>) {
        proof {
            reveal(<Attributes as Schema>::decoded);
        }
        let title = read_required::<String>(doc, "title")?;
        let description = read_required::<String>(doc, "description")?;
        let slug = read_required::<String>(doc, "slug")?;
        let number = read_required::<u16>(doc, "number")?;
        let show_id = read_required::<String>(doc, "show_id")?;
        let show_slug = read_required::<String>(doc, "show_slug")?;
        let episodes_available = read_required::<EpisodesAvailable>(doc, "episodes_available")?;
        let published_at = read_required::<Timestamp>(doc, "published_at")?;
        Ok(
            Attributes {
                title,
                description,
                slug,
                number,
                show_id,
                show_slug,
                episodes_available,
                published_at,
            },
        )
    }

    fn encode(&self) -> (doc: Json) {
        proof {
            reveal(<Attributes as Schema>::encoded);
        }
        let doc = Json::object();
        let doc = write_required(doc, "title", &self.title);
        let doc = write_required(doc, "description", &self.description);
        let doc = write_required(doc, "slug", &self.slug);
        let doc = write_required(doc, "number", &self.number);
        let doc = write_required(doc, "show_id", &self.show_id);
        let doc = write_required(doc, "show_slug", &self.show_slug);
        let doc = write_required(doc, "episodes_available", &self.episodes_available);
        let doc = write_required(doc, "published_at", &self.published_at);
        doc
    }

    proof fn decoded_is_valid(doc: JsonView) {
        reveal(<Attributes as Schema>::decoded);
        lemma_required_valid::<Timestamp>(doc, "published_at"@);
    }

    proof fn encoded_decodes(value: AttributesView) {
        reveal(<Attributes as Schema>::decoded);
        reveal(<Attributes as Schema>::encoded);
        lemma_attribute_names();
        let members = Self::encoded(value)->Object_0;
        lemma_reads_required::<String>(members, "title"@, value.title);
        lemma_reads_required::<String>(members, "description"@, value.description);
        lemma_reads_required::<String>(members, "slug"@, value.slug);
        lemma_reads_required::<u16>(members, "number"@, value.number);
        lemma_reads_required::<String>(members, "show_id"@, value.show_id);
        lemma_reads_required::<String>(members, "show_slug"@, value.show_slug);
        lemma_reads_required::<EpisodesAvailable>(
            members,
            "episodes_available"@,
            value.episodes_available,
        );
        lemma_reads_required::<Timestamp>(members, "published_at"@, value.published_at);
    }
}

/// Whether a season has episodes for each tier of viewers.
#[derive(Debug, PartialEq, Eq)]
pub struct EpisodesAvailable {
    /// Whether there are episodes for paying members.
    pub sponsor: bool,
    /// Whether there are episodes for registered members.
    pub member: bool,
    /// Whether there are episodes for everybody.
    pub public: bool,
}

/// The model of an [`EpisodesAvailable`].
pub struct EpisodesAvailableView {
    pub sponsor: bool,
    pub member: bool,
    pub public: bool,
}

impl DeepView for EpisodesAvailable {
    type V = EpisodesAvailableView;

    open spec fn deep_view(&self) -> EpisodesAvailableView {
        EpisodesAvailableView { sponsor: self.sponsor, member: self.member, public: self.public }
    }
}

impl Schema for EpisodesAvailable {
    open spec fn valid(value: EpisodesAvailableView) -> bool {
        true
    }

    #[verifier::opaque]
    open spec fn decoded(doc: JsonView) -> Result<EpisodesAvailableView, DecodeErrorView> {
        let sponsor = required::<bool>(doc, "sponsor"@);
        let member = required::<bool>(doc, "member"@);
        let public = required::<bool>(doc, "public"@);
        if sponsor is Err {
            Err(sponsor->Err_0)
        } else if member is Err {
            Err(member->Err_0)
        } else if public is Err {
            Err(public->Err_0)
        } else {
            Ok(
                EpisodesAvailableView {
                    sponsor: sponsor->Ok_0,
                    member: member->Ok_0,
                    public: public->Ok_0,
                },
            )
        }
    }

    #[verifier::opaque]
    open spec fn encoded(value: EpisodesAvailableView) -> JsonView {
        let members = Map::empty();
        let members = with_required::<bool>(members, "sponsor"@, value.sponsor);
        let members = with_required::<bool>(members, "member"@, value.member);
        let members = with_required::<bool>(members, "public"@, value.public);
        JsonView::Object(members)
    }

    fn decode(doc: &Json) -> (result: Result<EpisodesAvailable, DecodeError>) {
        proof {
            reveal(<EpisodesAvailable as Schema>::decoded);
        }
        let sponsor = read_required::<bool>(doc, "sponsor")?;
        let member = read_required::<bool>(doc, "member")?;
        let public = read_required::<bool>(doc, "public")?;
        Ok(EpisodesAvailable { sponsor, member, public })
    }

    fn encode(&self) -> (doc: Json) {
        proof {
            reveal(<EpisodesAvailable as Schema>::encoded);
        }
        let doc = Json::object();
        let doc = write_required(doc, "sponsor", &self.sponsor);
        let doc = write_required(doc, "member", &self.member);
        let doc = write_required(doc, "public", &self.public);
        doc
    }

    proof fn decoded_is_valid(doc: JsonView) {
    }

    proof fn encoded_decodes(value: EpisodesAvailableView) {
        reveal(<EpisodesAvailable as Schema>::decoded);
        reveal(<EpisodesAvailable as Schema>::encoded);
        lemma_attribute_names();
        let members = Self::encoded(value)->Object_0;
        lemma_reads_required::<bool>(members, "sponsor"@, value.sponsor);
        lemma_reads_required::<bool>(members, "member"@, value.member);
        lemma_reads_required::<bool>(members, "public"@, value.public);
    }
}

/// Where to ask for what belongs to a season.
#[derive(Debug, PartialEq, Eq)]
pub struct Links {
    /// The address of this entity itself; `self` on the wire.
    pub reference: String,
    pub episodes: String,
}

/// The model of a [`Links`].
pub struct LinksView {
    pub reference: Seq<char>,
    pub episodes: Seq<char>,
}

impl DeepView for Links {
    type V = LinksView;

    open spec fn deep_view(&self) -> LinksView {
        LinksView { reference: self.reference@, episodes: self.episodes@ }
    }
}

impl Schema for Links {
    open spec fn valid(value: LinksView) -> bool {
        true
    }

    #[verifier::opaque]
    open spec fn decoded(doc: JsonView) -> Result<LinksView, DecodeErrorView> {
        let reference = required::<String>(doc, "reference"@);
        let episodes = required::<String>(doc, "episodes"@);
        if reference is Err {
            Err(reference->Err_0)
        } else if episodes is Err {
            Err(episodes->Err_0)
        } else {
            Ok(LinksView { reference: reference->Ok_0, episodes: episodes->Ok_0 })
        }
    }

    #[verifier::opaque]
    open spec fn encoded(value: LinksView) -> JsonView {
        let members = Map::empty();
        let members = with_required::<String>(members, "reference"@, value.reference);
        let members = with_required::<String>(members, "episodes"@, value.episodes);
        JsonView::Object(members)
    }

    fn decode(doc: &Json) -> (result: Result<Links, DecodeError>) {
        proof {
            reveal(<Links as Schema>::decoded);
        }
        let reference = read_required::<String>(doc, "reference")?;
        let episodes = read_required::<String>(doc, "episodes")?;
        Ok(Links { reference, episodes })
    }

    fn encode(&self) -> (doc: Json) {
        proof {
            reveal(<Links as Schema>::encoded);
        }
        let doc = Json::object();
        let doc = write_required(doc, "reference", &self.reference);
        let doc = write_required(doc, "episodes", &self.episodes);
        doc
    }

    proof fn decoded_is_valid(doc: JsonView) {
    }

    proof fn encoded_decodes(value: LinksView) {
        reveal(<Links as Schema>::decoded);
        reveal(<Links as Schema>::encoded);
        lemma_attribute_names();
        let members = Self::encoded(value)->Object_0;
        lemma_reads_required::<String>(members, "reference"@, value.reference);
        lemma_reads_required::<String>(members, "episodes"@, value.episodes);
    }
}

/// Entities that come along with a season.
#[derive(Debug, PartialEq, Eq)]
pub struct Included {
    pub images: Vec<Image>,
}

/// The model of an [`Included`].
pub struct IncludedView {
    pub images: Seq<ImageView>,
}

impl DeepView for Included {
    type V = IncludedView;

    open spec fn deep_view(&self) -> IncludedView {
        IncludedView { images: self.images.deep_view() }
    }
}

impl Schema for Included {
    open spec fn valid(value: IncludedView) -> bool {
        true
    }

    #[verifier::opaque]
    open spec fn decoded(doc: JsonView) -> Result<IncludedView, DecodeErrorView> {
        let images = required::<Vec<Image>>(doc, "images"@);
        if images is Err {
            Err(images->Err_0)
        } else {
            Ok(IncludedView { images: images->Ok_0 })
        }
    }

    #[verifier::opaque]
    open spec fn encoded(value: IncludedView) -> JsonView {
        let members = Map::empty();
        let members = with_required::<Vec<Image>>(members, "images"@, value.images);
        JsonView::Object(members)
    }

    fn decode(doc: &Json) -> (result: Result<Included, DecodeError>) {
        proof {
            reveal(<Included as Schema>::decoded);
        }
        let images = read_required::<Vec<Image>>(doc, "images")?;
        Ok(Included { images })
    }

    fn encode(&self) -> (doc: Json) {
        proof {
            reveal(<Included as Schema>::encoded);
        }
        let doc = Json::object();
        let doc = write_required(doc, "images", &self.images);
        doc
    }

    proof fn decoded_is_valid(doc: JsonView) {
    }

    proof fn encoded_decodes(value: IncludedView) {
        reveal(<Included as Schema>::decoded);
        reveal(<Included as Schema>::encoded);
        lemma_attribute_names();
        let members = Self::encoded(value)->Object_0;
        lemma_reads_required::<Vec<Image>>(members, "images"@, value.images);
    }
}

} // verus!
