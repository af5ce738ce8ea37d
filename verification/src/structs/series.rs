//! Shows.

use crate::json::{Json, JsonView};
use crate::names::lemma_attribute_names;
use crate::schema::{
    lemma_reads_optional, lemma_reads_required, lemma_required_valid, optional, read_optional,
    read_required, required, wire_name, with_optional, with_required, write_optional,
    write_required, DecodeError, DecodeErrorView, Schema,
};
use crate::structs::common::{Image, ImageView};
use crate::timestamp::{Timestamp, TimestampView};
use vstd::prelude::*;

verus! {

/// The reply to a request for shows. A request for one show is answered in
/// the same form, without the page numbers.
#[derive(Debug, PartialEq, Eq)]
pub struct Root {
    /// The entries of this page.
    pub data: Vec<Series>,
    /// The number of this page, from 1.
    pub page: Option<u16>,
    /// How many entries a page holds at most.
    pub per_page: Option<u16>,
    /// How many pages there are.
    pub total_pages: Option<u16>,
    /// How many entries there are on all pages together.
    pub total_results: Option<u32>,
}

/// The model of a [`Root`].
pub struct RootView {
    pub data: Seq<SeriesView>,
    pub page: Option<u16>,
    pub per_page: Option<u16>,
    pub total_pages: Option<u16>,
    pub total_results: Option<u32>,
}

impl DeepView for Root {
    type V = RootView;

    open spec fn deep_view(&self) -> RootView {
        RootView {
            data: self.data.deep_view(),
            page: self.page.deep_view(),
            per_page: self.per_page.deep_view(),
            total_pages: self.total_pages.deep_view(),
            total_results: self.total_results.deep_view(),
        }
    }
}

impl Schema for Root {
    open spec fn valid(value: RootView) -> bool {
        Vec::<Series>::valid(value.data)
    }

    #[verifier::opaque]
    open spec fn decoded(doc: JsonView) -> Result<RootView, DecodeErrorView> {
        let data = required::<Vec<Series>>(doc, "data"@);
        let page = optional::<u16>(doc, "page"@);
        let per_page = optional::<u16>(doc, "per_page"@);
        let total_pages = optional::<u16>(doc, "total_pages"@);
        let total_results = optional::<u32>(doc, "total_results"@);
        if data is Err {
            Err(data->Err_0)
        } else if page is Err {
            Err(page->Err_0)
        } else if per_page is Err {
            Err(per_page->Err_0)
        } else if total_pages is Err {
            Err(total_pages->Err_0)
        } else if total_results is Err {
            Err(total_results->Err_0)
        } else {
            Ok(
                RootView {
                    data: data->Ok_0,
                    page: page->Ok_0,
                    per_page: per_page->Ok_0,
                    total_pages: total_pages->Ok_0,
                    total_results: total_results->Ok_0,
                },
            )
        }
    }

    #[verifier::opaque]
    open spec fn encoded(value: RootView) -> JsonView {
        let members = Map::empty();
        let members = with_required::<Vec<Series>>(members, "data"@, value.data);
        let members = with_optional::<u16>(members, "page"@, value.page);
        let members = with_optional::<u16>(members, "per_page"@, value.per_page);
        let members = with_optional::<u16>(members, "total_pages"@, value.total_pages);
        let members = with_optional::<u32>(members, "total_results"@, value.total_results);
        JsonView::Object(members)
    }

    fn decode(doc: &Json) -> (result: Result<Root, DecodeError>) {
        proof {
            reveal(<Root as Schema>::decoded);
        }
        let data = read_required::<Vec<Series>>(doc, "data")?;
        let page = read_optional::<u16>(doc, "page")?;
        let per_page = read_optional::<u16>(doc, "per_page")?;
        let total_pages = read_optional::<u16>(doc, "total_pages")?;
        let total_results = read_optional::<u32>(doc, "total_results")?;
        Ok(Root { data, page, per_page, total_pages, total_results })
    }

    fn encode(&self) -> (doc: Json) {
        proof {
            reveal(<Root as Schema>::encoded);
        }
        let doc = Json::object();
        let doc = write_required(doc, "data", &self.data);
        let doc = write_optional(doc, "page", &self.page);
        let doc = write_optional(doc, "per_page", &self.per_page);
        let doc = write_optional(doc, "total_pages", &self.total_pages);
        let doc = write_optional(doc, "total_results", &self.total_results);
        doc
    }

    proof fn decoded_is_valid(doc: JsonView) {
        reveal(<Root as Schema>::decoded);
        lemma_required_valid::<Vec<Series>>(doc, "data"@);
    }

    proof fn encoded_decodes(value: RootView) {
        reveal(<Root as Schema>::decoded);
        reveal(<Root as Schema>::encoded);
        lemma_attribute_names();
        let members = Self::encoded(value)->Object_0;
        lemma_reads_required::<Vec<Series>>(members, "data"@, value.data);
        lemma_reads_optional::<u16>(members, "page"@, value.page);
        lemma_reads_optional::<u16>(members, "per_page"@, value.per_page);
        lemma_reads_optional::<u16>(members, "total_pages"@, value.total_pages);
        lemma_reads_optional::<u32>(members, "total_results"@, value.total_results);
    }
}

impl Root {
    /// Whether `attribute` is one that a document may leave out.
    pub open spec fn is_optional(attribute: Seq<char>) -> bool {
        attribute == "page"@
            || attribute == "per_page"@
            || attribute == "total_pages"@
            || attribute == "total_results"@
    }

    /// Whether `value` decodes as what the optional attribute `attribute`
    /// holds.
    pub open spec fn accepts(attribute: Seq<char>, value: JsonView) -> bool {
        if attribute == "page"@ {
            u16::decoded(value) is Ok
        } else if attribute == "per_page"@ {
            u16::decoded(value) is Ok
        } else if attribute == "total_pages"@ {
            u16::decoded(value) is Ok
        } else if attribute == "total_results"@ {
            u32::decoded(value) is Ok
        } else {
            false
        }
    }

    /// A document that decodes still decodes when an optional member is
    /// taken out of it.
    pub proof fn optional_may_be_absent(doc: JsonView, attribute: Seq<char>)
        requires
            Self::is_optional(attribute),
            Self::decoded(doc) is Ok,
        ensures
            Self::decoded(JsonView::Object(doc->Object_0.remove(wire_name(attribute)))) is Ok,
    {
        reveal(<Root as Schema>::decoded);
        reveal(required);
        reveal(optional);
        lemma_attribute_names();
    }

    /// A document that decodes still decodes when an optional member is
    /// set to a value that its attribute accepts.
    pub proof fn optional_may_be_present(
        doc: JsonView,
        attribute: Seq<char>,
        value: JsonView,
    )
        requires
            Self::is_optional(attribute),
            Self::accepts(attribute, value),
            Self::decoded(doc) is Ok,
        ensures
            Self::decoded(
                JsonView::Object(doc->Object_0.insert(wire_name(attribute), value)),
            ) is Ok,
    {
        reveal(<Root as Schema>::decoded);
        reveal(required);
        reveal(optional);
        lemma_attribute_names();
    }
}

/// A show.
#[derive(Debug, PartialEq, Eq)]
pub struct Series {
    /// The search index that served the entity; `_index` on the wire.
    pub index: String,
    /// Keys that the server sorted by. Not every reply carries them.
    pub sort: Option<Vec<u64>>,
    /// The number of the entity; later entities have larger ones.
    pub id: u32,
    /// What sort of entity this is; `type` on the wire.
    pub kind: String,
    /// The identifier of the entity; the catalogue gives each entity one of its own.
    pub uuid: String,
    pub attributes: Attributes,
    pub links: Links,
    pub canonical_links: CanonicalLinks,
    pub included: Included,
}

/// The model of a [`Series`].
pub struct SeriesView {
    pub index: Seq<char>,
    pub sort: Option<Seq<u64>>,
    pub id: u32,
    pub kind: Seq<char>,
    pub uuid: Seq<char>,
    pub attributes: AttributesView,
    pub links: LinksView,
    pub canonical_links: CanonicalLinksView,
    pub included: IncludedView,
}

impl DeepView for Series {
    type V = SeriesView;

    open spec fn deep_view(&self) -> SeriesView {
        SeriesView {
            index: self.index@,
            sort: self.sort.deep_view(),
            id: self.id,
            kind: self.kind@,
            uuid: self.uuid@,
            attributes: self.attributes.deep_view(),
            links: self.links.deep_view(),
            canonical_links: self.canonical_links.deep_view(),
            included: self.included.deep_view(),
        }
    }
}

impl Schema for Series {
    open spec fn valid(value: SeriesView) -> bool {
        Attributes::valid(value.attributes)
    }

    #[verifier::opaque]
    open spec fn decoded(doc: JsonView) -> Result<SeriesView, DecodeErrorView> {
        let index = required::<String>(doc, "index"@);
        let sort = optional::<Vec<u64>>(doc, "sort"@);
        let id = required::<u32>(doc, "id"@);
        let kind = required::<String>(doc, "kind"@);
        let uuid = required::<String>(doc, "uuid"@);
        let attributes = required::<Attributes>(doc, "attributes"@);
        let links = required::<Links>(doc, "links"@);
        let canonical_links = required::<CanonicalLinks>(doc, "canonical_links"@);
        let included = required::<Included>(doc, "included"@);
        if index is Err {
            Err(index->Err_0)
        } else if sort is Err {
            Err(sort->Err_0)
        } else if id is Err {
            Err(id->Err_0)
        } else if kind is Err {
            Err(kind->Err_0)
        } else if uuid is Err {
            Err(uuid->Err_0)
        } else if attributes is Err {
            Err(attributes->Err_0)
        } else if links is Err {
            Err(links->Err_0)
        } else if canonical_links is Err {
            Err(canonical_links->Err_0)
        } else if included is Err {
            Err(included->Err_0)
        } else {
            Ok(
                SeriesView {
                    index: index->Ok_0,
                    sort: sort->Ok_0,
                    id: id->Ok_0,
                    kind: kind->Ok_0,
                    uuid: uuid->Ok_0,
                    attributes: attributes->Ok_0,
                    links: links->Ok_0,
                    canonical_links: canonical_links->Ok_0,
                    included: included->Ok_0,
                },
            )
        }
    }

    #[verifier::opaque]
    open spec fn encoded(value: SeriesView) -> JsonView {
        let members = Map::empty();
        let members = with_required::<String>(members, "index"@, value.index);
        let members = with_optional::<Vec<u64>>(members, "sort"@, value.sort);
        let members = with_required::<u32>(members, "id"@, value.id);
        let members = with_required::<String>(members, "kind"@, value.kind);
        let members = with_required::<String>(members, "uuid"@, value.uuid);
        let members = with_required::<Attributes>(members, "attributes"@, value.attributes);
        let members = with_required::<Links>(members, "links"@, value.links);
        let members = with_required::<CanonicalLinks>(
            members,
            "canonical_links"@,
            value.canonical_links,
        );
        let members = with_required::<Included>(members, "included"@, value.included);
        JsonView::Object(members)
    }

    fn decode(doc: &Json) -> (result: Result<Series, DecodeError>) {
        proof {
            reveal(<Series as Schema>::decoded);
        }
        let index = read_required::<String>(doc, "index")?;
        let sort = read_optional::<Vec<u64>>(doc, "sort")?;
        let id = read_required::<u32>(doc, "id")?;
        let kind = read_required::<String>(doc, "kind")?;
        let uuid = read_required::<String>(doc, "uuid")?;
        let attributes = read_required::<Attributes>(doc, "attributes")?;
        let links = read_required::<Links>(doc, "links")?;
        let canonical_links = read_required::<CanonicalLinks>(doc, "canonical_links")?;
        let included = read_required::<Included>(doc, "included")?;
        Ok(Series { index, sort, id, kind, uuid, attributes, links, canonical_links, included })
    }

    fn encode(&self) -> (doc: Json) {
        proof {
            reveal(<Series as Schema>::encoded);
        }
        let doc = Json::object();
        let doc = write_required(doc, "index", &self.index);
        let doc = write_optional(doc, "sort", &self.sort);
        let doc = write_required(doc, "id", &self.id);
        let doc = write_required(doc, "kind", &self.kind);
        let doc = write_required(doc, "uuid", &self.uuid);
        let doc = write_required(doc, "attributes", &self.attributes);
        let doc = write_required(doc, "links", &self.links);
        let doc = write_required(doc, "canonical_links", &self.canonical_links);
        let doc = write_required(doc, "included", &self.included);
        doc
    }

    proof fn decoded_is_valid(doc: JsonView) {
        reveal(<Series as Schema>::decoded);
        lemma_required_valid::<Attributes>(doc, "attributes"@);
    }

    proof fn encoded_decodes(value: SeriesView) {
        reveal(<Series as Schema>::decoded);
        reveal(<Series as Schema>::encoded);
        lemma_attribute_names();
        let members = Self::encoded(value)->Object_0;
        lemma_reads_required::<String>(members, "index"@, value.index);
        lemma_reads_optional::<Vec<u64>>(members, "sort"@, value.sort);
        lemma_reads_required::<u32>(members, "id"@, value.id);
        lemma_reads_required::<String>(members, "kind"@, value.kind);
        lemma_reads_required::<String>(members, "uuid"@, value.uuid);
        lemma_reads_required::<Attributes>(members, "attributes"@, value.attributes);
        lemma_reads_required::<Links>(members, "links"@, value.links);
        lemma_reads_required::<CanonicalLinks>(members, "canonical_links"@, value.canonical_links);
        lemma_reads_required::<Included>(members, "included"@, value.included);
    }
}

impl Series {
    /// Whether `attribute` is one that a document may leave out.
    pub open spec fn is_optional(attribute: Seq<char>) -> bool {
        attribute == "sort"@
    }

    /// Whether `value` decodes as what the optional attribute `attribute`
    /// holds.
    pub open spec fn accepts(attribute: Seq<char>, value: JsonView) -> bool {
        if attribute == "sort"@ {
            Vec::<u64>::decoded(value) is Ok
        } else {
            false
        }
    }

    /// A document that decodes still decodes when an optional member is
    /// taken out of it.
    pub proof fn optional_may_be_absent(doc: JsonView, attribute: Seq<char>)
        requires
            Self::is_optional(attribute),
            Self::decoded(doc) is Ok,
        ensures
            Self::decoded(JsonView::Object(doc->Object_0.remove(wire_name(attribute)))) is Ok,
    {
        reveal(<Series as Schema>::decoded);
        reveal(required);
        reveal(optional);
        lemma_attribute_names();
    }

    /// A document that decodes still decodes when an optional member is
    /// set to a value that its attribute accepts.
    pub proof fn optional_may_be_present(
        doc: JsonView,
        attribute: Seq<char>,
        value: JsonView,
    )
        requires
            Self::is_optional(attribute),
            Self::accepts(attribute, value),
            Self::decoded(doc) is Ok,
        ensures
            Self::decoded(
                JsonView::Object(doc->Object_0.insert(wire_name(attribute), value)),
            ) is Ok,
    {
        reveal(<Series as Schema>::decoded);
        reveal(required);
        reveal(optional);
        lemma_attribute_names();
    }
}

/// What a show is called, what it holds and how it is ordered.
#[derive(Debug, PartialEq, Eq)]
pub struct Attributes {
    pub title: String,
    /// The name of the entity in addresses; the catalogue gives each entity of a
    /// kind one of its own.
    pub slug: String,
    pub genres: Vec<String>,
    /// Whether only paying members may watch.
    pub is_sponsors_only: bool,
    /// When the show was last changed.
    pub updated_at: Timestamp,
    /// When the show was published.
    pub published_at: Timestamp,
    /// When the latest episode went live.
    pub last_episode_golive_at: Timestamp,
    pub summary: String,
    /// What sort of show this is, such as `episodic`.
    pub category: String,
    /// The identifier of the channel that publishes the show.
    pub channel_id: String,
    /// The slug of the channel that publishes the show.
    pub channel_slug: String,
    /// How many seasons the show has.
    pub season_count: u16,
    /// How many episodes the show has.
    pub episode_count: u32,
    /// How the show orders its seasons: `asc` or `desc`.
    pub season_order: String,
    /// How a season orders its episodes: `asc` or `desc`.
    pub episode_order: String,
    /// The countries where this may not be shown.
    pub blacklisted_countries: Vec<String>,
}

/// The model of an [`Attributes`].
pub struct AttributesView {
    pub title: Seq<char>,
    pub slug: Seq<char>,
    pub genres: Seq<Seq<char>>,
    pub is_sponsors_only: bool,
    pub updated_at: TimestampView,
    pub published_at: TimestampView,
    pub last_episode_golive_at: TimestampView,
    pub summary: Seq<char>,
    pub category: Seq<char>,
    pub channel_id: Seq<char>,
    pub channel_slug: Seq<char>,
    pub season_count: u16,
    pub episode_count: u32,
    pub season_order: Seq<char>,
    pub episode_order: Seq<char>,
    pub blacklisted_countries: Seq<Seq<char>>,
}

impl DeepView for Attributes {
    type V = AttributesView;

    open spec fn deep_view(&self) -> AttributesView {
        AttributesView {
            title: self.title@,
            slug: self.slug@,
            genres: self.genres.deep_view(),
            is_sponsors_only: self.is_sponsors_only,
            updated_at: self.updated_at.deep_view(),
            published_at: self.published_at.deep_view(),
            last_episode_golive_at: self.last_episode_golive_at.deep_view(),
            summary: self.summary@,
            category: self.category@,
            channel_id: self.channel_id@,
            channel_slug: self.channel_slug@,
            season_count: self.season_count,
            episode_count: self.episode_count,
            season_order: self.season_order@,
            episode_order: self.episode_order@,
            blacklisted_countries: self.blacklisted_countries.deep_view(),
        }
    }
}

impl Schema for Attributes {
    open spec fn valid(value: AttributesView) -> bool {
        &&& Timestamp::valid(value.updated_at)
        &&& Timestamp::valid(value.published_at)
        &&& Timestamp::valid(value.last_episode_golive_at)
    }

    #[verifier::opaque]
    open spec fn decoded(doc: JsonView) -> Result<AttributesView, DecodeErrorView> {
        let title = required::<String>(doc, "title"@);
        let slug = required::<String>(doc, "slug"@);
        let genres = required::<Vec<String>>(doc, "genres"@);
        let is_sponsors_only = required::<bool>(doc, "is_sponsors_only"@);
        let updated_at = required::<Timestamp>(doc, "updated_at"@);
        let published_at = required::<Timestamp>(doc, "published_at"@);
        let last_episode_golive_at = required::<Timestamp>(doc, "last_episode_golive_at"@);
        let summary = required::<String>(doc, "summary"@);
        let category = required::<String>(doc, "category"@);
        let channel_id = required::<String>(doc, "channel_id"@);
        let channel_slug = required::<String>(doc, "channel_slug"@);
        let season_count = required::<u16>(doc, "season_count"@);
        let episode_count = required::<u32>(doc, "episode_count"@);
        let season_order = required::<String>(doc, "season_order"@);
        let episode_order = required::<String>(doc, "episode_order"@);
        let blacklisted_countries = required::<Vec<String>>(doc, "blacklisted_countries"@);
        if title is Err {
            Err(title->Err_0)
        } else if slug is Err {
            Err(slug->Err_0)
        } else if genres is Err {
            Err(genres->Err_0)
        } else if is_sponsors_only is Err {
            Err(is_sponsors_only->Err_0)
        } else if updated_at is Err {
            Err(updated_at->Err_0)
        } else if published_at is Err {
            Err(published_at->Err_0)
        } else if last_episode_golive_at is Err {
            Err(last_episode_golive_at->Err_0)
        } else if summary is Err {
            Err(summary->Err_0)
        } else if category is Err {
            Err(category->Err_0)
        } else if channel_id is Err {
            Err(channel_id->Err_0)
        } else if channel_slug is Err {
            Err(channel_slug->Err_0)
        } else if season_count is Err {
            Err(season_count->Err_0)
        } else if episode_count is Err {
            Err(episode_count->Err_0)
        } else if season_order is Err {
            Err(season_order->Err_0)
        } else if episode_order is Err {
            Err(episode_order->Err_0)
        } else if blacklisted_countries is Err {
            Err(blacklisted_countries->Err_0)
        } else {
            Ok(
                AttributesView {
                    title: title->Ok_0,
                    slug: slug->Ok_0,
                    genres: genres->Ok_0,
                    is_sponsors_only: is_sponsors_only->Ok_0,
                    updated_at: updated_at->Ok_0,
                    published_at: published_at->Ok_0,
                    last_episode_golive_at: last_episode_golive_at->Ok_0,
                    summary: summary->Ok_0,
                    category: category->Ok_0,
                    channel_id: channel_id->Ok_0,
                    channel_slug: channel_slug->Ok_0,
                    season_count: season_count->Ok_0,
                    episode_count: episode_count->Ok_0,
                    season_order: season_order->Ok_0,
                    episode_order: episode_order->Ok_0,
                    blacklisted_countries: blacklisted_countries->Ok_0,
                },
            )
        }
    }

    #[verifier::opaque]
    open spec fn encoded(value: AttributesView) -> JsonView {
        let members = Map::empty();
        let members = with_required::<String>(members, "title"@, value.title);
        let members = with_required::<String>(members, "slug"@, value.slug);
        let members = with_required::<Vec<String>>(members, "genres"@, value.genres);
        let members = with_required::<bool>(members, "is_sponsors_only"@, value.is_sponsors_only);
        let members = with_required::<Timestamp>(members, "updated_at"@, value.updated_at);
        let members = with_required::<Timestamp>(members, "published_at"@, value.published_at);
        let members = with_required::<Timestamp>(
            members,
            "last_episode_golive_at"@,
            value.last_episode_golive_at,
        );
        let members = with_required::<String>(members, "summary"@, value.summary);
        let members = with_required::<String>(members, "category"@, value.category);
        let members = with_required::<String>(members, "channel_id"@, value.channel_id);
        let members = with_required::<String>(members, "channel_slug"@, value.channel_slug);
        let members = with_required::<u16>(members, "season_count"@, value.season_count);
        let members = with_required::<u32>(members, "episode_count"@, value.episode_count);
        let members = with_required::<String>(members, "season_order"@, value.season_order);
        let members = with_required::<String>(members, "episode_order"@, value.episode_order);
        let members = with_required::<Vec<String>>(
            members,
            "blacklisted_countries"@,
            value.blacklisted_countries,
        );
        JsonView::Object(members)
    }

    fn decode(doc: &Json) -> (result: Result<Attributes, DecodeError>) {
        proof {
            reveal(<Attributes as Schema>::decoded);
        }
        let title = read_required::<String>(doc, "title")?;
        let slug = read_required::<String>(doc, "slug")?;
        let genres = read_required::<Vec<String>>(doc, "genres")?;
        let is_sponsors_only = read_required::<bool>(doc, "is_sponsors_only")?;
        let updated_at = read_required::<Timestamp>(doc, "updated_at")?;
        let published_at = read_required::<Timestamp>(doc, "published_at")?;
        let last_episode_golive_at = read_required::<Timestamp>(doc, "last_episode_golive_at")?;
        let summary = read_required::<String>(doc, "summary")?;
        let category = read_required::<String>(doc, "category")?;
        let channel_id = read_required::<String>(doc, "channel_id")?;
        let channel_slug = read_required::<String>(doc, "channel_slug")?;
        let season_count = read_required::<u16>(doc, "season_count")?;
        let episode_count = read_required::<u32>(doc, "episode_count")?;
        let season_order = read_required::<String>(doc, "season_order")?;
        let episode_order = read_required::<String>(doc, "episode_order")?;
        let blacklisted_countries = read_required::<Vec<String>>(doc, "blacklisted_countries")?;
        Ok(
            Attributes {
                title,
                slug,
                genres,
                is_sponsors_only,
                updated_at,
                published_at,
                last_episode_golive_at,
                summary,
                category,
                channel_id,
                channel_slug,
                season_count,
                episode_count,
                season_order,
                episode_order,
                blacklisted_countries,
            },
        )
    }

    fn encode(&self) -> (doc: Json) {
        proof {
            reveal(<Attributes as Schema>::encoded);
        }
        let doc = Json::object();
        let doc = write_required(doc, "title", &self.title);
        let doc = write_required(doc, "slug", &self.slug);
        let doc = write_required(doc, "genres", &self.genres);
        let doc = write_required(doc, "is_sponsors_only", &self.is_sponsors_only);
        let doc = write_required(doc, "updated_at", &self.updated_at);
        let doc = write_required(doc, "published_at", &self.published_at);
        let doc = write_required(doc, "last_episode_golive_at", &self.last_episode_golive_at);
        let doc = write_required(doc, "summary", &self.summary);
        let doc = write_required(doc, "category", &self.category);
        let doc = write_required(doc, "channel_id", &self.channel_id);
        let doc = write_required(doc, "channel_slug", &self.channel_slug);
        let doc = write_required(doc, "season_count", &self.season_count);
        let doc = write_required(doc, "episode_count", &self.episode_count);
        let doc = write_required(doc, "season_order", &self.season_order);
        let doc = write_required(doc, "episode_order", &self.episode_order);
        let doc = write_required(doc, "blacklisted_countries", &self.blacklisted_countries);
        doc
    }

    proof fn decoded_is_valid(doc: JsonView) {
        reveal(<Attributes as Schema>::decoded);
        lemma_required_valid::<Timestamp>(doc, "updated_at"@);
        lemma_required_valid::<Timestamp>(doc, "published_at"@);
        lemma_required_valid::<Timestamp>(doc, "last_episode_golive_at"@);
    }

    proof fn encoded_decodes(value: AttributesView) {
        reveal(<Attributes as Schema>::decoded);
        reveal(<Attributes as Schema>::encoded);
        lemma_attribute_names();
        let members = Self::encoded(value)->Object_0;
        lemma_reads_required::<String>(members, "title"@, value.title);
        lemma_reads_required::<String>(members, "slug"@, value.slug);
        lemma_reads_required::<Vec<String>>(members, "genres"@, value.genres);
        lemma_reads_required::<bool>(members, "is_sponsors_only"@, value.is_sponsors_only);
        lemma_reads_required::<Timestamp>(members, "updated_at"@, value.updated_at);
        lemma_reads_required::<Timestamp>(members, "published_at"@, value.published_at);
        lemma_reads_required::<Timestamp>(
            members,
            "last_episode_golive_at"@,
            value.last_episode_golive_at,
        );
        lemma_reads_required::<String>(members, "summary"@, value.summary);
        lemma_reads_required::<String>(members, "category"@, value.category);
        lemma_reads_required::<String>(members, "channel_id"@, value.channel_id);
        lemma_reads_required::<String>(members, "channel_slug"@, value.channel_slug);
        lemma_reads_required::<u16>(members, "season_count"@, value.season_count);
        lemma_reads_required::<u32>(members, "episode_count"@, value.episode_count);
        lemma_reads_required::<String>(members, "season_order"@, value.season_order);
        lemma_reads_required::<String>(members, "episode_order"@, value.episode_order);
        lemma_reads_required::<Vec<String>>(
            members,
            "blacklisted_countries"@,
            value.blacklisted_countries,
        );
    }
}

/// Where to ask for what belongs to a show.
#[derive(Debug, PartialEq, Eq)]
pub struct Links {
    /// The address of this entity itself; `self` on the wire.
    pub reference: String,
    pub seasons: String,
    pub bonus_features: String,
    pub related: String,
    pub product_collections: String,
    pub latest_episode: String,
    /// The first episode of the first season.
    pub s1e1: String,
    /// The address of a rich card for the show. Not every show has one.
    pub rich_card_reference_url: Option<String>,
}

/// The model of a [`Links`].
pub struct LinksView {
    pub reference: Seq<char>,
    pub seasons: Seq<char>,
    pub bonus_features: Seq<char>,
    pub related: Seq<char>,
    pub product_collections: Seq<char>,
    pub latest_episode: Seq<char>,
    pub s1e1: Seq<char>,
    pub rich_card_reference_url: Option<Seq<char>>,
}

impl DeepView for Links {
    type V = LinksView;

    open spec fn deep_view(&self) -> LinksView {
        LinksView {
            reference: self.reference@,
            seasons: self.seasons@,
            bonus_features: self.bonus_features@,
            related: self.related@,
            product_collections: self.product_collections@,
            latest_episode: self.latest_episode@,
            s1e1: self.s1e1@,
            rich_card_reference_url: self.rich_card_reference_url.deep_view(),
        }
    }
}

impl Schema for Links {
    open spec fn valid(value: LinksView) -> bool {
        true
    }

    #[verifier::opaque]
    open spec fn decoded(doc: JsonView) -> Result<LinksView, DecodeErrorView> {
        let reference = required::<String>(doc, "reference"@);
        let seasons = required::<String>(doc, "seasons"@);
        let bonus_features = required::<String>(doc, "bonus_features"@);
        let related = required::<String>(doc, "related"@);
        let product_collections = required::<String>(doc, "product_collections"@);
        let latest_episode = required::<String>(doc, "latest_episode"@);
        let s1e1 = required::<String>(doc, "s1e1"@);
        let rich_card_reference_url = optional::<String>(doc, "rich_card_reference_url"@);
        if reference is Err {
            Err(reference->Err_0)
        } else if seasons is Err {
            Err(seasons->Err_0)
        } else if bonus_features is Err {
            Err(bonus_features->Err_0)
        } else if related is Err {
            Err(related->Err_0)
        } else if product_collections is Err {
            Err(product_collections->Err_0)
        } else if latest_episode is Err {
            Err(latest_episode->Err_0)
        } else if s1e1 is Err {
            Err(s1e1->Err_0)
        } else if rich_card_reference_url is Err {
            Err(rich_card_reference_url->Err_0)
        } else {
            Ok(
                LinksView {
                    reference: reference->Ok_0,
                    seasons: seasons->Ok_0,
                    bonus_features: bonus_features->Ok_0,
                    related: related->Ok_0,
                    product_collections: product_collections->Ok_0,
                    latest_episode: latest_episode->Ok_0,
                    s1e1: s1e1->Ok_0,
                    rich_card_reference_url: rich_card_reference_url->Ok_0,
                },
            )
        }
    }

    #[verifier::opaque]
    open spec fn encoded(value: LinksView) -> JsonView {
        let members = Map::empty();
        let members = with_required::<String>(members, "reference"@, value.reference);
        let members = with_required::<String>(members, "seasons"@, value.seasons);
        let members = with_required::<String>(members, "bonus_features"@, value.bonus_features);
        let members = with_required::<String>(members, "related"@, value.related);
        let members = with_required::<String>(
            members,
            "product_collections"@,
            value.product_collections,
        );
        let members = with_required::<String>(members, "latest_episode"@, value.latest_episode);
        let members = with_required::<String>(members, "s1e1"@, value.s1e1);
        let members = with_optional::<String>(
            members,
            "rich_card_reference_url"@,
            value.rich_card_reference_url,
        );
        JsonView::Object(members)
    }

    fn decode(doc: &Json) -> (result: Result<Links, DecodeError>) {
        proof {
            reveal(<Links as Schema>::decoded);
        }
        let reference = read_required::<String>(doc, "reference")?;
        let seasons = read_required::<String>(doc, "seasons")?;
        let bonus_features = read_required::<String>(doc, "bonus_features")?;
        let related = read_required::<String>(doc, "related")?;
        let product_collections = read_required::<String>(doc, "product_collections")?;
        let latest_episode = read_required::<String>(doc, "latest_episode")?;
        let s1e1 = read_required::<String>(doc, "s1e1")?;
        let rich_card_reference_url = read_optional::<String>(doc, "rich_card_reference_url")?;
        Ok(
            Links {
                reference,
                seasons,
                bonus_features,
                related,
                product_collections,
                latest_episode,
                s1e1,
                rich_card_reference_url,
            },
        )
    }

    fn encode(&self) -> (doc: Json) {
        proof {
            reveal(<Links as Schema>::encoded);
        }
        let doc = Json::object();
        let doc = write_required(doc, "reference", &self.reference);
        let doc = write_required(doc, "seasons", &self.seasons);
        let doc = write_required(doc, "bonus_features", &self.bonus_features);
        let doc = write_required(doc, "related", &self.related);
        let doc = write_required(doc, "product_collections", &self.product_collections);
        let doc = write_required(doc, "latest_episode", &self.latest_episode);
        let doc = write_required(doc, "s1e1", &self.s1e1);
        let doc = write_optional(doc, "rich_card_reference_url", &self.rich_card_reference_url);
        doc
    }

    proof fn decoded_is_valid(doc: JsonView) {
    }

    proof fn encoded_decodes(value: LinksView) {
        reveal(<Links as Schema>::decoded);
        reveal(<Links as Schema>::encoded);
        lemma_attribute_names();
        let members = Self::encoded(value)->Object_0;
        lemma_reads_required::<String>(members, "reference"@, value.reference);
        lemma_reads_required::<String>(members, "seasons"@, value.seasons);
        lemma_reads_required::<String>(members, "bonus_features"@, value.bonus_features);
        lemma_reads_required::<String>(members, "related"@, value.related);
        lemma_reads_required::<String>(members, "product_collections"@, value.product_collections);
        lemma_reads_required::<String>(members, "latest_episode"@, value.latest_episode);
        lemma_reads_required::<String>(members, "s1e1"@, value.s1e1);
        lemma_reads_optional::<String>(
            members,
            "rich_card_reference_url"@,
            value.rich_card_reference_url,
        );
    }
}

impl Links {
    /// Whether `attribute` is one that a document may leave out.
    pub open spec fn is_optional(attribute: Seq<char>) -> bool {
        attribute == "rich_card_reference_url"@
    }

    /// Whether `value` decodes as what the optional attribute `attribute`
    /// holds.
    pub open spec fn accepts(attribute: Seq<char>, value: JsonView) -> bool {
        if attribute == "rich_card_reference_url"@ {
            String::decoded(value) is Ok
        } else {
            false
        }
    }

    /// A document that decodes still decodes when an optional member is
    /// taken out of it.
    pub proof fn optional_may_be_absent(doc: JsonView, attribute: Seq<char>)
        requires
            Self::is_optional(attribute),
            Self::decoded(doc) is Ok,
        ensures
            Self::decoded(JsonView::Object(doc->Object_0.remove(wire_name(attribute)))) is Ok,
    {
        reveal(<Links as Schema>::decoded);
        reveal(required);
        reveal(optional);
        lemma_attribute_names();
    }

    /// A document that decodes still decodes when an optional member is
    /// set to a value that its attribute accepts.
    pub proof fn optional_may_be_present(
        doc: JsonView,
        attribute: Seq<char>,
        value: JsonView,
    )
        requires
            Self::is_optional(attribute),
            Self::accepts(attribute, value),
            Self::decoded(doc) is Ok,
        ensures
            Self::decoded(
                JsonView::Object(doc->Object_0.insert(wire_name(attribute), value)),
            ) is Ok,
    {
        reveal(<Links as Schema>::decoded);
        reveal(required);
        reveal(optional);
        lemma_attribute_names();
    }
}

/// The pages of the public site that present a show.
#[derive(Debug, PartialEq, Eq)]
pub struct CanonicalLinks {
    /// The address of this entity itself; `self` on the wire.
    pub reference: String,
    /// The first episode of the first season.
    pub s1e1: String,
}

/// The model of a [`CanonicalLinks`].
pub struct CanonicalLinksView {
    pub reference: Seq<char>,
    pub s1e1: Seq<char>,
}

impl DeepView for CanonicalLinks {
    type V = CanonicalLinksView;

    open spec fn deep_view(&self) -> CanonicalLinksView {
        CanonicalLinksView { reference: self.reference@, s1e1: self.s1e1@ }
    }
}

impl Schema for CanonicalLinks {
    open spec fn valid(value: CanonicalLinksView) -> bool {
        true
    }

    #[verifier::opaque]
    open spec fn decoded(doc: JsonView) -> Result<CanonicalLinksView, DecodeErrorView> {
        let reference = required::<String>(doc, "reference"@);
        let s1e1 = required::<String>(doc, "s1e1"@);
        if reference is Err {
            Err(reference->Err_0)
        } else if s1e1 is Err {
            Err(s1e1->Err_0)
        } else {
            Ok(CanonicalLinksView { reference: reference->Ok_0, s1e1: s1e1->Ok_0 })
        }
    }

    #[verifier::opaque]
    open spec fn encoded(value: CanonicalLinksView) -> JsonView {
        let members = Map::empty();
        let members = with_required::<String>(members, "reference"@, value.reference);
        let members = with_required::<String>(members, "s1e1"@, value.s1e1);
        JsonView::Object(members)
    }

    fn decode(doc: &Json) -> (result: Result<CanonicalLinks, DecodeError>) {
        proof {
            reveal(<CanonicalLinks as Schema>::decoded);
        }
        let reference = read_required::<String>(doc, "reference")?;
        let s1e1 = read_required::<String>(doc, "s1e1")?;
        Ok(CanonicalLinks { reference, s1e1 })
    }

    fn encode(&self) -> (doc: Json) {
        proof {
            reveal(<CanonicalLinks as Schema>::encoded);
        }
        let doc = Json::object();
        let doc = write_required(doc, "reference", &self.reference);
        let doc = write_required(doc, "s1e1", &self.s1e1);
        doc
    }

    proof fn decoded_is_valid(doc: JsonView) {
    }

    proof fn encoded_decodes(value: CanonicalLinksView) {
        reveal(<CanonicalLinks as Schema>::decoded);
        reveal(<CanonicalLinks as Schema>::encoded);
        lemma_attribute_names();
        let members = Self::encoded(value)->Object_0;
        lemma_reads_required::<String>(members, "reference"@, value.reference);
        lemma_reads_required::<String>(members, "s1e1"@, value.s1e1);
    }
}

/// Entities that come along with a show.
#[derive(Debug, PartialEq, Eq)]
pub struct Included {
    pub images: Vec<Image>,
}

/// The model of an [`Included`].
pub struct IncludedView {
    pub images: Seq<ImageView>,
}

impl DeepView for Included {
    type V = IncludedView;

    open spec fn deep_view(&self) -> IncludedView {
        IncludedView { images: self.images.deep_view() }
    }
}

impl Schema for Included {
    open spec fn valid(value: IncludedView) -> bool {
        true
    }

    #[verifier::opaque]
    open spec fn decoded(doc: JsonView) -> Result<IncludedView, DecodeErrorView> {
        let images = required::<Vec<Image>>(doc, "images"@);
        if images is Err {
            Err(images->Err_0)
        } else {
            Ok(IncludedView { images: images->Ok_0 })
        }
    }

    #[verifier::opaque]
    open spec fn encoded(value: IncludedView) -> JsonView {
        let members = Map::empty();
        let members = with_required::<Vec<Image>>(members, "images"@, value.images);
        JsonView::Object(members)
    }

    fn decode(doc: &Json) -> (result: Result<Included, DecodeError>) {
        proof {
            reveal(<Included as Schema>::decoded);
        }
        let images = read_required::<Vec<Image>>(doc, "images")?;
        Ok(Included { images })
    }

    fn encode(&self) -> (doc: Json) {
        proof {
            reveal(<Included as Schema>::encoded);
        }
        let doc = Json::object();
        let doc = write_required(doc, "images", &self.images);
        doc
    }

    proof fn decoded_is_valid(doc: JsonView) {
    }

    proof fn encoded_decodes(value: IncludedView) {
        reveal(<Included as Schema>::decoded);
        reveal(<Included as Schema>::encoded);
        lemma_attribute_names();
        let members = Self::encoded(value)->Object_0;
        lemma_reads_required::<Vec<Image>>(members, "images"@, value.images);
    }
}

} // verus!
