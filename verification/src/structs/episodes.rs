//! Episodes, with their tags and cast.

use crate::json::{Json, JsonView};
use crate::names::lemma_attribute_names;
use crate::schema::{
    lemma_reads_optional, lemma_reads_required, lemma_required_valid, optional, read_optional,
    read_required, required, wire_name, with_optional, with_required, write_optional,
    write_required, DecodeError, DecodeErrorView, Schema,
};
use crate::structs::common::{Image, ImageView};
use crate::timestamp::{Timestamp, TimestampView};
use vstd::prelude::*;

verus! {

/// The reply to a request for episodes. A request for one episode is
/// answered in the same form, without the page numbers.
#[derive(Debug, PartialEq, Eq)]
pub struct Root {
    /// The entries of this page.
    pub data: Vec<Episode>,
    /// The number of this page, from 1.
    pub page: Option<u16>,
    /// How many entries a page holds at most.
    pub per_page: Option<u16>,
    /// How many pages there are.
    pub total_pages: Option<u16>,
    /// How many entries there are on all pages together.
    pub total_results: Option<u32>,
}

/// The model of a [`Root`].
pub struct RootView {
    pub data: Seq<EpisodeView>,
    pub page: Option<u16>,
    pub per_page: Option<u16>,
    pub total_pages: Option<u16>,
    pub total_results: Option<u32>,
}

impl DeepView for Root {
    type V = RootView;

    open spec fn deep_view(&self) -> RootView {
        RootView {
            data: self.data.deep_view(),
            page: self.page.deep_view(),
            per_page: self.per_page.deep_view(),
            total_pages: self.total_pages.deep_view(),
            total_results: self.total_results.deep_view(),
        }
    }
}

impl Schema for Root {
    open spec fn valid(value: RootView) -> bool {
        Vec::<Episode>::valid(value.data)
    }

    #[verifier::opaque]
    open spec fn decoded(doc: JsonView) -> Result<RootView, DecodeErrorView> {
        let data = required::<Vec<Episode>>(doc, "data"@);
        let page = optional::<u16>(doc, "page"@);
        let per_page = optional::<u16>(doc, "per_page"@);
        let total_pages = optional::<u16>(doc, "total_pages"@);
        let total_results = optional::<u32>(doc, "total_results"@);
        if data is Err {
            Err(data->Err_0)
        } else if page is Err {
            Err(page->Err_0)
        } else if per_page is Err {
            Err(per_page->Err_0)
        } else if total_pages is Err {
            Err(total_pages->Err_0)
        } else if total_results is Err {
            Err(total_results->Err_0)
        } else {
            Ok(
                RootView {
                    data: data->Ok_0,
                    page: page->Ok_0,
                    per_page: per_page->Ok_0,
                    total_pages: total_pages->Ok_0,
                    total_results: total_results->Ok_0,
                },
            )
        }
    }

    #[verifier::opaque]
    open spec fn encoded(value: RootView) -> JsonView {
        let members = Map::empty();
        let members = with_required::<Vec<Episode>>(members, "data"@, value.data);
        let members = with_optional::<u16>(members, "page"@, value.page);
        let members = with_optional::<u16>(members, "per_page"@, value.per_page);
        let members = with_optional::<u16>(members, "total_pages"@, value.total_pages);
        let members = with_optional::<u32>(members, "total_results"@, value.total_results);
        JsonView::Object(members)
    }

    fn decode(doc: &Json) -> (result: Result<Root, DecodeError>) {
        proof {
            reveal(<Root as Schema>::decoded);
        }
        let data = read_required::<Vec<Episode>>(doc, "data")?;
        let page = read_optional::<u16>(doc, "page")?;
        let per_page = read_optional::<u16>(doc, "per_page")?;
        let total_pages = read_optional::<u16>(doc, "total_pages")?;
        let total_results = read_optional::<u32>(doc, "total_results")?;
        Ok(Root { data, page, per_page, total_pages, total_results })
    }

    fn encode(&self) -> (doc: Json) {
        proof {
            reveal(<Root as Schema>::encoded);
        }
        let doc = Json::object();
        let doc = write_required(doc, "data", &self.data);
        let doc = write_optional(doc, "page", &self.page);
        let doc = write_optional(doc, "per_page", &self.per_page);
        let doc = write_optional(doc, "total_pages", &self.total_pages);
        let doc = write_optional(doc, "total_results", &self.total_results);
        doc
    }

    proof fn decoded_is_valid(doc: JsonView) {
        reveal(<Root as Schema>::decoded);
        lemma_required_valid::<Vec<Episode>>(doc, "data"@);
    }

    proof fn encoded_decodes(value: RootView) {
        reveal(<Root as Schema>::decoded);
        reveal(<Root as Schema>::encoded);
        lemma_attribute_names();
        let members = Self::encoded(value)->Object_0;
        lemma_reads_required::<Vec<Episode>>(members, "data"@, value.data);
        lemma_reads_optional::<u16>(members, "page"@, value.page);
        lemma_reads_optional::<u16>(members, "per_page"@, value.per_page);
        lemma_reads_optional::<u16>(members, "total_pages"@, value.total_pages);
        lemma_reads_optional::<u32>(members, "total_results"@, value.total_results);
    }
}

impl Root {
    /// Whether `attribute` is one that a document may leave out.
    pub open spec fn is_optional(attribute: Seq<char>) -> bool {
        attribute == "page"@
            || attribute == "per_page"@
            || attribute == "total_pages"@
            || attribute == "total_results"@
    }

    /// Whether `value` decodes as what the optional attribute `attribute`
    /// holds.
    pub open spec fn accepts(attribute: Seq<char>, value: JsonView) -> bool {
        if attribute == "page"@ {
            u16::decoded(value) is Ok
        } else if attribute == "per_page"@ {
            u16::decoded(value) is Ok
        } else if attribute == "total_pages"@ {
            u16::decoded(value) is Ok
        } else if attribute == "total_results"@ {
            u32::decoded(value) is Ok
        } else {
            false
        }
    }

    /// A document that decodes still decodes when an optional member is
    /// taken out of it.
    pub proof fn optional_may_be_absent(doc: JsonView, attribute: Seq<char>)
        requires
            Self::is_optional(attribute),
            Self::decoded(doc) is Ok,
        ensures
            Self::decoded(JsonView::Object(doc->Object_0.remove(wire_name(attribute)))) is Ok,
    {
        reveal(<Root as Schema>::decoded);
        reveal(required);
        reveal(optional);
        lemma_attribute_names();
    }

    /// A document that decodes still decodes when an optional member is
    /// set to a value that its attribute accepts.
    pub proof fn optional_may_be_present(
        doc: JsonView,
        attribute: Seq<char>,
        value: JsonView,
    )
        requires
            Self::is_optional(attribute),
            Self::accepts(attribute, value),
            Self::decoded(doc) is Ok,
        ensures
            Self::decoded(
                JsonView::Object(doc->Object_0.insert(wire_name(attribute), value)),
            ) is Ok,
    {
        reveal(<Root as Schema>::decoded);
        reveal(required);
        reveal(optional);
        lemma_attribute_names();
    }
}

/// An episode. It belongs to the season, and through it to the show, that
/// its attributes name.
#[derive(Debug, PartialEq, Eq)]
pub struct Episode {
    /// The search index that served the entity; `_index` on the wire.
    pub index: String,
    /// Keys that the server sorted by. Not every reply carries them.
    pub sort: Option<Vec<u64>>,
    /// The number of the entity; later entities have larger ones.
    pub id: u32,
    /// What sort of entity this is; `type` on the wire.
    pub kind: String,
    /// The identifier of the entity; the catalogue gives each entity one of its own.
    pub uuid: String,
    pub attributes: Attributes,
    pub links: Links,
    pub canonical_links: CanonicalLinks,
    pub included: Included,
}

/// The model of an [`Episode`].
pub struct EpisodeView {
    pub index: Seq<char>,
    pub sort: Option<Seq<u64>>,
    pub id: u32,
    pub kind: Seq<char>,
    pub uuid: Seq<char>,
    pub attributes: AttributesView,
    pub links: LinksView,
    pub canonical_links: CanonicalLinksView,
    pub included: IncludedView,
}

impl DeepView for Episode {
    type V = EpisodeView;

    open spec fn deep_view(&self) -> EpisodeView {
        EpisodeView {
            index: self.index@,
            sort: self.sort.deep_view(),
            id: self.id,
            kind: self.kind@,
            uuid: self.uuid@,
            attributes: self.attributes.deep_view(),
            links: self.links.deep_view(),
            canonical_links: self.canonical_links.deep_view(),
            included: self.included.deep_view(),
        }
    }
}

impl Schema for Episode {
    open spec fn valid(value: EpisodeView) -> bool {
        Attributes::valid(value.attributes)
    }

    #[verifier::opaque]
    open spec fn decoded(doc: JsonView) -> Result<EpisodeView, DecodeErrorView> {
        let index = required::<String>(doc, "index"@);
        let sort = optional::<Vec<u64>>(doc, "sort"@);
        let id = required::<u32>(doc, "id"@);
        let kind = required::<String>(doc, "kind"@);
        let uuid = required::<String>(doc, "uuid"@);
        let attributes = required::<Attributes>(doc, "attributes"@);
        let links = required::<Links>(doc, "links"@);
        let canonical_links = required::<CanonicalLinks>(doc, "canonical_links"@);
        let included = required::<Included>(doc, "included"@);
        if index is Err {
            Err(index->Err_0)
        } else if sort is Err {
            Err(sort->Err_0)
        } else if id is Err {
            Err(id->Err_0)
        } else if kind is Err {
            Err(kind->Err_0)
        } else if uuid is Err {
            Err(uuid->Err_0)
        } else if attributes is Err {
            Err(attributes->Err_0)
        } else if links is Err {
            Err(links->Err_0)
        } else if canonical_links is Err {
            Err(canonical_links->Err_0)
        } else if included is Err {
            Err(included->Err_0)
        } else {
            Ok(
                EpisodeView {
                    index: index->Ok_0,
                    sort: sort->Ok_0,
                    id: id->Ok_0,
                    kind: kind->Ok_0,
                    uuid: uuid->Ok_0,
                    attributes: attributes->Ok_0,
                    links: links->Ok_0,
                    canonical_links: canonical_links->Ok_0,
                    included: included->Ok_0,
                },
            )
        }
    }

    #[verifier::opaque]
    open spec fn encoded(value: EpisodeView) -> JsonView {
        let members = Map::empty();
        let members = with_required::<String>(members, "index"@, value.index);
        let members = with_optional::<Vec<u64>>(members, "sort"@, value.sort);
        let members = with_required::<u32>(members, "id"@, value.id);
        let members = with_required::<String>(members, "kind"@, value.kind);
        let members = with_required::<String>(members, "uuid"@, value.uuid);
        let members = with_required::<Attributes>(members, "attributes"@, value.attributes);
        let members = with_required::<Links>(members, "links"@, value.links);
        let members = with_required::<CanonicalLinks>(
            members,
            "canonical_links"@,
            value.canonical_links,
        );
        let members = with_required::<Included>(members, "included"@, value.included);
        JsonView::Object(members)
    }

    fn decode(doc: &Json) -> (result: Result<Episode, DecodeError>) {
        proof {
            reveal(<Episode as Schema>::decoded);
        }
        let index = read_required::<String>(doc, "index")?;
        let sort = read_optional::<Vec<u64>>(doc, "sort")?;
        let id = read_required::<u32>(doc, "id")?;
        let kind = read_required::<String>(doc, "kind")?;
        let uuid = read_required::<String>(doc, "uuid")?;
        let attributes = read_required::<Attributes>(doc, "attributes")?;
        let links = read_required::<Links>(doc, "links")?;
        let canonical_links = read_required::<CanonicalLinks>(doc, "canonical_links")?;
        let included = read_required::<Included>(doc, "included")?;
        Ok(Episode { index, sort, id, kind, uuid, attributes, links, canonical_links, included })
    }

    fn encode(&self) -> (doc: Json) {
        proof {
            reveal(<Episode as Schema>::encoded);
        }
        let doc = Json::object();
        let doc = write_required(doc, "index", &self.index);
        let doc = write_optional(doc, "sort", &self.sort);
        let doc = write_required(doc, "id", &self.id);
        let doc = write_required(doc, "kind", &self.kind);
        let doc = write_required(doc, "uuid", &self.uuid);
        let doc = write_required(doc, "attributes", &self.attributes);
        let doc = write_required(doc, "links", &self.links);
        let doc = write_required(doc, "canonical_links", &self.canonical_links);
        let doc = write_required(doc, "included", &self.included);
        doc
    }

    proof fn decoded_is_valid(doc: JsonView) {
        reveal(<Episode as Schema>::decoded);
        lemma_required_valid::<Attributes>(doc, "attributes"@);
    }

    proof fn encoded_decodes(value: EpisodeView) {
        reveal(<Episode as Schema>::decoded);
        reveal(<Episode as Schema>::encoded);
        lemma_attribute_names();
        let members = Self::encoded(value)->Object_0;
        lemma_reads_required::<String>(members, "index"@, value.index);
        lemma_reads_optional::<Vec<u64>>(members, "sort"@, value.sort);
        lemma_reads_required::<u32>(members, "id"@, value.id);
        lemma_reads_required::<String>(members, "kind"@, value.kind);
        lemma_reads_required::<String>(members, "uuid"@, value.uuid);
        lemma_reads_required::<Attributes>(members, "attributes"@, value.attributes);
        lemma_reads_required::<Links>(members, "links"@, value.links);
        lemma_reads_required::<CanonicalLinks>(members, "canonical_links"@, value.canonical_links);
        lemma_reads_required::<Included>(members, "included"@, value.included);
    }
}

impl Episode {
    /// Whether `attribute` is one that a document may leave out.
    pub open spec fn is_optional(attribute: Seq<char>) -> bool {
        attribute == "sort"@
    }

    /// Whether `value` decodes as what the optional attribute `attribute`
    /// holds.
    pub open spec fn accepts(attribute: Seq<char>, value: JsonView) -> bool {
        if attribute == "sort"@ {
            Vec::<u64>::decoded(value) is Ok
        } else {
            false
        }
    }

    /// A document that decodes still decodes when an optional member is
    /// taken out of it.
    pub proof fn optional_may_be_absent(doc: JsonView, attribute: Seq<char>)
        requires
            Self::is_optional(attribute),
            Self::decoded(doc) is Ok,
        ensures
            Self::decoded(JsonView::Object(doc->Object_0.remove(wire_name(attribute)))) is Ok,
    {
        reveal(<Episode as Schema>::decoded);
        reveal(required);
        reveal(optional);
        lemma_attribute_names();
    }

    /// A document that decodes still decodes when an optional member is
    /// set to a value that its attribute accepts.
    pub proof fn optional_may_be_present(
        doc: JsonView,
        attribute: Seq<char>,
        value: JsonView,
    )
        requires
            Self::is_optional(attribute),
            Self::accepts(attribute, value),
            Self::decoded(doc) is Ok,
        ensures
            Self::decoded(
                JsonView::Object(doc->Object_0.insert(wire_name(attribute), value)),
            ) is Ok,
    {
        reveal(<Episode as Schema>::decoded);
        reveal(required);
        reveal(optional);
        lemma_attribute_names();
    }
}

/// What an episode is called, where it belongs, when it goes live for each
/// tier of viewers and how it is advertised.
#[derive(Debug, PartialEq, Eq)]
pub struct Attributes {
    /// The title, such as `Episode 1: Why Are We Here?`.
    pub title: String,
    /// The name of the entity in addresses; the catalogue gives each entity of a
    /// kind one of its own.
    pub slug: String,
    /// The title without the number, such as `Why Are We Here?`.
    pub caption: String,
    /// The number of the episode within its season, from 1.
    pub number: u16,
    pub description: String,
    /// The title as lists show it, such as `S1:E1 - Episode 1: Why Are We Here?`.
    pub display_title: String,
    /// The running time in seconds.
    pub length: u32,
    /// Which set of advertising rules applies.
    pub advert_config: String,
    /// Whether advertising is shown with the episode.
    pub advertising: bool,
    /// The places where advertising may be cut in, in seconds, separated by
    /// commas. Not every episode has them.
    pub ad_timestamps: Option<String>,
    /// When this goes live for everybody.
    pub public_golive_at: Timestamp,
    /// When this goes live for paying members.
    pub sponsor_golive_at: Timestamp,
    /// When this goes live for registered members.
    pub member_golive_at: Timestamp,
    /// When the episode was first shown.
    pub original_air_date: Timestamp,
    /// The identifier of the channel that publishes the episode.
    pub channel_id: String,
    /// The slug of the channel that publishes the episode.
    pub channel_slug: String,
    /// The identifier of the season that the episode belongs to.
    pub season_id: String,
    /// The slug of the season that the episode belongs to.
    pub season_slug: String,
    /// The number of that season within its show.
    pub season_number: u16,
    /// The title of the show that the episode belongs to.
    pub show_title: String,
    /// The identifier of that show.
    pub show_id: String,
    /// The slug of that show.
    pub show_slug: String,
    /// Whether only paying members may watch.
    pub is_sponsors_only: bool,
    /// The tier a viewer needs, as a number.
    pub member_tier_i: i8,
    /// Where the episode stands in its show: the season times ten thousand, plus
    /// the number.
    pub sort_number: u32,
    pub genres: Vec<String>,
    /// Whether the episode can be watched now.
    pub is_live: bool,
    /// Whether the episode may be put on the channel's programme.
    pub is_schedulable: bool,
    /// How the show orders its seasons: `asc` or `desc`.
    pub season_order: String,
    /// How the season orders its episodes: `asc` or `desc`.
    pub episode_order: String,
    /// Whether the video of this episode offers a download.
    pub downloadable: bool,
    /// The countries where this may not be shown.
    pub blacklisted_countries: Vec<String>,
    /// Whether to offer a membership after this episode.
    pub upsell_next: bool,
}

/// The model of an [`Attributes`].
pub struct AttributesView {
    pub title: Seq<char>,
    pub slug: Seq<char>,
    pub caption: Seq<char>,
    pub number: u16,
    pub description: Seq<char>,
    pub display_title: Seq<char>,
    pub length: u32,
    pub advert_config: Seq<char>,
    pub advertising: bool,
    pub ad_timestamps: Option<Seq<char>>,
    pub public_golive_at: TimestampView,
    pub sponsor_golive_at: TimestampView,
    pub member_golive_at: TimestampView,
    pub original_air_date: TimestampView,
    pub channel_id: Seq<char>,
    pub channel_slug: Seq<char>,
    pub season_id: Seq<char>,
    pub season_slug: Seq<char>,
    pub season_number: u16,
    pub show_title: Seq<char>,
    pub show_id: Seq<char>,
    pub show_slug: Seq<char>,
    pub is_sponsors_only: bool,
    pub member_tier_i: i8,
    pub sort_number: u32,
    pub genres: Seq<Seq<char>>,
    pub is_live: bool,
    pub is_schedulable: bool,
    pub season_order: Seq<char>,
    pub episode_order: Seq<char>,
    pub downloadable: bool,
    pub blacklisted_countries: Seq<Seq<char>>,
    pub upsell_next: bool,
}

impl DeepView for Attributes {
    type V = AttributesView;

    open spec fn deep_view(&self) -> AttributesView {
        AttributesView {
            title: self.title@,
            slug: self.slug@,
            caption: self.caption@,
            number: self.number,
            description: self.description@,
            display_title: self.display_title@,
            length: self.length,
            advert_config: self.advert_config@,
            advertising: self.advertising,
            ad_timestamps: self.ad_timestamps.deep_view(),
            public_golive_at: self.public_golive_at.deep_view(),
            sponsor_golive_at: self.sponsor_golive_at.deep_view(),
            member_golive_at: self.member_golive_at.deep_view(),
            original_air_date: self.original_air_date.deep_view(),
            channel_id: self.channel_id@,
            channel_slug: self.channel_slug@,
            season_id: self.season_id@,
            season_slug: self.season_slug@,
            season_number: self.season_number,
            show_title: self.show_title@,
            show_id: self.show_id@,
            show_slug: self.show_slug@,
            is_sponsors_only: self.is_sponsors_only,
            member_tier_i: self.member_tier_i,
            sort_number: self.sort_number,
            genres: self.genres.deep_view(),
            is_live: self.is_live,
            is_schedulable: self.is_schedulable,
            season_order: self.season_order@,
            episode_order: self.episode_order@,
            downloadable: self.downloadable,
            blacklisted_countries: self.blacklisted_countries.deep_view(),
            upsell_next: self.upsell_next,
        }
    }
}

impl Schema for Attributes {
    open spec fn valid(value: AttributesView) -> bool {
        &&& Timestamp::valid(value.public_golive_at)
        &&& Timestamp::valid(value.sponsor_golive_at)
        &&& Timestamp::valid(value.member_golive_at)
        &&& Timestamp::valid(value.original_air_date)
    }

    #[verifier::opaque]
    open spec fn decoded(doc: JsonView) -> Result<AttributesView, DecodeErrorView> {
        let title = required::<String>(doc, "title"@);
        let slug = required::<String>(doc, "slug"@);
        let caption = required::<String>(doc, "caption"@);
        let number = required::<u16>(doc, "number"@);
        let description = required::<String>(doc, "description"@);
        let display_title = required::<String>(doc, "display_title"@);
        let length = required::<u32>(doc, "length"@);
        let advert_config = required::<String>(doc, "advert_config"@);
        let advertising = required::<bool>(doc, "advertising"@);
        let ad_timestamps = optional::<String>(doc, "ad_timestamps"@);
        let public_golive_at = required::<Timestamp>(doc, "public_golive_at"@);
        let sponsor_golive_at = required::<Timestamp>(doc, "sponsor_golive_at"@);
        let member_golive_at = required::<Timestamp>(doc, "member_golive_at"@);
        let original_air_date = required::<Timestamp>(doc, "original_air_date"@);
        let channel_id = required::<String>(doc, "channel_id"@);
        let channel_slug = required::<String>(doc, "channel_slug"@);
        let season_id = required::<String>(doc, "season_id"@);
        let season_slug = required::<String>(doc, "season_slug"@);
        let season_number = required::<u16>(doc, "season_number"@);
        let show_title = required::<String>(doc, "show_title"@);
        let show_id = required::<String>(doc, "show_id"@);
        let show_slug = required::<String>(doc, "show_slug"@);
        let is_sponsors_only = required::<bool>(doc, "is_sponsors_only"@);
        let member_tier_i = required::<i8>(doc, "member_tier_i"@);
        let sort_number = required::<u32>(doc, "sort_number"@);
        let genres = required::<Vec<String>>(doc, "genres"@);
        let is_live = required::<bool>(doc, "is_live"@);
        let is_schedulable = required::<bool>(doc, "is_schedulable"@);
        let season_order = required::<String>(doc, "season_order"@);
        let episode_order = required::<String>(doc, "episode_order"@);
        let downloadable = required::<bool>(doc, "downloadable"@);
        let blacklisted_countries = required::<Vec<String>>(doc, "blacklisted_countries"@);
        let upsell_next = required::<bool>(doc, "upsell_next"@);
        if title is Err {
            Err(title->Err_0)
        } else if slug is Err {
            Err(slug->Err_0)
        } else if caption is Err {
            Err(caption->Err_0)
        } else if number is Err {
            Err(number->Err_0)
        } else if description is Err {
            Err(description->Err_0)
        } else if display_title is Err {
            Err(display_title->Err_0)
        } else if length is Err {
            Err(length->Err_0)
        } else if advert_config is Err {
            Err(advert_config->Err_0)
        } else if advertising is Err {
            Err(advertising->Err_0)
        } else if ad_timestamps is Err {
            Err(ad_timestamps->Err_0)
        } else if public_golive_at is Err {
            Err(public_golive_at->Err_0)
        } else if sponsor_golive_at is Err {
            Err(sponsor_golive_at->Err_0)
        } else if member_golive_at is Err {
            Err(member_golive_at->Err_0)
        } else if original_air_date is Err {
            Err(original_air_date->Err_0)
        } else if channel_id is Err {
            Err(channel_id->Err_0)
        } else if channel_slug is Err {
            Err(channel_slug->Err_0)
        } else if season_id is Err {
            Err(season_id->Err_0)
        } else if season_slug is Err {
            Err(season_slug->Err_0)
        } else if season_number is Err {
            Err(season_number->Err_0)
        } else if show_title is Err {
            Err(show_title->Err_0)
        } else if show_id is Err {
            Err(show_id->Err_0)
        } else if show_slug is Err {
            Err(show_slug->Err_0)
        } else if is_sponsors_only is Err {
            Err(is_sponsors_only->Err_0)
        } else if member_tier_i is Err {
            Err(member_tier_i->Err_0)
        } else if sort_number is Err {
            Err(sort_number->Err_0)
        } else if genres is Err {
            Err(genres->Err_0)
        } else if is_live is Err {
            Err(is_live->Err_0)
        } else if is_schedulable is Err {
            Err(is_schedulable->Err_0)
        } else if season_order is Err {
            Err(season_order->Err_0)
        } else if episode_order is Err {
            Err(episode_order->Err_0)
        } else if downloadable is Err {
            Err(downloadable->Err_0)
        } else if blacklisted_countries is Err {
            Err(blacklisted_countries->Err_0)
        } else if upsell_next is Err {
            Err(upsell_next->Err_0)
        } else {
            Ok(
                AttributesView {
                    title: title->Ok_0,
                    slug: slug->Ok_0,
                    caption: caption->Ok_0,
                    number: number->Ok_0,
                    description: description->Ok_0,
                    display_title: display_title->Ok_0,
                    length: length->Ok_0,
                    advert_config: advert_config->Ok_0,
                    advertising: advertising->Ok_0,
                    ad_timestamps: ad_timestamps->Ok_0,
                    public_golive_at: public_golive_at->Ok_0,
                    sponsor_golive_at: sponsor_golive_at->Ok_0,
                    member_golive_at: member_golive_at->Ok_0,
                    original_air_date: original_air_date->Ok_0,
                    channel_id: channel_id->Ok_0,
                    channel_slug: channel_slug->Ok_0,
                    season_id: season_id->Ok_0,
                    season_slug: season_slug->Ok_0,
                    season_number: season_number->Ok_0,
                    show_title: show_title->Ok_0,
                    show_id: show_id->Ok_0,
                    show_slug: show_slug->Ok_0,
                    is_sponsors_only: is_sponsors_only->Ok_0,
                    member_tier_i: member_tier_i->Ok_0,
                    sort_number: sort_number->Ok_0,
                    genres: genres->Ok_0,
                    is_live: is_live->Ok_0,
                    is_schedulable: is_schedulable->Ok_0,
                    season_order: season_order->Ok_0,
                    episode_order: episode_order->Ok_0,
                    downloadable: downloadable->Ok_0,
                    blacklisted_countries: blacklisted_countries->Ok_0,
                    upsell_next: upsell_next->Ok_0,
                },
            )
        }
    }

    #[verifier::opaque]
    open spec fn encoded(value: AttributesView) -> JsonView {
        let members = Map::empty();
        let members = with_required::<String>(members, "title"@, value.title);
        let members = with_required::<String>(members, "slug"@, value.slug);
        let members = with_required::<String>(members, "caption"@, value.caption);
        let members = with_required::<u16>(members, "number"@, value.number);
        let members = with_required::<String>(members, "description"@, value.description);
        let members = with_required::<String>(members, "display_title"@, value.display_title);
        let members = with_required::<u32>(members, "length"@, value.length);
        let members = with_required::<String>(members, "advert_config"@, value.advert_config);
        let members = with_required::<bool>(members, "advertising"@, value.advertising);
        let members = with_optional::<String>(members, "ad_timestamps"@, value.ad_timestamps);
        let members = with_required::<Timestamp>(
            members,
            "public_golive_at"@,
            value.public_golive_at,
        );
        let members = with_required::<Timestamp>(
            members,
            "sponsor_golive_at"@,
            value.sponsor_golive_at,
        );
        let members = with_required::<Timestamp>(
            members,
            "member_golive_at"@,
            value.member_golive_at,
        );
        let members = with_required::<Timestamp>(
            members,
            "original_air_date"@,
            value.original_air_date,
        );
        let members = with_required::<String>(members, "channel_id"@, value.channel_id);
        let members = with_required::<String>(members, "channel_slug"@, value.channel_slug);
        let members = with_required::<String>(members, "season_id"@, value.season_id);
        let members = with_required::<String>(members, "season_slug"@, value.season_slug);
        let members = with_required::<u16>(members, "season_number"@, value.season_number);
        let members = with_required::<String>(members, "show_title"@, value.show_title);
        let members = with_required::<String>(members, "show_id"@, value.show_id);
        let members = with_required::<String>(members, "show_slug"@, value.show_slug);
        let members = with_required::<bool>(members, "is_sponsors_only"@, value.is_sponsors_only);
        let members = with_required::<i8>(members, "member_tier_i"@, value.member_tier_i);
        let members = with_required::<u32>(members, "sort_number"@, value.sort_number);
        let members = with_required::<Vec<String>>(members, "genres"@, value.genres);
        let members = with_required::<bool>(members, "is_live"@, value.is_live);
        let members = with_required::<bool>(members, "is_schedulable"@, value.is_schedulable);
        let members = with_required::<String>(members, "season_order"@, value.season_order);
        let members = with_required::<String>(members, "episode_order"@, value.episode_order);
        let members = with_required::<bool>(members, "downloadable"@, value.downloadable);
        let members = with_required::<Vec<String>>(
            members,
            "blacklisted_countries"@,
            value.blacklisted_countries,
        );
        let members = with_required::<bool>(members, "upsell_next"@, value.upsell_next);
        JsonView::Object(members)
    }

    fn decode(doc: &Json) -> (result: Result<Attributes, DecodeError>) {
        proof {
            reveal(<Attributes as Schema>::decoded);
        }
        let title = read_required::<String>(doc, "title")?;
        let slug = read_required::<String>(doc, "slug")?;
        let caption = read_required::<String>(doc, "caption")?;
        let number = read_required::<u16>(doc, "number")?;
        let description = read_required::<String>(doc, "description")?;
        let display_title = read_required::<String>(doc, "display_title")?;
        let length = read_required::<u32>(doc, "length")?;
        let advert_config = read_required::<String>(doc, "advert_config")?;
        let advertising = read_required::<bool>(doc, "advertising")?;
        let ad_timestamps = read_optional::<String>(doc, "ad_timestamps")?;
        let public_golive_at = read_required::<Timestamp>(doc, "public_golive_at")?;
        let sponsor_golive_at = read_required::<Timestamp>(doc, "sponsor_golive_at")?;
        let member_golive_at = read_required::<Timestamp>(doc, "member_golive_at")?;
        let original_air_date = read_required::<Timestamp>(doc, "original_air_date")?;
        let channel_id = read_required::<String>(doc, "channel_id")?;
        let channel_slug = read_required::<String>(doc, "channel_slug")?;
        let season_id = read_required::<String>(doc, "season_id")?;
        let season_slug = read_required::<String>(doc, "season_slug")?;
        let season_number = read_required::<u16>(doc, "season_number")?;
        let show_title = read_required::<String>(doc, "show_title")?;
        let show_id = read_required::<String>(doc, "show_id")?;
        let show_slug = read_required::<String>(doc, "show_slug")?;
        let is_sponsors_only = read_required::<bool>(doc, "is_sponsors_only")?;
        let member_tier_i = read_required::<i8>(doc, "member_tier_i")?;
        let sort_number = read_required::<u32>(doc, "sort_number")?;
        let genres = read_required::<Vec<String>>(doc, "genres")?;
        let is_live = read_required::<bool>(doc, "is_live")?;
        let is_schedulable = read_required::<bool>(doc, "is_schedulable")?;
        let season_order = read_required::<String>(doc, "season_order")?;
        let episode_order = read_required::<String>(doc, "episode_order")?;
        let downloadable = read_required::<bool>(doc, "downloadable")?;
        let blacklisted_countries = read_required::<Vec<String>>(doc, "blacklisted_countries")?;
        let upsell_next = read_required::<bool>(doc, "upsell_next")?;
        Ok(
            Attributes {
                title,
                slug,
                caption,
                number,
                description,
                display_title,
                length,
                advert_config,
                advertising,
                ad_timestamps,
                public_golive_at,
                sponsor_golive_at,
                member_golive_at,
                original_air_date,
                channel_id,
                channel_slug,
                season_id,
                season_slug,
                season_number,
                show_title,
                show_id,
                show_slug,
                is_sponsors_only,
                member_tier_i,
                sort_number,
                genres,
                is_live,
                is_schedulable,
                season_order,
                episode_order,
                downloadable,
                blacklisted_countries,
                upsell_next,
            },
        )
    }

    fn encode(&self) -> (doc: Json) {
        proof {
            reveal(<Attributes as Schema>::encoded);
        }
        let doc = Json::object();
        let doc = write_required(doc, "title", &self.title);
        let doc = write_required(doc, "slug", &self.slug);
        let doc = write_required(doc, "caption", &self.caption);
        let doc = write_required(doc, "number", &self.number);
        let doc = write_required(doc, "description", &self.description);
        let doc = write_required(doc, "display_title", &self.display_title);
        let doc = write_required(doc, "length", &self.length);
        let doc = write_required(doc, "advert_config", &self.advert_config);
        let doc = write_required(doc, "advertising", &self.advertising);
        let doc = write_optional(doc, "ad_timestamps", &self.ad_timestamps);
        let doc = write_required(doc, "public_golive_at", &self.public_golive_at);
        let doc = write_required(doc, "sponsor_golive_at", &self.sponsor_golive_at);
        let doc = write_required(doc, "member_golive_at", &self.member_golive_at);
        let doc = write_required(doc, "original_air_date", &self.original_air_date);
        let doc = write_required(doc, "channel_id", &self.channel_id);
        let doc = write_required(doc, "channel_slug", &self.channel_slug);
        let doc = write_required(doc, "season_id", &self.season_id);
        let doc = write_required(doc, "season_slug", &self.season_slug);
        let doc = write_required(doc, "season_number", &self.season_number);
        let doc = write_required(doc, "show_title", &self.show_title);
        let doc = write_required(doc, "show_id", &self.show_id);
        let doc = write_required(doc, "show_slug", &self.show_slug);
        let doc = write_required(doc, "is_sponsors_only", &self.is_sponsors_only);
        let doc = write_required(doc, "member_tier_i", &self.member_tier_i);
        let doc = write_required(doc, "sort_number", &self.sort_number);
        let doc = write_required(doc, "genres", &self.genres);
        let doc = write_required(doc, "is_live", &self.is_live);
        let doc = write_required(doc, "is_schedulable", &self.is_schedulable);
        let doc = write_required(doc, "season_order", &self.season_order);
        let doc = write_required(doc, "episode_order", &self.episode_order);
        let doc = write_required(doc, "downloadable", &self.downloadable);
        let doc = write_required(doc, "blacklisted_countries", &self.blacklisted_countries);
        let doc = write_required(doc, "upsell_next", &self.upsell_next);
        doc
    }

    proof fn decoded_is_valid(doc: JsonView) {
        reveal(<Attributes as Schema>::decoded);
        lemma_required_valid::<Timestamp>(doc, "public_golive_at"@);
        lemma_required_valid::<Timestamp>(doc, "sponsor_golive_at"@);
        lemma_required_valid::<Timestamp>(doc, "member_golive_at"@);
        lemma_required_valid::<Timestamp>(doc, "original_air_date"@);
    }

    proof fn encoded_decodes(value: AttributesView) {
        reveal(<Attributes as Schema>::decoded);
        reveal(<Attributes as Schema>::encoded);
        lemma_attribute_names();
        let members = Self::encoded(value)->Object_0;
        lemma_reads_required::<String>(members, "title"@, value.title);
        lemma_reads_required::<String>(members, "slug"@, value.slug);
        lemma_reads_required::<String>(members, "caption"@, value.caption);
        lemma_reads_required::<u16>(members, "number"@, value.number);
        lemma_reads_required::<String>(members, "description"@, value.description);
        lemma_reads_required::<String>(members, "display_title"@, value.display_title);
        lemma_reads_required::<u32>(members, "length"@, value.length);
        lemma_reads_required::<String>(members, "advert_config"@, value.advert_config);
        lemma_reads_required::<bool>(members, "advertising"@, value.advertising);
        lemma_reads_optional::<String>(members, "ad_timestamps"@, value.ad_timestamps);
        lemma_reads_required::<Timestamp>(members, "public_golive_at"@, value.public_golive_at);
        lemma_reads_required::<Timestamp>(members, "sponsor_golive_at"@, value.sponsor_golive_at);
        lemma_reads_required::<Timestamp>(members, "member_golive_at"@, value.member_golive_at);
        lemma_reads_required::<Timestamp>(members, "original_air_date"@, value.original_air_date);
        lemma_reads_required::<String>(members, "channel_id"@, value.channel_id);
        lemma_reads_required::<String>(members, "channel_slug"@, value.channel_slug);
        lemma_reads_required::<String>(members, "season_id"@, value.season_id);
        lemma_reads_required::<String>(members, "season_slug"@, value.season_slug);
        lemma_reads_required::<u16>(members, "season_number"@, value.season_number);
        lemma_reads_required::<String>(members, "show_title"@, value.show_title);
        lemma_reads_required::<String>(members, "show_id"@, value.show_id);
        lemma_reads_required::<String>(members, "show_slug"@, value.show_slug);
        lemma_reads_required::<bool>(members, "is_sponsors_only"@, value.is_sponsors_only);
        lemma_reads_required::<i8>(members, "member_tier_i"@, value.member_tier_i);
        lemma_reads_required::<u32>(members, "sort_number"@, value.sort_number);
        lemma_reads_required::<Vec<String>>(members, "genres"@, value.genres);
        lemma_reads_required::<bool>(members, "is_live"@, value.is_live);
        lemma_reads_required::<bool>(members, "is_schedulable"@, value.is_schedulable);
        lemma_reads_required::<String>(members, "season_order"@, value.season_order);
        lemma_reads_required::<String>(members, "episode_order"@, value.episode_order);
        lemma_reads_required::<bool>(members, "downloadable"@, value.downloadable);
        lemma_reads_required::<Vec<String>>(
            members,
            "blacklisted_countries"@,
            value.blacklisted_countries,
        );
        lemma_reads_required::<bool>(members, "upsell_next"@, value.upsell_next);
    }
}

impl Attributes {
    /// Whether `attribute` is one that a document may leave out.
    pub open spec fn is_optional(attribute: Seq<char>) -> bool {
        attribute == "ad_timestamps"@
    }

    /// Whether `value` decodes as what the optional attribute `attribute`
    /// holds.
    pub open spec fn accepts(attribute: Seq<char>, value: JsonView) -> bool {
        if attribute == "ad_timestamps"@ {
            String::decoded(value) is Ok
        } else {
            false
        }
    }

    /// A document that decodes still decodes when an optional member is
    /// taken out of it.
    pub proof fn optional_may_be_absent(doc: JsonView, attribute: Seq<char>)
        requires
            Self::is_optional(attribute),
            Self::decoded(doc) is Ok,
        ensures
            Self::decoded(JsonView::Object(doc->Object_0.remove(wire_name(attribute)))) is Ok,
    {
        reveal(<Attributes as Schema>::decoded);
        reveal(required);
        reveal(optional);
        lemma_attribute_names();
    }

    /// A document that decodes still decodes when an optional member is
    /// set to a value that its attribute accepts.
    pub proof fn optional_may_be_present(
        doc: JsonView,
        attribute: Seq<char>,
        value: JsonView,
    )
        requires
            Self::is_optional(attribute),
            Self::accepts(attribute, value),
            Self::decoded(doc) is Ok,
        ensures
            Self::decoded(
                JsonView::Object(doc->Object_0.insert(wire_name(attribute), value)),
            ) is Ok,
    {
        reveal(<Attributes as Schema>::decoded);
        reveal(required);
        reveal(optional);
        lemma_attribute_names();
    }
}

/// Where to ask for what belongs to an episode.
#[derive(Debug, PartialEq, Eq)]
pub struct Links {
    /// The address of this entity itself; `self` on the wire.
    pub reference: String,
    pub show: String,
    pub related_shows: String,
    pub channel: String,
    pub season: String,
    pub next: String,
    pub videos: String,
    pub products: String,
}

/// The model of a [`Links`].
pub struct LinksView {
    pub reference: Seq<char>,
    pub show: Seq<char>,
    pub related_shows: Seq<char>,
    pub channel: Seq<char>,
    pub season: Seq<char>,
    pub next: Seq<char>,
    pub videos: Seq<char>,
    pub products: Seq<char>,
}

impl DeepView for Links {
    type V = LinksView;

    open spec fn deep_view(&self) -> LinksView {
        LinksView {
            reference: self.reference@,
            show: self.show@,
            related_shows: self.related_shows@,
            channel: self.channel@,
            season: self.season@,
            next: self.next@,
            videos: self.videos@,
            products: self.products@,
        }
    }
}

impl Schema for Links {
    open spec fn valid(value: LinksView) -> bool {
        true
    }

    #[verifier::opaque]
    open spec fn decoded(doc: JsonView) -> Result<LinksView, DecodeErrorView> {
        let reference = required::<String>(doc, "reference"@);
        let show = required::<String>(doc, "show"@);
        let related_shows = required::<String>(doc, "related_shows"@);
        let channel = required::<String>(doc, "channel"@);
        let season = required::<String>(doc, "season"@);
        let next = required::<String>(doc, "next"@);
        let videos = required::<String>(doc, "videos"@);
        let products = required::<String>(doc, "products"@);
        if reference is Err {
            Err(reference->Err_0)
        } else if show is Err {
            Err(show->Err_0)
        } else if related_shows is Err {
            Err(related_shows->Err_0)
        } else if channel is Err {
            Err(channel->Err_0)
        } else if season is Err {
            Err(season->Err_0)
        } else if next is Err {
            Err(next->Err_0)
        } else if videos is Err {
            Err(videos->Err_0)
        } else if products is Err {
            Err(products->Err_0)
        } else {
            Ok(
                LinksView {
                    reference: reference->Ok_0,
                    show: show->Ok_0,
                    related_shows: related_shows->Ok_0,
                    channel: channel->Ok_0,
                    season: season->Ok_0,
                    next: next->Ok_0,
                    videos: videos->Ok_0,
                    products: products->Ok_0,
                },
            )
        }
    }

    #[verifier::opaque]
    open spec fn encoded(value: LinksView) -> JsonView {
        let members = Map::empty();
        let members = with_required::<String>(members, "reference"@, value.reference);
        let members = with_required::<String>(members, "show"@, value.show);
        let members = with_required::<String>(members, "related_shows"@, value.related_shows);
        let members = with_required::<String>(members, "channel"@, value.channel);
        let members = with_required::<String>(members, "season"@, value.season);
        let members = with_required::<String>(members, "next"@, value.next);
        let members = with_required::<String>(members, "videos"@, value.videos);
        let members = with_required::<String>(members, "products"@, value.products);
        JsonView::Object(members)
    }

    fn decode(doc: &Json) -> (result: Result<Links, DecodeError>) {
        proof {
            reveal(<Links as Schema>::decoded);
        }
        let reference = read_required::<String>(doc, "reference")?;
        let show = read_required::<String>(doc, "show")?;
        let related_shows = read_required::<String>(doc, "related_shows")?;
        let channel = read_required::<String>(doc, "channel")?;
        let season = read_required::<String>(doc, "season")?;
        let next = read_required::<String>(doc, "next")?;
        let videos = read_required::<String>(doc, "videos")?;
        let products = read_required::<String>(doc, "products")?;
        Ok(Links { reference, show, related_shows, channel, season, next, videos, products })
    }

    fn encode(&self) -> (doc: Json) {
        proof {
            reveal(<Links as Schema>::encoded);
        }
        let doc = Json::object();
        let doc = write_required(doc, "reference", &self.reference);
        let doc = write_required(doc, "show", &self.show);
        let doc = write_required(doc, "related_shows", &self.related_shows);
        let doc = write_required(doc, "channel", &self.channel);
        let doc = write_required(doc, "season", &self.season);
        let doc = write_required(doc, "next", &self.next);
        let doc = write_required(doc, "videos", &self.videos);
        let doc = write_required(doc, "products", &self.products);
        doc
    }

    proof fn decoded_is_valid(doc: JsonView) {
    }

    proof fn encoded_decodes(value: LinksView) {
        reveal(<Links as Schema>::decoded);
        reveal(<Links as Schema>::encoded);
        lemma_attribute_names();
        let members = Self::encoded(value)->Object_0;
        lemma_reads_required::<String>(members, "reference"@, value.reference);
        lemma_reads_required::<String>(members, "show"@, value.show);
        lemma_reads_required::<String>(members, "related_shows"@, value.related_shows);
        lemma_reads_required::<String>(members, "channel"@, value.channel);
        lemma_reads_required::<String>(members, "season"@, value.season);
        lemma_reads_required::<String>(members, "next"@, value.next);
        lemma_reads_required::<String>(members, "videos"@, value.videos);
        lemma_reads_required::<String>(members, "products"@, value.products);
    }
}

/// The pages of the public site that present an episode.
#[derive(Debug, PartialEq, Eq)]
pub struct CanonicalLinks {
    /// The address of this entity itself; `self` on the wire.
    pub reference: String,
    pub show: String,
}

/// The model of a [`CanonicalLinks`].
pub struct CanonicalLinksView {
    pub reference: Seq<char>,
    pub show: Seq<char>,
}

impl DeepView for CanonicalLinks {
    type V = CanonicalLinksView;

    open spec fn deep_view(&self) -> CanonicalLinksView {
        CanonicalLinksView { reference: self.reference@, show: self.show@ }
    }
}

impl Schema for CanonicalLinks {
    open spec fn valid(value: CanonicalLinksView) -> bool {
        true
    }

    #[verifier::opaque]
    open spec fn decoded(doc: JsonView) -> Result<CanonicalLinksView, DecodeErrorView> {
        let reference = required::<String>(doc, "reference"@);
        let show = required::<String>(doc, "show"@);
        if reference is Err {
            Err(reference->Err_0)
        } else if show is Err {
            Err(show->Err_0)
        } else {
            Ok(CanonicalLinksView { reference: reference->Ok_0, show: show->Ok_0 })
        }
    }

    #[verifier::opaque]
    open spec fn encoded(value: CanonicalLinksView) -> JsonView {
        let members = Map::empty();
        let members = with_required::<String>(members, "reference"@, value.reference);
        let members = with_required::<String>(members, "show"@, value.show);
        JsonView::Object(members)
    }

    fn decode(doc: &Json) -> (result: Result<CanonicalLinks, DecodeError>) {
        proof {
            reveal(<CanonicalLinks as Schema>::decoded);
        }
        let reference = read_required::<String>(doc, "reference")?;
        let show = read_required::<String>(doc, "show")?;
        Ok(CanonicalLinks { reference, show })
    }

    fn encode(&self) -> (doc: Json) {
        proof {
            reveal(<CanonicalLinks as Schema>::encoded);
        }
        let doc = Json::object();
        let doc = write_required(doc, "reference", &self.reference);
        let doc = write_required(doc, "show", &self.show);
        doc
    }

    proof fn decoded_is_valid(doc: JsonView) {
    }

    proof fn encoded_decodes(value: CanonicalLinksView) {
        reveal(<CanonicalLinks as Schema>::decoded);
        reveal(<CanonicalLinks as Schema>::encoded);
        lemma_attribute_names();
        let members = Self::encoded(value)->Object_0;
        lemma_reads_required::<String>(members, "reference"@, value.reference);
        lemma_reads_required::<String>(members, "show"@, value.show);
    }
}

/// Entities that come along with an episode.
#[derive(Debug, PartialEq, Eq)]
pub struct Included {
    pub images: Vec<Image>,
    pub tags: Vec<Tag>,
    /// Who appears in the episode. Not every reply lists them.
    pub cast_members: Option<Vec<CastMember>>,
}

/// The model of an [`Included`].
pub struct IncludedView {
    pub images: Seq<ImageView>,
    pub tags: Seq<TagView>,
    pub cast_members: Option<Seq<CastMemberView>>,
}

impl DeepView for Included {
    type V = IncludedView;

    open spec fn deep_view(&self) -> IncludedView {
        IncludedView {
            images: self.images.deep_view(),
            tags: self.tags.deep_view(),
            cast_members: self.cast_members.deep_view(),
        }
    }
}

impl Schema for Included {
    open spec fn valid(value: IncludedView) -> bool {
        true
    }

    #[verifier::opaque]
    open spec fn decoded(doc: JsonView) -> Result<IncludedView, DecodeErrorView> {
        let images = required::<Vec<Image>>(doc, "images"@);
        let tags = required::<Vec<Tag>>(doc, "tags"@);
        let cast_members = optional::<Vec<CastMember>>(doc, "cast_members"@);
        if images is Err {
            Err(images->Err_0)
        } else if tags is Err {
            Err(tags->Err_0)
        } else if cast_members is Err {
            Err(cast_members->Err_0)
        } else {
            Ok(
                IncludedView {
                    images: images->Ok_0,
                    tags: tags->Ok_0,
                    cast_members: cast_members->Ok_0,
                },
            )
        }
    }

    #[verifier::opaque]
    open spec fn encoded(value: IncludedView) -> JsonView {
        let members = Map::empty();
        let members = with_required::<Vec<Image>>(members, "images"@, value.images);
        let members = with_required::<Vec<Tag>>(members, "tags"@, value.tags);
        let members = with_optional::<Vec<CastMember>>(
            members,
            "cast_members"@,
            value.cast_members,
        );
        JsonView::Object(members)
    }

    fn decode(doc: &Json) -> (result: Result<Included, DecodeError>) {
        proof {
            reveal(<Included as Schema>::decoded);
        }
        let images = read_required::<Vec<Image>>(doc, "images")?;
        let tags = read_required::<Vec<Tag>>(doc, "tags")?;
        let cast_members = read_optional::<Vec<CastMember>>(doc, "cast_members")?;
        Ok(Included { images, tags, cast_members })
    }

    fn encode(&self) -> (doc: Json) {
        proof {
            reveal(<Included as Schema>::encoded);
        }
        let doc = Json::object();
        let doc = write_required(doc, "images", &self.images);
        let doc = write_required(doc, "tags", &self.tags);
        let doc = write_optional(doc, "cast_members", &self.cast_members);
        doc
    }

    proof fn decoded_is_valid(doc: JsonView) {
    }

    proof fn encoded_decodes(value: IncludedView) {
        reveal(<Included as Schema>::decoded);
        reveal(<Included as Schema>::encoded);
        lemma_attribute_names();
        let members = Self::encoded(value)->Object_0;
        lemma_reads_required::<Vec<Image>>(members, "images"@, value.images);
        lemma_reads_required::<Vec<Tag>>(members, "tags"@, value.tags);
        lemma_reads_optional::<Vec<CastMember>>(members, "cast_members"@, value.cast_members);
    }
}

impl Included {
    /// Whether `attribute` is one that a document may leave out.
    pub open spec fn is_optional(attribute: Seq<char>) -> bool {
        attribute == "cast_members"@
    }

    /// Whether `value` decodes as what the optional attribute `attribute`
    /// holds.
    pub open spec fn accepts(attribute: Seq<char>, value: JsonView) -> bool {
        if attribute == "cast_members"@ {
            Vec::<CastMember>::decoded(value) is Ok
        } else {
            false
        }
    }

    /// A document that decodes still decodes when an optional member is
    /// taken out of it.
    pub proof fn optional_may_be_absent(doc: JsonView, attribute: Seq<char>)
        requires
            Self::is_optional(attribute),
            Self::decoded(doc) is Ok,
        ensures
            Self::decoded(JsonView::Object(doc->Object_0.remove(wire_name(attribute)))) is Ok,
    {
        reveal(<Included as Schema>::decoded);
        reveal(required);
        reveal(optional);
        lemma_attribute_names();
    }

    /// A document that decodes still decodes when an optional member is
    /// set to a value that its attribute accepts.
    pub proof fn optional_may_be_present(
        doc: JsonView,
        attribute: Seq<char>,
        value: JsonView,
    )
        requires
            Self::is_optional(attribute),
            Self::accepts(attribute, value),
            Self::decoded(doc) is Ok,
        ensures
            Self::decoded(
                JsonView::Object(doc->Object_0.insert(wire_name(attribute), value)),
            ) is Ok,
    {
        reveal(<Included as Schema>::decoded);
        reveal(required);
        reveal(optional);
        lemma_attribute_names();
    }
}

/// A tag on an episode.
#[derive(Debug, PartialEq, Eq)]
pub struct Tag {
    pub id: String,
    pub uuid: String,
    /// What sort of entity this is; `type` on the wire.
    pub kind: String,
    pub attributes: TagAttribute,
}

/// The model of a [`Tag`].
pub struct TagView {
    pub id: Seq<char>,
    pub uuid: Seq<char>,
    pub kind: Seq<char>,
    pub attributes: TagAttributeView,
}

impl DeepView for Tag {
    type V = TagView;

    open spec fn deep_view(&self) -> TagView {
        TagView {
            id: self.id@,
            uuid: self.uuid@,
            kind: self.kind@,
            attributes: self.attributes.deep_view(),
        }
    }
}

impl Schema for Tag {
    open spec fn valid(value: TagView) -> bool {
        true
    }

    #[verifier::opaque]
    open spec fn decoded(doc: JsonView) -> Result<TagView, DecodeErrorView> {
        let id = required::<String>(doc, "id"@);
        let uuid = required::<String>(doc, "uuid"@);
        let kind = required::<String>(doc, "kind"@);
        let attributes = required::<TagAttribute>(doc, "attributes"@);
        if id is Err {
            Err(id->Err_0)
        } else if uuid is Err {
            Err(uuid->Err_0)
        } else if kind is Err {
            Err(kind->Err_0)
        } else if attributes is Err {
            Err(attributes->Err_0)
        } else {
            Ok(
                TagView {
                    id: id->Ok_0,
                    uuid: uuid->Ok_0,
                    kind: kind->Ok_0,
                    attributes: attributes->Ok_0,
                },
            )
        }
    }

    #[verifier::opaque]
    open spec fn encoded(value: TagView) -> JsonView {
        let members = Map::empty();
        let members = with_required::<String>(members, "id"@, value.id);
        let members = with_required::<String>(members, "uuid"@, value.uuid);
        let members = with_required::<String>(members, "kind"@, value.kind);
        let members = with_required::<TagAttribute>(members, "attributes"@, value.attributes);
        JsonView::Object(members)
    }

    fn decode(doc: &Json) -> (result: Result<Tag, DecodeError>) {
        proof {
            reveal(<Tag as Schema>::decoded);
        }
        let id = read_required::<String>(doc, "id")?;
        let uuid = read_required::<String>(doc, "uuid")?;
        let kind = read_required::<String>(doc, "kind")?;
        let attributes = read_required::<TagAttribute>(doc, "attributes")?;
        Ok(Tag { id, uuid, kind, attributes })
    }

    fn encode(&self) -> (doc: Json) {
        proof {
            reveal(<Tag as Schema>::encoded);
        }
        let doc = Json::object();
        let doc = write_required(doc, "id", &self.id);
        let doc = write_required(doc, "uuid", &self.uuid);
        let doc = write_required(doc, "kind", &self.kind);
        let doc = write_required(doc, "attributes", &self.attributes);
        doc
    }

    proof fn decoded_is_valid(doc: JsonView) {
    }

    proof fn encoded_decodes(value: TagView) {
        reveal(<Tag as Schema>::decoded);
        reveal(<Tag as Schema>::encoded);
        lemma_attribute_names();
        let members = Self::encoded(value)->Object_0;
        lemma_reads_required::<String>(members, "id"@, value.id);
        lemma_reads_required::<String>(members, "uuid"@, value.uuid);
        lemma_reads_required::<String>(members, "kind"@, value.kind);
        lemma_reads_required::<TagAttribute>(members, "attributes"@, value.attributes);
    }
}

/// The text of a tag.
#[derive(Debug, PartialEq, Eq)]
pub struct TagAttribute {
    /// The tag as it is shown.
    pub tag: String,
    /// The tag as it stands in addresses.
    pub slug: String,
}

/// The model of a [`TagAttribute`].
pub struct TagAttributeView {
    pub tag: Seq<char>,
    pub slug: Seq<char>,
}

impl DeepView for TagAttribute {
    type V = TagAttributeView;

    open spec fn deep_view(&self) -> TagAttributeView {
        TagAttributeView { tag: self.tag@, slug: self.slug@ }
    }
}

impl Schema for TagAttribute {
    open spec fn valid(value: TagAttributeView) -> bool {
        true
    }

    #[verifier::opaque]
    open spec fn decoded(doc: JsonView) -> Result<TagAttributeView, DecodeErrorView> {
        let tag = required::<String>(doc, "tag"@);
        let slug = required::<String>(doc, "slug"@);
        if tag is Err {
            Err(tag->Err_0)
        } else if slug is Err {
            Err(slug->Err_0)
        } else {
            Ok(TagAttributeView { tag: tag->Ok_0, slug: slug->Ok_0 })
        }
    }

    #[verifier::opaque]
    open spec fn encoded(value: TagAttributeView) -> JsonView {
        let members = Map::empty();
        let members = with_required::<String>(members, "tag"@, value.tag);
        let members = with_required::<String>(members, "slug"@, value.slug);
        JsonView::Object(members)
    }

    fn decode(doc: &Json) -> (result: Result<TagAttribute, DecodeError>) {
        proof {
            reveal(<TagAttribute as Schema>::decoded);
        }
        let tag = read_required::<String>(doc, "tag")?;
        let slug = read_required::<String>(doc, "slug")?;
        Ok(TagAttribute { tag, slug })
    }

    fn encode(&self) -> (doc: Json) {
        proof {
            reveal(<TagAttribute as Schema>::encoded);
        }
        let doc = Json::object();
        let doc = write_required(doc, "tag", &self.tag);
        let doc = write_required(doc, "slug", &self.slug);
        doc
    }

    proof fn decoded_is_valid(doc: JsonView) {
    }

    proof fn encoded_decodes(value: TagAttributeView) {
        reveal(<TagAttribute as Schema>::decoded);
        reveal(<TagAttribute as Schema>::encoded);
        lemma_attribute_names();
        let members = Self::encoded(value)->Object_0;
        lemma_reads_required::<String>(members, "tag"@, value.tag);
        lemma_reads_required::<String>(members, "slug"@, value.slug);
    }
}

/// Someone who appears in an episode.
#[derive(Debug, PartialEq, Eq)]
pub struct CastMember {
    pub id: String,
    pub uuid: String,
    /// What sort of entity this is; `type` on the wire.
    pub kind: String,
    pub attributes: CastMemberAttributes,
}

/// The model of a [`CastMember`].
pub struct CastMemberView {
    pub id: Seq<char>,
    pub uuid: Seq<char>,
    pub kind: Seq<char>,
    pub attributes: CastMemberAttributesView,
}

impl DeepView for CastMember {
    type V = CastMemberView;

    open spec fn deep_view(&self) -> CastMemberView {
        CastMemberView {
            id: self.id@,
            uuid: self.uuid@,
            kind: self.kind@,
            attributes: self.attributes.deep_view(),
        }
    }
}

impl Schema for CastMember {
    open spec fn valid(value: CastMemberView) -> bool {
        true
    }

    #[verifier::opaque]
    open spec fn decoded(doc: JsonView) -> Result<CastMemberView, DecodeErrorView> {
        let id = required::<String>(doc, "id"@);
        let uuid = required::<String>(doc, "uuid"@);
        let kind = required::<String>(doc, "kind"@);
        let attributes = required::<CastMemberAttributes>(doc, "attributes"@);
        if id is Err {
            Err(id->Err_0)
        } else if uuid is Err {
            Err(uuid->Err_0)
        } else if kind is Err {
            Err(kind->Err_0)
        } else if attributes is Err {
            Err(attributes->Err_0)
        } else {
            Ok(
                CastMemberView {
                    id: id->Ok_0,
                    uuid: uuid->Ok_0,
                    kind: kind->Ok_0,
                    attributes: attributes->Ok_0,
                },
            )
        }
    }

    #[verifier::opaque]
    open spec fn encoded(value: CastMemberView) -> JsonView {
        let members = Map::empty();
        let members = with_required::<String>(members, "id"@, value.id);
        let members = with_required::<String>(members, "uuid"@, value.uuid);
        let members = with_required::<String>(members, "kind"@, value.kind);
        let members = with_required::<CastMemberAttributes>(
            members,
            "attributes"@,
            value.attributes,
        );
        JsonView::Object(members)
    }

    fn decode(doc: &Json) -> (result: Result<CastMember, DecodeError>) {
        proof {
            reveal(<CastMember as Schema>::decoded);
        }
        let id = read_required::<String>(doc, "id")?;
        let uuid = read_required::<String>(doc, "uuid")?;
        let kind = read_required::<String>(doc, "kind")?;
        let attributes = read_required::<CastMemberAttributes>(doc, "attributes")?;
        Ok(CastMember { id, uuid, kind, attributes })
    }

    fn encode(&self) -> (doc: Json) {
        proof {
            reveal(<CastMember as Schema>::encoded);
        }
        let doc = Json::object();
        let doc = write_required(doc, "id", &self.id);
        let doc = write_required(doc, "uuid", &self.uuid);
        let doc = write_required(doc, "kind", &self.kind);
        let doc = write_required(doc, "attributes", &self.attributes);
        doc
    }

    proof fn decoded_is_valid(doc: JsonView) {
    }

    proof fn encoded_decodes(value: CastMemberView) {
        reveal(<CastMember as Schema>::decoded);
        reveal(<CastMember as Schema>::encoded);
        lemma_attribute_names();
        let members = Self::encoded(value)->Object_0;
        lemma_reads_required::<String>(members, "id"@, value.id);
        lemma_reads_required::<String>(members, "uuid"@, value.uuid);
        lemma_reads_required::<String>(members, "kind"@, value.kind);
        lemma_reads_required::<CastMemberAttributes>(members, "attributes"@, value.attributes);
    }
}

/// The name of a cast member.
#[derive(Debug, PartialEq, Eq)]
pub struct CastMemberAttributes {
    /// The name as it is shown.
    pub name: String,
}

/// The model of a [`CastMemberAttributes`].
pub struct CastMemberAttributesView {
    pub name: Seq<char>,
}

impl DeepView for CastMemberAttributes {
    type V = CastMemberAttributesView;

    open spec fn deep_view(&self) -> CastMemberAttributesView {
        CastMemberAttributesView { name: self.name@ }
    }
}

impl Schema for CastMemberAttributes {
    open spec fn valid(value: CastMemberAttributesView) -> bool {
        true
    }

    #[verifier::opaque]
    open spec fn decoded(doc: JsonView) -> Result<CastMemberAttributesView, DecodeErrorView> {
        let name = required::<String>(doc, "name"@);
        if name is Err {
            Err(name->Err_0)
        } else {
            Ok(CastMemberAttributesView { name: name->Ok_0 })
        }
    }

    #[verifier::opaque]
    open spec fn encoded(value: CastMemberAttributesView) -> JsonView {
        let members = Map::empty();
        let members = with_required::<String>(members, "name"@, value.name);
        JsonView::Object(members)
    }

    fn decode(doc: &Json) -> (result: Result<CastMemberAttributes, DecodeError>) {
        proof {
            reveal(<CastMemberAttributes as Schema>::decoded);
        }
        let name = read_required::<String>(doc, "name")?;
        Ok(CastMemberAttributes { name })
    }

    fn encode(&self) -> (doc: Json) {
        proof {
            reveal(<CastMemberAttributes as Schema>::encoded);
        }
        let doc = Json::object();
        let doc = write_required(doc, "name", &self.name);
        doc
    }

    proof fn decoded_is_valid(doc: JsonView) {
    }

    proof fn encoded_decodes(value: CastMemberAttributesView) {
        reveal(<CastMemberAttributes as Schema>::decoded);
        reveal(<CastMemberAttributes as Schema>::encoded);
        lemma_attribute_names();
        let members = Self::encoded(value)->Object_0;
        lemma_reads_required::<String>(members, "name"@, value.name);
    }
}

} // verus!
