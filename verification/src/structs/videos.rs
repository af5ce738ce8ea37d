//! Videos: what a viewer who may watch an episode needs to play it.

use crate::json::{Json, JsonView, Number, NumberView};
use crate::names::lemma_attribute_names;
use crate::schema::{
    lemma_reads_optional, lemma_reads_required, lemma_required_valid, optional, read_optional,
    read_required, required, wire_name, with_optional, with_required, write_optional,
    write_required, DecodeError, DecodeErrorView, Schema,
};
use crate::timestamp::{Timestamp, TimestampView};
use vstd::prelude::*;

verus! {

/// The reply to a request for the videos of an episode: the videos, and
/// where the list stands in the whole.
#[derive(Debug, PartialEq, Eq)]
pub struct Root {
    /// The entries of this page.
    pub data: Vec<Video>,
    /// The number of this page, from 1.
    pub page: Option<u16>,
    /// How many entries a page holds at most.
    pub per_page: Option<u16>,
    /// How many pages there are.
    pub total_pages: Option<u16>,
    /// How many entries there are on all pages together.
    pub total_results: Option<u32>,
}

/// The model of a [`Root`].
pub struct RootView {
    pub data: Seq<VideoView>,
    pub page: Option<u16>,
    pub per_page: Option<u16>,
    pub total_pages: Option<u16>,
    pub total_results: Option<u32>,
}

impl DeepView for Root {
    type V = RootView;

    open spec fn deep_view(&self) -> RootView {
        RootView {
            data: self.data.deep_view(),
            page: self.page.deep_view(),
            per_page: self.per_page.deep_view(),
            total_pages: self.total_pages.deep_view(),
            total_results: self.total_results.deep_view(),
        }
    }
}

impl Schema for Root {
    open spec fn valid(value: RootView) -> bool {
        Vec::<Video>::valid(value.data)
    }

    #[verifier::opaque]
    open spec fn decoded(doc: JsonView) -> Result<RootView, DecodeErrorView> {
        let data = required::<Vec<Video>>(doc, "data"@);
        let page = optional::<u16>(doc, "page"@);
        let per_page = optional::<u16>(doc, "per_page"@);
        let total_pages = optional::<u16>(doc, "total_pages"@);
        let total_results = optional::<u32>(doc, "total_results"@);
        if data is Err {
            Err(data->Err_0)
        } else if page is Err {
            Err(page->Err_0)
        } else if per_page is Err {
            Err(per_page->Err_0)
        } else if total_pages is Err {
            Err(total_pages->Err_0)
        } else if total_results is Err {
            Err(total_results->Err_0)
        } else {
            Ok(
                RootView {
                    data: data->Ok_0,
                    page: page->Ok_0,
                    per_page: per_page->Ok_0,
                    total_pages: total_pages->Ok_0,
                    total_results: total_results->Ok_0,
                },
            )
        }
    }

    #[verifier::opaque]
    open spec fn encoded(value: RootView) -> JsonView {
        let members = Map::empty();
        let members = with_required::<Vec<Video>>(members, "data"@, value.data);
        let members = with_optional::<u16>(members, "page"@, value.page);
        let members = with_optional::<u16>(members, "per_page"@, value.per_page);
        let members = with_optional::<u16>(members, "total_pages"@, value.total_pages);
        let members = with_optional::<u32>(members, "total_results"@, value.total_results);
        JsonView::Object(members)
    }

    fn decode(doc: &Json) -> (result: Result<Root, DecodeError>) {
        proof {
            reveal(<Root as Schema>::decoded);
        }
        let data = read_required::<Vec<Video>>(doc, "data")?;
        let page = read_optional::<u16>(doc, "page")?;
        let per_page = read_optional::<u16>(doc, "per_page")?;
        let total_pages = read_optional::<u16>(doc, "total_pages")?;
        let total_results = read_optional::<u32>(doc, "total_results")?;
        Ok(Root { data, page, per_page, total_pages, total_results })
    }

    fn encode(&self) -> (doc: Json) {
        proof {
            reveal(<Root as Schema>::encoded);
        }
        let doc = Json::object();
        let doc = write_required(doc, "data", &self.data);
        let doc = write_optional(doc, "page", &self.page);
        let doc = write_optional(doc, "per_page", &self.per_page);
        let doc = write_optional(doc, "total_pages", &self.total_pages);
        let doc = write_optional(doc, "total_results", &self.total_results);
        doc
    }

    proof fn decoded_is_valid(doc: JsonView) {
        reveal(<Root as Schema>::decoded);
        lemma_required_valid::<Vec<Video>>(doc, "data"@);
    }

    proof fn encoded_decodes(value: RootView) {
        reveal(<Root as Schema>::decoded);
        reveal(<Root as Schema>::encoded);
        lemma_attribute_names();
        let members = Self::encoded(value)->Object_0;
        lemma_reads_required::<Vec<Video>>(members, "data"@, value.data);
        lemma_reads_optional::<u16>(members, "page"@, value.page);
        lemma_reads_optional::<u16>(members, "per_page"@, value.per_page);
        lemma_reads_optional::<u16>(members, "total_pages"@, value.total_pages);
        lemma_reads_optional::<u32>(members, "total_results"@, value.total_results);
    }
}

impl Root {
    /// Whether `attribute` is one that a document may leave out.
    pub open spec fn is_optional(attribute: Seq<char>) -> bool {
        attribute == "page"@
            || attribute == "per_page"@
            || attribute == "total_pages"@
            || attribute == "total_results"@
    }

    /// Whether `value` decodes as what the optional attribute `attribute`
    /// holds.
    pub open spec fn accepts(attribute: Seq<char>, value: JsonView) -> bool {
        if attribute == "page"@ {
            u16::decoded(value) is Ok
        } else if attribute == "per_page"@ {
            u16::decoded(value) is Ok
        } else if attribute == "total_pages"@ {
            u16::decoded(value) is Ok
        } else if attribute == "total_results"@ {
            u32::decoded(value) is Ok
        } else {
            false
        }
    }

    /// A document that decodes still decodes when an optional member is
    /// taken out of it.
    pub proof fn optional_may_be_absent(doc: JsonView, attribute: Seq<char>)
        requires
            Self::is_optional(attribute),
            Self::decoded(doc) is Ok,
        ensures
            Self::decoded(JsonView::Object(doc->Object_0.remove(wire_name(attribute)))) is Ok,
    {
        reveal(<Root as Schema>::decoded);
        reveal(required);
        reveal(optional);
        lemma_attribute_names();
    }

    /// A document that decodes still decodes when an optional member is
    /// set to a value that its attribute accepts.
    pub proof fn optional_may_be_present(
        doc: JsonView,
        attribute: Seq<char>,
        value: JsonView,
    )
        requires
            Self::is_optional(attribute),
            Self::accepts(attribute, value),
            Self::decoded(doc) is Ok,
        ensures
            Self::decoded(
                JsonView::Object(doc->Object_0.insert(wire_name(attribute), value)),
            ) is Ok,
    {
        reveal(<Root as Schema>::decoded);
        reveal(required);
        reveal(optional);
        lemma_attribute_names();
    }
}

/// A video. It belongs to the episode that its attributes name as content.
#[derive(Debug, PartialEq, Eq)]
pub struct Video {
    /// The search index that served the entity; `_index` on the wire.
    pub index: String,
    /// How well the video matched the request; `_score` on the wire.
    pub score: Number,
    /// The number of the entity; later entities have larger ones.
    pub id: u32,
    /// What sort of entity this is; `type` on the wire.
    pub kind: String,
    /// The identifier of the entity; the catalogue gives each entity one of its own.
    pub uuid: String,
    pub attributes: Attributes,
    pub links: Links,
}

/// The model of a [`Video`].
pub struct VideoView {
    pub index: Seq<char>,
    pub score: NumberView,
    pub id: u32,
    pub kind: Seq<char>,
    pub uuid: Seq<char>,
    pub attributes: AttributesView,
    pub links: LinksView,
}

impl DeepView for Video {
    type V = VideoView;

    open spec fn deep_view(&self) -> VideoView {
        VideoView {
            index: self.index@,
            score: self.score.deep_view(),
            id: self.id,
            kind: self.kind@,
            uuid: self.uuid@,
            attributes: self.attributes.deep_view(),
            links: self.links.deep_view(),
        }
    }
}

impl Schema for Video {
    open spec fn valid(value: VideoView) -> bool {
        Attributes::valid(value.attributes)
    }

    #[verifier::opaque]
    open spec fn decoded(doc: JsonView) -> Result<VideoView, DecodeErrorView> {
        let index = required::<String>(doc, "index"@);
        let score = required::<Number>(doc, "score"@);
        let id = required::<u32>(doc, "id"@);
        let kind = required::<String>(doc, "kind"@);
        let uuid = required::<String>(doc, "uuid"@);
        let attributes = required::<Attributes>(doc, "attributes"@);
        let links = required::<Links>(doc, "links"@);
        if index is Err {
            Err(index->Err_0)
        } else if score is Err {
            Err(score->Err_0)
        } else if id is Err {
            Err(id->Err_0)
        } else if kind is Err {
            Err(kind->Err_0)
        } else if uuid is Err {
            Err(uuid->Err_0)
        } else if attributes is Err {
            Err(attributes->Err_0)
        } else if links is Err {
            Err(links->Err_0)
        } else {
            Ok(
                VideoView {
                    index: index->Ok_0,
                    score: score->Ok_0,
                    id: id->Ok_0,
                    kind: kind->Ok_0,
                    uuid: uuid->Ok_0,
                    attributes: attributes->Ok_0,
                    links: links->Ok_0,
                },
            )
        }
    }

    #[verifier::opaque]
    open spec fn encoded(value: VideoView) -> JsonView {
        let members = Map::empty();
        let members = with_required::<String>(members, "index"@, value.index);
        let members = with_required::<Number>(members, "score"@, value.score);
        let members = with_required::<u32>(members, "id"@, value.id);
        let members = with_required::<String>(members, "kind"@, value.kind);
        let members = with_required::<String>(members, "uuid"@, value.uuid);
        let members = with_required::<Attributes>(members, "attributes"@, value.attributes);
        let members = with_required::<Links>(members, "links"@, value.links);
        JsonView::Object(members)
    }

    fn decode(doc: &Json) -> (result: Result<Video, DecodeError>) {
        proof {
            reveal(<Video as Schema>::decoded);
        }
        let index = read_required::<String>(doc, "index")?;
        let score = read_required::<Number>(doc, "score")?;
        let id = read_required::<u32>(doc, "id")?;
        let kind = read_required::<String>(doc, "kind")?;
        let uuid = read_required::<String>(doc, "uuid")?;
        let attributes = read_required::<Attributes>(doc, "attributes")?;
        let links = read_required::<Links>(doc, "links")?;
        Ok(Video { index, score, id, kind, uuid, attributes, links })
    }

    fn encode(&self) -> (doc: Json) {
        proof {
            reveal(<Video as Schema>::encoded);
        }
        let doc = Json::object();
        let doc = write_required(doc, "index", &self.index);
        let doc = write_required(doc, "score", &self.score);
        let doc = write_required(doc, "id", &self.id);
        let doc = write_required(doc, "kind", &self.kind);
        let doc = write_required(doc, "uuid", &self.uuid);
        let doc = write_required(doc, "attributes", &self.attributes);
        let doc = write_required(doc, "links", &self.links);
        doc
    }

    proof fn decoded_is_valid(doc: JsonView) {
        reveal(<Video as Schema>::decoded);
        lemma_required_valid::<Attributes>(doc, "attributes"@);
    }

    proof fn encoded_decodes(value: VideoView) {
        reveal(<Video as Schema>::decoded);
        reveal(<Video as Schema>::encoded);
        lemma_attribute_names();
        let members = Self::encoded(value)->Object_0;
        lemma_reads_required::<String>(members, "index"@, value.index);
        lemma_reads_required::<Number>(members, "score"@, value.score);
        lemma_reads_required::<u32>(members, "id"@, value.id);
        lemma_reads_required::<String>(members, "kind"@, value.kind);
        lemma_reads_required::<String>(members, "uuid"@, value.uuid);
        lemma_reads_required::<Attributes>(members, "attributes"@, value.attributes);
        lemma_reads_required::<Links>(members, "links"@, value.links);
    }
}

/// Where a video plays from, which episode it shows and who may watch it.
#[derive(Debug, PartialEq, Eq)]
pub struct Attributes {
    /// The address of the playlist to play from.
    pub url: String,
    /// The number of the episode that this video shows.
    pub content_id: u32,
    /// The slug of the episode that this video shows.
    pub content_slug: String,
    /// The identifier of the episode that this video shows.
    pub content_uuid: String,
    /// When this goes live for everybody.
    pub public_golive_at: Timestamp,
    /// When this goes live for paying members.
    pub sponsor_golive_at: Timestamp,
    /// When this goes live for registered members.
    pub member_golive_at: Timestamp,
    /// What the address serves, such as `video`.
    pub media_type: String,
    /// The tier a viewer needs, such as `free`.
    pub member_tier: String,
    /// Whether the video may be embedded in other pages.
    pub embed: bool,
    /// Whether only paying members may watch.
    pub is_sponsors_only: bool,
    /// The pattern of the addresses of its thumbnails. Not every video has one.
    pub image_pattern_url: Option<String>,
    /// The address of the scene index. Not every video has one.
    pub bif_url: Option<String>,
    /// How advertising is placed. Not every video has it.
    pub ad_config: Option<AdConfig>,
}

/// The model of an [`Attributes`].
pub struct AttributesView {
    pub url: Seq<char>,
    pub content_id: u32,
    pub content_slug: Seq<char>,
    pub content_uuid: Seq<char>,
    pub public_golive_at: TimestampView,
    pub sponsor_golive_at: TimestampView,
    pub member_golive_at: TimestampView,
    pub media_type: Seq<char>,
    pub member_tier: Seq<char>,
    pub embed: bool,
    pub is_sponsors_only: bool,
    pub image_pattern_url: Option<Seq<char>>,
    pub bif_url: Option<Seq<char>>,
    pub ad_config: Option<AdConfigView>,
}

impl DeepView for Attributes {
    type V = AttributesView;

    open spec fn deep_view(&self) -> AttributesView {
        AttributesView {
            url: self.url@,
            content_id: self.content_id,
            content_slug: self.content_slug@,
            content_uuid: self.content_uuid@,
            public_golive_at: self.public_golive_at.deep_view(),
            sponsor_golive_at: self.sponsor_golive_at.deep_view(),
            member_golive_at: self.member_golive_at.deep_view(),
            media_type: self.media_type@,
            member_tier: self.member_tier@,
            embed: self.embed,
            is_sponsors_only: self.is_sponsors_only,
            image_pattern_url: self.image_pattern_url.deep_view(),
            bif_url: self.bif_url.deep_view(),
            ad_config: self.ad_config.deep_view(),
        }
    }
}

impl Schema for Attributes {
    open spec fn valid(value: AttributesView) -> bool {
        &&& Timestamp::valid(value.public_golive_at)
        &&& Timestamp::valid(value.sponsor_golive_at)
        &&& Timestamp::valid(value.member_golive_at)
    }

    #[verifier::opaque]
    open spec fn decoded(doc: JsonView) -> Result<AttributesView, DecodeErrorView> {
        let url = required::<String>(doc, "url"@);
        let content_id = required::<u32>(doc, "content_id"@);
        let content_slug = required::<String>(doc, "content_slug"@);
        let content_uuid = required::<String>(doc, "content_uuid"@);
        let public_golive_at = required::<Timestamp>(doc, "public_golive_at"@);
        let sponsor_golive_at = required::<Timestamp>(doc, "sponsor_golive_at"@);
        let member_golive_at = required::<Timestamp>(doc, "member_golive_at"@);
        let media_type = required::<String>(doc, "media_type"@);
        let member_tier = required::<String>(doc, "member_tier"@);
        let embed = required::<bool>(doc, "embed"@);
        let is_sponsors_only = required::<bool>(doc, "is_sponsors_only"@);
        let image_pattern_url = optional::<String>(doc, "image_pattern_url"@);
        let bif_url = optional::<String>(doc, "bif_url"@);
        let ad_config = optional::<AdConfig>(doc, "ad_config"@);
        if url is Err {
            Err(url->Err_0)
        } else if content_id is Err {
            Err(content_id->Err_0)
        } else if content_slug is Err {
            Err(content_slug->Err_0)
        } else if content_uuid is Err {
            Err(content_uuid->Err_0)
        } else if public_golive_at is Err {
            Err(public_golive_at->Err_0)
        } else if sponsor_golive_at is Err {
            Err(sponsor_golive_at->Err_0)
        } else if member_golive_at is Err {
            Err(member_golive_at->Err_0)
        } else if media_type is Err {
            Err(media_type->Err_0)
        } else if member_tier is Err {
            Err(member_tier->Err_0)
        } else if embed is Err {
            Err(embed->Err_0)
        } else if is_sponsors_only is Err {
            Err(is_sponsors_only->Err_0)
        } else if image_pattern_url is Err {
            Err(image_pattern_url->Err_0)
        } else if bif_url is Err {
            Err(bif_url->Err_0)
        } else if ad_config is Err {
            Err(ad_config->Err_0)
        } else {
            Ok(
                AttributesView {
                    url: url->Ok_0,
                    content_id: content_id->Ok_0,
                    content_slug: content_slug->Ok_0,
                    content_uuid: content_uuid->Ok_0,
                    public_golive_at: public_golive_at->Ok_0,
                    sponsor_golive_at: sponsor_golive_at->Ok_0,
                    member_golive_at: member_golive_at->Ok_0,
                    media_type: media_type->Ok_0,
                    member_tier: member_tier->Ok_0,
                    embed: embed->Ok_0,
                    is_sponsors_only: is_sponsors_only->Ok_0,
                    image_pattern_url: image_pattern_url->Ok_0,
                    bif_url: bif_url->Ok_0,
                    ad_config: ad_config->Ok_0,
                },
            )
        }
    }

    #[verifier::opaque]
    open spec fn encoded(value: AttributesView) -> JsonView {
        let members = Map::empty();
        let members = with_required::<String>(members, "url"@, value.url);
        let members = with_required::<u32>(members, "content_id"@, value.content_id);
        let members = with_required::<String>(members, "content_slug"@, value.content_slug);
        let members = with_required::<String>(members, "content_uuid"@, value.content_uuid);
        let members = with_required::<Timestamp>(
            members,
            "public_golive_at"@,
            value.public_golive_at,
        );
        let members = with_required::<Timestamp>(
            members,
            "sponsor_golive_at"@,
            value.sponsor_golive_at,
        );
        let members = with_required::<Timestamp>(
            members,
            "member_golive_at"@,
            value.member_golive_at,
        );
        let members = with_required::<String>(members, "media_type"@, value.media_type);
        let members = with_required::<String>(members, "member_tier"@, value.member_tier);
        let members = with_required::<bool>(members, "embed"@, value.embed);
        let members = with_required::<bool>(members, "is_sponsors_only"@, value.is_sponsors_only);
        let members = with_optional::<String>(
            members,
            "image_pattern_url"@,
            value.image_pattern_url,
        );
        let members = with_optional::<String>(members, "bif_url"@, value.bif_url);
        let members = with_optional::<AdConfig>(members, "ad_config"@, value.ad_config);
        JsonView::Object(members)
    }

    fn decode(doc: &Json) -> (result: Result<Attributes, DecodeError>) {
        proof {
            reveal(<Attributes as Schema>::decoded);
        }
        let url = read_required::<String>(doc, "url")?;
        let content_id = read_required::<u32>(doc, "content_id")?;
        let content_slug = read_required::<String>(doc, "content_slug")?;
        let content_uuid = read_required::<String>(doc, "content_uuid")?;
        let public_golive_at = read_required::<Timestamp>(doc, "public_golive_at")?;
        let sponsor_golive_at = read_required::<Timestamp>(doc, "sponsor_golive_at")?;
        let member_golive_at = read_required::<Timestamp>(doc, "member_golive_at")?;
        let media_type = read_required::<String>(doc, "media_type")?;
        let member_tier = read_required::<String>(doc, "member_tier")?;
        let embed = read_required::<bool>(doc, "embed")?;
        let is_sponsors_only = read_required::<bool>(doc, "is_sponsors_only")?;
        let image_pattern_url = read_optional::<String>(doc, "image_pattern_url")?;
        let bif_url = read_optional::<String>(doc, "bif_url")?;
        let ad_config = read_optional::<AdConfig>(doc, "ad_config")?;
        Ok(
            Attributes {
                url,
                content_id,
                content_slug,
                content_uuid,
                public_golive_at,
                sponsor_golive_at,
                member_golive_at,
                media_type,
                member_tier,
                embed,
                is_sponsors_only,
                image_pattern_url,
                bif_url,
                ad_config,
            },
        )
    }

    fn encode(&self) -> (doc: Json) {
        proof {
            reveal(<Attributes as Schema>::encoded);
        }
        let doc = Json::object();
        let doc = write_required(doc, "url", &self.url);
        let doc = write_required(doc, "content_id", &self.content_id);
        let doc = write_required(doc, "content_slug", &self.content_slug);
        let doc = write_required(doc, "content_uuid", &self.content_uuid);
        let doc = write_required(doc, "public_golive_at", &self.public_golive_at);
        let doc = write_required(doc, "sponsor_golive_at", &self.sponsor_golive_at);
        let doc = write_required(doc, "member_golive_at", &self.member_golive_at);
        let doc = write_required(doc, "media_type", &self.media_type);
        let doc = write_required(doc, "member_tier", &self.member_tier);
        let doc = write_required(doc, "embed", &self.embed);
        let doc = write_required(doc, "is_sponsors_only", &self.is_sponsors_only);
        let doc = write_optional(doc, "image_pattern_url", &self.image_pattern_url);
        let doc = write_optional(doc, "bif_url", &self.bif_url);
        let doc = write_optional(doc, "ad_config", &self.ad_config);
        doc
    }

    proof fn decoded_is_valid(doc: JsonView) {
        reveal(<Attributes as Schema>::decoded);
        lemma_required_valid::<Timestamp>(doc, "public_golive_at"@);
        lemma_required_valid::<Timestamp>(doc, "sponsor_golive_at"@);
        lemma_required_valid::<Timestamp>(doc, "member_golive_at"@);
    }

    proof fn encoded_decodes(value: AttributesView) {
        reveal(<Attributes as Schema>::decoded);
        reveal(<Attributes as Schema>::encoded);
        lemma_attribute_names();
        let members = Self::encoded(value)->Object_0;
        lemma_reads_required::<String>(members, "url"@, value.url);
        lemma_reads_required::<u32>(members, "content_id"@, value.content_id);
        lemma_reads_required::<String>(members, "content_slug"@, value.content_slug);
        lemma_reads_required::<String>(members, "content_uuid"@, value.content_uuid);
        lemma_reads_required::<Timestamp>(members, "public_golive_at"@, value.public_golive_at);
        lemma_reads_required::<Timestamp>(members, "sponsor_golive_at"@, value.sponsor_golive_at);
        lemma_reads_required::<Timestamp>(members, "member_golive_at"@, value.member_golive_at);
        lemma_reads_required::<String>(members, "media_type"@, value.media_type);
        lemma_reads_required::<String>(members, "member_tier"@, value.member_tier);
        lemma_reads_required::<bool>(members, "embed"@, value.embed);
        lemma_reads_required::<bool>(members, "is_sponsors_only"@, value.is_sponsors_only);
        lemma_reads_optional::<String>(members, "image_pattern_url"@, value.image_pattern_url);
        lemma_reads_optional::<String>(members, "bif_url"@, value.bif_url);
        lemma_reads_optional::<AdConfig>(members, "ad_config"@, value.ad_config);
    }
}

impl Attributes {
    /// Whether `attribute` is one that a document may leave out.
    pub open spec fn is_optional(attribute: Seq<char>) -> bool {
        attribute == "image_pattern_url"@
            || attribute == "bif_url"@
            || attribute == "ad_config"@
    }

    /// Whether `value` decodes as what the optional attribute `attribute`
    /// holds.
    pub open spec fn accepts(attribute: Seq<char>, value: JsonView) -> bool {
        if attribute == "image_pattern_url"@ {
            String::decoded(value) is Ok
        } else if attribute == "bif_url"@ {
            String::decoded(value) is Ok
        } else if attribute == "ad_config"@ {
            AdConfig::decoded(value) is Ok
        } else {
            false
        }
    }

    /// A document that decodes still decodes when an optional member is
    /// taken out of it.
    pub proof fn optional_may_be_absent(doc: JsonView, attribute: Seq<char>)
        requires
            Self::is_optional(attribute),
            Self::decoded(doc) is Ok,
        ensures
            Self::decoded(JsonView::Object(doc->Object_0.remove(wire_name(attribute)))) is Ok,
    {
        reveal(<Attributes as Schema>::decoded);
        reveal(required);
        reveal(optional);
        lemma_attribute_names();
    }

    /// A document that decodes still decodes when an optional member is
    /// set to a value that its attribute accepts.
    pub proof fn optional_may_be_present(
        doc: JsonView,
        attribute: Seq<char>,
        value: JsonView,
    )
        requires
            Self::is_optional(attribute),
            Self::accepts(attribute, value),
            Self::decoded(doc) is Ok,
        ensures
            Self::decoded(
                JsonView::Object(doc->Object_0.insert(wire_name(attribute), value)),
            ) is Ok,
    {
        reveal(<Attributes as Schema>::decoded);
        reveal(required);
        reveal(optional);
        lemma_attribute_names();
    }
}

/// How advertising is placed in a video.
#[derive(Debug, PartialEq, Eq)]
pub struct AdConfig {
    /// The number of the advertising network.
    pub nw: String,
    /// The number of the content with the advertising network.
    pub caid: String,
    /// The number of the fallback with the advertising network.
    pub afid: String,
    /// The player profile named to the advertising network.
    pub prof: String,
    /// The places where advertising may be cut in, in seconds. Not every
    /// video has them.
    pub ad_timestamps: Option<Vec<u32>>,
    /// The addresses that serve advertising before the video.
    pub preroll: Vec<String>,
    /// The addresses that serve advertising within the video.
    pub midroll: Vec<String>,
}

/// The model of an [`AdConfig`].
pub struct AdConfigView {
    pub nw: Seq<char>,
    pub caid: Seq<char>,
    pub afid: Seq<char>,
    pub prof: Seq<char>,
    pub ad_timestamps: Option<Seq<u32>>,
    pub preroll: Seq<Seq<char>>,
    pub midroll: Seq<Seq<char>>,
}

impl DeepView for AdConfig {
    type V = AdConfigView;

    open spec fn deep_view(&self) -> AdConfigView {
        AdConfigView {
            nw: self.nw@,
            caid: self.caid@,
            afid: self.afid@,
            prof: self.prof@,
            ad_timestamps: self.ad_timestamps.deep_view(),
            preroll: self.preroll.deep_view(),
            midroll: self.midroll.deep_view(),
        }
    }
}

impl Schema for AdConfig {
    open spec fn valid(value: AdConfigView) -> bool {
        true
    }

    #[verifier::opaque]
    open spec fn decoded(doc: JsonView) -> Result<AdConfigView, DecodeErrorView> {
        let nw = required::<String>(doc, "nw"@);
        let caid = required::<String>(doc, "caid"@);
        let afid = required::<String>(doc, "afid"@);
        let prof = required::<String>(doc, "prof"@);
        let ad_timestamps = optional::<Vec<u32>>(doc, "ad_timestamps"@);
        let preroll = required::<Vec<String>>(doc, "preroll"@);
        let midroll = required::<Vec<String>>(doc, "midroll"@);
        if nw is Err {
            Err(nw->Err_0)
        } else if caid is Err {
            Err(caid->Err_0)
        } else if afid is Err {
            Err(afid->Err_0)
        } else if prof is Err {
            Err(prof->Err_0)
        } else if ad_timestamps is Err {
            Err(ad_timestamps->Err_0)
        } else if preroll is Err {
            Err(preroll->Err_0)
        } else if midroll is Err {
            Err(midroll->Err_0)
        } else {
            Ok(
                AdConfigView {
                    nw: nw->Ok_0,
                    caid: caid->Ok_0,
                    afid: afid->Ok_0,
                    prof: prof->Ok_0,
                    ad_timestamps: ad_timestamps->Ok_0,
                    preroll: preroll->Ok_0,
                    midroll: midroll->Ok_0,
                },
            )
        }
    }

    #[verifier::opaque]
    open spec fn encoded(value: AdConfigView) -> JsonView {
        let members = Map::empty();
        let members = with_required::<String>(members, "nw"@, value.nw);
        let members = with_required::<String>(members, "caid"@, value.caid);
        let members = with_required::<String>(members, "afid"@, value.afid);
        let members = with_required::<String>(members, "prof"@, value.prof);
        let members = with_optional::<Vec<u32>>(members, "ad_timestamps"@, value.ad_timestamps);
        let members = with_required::<Vec<String>>(members, "preroll"@, value.preroll);
        let members = with_required::<Vec<String>>(members, "midroll"@, value.midroll);
        JsonView::Object(members)
    }

    fn decode(doc: &Json) -> (result: Result<AdConfig, DecodeError>) {
        proof {
            reveal(<AdConfig as Schema>::decoded);
        }
        let nw = read_required::<String>(doc, "nw")?;
        let caid = read_required::<String>(doc, "caid")?;
        let afid = read_required::<String>(doc, "afid")?;
        let prof = read_required::<String>(doc, "prof")?;
        let ad_timestamps = read_optional::<Vec<u32>>(doc, "ad_timestamps")?;
        let preroll = read_required::<Vec<String>>(doc, "preroll")?;
        let midroll = read_required::<Vec<String>>(doc, "midroll")?;
        Ok(AdConfig { nw, caid, afid, prof, ad_timestamps, preroll, midroll })
    }

    fn encode(&self) -> (doc: Json) {
        proof {
            reveal(<AdConfig as Schema>::encoded);
        }
        let doc = Json::object();
        let doc = write_required(doc, "nw", &self.nw);
        let doc = write_required(doc, "caid", &self.caid);
        let doc = write_required(doc, "afid", &self.afid);
        let doc = write_required(doc, "prof", &self.prof);
        let doc = write_optional(doc, "ad_timestamps", &self.ad_timestamps);
        let doc = write_required(doc, "preroll", &self.preroll);
        let doc = write_required(doc, "midroll", &self.midroll);
        doc
    }

    proof fn decoded_is_valid(doc: JsonView) {
    }

    proof fn encoded_decodes(value: AdConfigView) {
        reveal(<AdConfig as Schema>::decoded);
        reveal(<AdConfig as Schema>::encoded);
        lemma_attribute_names();
        let members = Self::encoded(value)->Object_0;
        lemma_reads_required::<String>(members, "nw"@, value.nw);
        lemma_reads_required::<String>(members, "caid"@, value.caid);
        lemma_reads_required::<String>(members, "afid"@, value.afid);
        lemma_reads_required::<String>(members, "prof"@, value.prof);
        lemma_reads_optional::<Vec<u32>>(members, "ad_timestamps"@, value.ad_timestamps);
        lemma_reads_required::<Vec<String>>(members, "preroll"@, value.preroll);
        lemma_reads_required::<Vec<String>>(members, "midroll"@, value.midroll);
    }
}

impl AdConfig {
    /// Whether `attribute` is one that a document may leave out.
    pub open spec fn is_optional(attribute: Seq<char>) -> bool {
        attribute == "ad_timestamps"@
    }

    /// Whether `value` decodes as what the optional attribute `attribute`
    /// holds.
    pub open spec fn accepts(attribute: Seq<char>, value: JsonView) -> bool {
        if attribute == "ad_timestamps"@ {
            Vec::<u32>::decoded(value) is Ok
        } else {
            false
        }
    }

    /// A document that decodes still decodes when an optional member is
    /// taken out of it.
    pub proof fn optional_may_be_absent(doc: JsonView, attribute: Seq<char>)
        requires
            Self::is_optional(attribute),
            Self::decoded(doc) is Ok,
        ensures
            Self::decoded(JsonView::Object(doc->Object_0.remove(wire_name(attribute)))) is Ok,
    {
        reveal(<AdConfig as Schema>::decoded);
        reveal(required);
        reveal(optional);
        lemma_attribute_names();
    }

    /// A document that decodes still decodes when an optional member is
    /// set to a value that its attribute accepts.
    pub proof fn optional_may_be_present(
        doc: JsonView,
        attribute: Seq<char>,
        value: JsonView,
    )
        requires
            Self::is_optional(attribute),
            Self::accepts(attribute, value),
            Self::decoded(doc) is Ok,
        ensures
            Self::decoded(
                JsonView::Object(doc->Object_0.insert(wire_name(attribute), value)),
            ) is Ok,
    {
        reveal(<AdConfig as Schema>::decoded);
        reveal(required);
        reveal(optional);
        lemma_attribute_names();
    }
}

/// Where to ask for what belongs to a video.
#[derive(Debug, PartialEq, Eq)]
pub struct Links {
    /// The address of this entity itself; `self` on the wire.
    pub reference: String,
    /// The episode that this video shows.
    pub content: String,
    /// Where to download the video, for episodes that allow it.
    pub download: String,
}

/// The model of a [`Links`].
pub struct LinksView {
    pub reference: Seq<char>,
    pub content: Seq<char>,
    pub download: Seq<char>,
}

impl DeepView for Links {
    type V = LinksView;

    open spec fn deep_view(&self) -> LinksView {
        LinksView { reference: self.reference@, content: self.content@, download: self.download@ }
    }
}

impl Schema for Links {
    open spec fn valid(value: LinksView) -> bool {
        true
    }

    #[verifier::opaque]
    open spec fn decoded(doc: JsonView) -> Result<LinksView, DecodeErrorView> {
        let reference = required::<String>(doc, "reference"@);
        let content = required::<String>(doc, "content"@);
        let download = required::<String>(doc, "download"@);
        if reference is Err {
            Err(reference->Err_0)
        } else if content is Err {
            Err(content->Err_0)
        } else if download is Err {
            Err(download->Err_0)
        } else {
            Ok(
                LinksView {
                    reference: reference->Ok_0,
                    content: content->Ok_0,
                    download: download->Ok_0,
                },
            )
        }
    }

    #[verifier::opaque]
    open spec fn encoded(value: LinksView) -> JsonView {
        let members = Map::empty();
        let members = with_required::<String>(members, "reference"@, value.reference);
        let members = with_required::<String>(members, "content"@, value.content);
        let members = with_required::<String>(members, "download"@, value.download);
        JsonView::Object(members)
    }

    fn decode(doc: &Json) -> (result: Result<Links, DecodeError>) {
        proof {
            reveal(<Links as Schema>::decoded);
        }
        let reference = read_required::<String>(doc, "reference")?;
        let content = read_required::<String>(doc, "content")?;
        let download = read_required::<String>(doc, "download")?;
        Ok(Links { reference, content, download })
    }

    fn encode(&self) -> (doc: Json) {
        proof {
            reveal(<Links as Schema>::encoded);
        }
        let doc = Json::object();
        let doc = write_required(doc, "reference", &self.reference);
        let doc = write_required(doc, "content", &self.content);
        let doc = write_required(doc, "download", &self.download);
        doc
    }

    proof fn decoded_is_valid(doc: JsonView) {
    }

    proof fn encoded_decodes(value: LinksView) {
        reveal(<Links as Schema>::decoded);
        reveal(<Links as Schema>::encoded);
        lemma_attribute_names();
        let members = Self::encoded(value)->Object_0;
        lemma_reads_required::<String>(members, "reference"@, value.reference);
        lemma_reads_required::<String>(members, "content"@, value.content);
        lemma_reads_required::<String>(members, "download"@, value.download);
    }
}

} // verus!
