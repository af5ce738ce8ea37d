//! How the attribute names are spelled, as far as proofs need it.
//!
//! Two names are told apart by their length and their first two letters; the
//! few that agree in all three are told apart by one more letter.

use vstd::prelude::*;

verus! {

/// The length of a name and its first two letters.
pub open spec fn marks(name: Seq<char>) -> (nat, char, char) {
    (name.len(), name[0], name[1])
}

/// The marks of every attribute name and wire name that a record reads.
pub proof fn lemma_attribute_names()
    ensures
        marks("_index"@) == (6nat, '_', 'i'),
        marks("_score"@) == (6nat, '_', 's'),
        marks("access_token"@) == (12nat, 'a', 'c'),
        marks("ad_config"@) == (9nat, 'a', 'd'),
        marks("ad_timestamps"@) == (13nat, 'a', 'd'),
        marks("advert_config"@) == (13nat, 'a', 'd'),
        marks("advertising"@) == (11nat, 'a', 'd'),
        marks("afid"@) == (4nat, 'a', 'f'),
        marks("attributes"@) == (10nat, 'a', 't'),
        marks("bif_url"@) == (7nat, 'b', 'i'),
        marks("blacklisted_countries"@) == (21nat, 'b', 'l'),
        marks("bonus_features"@) == (14nat, 'b', 'o'),
        marks("brand_color"@) == (11nat, 'b', 'r'),
        marks("caid"@) == (4nat, 'c', 'a'),
        marks("canonical_links"@) == (15nat, 'c', 'a'),
        marks("caption"@) == (7nat, 'c', 'a'),
        marks("cast_members"@) == (12nat, 'c', 'a'),
        marks("category"@) == (8nat, 'c', 'a'),
        marks("channel"@) == (7nat, 'c', 'h'),
        marks("channel_id"@) == (10nat, 'c', 'h'),
        marks("channel_slug"@) == (12nat, 'c', 'h'),
        marks("content"@) == (7nat, 'c', 'o'),
        marks("content_id"@) == (10nat, 'c', 'o'),
        marks("content_slug"@) == (12nat, 'c', 'o'),
        marks("content_uuid"@) == (12nat, 'c', 'o'),
        marks("created_at"@) == (10nat, 'c', 'r'),
        marks("data"@) == (4nat, 'd', 'a'),
        marks("description"@) == (11nat, 'd', 'e'),
        marks("display_title"@) == (13nat, 'd', 'i'),
        marks("download"@) == (8nat, 'd', 'o'),
        marks("downloadable"@) == (12nat, 'd', 'o'),
        marks("embed"@) == (5nat, 'e', 'm'),
        marks("episode_count"@) == (13nat, 'e', 'p'),
        marks("episode_order"@) == (13nat, 'e', 'p'),
        marks("episodes"@) == (8nat, 'e', 'p'),
        marks("episodes_available"@) == (18nat, 'e', 'p'),
        marks("expires_in"@) == (10nat, 'e', 'x'),
        marks("featured_items"@) == (14nat, 'f', 'e'),
        marks("genres"@) == (6nat, 'g', 'e'),
        marks("id"@) == (2nat, 'i', 'd'),
        marks("image_pattern_url"@) == (17nat, 'i', 'm'),
        marks("image_type"@) == (10nat, 'i', 'm'),
        marks("images"@) == (6nat, 'i', 'm'),
        marks("importance"@) == (10nat, 'i', 'm'),
        marks("included"@) == (8nat, 'i', 'n'),
        marks("index"@) == (5nat, 'i', 'n'),
        marks("is_live"@) == (7nat, 'i', 's'),
        marks("is_schedulable"@) == (14nat, 'i', 's'),
        marks("is_sponsors_only"@) == (16nat, 'i', 's'),
        marks("kind"@) == (4nat, 'k', 'i'),
        marks("large"@) == (5nat, 'l', 'a'),
        marks("last_episode_golive_at"@) == (22nat, 'l', 'a'),
        marks("latest_episode"@) == (14nat, 'l', 'a'),
        marks("length"@) == (6nat, 'l', 'e'),
        marks("links"@) == (5nat, 'l', 'i'),
        marks("livestreams"@) == (11nat, 'l', 'i'),
        marks("media_type"@) == (10nat, 'm', 'e'),
        marks("medium"@) == (6nat, 'm', 'e'),
        marks("member"@) == (6nat, 'm', 'e'),
        marks("member_golive_at"@) == (16nat, 'm', 'e'),
        marks("member_tier"@) == (11nat, 'm', 'e'),
        marks("member_tier_i"@) == (13nat, 'm', 'e'),
        marks("midroll"@) == (7nat, 'm', 'i'),
        marks("name"@) == (4nat, 'n', 'a'),
        marks("next"@) == (4nat, 'n', 'e'),
        marks("number"@) == (6nat, 'n', 'u'),
        marks("nw"@) == (2nat, 'n', 'w'),
        marks("orientation"@) == (11nat, 'o', 'r'),
        marks("original_air_date"@) == (17nat, 'o', 'r'),
        marks("page"@) == (4nat, 'p', 'a'),
        marks("per_page"@) == (8nat, 'p', 'e'),
        marks("preroll"@) == (7nat, 'p', 'r'),
        marks("product_collections"@) == (19nat, 'p', 'r'),
        marks("products"@) == (8nat, 'p', 'r'),
        marks("prof"@) == (4nat, 'p', 'r'),
        marks("public"@) == (6nat, 'p', 'u'),
        marks("public_golive_at"@) == (16nat, 'p', 'u'),
        marks("published_at"@) == (12nat, 'p', 'u'),
        marks("reference"@) == (9nat, 'r', 'e'),
        marks("refresh_token"@) == (13nat, 'r', 'e'),
        marks("related"@) == (7nat, 'r', 'e'),
        marks("related_shows"@) == (13nat, 'r', 'e'),
        marks("rich_card_reference_url"@) == (23nat, 'r', 'i'),
        marks("s1e1"@) == (4nat, 's', '1'),
        marks("scope"@) == (5nat, 's', 'c'),
        marks("score"@) == (5nat, 's', 'c'),
        marks("season"@) == (6nat, 's', 'e'),
        marks("season_count"@) == (12nat, 's', 'e'),
        marks("season_id"@) == (9nat, 's', 'e'),
        marks("season_number"@) == (13nat, 's', 'e'),
        marks("season_order"@) == (12nat, 's', 'e'),
        marks("season_slug"@) == (11nat, 's', 'e'),
        marks("seasons"@) == (7nat, 's', 'e'),
        marks("self"@) == (4nat, 's', 'e'),
        marks("show"@) == (4nat, 's', 'h'),
        marks("show_id"@) == (7nat, 's', 'h'),
        marks("show_slug"@) == (9nat, 's', 'h'),
        marks("show_title"@) == (10nat, 's', 'h'),
        marks("shows"@) == (5nat, 's', 'h'),
        marks("slug"@) == (4nat, 's', 'l'),
        marks("small"@) == (5nat, 's', 'm'),
        marks("sort"@) == (4nat, 's', 'o'),
        marks("sort_number"@) == (11nat, 's', 'o'),
        marks("sponsor"@) == (7nat, 's', 'p'),
        marks("sponsor_golive_at"@) == (17nat, 's', 'p'),
        marks("summary"@) == (7nat, 's', 'u'),
        marks("tag"@) == (3nat, 't', 'a'),
        marks("tags"@) == (4nat, 't', 'a'),
        marks("thumb"@) == (5nat, 't', 'h'),
        marks("title"@) == (5nat, 't', 'i'),
        marks("token_type"@) == (10nat, 't', 'o'),
        marks("total_pages"@) == (11nat, 't', 'o'),
        marks("total_results"@) == (13nat, 't', 'o'),
        marks("type"@) == (4nat, 't', 'y'),
        marks("updated_at"@) == (10nat, 'u', 'p'),
        marks("upsell_next"@) == (11nat, 'u', 'p'),
        marks("url"@) == (3nat, 'u', 'r'),
        marks("user_id"@) == (7nat, 'u', 's'),
        marks("uuid"@) == (4nat, 'u', 'u'),
        marks("videos"@) == (6nat, 'v', 'i'),
        "ad_timestamps"@[2] == '_',
        "advert_config"@[2] == 'v',
        "content_slug"@[8] == 's',
        "content_uuid"@[8] == 'u',
        "episode_count"@[8] == 'c',
        "episode_order"@[8] == 'o',
        "image_type"@[2] == 'a',
        "importance"@[2] == 'p',
        "medium"@[2] == 'd',
        "member"@[2] == 'm',
        "refresh_token"@[2] == 'f',
        "related_shows"@[2] == 'l',
        "scope"@[3] == 'p',
        "score"@[3] == 'r',
        "season_count"@[7] == 'c',
        "season_order"@[7] == 'o',
{
    reveal_strlit("_index");
    reveal_strlit("_score");
    reveal_strlit("access_token");
    reveal_strlit("ad_config");
    reveal_strlit("ad_timestamps");
    reveal_strlit("advert_config");
    reveal_strlit("advertising");
    reveal_strlit("afid");
    reveal_strlit("attributes");
    reveal_strlit("bif_url");
    reveal_strlit("blacklisted_countries");
    reveal_strlit("bonus_features");
    reveal_strlit("brand_color");
    reveal_strlit("caid");
    reveal_strlit("canonical_links");
    reveal_strlit("caption");
    reveal_strlit("cast_members");
    reveal_strlit("category");
    reveal_strlit("channel");
    reveal_strlit("channel_id");
    reveal_strlit("channel_slug");
    reveal_strlit("content");
    reveal_strlit("content_id");
    reveal_strlit("content_slug");
    reveal_strlit("content_uuid");
    reveal_strlit("created_at");
    reveal_strlit("data");
    reveal_strlit("description");
    reveal_strlit("display_title");
    reveal_strlit("download");
    reveal_strlit("downloadable");
    reveal_strlit("embed");
    reveal_strlit("episode_count");
    reveal_strlit("episode_order");
    reveal_strlit("episodes");
    reveal_strlit("episodes_available");
    reveal_strlit("expires_in");
    reveal_strlit("featured_items");
    reveal_strlit("genres");
    reveal_strlit("id");
    reveal_strlit("image_pattern_url");
    reveal_strlit("image_type");
    reveal_strlit("images");
    reveal_strlit("importance");
    reveal_strlit("included");
    reveal_strlit("index");
    reveal_strlit("is_live");
    reveal_strlit("is_schedulable");
    reveal_strlit("is_sponsors_only");
    reveal_strlit("kind");
    reveal_strlit("large");
    reveal_strlit("last_episode_golive_at");
    reveal_strlit("latest_episode");
    reveal_strlit("length");
    reveal_strlit("links");
    reveal_strlit("livestreams");
    reveal_strlit("media_type");
    reveal_strlit("medium");
    reveal_strlit("member");
    reveal_strlit("member_golive_at");
    reveal_strlit("member_tier");
    reveal_strlit("member_tier_i");
    reveal_strlit("midroll");
    reveal_strlit("name");
    reveal_strlit("next");
    reveal_strlit("number");
    reveal_strlit("nw");
    reveal_strlit("orientation");
    reveal_strlit("original_air_date");
    reveal_strlit("page");
    reveal_strlit("per_page");
    reveal_strlit("preroll");
    reveal_strlit("product_collections");
    reveal_strlit("products");
    reveal_strlit("prof");
    reveal_strlit("public");
    reveal_strlit("public_golive_at");
    reveal_strlit("published_at");
    reveal_strlit("reference");
    reveal_strlit("refresh_token");
    reveal_strlit("related");
    reveal_strlit("related_shows");
    reveal_strlit("rich_card_reference_url");
    reveal_strlit("s1e1");
    reveal_strlit("scope");
    reveal_strlit("score");
    reveal_strlit("season");
    reveal_strlit("season_count");
    reveal_strlit("season_id");
    reveal_strlit("season_number");
    reveal_strlit("season_order");
    reveal_strlit("season_slug");
    reveal_strlit("seasons");
    reveal_strlit("self");
    reveal_strlit("show");
    reveal_strlit("show_id");
    reveal_strlit("show_slug");
    reveal_strlit("show_title");
    reveal_strlit("shows");
    reveal_strlit("slug");
    reveal_strlit("small");
    reveal_strlit("sort");
    reveal_strlit("sort_number");
    reveal_strlit("sponsor");
    reveal_strlit("sponsor_golive_at");
    reveal_strlit("summary");
    reveal_strlit("tag");
    reveal_strlit("tags");
    reveal_strlit("thumb");
    reveal_strlit("title");
    reveal_strlit("token_type");
    reveal_strlit("total_pages");
    reveal_strlit("total_results");
    reveal_strlit("type");
    reveal_strlit("updated_at");
    reveal_strlit("upsell_next");
    reveal_strlit("url");
    reveal_strlit("user_id");
    reveal_strlit("uuid");
    reveal_strlit("videos");
}

} // verus!
