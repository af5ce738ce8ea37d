use roosterteeth_rs::json::{Json, Member, Number};
use roosterteeth_rs::schema::{
    read_optional, read_required, wire, write_optional, write_required, DecodeError, Fault, Schema,
    Step,
};
use roosterteeth_rs::structs::common::{Image, ImageAttributes};
use roosterteeth_rs::structs::{channels, episodes, seasons, series, videos};
use roosterteeth_rs::timestamp::Timestamp;
use roosterteeth_rs::token::Token;

fn json(value: &serde_json::Value) -> Json {
    match value {
        serde_json::Value::Null => Json::Null,
        serde_json::Value::Bool(b) => Json::Bool(*b),
        serde_json::Value::Number(n) => {
            if let Some(u) = n.as_u64() {
                Json::Number(Number::Integer(u as i128))
            } else if let Some(i) = n.as_i64() {
                Json::Number(Number::Integer(i as i128))
            } else {
                Json::Number(Number::Real(n.as_f64().unwrap().to_bits()))
            }
        }
        serde_json::Value::String(s) => Json::Text(s.clone()),
        serde_json::Value::Array(items) => Json::Array(items.iter().map(json).collect()),
        serde_json::Value::Object(members) => Json::Object(
            members
                .iter()
                .map(|(name, value)| Member { name: name.clone(), value: json(value) })
                .collect(),
        ),
    }
}

fn parse(text: &str) -> Json {
    json(&serde_json::from_str(text).unwrap())
}

fn value(doc: &Json) -> serde_json::Value {
    match doc {
        Json::Null => serde_json::Value::Null,
        Json::Bool(b) => serde_json::Value::from(*b),
        Json::Number(Number::Integer(i)) => {
            if *i < 0 {
                serde_json::Value::from(*i as i64)
            } else {
                serde_json::Value::from(*i as u64)
            }
        }
        Json::Number(Number::Real(bits)) => serde_json::Value::from(f64::from_bits(*bits)),
        Json::Text(s) => serde_json::Value::from(s.clone()),
        Json::Array(items) => serde_json::Value::Array(items.iter().map(value).collect()),
        Json::Object(members) => serde_json::Value::Object(
            members.iter().map(|m| (m.name.clone(), value(&m.value))).collect(),
        ),
    }
}

fn same(doc: &Json, text: &str) -> bool {
    value(doc) == serde_json::from_str::<serde_json::Value>(text).unwrap()
}

fn text(s: &str) -> Json {
    Json::Text(s.to_string())
}

fn integer(i: i128) -> Json {
    Json::Number(Number::Integer(i))
}

fn here(fault: Fault) -> DecodeError {
    DecodeError { path: vec![], fault }
}

fn at(name: &str, fault: Fault) -> DecodeError {
    DecodeError { path: vec![Step::Member(name.to_string())], fault }
}

const IMAGE: &str = r#"{"id": 41, "uuid": "0aa1b9e5-5e3c-4d3e-9f0b-1c1c1f2cf6a1", "type": "image",
    "attributes": {"thumb": "https://cdn.example/thumb.jpg", "small": "https://cdn.example/small.jpg",
    "medium": "https://cdn.example/medium.jpg", "large": "https://cdn.example/large.jpg",
    "orientation": "landscape", "image_type": "cover"}}"#;

const SERIES_LINKS: &str = r#"{"self": "/api/v1/shows/camp-camp",
    "seasons": "/api/v1/shows/camp-camp/seasons",
    "bonus_features": "/api/v1/shows/camp-camp/bonus_features",
    "related": "/api/v1/shows/camp-camp/related",
    "product_collections": "/api/v1/shows/camp-camp/product_collections",
    "latest_episode": "/api/v1/watch/camp-camp-latest", "s1e1": "/api/v1/watch/camp-camp-s1e1",
    "rich_card_reference_url": "/api/v1/rich_cards/camp-camp"}"#;

const EPISODE: &str = r#"{"_index": "episodes-production-en_20200108090014250", "type": "episode",
    "sort": [10001], "id": 23242, "uuid": "ffac28dc-464d-11e7-a302-065410f210c4",
    "attributes": {"title": "Episode 1: Why Are We Here?", "slug": "red-vs-blue-season-1-episode-1",
        "caption": "Why Are We Here?", "number": 1,
        "description": "Two soldiers wonder what it is all for.",
        "display_title": "S1:E1 - Episode 1: Why Are We Here?", "length": 256,
        "advert_config": "standard", "advertising": true, "ad_timestamps": "60.00,120.00,180.00",
        "public_golive_at": "2003-04-01T06:00:00.000Z",
        "sponsor_golive_at": "2003-04-01T06:00:00.000Z",
        "member_golive_at": "2003-04-01T06:00:00.000Z",
        "original_air_date": "2003-04-01T00:00:00.000-06:00",
        "channel_id": "92b6bb21-91d2-4b1b-bf95-3268fa0d9939", "channel_slug": "rooster-teeth",
        "season_id": "ffa11de8-464d-11e7-a302-065410f210c4", "season_slug": "red-vs-blue-season-1",
        "season_number": 1, "show_title": "Red vs. Blue",
        "show_id": "ff925ff9-464d-11e7-a302-065410f210c4", "show_slug": "red-vs-blue",
        "is_sponsors_only": false, "member_tier_i": -1, "sort_number": 10001,
        "genres": ["Action Packed", "Full of Laughs"], "is_live": true, "is_schedulable": true,
        "season_order": "desc", "episode_order": "asc", "downloadable": true,
        "blacklisted_countries": ["XK"], "upsell_next": false},
    "links": {"self": "/api/v1/watch/red-vs-blue-season-1-episode-1",
        "show": "/api/v1/shows/red-vs-blue", "related_shows": "/api/v1/shows/red-vs-blue/related",
        "channel": "/api/v1/channels/rooster-teeth",
        "season": "/api/v1/seasons/red-vs-blue-season-1",
        "next": "/api/v1/watch/red-vs-blue-season-1-episode-1/next",
        "videos": "/api/v1/watch/red-vs-blue-season-1-episode-1/videos",
        "products": "/api/v1/watch/red-vs-blue-season-1-episode-1/products"},
    "canonical_links": {"self": "/watch/red-vs-blue-season-1-episode-1",
        "show": "/series/red-vs-blue"},
    "included": {"images": [],
        "tags": [{"id": "7", "uuid": "5d2b1a53-8e0c-4b7a-8a4e-3f6c3e1d2b10", "type": "tag",
            "attributes": {"tag": "Halo", "slug": "halo"}}],
        "cast_members": [{"id": "3", "uuid": "a3c0f3b5-1c5b-4f1e-a1a1-0d9f6a3c9b21",
            "type": "cast_member", "attributes": {"name": "Burnie Burns"}}]}}"#;

const VIDEO: &str = r#"{"_index": "videos-production-en_20200108090000000", "_score": 1.5,
    "id": 5012, "type": "video", "uuid": "48bb3e93-04ea-4f90-a6ec-f9aff2c79dfa",
    "attributes": {"url": "https://cdn.example/index.m3u8", "content_id": 20184,
        "content_slug": "magic-dogs", "content_uuid": "0006f0d4-464e-11e7-a302-065410f210c4",
        "public_golive_at": "2015-11-24T14:00:00.000Z",
        "sponsor_golive_at": "2015-11-24T14:00:00.000Z",
        "member_golive_at": "2015-11-24T14:00:00.000Z", "media_type": "video",
        "member_tier": "free", "embed": true, "is_sponsors_only": false,
        "image_pattern_url": "https://cdn.example/thumb-{index}.jpg",
        "bif_url": "https://cdn.example/index.bif",
        "ad_config": {"nw": "517028", "caid": "20184", "afid": "1", "prof": "web",
            "ad_timestamps": [60, 120], "preroll": ["https://ads.example/pre"],
            "midroll": ["https://ads.example/mid"]}},
    "links": {"self": "/api/v1/videos/48bb3e93", "content": "/api/v1/watch/magic-dogs",
        "download": "/api/v1/videos/48bb3e93/download"}}"#;

fn without(doc: &str, member: &str) -> Json {
    let mut value: serde_json::Value = serde_json::from_str(doc).unwrap();
    remove(&mut value, member);
    json(&value)
}

fn remove(value: &mut serde_json::Value, member: &str) -> bool {
    match value {
        serde_json::Value::Object(members) => {
            if members.remove(member).is_some() {
                return true;
            }
            members.values_mut().any(|inner| remove(inner, member))
        }
        serde_json::Value::Array(items) => items.iter_mut().any(|inner| remove(inner, member)),
        _ => false,
    }
}

fn with(doc: &str, member: &str, new: serde_json::Value) -> Json {
    let mut value: serde_json::Value = serde_json::from_str(doc).unwrap();
    assert!(replace(&mut value, member, &new));
    json(&value)
}

fn replace(value: &mut serde_json::Value, member: &str, new: &serde_json::Value) -> bool {
    match value {
        serde_json::Value::Object(members) => {
            if members.contains_key(member) {
                members.insert(member.to_string(), new.clone());
                return true;
            }
            members.values_mut().any(|inner| replace(inner, member, new))
        }
        serde_json::Value::Array(items) => {
            items.iter_mut().any(|inner| replace(inner, member, new))
        }
        _ => false,
    }
}

#[test]
fn truth_values_decode_from_booleans_only() {
    assert_eq!(bool::decode(&Json::Bool(true)), Ok(true));
    assert_eq!(bool::decode(&Json::Bool(false)), Ok(false));
    assert_eq!(bool::decode(&integer(1)), Err(here(Fault::Mismatch)));
    assert_eq!(bool::decode(&text("true")), Err(here(Fault::Mismatch)));
    assert_eq!(bool::decode(&Json::Null), Err(here(Fault::Mismatch)));
    assert_eq!(true.encode(), Json::Bool(true));
}

#[test]
fn integers_keep_their_width() {
    assert_eq!(u16::decode(&integer(0)), Ok(0));
    assert_eq!(u16::decode(&integer(65535)), Ok(65535));
    assert_eq!(u16::decode(&integer(65536)), Err(here(Fault::OutOfRange)));
    assert_eq!(u16::decode(&integer(-1)), Err(here(Fault::OutOfRange)));
    assert_eq!(u32::decode(&integer(4294967295)), Ok(4294967295));
    assert_eq!(u32::decode(&integer(4294967296)), Err(here(Fault::OutOfRange)));
    assert_eq!(u64::decode(&integer(18446744073709551615)), Ok(18446744073709551615));
    assert_eq!(u64::decode(&integer(18446744073709551616)), Err(here(Fault::OutOfRange)));
    assert_eq!(u64::decode(&integer(-1)), Err(here(Fault::OutOfRange)));
    assert_eq!(i8::decode(&integer(-128)), Ok(-128));
    assert_eq!(i8::decode(&integer(127)), Ok(127));
    assert_eq!(i8::decode(&integer(128)), Err(here(Fault::OutOfRange)));
    assert_eq!(i8::decode(&integer(-129)), Err(here(Fault::OutOfRange)));
}

#[test]
fn integers_decode_from_integers_only() {
    let real = Json::Number(Number::Real(1.0f64.to_bits()));
    assert_eq!(u16::decode(&real), Err(here(Fault::Mismatch)));
    assert_eq!(u32::decode(&text("7")), Err(here(Fault::Mismatch)));
    assert_eq!(u64::decode(&Json::Null), Err(here(Fault::Mismatch)));
    assert_eq!(i8::decode(&Json::Bool(false)), Err(here(Fault::Mismatch)));
}

#[test]
fn integers_encode_as_integers() {
    assert_eq!(7u16.encode(), integer(7));
    assert_eq!(4294967295u32.encode(), integer(4294967295));
    assert_eq!(u64::MAX.encode(), integer(18446744073709551615));
    assert_eq!((-1i8).encode(), integer(-1));
}

#[test]
fn text_decodes_from_strings_only() {
    assert_eq!(String::decode(&text("Magic Dogs & Muscle Men")), Ok("Magic Dogs & Muscle Men".to_string()));
    assert_eq!(String::decode(&text("")), Ok(String::new()));
    assert_eq!(String::decode(&integer(3)), Err(here(Fault::Mismatch)));
    assert_eq!(String::decode(&Json::Null), Err(here(Fault::Mismatch)));
    assert_eq!("a".to_string().encode(), text("a"));
}

#[test]
fn numbers_keep_integers_and_reals_apart() {
    assert_eq!(Number::decode(&integer(1)), Ok(Number::Integer(1)));
    let bits = 1.5f64.to_bits();
    assert_eq!(Number::decode(&Json::Number(Number::Real(bits))), Ok(Number::Real(bits)));
    assert_eq!(Number::decode(&text("1.5")), Err(here(Fault::Mismatch)));
    assert_eq!(Number::Real(bits).encode(), Json::Number(Number::Real(bits)));
}

#[test]
fn lists_decode_item_by_item() {
    let doc = parse(r#"["Comedy", "Drama"]"#);
    assert_eq!(
        Vec::<String>::decode(&doc),
        Ok(vec!["Comedy".to_string(), "Drama".to_string()])
    );
    assert_eq!(Vec::<u32>::decode(&parse("[]")), Ok(vec![]));
    assert_eq!(Vec::<u32>::decode(&parse("{}")), Err(here(Fault::Mismatch)));
    assert_eq!(vec![60u32, 120].encode(), parse("[60, 120]"));
}

#[test]
fn first_faulty_item_makes_the_error() {
    let doc = parse(r#"[1, "two", 70000, false]"#);
    assert_eq!(
        Vec::<u16>::decode(&doc),
        Err(DecodeError { path: vec![Step::Item(1)], fault: Fault::Mismatch })
    );
    let doc = parse(r#"[1, 70000, "three"]"#);
    assert_eq!(
        Vec::<u16>::decode(&doc),
        Err(DecodeError { path: vec![Step::Item(1)], fault: Fault::OutOfRange })
    );
}

#[test]
fn renamed_attributes_are_read_under_their_wire_name() {
    assert_eq!(wire("kind"), "type");
    assert_eq!(wire("reference"), "self");
    assert_eq!(wire("index"), "_index");
    assert_eq!(wire("score"), "_score");
    assert_eq!(wire("title"), "title");
    assert_eq!(wire("type"), "type");
    assert_eq!(wire(""), "");

    let image = Image::decode(&parse(IMAGE)).unwrap();
    assert_eq!(image.kind, "image");
    let links = series::Links::decode(&parse(SERIES_LINKS)).unwrap();
    assert_eq!(links.reference, "/api/v1/shows/camp-camp");
    let video = videos::Video::decode(&parse(VIDEO)).unwrap();
    assert_eq!(video.index, "videos-production-en_20200108090000000");
    assert_eq!(video.score, Number::Real(1.5f64.to_bits()));
}

#[test]
fn attribute_name_is_not_read_in_place_of_the_wire_name() {
    let doc = parse(&IMAGE.replace("\"type\"", "\"kind\""));
    assert_eq!(Image::decode(&doc), Err(at("type", Fault::Missing)));
}

#[test]
fn required_and_optional_attributes() {
    let doc = parse(r#"{"a": 1, "b": null, "type": "x"}"#);
    assert_eq!(read_required::<u16>(&doc, "a"), Ok(1));
    assert_eq!(read_required::<u16>(&doc, "b"), Err(at("b", Fault::Mismatch)));
    assert_eq!(read_required::<u16>(&doc, "c"), Err(at("c", Fault::Missing)));
    assert_eq!(read_required::<String>(&doc, "kind"), Ok("x".to_string()));
    assert_eq!(read_optional::<u16>(&doc, "a"), Ok(Some(1)));
    assert_eq!(read_optional::<u16>(&doc, "b"), Ok(None));
    assert_eq!(read_optional::<u16>(&doc, "c"), Ok(None));
    assert_eq!(read_optional::<String>(&doc, "a"), Err(at("a", Fault::Mismatch)));
    assert_eq!(read_required::<u16>(&parse("[1]"), "a"), Err(here(Fault::Mismatch)));
    assert_eq!(read_optional::<u16>(&parse("[1]"), "a"), Err(here(Fault::Mismatch)));
}

#[test]
fn writing_attributes() {
    let doc = write_required(Json::object(), "kind", &"image".to_string());
    let doc = write_optional(doc, "sort", &Some(vec![3u16]));
    let doc = write_optional::<u16>(doc, "page", &None);
    assert!(same(&doc, r#"{"type": "image", "sort": [3]}"#));
    assert_eq!(doc.get("page"), None);
}

#[test]
fn missing_required_member_is_an_error() {
    assert_eq!(Image::decode(&without(IMAGE, "uuid")), Err(at("uuid", Fault::Missing)));
    assert_eq!(
        Image::decode(&without(IMAGE, "large")),
        Err(DecodeError {
            path: vec![Step::Member("attributes".to_string()), Step::Member("large".to_string())],
            fault: Fault::Missing,
        })
    );
    assert_eq!(
        episodes::Episode::decode(&without(EPISODE, "upsell_next")),
        Err(DecodeError {
            path: vec![
                Step::Member("attributes".to_string()),
                Step::Member("upsell_next".to_string()),
            ],
            fault: Fault::Missing,
        })
    );
    assert_eq!(
        videos::Video::decode(&without(VIDEO, "download")),
        Err(DecodeError {
            path: vec![Step::Member("links".to_string()), Step::Member("download".to_string())],
            fault: Fault::Missing,
        })
    );
}

#[test]
fn first_fault_in_declaration_order_is_reported() {
    let doc = parse(r#"{"id": "41", "type": 7}"#);
    assert_eq!(Image::decode(&doc), Err(at("id", Fault::Mismatch)));
    let doc = parse(r#"{"id": 41, "type": 7}"#);
    assert_eq!(Image::decode(&doc), Err(at("uuid", Fault::Missing)));
}

#[test]
fn mismatched_member_is_an_error() {
    let doc = with(IMAGE, "id", serde_json::Value::from("41"));
    assert_eq!(Image::decode(&doc), Err(at("id", Fault::Mismatch)));
    let doc = with(IMAGE, "id", serde_json::Value::from(4294967296u64));
    assert_eq!(Image::decode(&doc), Err(at("id", Fault::OutOfRange)));
    let doc = with(IMAGE, "attributes", serde_json::Value::from("none"));
    assert_eq!(Image::decode(&doc), Err(at("attributes", Fault::Mismatch)));
    let doc = with(EPISODE, "member_tier_i", serde_json::Value::from(200));
    assert_eq!(
        episodes::Episode::decode(&doc).unwrap_err().describe(),
        "$.attributes.member_tier_i is out of range"
    );
    assert_eq!(Image::decode(&parse("[]")), Err(here(Fault::Mismatch)));
    assert_eq!(Image::decode(&Json::Null), Err(here(Fault::Mismatch)));
}

#[test]
fn errors_are_described_by_path_and_fault() {
    assert_eq!(here(Fault::Mismatch).describe(), "$ has the wrong type");
    assert_eq!(at("uuid", Fault::Missing).describe(), "$.uuid is missing");
    let error = DecodeError {
        path: vec![
            Step::Member("data".to_string()),
            Step::Item(12),
            Step::Member("attributes".to_string()),
            Step::Member("published_at".to_string()),
        ],
        fault: Fault::Timestamp,
    };
    assert_eq!(error.describe(), "$.data[12].attributes.published_at is no date and time");
    let error = DecodeError { path: vec![Step::Item(0), Step::Item(7)], fault: Fault::OutOfRange };
    assert_eq!(error.describe(), "$[0][7] is out of range");
}

#[test]
fn errors_are_seen_from_further_out() {
    let error = DecodeError::here(Fault::Missing);
    assert_eq!(error, here(Fault::Missing));
    let error = error.under(Step::Member("slug".to_string())).under(Step::Item(4));
    assert_eq!(
        error,
        DecodeError {
            path: vec![Step::Item(4), Step::Member("slug".to_string())],
            fault: Fault::Missing
        }
    );
}

#[test]
fn unknown_members_are_passed_over() {
    let doc = with(IMAGE, "orientation", serde_json::Value::from("portrait"));
    let doc = match doc {
        Json::Object(mut members) => {
            members.push(Member { name: "links".to_string(), value: Json::Bool(false) });
            Json::Object(members)
        }
        other => other,
    };
    let image = Image::decode(&doc).unwrap();
    assert_eq!(image.attributes.orientation, "portrait");
}

#[test]
fn optional_ad_timestamps_of_an_episode() {
    let present = episodes::Episode::decode(&parse(EPISODE)).unwrap();
    assert_eq!(present.attributes.ad_timestamps, Some("60.00,120.00,180.00".to_string()));
    let absent = episodes::Episode::decode(&without(EPISODE, "ad_timestamps")).unwrap();
    assert_eq!(absent.attributes.ad_timestamps, None);
    let null = episodes::Episode::decode(&with(EPISODE, "ad_timestamps", serde_json::Value::Null));
    assert_eq!(null.unwrap().attributes.ad_timestamps, None);
    let empty = with(EPISODE, "ad_timestamps", serde_json::Value::from(""));
    let empty = episodes::Episode::decode(&empty).unwrap();
    assert_eq!(empty.attributes.ad_timestamps, Some(String::new()));
    let wrong = with(EPISODE, "ad_timestamps", serde_json::Value::from(60));
    assert_eq!(
        episodes::Episode::decode(&wrong).unwrap_err().describe(),
        "$.attributes.ad_timestamps has the wrong type"
    );
}

#[test]
fn optional_sort_and_cast_of_an_episode() {
    let present = episodes::Episode::decode(&parse(EPISODE)).unwrap();
    assert_eq!(present.sort, Some(vec![10001]));
    assert_eq!(present.included.cast_members.as_ref().unwrap()[0].attributes.name, "Burnie Burns");
    assert_eq!(present.included.tags[0].attributes.tag, "Halo");
    let absent = episodes::Episode::decode(&without(EPISODE, "sort")).unwrap();
    assert_eq!(absent.sort, None);
    let absent = episodes::Episode::decode(&without(EPISODE, "cast_members")).unwrap();
    assert_eq!(absent.included.cast_members, None);
    let large = with(EPISODE, "sort", serde_json::Value::from(vec![1578441600000u64]));
    assert_eq!(episodes::Episode::decode(&large).unwrap().sort, Some(vec![1578441600000]));
}

#[test]
fn optional_rich_card_of_a_show() {
    let present = series::Links::decode(&parse(SERIES_LINKS)).unwrap();
    assert_eq!(present.rich_card_reference_url, Some("/api/v1/rich_cards/camp-camp".to_string()));
    let absent = series::Links::decode(&without(SERIES_LINKS, "rich_card_reference_url")).unwrap();
    assert_eq!(absent.rich_card_reference_url, None);
    assert_eq!(absent.s1e1, present.s1e1);
}

#[test]
fn optional_attributes_of_a_video() {
    let present = videos::Video::decode(&parse(VIDEO)).unwrap();
    assert_eq!(
        present.attributes.image_pattern_url,
        Some("https://cdn.example/thumb-{index}.jpg".to_string())
    );
    assert_eq!(present.attributes.bif_url, Some("https://cdn.example/index.bif".to_string()));
    let config = present.attributes.ad_config.as_ref().unwrap();
    assert_eq!(config.nw, "517028");
    assert_eq!(config.ad_timestamps, Some(vec![60, 120]));
    assert_eq!(config.preroll, vec!["https://ads.example/pre".to_string()]);

    let absent = videos::Video::decode(&without(VIDEO, "image_pattern_url")).unwrap();
    assert_eq!(absent.attributes.image_pattern_url, None);
    let absent = videos::Video::decode(&without(VIDEO, "bif_url")).unwrap();
    assert_eq!(absent.attributes.bif_url, None);
    let absent = videos::Video::decode(&without(VIDEO, "ad_timestamps")).unwrap();
    assert_eq!(absent.attributes.ad_config.unwrap().ad_timestamps, None);
    let absent = videos::Video::decode(&without(VIDEO, "ad_config")).unwrap();
    assert_eq!(absent.attributes.ad_config, None);
    let broken = videos::Video::decode(&without(VIDEO, "preroll"));
    assert_eq!(broken.unwrap_err().describe(), "$.attributes.ad_config.preroll is missing");
}

#[test]
fn score_may_be_an_integer() {
    let video = videos::Video::decode(&with(VIDEO, "_score", serde_json::Value::from(1))).unwrap();
    assert_eq!(video.score, Number::Integer(1));
    let broken = videos::Video::decode(&with(VIDEO, "_score", serde_json::Value::from("1")));
    assert_eq!(broken, Err(at("_score", Fault::Mismatch)));
}

#[test]
fn channel_list_with_and_without_page_numbers() {
    let with_pages = parse(
        r#"{"data": [], "page": 1, "per_page": 24, "total_pages": 1, "total_results": 9}"#,
    );
    let root = channels::Root::decode(&with_pages).unwrap();
    assert_eq!(root.data, vec![]);
    assert_eq!(root.page, Some(1));
    assert_eq!(root.per_page, Some(24));
    assert_eq!(root.total_pages, Some(1));
    assert_eq!(root.total_results, Some(9));
    let root = channels::Root::decode(&parse(r#"{"data": []}"#)).unwrap();
    assert_eq!(root.page, None);
    assert_eq!(root.total_results, None);
    assert_eq!(channels::Root::decode(&parse("{}")), Err(at("data", Fault::Missing)));
    let wide = parse(r#"{"data": [], "page": 70000}"#);
    assert_eq!(channels::Root::decode(&wide), Err(at("page", Fault::OutOfRange)));
}

#[test]
fn season_and_video_lists_with_and_without_page_numbers() {
    let root = seasons::Root::decode(&parse(r#"{"data": [], "page": 1}"#)).unwrap();
    assert_eq!(root.data, vec![]);
    assert_eq!(root.page, Some(1));
    assert_eq!(root.per_page, None);
    let root = videos::Root::decode(&parse(r#"{"data": []}"#)).unwrap();
    assert_eq!(root.data, vec![]);
    assert_eq!(root.total_results, None);
    assert_eq!(root.encode(), parse(r#"{"data": []}"#));
}

#[test]
fn timestamps_keep_text_instant_and_offset() {
    let episode = episodes::Episode::decode(&parse(EPISODE)).unwrap();
    let aired = &episode.attributes.original_air_date;
    assert_eq!(aired.text, "2003-04-01T00:00:00.000-06:00");
    assert_eq!(aired.seconds, 1049176800);
    assert_eq!(aired.nanos, 0);
    assert_eq!(aired.offset, -21600);
    let live = &episode.attributes.public_golive_at;
    assert_eq!(live.text, "2003-04-01T06:00:00.000Z");
    assert_eq!(live.seconds, 1049176800);
    assert_eq!(live.offset, 0);
}

#[test]
fn timestamps_are_parsed() {
    let stamp = Timestamp::parse("2020-01-08T09:00:14.250-06:00").unwrap();
    assert_eq!(
        stamp,
        Timestamp {
            text: "2020-01-08T09:00:14.250-06:00".to_string(),
            seconds: 1578495614,
            nanos: 250000000,
            offset: -21600,
        }
    );
    let stamp = Timestamp::parse("1970-01-01T00:00:00+05:30").unwrap();
    assert_eq!((stamp.seconds, stamp.nanos, stamp.offset), (-19800, 0, 19800));
    assert_eq!(Timestamp::parse("yesterday"), Err(here(Fault::Timestamp)));
    assert_eq!(Timestamp::parse(""), Err(here(Fault::Timestamp)));
    assert_eq!(Timestamp::parse("2020-13-01T00:00:00Z"), Err(here(Fault::Timestamp)));
}

#[test]
fn timestamps_are_assembled_from_the_parsers_verdict() {
    assert_eq!(
        Timestamp::assemble("now", Some((5, 6, 7))),
        Ok(Timestamp { text: "now".to_string(), seconds: 5, nanos: 6, offset: 7 })
    );
    assert_eq!(Timestamp::assemble("2020-01-08T09:00:14Z", None), Err(here(Fault::Timestamp)));
}

#[test]
fn timestamps_decode_from_text_only() {
    assert_eq!(
        Timestamp::decode(&text("2003-04-01T06:00:00.000Z")).unwrap().seconds,
        1049176800
    );
    assert_eq!(Timestamp::decode(&text("soon")), Err(here(Fault::Timestamp)));
    assert_eq!(Timestamp::decode(&integer(1049176800)), Err(here(Fault::Mismatch)));
    let broken = with(EPISODE, "member_golive_at", serde_json::Value::from("soon"));
    assert_eq!(
        episodes::Episode::decode(&broken).unwrap_err().describe(),
        "$.attributes.member_golive_at is no date and time"
    );
}

#[test]
fn timestamps_encode_as_their_text() {
    let stamp = Timestamp::parse("2003-04-01T00:00:00.000-06:00").unwrap();
    assert_eq!(stamp.encode(), text("2003-04-01T00:00:00.000-06:00"));
    assert_eq!(Timestamp::decode(&stamp.encode()), Ok(stamp));
}

#[test]
fn episode_survives_encoding_and_decoding() {
    let episode = episodes::Episode::decode(&parse(EPISODE)).unwrap();
    assert!(same(&episode.encode(), EPISODE));
    assert_eq!(episodes::Episode::decode(&episode.encode()), Ok(episode));
    let bare = episodes::Episode::decode(&without(EPISODE, "cast_members")).unwrap();
    assert_eq!(episodes::Episode::decode(&bare.encode()), Ok(bare));
}

#[test]
fn video_survives_encoding_and_decoding() {
    let video = videos::Video::decode(&parse(VIDEO)).unwrap();
    assert!(same(&video.encode(), VIDEO));
    assert_eq!(videos::Video::decode(&video.encode()), Ok(video));
    let bare = videos::Video::decode(&without(VIDEO, "ad_config")).unwrap();
    assert_eq!(bare.encode().get("attributes").unwrap().get("ad_config"), None);
    assert_eq!(videos::Video::decode(&bare.encode()), Ok(bare));
}

#[test]
fn image_survives_encoding_and_decoding() {
    let image = Image {
        id: 4294967295,
        uuid: "0aa1b9e5".to_string(),
        kind: "image".to_string(),
        attributes: ImageAttributes {
            thumb: "t".to_string(),
            small: "s".to_string(),
            medium: "m".to_string(),
            large: "l".to_string(),
            orientation: "square".to_string(),
            image_type: "logo".to_string(),
        },
    };
    let doc = image.encode();
    assert_eq!(doc.get("type"), Some(&text("image")));
    assert_eq!(doc.get("kind"), None);
    assert_eq!(doc.get("id"), Some(&integer(4294967295)));
    assert_eq!(Image::decode(&doc), Ok(image));
}

#[test]
fn token_decodes_with_every_member() {
    let doc = parse(
        r#"{"access_token": "abc", "token_type": "bearer", "expires_in": 7200,
            "refresh_token": "def", "scope": "user public", "created_at": 1578441600,
            "user_id": 1184, "uuid": "b4e0a0c2"}"#,
    );
    let token = Token::decode(&doc).unwrap();
    assert_eq!(token.access_token, "abc");
    assert_eq!(token.expires_in, 7200);
    assert_eq!(token.created_at, 1578441600);
    assert_eq!(Token::decode(&token.encode()), Ok(token));
    let doc = parse(r#"{"access_token": "abc", "token_type": "bearer"}"#);
    assert_eq!(Token::decode(&doc), Err(at("expires_in", Fault::Missing)));
}
