use roosterteeth_rs::json::{Json, Member, Number};
use roosterteeth_rs::requests::{
    append_channel_and_order, read_document, read_list, read_single, ApiError, Credential, Method,
    Reply, Request, Requests, VideoUnavailable, API_URL, CLIENT_ID, LOGIN_URL, USER_AGENT,
};
use roosterteeth_rs::schema::{Fault, Schema, Step};
use roosterteeth_rs::structs::{episodes, series};

fn json(value: &serde_json::Value) -> Json {
    match value {
        serde_json::Value::Null => Json::Null,
        serde_json::Value::Bool(b) => Json::Bool(*b),
        serde_json::Value::Number(n) => {
            if let Some(u) = n.as_u64() {
                Json::Number(Number::Integer(u as i128))
            } else if let Some(i) = n.as_i64() {
                Json::Number(Number::Integer(i as i128))
            } else {
                Json::Number(Number::Real(n.as_f64().unwrap().to_bits()))
            }
        }
        serde_json::Value::String(s) => Json::Text(s.clone()),
        serde_json::Value::Array(items) => Json::Array(items.iter().map(json).collect()),
        serde_json::Value::Object(members) => Json::Object(
            members
                .iter()
                .map(|(name, value)| Member { name: name.clone(), value: json(value) })
                .collect(),
        ),
    }
}

fn parse(text: &str) -> Json {
    json(&serde_json::from_str(text).unwrap())
}

fn ok(text: &str) -> Reply {
    Reply::Received { status: 200, body: Some(parse(text)) }
}

fn anonymous() -> Requests {
    Requests::new(Credential::Anonymous, None).unwrap()
}

fn images() -> String {
    r#"[{"id": 41, "uuid": "0aa1b9e5-5e3c-4d3e-9f0b-1c1c1f2cf6a1", "type": "image",
        "attributes": {"thumb": "https://cdn.example/thumb.jpg", "small": "https://cdn.example/small.jpg",
        "medium": "https://cdn.example/medium.jpg", "large": "https://cdn.example/large.jpg",
        "orientation": "landscape", "image_type": "cover"}}]"#
        .to_string()
}

fn channel(id: u16, uuid: &str, name: &str, slug: &str) -> String {
    r#"{"_index": "channels-production-en_20200108090000000", "type": "channel", "sort": [1],
        "id": $ID, "uuid": "$UUID",
        "attributes": {"name": "$NAME", "importance": 1, "slug": "$SLUG", "brand_color": "c9373f"},
        "included": {"images": $IMAGES},
        "links": {"self": "/api/v1/channels/$SLUG", "shows": "/api/v1/channels/$SLUG/shows",
            "product_collections": "/api/v1/channels/$SLUG/product_collections",
            "featured_items": "/api/v1/channels/$SLUG/featured_items",
            "episodes": "/api/v1/channels/$SLUG/episodes",
            "livestreams": "/api/v1/channels/$SLUG/livestreams"}}"#
        .replace("$ID", &id.to_string())
        .replace("$UUID", uuid)
        .replace("$NAME", name)
        .replace("$SLUG", slug)
        .replace("$IMAGES", &images())
}

fn episode(uuid: &str, slug: &str, title: &str, number: u16, season: &str, show: &str) -> String {
    r#"{"_index": "episodes-production-en_20200108090014250", "type": "episode", "sort": [10001],
        "id": 23242, "uuid": "$UUID",
        "attributes": {"title": "$TITLE", "slug": "$SLUG", "caption": "Why Are We Here?",
            "number": $NUMBER, "description": "Two soldiers wonder what it is all for.",
            "display_title": "S1:E$NUMBER - $TITLE", "length": 256,
            "advert_config": "standard", "advertising": true, "ad_timestamps": "60.00,120.00,180.00",
            "public_golive_at": "2003-04-01T06:00:00.000Z",
            "sponsor_golive_at": "2003-04-01T06:00:00.000Z",
            "member_golive_at": "2003-04-01T06:00:00.000Z",
            "original_air_date": "2003-04-01T00:00:00.000-06:00",
            "channel_id": "92b6bb21-91d2-4b1b-bf95-3268fa0d9939", "channel_slug": "rooster-teeth",
            "season_id": "ffa11de8-464d-11e7-a302-065410f210c4", "season_slug": "$SEASON",
            "season_number": 1, "show_title": "Red vs. Blue",
            "show_id": "ff925ff9-464d-11e7-a302-065410f210c4", "show_slug": "$SHOW",
            "is_sponsors_only": false, "member_tier_i": -1, "sort_number": 10001,
            "genres": ["Action Packed", "Full of Laughs"], "is_live": true, "is_schedulable": true,
            "season_order": "desc", "episode_order": "asc", "downloadable": true,
            "blacklisted_countries": [], "upsell_next": false},
        "links": {"self": "/api/v1/watch/$SLUG", "show": "/api/v1/shows/$SHOW",
            "related_shows": "/api/v1/shows/$SHOW/related", "channel": "/api/v1/channels/rooster-teeth",
            "season": "/api/v1/seasons/$SEASON", "next": "/api/v1/watch/$SLUG/next",
            "videos": "/api/v1/watch/$SLUG/videos", "products": "/api/v1/watch/$SLUG/products"},
        "canonical_links": {"self": "/watch/$SLUG", "show": "/series/$SHOW"},
        "included": {"images": $IMAGES,
            "tags": [{"id": "7", "uuid": "5d2b1a53-8e0c-4b7a-8a4e-3f6c3e1d2b10", "type": "tag",
                "attributes": {"tag": "Halo", "slug": "halo"}}],
            "cast_members": [{"id": "3", "uuid": "a3c0f3b5-1c5b-4f1e-a1a1-0d9f6a3c9b21",
                "type": "cast_member", "attributes": {"name": "Burnie Burns"}}]}}"#
        .replace("$UUID", uuid)
        .replace("$SLUG", slug)
        .replace("$TITLE", title)
        .replace("$NUMBER", &number.to_string())
        .replace("$SEASON", season)
        .replace("$SHOW", show)
        .replace("$IMAGES", &images())
}

fn show(uuid: &str, slug: &str, title: &str) -> String {
    r#"{"_index": "shows-production-en_20200108090000000", "sort": [1578441600000], "id": 12,
        "type": "show", "uuid": "$UUID",
        "attributes": {"title": "$TITLE", "slug": "$SLUG", "genres": ["Comedy"],
            "is_sponsors_only": false, "updated_at": "2020-01-06T22:10:45.000Z",
            "published_at": "2003-04-01T06:00:00.000Z",
            "last_episode_golive_at": "2019-12-28T15:00:00.000Z",
            "summary": "A show about soldiers in a box canyon.", "category": "episodic",
            "channel_id": "92b6bb21-91d2-4b1b-bf95-3268fa0d9939", "channel_slug": "rooster-teeth",
            "season_count": 17, "episode_count": 372, "season_order": "desc",
            "episode_order": "asc", "blacklisted_countries": []},
        "links": {"self": "/api/v1/shows/$SLUG", "seasons": "/api/v1/shows/$SLUG/seasons",
            "bonus_features": "/api/v1/shows/$SLUG/bonus_features",
            "related": "/api/v1/shows/$SLUG/related",
            "product_collections": "/api/v1/shows/$SLUG/product_collections",
            "latest_episode": "/api/v1/watch/$SLUG-latest", "s1e1": "/api/v1/watch/$SLUG-s1e1",
            "rich_card_reference_url": "/api/v1/rich_cards/$SLUG"},
        "canonical_links": {"self": "/series/$SLUG", "s1e1": "/watch/$SLUG-s1e1"},
        "included": {"images": $IMAGES}}"#
        .replace("$UUID", uuid)
        .replace("$SLUG", slug)
        .replace("$TITLE", title)
        .replace("$IMAGES", &images())
}

fn season(number: u16, slug: &str, show: &str) -> String {
    r#"{"_index": "seasons-production-en_20200108090000000", "sort": [$NUMBER], "id": 301,
        "type": "season", "uuid": "ffa11de8-464d-11e7-a302-065410f210c4",
        "attributes": {"title": "Season $NUMBER", "description": "", "slug": "$SLUG",
            "number": $NUMBER, "show_id": "ff925ff9-464d-11e7-a302-065410f210c4",
            "show_slug": "$SHOW",
            "episodes_available": {"sponsor": true, "member": true, "public": true},
            "published_at": "2003-04-01T06:00:00.000Z"},
        "links": {"self": "/api/v1/seasons/$SLUG", "episodes": "/api/v1/seasons/$SLUG/episodes"},
        "included": {"images": $IMAGES}}"#
        .replace("$NUMBER", &number.to_string())
        .replace("$SLUG", slug)
        .replace("$SHOW", show)
        .replace("$IMAGES", &images())
}

fn video(uuid: &str, content_uuid: &str, content_slug: &str) -> String {
    r#"{"_index": "videos-production-en_20200108090000000", "_score": 1.5, "id": 5012,
        "type": "video", "uuid": "$UUID",
        "attributes": {"url": "https://cdn.example/$SLUG/index.m3u8", "content_id": 20184,
            "content_slug": "$SLUG", "content_uuid": "$CONTENT",
            "public_golive_at": "2015-11-24T14:00:00.000Z",
            "sponsor_golive_at": "2015-11-24T14:00:00.000Z",
            "member_golive_at": "2015-11-24T14:00:00.000Z", "media_type": "video",
            "member_tier": "free", "embed": true, "is_sponsors_only": false,
            "image_pattern_url": "https://cdn.example/$SLUG/thumb-{index}.jpg",
            "bif_url": "https://cdn.example/$SLUG/index.bif",
            "ad_config": {"nw": "517028", "caid": "20184", "afid": "1", "prof": "web",
                "ad_timestamps": [60, 120], "preroll": ["https://ads.example/pre"],
                "midroll": ["https://ads.example/mid"]}},
        "links": {"self": "/api/v1/videos/$UUID", "content": "/api/v1/watch/$SLUG",
            "download": "/api/v1/videos/$UUID/download"}}"#
        .replace("$UUID", uuid)
        .replace("$CONTENT", content_uuid)
        .replace("$SLUG", content_slug)
}

fn page(data: &[String]) -> String {
    r#"{"data": [$DATA], "page": 1, "per_page": 100, "total_pages": 7, "total_results": 612}"#
        .replace("$DATA", &data.join(","))
}

fn bare(data: &[String]) -> String {
    r#"{"data": [$DATA]}"#.replace("$DATA", &data.join(","))
}

fn url(tail: &str) -> String {
    format!("https://svod-be.roosterteeth.com/api/v1{}", tail)
}

fn expect_get(request: &Request, address: &str) {
    assert_eq!(request.method, Method::Get);
    assert_eq!(request.url, address);
    assert_eq!(request.user_agent, "Mozilla/5.0 roosterteeth-rs/0.1.0 reqwest/0.10.4");
    assert_eq!(request.body, None);
}

#[test]
fn list_channels() {
    let requests = Requests::new(Credential::Anonymous, None).unwrap();
    expect_get(&requests.list_channels_request(), &url("/channels"));
    let reply = ok(&page(&[
        channel(1, "92b6bb21-91d2-4b1b-bf95-3268fa0d9939", "Rooster Teeth", "rooster-teeth"),
        channel(2, "2cb2a70c-be50-46f5-93d7-84a1baabb4f7", "Achievement Hunter", "achievement-hunter"),
    ]));
    let channels = requests.list_channels(&reply).unwrap();
    assert_eq!(&channels[0].attributes.name, "Rooster Teeth");

    assert_eq!(&channels[1].attributes.slug, "achievement-hunter");
}

#[test]
fn list_episodes() {
    let requests = Requests::new(Credential::Anonymous, None).unwrap();
    expect_get(
        &requests.list_episodes_request(1, None, Some("asc")),
        &url("/episodes?per_page=100&order=asc&page=1"),
    );
    let reply = ok(&page(&[
        episode(
            "ffabf033-464d-11e7-a302-065410f210c4",
            "red-vs-blue-season-2-episode-21",
            "Episode 21",
            21,
            "red-vs-blue-season-2",
            "red-vs-blue",
        ),
        episode(
            "ffabf1a9-464d-11e7-a302-065410f210c4",
            "red-vs-blue-season-2-episode-22",
            "Episode 22",
            22,
            "red-vs-blue-season-2",
            "red-vs-blue",
        ),
    ]));
    let episodes = requests.list_episodes(&reply).unwrap();

    assert_eq!(&episodes[0].uuid, "ffabf033-464d-11e7-a302-065410f210c4");

    assert_eq!(
        &episodes[1].attributes.slug,
        "red-vs-blue-season-2-episode-22"
    );
}

#[test]
fn list_series() {
    let requests = Requests::new(Credential::Anonymous, None).unwrap();
    expect_get(
        &requests.list_series_request(None, Some("asc")),
        &url("/shows?per_page=1000&order=asc&page=1"),
    );
    let reply = ok(&page(&[
        show("ff9265c3-464d-11e7-a302-065410f210c4", "rt-shorts", "RT Shorts"),
        show("ff9266a0-464d-11e7-a302-065410f210c4", "1-800-magic", "1-800-Magic"),
    ]));
    let series = requests.list_series(&reply).unwrap();

    assert_eq!(&series[0].uuid, "ff9265c3-464d-11e7-a302-065410f210c4");

    assert_eq!(&series[1].attributes.slug, "1-800-magic");
}

#[test]
fn get_seasons() {
    let requests = Requests::new(Credential::Anonymous, None).unwrap();
    expect_get(
        &requests.get_seasons_request("red-vs-blue", Some("asc")),
        &url("/shows/red-vs-blue/seasons?order=asc"),
    );
    let reply = ok(&bare(&[
        season(1, "red-vs-blue-season-1", "red-vs-blue"),
        season(2, "red-vs-blue-season-2", "red-vs-blue"),
    ]));
    let seasons = requests.get_seasons(&reply).unwrap();

    assert_eq!(seasons[0].attributes.number, 1);

    assert_eq!(&seasons[1].attributes.slug, "red-vs-blue-season-2");
}

#[test]
fn get_season_episodes() {
    let requests = Requests::new(Credential::Anonymous, None).unwrap();
    expect_get(
        &requests.get_season_episodes_request("red-vs-blue-season-1", None),
        &url("/seasons/red-vs-blue-season-1/episodes?order=asc&per_page=100"),
    );
    let reply = ok(&page(&[
        episode(
            "ffac28dc-464d-11e7-a302-065410f210c4",
            "red-vs-blue-season-1-episode-1",
            "Episode 1: Why Are We Here?",
            1,
            "red-vs-blue-season-1",
            "red-vs-blue",
        ),
        episode(
            "ffac2a5e-464d-11e7-a302-065410f210c4",
            "red-vs-blue-season-1-episode-2",
            "Episode 2: Red Gets a Delivery",
            2,
            "red-vs-blue-season-1",
            "red-vs-blue",
        ),
    ]));
    let episodes = requests.get_season_episodes(&reply).unwrap();

    assert_eq!(&episodes[0].attributes.title, "Episode 1: Why Are We Here?");

    assert_eq!(
        &episodes[1].attributes.slug,
        "red-vs-blue-season-1-episode-2"
    );
}

#[test]
fn get_series() {
    let requests = Requests::new(Credential::Anonymous, None).unwrap();
    expect_get(&requests.get_series_request("red-vs-blue"), &url("/shows/red-vs-blue"));
    let reply = ok(&bare(&[show(
        "ff925ff9-464d-11e7-a302-065410f210c4",
        "red-vs-blue",
        "Red vs. Blue",
    )]));
    let series = requests.get_series(&reply).unwrap();

    assert_eq!(&series.uuid, "ff925ff9-464d-11e7-a302-065410f210c4");

    assert_eq!(&series.attributes.category, "episodic");
}

#[test]
fn get_episode() {
    let requests = Requests::new(Credential::Anonymous, None).unwrap();
    expect_get(
        &requests.get_episode_request("million-dollars-but-season-1-magic-dogs-and-muscle-men"),
        &url("/watch/million-dollars-but-season-1-magic-dogs-and-muscle-men"),
    );
    let reply = ok(&bare(&[episode(
        "0006f0d4-464e-11e7-a302-065410f210c4",
        "million-dollars-but-season-1-magic-dogs-and-muscle-men",
        "Magic Dogs & Muscle Men",
        1,
        "million-dollars-but-season-1",
        "million-dollars-but",
    )]));
    let episode = requests.get_episode(&reply).unwrap();

    assert_eq!(&episode.uuid, "0006f0d4-464e-11e7-a302-065410f210c4");

    assert_eq!(&episode.attributes.title, "Magic Dogs & Muscle Men");
}

#[test]
fn get_video() {
    let requests = Requests::new(Credential::Anonymous, None).unwrap();
    expect_get(
        &requests.get_video_request("million-dollars-but-season-1-magic-dogs-and-muscle-men"),
        &url("/watch/million-dollars-but-season-1-magic-dogs-and-muscle-men/videos"),
    );
    let reply = ok(&bare(&[video(
        "48bb3e93-04ea-4f90-a6ec-f9aff2c79dfa",
        "0006f0d4-464e-11e7-a302-065410f210c4",
        "million-dollars-but-season-1-magic-dogs-and-muscle-men",
    )]));
    let video = requests.get_video(&reply).unwrap();

    assert_eq!(&video.uuid, "48bb3e93-04ea-4f90-a6ec-f9aff2c79dfa");

    assert_eq!(
        &video.attributes.content_uuid,
        "0006f0d4-464e-11e7-a302-065410f210c4"
    );
}

#[test]
fn process_new_videos() {
    let requests = Requests::new(Credential::Anonymous, None).unwrap();

    expect_get(
        &requests.get_seasons_request("rt-animated-adventures", None),
        &url("/shows/rt-animated-adventures/seasons?order=desc"),
    );
    let reply = ok(&bare(&[
        season(11, "rt-animated-adventures-2020", "rt-animated-adventures"),
        season(10, "rt-animated-adventures-2019", "rt-animated-adventures"),
    ]));
    let seasons = requests.get_seasons(&reply).unwrap();

    expect_get(
        &requests.get_season_episodes_request(&seasons[0].attributes.slug, None),
        &url("/seasons/rt-animated-adventures-2020/episodes?order=asc&per_page=100"),
    );
    let reply = ok(&page(&[episode(
        "0f4e2c9a-3a55-4b8e-9d41-6a1f5c0e7b12",
        "rt-animated-adventures-2020-1",
        "A New Year",
        1,
        "rt-animated-adventures-2020",
        "rt-animated-adventures",
    )]));
    let episodes = requests.get_season_episodes(&reply).unwrap();

    assert_eq!(&episodes[0].attributes.show_slug, "rt-animated-adventures");
}

#[test]
fn video_matches_its_episode() {
    let requests = anonymous();
    let slug = "million-dollars-but-season-1-magic-dogs-and-muscle-men";
    let episode = requests
        .get_episode(&ok(&bare(&[episode(
            "0006f0d4-464e-11e7-a302-065410f210c4",
            slug,
            "Magic Dogs & Muscle Men",
            1,
            "million-dollars-but-season-1",
            "million-dollars-but",
        )])))
        .unwrap();
    let video = requests
        .get_video(&ok(&bare(&[video(
            "48bb3e93-04ea-4f90-a6ec-f9aff2c79dfa",
            "0006f0d4-464e-11e7-a302-065410f210c4",
            slug,
        )])))
        .unwrap();
    assert_eq!(video.attributes.content_uuid, episode.uuid);
    assert_eq!(video.attributes.content_slug, episode.attributes.slug);
}

#[test]
fn addresses_and_agent_are_fixed() {
    assert_eq!(API_URL, "https://svod-be.roosterteeth.com/api/v1");
    assert_eq!(LOGIN_URL, "https://auth.roosterteeth.com/oauth/token");
    assert_eq!(USER_AGENT, "Mozilla/5.0 roosterteeth-rs/0.1.0 reqwest/0.10.4");
    assert_eq!(CLIENT_ID, "4338d2b4bdc8db1239360f28e72f0d9ddb1fd01e7a38fbb07b4b1f4ba4564cc5");
}

#[test]
fn order_defaults_differ_by_operation() {
    let requests = anonymous();
    assert_eq!(
        requests.list_episodes_request(1, None, None).url,
        url("/episodes?per_page=100&order=desc&page=1")
    );
    assert_eq!(
        requests.list_series_request(None, None).url,
        url("/shows?per_page=1000&order=desc&page=1")
    );
    assert_eq!(
        requests.get_seasons_request("camp-camp", None).url,
        url("/shows/camp-camp/seasons?order=desc")
    );
    assert_eq!(
        requests.get_season_episodes_request("camp-camp-season-1", None).url,
        url("/seasons/camp-camp-season-1/episodes?order=asc&per_page=100")
    );
    assert_eq!(
        requests.get_season_episodes_request("camp-camp-season-1", Some("desc")).url,
        url("/seasons/camp-camp-season-1/episodes?order=desc&per_page=100")
    );
}

#[test]
fn channel_filter_is_appended_only_when_given() {
    let requests = anonymous();
    assert_eq!(
        requests.list_episodes_request(3, Some("achievement-hunter"), None).url,
        url("/episodes?per_page=100&channel_id=achievement-hunter&order=desc&page=3")
    );
    assert_eq!(
        requests.list_series_request(Some("funhaus"), Some("asc")).url,
        url("/shows?per_page=1000&channel_id=funhaus&order=asc&page=1")
    );
}

#[test]
fn page_numbers_are_written_in_decimal() {
    let requests = anonymous();
    assert_eq!(
        requests.list_episodes_request(0, None, None).url,
        url("/episodes?per_page=100&order=desc&page=0")
    );
    assert_eq!(
        requests.list_episodes_request(10, None, None).url,
        url("/episodes?per_page=100&order=desc&page=10")
    );
    assert_eq!(
        requests.list_episodes_request(65535, None, None).url,
        url("/episodes?per_page=100&order=desc&page=65535")
    );
}

#[test]
fn append_channel_and_order_extends_the_query() {
    let mut query = String::from("x?per_page=5");
    append_channel_and_order(&mut query, None, None);
    assert_eq!(query, "x?per_page=5&order=desc");

    let mut query = String::from("x?per_page=5");
    append_channel_and_order(&mut query, Some("funhaus"), None);
    assert_eq!(query, "x?per_page=5&channel_id=funhaus&order=desc");

    let mut query = String::new();
    append_channel_and_order(&mut query, Some("funhaus"), Some("asc"));
    assert_eq!(query, "&channel_id=funhaus&order=asc");

    let mut query = String::new();
    append_channel_and_order(&mut query, None, Some("asc"));
    assert_eq!(query, "&order=asc");
}

#[test]
fn anonymous_client_sends_no_authorization() {
    let requests = anonymous();
    assert_eq!(requests.authorization(), None);
    assert_eq!(requests.list_channels_request().authorization, None);
    assert_eq!(requests.get_video_request("some-episode").authorization, None);
    assert!(Requests::login_request(&Credential::Anonymous).is_none());
}

#[test]
fn anonymous_client_needs_no_reply() {
    let lost = Reply::Lost;
    assert!(Requests::new(Credential::Anonymous, Some(&lost)).is_ok());
    let refused = Reply::Received { status: 500, body: None };
    assert!(Requests::new(Credential::Anonymous, Some(&refused)).is_ok());
}

#[test]
fn login_request_is_a_password_grant() {
    let request = Requests::login_request(&Credential::Login("gus", "hunter2")).unwrap();
    assert_eq!(request.method, Method::Post);
    assert_eq!(request.url, "https://auth.roosterteeth.com/oauth/token");
    assert_eq!(request.user_agent, "Mozilla/5.0 roosterteeth-rs/0.1.0 reqwest/0.10.4");
    assert_eq!(request.authorization, None);
    assert_eq!(
        request.body.unwrap(),
        "{\"client_id\":\"4338d2b4bdc8db1239360f28e72f0d9ddb1fd01e7a38fbb07b4b1f4ba4564cc5\",\"grant_type\":\"password\",\"password\":\"hunter2\",\"scope\":\"user public\",\"username\":\"gus\"}"
    );
}

#[test]
fn login_body_is_json_whatever_the_credential_holds() {
    for (user, password) in [
        ("gus", "hunter2"),
        ("a\"b", "x\",\"scope\":\"admin"),
        ("back\\slash", "\\"),
        ("tab\there", "line\nbreak\r\u{0}\u{1f}"),
        ("caf\u{e9} \u{1f600}", ""),
        ("\"", "\\\"\\"),
    ] {
        let request = Requests::login_request(&Credential::Login(user, password)).unwrap();
        let body: serde_json::Value = serde_json::from_str(&request.body.unwrap()).unwrap();
        let members = body.as_object().unwrap();
        assert_eq!(members.len(), 5);
        assert_eq!(members["username"], serde_json::Value::from(user));
        assert_eq!(members["password"], serde_json::Value::from(password));
        assert_eq!(members["grant_type"], serde_json::Value::from("password"));
        assert_eq!(members["scope"], serde_json::Value::from("user public"));
        assert_eq!(members["client_id"], serde_json::Value::from(CLIENT_ID));
    }
}

#[test]
fn login_body_escapes_quotes_backslashes_and_controls() {
    let request = Requests::login_request(&Credential::Login("a\"b", "c\\d\n")).unwrap();
    assert_eq!(
        request.body.unwrap(),
        format!(
            "{{\"client_id\":\"{}\",\"grant_type\":\"password\",\"password\":\"c\\\\d\\u000a\",\"scope\":\"user public\",\"username\":\"a\\\"b\"}}",
            CLIENT_ID
        )
    );
}

fn token(access: &str) -> String {
    let mut doc = serde_json::Map::new();
    doc.insert("access_token".to_string(), serde_json::Value::from(access));
    doc.insert("token_type".to_string(), serde_json::Value::from("bearer"));
    doc.insert("expires_in".to_string(), serde_json::Value::from(7200));
    doc.insert("refresh_token".to_string(), serde_json::Value::from("r3fr3sh"));
    doc.insert("scope".to_string(), serde_json::Value::from("user public"));
    doc.insert("created_at".to_string(), serde_json::Value::from(1578441600));
    doc.insert("user_id".to_string(), serde_json::Value::from(1184));
    doc.insert("uuid".to_string(), serde_json::Value::from("b4e0a0c2-2f0e-4f0c-9b1e-0c5e3b0f6a77"));
    serde_json::Value::Object(doc).to_string()
}

#[test]
fn login_client_presents_its_token_with_every_request() {
    let reply = ok(&token("abc.def"));
    let requests = Requests::new(Credential::Login("gus", "hunter2"), Some(&reply)).unwrap();
    assert_eq!(requests.authorization(), Some("Bearer abc.def"));
    let bearer = Some("Bearer abc.def".to_string());
    assert_eq!(requests.list_channels_request().authorization, bearer);
    assert_eq!(requests.list_episodes_request(1, None, None).authorization, bearer);
    assert_eq!(requests.list_series_request(None, None).authorization, bearer);
    assert_eq!(requests.get_seasons_request("a", None).authorization, bearer);
    assert_eq!(requests.get_season_episodes_request("a", None).authorization, bearer);
    assert_eq!(requests.get_series_request("a").authorization, bearer);
    assert_eq!(requests.get_episode_request("a").authorization, bearer);
    assert_eq!(requests.get_video_request("a").authorization, bearer);
}

#[test]
fn refused_login_makes_no_client() {
    let login = Credential::Login("gus", "wrong");
    let refused = Reply::Received {
        status: 401,
        body: Some(parse(r#"{"error": "invalid_grant"}"#)),
    };
    assert_eq!(Requests::new(login, Some(&refused)).unwrap_err(), ApiError::Status(401));
    assert_eq!(Requests::new(login, Some(&Reply::Lost)).unwrap_err(), ApiError::Transport);
    assert_eq!(Requests::new(login, None).unwrap_err(), ApiError::Transport);
    let no_body = Reply::Received { status: 200, body: None };
    assert_eq!(Requests::new(login, Some(&no_body)).unwrap_err(), ApiError::NotJson);
}

#[test]
fn login_without_a_token_names_what_is_missing() {
    let reply = ok(r#"{"error": "invalid_grant"}"#);
    match Requests::new(Credential::Login("gus", "wrong"), Some(&reply)).unwrap_err() {
        ApiError::Decode(error) => {
            assert_eq!(error.fault, Fault::Missing);
            assert_eq!(error.path, vec![Step::Member("access_token".to_string())]);
            assert_eq!(error.describe(), "$.access_token is missing");
        }
        other => panic!("{:?}", other),
    }
}

#[test]
fn token_that_cannot_stand_in_a_header_makes_no_client() {
    let login = Credential::Login("gus", "hunter2");
    let reply = ok(&token("abc\ndef"));
    assert_eq!(Requests::new(login, Some(&reply)).unwrap_err(), ApiError::Header);
    let reply = ok(&token("abc\u{7f}"));
    assert_eq!(Requests::new(login, Some(&reply)).unwrap_err(), ApiError::Header);
    let reply = ok(&token("tab\tand caf\u{e9}"));
    let requests = Requests::new(login, Some(&reply)).unwrap();
    assert_eq!(requests.authorization(), Some("Bearer tab\tand caf\u{e9}"));
}

#[test]
fn video_without_entitlement_is_unavailable() {
    let requests = anonymous();
    for status in [199u16, 300, 401, 403, 404, 500] {
        let reply = Reply::Received { status, body: None };
        assert_eq!(
            requests.get_video(&reply).unwrap_err(),
            ApiError::Unavailable(VideoUnavailable)
        );
        let reply = Reply::Received {
            status,
            body: Some(parse(&bare(&[video("a", "b", "c")]))),
        };
        assert_eq!(
            requests.get_video(&reply).unwrap_err(),
            ApiError::Unavailable(VideoUnavailable)
        );
    }
    assert_eq!(requests.get_video(&Reply::Lost).unwrap_err(), ApiError::Transport);
}

#[test]
fn every_success_status_is_read() {
    let requests = anonymous();
    for status in [200u16, 201, 204, 299] {
        let reply = Reply::Received {
            status,
            body: Some(parse(&bare(&[video("a", "b", "c")]))),
        };
        assert_eq!(requests.get_video(&reply).unwrap().uuid, "a");
    }
}

#[test]
fn other_operations_report_the_status() {
    let requests = anonymous();
    let reply = Reply::Received { status: 404, body: None };
    assert_eq!(requests.list_channels(&reply).unwrap_err(), ApiError::Status(404));
    assert_eq!(requests.list_episodes(&reply).unwrap_err(), ApiError::Status(404));
    assert_eq!(requests.list_series(&reply).unwrap_err(), ApiError::Status(404));
    assert_eq!(requests.get_seasons(&reply).unwrap_err(), ApiError::Status(404));
    assert_eq!(requests.get_season_episodes(&reply).unwrap_err(), ApiError::Status(404));
    assert_eq!(requests.get_series(&reply).unwrap_err(), ApiError::Status(404));
    assert_eq!(requests.get_episode(&reply).unwrap_err(), ApiError::Status(404));
}

#[test]
fn lost_and_unreadable_replies_are_told_apart() {
    let requests = anonymous();
    assert_eq!(requests.list_channels(&Reply::Lost).unwrap_err(), ApiError::Transport);
    let unreadable = Reply::Received { status: 200, body: None };
    assert_eq!(requests.list_channels(&unreadable).unwrap_err(), ApiError::NotJson);
    assert_eq!(requests.get_video(&unreadable).unwrap_err(), ApiError::NotJson);
}

#[test]
fn single_record_is_the_first_of_the_list() {
    let requests = anonymous();
    let reply = ok(&bare(&[
        show("ff925ff9-464d-11e7-a302-065410f210c4", "red-vs-blue", "Red vs. Blue"),
        show("ff9266a0-464d-11e7-a302-065410f210c4", "1-800-magic", "1-800-Magic"),
    ]));
    assert_eq!(requests.get_series(&reply).unwrap().attributes.slug, "red-vs-blue");
}

#[test]
fn list_holds_one_record_for_each_entry() {
    let requests = anonymous();
    let three: Vec<String> =
        (1..=3).map(|n| season(n, &format!("camp-camp-season-{}", n), "camp-camp")).collect();
    let seasons = requests.get_seasons(&ok(&bare(&three))).unwrap();
    assert_eq!(seasons.len(), 3);
    assert_eq!(seasons[2].attributes.slug, "camp-camp-season-3");

    let many: Vec<String> =
        (1..=101).map(|n| season(n, &format!("long-show-season-{}", n), "long-show")).collect();
    let seasons = requests.get_seasons(&ok(&bare(&many))).unwrap();
    assert_eq!(seasons.len(), 101);
    assert_eq!(seasons[100].attributes.number, 101);
}

#[test]
fn empty_list_holds_no_single_record() {
    let requests = anonymous();
    let reply = ok(r#"{"data": []}"#);
    assert_eq!(requests.get_series(&reply).unwrap_err(), ApiError::Empty);
    assert_eq!(requests.get_episode(&reply).unwrap_err(), ApiError::Empty);
    assert_eq!(requests.get_video(&reply).unwrap_err(), ApiError::Empty);
    assert_eq!(requests.list_series(&reply).unwrap(), vec![]);
}

#[test]
fn shape_mismatch_names_the_path() {
    let requests = anonymous();
    let broken = season(2, "red-vs-blue-season-2", "red-vs-blue")
        .replace(r#""slug": "red-vs-blue-season-2","#, "");
    let reply = ok(&bare(&[season(1, "red-vs-blue-season-1", "red-vs-blue"), broken]));
    match requests.get_seasons(&reply).unwrap_err() {
        ApiError::Decode(error) => {
            assert_eq!(error.fault, Fault::Missing);
            assert_eq!(
                error.path,
                vec![
                    Step::Member("data".to_string()),
                    Step::Item(1),
                    Step::Member("attributes".to_string()),
                    Step::Member("slug".to_string()),
                ]
            );
            assert_eq!(error.describe(), "$.data[1].attributes.slug is missing");
        }
        other => panic!("{:?}", other),
    }
}

#[test]
fn page_numbers_may_be_there_or_not() {
    let data = [show("ff925ff9-464d-11e7-a302-065410f210c4", "red-vs-blue", "Red vs. Blue")];
    let with = series::Root::decode(&parse(&page(&data))).unwrap();
    let without = series::Root::decode(&parse(&bare(&data))).unwrap();
    assert_eq!(with.page, Some(1));
    assert_eq!(with.per_page, Some(100));
    assert_eq!(with.total_pages, Some(7));
    assert_eq!(with.total_results, Some(612));
    assert_eq!(without.page, None);
    assert_eq!(without.per_page, None);
    assert_eq!(without.total_pages, None);
    assert_eq!(without.total_results, None);
    assert_eq!(with.data, without.data);
}

#[test]
fn read_functions_agree_with_the_operations() {
    let requests = anonymous();
    let reply = ok(&page(&[episode("u", "s", "t", 1, "se", "sh")]));
    assert_eq!(
        read_document(&reply, false).unwrap(),
        &parse(&page(&[episode("u", "s", "t", 1, "se", "sh")]))
    );
    assert_eq!(
        read_list::<episodes::Root>(&reply, false).unwrap(),
        requests.list_episodes(&reply).unwrap()
    );
    assert_eq!(
        read_single::<episodes::Root>(&reply, false).unwrap(),
        requests.get_episode(&reply).unwrap()
    );
}

#[test]
fn unavailable_has_a_message() {
    assert_eq!(
        VideoUnavailable.message(),
        "Video is not (yet?) avaliable for non-sponsors."
    );
}
