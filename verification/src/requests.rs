//! The client: which request each operation sends, and what a reply to it
//! means.
//!
//! A [`Requests`] value sends nothing itself. Each operation comes as a pair:
//! one function makes the [`Request`] to send, the other takes the [`Reply`]
//! that came back and yields the records or an [`ApiError`]. A client is made
//! by [`Requests::new`], from the reply to [`Requests::login_request`] where
//! the credential is a login.

use crate::json::{Json, JsonView};
use crate::names::lemma_attribute_names;
use crate::schema::{required, DecodeError, DecodeErrorView, Schema};
use crate::structs::channels::Channel;
use crate::structs::episodes::Episode;
use crate::structs::seasons::Season;
use crate::structs::series::Series;
use crate::structs::videos::Video;
use crate::structs::{channels, episodes, seasons, series, videos};
use crate::text::{append_decimal, append_json_text, decimal, json_text, text_of};
use crate::token::Token;
use crate::values::lemma_decoded_items;
use vstd::prelude::*;
use vstd::string::StringExecFns;

verus! {

/// How the client names itself to the servers.
pub const USER_AGENT: &'static str = "Mozilla/5.0 roosterteeth-rs/0.1.0 reqwest/0.10.4";

/// Where a login is exchanged for a token.
pub const LOGIN_URL: &'static str = "https://auth.roosterteeth.com/oauth/token";

/// The root of the catalogue's addresses.
pub const API_URL: &'static str = "https://svod-be.roosterteeth.com/api/v1";

/// The name under which this client is known to the login service.
pub const CLIENT_ID: &'static str =
    "4338d2b4bdc8db1239360f28e72f0d9ddb1fd01e7a38fbb07b4b1f4ba4564cc5";

/// The answer to a request for a video that the viewer may not watch.
#[derive(Debug, Clone, Copy, PartialEq, Eq, Structural)]
pub struct VideoUnavailable;

impl VideoUnavailable {
    /// What to tell the viewer.
    pub fn message(&self) -> (text: String)
        ensures
            text@ == "Video is not (yet?) avaliable for non-sponsors."@,
    {
        String::from_str("Video is not (yet?) avaliable for non-sponsors.")
    }
}

/// Who the client acts for.
#[derive(Clone, Copy, Debug)]
pub enum Credential<'a> {
    /// Nobody: only what is public can be had.
    Anonymous,
    /// The member with this user name and password.
    Login(&'a str, &'a str),
}

/// The model of a [`Credential`].
pub enum CredentialView {
    Anonymous,
    Login(Seq<char>, Seq<char>),
}

impl<'a> DeepView for Credential<'a> {
    type V = CredentialView;

    open spec fn deep_view(&self) -> CredentialView {
        match self {
            Credential::Anonymous => CredentialView::Anonymous,
            Credential::Login(user, password) => CredentialView::Login(user@, password@),
        }
    }
}

/// The verb of a request.
#[derive(Debug, Clone, Copy, PartialEq, Eq, Structural)]
pub enum Method {
    Get,
    Post,
}

/// A request to send.
#[derive(Debug, PartialEq, Eq)]
pub struct Request {
    pub method: Method,
    pub url: String,
    /// The value of the `user-agent` header.
    pub user_agent: String,
    /// The value of the `authorization` header, where there is one.
    pub authorization: Option<String>,
    pub body: Option<String>,
}

/// The model of a [`Request`].
pub struct RequestView {
    pub method: Method,
    pub url: Seq<char>,
    pub user_agent: Seq<char>,
    pub authorization: Option<Seq<char>>,
    pub body: Option<Seq<char>>,
}

impl DeepView for Request {
    type V = RequestView;

    open spec fn deep_view(&self) -> RequestView {
        RequestView {
            method: self.method,
            url: self.url@,
            user_agent: self.user_agent@,
            authorization: self.authorization.deep_view(),
            body: self.body.deep_view(),
        }
    }
}

/// What came back for a request.
#[derive(Debug, PartialEq, Eq)]
pub enum Reply {
    /// Nothing: the request or its answer was lost on the way.
    Lost,
    /// A response with this status; `body` is its body where that is a JSON
    /// document.
    Received { status: u16, body: Option<Json> },
}

/// The model of a [`Reply`].
pub enum ReplyView {
    Lost,
    Received { status: u16, body: Option<JsonView> },
}

impl View for Reply {
    type V = ReplyView;

    open spec fn view(&self) -> ReplyView {
        match self {
            Reply::Lost => ReplyView::Lost,
            Reply::Received { status, body } => ReplyView::Received {
                status: *status,
                body: match body {
                    Some(doc) => Some(doc@),
                    None => None,
                },
            },
        }
    }
}

/// Why an operation yielded no records.
#[derive(Debug, PartialEq, Eq)]
pub enum ApiError {
    /// No response arrived.
    Transport,
    /// The server answered with this status, which is no success.
    Status(u16),
    /// The viewer may not watch the video that was asked for.
    Unavailable(VideoUnavailable),
    /// The body of the response is no JSON document.
    NotJson,
    /// The document has not the shape of the records asked for.
    Decode(DecodeError),
    /// One record was asked for and the response holds none.
    Empty,
    /// The access token cannot stand in a header.
    Header,
}

/// The model of an [`ApiError`].
pub enum ApiErrorView {
    Transport,
    Status(u16),
    Unavailable,
    NotJson,
    Decode(DecodeErrorView),
    Empty,
    Header,
}

impl DeepView for ApiError {
    type V = ApiErrorView;

    open spec fn deep_view(&self) -> ApiErrorView {
        match self {
            ApiError::Transport => ApiErrorView::Transport,
            ApiError::Status(status) => ApiErrorView::Status(*status),
            ApiError::Unavailable(_) => ApiErrorView::Unavailable,
            ApiError::NotJson => ApiErrorView::NotJson,
            ApiError::Decode(error) => ApiErrorView::Decode(error.deep_view()),
            ApiError::Empty => ApiErrorView::Empty,
            ApiError::Header => ApiErrorView::Header,
        }
    }
}

/// The model of what an operation returned.
pub open spec fn answer<T: DeepView>(result: Result<T, ApiError>) -> Result<T::V, ApiErrorView> {
    match result {
        Ok(value) => Ok(value.deep_view()),
        Err(error) => Err(error.deep_view()),
    }
}

/// Whether a status reports success: the codes from 200 to 299 do.
pub open spec fn is_success(status: u16) -> bool {
    200 <= status < 300
}

/// The document that a reply carries. A reply without success is the error
/// `Unavailable` where the request was for a video (`gated`), and the error
/// `Status` elsewhere.
pub open spec fn document(reply: ReplyView, gated: bool) -> Result<JsonView, ApiErrorView> {
    match reply {
        ReplyView::Lost => Err(ApiErrorView::Transport),
        ReplyView::Received { status, body } => if !is_success(status) {
            if gated {
                Err(ApiErrorView::Unavailable)
            } else {
                Err(ApiErrorView::Status(status))
            }
        } else {
            match body {
                Some(doc) => Ok(doc),
                None => Err(ApiErrorView::NotJson),
            }
        },
    }
}

/// Takes the document out of a reply.
pub fn read_document(reply: &Reply, gated: bool) -> (result: Result<&Json, ApiError>)
    ensures
        match result {
            Ok(doc) => document(reply@, gated) == Ok::<JsonView, ApiErrorView>(doc@),
            Err(error) => document(reply@, gated) == Err::<JsonView, ApiErrorView>(
                error.deep_view(),
            ),
        },
{
    match reply {
        Reply::Lost => Err(ApiError::Transport),
        Reply::Received { status, body } => if *status < 200 || *status >= 300 {
            if gated {
                Err(ApiError::Unavailable(VideoUnavailable))
            } else {
                Err(ApiError::Status(*status))
            }
        } else {
            match body {
                Some(doc) => Ok(doc),
                None => Err(ApiError::NotJson),
            }
        },
    }
}

/// A reply body that wraps a list of records in its member `data`.
pub trait Envelope: Schema {
    /// What the list holds.
    type Item: Schema;

    /// The records in a decoded body.
    spec fn entries(root: Self::V) -> Seq<<Self::Item as DeepView>::V>;

    /// Hands the records over.
    fn into_entries(self) -> (entries: Vec<Self::Item>)
        ensures
            entries.deep_view() == Self::entries(self.deep_view()),
    ;

    /// The records of a body that decodes are what its `data` decodes to.
    proof fn entries_are_data(doc: JsonView)
        ensures
            Self::decoded(doc) matches Ok(root) ==> {
                &&& doc matches JsonView::Object(members)
                &&& members.contains_key("data"@)
                &&& Vec::<Self::Item>::decoded(members["data"@]) == Ok::<
                    Seq<<Self::Item as DeepView>::V>,
                    DecodeErrorView,
                >(Self::entries(root))
            },
    ;
}

impl Envelope for channels::Root {
    type Item = Channel;

    open spec fn entries(root: channels::RootView) -> Seq<channels::ChannelView> {
        root.data
    }

    fn into_entries(self) -> (entries: Vec<Channel>) {
        self.data
    }

    proof fn entries_are_data(doc: JsonView) {
        reveal(<channels::Root as Schema>::decoded);
        reveal(required);
        lemma_attribute_names();
    }
}

impl Envelope for episodes::Root {
    type Item = Episode;

    open spec fn entries(root: episodes::RootView) -> Seq<episodes::EpisodeView> {
        root.data
    }

    fn into_entries(self) -> (entries: Vec<Episode>) {
        self.data
    }

    proof fn entries_are_data(doc: JsonView) {
        reveal(<episodes::Root as Schema>::decoded);
        reveal(required);
        lemma_attribute_names();
    }
}

impl Envelope for seasons::Root {
    type Item = Season;

    open spec fn entries(root: seasons::RootView) -> Seq<seasons::SeasonView> {
        root.data
    }

    fn into_entries(self) -> (entries: Vec<Season>) {
        self.data
    }

    proof fn entries_are_data(doc: JsonView) {
        reveal(<seasons::Root as Schema>::decoded);
        reveal(required);
        lemma_attribute_names();
    }
}

impl Envelope for series::Root {
    type Item = Series;

    open spec fn entries(root: series::RootView) -> Seq<series::SeriesView> {
        root.data
    }

    fn into_entries(self) -> (entries: Vec<Series>) {
        self.data
    }

    proof fn entries_are_data(doc: JsonView) {
        reveal(<series::Root as Schema>::decoded);
        reveal(required);
        lemma_attribute_names();
    }
}

impl Envelope for videos::Root {
    type Item = Video;

    open spec fn entries(root: videos::RootView) -> Seq<videos::VideoView> {
        root.data
    }

    fn into_entries(self) -> (entries: Vec<Video>) {
        self.data
    }

    proof fn entries_are_data(doc: JsonView) {
        reveal(<videos::Root as Schema>::decoded);
        reveal(required);
        lemma_attribute_names();
    }
}

/// The records that a reply lists.
pub open spec fn listed<R: Envelope>(reply: ReplyView, gated: bool) -> Result<
    Seq<<R::Item as DeepView>::V>,
    ApiErrorView,
> {
    match document(reply, gated) {
        Err(error) => Err(error),
        Ok(doc) => match R::decoded(doc) {
            Err(error) => Err(ApiErrorView::Decode(error)),
            Ok(root) => Ok(R::entries(root)),
        },
    }
}

/// The one record that a reply holds: the first of its list.
pub open spec fn single<R: Envelope>(reply: ReplyView, gated: bool) -> Result<
    <R::Item as DeepView>::V,
    ApiErrorView,
> {
    match listed::<R>(reply, gated) {
        Err(error) => Err(error),
        Ok(entries) => if entries.len() == 0 {
            Err(ApiErrorView::Empty)
        } else {
            Ok(entries[0])
        },
    }
}

/// The items of the `data` of the document that a reply carries, where it
/// carries such a document.
pub open spec fn data_items(reply: ReplyView) -> Option<Seq<JsonView>> {
    match reply {
        ReplyView::Received { body: Some(JsonView::Object(members)), .. } => {
            if members.contains_key("data"@) {
                match members["data"@] {
                    JsonView::Array(items) => Some(items),
                    _ => None,
                }
            } else {
                None
            }
        },
        _ => None,
    }
}

/// A list that was read holds one record for each item of the reply's
/// `data`, in order: the record that the item decodes to.
pub proof fn listed_follows_data<R: Envelope>(reply: ReplyView, gated: bool)
    ensures
        listed::<R>(reply, gated) matches Ok(entries) ==> {
            &&& data_items(reply) matches Some(items)
            &&& entries.len() == items.len()
            &&& forall|i: int|
                0 <= i < items.len() ==> R::Item::decoded(#[trigger] items[i]) == Ok::<
                    <R::Item as DeepView>::V,
                    DecodeErrorView,
                >(entries[i])
        },
{
    if let Ok(doc) = document(reply, gated) {
        R::entries_are_data(doc);
        if let Ok(root) = R::decoded(doc) {
            lemma_decoded_items::<R::Item>(data_items(reply)->Some_0);
        }
    }
}

/// A reply that keeps to a page size makes a list that keeps to it.
pub proof fn listed_within_page<R: Envelope>(reply: ReplyView, gated: bool, per_page: nat)
    requires
        data_items(reply) matches Some(items) ==> items.len() <= per_page,
    ensures
        listed::<R>(reply, gated) matches Ok(entries) ==> entries.len() <= per_page,
{
    listed_follows_data::<R>(reply, gated);
}

/// Reads the records that a reply lists.
pub fn read_list<R: Envelope>(reply: &Reply, gated: bool) -> (result: Result<
    Vec<R::Item>,
    ApiError,
>)
    ensures
        answer(result) == listed::<R>(reply@, gated),
{
    let doc = read_document(reply, gated)?;
    match R::decode(doc) {
        Err(error) => Err(ApiError::Decode(error)),
        Ok(root) => Ok(root.into_entries()),
    }
}

/// Reads the one record that a reply holds.
pub fn read_single<R: Envelope>(reply: &Reply, gated: bool) -> (result: Result<R::Item, ApiError>)
    ensures
        answer(result) == single::<R>(reply@, gated),
{
    let mut entries = read_list::<R>(reply, gated)?;
    if entries.len() == 0 {
        Err(ApiError::Empty)
    } else {
        Ok(entries.remove(0))
    }
}

/// The part of a query that filters by channel and sets the order: the
/// channel only where one is given, and the order `desc` where none is.
pub open spec fn channel_and_order(
    channel: Option<Seq<char>>,
    order: Option<Seq<char>>,
) -> Seq<char> {
    let filter = match channel {
        Some(channel) => "&channel_id="@ + channel,
        None => Seq::empty(),
    };
    let order = match order {
        Some(order) => order,
        None => "desc"@,
    };
    filter + "&order="@ + order
}

/// Appends the channel filter and the order to the query of `url`.
pub fn append_channel_and_order<'a>(
    url: &mut String,
    channel: Option<&'a str>,
    order: Option<&'a str>,
)
    ensures
        final(url)@ == old(url)@ + channel_and_order(text_of(channel), text_of(order)),
{
    if let Some(channel) = channel {
        url.append("&channel_id=");
        url.append(channel);
    }
    url.append("&order=");
    match order {
        None => url.append("desc"),
        Some(order) => url.append(order),
    }
}

/// The address that lists the channels.
pub open spec fn channels_url() -> Seq<char> {
    API_URL@ + "/channels"@
}

/// The address of page `page` of the episodes, a hundred to a page.
pub open spec fn episodes_url(
    page: u16,
    channel: Option<Seq<char>>,
    order: Option<Seq<char>>,
) -> Seq<char> {
    API_URL@ + "/episodes?per_page=100"@ + channel_and_order(channel, order) + "&page="@ + decimal(
        page as nat,
    )
}

/// The address that lists the shows, up to a thousand.
pub open spec fn series_url(channel: Option<Seq<char>>, order: Option<Seq<char>>) -> Seq<char> {
    API_URL@ + "/shows?per_page=1000"@ + channel_and_order(channel, order) + "&page=1"@
}

/// The address that lists the seasons of the show `slug`, the latest first
/// where no order is given.
pub open spec fn seasons_url(slug: Seq<char>, order: Option<Seq<char>>) -> Seq<char> {
    let order = match order {
        Some(order) => order,
        None => "desc"@,
    };
    API_URL@ + "/shows/"@ + slug + "/seasons?order="@ + order
}

/// The address that lists the episodes of the season `slug`, the earliest
/// first where no order is given.
pub open spec fn season_episodes_url(slug: Seq<char>, order: Option<Seq<char>>) -> Seq<char> {
    let order = match order {
        Some(order) => order,
        None => "asc"@,
    };
    API_URL@ + "/seasons/"@ + slug + "/episodes?order="@ + order + "&per_page=100"@
}

/// The address of the show `slug`.
pub open spec fn show_url(slug: Seq<char>) -> Seq<char> {
    API_URL@ + "/shows/"@ + slug
}

/// The address of the episode `slug`.
pub open spec fn episode_url(slug: Seq<char>) -> Seq<char> {
    API_URL@ + "/watch/"@ + slug
}

/// The address of the videos of the episode `slug`.
pub open spec fn videos_url(slug: Seq<char>) -> Seq<char> {
    API_URL@ + "/watch/"@ + slug + "/videos"@
}

/// The body of a login: the JSON object of a password grant for `user`, in
/// the scope `user public`. User name and password are written as
/// [`json_text`] says: no character of what is written ends the string it
/// stands in, and what is written reads back as what was given.
pub open spec fn login_body(user: Seq<char>, password: Seq<char>) -> Seq<char> {
    "{\"client_id\":\""@ + CLIENT_ID@ + "\",\"grant_type\":\"password\",\"password\":\""@
        + json_text(password) + "\",\"scope\":\"user public\",\"username\":\""@ + json_text(user)
        + "\"}"@
}

/// The value of the `authorization` header that presents `token`.
pub open spec fn bearer(token: Seq<char>) -> Seq<char> {
    "Bearer "@ + token
}

/// Whether a header value may hold the byte `b`: a tab, or anything from the
/// space upwards but the delete character.
pub open spec fn header_byte(b: u8) -> bool {
    b >= 32 && b != 127 || b == 9
}

/// Whether a header value may hold the text `text`.
pub open spec fn header_text(text: Seq<char>) -> bool {
    let bytes = vstd::utf8::encode_utf8(text);
    forall|i: int| 0 <= i < bytes.len() ==> header_byte(#[trigger] bytes[i])
}

/// Asks `reqwest::header::HeaderValue::from_str` (the type is the `http`
/// crate's, which reqwest hands on) whether `text` can be the value of a
/// header. The contract claims what that function's source shows: it accepts
/// a text exactly when each byte of its UTF-8 form is a tab or is at least 32
/// and not 127. Nothing of this is proved here.
#[verifier::external_body]
fn header_value_accepts(text: &str) -> (accepted: bool)
    ensures
        accepted == header_text(text@),
{
    reqwest::header::HeaderValue::from_str(text).is_ok()
}

/// The client's side of the catalogue's operations.
#[derive(Debug)]
pub struct Requests {
    authorization: Option<String>,
}

/// The model of a [`Requests`].
pub struct RequestsView {
    /// The value of the `authorization` header that each request carries.
    pub authorization: Option<Seq<char>>,
}

impl DeepView for Requests {
    type V = RequestsView;

    closed spec fn deep_view(&self) -> RequestsView {
        RequestsView { authorization: self.authorization.deep_view() }
    }
}

/// The reply to a login, where a request that was never answered counts as
/// lost.
pub open spec fn login_reply(reply: Option<&Reply>) -> ReplyView {
    match reply {
        Some(reply) => reply@,
        None => ReplyView::Lost,
    }
}

/// The client that a credential and the reply to its login make. A client
/// that acts for nobody needs no reply.
pub open spec fn client(credential: CredentialView, reply: ReplyView) -> Result<
    RequestsView,
    ApiErrorView,
> {
    match credential {
        CredentialView::Anonymous => Ok(RequestsView { authorization: None }),
        CredentialView::Login(_, _) => match document(reply, false) {
            Err(error) => Err(error),
            Ok(doc) => match Token::decoded(doc) {
                Err(error) => Err(ApiErrorView::Decode(error)),
                Ok(token) => if header_text(bearer(token.access_token)) {
                    Ok(RequestsView { authorization: Some(bearer(token.access_token)) })
                } else {
                    Err(ApiErrorView::Header)
                },
            },
        },
    }
}

impl Requests {
    /// The request that exchanges a login for a token; none for a client
    /// that acts for nobody.
    pub fn login_request(credential: &Credential) -> (request: Option<Request>)
        ensures
            request.deep_view() == match credential.deep_view() {
                CredentialView::Anonymous => None,
                CredentialView::Login(user, password) => Some(
                    RequestView {
                        method: Method::Post,
                        url: LOGIN_URL@,
                        user_agent: USER_AGENT@,
                        authorization: None,
                        body: Some(login_body(user, password)),
                    },
                ),
            },
    {
        match credential {
            Credential::Anonymous => None,
            Credential::Login(user, password) => {
                let mut body = String::from_str("{\"client_id\":\"");
                body.append(CLIENT_ID);
                body.append("\",\"grant_type\":\"password\",\"password\":\"");
                append_json_text(&mut body, password);
                body.append("\",\"scope\":\"user public\",\"username\":\"");
                append_json_text(&mut body, user);
                body.append("\"}");
                Some(
                    Request {
                        method: Method::Post,
                        url: String::from_str(LOGIN_URL),
                        user_agent: String::from_str(USER_AGENT),
                        authorization: None,
                        body: Some(body),
                    },
                )
            },
        }
    }

    /// Makes a client. For a login, `reply` is what came back for
    /// [`Requests::login_request`]: the client is made only if it holds a
    /// token, which the client then presents with every request. A client
    /// that acts for nobody is made whatever `reply` is.
    pub fn new(credential: Credential, reply: Option<&Reply>) -> (result: Result<
        Requests,
        ApiError,
    >)
        ensures
            answer(result) == client(credential.deep_view(), login_reply(reply)),
    {
        match credential {
            Credential::Anonymous => Ok(Requests { authorization: None }),
            Credential::Login(_, _) => {
                let reply = match reply {
                    Some(reply) => reply,
                    None => return Err(ApiError::Transport),
                };
                let doc = read_document(reply, false)?;
                match Token::decode(doc) {
                    Err(error) => Err(ApiError::Decode(error)),
                    Ok(token) => {
                        let mut header = String::from_str("Bearer ");
                        header.append(token.access_token.as_str());
                        if header_value_accepts(header.as_str()) {
                            Ok(Requests { authorization: Some(header) })
                        } else {
                            Err(ApiError::Header)
                        }
                    },
                }
            },
        }
    }

    /// The value of the `authorization` header that each request carries.
    pub fn authorization(&self) -> (header: Option<&str>)
        ensures
            text_of(header) == self.deep_view().authorization,
    {
        match &self.authorization {
            Some(header) => Some(header.as_str()),
            None => None,
        }
    }

    /// A `GET` request for `url`, with the client's headers.
    fn get(&self, url: String) -> (request: Request)
        ensures
            request.deep_view() == self.deep_view().get(url@),
    {
        Request {
            method: Method::Get,
            url,
            user_agent: String::from_str(USER_AGENT),
            authorization: self.authorization.clone(),
            body: None,
        }
    }

    /// The request that lists the channels.
    pub fn list_channels_request(&self) -> (request: Request)
        ensures
            request.deep_view() == self.deep_view().get(channels_url()),
    {
        let mut url = String::from_str(API_URL);
        url.append("/channels");
        self.get(url)
    }

    /// The channels that the reply to [`Requests::list_channels_request`]
    /// lists.
    pub fn list_channels(&self, reply: &Reply) -> (result: Result<Vec<Channel>, ApiError>)
        ensures
            answer(result) == listed::<channels::Root>(reply@, false),
    {
        read_list::<channels::Root>(reply, false)
    }

    /// The request for page `page` of the episodes, counted from 1: of all
    /// channels or of `channel`, in the order `order` or the latest first.
    pub fn list_episodes_request<'a>(
        &self,
        page: u16,
        channel: Option<&'a str>,
        order: Option<&'a str>,
    ) -> (request: Request)
        ensures
            request.deep_view() == self.deep_view().get(
                episodes_url(page, text_of(channel), text_of(order)),
            ),
    {
        let mut url = String::from_str(API_URL);
        url.append("/episodes?per_page=100");
        append_channel_and_order(&mut url, channel, order);
        url.append("&page=");
        append_decimal(&mut url, page as u64);
        self.get(url)
    }

    /// The episodes that the reply to [`Requests::list_episodes_request`]
    /// lists.
    pub fn list_episodes(&self, reply: &Reply) -> (result: Result<Vec<Episode>, ApiError>)
        ensures
            answer(result) == listed::<episodes::Root>(reply@, false),
    {
        read_list::<episodes::Root>(reply, false)
    }

    /// The request that lists the shows: all of them or those of `channel`,
    /// in the order `order` or the latest first.
    pub fn list_series_request<'a>(
        &self,
        channel: Option<&'a str>,
        order: Option<&'a str>,
    ) -> (request: Request)
        ensures
            request.deep_view() == self.deep_view().get(
                series_url(text_of(channel), text_of(order)),
            ),
    {
        let mut url = String::from_str(API_URL);
        url.append("/shows?per_page=1000");
        append_channel_and_order(&mut url, channel, order);
        url.append("&page=1");
        self.get(url)
    }

    /// The shows that the reply to [`Requests::list_series_request`] lists.
    pub fn list_series(&self, reply: &Reply) -> (result: Result<Vec<Series>, ApiError>)
        ensures
            answer(result) == listed::<series::Root>(reply@, false),
    {
        read_list::<series::Root>(reply, false)
    }

    /// The request that lists the seasons of the show `slug`, in the order
    /// `order` or the latest first.
    pub fn get_seasons_request<'a>(
        &self,
        slug: &'a str,
        order: Option<&'a str>,
    ) -> (request: Request)
        ensures
            request.deep_view() == self.deep_view().get(seasons_url(slug@, text_of(order))),
    {
        let mut url = String::from_str(API_URL);
        url.append("/shows/");
        url.append(slug);
        url.append("/seasons?order=");
        match order {
            Some(order) => url.append(order),
            None => url.append("desc"),
        }
        self.get(url)
    }

    /// The seasons that the reply to [`Requests::get_seasons_request`]
    /// lists.
    pub fn get_seasons(&self, reply: &Reply) -> (result: Result<Vec<Season>, ApiError>)
        ensures
            answer(result) == listed::<seasons::Root>(reply@, false),
    {
        read_list::<seasons::Root>(reply, false)
    }

    /// The request that lists the episodes of the season `slug`, in the
    /// order `order` or the earliest first.
    pub fn get_season_episodes_request<'a>(
        &self,
        slug: &'a str,
        order: Option<&'a str>,
    ) -> (request: Request)
        ensures
            request.deep_view() == self.deep_view().get(
                season_episodes_url(slug@, text_of(order)),
            ),
    {
        let mut url = String::from_str(API_URL);
        url.append("/seasons/");
        url.append(slug);
        url.append("/episodes?order=");
        match order {
            Some(order) => url.append(order),
            None => url.append("asc"),
        }
        url.append("&per_page=100");
        self.get(url)
    }

    /// The episodes that the reply to
    /// [`Requests::get_season_episodes_request`] lists.
    pub fn get_season_episodes(&self, reply: &Reply) -> (result: Result<Vec<Episode>, ApiError>)
        ensures
            answer(result) == listed::<episodes::Root>(reply@, false),
    {
        read_list::<episodes::Root>(reply, false)
    }

    /// The request for the show `slug`.
    pub fn get_series_request<'a>(&self, slug: &'a str) -> (request: Request)
        ensures
            request.deep_view() == self.deep_view().get(show_url(slug@)),
    {
        let mut url = String::from_str(API_URL);
        url.append("/shows/");
        url.append(slug);
        self.get(url)
    }

    /// The show that the reply to [`Requests::get_series_request`] holds.
    pub fn get_series(&self, reply: &Reply) -> (result: Result<Series, ApiError>)
        ensures
            answer(result) == single::<series::Root>(reply@, false),
    {
        read_single::<series::Root>(reply, false)
    }

    /// The request for the episode `slug`.
    pub fn get_episode_request<'a>(&self, slug: &'a str) -> (request: Request)
        ensures
            request.deep_view() == self.deep_view().get(episode_url(slug@)),
    {
        let mut url = String::from_str(API_URL);
        url.append("/watch/");
        url.append(slug);
        self.get(url)
    }

    /// The episode that the reply to [`Requests::get_episode_request`]
    /// holds.
    pub fn get_episode(&self, reply: &Reply) -> (result: Result<Episode, ApiError>)
        ensures
            answer(result) == single::<episodes::Root>(reply@, false),
    {
        read_single::<episodes::Root>(reply, false)
    }

    /// The request for the video of the episode `slug`.
    pub fn get_video_request<'a>(&self, slug: &'a str) -> (request: Request)
        ensures
            request.deep_view() == self.deep_view().get(videos_url(slug@)),
    {
        let mut url = String::from_str(API_URL);
        url.append("/watch/");
        url.append(slug);
        url.append("/videos");
        self.get(url)
    }

    /// The video that the reply to [`Requests::get_video_request`] holds.
    /// A reply without success means that the viewer may not watch it.
    pub fn get_video(&self, reply: &Reply) -> (result: Result<Video, ApiError>)
        ensures
            answer(result) == single::<videos::Root>(reply@, true),
    {
        read_single::<videos::Root>(reply, true)
    }
}

impl RequestsView {
    /// The `GET` request that this client sends for `url`.
    pub open spec fn get(self, url: Seq<char>) -> RequestView {
        RequestView {
            method: Method::Get,
            url,
            user_agent: USER_AGENT@,
            authorization: self.authorization,
            body: None,
        }
    }
}

/// The member `name` of the object `doc`.
pub open spec fn member(doc: JsonView, name: Seq<char>) -> JsonView
    recommends
        doc is Object,
{
    doc->Object_0[name]
}

/// The first item of the `data` that a reply carries.
pub open spec fn first_item(reply: ReplyView) -> JsonView
    recommends
        data_items(reply) is Some,
{
    data_items(reply)->Some_0[0]
}

/// A video that was read names as its content the episode that was read,
/// where the two replies agree: where the reply for the video gives as
/// `content_uuid` what the reply for the episode gives as `uuid`.
pub proof fn video_names_its_episode(episode_reply: ReplyView, video_reply: ReplyView)
    requires
        member(member(first_item(video_reply), "attributes"@), "content_uuid"@) == member(
            first_item(episode_reply),
            "uuid"@,
        ),
    ensures
        single::<episodes::Root>(episode_reply, false) matches Ok(episode) ==> (single::<
            videos::Root,
        >(video_reply, true) matches Ok(video) ==> video.attributes.content_uuid == episode.uuid),
{
    listed_follows_data::<episodes::Root>(episode_reply, false);
    listed_follows_data::<videos::Root>(video_reply, true);
    reveal(<Episode as Schema>::decoded);
    reveal(<Video as Schema>::decoded);
    reveal(<videos::Attributes as Schema>::decoded);
    reveal(required);
    lemma_attribute_names();
}

/// A login that the service did not answer with a token makes no client:
/// neither where no response arrived, nor where its status is no success,
/// nor where its body holds no token.
pub proof fn refused_login_makes_no_client(user: Seq<char>, password: Seq<char>, reply: ReplyView)
    requires
        reply matches ReplyView::Received { status, body } ==> !is_success(status) || !(
        body matches Some(doc) && Token::decoded(doc) is Ok),
    ensures
        client(CredentialView::Login(user, password), reply) is Err,
{
}

/// Whatever else a reply to a request for a video holds, a status that is no
/// success makes the error `Unavailable`, and no other reply does.
pub proof fn unavailable_iff_refused(reply: ReplyView)
    ensures
        single::<videos::Root>(reply, true) == Err::<videos::VideoView, ApiErrorView>(
            ApiErrorView::Unavailable,
        ) <==> (reply matches ReplyView::Received { status, .. } && !is_success(status)),
{
}

} // verus!
