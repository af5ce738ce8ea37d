//! What the authentication service answers to a login.

use crate::json::{Json, JsonView};
use crate::names::lemma_attribute_names;
use crate::schema::{
    lemma_reads_required, read_required, required, with_required, write_required, DecodeError,
    DecodeErrorView, Schema,
};
use vstd::prelude::*;

verus! {

/// The answer to a login that succeeded. A client keeps the access token
/// and nothing else.
#[derive(Debug, PartialEq, Eq)]
pub struct Token {
    /// The credential to present with each request.
    pub access_token: String,
    /// How to present the token: `bearer`.
    pub token_type: String,
    /// For how many seconds the access token holds.
    pub expires_in: u32,
    /// What to exchange for a new token; this client never does.
    pub refresh_token: String,
    /// What the token gives access to.
    pub scope: String,
    /// When the token was issued, in seconds since the Unix epoch.
    pub created_at: u32,
    /// The number of the member who logged in.
    pub user_id: u32,
    /// The identifier of the member who logged in.
    pub uuid: String,
}

/// The model of a [`Token`].
pub struct TokenView {
    pub access_token: Seq<char>,
    pub token_type: Seq<char>,
    pub expires_in: u32,
    pub refresh_token: Seq<char>,
    pub scope: Seq<char>,
    pub created_at: u32,
    pub user_id: u32,
    pub uuid: Seq<char>,
}

impl DeepView for Token {
    type V = TokenView;

    open spec fn deep_view(&self) -> TokenView {
        TokenView {
            access_token: self.access_token@,
            token_type: self.token_type@,
            expires_in: self.expires_in,
            refresh_token: self.refresh_token@,
            scope: self.scope@,
            created_at: self.created_at,
            user_id: self.user_id,
            uuid: self.uuid@,
        }
    }
}

impl Schema for Token {
    open spec fn valid(value: TokenView) -> bool {
        true
    }

    #[verifier::opaque]
    open spec fn decoded(doc: JsonView) -> Result<TokenView, DecodeErrorView> {
        let access_token = required::<String>(doc, "access_token"@);
        let token_type = required::<String>(doc, "token_type"@);
        let expires_in = required::<u32>(doc, "expires_in"@);
        let refresh_token = required::<String>(doc, "refresh_token"@);
        let scope = required::<String>(doc, "scope"@);
        let created_at = required::<u32>(doc, "created_at"@);
        let user_id = required::<u32>(doc, "user_id"@);
        let uuid = required::<String>(doc, "uuid"@);
        if access_token is Err {
            Err(access_token->Err_0)
        } else if token_type is Err {
            Err(token_type->Err_0)
        } else if expires_in is Err {
            Err(expires_in->Err_0)
        } else if refresh_token is Err {
            Err(refresh_token->Err_0)
        } else if scope is Err {
            Err(scope->Err_0)
        } else if created_at is Err {
            Err(created_at->Err_0)
        } else if user_id is Err {
            Err(user_id->Err_0)
        } else if uuid is Err {
            Err(uuid->Err_0)
        } else {
            Ok(
                TokenView {
                    access_token: access_token->Ok_0,
                    token_type: token_type->Ok_0,
                    expires_in: expires_in->Ok_0,
                    refresh_token: refresh_token->Ok_0,
                    scope: scope->Ok_0,
                    created_at: created_at->Ok_0,
                    user_id: user_id->Ok_0,
                    uuid: uuid->Ok_0,
                },
            )
        }
    }

    #[verifier::opaque]
    open spec fn encoded(value: TokenView) -> JsonView {
        let members = Map::empty();
        let members = with_required::<String>(members, "access_token"@, value.access_token);
        let members = with_required::<String>(members, "token_type"@, value.token_type);
        let members = with_required::<u32>(members, "expires_in"@, value.expires_in);
        let members = with_required::<String>(members, "refresh_token"@, value.refresh_token);
        let members = with_required::<String>(members, "scope"@, value.scope);
        let members = with_required::<u32>(members, "created_at"@, value.created_at);
        let members = with_required::<u32>(members, "user_id"@, value.user_id);
        let members = with_required::<String>(members, "uuid"@, value.uuid);
        JsonView::Object(members)
    }

    fn decode(doc: &Json) -> (result: Result<Token, DecodeError>) {
        proof {
            reveal(<Token as Schema>::decoded);
        }
        let access_token = read_required::<String>(doc, "access_token")?;
        let token_type = read_required::<String>(doc, "token_type")?;
        let expires_in = read_required::<u32>(doc, "expires_in")?;
        let refresh_token = read_required::<String>(doc, "refresh_token")?;
        let scope = read_required::<String>(doc, "scope")?;
        let created_at = read_required::<u32>(doc, "created_at")?;
        let user_id = read_required::<u32>(doc, "user_id")?;
        let uuid = read_required::<String>(doc, "uuid")?;
        Ok(
            Token {
                access_token,
                token_type,
                expires_in,
                refresh_token,
                scope,
                created_at,
                user_id,
                uuid,
            },
        )
    }

    fn encode(&self) -> (doc: Json) {
        proof {
            reveal(<Token as Schema>::encoded);
        }
        let doc = Json::object();
        let doc = write_required(doc, "access_token", &self.access_token);
        let doc = write_required(doc, "token_type", &self.token_type);
        let doc = write_required(doc, "expires_in", &self.expires_in);
        let doc = write_required(doc, "refresh_token", &self.refresh_token);
        let doc = write_required(doc, "scope", &self.scope);
        let doc = write_required(doc, "created_at", &self.created_at);
        let doc = write_required(doc, "user_id", &self.user_id);
        let doc = write_required(doc, "uuid", &self.uuid);
        doc
    }

    proof fn decoded_is_valid(doc: JsonView) {
    }

    proof fn encoded_decodes(value: TokenView) {
        reveal(<Token as Schema>::decoded);
        reveal(<Token as Schema>::encoded);
        lemma_attribute_names();
        let members = Self::encoded(value)->Object_0;
        lemma_reads_required::<String>(members, "access_token"@, value.access_token);
        lemma_reads_required::<String>(members, "token_type"@, value.token_type);
        lemma_reads_required::<u32>(members, "expires_in"@, value.expires_in);
        lemma_reads_required::<String>(members, "refresh_token"@, value.refresh_token);
        lemma_reads_required::<String>(members, "scope"@, value.scope);
        lemma_reads_required::<u32>(members, "created_at"@, value.created_at);
        lemma_reads_required::<u32>(members, "user_id"@, value.user_id);
        lemma_reads_required::<String>(members, "uuid"@, value.uuid);
    }
}

} // verus!
