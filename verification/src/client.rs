//! The client's configuration, the requests it prepares and the way a raw
//! response is decoded.

use vstd::prelude::*;
use crate::result::NeweggError;
use crate::result::NeweggResult;
use crate::text::concat_strs;
use crate::text::str_eq;

verus! {

/// The marketplaces that the API serves, each under its own base URL.
#[derive(Debug, Clone, Copy, PartialEq, Eq, Structural)]
pub enum NeweggMarketplace {
    Usa,
    Canada,
    Australia,
}

impl NeweggMarketplace {
    pub open spec fn spec_base_url(&self) -> Seq<char> {
        match self {
            NeweggMarketplace::Usa => "https://api.newegg.com/marketplace"@,
            NeweggMarketplace::Canada => "https://api.newegg.com/marketplace/can"@,
            NeweggMarketplace::Australia => "https://api.newegg.com/marketplace"@,
        }
    }

    pub open spec fn spec_country_code(&self) -> Seq<char> {
        match self {
            NeweggMarketplace::Usa => "USA"@,
            NeweggMarketplace::Canada => "CAN"@,
            NeweggMarketplace::Australia => "AUS"@,
        }
    }

    /// The marketplace that a platform name stands for: `Newegg` for the USA
    /// and `NeweggCanada` for Canada. No other name stands for one.
    pub open spec fn of_platform(name: Seq<char>) -> Option<NeweggMarketplace> {
        if name == "Newegg"@ {
            Some(NeweggMarketplace::Usa)
        } else if name == "NeweggCanada"@ {
            Some(NeweggMarketplace::Canada)
        } else {
            None
        }
    }

    /// The marketplace that the platform name `name` stands for, if it stands
    /// for one.
    pub fn from_platform(name: &str) -> (marketplace: Option<NeweggMarketplace>)
        ensures
            marketplace == NeweggMarketplace::of_platform(name@),
    {
        if str_eq(name, "Newegg") {
            Some(NeweggMarketplace::Usa)
        } else if str_eq(name, "NeweggCanada") {
            Some(NeweggMarketplace::Canada)
        } else {
            None
        }
    }

    /// The URL under which every path of this marketplace is found.
    pub fn base_url(&self) -> (url: &'static str)
        ensures
            url@ == self.spec_base_url(),
    {
        match self {
            NeweggMarketplace::Usa => "https://api.newegg.com/marketplace",
            NeweggMarketplace::Canada => "https://api.newegg.com/marketplace/can",
            NeweggMarketplace::Australia => "https://api.newegg.com/marketplace",
        }
    }

    /// The three-letter ISO code of the country whose orders this marketplace
    /// holds.
    pub fn country_code(&self) -> (code: &'static str)
        ensures
            code@ == self.spec_country_code(),
    {
        match self {
            NeweggMarketplace::Usa => "USA",
            NeweggMarketplace::Canada => "CAN",
            NeweggMarketplace::Australia => "AUS",
        }
    }
}

/// How long to wait for an answer, in seconds, unless the caller knows
/// better. Some operations of the API are very slow.
pub const DEFAULT_TIMEOUT_SECS: u64 = 300;

/// The HTTP methods that the API is called with.
#[derive(Debug, Clone, Copy, PartialEq, Eq, Structural)]
pub enum Method {
    Get,
    Put,
    Post,
}

/// Whether a character may stand in the value of a header: a tab, or anything
/// that is no control character.
pub open spec fn is_header_value_char(c: char) -> bool {
    c == '\t' || (c as u32 >= 32 && c as u32 != 127)
}

/// Whether a text can be sent as the value of a header.
pub open spec fn is_header_value(text: Seq<char>) -> bool {
    forall|i: int| 0 <= i < text.len() ==> is_header_value_char(#[trigger] text[i])
}

/// Asks `reqwest::header::HeaderValue::from_str` whether it takes `value`.
/// It refuses a text exactly when one of its bytes is below 32 and no tab, or
/// is 127; the bytes of a character beyond ASCII are all above 127, so the
/// test can be read character by character.
#[verifier::external_body]
fn header_value_accepts(value: &str) -> (ok: bool)
    ensures
        ok == is_header_value(value@),
{
    reqwest::header::HeaderValue::from_str(value).is_ok()
}

/// A request that is ready to be sent: everything but the connection.
#[derive(Debug)]
pub struct PreparedRequest<B> {
    pub method: Method,
    /// The marketplace's base URL followed by the path of the operation.
    pub url: String,
    /// The query parameters, in the order in which they were added.
    pub query: Vec<(String, String)>,
    /// The headers, in the order in which they were added.
    pub headers: Vec<(String, String)>,
    /// The value to send as the JSON body, if the request has one.
    pub body: Option<B>,
}

impl<B> PreparedRequest<B> {
    /// Adds one query parameter behind those already there.
    pub fn query(self, key: &str, value: &str) -> (r: Self)
        ensures
            r.method == self.method,
            r.url == self.url,
            r.query.deep_view() == self.query.deep_view().push((key@, value@)),
            r.headers == self.headers,
            r.body == self.body,
    {
        let PreparedRequest { method, url, query, headers, body } = self;
        let mut query = query;
        let ghost before = query.deep_view();
        query.push((key.to_owned(), value.to_owned()));
        assert(query.deep_view() =~= before.push((key@, value@)));
        PreparedRequest { method, url, query, headers, body }
    }

    /// Gives the request a JSON body, and the content type header that
    /// announces it.
    pub fn json(self, body: B) -> (r: Self)
        ensures
            r.method == self.method,
            r.url == self.url,
            r.query == self.query,
            r.headers.deep_view() == self.headers.deep_view().push(
                ("Content-Type"@, "application/json"@),
            ),
            r.body == Some(body),
    {
        let PreparedRequest { method, url, query, headers, body: _ } = self;
        let mut headers = headers;
        let ghost before = headers.deep_view();
        headers.push(("Content-Type".to_owned(), "application/json".to_owned()));
        assert(headers.deep_view() =~= before.push(("Content-Type"@, "application/json"@)));
        PreparedRequest { method, url, query, headers, body: Some(body) }
    }
}

/// The seller's account with one marketplace. The credentials are checked
/// once, when the client is made, and never change afterwards.
#[derive(Debug)]
pub struct NeweggClient {
    seller_id_: String,
    token: String,
    secret_key: String,
    marketplace_: NeweggMarketplace,
}

impl NeweggClient {
    #[verifier::type_invariant]
    spec fn credentials_are_header_values(self) -> bool {
        is_header_value(self.token@) && is_header_value(self.secret_key@)
    }

    pub closed spec fn spec_seller_id(&self) -> Seq<char> {
        self.seller_id_@
    }

    pub closed spec fn spec_token(&self) -> Seq<char> {
        self.token@
    }

    pub closed spec fn spec_secret_key(&self) -> Seq<char> {
        self.secret_key@
    }

    pub closed spec fn spec_marketplace(&self) -> NeweggMarketplace {
        self.marketplace_
    }

    /// What `new` answers: a client that holds the four values as given where
    /// both credentials can be sent as headers, and otherwise the name of the
    /// header that the first unusable credential was meant for.
    pub open spec fn accepts(
        marketplace: NeweggMarketplace,
        seller_id: Seq<char>,
        token: Seq<char>,
        secret_key: Seq<char>,
        outcome: NeweggResult<NeweggClient>,
    ) -> bool {
        match outcome {
            Ok(client) => {
                &&& is_header_value(token)
                &&& is_header_value(secret_key)
                &&& client.spec_marketplace() == marketplace
                &&& client.spec_seller_id() == seller_id
                &&& client.spec_token() == token
                &&& client.spec_secret_key() == secret_key
            },
            Err(error) => {
                if !is_header_value(token) {
                    error.is_invalid_header("Authorization"@)
                } else {
                    !is_header_value(secret_key) && error.is_invalid_header("SecretKey"@)
                }
            },
        }
    }

    /// Makes a client for one seller on one marketplace.
    ///
    /// The token travels in the `Authorization` header and the secret key in
    /// the `SecretKey` header, so each has to be a text that a header can
    /// hold. A credential that is not is refused here, the token first.
    pub fn new(
        marketplace: NeweggMarketplace,
        seller_id: &str,
        token: &str,
        secret_key: &str,
    ) -> (outcome: NeweggResult<NeweggClient>)
        ensures
            NeweggClient::accepts(marketplace, seller_id@, token@, secret_key@, outcome),
    {
        if !header_value_accepts(token) {
            return Err(NeweggError::InvalidHeader("Authorization"));
        }
        if !header_value_accepts(secret_key) {
            return Err(NeweggError::InvalidHeader("SecretKey"));
        }
        Ok(
            NeweggClient {
                seller_id_: seller_id.to_owned(),
                token: token.to_owned(),
                secret_key: secret_key.to_owned(),
                marketplace_: marketplace,
            },
        )
    }

    pub fn seller_id(&self) -> (id: &str)
        ensures
            id@ == self.spec_seller_id(),
    {
        self.seller_id_.as_str()
    }

    pub fn marketplace(&self) -> (marketplace: NeweggMarketplace)
        ensures
            marketplace == self.spec_marketplace(),
    {
        self.marketplace_
    }

    /// The query that every request of this client starts with: the seller
    /// id and nothing else.
    pub open spec fn spec_query(&self) -> Seq<(Seq<char>, Seq<char>)> {
        seq![("sellerid"@, self.spec_seller_id())]
    }

    /// The headers that every request of this client carries: the token as
    /// it is, the wish for a JSON answer, and the secret key as it is.
    pub open spec fn spec_headers(&self) -> Seq<(Seq<char>, Seq<char>)> {
        seq![
            ("Authorization"@, self.spec_token()),
            ("Accept"@, "application/json"@),
            ("SecretKey"@, self.spec_secret_key()),
        ]
    }

    /// What every request of this client starts from: the path under the
    /// marketplace's base URL, the seller id as the only query parameter, the
    /// three headers that authenticate the seller and ask for JSON, and no
    /// body yet.
    pub open spec fn prepares<B>(
        &self,
        method: Method,
        path: Seq<char>,
        request: PreparedRequest<B>,
    ) -> bool {
        &&& request.method == method
        &&& request.url@ == self.spec_marketplace().spec_base_url() + path
        &&& request.query.deep_view() == self.spec_query()
        &&& request.headers.deep_view() == self.spec_headers()
        &&& request.body is None
    }

    /// A request of this client that carries `body` as JSON, with
    /// `parameters` behind the seller id in its query and the content type
    /// behind the client's own headers.
    pub open spec fn sends<B>(
        &self,
        method: Method,
        path: Seq<char>,
        parameters: Seq<(Seq<char>, Seq<char>)>,
        body: B,
        request: PreparedRequest<B>,
    ) -> bool {
        &&& request.method == method
        &&& request.url@ == self.spec_marketplace().spec_base_url() + path
        &&& request.query.deep_view() == self.spec_query() + parameters
        &&& request.headers.deep_view() == self.spec_headers().push(
            ("Content-Type"@, "application/json"@),
        )
        &&& request.body == Some(body)
    }

    /// A request of this client that carries no body: one that asks and sends
    /// nothing.
    pub open spec fn asks<B>(&self, path: Seq<char>, request: PreparedRequest<B>) -> bool {
        self.prepares(Method::Get, path, request)
    }

    /// Prepares a request to `path` of this client's marketplace.
    ///
    /// Nothing can fail here: the credentials were checked when the client was
    /// made, which the last clause records.
    pub fn request<B>(&self, method: Method, path: &str) -> (request: PreparedRequest<B>)
        ensures
            self.prepares(method, path@, request),
            is_header_value(self.spec_token()),
            is_header_value(self.spec_secret_key()),
    {
        proof {
            use_type_invariant(self);
        }
        let url = concat_strs(self.marketplace_.base_url(), path);
        let mut query: Vec<(String, String)> = Vec::new();
        query.push(("sellerid".to_owned(), self.seller_id_.clone()));
        let mut headers: Vec<(String, String)> = Vec::new();
        headers.push(("Authorization".to_owned(), self.token.clone()));
        headers.push(("Accept".to_owned(), "application/json".to_owned()));
        headers.push(("SecretKey".to_owned(), self.secret_key.clone()));
        let request = PreparedRequest { method, url, query, headers, body: None };
        assert(request.query.deep_view() =~= self.spec_query());
        assert(request.headers.deep_view() =~= self.spec_headers());
        request
    }
}

/// The byte-order mark that some responses start with.
pub const BOM: char = '\u{feff}';

/// A text without its leading byte-order mark: one mark is dropped if the
/// text starts with one, and nothing else changes.
pub open spec fn strip_bom_spec(body: Seq<char>) -> Seq<char> {
    if body.len() > 0 && body[0] == BOM {
        body.skip(1)
    } else {
        body
    }
}

/// Drops one leading byte-order mark, if there is one.
pub fn strip_bom(body: &str) -> (text: &str)
    ensures
        text@ == strip_bom_spec(body@),
{
    if body.is_empty() {
        body
    } else if body.get_char(0) == BOM {
        let len = body.unicode_len();
        body.substring_char(1, len)
    } else {
        body
    }
}

/// How a decoder's answer becomes the outcome of a response with status 200:
/// its value as it is, or its diagnostic together with the text it was given.
pub open spec fn deserialized_as<T>(
    parsed: Result<T, String>,
    text: Seq<char>,
    outcome: NeweggResult<T>,
) -> bool {
    match parsed {
        Ok(value) => outcome == Ok::<T, NeweggError>(value),
        Err(message) => outcome matches Err(error) && error.is_deserialize(message@, text),
    }
}

/// A response as it came off the wire: status, address and body text.
#[derive(Debug)]
pub struct NeweggResponse {
    pub status: u16,
    /// The URL that answered.
    pub url: String,
    pub body: String,
}

impl NeweggResponse {
    /// The body as the decoder sees it: without a leading byte-order mark.
    pub open spec fn text(&self) -> Seq<char> {
        strip_bom_spec(self.body@)
    }

    /// Whether `outcome` is the failed request that a status other than 200
    /// stands for: the address, the status, and the body without its mark.
    pub open spec fn is_failed_request<T>(&self, outcome: NeweggResult<T>) -> bool {
        outcome matches Err(error) && error.is_request(self.url@, self.status, self.text())
    }

    /// How this response decodes, given what the decoder says of its text.
    ///
    /// A status other than 200 is a failed request, whatever the body holds.
    /// With status 200 the decoder decides: there is no third outcome.
    pub open spec fn decodes_to<T>(
        &self,
        parsed: Result<T, String>,
        outcome: NeweggResult<T>,
    ) -> bool {
        if self.status != 200 {
            self.is_failed_request(outcome)
        } else {
            deserialized_as(parsed, self.text(), outcome)
        }
    }

    /// Decodes the response into a value of type `T`.
    ///
    /// `deserialize` reads a `T` out of JSON text, or says why it cannot. It
    /// is called once, on the body without its byte-order mark, and only if
    /// the status is 200. Any other status gives `NeweggError::Request` with
    /// that same text as its body; a decoder's refusal gives
    /// `NeweggError::Deserialize` with the decoder's message and the text.
    pub fn get_response<T, F: FnOnce(&str) -> Result<T, String>>(&self, deserialize: F) -> (outcome:
        NeweggResult<T>)
        requires
            self.status == 200 ==> forall|text: &str|
                text@ == self.text() ==> deserialize.requires((text,)),
        ensures
            self.status != 200 ==> self.is_failed_request(outcome),
            self.status == 200 ==> exists|text: &str, parsed: Result<T, String>|
                text@ == self.text() && #[trigger] deserialize.ensures((text,), parsed)
                    && self.decodes_to(parsed, outcome),
    {
        let text = strip_bom(self.body.as_str());
        if self.status != 200 {
            Err(
                NeweggError::Request {
                    path: self.url.clone(),
                    status: self.status,
                    body: text.to_owned(),
                },
            )
        } else {
            let parsed = deserialize(text);
            let ghost witness = parsed;
            let outcome = match parsed {
                Ok(value) => Ok(value),
                Err(message) => Err(NeweggError::Deserialize { msg: message, body: text.to_owned() }),
            };
            assert(deserialize.ensures((text,), witness) && self.decodes_to(witness, outcome));
            outcome
        }
    }
}

/// A leading byte-order mark changes nothing: a response whose body starts
/// with the mark decodes exactly as the response with the same status, address
/// and the body without it, whatever the decoder answers.
///
/// The body behind the mark must not start with a second mark: only one is
/// ever dropped.
pub proof fn lemma_leading_mark_is_ignored<T>(
    marked: NeweggResponse,
    plain: NeweggResponse,
    parsed: Result<T, String>,
    outcome: NeweggResult<T>,
)
    requires
        marked.status == plain.status,
        marked.url@ == plain.url@,
        marked.body@ == seq![BOM] + plain.body@,
        plain.body@.len() > 0 ==> plain.body@[0] != BOM,
    ensures
        marked.text() == plain.body@,
        marked.text() == plain.text(),
        marked.decodes_to(parsed, outcome) == plain.decodes_to(parsed, outcome),
{
    assert(marked.body@.skip(1) =~= plain.body@);
}

} // verus!
