//! Token acquisition and the resource client.

use vstd::prelude::*;
use crate::http::{
    answers, carries_token, exchange, into_text, open_request, open_request_model, reply_text, succeeded,
    succeeded_model, takes_all, token_header, with_body, with_header, HTTPMethod, Reply, Request,
    RequestView,
};
use crate::json::{
    field, flavors_of_text, get_field, get_text, images_of_text, json_document, parse_document,
    parse_flavors, parse_images, parse_servers, servers_of_text, text_field, Json,
};
use crate::text::{join2, join3, json_string, quote};
use crate::types::{
    ApiError, Flavor, FlavorView, Flavors, Image, ImageView, Images, Server, ServerView, Servers,
};

verus! {

/// The token that the identity service hands out. Every call on the compute
/// service carries it.
#[derive(Debug)]
pub struct APIToken {
    pub value: String,
}

/// The address of the identity service.
pub open spec fn token_url() -> Seq<char> {
    "https://identity.tyo1.conoha.io/v2.0/tokens"@
}

/// The body of a request for a token: a JSON object that holds the user
/// name, the password and the tenant, each written as a JSON string.
pub open spec fn token_params(
    user_name: Seq<char>,
    password: Seq<char>,
    tenant_id: Seq<char>,
) -> Seq<char> {
    "{ \"auth\": { \"passwordCredentials\": { \"username\": "@ + json_string(user_name)
        + ", \"password\": "@ + json_string(password) + " }, \"tenantId\": "@
        + json_string(tenant_id) + " } }"@
}

/// The request for a token: a POST to the identity service, without a token.
pub open spec fn token_request_model(
    user_name: Seq<char>,
    password: Seq<char>,
    tenant_id: Seq<char>,
) -> RequestView {
    RequestView {
        body: Some(token_params(user_name, password, tenant_id)),
        ..open_request_model(HTTPMethod::POST, token_url())
    }
}

/// The token that a document of the identity service holds: the text under
/// `id`, in the object under `token`, in the object under `access`.
pub open spec fn token_in_document(doc: Json) -> Option<Seq<char>> {
    match field(doc, "access"@) {
        Some(access) => match field(access, "token"@) {
            Some(token) => text_field(token, "id"@),
            None => None,
        },
        None => None,
    }
}

/// The token that the text of an answer holds: the text must be a JSON
/// document, and the document must hold a token.
pub open spec fn token_in_text(text: Seq<char>) -> Option<Seq<char>> {
    match json_document(text) {
        Some(doc) => token_in_document(doc),
        None => None,
    }
}

/// What a reply to a token request comes to: the token, or why there is none.
pub open spec fn token_model(reply: Reply) -> Result<Seq<char>, ApiError> {
    match reply_text(reply) {
        None => Err(ApiError::Transport),
        Some(text) => match token_in_text(text) {
            Some(token) => Ok(token),
            None => Err(ApiError::ResponseShape),
        },
    }
}

/// Takes the token out of a document of the identity service, wherever in
/// their objects the three members stand.
pub fn token_from_document(doc: &Json) -> (r: Option<APIToken>)
    ensures
        r.is_some() == token_in_document(*doc).is_some(),
        r.is_some() ==> r.unwrap().value@ == token_in_document(*doc).unwrap(),
{
    let access = match get_field(doc, "access") {
        Some(access) => access,
        None => {
            return None;
        },
    };
    let token = match get_field(access, "token") {
        Some(token) => token,
        None => {
            return None;
        },
    };
    match get_text(token, "id") {
        Some(value) => Some(APIToken { value }),
        None => None,
    }
}

/// Takes the token out of the text of an answer.
pub fn token_from_text(text: &str) -> (r: Option<APIToken>)
    ensures
        r.is_some() == token_in_text(text@).is_some(),
        r.is_some() ==> r.unwrap().value@ == token_in_text(text@).unwrap(),
{
    match parse_document(text) {
        Some(doc) => token_from_document(&doc),
        None => None,
    }
}

/// Reads the reply to a token request. A failed exchange gives
/// `ApiError::Transport`, an answer without a token `ApiError::ResponseShape`.
pub fn token_from_reply(reply: Reply) -> (r: Result<APIToken, ApiError>)
    ensures
        match r {
            Ok(token) => token_model(reply) == Ok::<Seq<char>, ApiError>(token.value@),
            Err(e) => token_model(reply) == Err::<Seq<char>, ApiError>(e),
        },
{
    match into_text(reply) {
        None => Err(ApiError::Transport),
        Some(text) => match token_from_text(text.as_str()) {
            Some(token) => Ok(token),
            None => Err(ApiError::ResponseShape),
        },
    }
}

/// A request for a token, for one user of one tenant.
pub struct APITokenRequest<F: Fn(Request) -> Reply> {
    client: F,
    user_name: String,
    tenant_id: String,
}

impl<F: Fn(Request) -> Reply> APITokenRequest<F> {
    /// The transport that requests go through.
    pub closed spec fn transport(&self) -> F {
        self.client
    }

    /// The user that the token is asked for.
    pub closed spec fn user(&self) -> Seq<char> {
        self.user_name@
    }

    /// The tenant that the token is asked for.
    pub closed spec fn tenant(&self) -> Seq<char> {
        self.tenant_id@
    }

    /// A request for a token for `user_name` of `tenant_id`, to be sent
    /// through `client`. The password is given when it is sent.
    pub fn new(client: F, user_name: String, tenant_id: String) -> (r: Self)
        ensures
            r.transport() == client,
            r.user() == user_name@,
            r.tenant() == tenant_id@,
    {
        APITokenRequest { client, user_name, tenant_id }
    }

    fn url(&self) -> (r: &'static str)
        ensures
            r@ == token_url(),
    {
        "https://identity.tyo1.conoha.io/v2.0/tokens"
    }

    fn params(&self, password: &str) -> (r: String)
        ensures
            r@ == token_params(self.user(), password@, self.tenant()),
    {
        let user_name = quote(self.user_name.as_str());
        let password = quote(password);
        let tenant_id = quote(self.tenant_id.as_str());
        let mut out = String::from_str("{ \"auth\": { \"passwordCredentials\": { \"username\": ");
        out.append(user_name.as_str());
        out.append(", \"password\": ");
        out.append(password.as_str());
        out.append(" }, \"tenantId\": ");
        out.append(tenant_id.as_str());
        out.append(" } }");
        out
    }

    /// The request that `send` hands to the transport.
    pub fn request(&self, password: &str) -> (r: Request)
        ensures
            r@ == token_request_model(self.user(), password@, self.tenant()),
    {
        with_body(open_request(HTTPMethod::POST, self.url()), self.params(password))
    }

    /// Asks the identity service for a token: sends one request and reads
    /// the token out of the answer.
    pub fn send(&self, password: String) -> (r: Result<APIToken, ApiError>)
        requires
            takes_all(self.transport()),
        ensures
            exists|reply: Reply|
                #![trigger token_model(reply)]
                answers(
                    self.transport(),
                    token_request_model(self.user(), password@, self.tenant()),
                    reply,
                ) && match r {
                    Ok(token) => token_model(reply) == Ok::<Seq<char>, ApiError>(token.value@),
                    Err(e) => token_model(reply) == Err::<Seq<char>, ApiError>(e),
                },
    {
        let reply = exchange(&self.client, self.request(password.as_str()));
        let ghost got = reply;
        let r = token_from_reply(reply);
        assert(answers(
            self.transport(),
            token_request_model(self.user(), password@, self.tenant()),
            got,
        ));
        assert(token_model(got) is Ok || token_model(got) is Err);
        r
    }
}


/// A request of the resource client: it asks for JSON and carries the token.
pub open spec fn basic_request_model(token: Seq<char>, method: HTTPMethod, url: Seq<char>) -> RequestView {
    RequestView {
        method,
        url,
        headers: seq![crate::http::accept_header(), token_header(token)],
        body: None,
    }
}

/// The address under which the compute service keeps what belongs to a tenant.
pub open spec fn tenant_url(tenant_id: Seq<char>) -> Seq<char> {
    "https://compute.tyo1.conoha.io/v2/"@ + tenant_id
}

/// Where the servers of a tenant are listed.
pub open spec fn servers_detail_url(tenant_id: Seq<char>) -> Seq<char> {
    tenant_url(tenant_id) + "/servers/detail"@
}

/// Where the flavors are listed.
pub open spec fn flavors_url(tenant_id: Seq<char>) -> Seq<char> {
    tenant_url(tenant_id) + "/flavors"@
}

/// Where the images are listed.
pub open spec fn images_url(tenant_id: Seq<char>) -> Seq<char> {
    tenant_url(tenant_id) + "/images"@
}

/// Where a new server is asked for.
pub open spec fn servers_url(tenant_id: Seq<char>) -> Seq<char> {
    tenant_url(tenant_id) + "/servers"@
}

/// The address of one server.
pub open spec fn server_url(server: ServerView) -> Seq<char> {
    tenant_url(server.tenant_id) + "/servers/"@ + server.id
}

/// Where a server takes the order to start or to stop.
pub open spec fn action_url(server: ServerView) -> Seq<char> {
    server_url(server) + "/action"@
}

/// The body that asks for a new server of `flavor`, booted from `image`: a
/// JSON object that holds the two ids, each written as a JSON string.
pub open spec fn create_params(flavor: FlavorView, image: ImageView) -> Seq<char> {
    "{\"server\": { \"imageRef\": "@ + json_string(image.id) + ", \"flavorRef\": "@
        + json_string(flavor.id) + " }  }"@
}

/// The body that starts a server.
pub open spec fn start_params() -> Seq<char> {
    "{\"os-start\": null}"@
}

/// The body that stops a server.
pub open spec fn stop_params() -> Seq<char> {
    "{\"os-stop\": null}"@
}

/// The request that fetches a list from `url`.
pub open spec fn list_request_model(token: Seq<char>, url: Seq<char>) -> RequestView {
    basic_request_model(token, HTTPMethod::GET, url)
}

/// The request that asks for a new server.
pub open spec fn create_request_model(
    token: Seq<char>,
    tenant_id: Seq<char>,
    flavor: FlavorView,
    image: ImageView,
) -> RequestView {
    RequestView {
        body: Some(create_params(flavor, image)),
        ..basic_request_model(token, HTTPMethod::POST, servers_url(tenant_id))
    }
}

/// The request that starts `server`.
pub open spec fn boot_request_model(token: Seq<char>, server: ServerView) -> RequestView {
    RequestView {
        body: Some(start_params()),
        ..basic_request_model(token, HTTPMethod::POST, action_url(server))
    }
}

/// The request that stops `server`.
pub open spec fn shutdown_request_model(token: Seq<char>, server: ServerView) -> RequestView {
    RequestView {
        body: Some(stop_params()),
        ..basic_request_model(token, HTTPMethod::POST, action_url(server))
    }
}

/// The request that deletes `server`. It has no body.
pub open spec fn delete_request_model(token: Seq<char>, server: ServerView) -> RequestView {
    basic_request_model(token, HTTPMethod::DELETE, server_url(server))
}

/// What a reply to a listing comes to, given what its text lists.
pub open spec fn listing_model<T>(
    reply: Reply,
    listed: spec_fn(Seq<char>) -> Option<T>,
) -> Result<T, ApiError> {
    match reply_text(reply) {
        None => Err(ApiError::Transport),
        Some(text) => match listed(text) {
            Some(list) => Ok(list),
            None => Err(ApiError::ResponseShape),
        },
    }
}

/// What a reply to a listing of servers comes to.
pub open spec fn servers_result(reply: Reply) -> Result<Seq<ServerView>, ApiError> {
    listing_model(reply, |text: Seq<char>| servers_of_text(text))
}

/// What a reply to a listing of flavors comes to.
pub open spec fn flavors_result(reply: Reply) -> Result<Seq<FlavorView>, ApiError> {
    listing_model(reply, |text: Seq<char>| flavors_of_text(text))
}

/// What a reply to a listing of images comes to.
pub open spec fn images_result(reply: Reply) -> Result<Seq<ImageView>, ApiError> {
    listing_model(reply, |text: Seq<char>| images_of_text(text))
}

/// Reads the reply to a listing of servers. A failed exchange gives
/// `ApiError::Transport`, a body of another shape `ApiError::ResponseShape`.
pub fn servers_from_reply(reply: Reply) -> (r: Result<Servers, ApiError>)
    ensures
        match r {
            Ok(list) => servers_result(reply) == Ok::<Seq<ServerView>, ApiError>(list@),
            Err(e) => servers_result(reply) == Err::<Seq<ServerView>, ApiError>(e),
        },
{
    match into_text(reply) {
        None => Err(ApiError::Transport),
        Some(text) => parse_servers(text.as_str()),
    }
}

/// Reads the reply to a listing of flavors, as `servers_from_reply` does for
/// servers.
pub fn flavors_from_reply(reply: Reply) -> (r: Result<Flavors, ApiError>)
    ensures
        match r {
            Ok(list) => flavors_result(reply) == Ok::<Seq<FlavorView>, ApiError>(list@),
            Err(e) => flavors_result(reply) == Err::<Seq<FlavorView>, ApiError>(e),
        },
{
    match into_text(reply) {
        None => Err(ApiError::Transport),
        Some(text) => parse_flavors(text.as_str()),
    }
}

/// Reads the reply to a listing of images, as `servers_from_reply` does for
/// servers.
pub fn images_from_reply(reply: Reply) -> (r: Result<Images, ApiError>)
    ensures
        match r {
            Ok(list) => images_result(reply) == Ok::<Seq<ImageView>, ApiError>(list@),
            Err(e) => images_result(reply) == Err::<Seq<ImageView>, ApiError>(e),
        },
{
    match into_text(reply) {
        None => Err(ApiError::Transport),
        Some(text) => parse_images(text.as_str()),
    }
}

/// The client for the compute service. It holds the token and the transport
/// that its requests go through.
pub struct APIClient<'a, F: Fn(Request) -> Reply> {
    http_client: F,
    api_token: &'a APIToken,
}

impl<'a, F: Fn(Request) -> Reply> APIClient<'a, F> {
    /// The transport that requests go through.
    pub closed spec fn transport(&self) -> F {
        self.http_client
    }

    /// The token that the client was made with.
    pub closed spec fn token(&self) -> Seq<char> {
        self.api_token.value@
    }

    /// A client that sends through `http_client` and carries `api_token`.
    pub fn new(http_client: F, api_token: &'a APIToken) -> (r: Self)
        ensures
            r.transport() == http_client,
            r.token() == api_token.value@,
    {
        APIClient { http_client, api_token }
    }

    /// The request that every call starts from: it asks for JSON and carries
    /// the client's token.
    pub fn basic_request(&self, method: HTTPMethod, url: &str) -> (r: Request)
        ensures
            r@ == basic_request_model(self.token(), method, url@),
            carries_token(r@, self.token()),
    {
        let r = with_header(open_request(method, url), "X-Auth-Token", self.api_token.value.as_str());
        assert(r@.headers =~= seq![crate::http::accept_header(), token_header(self.token())]);
        assert(r@.headers[1] == token_header(self.token()));
        r
    }

    /// The request that lists the servers of a tenant.
    pub fn servers_request(&self, tenant_id: &str) -> (r: Request)
        ensures
            r@ == list_request_model(self.token(), servers_detail_url(tenant_id@)),
    {
        let url = join3("https://compute.tyo1.conoha.io/v2/", tenant_id, "/servers/detail");
        self.basic_request(HTTPMethod::GET, url.as_str())
    }

    /// The request that lists the flavors.
    pub fn flavors_request(&self, tenant_id: &str) -> (r: Request)
        ensures
            r@ == list_request_model(self.token(), flavors_url(tenant_id@)),
    {
        let url = join3("https://compute.tyo1.conoha.io/v2/", tenant_id, "/flavors");
        self.basic_request(HTTPMethod::GET, url.as_str())
    }

    /// The request that lists the images.
    pub fn images_request(&self, tenant_id: &str) -> (r: Request)
        ensures
            r@ == list_request_model(self.token(), images_url(tenant_id@)),
    {
        let url = join3("https://compute.tyo1.conoha.io/v2/", tenant_id, "/images");
        self.basic_request(HTTPMethod::GET, url.as_str())
    }

    /// The request that creates a server.
    pub fn create_server_request(&self, tenant_id: &str, flavor: &Flavor, image: &Image) -> (r: Request)
        ensures
            r@ == create_request_model(self.token(), tenant_id@, flavor@, image@),
    {
        let url = join3("https://compute.tyo1.conoha.io/v2/", tenant_id, "/servers");
        let image_id = quote(image.id.as_str());
        let flavor_id = quote(flavor.id.as_str());
        let mut body = String::from_str("{\"server\": { \"imageRef\": ");
        body.append(image_id.as_str());
        body.append(", \"flavorRef\": ");
        body.append(flavor_id.as_str());
        body.append(" }  }");
        with_body(self.basic_request(HTTPMethod::POST, url.as_str()), body)
    }

    fn server_address(server: &Server) -> (r: String)
        ensures
            r@ == server_url(server@),
    {
        let mut url = String::from_str("https://compute.tyo1.conoha.io/v2/");
        url.append(server.tenant_id.as_str());
        url.append("/servers/");
        url.append(server.id.as_str());
        url
    }

    /// The request that starts a server.
    pub fn boot_request(&self, server: &Server) -> (r: Request)
        ensures
            r@ == boot_request_model(self.token(), server@),
    {
        let url = join2(Self::server_address(server).as_str(), "/action");
        with_body(
            self.basic_request(HTTPMethod::POST, url.as_str()),
            String::from_str("{\"os-start\": null}"),
        )
    }

    /// The request that stops a server.
    pub fn shutdown_request(&self, server: &Server) -> (r: Request)
        ensures
            r@ == shutdown_request_model(self.token(), server@),
    {
        let url = join2(Self::server_address(server).as_str(), "/action");
        with_body(
            self.basic_request(HTTPMethod::POST, url.as_str()),
            String::from_str("{\"os-stop\": null}"),
        )
    }

    /// The request that deletes a server.
    pub fn delete_request(&self, server: &Server) -> (r: Request)
        ensures
            r@ == delete_request_model(self.token(), server@),
    {
        let url = Self::server_address(server);
        self.basic_request(HTTPMethod::DELETE, url.as_str())
    }

    /// Fetches the list of a tenant's servers as the text that the service
    /// sent; `None` where the exchange failed or the text could not be read.
    pub fn servers_text(&self, tenant_id: String) -> (r: Option<String>)
        requires
            takes_all(self.transport()),
        ensures
            exists|reply: Reply|
                #![trigger reply_text(reply)]
                answers(
                    self.transport(),
                    list_request_model(self.token(), servers_detail_url(tenant_id@)),
                    reply,
                ) && r.is_some() == reply_text(reply).is_some() && (r.is_some() ==> r.unwrap()@
                    == reply_text(reply).unwrap()),
    {
        let reply = exchange(&self.http_client, self.servers_request(tenant_id.as_str()));
        let ghost got = reply;
        let r = into_text(reply);
        assert(r.is_some() == reply_text(got).is_some());
        r
    }

    /// Lists the servers of a tenant, in the order of the answer.
    pub fn servers(&self, tenant_id: String) -> (r: Result<Servers, ApiError>)
        requires
            takes_all(self.transport()),
        ensures
            exists|reply: Reply|
                #![trigger servers_result(reply)]
                answers(
                    self.transport(),
                    list_request_model(self.token(), servers_detail_url(tenant_id@)),
                    reply,
                ) && match r {
                    Ok(list) => servers_result(reply) == Ok::<Seq<ServerView>, ApiError>(list@),
                    Err(e) => servers_result(reply) == Err::<Seq<ServerView>, ApiError>(e),
                },
    {
        let reply = exchange(&self.http_client, self.servers_request(tenant_id.as_str()));
        let ghost got = reply;
        let r = servers_from_reply(reply);
        assert(servers_result(got) is Ok || servers_result(got) is Err);
        r
    }

    /// Lists the flavors, in the order of the answer.
    pub fn flavors(&self, tenant_id: String) -> (r: Result<Flavors, ApiError>)
        requires
            takes_all(self.transport()),
        ensures
            exists|reply: Reply|
                #![trigger flavors_result(reply)]
                answers(
                    self.transport(),
                    list_request_model(self.token(), flavors_url(tenant_id@)),
                    reply,
                ) && match r {
                    Ok(list) => flavors_result(reply) == Ok::<Seq<FlavorView>, ApiError>(list@),
                    Err(e) => flavors_result(reply) == Err::<Seq<FlavorView>, ApiError>(e),
                },
    {
        let reply = exchange(&self.http_client, self.flavors_request(tenant_id.as_str()));
        let ghost got = reply;
        let r = flavors_from_reply(reply);
        assert(flavors_result(got) is Ok || flavors_result(got) is Err);
        r
    }

    /// Lists the images, in the order of the answer.
    pub fn images(&self, tenant_id: String) -> (r: Result<Images, ApiError>)
        requires
            takes_all(self.transport()),
        ensures
            exists|reply: Reply|
                #![trigger images_result(reply)]
                answers(
                    self.transport(),
                    list_request_model(self.token(), images_url(tenant_id@)),
                    reply,
                ) && match r {
                    Ok(list) => images_result(reply) == Ok::<Seq<ImageView>, ApiError>(list@),
                    Err(e) => images_result(reply) == Err::<Seq<ImageView>, ApiError>(e),
                },
    {
        let reply = exchange(&self.http_client, self.images_request(tenant_id.as_str()));
        let ghost got = reply;
        let r = images_from_reply(reply);
        assert(images_result(got) is Ok || images_result(got) is Err);
        r
    }

    /// Asks for a new server of `flavor`, booted from `image`. `true` if and
    /// only if the service answered with a success status.
    pub fn create_server(&self, tenant_id: &String, flavor: &Flavor, image: &Image) -> (ok: bool)
        requires
            takes_all(self.transport()),
        ensures
            exists|reply: Reply|
                #![trigger succeeded_model(reply)]
                answers(
                    self.transport(),
                    create_request_model(self.token(), tenant_id@, flavor@, image@),
                    reply,
                ) && ok == succeeded_model(reply),
    {
        let reply = exchange(
            &self.http_client,
            self.create_server_request(tenant_id.as_str(), flavor, image),
        );
        let ok = succeeded(&reply);
        assert(ok == succeeded_model(reply));
        ok
    }

    /// Starts `server`. `true` if and only if the service answered with a
    /// success status.
    pub fn boot(&self, server: &Server) -> (ok: bool)
        requires
            takes_all(self.transport()),
        ensures
            exists|reply: Reply|
                #![trigger succeeded_model(reply)]
                answers(self.transport(), boot_request_model(self.token(), server@), reply) && ok
                    == succeeded_model(reply),
    {
        let reply = exchange(&self.http_client, self.boot_request(server));
        let ok = succeeded(&reply);
        assert(ok == succeeded_model(reply));
        ok
    }

    /// Stops `server`. `true` if and only if the service answered with a
    /// success status.
    pub fn shutdown(&self, server: &Server) -> (ok: bool)
        requires
            takes_all(self.transport()),
        ensures
            exists|reply: Reply|
                #![trigger succeeded_model(reply)]
                answers(self.transport(), shutdown_request_model(self.token(), server@), reply)
                    && ok == succeeded_model(reply),
    {
        let reply = exchange(&self.http_client, self.shutdown_request(server));
        let ok = succeeded(&reply);
        assert(ok == succeeded_model(reply));
        ok
    }

    /// Deletes `server`. `true` if and only if the service answered with a
    /// success status.
    pub fn delete(&self, server: &Server) -> (ok: bool)
        requires
            takes_all(self.transport()),
        ensures
            exists|reply: Reply|
                #![trigger succeeded_model(reply)]
                answers(self.transport(), delete_request_model(self.token(), server@), reply) && ok
                    == succeeded_model(reply),
    {
        let reply = exchange(&self.http_client, self.delete_request(server));
        let ok = succeeded(&reply);
        assert(ok == succeeded_model(reply));
        ok
    }
}

/// An answer whose text is a document that holds the token `token` gives
/// exactly `token`.
pub proof fn lemma_token_is_read_back(reply: Reply, doc: Json, token: Seq<char>)
    requires
        reply_text(reply) is Some,
        json_document(reply_text(reply).unwrap()) == Some(doc),
        token_in_document(doc) == Some(token),
    ensures
        token_model(reply) == Ok::<Seq<char>, ApiError>(token),
{
}

/// An answer whose text holds no token gives `ApiError::ResponseShape`,
/// never a token.
pub proof fn lemma_missing_token_is_an_error(reply: Reply)
    requires
        reply_text(reply) is Some,
        token_in_text(reply_text(reply).unwrap()) is None,
    ensures
        token_model(reply) == Err::<Seq<char>, ApiError>(ApiError::ResponseShape),
{
}

/// An exchange that failed, or whose text could not be read, gives
/// `ApiError::Transport` and never a token.
pub proof fn lemma_no_token_without_answer(reply: Reply)
    requires
        reply_text(reply) is None,
    ensures
        token_model(reply) == Err::<Seq<char>, ApiError>(ApiError::Transport),
{
}

/// An answer to a listing whose text is no JSON document gives
/// `ApiError::ResponseShape`, whatever was listed: never an empty list.
pub proof fn lemma_malformed_listing_is_an_error(reply: Reply)
    requires
        reply_text(reply) is Some,
        json_document(reply_text(reply).unwrap()) is None,
    ensures
        servers_result(reply) == Err::<Seq<ServerView>, ApiError>(ApiError::ResponseShape),
        flavors_result(reply) == Err::<Seq<FlavorView>, ApiError>(ApiError::ResponseShape),
        images_result(reply) == Err::<Seq<ImageView>, ApiError>(ApiError::ResponseShape),
{
}

/// A call counts as carried out if and only if an answer came and its status
/// lies between 200 and 299.
pub proof fn lemma_success_is_a_success_status(reply: Reply)
    ensures
        succeeded_model(reply) <==> (reply matches Reply::Answered { status, .. } && 200 <= status
            <= 299),
        reply is Failed ==> !succeeded_model(reply),
{
}

/// Every request of the resource client carries the token in its
/// `X-Auth-Token` header.
pub proof fn lemma_requests_carry_the_token(
    token: Seq<char>,
    method: HTTPMethod,
    url: Seq<char>,
    tenant_id: Seq<char>,
    server: ServerView,
    flavor: FlavorView,
    image: ImageView,
)
    ensures
        carries_token(basic_request_model(token, method, url), token),
        carries_token(list_request_model(token, url), token),
        carries_token(create_request_model(token, tenant_id, flavor, image), token),
        carries_token(boot_request_model(token, server), token),
        carries_token(shutdown_request_model(token, server), token),
        carries_token(delete_request_model(token, server), token),
{
    assert(basic_request_model(token, method, url).headers[1] == token_header(token));
    assert(list_request_model(token, url).headers[1] == token_header(token));
    assert(create_request_model(token, tenant_id, flavor, image).headers[1] == token_header(token));
    assert(boot_request_model(token, server).headers[1] == token_header(token));
    assert(shutdown_request_model(token, server).headers[1] == token_header(token));
    assert(delete_request_model(token, server).headers[1] == token_header(token));
}

} // verus!
