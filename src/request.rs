use vstd::prelude::*;

use crate::envelope::{timeout_of, timeout_secs, Operation};
use crate::text::{trim, trimmed};

verus! {

/// The HTTP method of a request.
#[derive(Clone, Copy, Debug, PartialEq, Eq, Structural)]
pub enum Method {
    Get,
    Post,
}

/// A name and a value: a header, or a field of a url-encoded form.
#[derive(Debug, PartialEq, Eq)]
pub struct Field {
    pub name: String,
    pub value: String,
}

impl View for Field {
    type V = (Seq<char>, Seq<char>);

    open spec fn view(&self) -> (Seq<char>, Seq<char>) {
        (self.name@, self.value@)
    }
}

/// One part of a multipart form.
#[derive(Debug, PartialEq, Eq)]
pub enum FormPart {
    Text { name: String, value: String },
    File { name: String, file_name: String, mime: String, bytes: Vec<u8> },
}

pub enum PartModel {
    Text { name: Seq<char>, value: Seq<char> },
    File { name: Seq<char>, file_name: Seq<char>, mime: Seq<char>, bytes: Seq<u8> },
}

impl View for FormPart {
    type V = PartModel;

    open spec fn view(&self) -> PartModel {
        match self {
            FormPart::Text { name, value } => PartModel::Text { name: name@, value: value@ },
            FormPart::File { name, file_name, mime, bytes } => PartModel::File {
                name: name@,
                file_name: file_name@,
                mime: mime@,
                bytes: bytes@,
            },
        }
    }
}

/// The body of a request.
#[derive(Debug, PartialEq, Eq)]
pub enum Body {
    Empty,
    /// `application/x-www-form-urlencoded` fields, in order.
    Form(Vec<Field>),
    /// Text sent verbatim.
    Raw(String),
    /// `multipart/form-data` parts, in order.
    Multipart(Vec<FormPart>),
}

pub enum BodyModel {
    Empty,
    Form(Seq<(Seq<char>, Seq<char>)>),
    Raw(Seq<char>),
    Multipart(Seq<PartModel>),
}

pub open spec fn fields_view(s: Seq<Field>) -> Seq<(Seq<char>, Seq<char>)> {
    s.map_values(|f: Field| f@)
}

pub open spec fn parts_view(s: Seq<FormPart>) -> Seq<PartModel> {
    s.map_values(|p: FormPart| p@)
}

impl View for Body {
    type V = BodyModel;

    open spec fn view(&self) -> BodyModel {
        match self {
            Body::Empty => BodyModel::Empty,
            Body::Form(fs) => BodyModel::Form(fields_view(fs@)),
            Body::Raw(s) => BodyModel::Raw(s@),
            Body::Multipart(ps) => BodyModel::Multipart(parts_view(ps@)),
        }
    }
}

/// One outgoing request, described in full: what the transport sends.
#[derive(Debug, PartialEq, Eq)]
pub struct HttpRequest {
    pub method: Method,
    pub url: String,
    pub headers: Vec<Field>,
    pub body: Body,
    /// Seconds after which the request is abandoned; `None` waits forever.
    pub timeout_secs: Option<u64>,
}

pub struct RequestModel {
    pub method: Method,
    pub url: Seq<char>,
    pub headers: Seq<(Seq<char>, Seq<char>)>,
    pub body: BodyModel,
    pub timeout: Option<u64>,
}

impl View for HttpRequest {
    type V = RequestModel;

    open spec fn view(&self) -> RequestModel {
        RequestModel {
            method: self.method,
            url: self.url@,
            headers: fields_view(self.headers@),
            body: self.body@,
            timeout: self.timeout_secs,
        }
    }
}

fn field(name: &str, value: &str) -> (r: Field)
    ensures
        r@ == (name@, value@),
{
    Field { name: name.to_owned(), value: value.to_owned() }
}

/// The `Authorization` header that carries a bearer token.
pub open spec fn bearer_header(token: Seq<char>) -> (Seq<char>, Seq<char>) {
    ("Authorization"@, "Bearer "@ + token)
}

fn bearer_field(token: &str) -> (r: Field)
    ensures
        r@ == bearer_header(token@),
{
    let mut value = "Bearer ".to_owned();
    value.append(token);
    Field { name: "Authorization".to_owned(), value }
}

/// The identity provider's token endpoint for a tenant.
pub open spec fn token_url_of(tenant_id: Seq<char>) -> Seq<char> {
    "https://login.microsoftonline.com/"@ + tenant_id + "/oauth2/v2.0/token"@
}

/// The token endpoint for `tenant_id` once trimmed.
pub fn token_url(tenant_id: &str) -> (r: String)
    ensures
        r@ == token_url_of(trimmed(tenant_id@)),
{
    let mut url = "https://login.microsoftonline.com/".to_owned();
    url.append(trim(tenant_id));
    url.append("/oauth2/v2.0/token");
    url
}

/// The client-credentials exchange: a form POST of the trimmed credentials to
/// the token endpoint of the trimmed tenant.
pub open spec fn token_request_of(
    tenant_id: Seq<char>,
    client_id: Seq<char>,
    client_secret: Seq<char>,
    scope: Seq<char>,
) -> RequestModel {
    RequestModel {
        method: Method::Post,
        url: token_url_of(trimmed(tenant_id)),
        headers: seq![],
        body: BodyModel::Form(
            seq![
                ("grant_type"@, "client_credentials"@),
                ("client_id"@, trimmed(client_id)),
                ("client_secret"@, trimmed(client_secret)),
                ("scope"@, trimmed(scope)),
            ],
        ),
        timeout: timeout_of(Operation::Token),
    }
}

/// The request of the token exchange.
pub fn token_request(tenant_id: &str, client_id: &str, client_secret: &str, scope: &str) -> (r:
    HttpRequest)
    ensures
        r@ == token_request_of(tenant_id@, client_id@, client_secret@, scope@),
{
    let fields = vec![
        field("grant_type", "client_credentials"),
        field("client_id", trim(client_id)),
        field("client_secret", trim(client_secret)),
        field("scope", trim(scope)),
    ];
    let r = HttpRequest {
        method: Method::Post,
        url: token_url(tenant_id),
        headers: Vec::new(),
        body: Body::Form(fields),
        timeout_secs: timeout_secs(Operation::Token),
    };
    assert(fields_view(r.headers@) =~= seq![]);
    assert(fields_view(fields@) =~= seq![
        ("grant_type"@, "client_credentials"@),
        ("client_id"@, trimmed(client_id@)),
        ("client_secret"@, trimmed(client_secret@)),
        ("scope"@, trimmed(scope@)),
    ]);
    r
}

/// An authenticated GET of `url`.
pub open spec fn rest_request_of(url: Seq<char>, token: Seq<char>) -> RequestModel {
    RequestModel {
        method: Method::Get,
        url,
        headers: seq![bearer_header(token)],
        body: BodyModel::Empty,
        timeout: timeout_of(Operation::Rest),
    }
}

/// The request of the REST proxy.
pub fn rest_request(url: &str, token: &str) -> (r: HttpRequest)
    ensures
        r@ == rest_request_of(url@, token@),
{
    let headers = vec![bearer_field(token)];
    let r = HttpRequest {
        method: Method::Get,
        url: url.to_owned(),
        headers,
        body: Body::Empty,
        timeout_secs: timeout_secs(Operation::Rest),
    };
    assert(fields_view(r.headers@) =~= seq![bearer_header(token@)]);
    r
}

/// An authenticated POST of a JSON document, sent as it is.
pub open spec fn graphql_request_of(url: Seq<char>, token: Seq<char>, query: Seq<char>) -> RequestModel {
    RequestModel {
        method: Method::Post,
        url,
        headers: seq![bearer_header(token), ("Content-Type"@, "application/json"@)],
        body: BodyModel::Raw(query),
        timeout: timeout_of(Operation::GraphQl),
    }
}

/// The request of the GraphQL proxy.
pub fn graphql_request(url: &str, token: &str, query: String) -> (r: HttpRequest)
    ensures
        r@ == graphql_request_of(url@, token@, query@),
{
    let headers = vec![bearer_field(token), field("Content-Type", "application/json")];
    let r = HttpRequest {
        method: Method::Post,
        url: url.to_owned(),
        headers,
        body: Body::Raw(query),
        timeout_secs: timeout_secs(Operation::GraphQl),
    };
    assert(fields_view(r.headers@) =~= seq![
        bearer_header(token@),
        ("Content-Type"@, "application/json"@),
    ]);
    r
}

/// The authentication header of a webhook call: an API key or a bearer token,
/// as `auth_type` says, and none for any other type or for an empty value.
pub open spec fn auth_header_of(auth_type: Seq<char>, auth_value: Seq<char>) -> Option<(Seq<char>, Seq<char>)> {
    if auth_value.len() == 0 {
        None
    } else if auth_type == "apiKey"@ {
        Some(("X-API-Key"@, auth_value))
    } else if auth_type == "bearer"@ {
        Some(bearer_header(auth_value))
    } else {
        None
    }
}

/// The headers that `auth_header_of` gives, as a list.
pub open spec fn auth_headers_of(auth_type: Seq<char>, auth_value: Seq<char>) -> Seq<(Seq<char>, Seq<char>)> {
    match auth_header_of(auth_type, auth_value) {
        Some(h) => seq![h],
        None => seq![],
    }
}

/// Selects the authentication header of a webhook call.
pub fn auth_header(auth_type: &str, auth_value: &str) -> (r: Option<Field>)
    ensures
        match r {
            Some(f) => auth_header_of(auth_type@, auth_value@) == Some(f@),
            None => auth_header_of(auth_type@, auth_value@) is None,
        },
{
    if auth_value.is_empty() {
        return None;
    }
    let kind = auth_type.to_owned();
    if kind == "apiKey".to_owned() {
        Some(field("X-API-Key", auth_value))
    } else if kind == "bearer".to_owned() {
        Some(bearer_field(auth_value))
    } else {
        None
    }
}

/// The media type of both documents sent to the webhook.
pub open spec fn pdf_mime() -> Seq<char> {
    "application/pdf"@
}

/// The multipart POST to the webhook: three text fields, then the two PDF
/// documents, with the authentication header that `auth_type` selects and no
/// timeout.
pub open spec fn webhook_request_of(
    webhook_url: Seq<char>,
    session_id: Seq<char>,
    produit: Seq<char>,
    client_name: Seq<char>,
    cdv_pdf: Seq<u8>,
    fiche_pdf: Seq<u8>,
    auth_type: Seq<char>,
    auth_value: Seq<char>,
) -> RequestModel {
    RequestModel {
        method: Method::Post,
        url: webhook_url,
        headers: auth_headers_of(auth_type, auth_value),
        body: BodyModel::Multipart(
            seq![
                PartModel::Text { name: "sessionId"@, value: session_id },
                PartModel::Text { name: "produit"@, value: produit },
                PartModel::Text { name: "client"@, value: client_name },
                PartModel::File {
                    name: "cdvPdf"@,
                    file_name: "cdv.pdf"@,
                    mime: pdf_mime(),
                    bytes: cdv_pdf,
                },
                PartModel::File {
                    name: "ficheLotPdf"@,
                    file_name: "fiche_lot.pdf"@,
                    mime: pdf_mime(),
                    bytes: fiche_pdf,
                },
            ],
        ),
        timeout: timeout_of(Operation::Webhook),
    }
}

fn text_part(name: &str, value: &str) -> (r: FormPart)
    ensures
        r@ == (PartModel::Text { name: name@, value: value@ }),
{
    FormPart::Text { name: name.to_owned(), value: value.to_owned() }
}

fn pdf_part(name: &str, file_name: &str, bytes: Vec<u8>) -> (r: FormPart)
    ensures
        r@ == (PartModel::File { name: name@, file_name: file_name@, mime: pdf_mime(), bytes: bytes@ }),
{
    FormPart::File {
        name: name.to_owned(),
        file_name: file_name.to_owned(),
        mime: "application/pdf".to_owned(),
        bytes,
    }
}

/// The request of the webhook call.
pub fn webhook_request(
    webhook_url: &str,
    session_id: &str,
    produit: &str,
    client_name: &str,
    cdv_pdf: Vec<u8>,
    fiche_pdf: Vec<u8>,
    auth_type: &str,
    auth_value: &str,
) -> (r: HttpRequest)
    ensures
        r@ == webhook_request_of(
            webhook_url@,
            session_id@,
            produit@,
            client_name@,
            cdv_pdf@,
            fiche_pdf@,
            auth_type@,
            auth_value@,
        ),
{
    let ghost cdv = cdv_pdf@;
    let ghost fiche = fiche_pdf@;
    let parts = vec![
        text_part("sessionId", session_id),
        text_part("produit", produit),
        text_part("client", client_name),
        pdf_part("cdvPdf", "cdv.pdf", cdv_pdf),
        pdf_part("ficheLotPdf", "fiche_lot.pdf", fiche_pdf),
    ];
    let headers = match auth_header(auth_type, auth_value) {
        Some(h) => vec![h],
        None => Vec::new(),
    };
    let r = HttpRequest {
        method: Method::Post,
        url: webhook_url.to_owned(),
        headers,
        body: Body::Multipart(parts),
        timeout_secs: timeout_secs(Operation::Webhook),
    };
    assert(fields_view(r.headers@) =~= auth_headers_of(auth_type@, auth_value@));
    assert(parts_view(parts@) =~= seq![
        PartModel::Text { name: "sessionId"@, value: session_id@ },
        PartModel::Text { name: "produit"@, value: produit@ },
        PartModel::Text { name: "client"@, value: client_name@ },
        PartModel::File { name: "cdvPdf"@, file_name: "cdv.pdf"@, mime: pdf_mime(), bytes: cdv },
        PartModel::File {
            name: "ficheLotPdf"@,
            file_name: "fiche_lot.pdf"@,
            mime: pdf_mime(),
            bytes: fiche,
        },
    ]);
    r
}

/// Whether `headers` holds a header named `name`.
pub open spec fn has_header(headers: Seq<(Seq<char>, Seq<char>)>, name: Seq<char>) -> bool {
    exists|i: int| 0 <= i < headers.len() && (#[trigger] headers[i]).0 == name
}

/// Whether `headers` holds a header named `name` with value `value`.
pub open spec fn has_header_value(
    headers: Seq<(Seq<char>, Seq<char>)>,
    name: Seq<char>,
    value: Seq<char>,
) -> bool {
    exists|i: int| 0 <= i < headers.len() && #[trigger] headers[i] == (name, value)
}

/// The webhook request carries at most one authentication header: with type
/// `apiKey` and a value, `X-API-Key: <value>` and no `Authorization`; with
/// type `bearer` and a value, `Authorization: Bearer <value>` and no
/// `X-API-Key`; with any other type or an empty value, neither.
pub proof fn lemma_webhook_auth_headers(
    webhook_url: Seq<char>,
    session_id: Seq<char>,
    produit: Seq<char>,
    client_name: Seq<char>,
    cdv_pdf: Seq<u8>,
    fiche_pdf: Seq<u8>,
    auth_type: Seq<char>,
    auth_value: Seq<char>,
)
    ensures
        ({
            let h = webhook_request_of(
                webhook_url,
                session_id,
                produit,
                client_name,
                cdv_pdf,
                fiche_pdf,
                auth_type,
                auth_value,
            ).headers;
            &&& (auth_type == "apiKey"@ && auth_value.len() > 0) ==> {
                &&& has_header_value(h, "X-API-Key"@, auth_value)
                &&& !has_header(h, "Authorization"@)
            }
            &&& (auth_type == "bearer"@ && auth_value.len() > 0) ==> {
                &&& has_header_value(h, "Authorization"@, "Bearer "@ + auth_value)
                &&& !has_header(h, "X-API-Key"@)
            }
            &&& (auth_value.len() == 0 || (auth_type != "apiKey"@ && auth_type != "bearer"@))
                ==> {
                &&& !has_header(h, "Authorization"@)
                &&& !has_header(h, "X-API-Key"@)
            }
        }),
{
    reveal_strlit("X-API-Key");
    reveal_strlit("Authorization");
    reveal_strlit("apiKey");
    reveal_strlit("bearer");
    let h = auth_headers_of(auth_type, auth_value);
    if auth_type == "apiKey"@ && auth_value.len() > 0 {
        assert(h[0] == ("X-API-Key"@, auth_value));
        assert("X-API-Key"@[0] != "Authorization"@[0]);
    }
    if auth_type == "bearer"@ && auth_value.len() > 0 {
        assert("bearer"@[0] != "apiKey"@[0]);
        assert(auth_type != "apiKey"@);
        assert(h[0] == bearer_header(auth_value));
        assert("X-API-Key"@[0] != "Authorization"@[0]);
    }
}

/// A REST call gives up after 15 s, a GraphQL call after 60 s, a token
/// exchange after 10 s, and a webhook call never does.
pub proof fn lemma_request_timeouts(
    url: Seq<char>,
    token: Seq<char>,
    query: Seq<char>,
    tenant_id: Seq<char>,
    client_id: Seq<char>,
    client_secret: Seq<char>,
    scope: Seq<char>,
    session_id: Seq<char>,
    produit: Seq<char>,
    client_name: Seq<char>,
    cdv_pdf: Seq<u8>,
    fiche_pdf: Seq<u8>,
    auth_type: Seq<char>,
    auth_value: Seq<char>,
)
    ensures
        token_request_of(tenant_id, client_id, client_secret, scope).timeout == Some(10u64),
        rest_request_of(url, token).timeout == Some(15u64),
        graphql_request_of(url, token, query).timeout == Some(60u64),
        webhook_request_of(
            url,
            session_id,
            produit,
            client_name,
            cdv_pdf,
            fiche_pdf,
            auth_type,
            auth_value,
        ).timeout is None,
{
}

/// Nothing is kept between calls: the same REST or GraphQL arguments give the
/// same request, so an endpoint that answers them alike gets asked alike.
pub proof fn lemma_same_arguments_same_request(
    url1: Seq<char>,
    token1: Seq<char>,
    query1: Seq<char>,
    url2: Seq<char>,
    token2: Seq<char>,
    query2: Seq<char>,
)
    requires
        url1 == url2,
        token1 == token2,
        query1 == query2,
    ensures
        rest_request_of(url1, token1) == rest_request_of(url2, token2),
        graphql_request_of(url1, token1, query1) == graphql_request_of(url2, token2, query2),
{
}

} // verus!
