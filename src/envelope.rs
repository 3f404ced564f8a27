use vstd::prelude::*;

verus! {

/// The four operations that the bridge performs.
#[derive(Clone, Copy, Debug, PartialEq, Eq, Structural)]
pub enum Operation {
    /// OAuth2 client-credentials exchange against the identity provider.
    Token,
    /// Authenticated GET.
    Rest,
    /// Authenticated POST of a GraphQL document.
    GraphQl,
    /// Authenticated multipart POST to a workflow webhook.
    Webhook,
}

/// Seconds after which a request of `op` is abandoned; `None` waits forever.
pub open spec fn timeout_of(op: Operation) -> Option<u64> {
    match op {
        Operation::Token => Some(10),
        Operation::Rest => Some(15),
        Operation::GraphQl => Some(60),
        Operation::Webhook => None,
    }
}

/// The request timeout of each operation: 10 s for a token, 15 s for REST,
/// 60 s for GraphQL, and none for the webhook, whose remote job may run for
/// an unbounded time.
pub fn timeout_secs(op: Operation) -> (r: Option<u64>)
    ensures
        r == timeout_of(op),
{
    match op {
        Operation::Token => Some(10),
        Operation::Rest => Some(15),
        Operation::GraphQl => Some(60),
        Operation::Webhook => None,
    }
}

/// What the remote endpoint answered: its status code and its body as text.
#[derive(Debug, PartialEq, Eq)]
pub struct ResultEnvelope {
    pub status: u16,
    pub body: String,
}

/// What became of one request on the wire.
#[derive(Debug, PartialEq, Eq)]
pub enum Outcome {
    /// A multipart part could not be built; nothing was sent.
    PartRejected(String),
    /// The request could not be sent or no response came in time.
    SendFailed(String),
    /// A response came, but its body could not be read.
    ReadFailed(String),
    /// A response came and its body was read in full.
    Received { status: u16, body: String },
}

/// The plain-value form of an `Outcome`.
pub enum OutcomeModel {
    PartRejected(Seq<char>),
    SendFailed(Seq<char>),
    ReadFailed(Seq<char>),
    Received(u16, Seq<char>),
}

impl View for Outcome {
    type V = OutcomeModel;

    open spec fn view(&self) -> OutcomeModel {
        match self {
            Outcome::PartRejected(d) => OutcomeModel::PartRejected(d@),
            Outcome::SendFailed(d) => OutcomeModel::SendFailed(d@),
            Outcome::ReadFailed(d) => OutcomeModel::ReadFailed(d@),
            Outcome::Received { status, body } => OutcomeModel::Received(*status, body@),
        }
    }
}

/// The category that tags a failure to send for `op`.
pub open spec fn send_error_tag(op: Operation) -> Seq<char> {
    match op {
        Operation::Rest | Operation::GraphQl => "HTTP error: "@,
        Operation::Token | Operation::Webhook => "Network error: "@,
    }
}

/// The category that tags a failure to read a response body.
pub open spec fn read_error_tag() -> Seq<char> {
    "Read error: "@
}

/// What the caller of `op` receives for outcome `o`: the status and body of
/// any response, whatever its status code, or a tagged message.
pub open spec fn reply_of(op: Operation, o: OutcomeModel) -> Result<(u16, Seq<char>), Seq<char>> {
    match o {
        OutcomeModel::PartRejected(d) => Err(d),
        OutcomeModel::SendFailed(d) => Err(send_error_tag(op) + d),
        OutcomeModel::ReadFailed(d) => Err(read_error_tag() + d),
        OutcomeModel::Received(status, body) => Ok((status, body)),
    }
}

/// The plain-value form of what `conclude` returns.
pub open spec fn reply_view(r: Result<ResultEnvelope, String>) -> Result<(u16, Seq<char>), Seq<char>> {
    match r {
        Ok(e) => Ok((e.status, e.body@)),
        Err(m) => Err(m@),
    }
}

fn tagged(tag: &str, detail: String) -> (r: String)
    ensures
        r@ == tag@ + detail@,
{
    let mut m = tag.to_owned();
    m.append(detail.as_str());
    m
}

/// Maps the outcome of a request of `op` to what the caller receives. Any
/// response, a 4xx or 5xx one too, becomes an envelope with its status and
/// body untouched; only a failure on the wire becomes an error.
pub fn conclude(op: Operation, outcome: Outcome) -> (r: Result<ResultEnvelope, String>)
    ensures
        reply_view(r) == reply_of(op, outcome@),
{
    match outcome {
        Outcome::PartRejected(d) => Err(d),
        Outcome::SendFailed(d) => {
            let tag = match op {
                Operation::Rest | Operation::GraphQl => "HTTP error: ",
                Operation::Token | Operation::Webhook => "Network error: ",
            };
            Err(tagged(tag, d))
        },
        Outcome::ReadFailed(d) => Err(tagged("Read error: ", d)),
        Outcome::Received { status, body } => Ok(ResultEnvelope { status, body }),
    }
}

/// Every response reaches the caller as it came: whatever its status code,
/// 4xx and 5xx included, the reply is an envelope holding exactly that status
/// and that body, and never an error.
pub proof fn lemma_response_passes_through(op: Operation, status: u16, body: Seq<char>)
    ensures
        reply_of(op, OutcomeModel::Received(status, body)) == Ok::<(u16, Seq<char>), Seq<char>>(
            (status, body),
        ),
{
}

/// Nothing is kept between calls: two calls of one operation whose responses
/// carry the same status and body get the same reply.
pub proof fn lemma_same_response_same_reply(
    op: Operation,
    status1: u16,
    body1: Seq<char>,
    status2: u16,
    body2: Seq<char>,
)
    requires
        status1 == status2,
        body1 == body2,
    ensures
        reply_of(op, OutcomeModel::Received(status1, body1)) == reply_of(
            op,
            OutcomeModel::Received(status2, body2),
        ),
{
}

} // verus!
