//! Tasks for a worker: requests to answer and scheduled runs.

use bytes::Bytes;
use tokio::sync::mpsc::Receiver;
use tokio::sync::oneshot;
use vstd::prelude::*;

use crate::chunk_channel::{bytes_len, bytes_seq};
use crate::http_client::{collect_headers, lists_headers, readable_headers};
use crate::text::{decimal, decimal_text};

verus! {

/// The receiving end of a bounded channel of the `tokio` crate. It is only handed on.
#[verifier::external_type_specification]
#[verifier::external_body]
#[verifier::reject_recursive_types(T)]
pub struct ExReceiver<T>(Receiver<T>);

/// Chunks that a streamed response buffers.
pub const RESPONSE_STREAM_BUFFER_SIZE: usize = 16;

/// The body of a response.
pub enum ResponseBody {
    /// There is none.
    Empty,
    /// It is complete.
    Bytes(Bytes),
    /// It arrives in chunks.
    Stream(Receiver<Result<Bytes, String>>),
}

impl ResponseBody {
    /// The bytes of a complete body.
    pub fn as_bytes(&self) -> (r: Option<&Bytes>)
        ensures
            match *self {
                ResponseBody::Bytes(b) => r == Some(&b),
                _ => r is None,
            },
    {
        match self {
            ResponseBody::Bytes(b) => Some(b),
            _ => None,
        }
    }

    /// Whether there is no body.
    pub fn is_none(&self) -> (r: bool)
        ensures
            r == (*self is Empty),
    {
        matches!(self, ResponseBody::Empty)
    }

    /// Whether the body arrives in chunks.
    pub fn is_stream(&self) -> (r: bool)
        ensures
            r == (*self is Stream),
    {
        matches!(self, ResponseBody::Stream(_))
    }
}

impl ResponseBody {
    /// What a body is called where it is shown to a developer.
    pub open spec fn shown(self) -> Seq<char> {
        match self {
            ResponseBody::Empty => "None"@,
            ResponseBody::Bytes(b) => "Bytes("@ + decimal(bytes_seq(b).len()) + " bytes)"@,
            ResponseBody::Stream(_) => "Stream(...)"@,
        }
    }

    /// What a body is called where it is shown to a developer.
    pub fn debug_text(&self) -> (r: String)
        ensures
            r@ == self.shown(),
    {
        match self {
            ResponseBody::Empty => "None".to_string(),
            ResponseBody::Bytes(b) => {
                let mut s = "Bytes(".to_string();
                let n = decimal_text(bytes_len(b) as u64);
                s.append(n.as_str());
                s.append(" bytes)");
                s
            },
            ResponseBody::Stream(_) => "Stream(...)".to_string(),
        }
    }

    /// Whether a server sends a body at all.
    pub open spec fn has_content(self) -> bool {
        match self {
            ResponseBody::Empty => false,
            ResponseBody::Bytes(b) => bytes_seq(b).len() > 0,
            ResponseBody::Stream(_) => true,
        }
    }

    /// Whether a server sends a body at all: an empty one is none.
    pub fn is_sent(&self) -> (r: bool)
        ensures
            r == self.has_content(),
            r == (match *self {
                ResponseBody::Empty => false,
                ResponseBody::Bytes(b) => bytes_seq(b).len() > 0,
                ResponseBody::Stream(_) => true,
            }),
    {
        match self {
            ResponseBody::Empty => false,
            ResponseBody::Bytes(b) => bytes_len(b) > 0,
            ResponseBody::Stream(_) => true,
        }
    }
}

/// A response.
pub struct HttpResponse {
    pub status: u16,
    pub headers: Vec<(String, String)>,
    pub body: ResponseBody,
}

/// The status that a server sends for a response.
pub open spec fn http_status(status: u16) -> u16 {
    if 100 <= status < 1000 {
        status
    } else {
        500
    }
}

/// The status that a server sends for a response: one that is no HTTP status becomes an internal
/// error.
pub fn sent_status(status: u16) -> (r: u16)
    ensures
        r == http_status(status),
        r == (if 100 <= status < 1000 {
            status
        } else {
            500
        }),
{
    if status < 100 || status >= 1000 {
        500
    } else {
        status
    }
}

/// A request to answer.
pub struct HttpRequest {
    pub method: String,
    pub url: String,
    /// The headers, each name once.
    pub headers: Vec<(String, String)>,
    pub body: Option<Bytes>,
}

impl HttpRequest {
    /// The request that a server has received. An empty body is none; a header that cannot be
    /// read as text is left out.
    pub fn from_actix(
        method: String,
        scheme: &str,
        host: &str,
        uri: &str,
        headers: Vec<(String, Option<String>)>,
        body: Bytes,
    ) -> (r: Self)
        ensures
            r.method@ == method@,
            r.url@ == scheme@ + "://"@ + host@ + uri@,
            lists_headers(r.headers@, readable_headers(headers@)),
            r.body == (if bytes_seq(body).len() == 0 {
                None
            } else {
                Some(body)
            }),
    {
        let mut url = scheme.to_string();
        url.append("://");
        url.append(host);
        url.append(uri);
        let headers = collect_headers(headers);
        let body = if bytes_len(&body) == 0 {
            None
        } else {
            Some(body)
        };
        HttpRequest { method, url, headers, body }
    }
}

/// The sending end of a `tokio::sync::oneshot` channel. It is only handed on.
#[verifier::external_type_specification]
#[verifier::external_body]
#[verifier::reject_recursive_types(T)]
pub struct ExOneshotSender<T>(oneshot::Sender<T>);

/// The receiving end of a `tokio::sync::oneshot` channel. It is only handed on.
#[verifier::external_type_specification]
#[verifier::external_body]
#[verifier::reject_recursive_types(T)]
pub struct ExOneshotReceiver<T>(oneshot::Receiver<T>);

/// What a `tokio::sync::oneshot` receiver gets when its sender is gone.
#[verifier::external_type_specification]
#[verifier::external_body]
pub struct ExRecvError(oneshot::error::RecvError);

/// Whether the receiver gets the response that is sent with the sender.
pub uninterp spec fn response_ends(
    tx: oneshot::Sender<HttpResponse>,
    rx: oneshot::Receiver<HttpResponse>,
) -> bool;

/// Whether the receiver learns of what is sent with the sender.
pub uninterp spec fn completion_ends(tx: oneshot::Sender<()>, rx: oneshot::Receiver<()>) -> bool;

/// Calls `tokio::sync::oneshot::channel` for a response: the two ends belong together.
#[verifier::external_body]
fn response_channel() -> (r: (oneshot::Sender<HttpResponse>, oneshot::Receiver<HttpResponse>))
    ensures
        response_ends(r.0, r.1),
{
    oneshot::channel()
}

/// Calls `tokio::sync::oneshot::channel` for the news that something is done: the two ends belong
/// together.
#[verifier::external_body]
fn completion_channel() -> (r: (oneshot::Sender<()>, oneshot::Receiver<()>))
    ensures
        completion_ends(r.0, r.1),
{
    oneshot::channel()
}

/// A request, and where its response goes.
pub struct FetchInit {
    pub req: HttpRequest,
    pub res_tx: oneshot::Sender<HttpResponse>,
}

impl FetchInit {
    pub fn new(req: HttpRequest, res_tx: oneshot::Sender<HttpResponse>) -> (r: Self)
        ensures
            r.req == req,
            r.res_tx == res_tx,
    {
        FetchInit { req, res_tx }
    }
}

/// A scheduled run, and where the news of its end goes.
pub struct ScheduledInit {
    pub time: u64,
    pub res_tx: oneshot::Sender<()>,
}

impl ScheduledInit {
    pub fn new(res_tx: oneshot::Sender<()>, time: u64) -> (r: Self)
        ensures
            r.time == time,
            r.res_tx == res_tx,
    {
        ScheduledInit { time, res_tx }
    }
}

/// The kind of a task.
#[derive(Debug, Clone, Copy, PartialEq, Eq, Structural)]
pub enum TaskType {
    Fetch,
    Scheduled,
}

/// A task for a worker. Its data is taken out when it runs.
pub enum Task {
    Fetch(Option<FetchInit>),
    Scheduled(Option<ScheduledInit>),
}

impl Task {
    /// The kind of the task.
    pub fn task_type(&self) -> (r: TaskType)
        ensures
            r == (match *self {
                Task::Fetch(_) => TaskType::Fetch,
                Task::Scheduled(_) => TaskType::Scheduled,
            }),
    {
        match self {
            Task::Fetch(_) => TaskType::Fetch,
            Task::Scheduled(_) => TaskType::Scheduled,
        }
    }

    /// A task that answers a request, and the end at which the response arrives.
    pub fn fetch(req: HttpRequest) -> (r: (Self, oneshot::Receiver<HttpResponse>))
        ensures
            r.0 matches Task::Fetch(Some(init)) && init.req == req && response_ends(
                init.res_tx,
                r.1,
            ),
    {
        let (tx, rx) = response_channel();
        (Task::Fetch(Some(FetchInit::new(req, tx))), rx)
    }

    /// A task that runs at a time, and the end at which the news of its end arrives.
    pub fn scheduled(time: u64) -> (r: (Self, oneshot::Receiver<()>))
        ensures
            r.0 matches Task::Scheduled(Some(init)) && init.time == time && completion_ends(
                init.res_tx,
                r.1,
            ),
    {
        let (tx, rx) = completion_channel();
        (Task::Scheduled(Some(ScheduledInit::new(tx, time))), rx)
    }
}

/// A body is shown to a developer by its kind, and a complete one with the number of its bytes.
pub proof fn bodies_are_shown_by_their_kind(b: Bytes, rx: Receiver<Result<Bytes, String>>)
    ensures
        ResponseBody::Empty.shown() == "None"@,
        ResponseBody::Bytes(b).shown() == "Bytes("@ + decimal(bytes_seq(b).len()) + " bytes)"@,
        ResponseBody::Stream(rx).shown() == "Stream(...)"@,
{
}

/// A server sends the bytes of a body that has any, and a body that arrives in chunks whatever it
/// will hold; an empty body is as good as none.
pub proof fn empty_bodies_are_not_sent(b: Bytes, rx: Receiver<Result<Bytes, String>>)
    ensures
        !ResponseBody::Empty.has_content(),
        ResponseBody::Bytes(b).has_content() <==> bytes_seq(b) != Seq::<u8>::empty(),
        ResponseBody::Stream(rx).has_content(),
{
    if bytes_seq(b).len() == 0 {
        assert(bytes_seq(b) =~= Seq::<u8>::empty());
    }
}

/// What a server sends is always a status of three digits: the one of the response where that has
/// three, and that of an internal error where it has not.
pub proof fn sent_statuses_have_three_digits(status: u16)
    ensures
        100 <= http_status(status) <= 999,
        100 <= status <= 999 ==> http_status(status) == status,
        status < 100 || status > 999 ==> http_status(status) == 500,
{
}

} // verus!
