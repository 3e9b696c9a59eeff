//! Sending a request with the HTTP client of the host, and taking in the head of the response.

use bytes::Bytes;
use vstd::prelude::*;

use crate::chunk_channel::max_capacity;
use crate::fetch::HttpMethod;
use crate::operations::{HttpRequest, HttpResponseMeta, RequestBody};
use crate::stream_manager::{StreamId, StreamManager};
use crate::text::{concat2, str_eq};

verus! {

/// The headers that can be read as text: each name with the last value that can.
pub open spec fn readable_headers(items: Seq<(String, Option<String>)>) -> Map<
    Seq<char>,
    Seq<char>,
>
    decreases items.len(),
{
    if items.len() == 0 {
        Map::empty()
    } else {
        let before = readable_headers(items.drop_last());
        match items.last().1 {
            Some(value) => before.insert(items.last().0@, value@),
            None => before,
        }
    }
}

/// Whether a list holds the headers of `m`, each name once.
pub open spec fn lists_headers(v: Seq<(String, String)>, m: Map<Seq<char>, Seq<char>>) -> bool {
    &&& forall|i: int, j: int| 0 <= i < j < v.len() ==> (#[trigger] v[i]).0@ != (#[trigger] v[j]).0@
    &&& forall|i: int|
        0 <= i < v.len() ==> m.contains_key((#[trigger] v[i]).0@) && m[v[i].0@] == v[i].1@
    &&& forall|k: Seq<char>| #[trigger]
        m.contains_key(k) ==> exists|i: int| 0 <= i < v.len() && (#[trigger] v[i]).0@ == k
}

/// Adds a header; the value of a name that is there already gives way.
fn put_header(headers: &mut Vec<(String, String)>, name: String, value: String, Ghost(m): Ghost<
    Map<Seq<char>, Seq<char>>,
>)
    requires
        lists_headers(old(headers)@, m),
    ensures
        lists_headers(final(headers)@, m.insert(name@, value@)),
{
    let ghost before = headers@;
    let mut i: usize = 0;
    while i < headers.len()
        invariant
            headers@ == before,
            lists_headers(before, m),
            i <= headers.len(),
            forall|j: int| 0 <= j < i ==> (#[trigger] before[j]).0@ != name@,
        decreases headers.len() - i,
    {
        if str_eq(headers[i].0.as_str(), name.as_str()) {
            headers.set(i, (name, value));
            proof {
                let after = headers@;
                let n = m.insert(name@, value@);
                assert forall|k: Seq<char>| #[trigger] n.contains_key(k) implies exists|j: int|
                    0 <= j < after.len() && (#[trigger] after[j]).0@ == k by {
                    if k == name@ {
                        assert(after[i as int].0@ == k);
                    } else {
                        assert(m.contains_key(k));
                        let j = choose|j: int|
                            0 <= j < before.len() && (#[trigger] before[j]).0@ == k;
                        assert(before[j].0@ == k && j != i);
                        assert(after[j] == before[j]);
                    }
                }
                assert forall|a: int, b: int| 0 <= a < b < after.len() implies (#[trigger] after[a]).0@
                    != (#[trigger] after[b]).0@ by {
                    assert(before[a].0@ != before[b].0@);
                }
            }
            return ;
        }
        i = i + 1;
    }
    headers.push((name, value));
    proof {
        let after = headers@;
        let n = m.insert(name@, value@);
        assert forall|k: Seq<char>| #[trigger] n.contains_key(k) implies exists|j: int|
            0 <= j < after.len() && (#[trigger] after[j]).0@ == k by {
            if k == name@ {
                assert(after[before.len() as int].0@ == k);
            } else {
                assert(m.contains_key(k));
                let j = choose|j: int| 0 <= j < before.len() && (#[trigger] before[j]).0@ == k;
                assert(after[j] == before[j]);
            }
        }
    }
}

/// Collects the headers that can be read as text. A value that cannot is left out; of several
/// values for a name the last counts.
pub fn collect_headers(items: Vec<(String, Option<String>)>) -> (r: Vec<(String, String)>)
    ensures
        lists_headers(r@, readable_headers(items@)),
{
    let mut headers: Vec<(String, String)> = Vec::new();
    let mut i: usize = 0;
    assert(items@.take(0) =~= Seq::<(String, Option<String>)>::empty());
    while i < items.len()
        invariant
            i <= items.len(),
            lists_headers(headers@, readable_headers(items@.take(i as int))),
        decreases items.len() - i,
    {
        let ghost m = readable_headers(items@.take(i as int));
        assert(items@.take(i + 1).drop_last() =~= items@.take(i as int));
        assert(items@.take(i + 1).last() == items@[i as int]);
        match &items[i].1 {
            Some(value) => {
                put_header(&mut headers, items[i].0.clone(), value.clone(), Ghost(m));
            },
            None => {},
        }
        i = i + 1;
    }
    assert(items@.take(items@.len() as int) =~= items@);
    headers
}

/// How a request is sent with the HTTP client of the host.
pub struct RequestPlan {
    pub method: HttpMethod,
    pub url: String,
    pub headers: Vec<(String, String)>,
    /// The body, where there is one.
    pub body: Option<Bytes>,
}

/// Plans the sending of a request. The client of the host has no `OPTIONS`; a body that is not
/// complete is not sent.
pub fn plan_request(request: HttpRequest) -> (r: Result<RequestPlan, String>)
    ensures
        match r {
            Ok(plan) => request.method !is Options && plan.method == request.method && plan.url@
                == request.url@ && plan.headers@ == request.headers@ && plan.body == (
            match request.body {
                RequestBody::Bytes(b) => Some(b),
                _ => None,
            }),
            Err(e) => request.method is Options && e@ == "OPTIONS method not yet supported"@,
        },
{
    match request.method {
        HttpMethod::Options => Err("OPTIONS method not yet supported".to_string()),
        method => {
            let body = match request.body {
                RequestBody::Bytes(b) => Some(b),
                _ => None,
            };
            Ok(RequestPlan { method, url: request.url, headers: request.headers, body })
        },
    }
}

/// The message of a request that could not be sent.
pub fn request_failed(error: &str) -> (r: String)
    ensures
        r@ == "Request failed: "@ + error@,
{
    concat2("Request failed: ", error)
}

/// Takes in the head of a response: what is known of it, and the stream that its body will
/// arrive on, which carries the address of the request.
pub fn begin_response(
    streams: &mut StreamManager,
    url: String,
    status: u16,
    reason: Option<&str>,
    headers: Vec<(String, Option<String>)>,
) -> (r: (HttpResponseMeta, StreamId))
    requires
        old(streams).wf(),
        0 < old(streams).high_water_mark <= max_capacity(),
        old(streams).next_id < u64::MAX,
        old(streams).next_channel < u64::MAX,
    ensures
        final(streams).wf(),
        final(streams)@ == old(streams)@.create(url@),
        r.1 == old(streams).next_id,
        r.0.status == status,
        r.0.status_text@ == (match reason {
            Some(t) => t@,
            None => ""@,
        }),
        lists_headers(r.0.headers@, readable_headers(headers@)),
{
    let status_text = match reason {
        Some(t) => t.to_string(),
        None => "".to_string(),
    };
    let headers = collect_headers(headers);
    let id: StreamId = streams.create_stream(url);
    (HttpResponseMeta { status, status_text, headers }, id)
}

/// Of several values of a header the last that can be read counts; a header that cannot be read is
/// not there, and neither is one that did not come.
pub proof fn last_readable_value_counts(items: Seq<(String, Option<String>)>, i: int)
    requires
        0 <= i < items.len(),
        items[i].1 is Some,
        forall|j: int| i < j < items.len() ==> (#[trigger] items[j]).0@ != items[i].0@ || items[j].1
            is None,
    ensures
        readable_headers(items).contains_key(items[i].0@),
        readable_headers(items)[items[i].0@] == items[i].1->0@,
    decreases items.len(),
{
    let front = items.drop_last();
    if i < items.len() - 1 {
        assert(front[i] == items[i]);
        assert forall|j: int| i < j < front.len() implies (#[trigger] front[j]).0@ != front[i].0@
            || front[j].1 is None by {
            assert(items[j].0@ != items[i].0@ || items[j].1 is None);
        }
        last_readable_value_counts(front, i);
        let last = items[items.len() - 1];
        assert(last.0@ != items[i].0@ || last.1 is None);
    }
}

/// A header is there only where a value of it came that can be read.
pub proof fn only_readable_headers_count(items: Seq<(String, Option<String>)>, name: Seq<char>)
    ensures
        readable_headers(items).contains_key(name) ==> exists|i: int|
            0 <= i < items.len() && (#[trigger] items[i]).0@ == name && items[i].1 is Some,
    decreases items.len(),
{
    if items.len() > 0 && readable_headers(items).contains_key(name) {
        let front = items.drop_last();
        let last = items[items.len() - 1];
        if last.0@ == name && last.1 is Some {
        } else {
            only_readable_headers_count(front, name);
            let i = choose|i: int|
                0 <= i < front.len() && (#[trigger] front[i]).0@ == name && front[i].1 is Some;
            assert(items[i] == front[i]);
        }
    }
}

/// A list of headers has each of them once, and no others.
pub proof fn listed_headers_are_those(
    v: Seq<(String, String)>,
    m: Map<Seq<char>, Seq<char>>,
    i: int,
    j: int,
    name: Seq<char>,
)
    requires
        lists_headers(v, m),
    ensures
        0 <= i < v.len() && 0 <= j < v.len() && i != j ==> v[i].0@ != v[j].0@,
        0 <= i < v.len() ==> m.contains_key(v[i].0@) && m[v[i].0@] == v[i].1@,
        m.contains_key(name) ==> exists|n: int|
            0 <= n < v.len() && (#[trigger] v[n]).0@ == name && v[n].1@ == m[name],
{
    if 0 <= i < v.len() && 0 <= j < v.len() {
        if i < j {
            assert(v[i].0@ != v[j].0@);
        } else if j < i {
            assert(v[j].0@ != v[i].0@);
        }
    }
    if m.contains_key(name) {
        let n = choose|n: int| 0 <= n < v.len() && (#[trigger] v[n]).0@ == name;
        assert(m[v[n].0@] == v[n].1@);
    }
}

} // verus!
