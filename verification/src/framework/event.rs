//! One inbound HTTP request and the slot for its response.

use vstd::prelude::*;

verus! {

/// The status of the response to a request that no route matches.
pub const STATUS_NOT_FOUND: u16 = 404;

/// The status of the response to a request whose handler failed.
pub const STATUS_INTERNAL_SERVER_ERROR: u16 = 500;

/// Header fields as mathematical values: in order, duplicate names kept.
pub open spec fn header_seq(headers: Seq<(String, String)>) -> Seq<(Seq<char>, Seq<char>)> {
    headers.map_values(|h: (String, String)| (h.0@, h.1@))
}

/// An HTTP response as it goes on the wire.
#[derive(Clone, Debug)]
pub struct HttpResponse {
    pub status: u16,
    pub headers: Vec<(String, String)>,
    pub body: Vec<u8>,
}

/// The mathematical value of an [`HttpResponse`].
pub struct ResponseView {
    pub status: u16,
    pub headers: Seq<(Seq<char>, Seq<char>)>,
    pub body: Seq<u8>,
}

impl View for HttpResponse {
    type V = ResponseView;

    open spec fn view(&self) -> ResponseView {
        ResponseView {
            status: self.status,
            headers: header_seq(self.headers@),
            body: self.body@,
        }
    }
}

impl ResponseView {
    /// A response that carries a status and nothing else.
    pub open spec fn bare(status: u16) -> ResponseView {
        ResponseView { status, headers: Seq::empty(), body: Seq::empty() }
    }
}

impl HttpResponse {
    /// A response that carries a status and nothing else.
    pub fn bare(status: u16) -> (r: HttpResponse)
        ensures
            r@ == ResponseView::bare(status),
    {
        let r = HttpResponse { status, headers: Vec::new(), body: Vec::new() };
        assert(r@.headers =~= Seq::empty());
        r
    }
}

/// One inbound request (method, path, headers, body) together with the
/// slot for its response. The request part never changes after
/// construction.
#[derive(Clone, Debug)]
pub struct HttpEventData {
    method: String,
    path: String,
    headers: Vec<(String, String)>,
    body: Vec<u8>,
    response: Option<HttpResponse>,
}

/// The mathematical value of an [`HttpEventData`].
pub struct EventView {
    pub method: Seq<char>,
    pub path: Seq<char>,
    pub headers: Seq<(Seq<char>, Seq<char>)>,
    pub body: Seq<u8>,
    pub response: Option<ResponseView>,
}

impl EventView {
    /// The same request with the given response in its slot.
    pub open spec fn with_response(self, response: ResponseView) -> EventView {
        EventView { response: Some(response), ..self }
    }

    /// The event once the component's handler has finished: the response
    /// it returned, or a 500 if it failed.
    pub open spec fn complete(self, returned: Option<ResponseView>) -> EventView {
        match returned {
            Some(response) => self.with_response(response),
            None => self.with_response(ResponseView::bare(STATUS_INTERNAL_SERVER_ERROR)),
        }
    }
}

impl View for HttpEventData {
    type V = EventView;

    closed spec fn view(&self) -> EventView {
        EventView {
            method: self.method@,
            path: self.path@,
            headers: header_seq(self.headers@),
            body: self.body@,
            response: match self.response {
                Some(r) => Some(r@),
                None => None,
            },
        }
    }
}

impl HttpEventData {
    /// The event for a request that has just arrived: the request as
    /// given, the response slot empty.
    pub fn from_request(
        method: String,
        path: String,
        headers: Vec<(String, String)>,
        body: Vec<u8>,
    ) -> (event: HttpEventData)
        ensures
            event@ == (EventView {
                method: method@,
                path: path@,
                headers: header_seq(headers@),
                body: body@,
                response: None,
            }),
    {
        HttpEventData { method, path, headers, body, response: None }
    }

    pub fn method(&self) -> (r: &String)
        ensures
            r@ == self@.method,
    {
        &self.method
    }

    pub fn path(&self) -> (r: &String)
        ensures
            r@ == self@.path,
    {
        &self.path
    }

    pub fn headers(&self) -> (r: &Vec<(String, String)>)
        ensures
            header_seq(r@) == self@.headers,
    {
        &self.headers
    }

    pub fn body(&self) -> (r: &Vec<u8>)
        ensures
            r@ == self@.body,
    {
        &self.body
    }

    /// The response, once there is one.
    pub fn response(&self) -> (r: Option<&HttpResponse>)
        ensures
            match r {
                Some(response) => self@.response == Some(response@),
                None => self@.response is None,
            },
    {
        match &self.response {
            Some(r) => Some(r),
            None => None,
        }
    }

    /// Puts a response into the slot, in place of any that was there. The
    /// request is kept as it is.
    pub fn with_response(self, response: HttpResponse) -> (event: HttpEventData)
        ensures
            event@ == self@.with_response(response@),
    {
        HttpEventData {
            method: self.method,
            path: self.path,
            headers: self.headers,
            body: self.body,
            response: Some(response),
        }
    }

    /// Answers the request with a 404.
    pub fn not_found(self) -> (event: HttpEventData)
        ensures
            event@ == self@.with_response(ResponseView::bare(STATUS_NOT_FOUND)),
    {
        self.with_response(HttpResponse::bare(STATUS_NOT_FOUND))
    }

    /// Answers the request with a 500.
    pub fn handler_failed(self) -> (event: HttpEventData)
        ensures
            event@ == self@.with_response(ResponseView::bare(STATUS_INTERNAL_SERVER_ERROR)),
    {
        self.with_response(HttpResponse::bare(STATUS_INTERNAL_SERVER_ERROR))
    }

    /// Turns what the component's handler returned into the response of
    /// the event: the handler's own, or a 500 where the handler failed
    /// (`None`).
    pub fn complete(self, returned: Option<HttpResponse>) -> (event: HttpEventData)
        ensures
            event@ == self@.complete(
                match returned {
                    Some(r) => Some(r@),
                    None => None,
                },
            ),
    {
        match returned {
            Some(response) => self.with_response(response),
            None => self.handler_failed(),
        }
    }
}

/// The request survives its answer. Whatever the handler returns, the
/// completed event holds method, path, headers and body as they arrived;
/// and its response is the handler's own, field for field, or a bare 500
/// where the handler failed.
pub proof fn lemma_completion_is_lossless(event: EventView, returned: Option<ResponseView>)
    ensures
        event.complete(returned).method == event.method,
        event.complete(returned).path == event.path,
        event.complete(returned).headers == event.headers,
        event.complete(returned).body == event.body,
        event.complete(returned).response == Some(
            match returned {
                Some(response) => response,
                None => ResponseView::bare(STATUS_INTERNAL_SERVER_ERROR),
            },
        ),
{
}

} // verus!
