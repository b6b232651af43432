//! The bridge from a host that answers requests to script that fetches.
//!
//! The host's answer is read in chunks, on the worker thread, until the host
//! signals the end. The chunks are kept in the order in which they came. Only
//! when the body is complete does script see the response, and every way of
//! reading the body replays the same bytes.

use vstd::prelude::*;
use crate::eserror::EsError;
use crate::nametable::{distinct, lemma_position, lemma_position_push, names_view, position, position_of};

verus! {

/// A request as a mathematical value.
pub struct FetchRequestView {
    pub method: Seq<char>,
    pub url: Seq<char>,
    /// The names of the headers that were set, in the order of their first
    /// setting.
    pub header_names: Seq<Seq<char>>,
    /// The value of each header, by the place of its name.
    pub header_values: Seq<Seq<char>>,
    pub body: Option<Seq<u8>>,
}

impl FetchRequestView {
    /// Each header has one value and no header name occurs twice.
    pub open spec fn wf(self) -> bool {
        self.header_names.len() == self.header_values.len() && distinct(self.header_names)
    }

    /// The value of the header `name`, if it was set.
    pub open spec fn header(self, name: Seq<char>) -> Option<Seq<char>> {
        match position(self.header_names, name) {
            Some(i) => Some(self.header_values[i]),
            None => None,
        }
    }

    /// The request after the header `name` was set to `value`.
    pub open spec fn with_header(self, name: Seq<char>, value: Seq<char>) -> Self {
        match position(self.header_names, name) {
            Some(i) => FetchRequestView {
                header_values: self.header_values.update(i, value),
                ..self
            },
            None => FetchRequestView {
                header_names: self.header_names.push(name),
                header_values: self.header_values.push(value),
                ..self
            },
        }
    }
}

/// What script asked to fetch.
#[derive(Debug)]
pub struct FetchRequest {
    method: String,
    url: String,
    header_names: Vec<String>,
    header_values: Vec<String>,
    body: Option<Vec<u8>>,
}

impl View for FetchRequest {
    type V = FetchRequestView;

    closed spec fn view(&self) -> FetchRequestView {
        FetchRequestView {
            method: self.method@,
            url: self.url@,
            header_names: names_view(self.header_names@),
            header_values: names_view(self.header_values@),
            body: match self.body {
                Some(b) => Some(b@),
                None => None,
            },
        }
    }
}

impl FetchRequest {
    /// A request without headers and without a body.
    pub fn new(method: &str, url: &str) -> (r: Self)
        ensures
            r@.wf(),
            r@ == (FetchRequestView {
                method: method@,
                url: url@,
                header_names: Seq::empty(),
                header_values: Seq::empty(),
                body: None,
            }),
    {
        let r = FetchRequest {
            method: method.to_owned(),
            url: url.to_owned(),
            header_names: Vec::new(),
            header_values: Vec::new(),
            body: None,
        };
        assert(r@.header_names =~= Seq::empty());
        assert(r@.header_values =~= Seq::empty());
        r
    }

    /// Sets the header `name` to `value`; a value set before is replaced.
    pub fn header(self, name: &str, value: &str) -> (r: Self)
        requires
            self@.wf(),
        ensures
            r@.wf(),
            r@ == self@.with_header(name@, value@),
    {
        let mut r = self;
        let ghost before = r@;
        match position_of(&r.header_names, name) {
            Some(i) => {
                proof {
                    lemma_position(before.header_names, name@);
                }
                r.header_values.set(i, value.to_owned());
                proof {
                    assert(r@.header_values =~= before.header_values.update(i as int, value@));
                }
            },
            None => {
                r.header_names.push(name.to_owned());
                r.header_values.push(value.to_owned());
                proof {
                    lemma_position_push(before.header_names, name@, name@);
                    assert(r@.header_names =~= before.header_names.push(name@));
                    assert(r@.header_values =~= before.header_values.push(value@));
                }
            },
        }
        r
    }

    /// Sets the body.
    pub fn body(self, bytes: Vec<u8>) -> (r: Self)
        ensures
            r@ == (FetchRequestView { body: Some(bytes@), ..self@ }),
    {
        let mut r = self;
        r.body = Some(bytes);
        r
    }

    pub fn get_method(&self) -> (m: &str)
        ensures
            m@ == self@.method,
    {
        self.method.as_str()
    }

    pub fn get_url(&self) -> (u: &str)
        ensures
            u@ == self@.url,
    {
        self.url.as_str()
    }

    /// The value of the header `name`, if it was set.
    pub fn get_header(&self, name: &str) -> (r: Option<&str>)
        requires
            self@.wf(),
        ensures
            match r {
                Some(v) => self@.header(name@) == Some(v@),
                None => self@.header(name@) is None,
            },
    {
        proof {
            lemma_position(self@.header_names, name@);
        }
        match position_of(&self.header_names, name) {
            Some(i) => Some(self.header_values[i].as_str()),
            None => None,
        }
    }

    /// The body, if one was set.
    pub fn get_body(&self) -> (b: &Option<Vec<u8>>)
        ensures
            match *b {
                Some(bytes) => self@.body == Some(bytes@),
                None => self@.body is None,
            },
    {
        &self.body
    }
}

/// The host's answer to one request. `read` blocks until the next chunk of
/// the body is there and gives `None` at the end of the body.
///
/// What an answer may give is up to the answer: each kind of answer can say
/// it with the three `gives_` relations. An answer that says nothing may
/// give anything.
pub trait FetchResponse: Send {
    /// Whether `status` is a status that this answer may report.
    open spec fn gives_status(&self, status: u16) -> bool {
        true
    }

    /// Whether `value` is what this answer may report for the header `name`.
    open spec fn gives_header(&self, name: &str, value: Option<&str>) -> bool {
        true
    }

    /// Whether `chunk` is what a read of this answer may give next.
    open spec fn gives_chunk(&self, chunk: Option<Vec<u8>>) -> bool {
        true
    }

    fn get_http_status(&self) -> (status: u16)
        ensures
            self.gives_status(status),
    ;

    fn get_header(&self, name: &str) -> (value: Option<&str>)
        ensures
            self.gives_header(name, value),
    ;

    fn read(&mut self) -> (chunk: Option<Vec<u8>>)
        ensures
            old(self).gives_chunk(chunk),
    ;
}

/// An answer as it lies in a box: it reports and reads what the answer
/// itself does.
pub struct HeldResponse<R: FetchResponse>(R);

impl<R: FetchResponse> HeldResponse<R> {
    /// The answer itself.
    pub closed spec fn answer(&self) -> R {
        self.0
    }

    /// Holds an answer.
    pub fn new(response: R) -> (held: Self)
        ensures
            held.answer() == response,
    {
        HeldResponse(response)
    }
}

impl<R: FetchResponse> FetchResponse for HeldResponse<R> {
    open spec fn gives_status(&self, status: u16) -> bool {
        self.answer().gives_status(status)
    }

    open spec fn gives_header(&self, name: &str, value: Option<&str>) -> bool {
        self.answer().gives_header(name, value)
    }

    open spec fn gives_chunk(&self, chunk: Option<Vec<u8>>) -> bool {
        self.answer().gives_chunk(chunk)
    }

    fn get_http_status(&self) -> (status: u16) {
        self.0.get_http_status()
    }

    fn get_header(&self, name: &str) -> (value: Option<&str>) {
        self.0.get_header(name)
    }

    fn read(&mut self) -> (chunk: Option<Vec<u8>>) {
        self.0.read()
    }
}

/// An answer of any kind, boxed so that a provider can give different kinds.
pub struct BoxedResponse {
    inner: Box<dyn FetchResponse>,
}

impl BoxedResponse {
    /// Boxes an answer. The box reports and reads what the answer inside
    /// does.
    pub fn new<R: FetchResponse + 'static>(response: R) -> (boxed: Self)
        ensures
            forall|status: u16| #[trigger]
                boxed.gives_status(status) == response.gives_status(status),
            forall|name: &str, value: Option<&str>| #[trigger]
                boxed.gives_header(name, value) == response.gives_header(name, value),
            forall|chunk: Option<Vec<u8>>| #[trigger]
                boxed.gives_chunk(chunk) == response.gives_chunk(chunk),
    {
        BoxedResponse { inner: Box::new(HeldResponse::new(response)) }
    }
}

impl FetchResponse for BoxedResponse {
    closed spec fn gives_status(&self, status: u16) -> bool {
        self.inner.gives_status(status)
    }

    closed spec fn gives_header(&self, name: &str, value: Option<&str>) -> bool {
        self.inner.gives_header(name, value)
    }

    closed spec fn gives_chunk(&self, chunk: Option<Vec<u8>>) -> bool {
        self.inner.gives_chunk(chunk)
    }

    /// The status that the answer inside reports.
    fn get_http_status(&self) -> (status: u16) {
        self.inner.get_http_status()
    }

    /// What the answer inside reports for the header `name`.
    fn get_header(&self, name: &str) -> (value: Option<&str>) {
        self.inner.get_header(name)
    }

    /// What a read of the answer inside gives next.
    fn read(&mut self) -> (chunk: Option<Vec<u8>>) {
        self.inner.read()
    }
}

/// What a provider may answer to which request.
pub type ProviderSpec = spec_fn(FetchRequest, BoxedResponse) -> bool;

/// Answers the requests of script.
pub trait FetchResponseProvider: Send + Sync {
    /// Whether `response` is a possible answer to `request`.
    spec fn gives(&self, request: &FetchRequest, response: BoxedResponse) -> bool;

    fn respond(&self, request: &FetchRequest) -> (response: BoxedResponse)
        ensures
            self.gives(request, response),
    ;
}

/// A closure as a response provider.
pub struct FnResponseProvider<P>(P) where
    P: Fn(&FetchRequest) -> BoxedResponse + Send + Sync,
;

/// The closure can be called with every request.
pub open spec fn answers_any<P>(provider: P) -> bool where
    P: Fn(&FetchRequest) -> BoxedResponse + Send + Sync,
 {
    forall|request: &FetchRequest| call_requires(provider, (request,))
}

/// What the closure may answer to which request.
pub open spec fn provider_spec<P>(provider: P) -> ProviderSpec where
    P: Fn(&FetchRequest) -> BoxedResponse + Send + Sync,
 {
    |request: FetchRequest, response: BoxedResponse| call_ensures(provider, (&request,), response)
}

impl<P> FnResponseProvider<P> where P: Fn(&FetchRequest) -> BoxedResponse + Send + Sync {
    #[verifier::type_invariant]
    spec fn inv(self) -> bool {
        answers_any(self.0)
    }

    /// The closure inside.
    pub closed spec fn closure(&self) -> P {
        self.0
    }

    /// Wraps a closure that accepts every request.
    pub fn new(provider: P) -> (p: Self)
        requires
            answers_any(provider),
        ensures
            p.closure() == provider,
    {
        FnResponseProvider(provider)
    }
}

impl<P> FetchResponseProvider for FnResponseProvider<P> where
    P: Fn(&FetchRequest) -> BoxedResponse + Send + Sync,
 {
    open spec fn gives(&self, request: &FetchRequest, response: BoxedResponse) -> bool {
        call_ensures(self.closure(), (request,), response)
    }

    fn respond(&self, request: &FetchRequest) -> (response: BoxedResponse) {
        proof {
            use_type_invariant(self);
        }
        (self.0)(request)
    }
}

/// A response provider of any kind.
pub struct BoxedProvider {
    inner: Box<dyn FetchResponseProvider>,
}

impl BoxedProvider {
    /// What the provider may answer to which request.
    pub closed spec fn spec(&self) -> ProviderSpec {
        |request: FetchRequest, response: BoxedResponse| self.inner.gives(&request, response)
    }

    /// Boxes a closure that accepts every request.
    pub fn new<P>(provider: P) -> (p: Self) where
        P: Fn(&FetchRequest) -> BoxedResponse + Send + Sync + 'static,

        requires
            answers_any(provider),
        ensures
            p.spec() == provider_spec(provider),
    {
        let p = BoxedProvider { inner: Box::new(FnResponseProvider::new(provider)) };
        assert(p.spec() =~= provider_spec(provider));
        p
    }

    /// Asks the provider.
    pub fn respond(&self, request: &FetchRequest) -> (response: BoxedResponse)
        ensures
            (self.spec())(*request, response),
    {
        self.inner.respond(request)
    }
}

/// What the provider, if there is one, may answer to which request.
pub open spec fn opt_provider_spec(provider: Option<BoxedProvider>) -> Option<ProviderSpec> {
    match provider {
        Some(p) => Some(p.spec()),
        None => None,
    }
}

/// The state of one fetch as a mathematical value.
pub struct FetchExchangeView {
    pub status: u16,
    /// The bytes of the body that have come so far.
    pub body: Seq<u8>,
    /// Whether the end of the body was reached.
    pub complete: bool,
}

impl FetchExchangeView {
    /// A fetch of which nothing has been read.
    pub open spec fn begun(status: u16) -> Self {
        FetchExchangeView { status, body: Seq::empty(), complete: false }
    }

    /// The fetch after one read gave `chunk`: bytes go to the end of the
    /// body, `None` completes it, and nothing changes a complete body.
    pub open spec fn after_read(self, chunk: Option<Seq<u8>>) -> Self {
        if self.complete {
            self
        } else {
            match chunk {
                Some(bytes) => FetchExchangeView { body: self.body + bytes, ..self },
                None => FetchExchangeView { complete: true, ..self },
            }
        }
    }

    /// The fetch after a run of reads.
    pub open spec fn after_reads(self, chunks: Seq<Option<Seq<u8>>>) -> Self
        decreases chunks.len(),
    {
        if chunks.len() == 0 {
            self
        } else {
            self.after_reads(chunks.drop_last()).after_read(chunks.last())
        }
    }
}

/// The result of one read as a mathematical value.
pub open spec fn chunk_view(chunk: Option<Vec<u8>>) -> Option<Seq<u8>> {
    match chunk {
        Some(bytes) => Some(bytes@),
        None => None,
    }
}

/// All the bytes of a run of chunks, in order.
pub open spec fn concatenated(chunks: Seq<Seq<u8>>) -> Seq<u8>
    decreases chunks.len(),
{
    if chunks.len() == 0 {
        Seq::empty()
    } else {
        concatenated(chunks.drop_last()) + chunks.last()
    }
}

/// A run of chunks, each as the result of a read that gave bytes.
pub open spec fn as_reads(chunks: Seq<Seq<u8>>) -> Seq<Option<Seq<u8>>> {
    Seq::new(chunks.len(), |i: int| Some(chunks[i]))
}

/// The state of one fetch: the status and the body as far as it was read.
#[derive(Debug)]
pub struct FetchExchange {
    status: u16,
    body: Vec<u8>,
    complete: bool,
}

impl View for FetchExchange {
    type V = FetchExchangeView;

    closed spec fn view(&self) -> FetchExchangeView {
        FetchExchangeView { status: self.status, body: self.body@, complete: self.complete }
    }
}

/// The text that the bytes encode, if they are well-formed UTF-8.
///
/// Calls `String::from_utf8`, which accepts exactly the byte sequences that
/// are valid UTF-8 and keeps the bytes as they are; the contract states this
/// with the library's definition of UTF-8.
#[verifier::external_body]
fn utf8_text(bytes: Vec<u8>) -> (r: Option<String>)
    ensures
        match r {
            Some(s) => vstd::utf8::valid_utf8(bytes@) && s@ == vstd::utf8::decode_utf8(bytes@),
            None => !vstd::utf8::valid_utf8(bytes@),
        },
{
    match String::from_utf8(bytes) {
        Ok(s) => Some(s),
        Err(_) => None,
    }
}

impl FetchExchange {
    /// Begins a fetch whose answer has the given status.
    pub fn begin(status: u16) -> (x: Self)
        ensures
            x@ == FetchExchangeView::begun(status),
    {
        FetchExchange { status, body: Vec::new(), complete: false }
    }

    /// Takes the result of one read. The result says whether to read again.
    pub fn on_read(&mut self, chunk: Option<Vec<u8>>) -> (again: bool)
        ensures
            final(self)@ == old(self)@.after_read(chunk_view(chunk)),
            again == !final(self)@.complete,
    {
        if self.complete {
            return false;
        }
        match chunk {
            Some(bytes) => {
                let mut bytes = bytes;
                self.body.append(&mut bytes);
                true
            },
            None => {
                self.complete = true;
                false
            },
        }
    }

    /// Reads from `response` until the body is complete, but at most
    /// `max_reads` times, and takes each result as [`FetchExchange::on_read`]
    /// does. The result says whether the body is complete. Nothing is read
    /// for a body that is complete already, and what was read before stays
    /// at the front. Where anything is read, the first chunk taken is one
    /// that a read of `response` may give.
    pub fn read_body(&mut self, response: &mut BoxedResponse, max_reads: usize) -> (complete: bool)
        ensures
            complete == final(self)@.complete,
            final(self)@.status == old(self)@.status,
            old(self)@.body.is_prefix_of(final(self)@.body),
            old(self)@.complete ==> final(self)@ == old(self)@,
            exists|chunks: Seq<Option<Seq<u8>>>|
                chunks.len() <= max_reads && (!complete ==> chunks.len() == max_reads)
                    && #[trigger] old(self)@.after_reads(chunks) == final(self)@ && ((max_reads > 0
                    && !old(self)@.complete) ==> chunks.len() >= 1 && exists|first: Option<Vec<u8>>|
                    old(response).gives_chunk(first) && #[trigger] chunk_view(first) == chunks[0]),
    {
        let mut reads: usize = 0;
        let ghost mut chunks: Seq<Option<Seq<u8>>> = Seq::empty();
        let ghost mut first: Option<Vec<u8>> = None;
        while reads < max_reads && !self.complete
            invariant
                reads <= max_reads,
                chunks.len() == reads,
                self@ == old(self)@.after_reads(chunks),
                reads == 0 ==> *response == *old(response) && self@ == old(self)@,
                reads > 0 ==> old(response).gives_chunk(first) && chunk_view(first) == chunks[0],
                self@.status == old(self)@.status,
                old(self)@.body.is_prefix_of(self@.body),
                old(self)@.complete ==> self@ == old(self)@,
            decreases max_reads - reads,
        {
            let chunk = response.read();
            let ghost read = chunk_view(chunk);
            let ghost before = self@;
            self.on_read(chunk);
            proof {
                assert(chunks.push(read).drop_last() =~= chunks);
                assert(old(self)@.after_reads(chunks.push(read)) == before.after_read(read));
                if reads == 0 {
                    first = chunk;
                }
                chunks = chunks.push(read);
            }
            reads = reads + 1;
        }
        assert(old(self)@.after_reads(chunks) == self@);
        self.complete
    }

    /// Whether the end of the body was reached.
    pub fn is_complete(&self) -> (r: bool)
        ensures
            r == self@.complete,
    {
        self.complete
    }

    /// The status of the answer.
    pub fn status(&self) -> (s: u16)
        ensures
            s == self@.status,
    {
        self.status
    }

    /// The bytes of the body as far as they were read.
    pub fn bytes(&self) -> (b: &Vec<u8>)
        ensures
            b@ == self@.body,
    {
        &self.body
    }

    /// The body as text. There is a text once the body is complete and only
    /// if its bytes are well-formed UTF-8.
    pub fn text(&self) -> (t: Option<String>)
        ensures
            match t {
                Some(s) => self@.complete && vstd::utf8::valid_utf8(self@.body) && s@
                    == vstd::utf8::decode_utf8(self@.body),
                None => !self@.complete || !vstd::utf8::valid_utf8(self@.body),
            },
    {
        if self.complete {
            utf8_text(self.body.clone())
        } else {
            None
        }
    }
}

/// What the begin of a fetch may give: without a provider the failure
/// `FeatureUnavailable`; with one, an answer that the provider may give to
/// the request, and a fetch of which nothing has been read and whose status
/// is one that the answer may report.
pub open spec fn fetch_outcome(
    provider: Option<ProviderSpec>,
    request: FetchRequest,
    r: Result<(BoxedResponse, FetchExchange), EsError>,
) -> bool {
    match provider {
        None => r matches Err(e) && e == EsError::FeatureUnavailable,
        Some(spec) => r matches Ok(started) && spec(request, started.0)
            && started.0.gives_status(started.1@.status) && started.1@
            == FetchExchangeView::begun(started.1@.status),
    }
}

/// Begins the fetch of `request`. Without a provider the feature is not
/// there, and that is the only failure. With one, the provider is asked for
/// its answer, and the fetch begins with the status of that answer.
pub fn start_fetch(provider: &Option<BoxedProvider>, request: &FetchRequest) -> (r:
    Result<(BoxedResponse, FetchExchange), EsError>)
    ensures
        fetch_outcome(opt_provider_spec(*provider), *request, r),
{
    match provider {
        Some(p) => {
            let response = p.respond(request);
            let status = response.get_http_status();
            Ok((response, FetchExchange::begin(status)))
        },
        None => Err(EsError::FeatureUnavailable),
    }
}

/// Reads that all give bytes leave the fetch open and put the bytes in order
/// at the end of the body; the read that gives `None` then completes the
/// body without changing it.
pub proof fn lemma_body_is_chunks_in_order(x: FetchExchangeView, chunks: Seq<Seq<u8>>)
    requires
        !x.complete,
    ensures
        x.after_reads(as_reads(chunks)) == (FetchExchangeView {
            body: x.body + concatenated(chunks),
            ..x
        }),
        x.after_reads(as_reads(chunks)).after_read(None) == (FetchExchangeView {
            body: x.body + concatenated(chunks),
            complete: true,
            ..x
        }),
    decreases chunks.len(),
{
    if chunks.len() == 0 {
        assert(x.body + concatenated(chunks) =~= x.body);
    } else {
        lemma_body_is_chunks_in_order(x, chunks.drop_last());
        assert(as_reads(chunks).drop_last() =~= as_reads(chunks.drop_last()));
        assert(x.body + concatenated(chunks.drop_last()) + chunks.last() =~= x.body + concatenated(
            chunks,
        ));
    }
}

/// Once the body is complete no read changes it.
pub proof fn lemma_complete_body_is_final(x: FetchExchangeView, chunks: Seq<Option<Seq<u8>>>)
    requires
        x.complete,
    ensures
        x.after_reads(chunks) == x,
    decreases chunks.len(),
{
    if chunks.len() > 0 {
        lemma_complete_body_is_final(x, chunks.drop_last());
    }
}

} // verus!
