use quickjs_runtime::eserror::EsError;
use quickjs_runtime::esruntime::EsRuntime;
use quickjs_runtime::esruntimebuilder::EsRuntimeBuilder;
use quickjs_runtime::fetch::{
    start_fetch, BoxedProvider, BoxedResponse, FetchExchange, FetchRequest, FetchResponse,
};

struct SimpleResponse {
    read_done: bool,
}

impl SimpleResponse {
    fn new(_req: &FetchRequest) -> Self {
        Self { read_done: false }
    }
}

impl FetchResponse for SimpleResponse {
    fn get_http_status(&self) -> u16 {
        200
    }

    fn get_header(&self, _name: &str) -> Option<&str> {
        None
    }

    fn read(&mut self) -> Option<Vec<u8>> {
        if self.read_done {
            None
        } else {
            self.read_done = true;
            Some("Hello world".as_bytes().to_vec())
        }
    }
}

struct Chunked {
    status: u16,
    chunks: Vec<Vec<u8>>,
    next: usize,
    reads: usize,
}

impl FetchResponse for Chunked {
    fn get_http_status(&self) -> u16 {
        self.status
    }

    fn get_header(&self, name: &str) -> Option<&str> {
        if name == "content-type" {
            Some("text/plain")
        } else {
            None
        }
    }

    fn read(&mut self) -> Option<Vec<u8>> {
        self.reads += 1;
        if self.next < self.chunks.len() {
            self.next += 1;
            Some(self.chunks[self.next - 1].clone())
        } else {
            None
        }
    }
}

#[test]
fn fetch_resolves_text_to_hello_world() {
    let rt: EsRuntime<u8> = EsRuntimeBuilder::new()
        .fetch_response_provider(|req: &FetchRequest| BoxedResponse::new(SimpleResponse::new(req)))
        .build();
    let request = FetchRequest::new("GET", "something");
    let (mut response, mut exchange) = match rt.start_fetch(&request) {
        Ok(started) => started,
        Err(e) => panic!("a provider is configured: {:?}", e),
    };
    assert_eq!(exchange.status(), 200);
    assert!(!exchange.is_complete());
    assert_eq!(exchange.text(), None);
    assert!(exchange.read_body(&mut response, 8));
    assert!(exchange.is_complete());
    assert_eq!(exchange.text(), Some("Hello world".to_string()));
    assert_eq!(exchange.text(), Some("Hello world".to_string()));
    assert_eq!(exchange.bytes(), &"Hello world".as_bytes().to_vec());
}

#[test]
fn fetch_without_provider_is_unavailable() {
    let rt: EsRuntime<u8> = EsRuntimeBuilder::new().build();
    let request = FetchRequest::new("GET", "x");
    assert!(matches!(rt.start_fetch(&request), Err(EsError::FeatureUnavailable)));
    let none: Option<BoxedProvider> = None;
    assert!(matches!(start_fetch(&none, &request), Err(EsError::FeatureUnavailable)));
}

#[test]
fn chunks_are_kept_in_order() {
    let mut x = FetchExchange::begin(201);
    assert!(x.on_read(Some(vec![1, 2])));
    assert!(x.on_read(Some(vec![])));
    assert!(x.on_read(Some(vec![3])));
    assert!(!x.is_complete());
    assert_eq!(x.bytes(), &vec![1u8, 2, 3]);
    assert!(!x.on_read(None));
    assert!(x.is_complete());
    assert_eq!(x.bytes(), &vec![1u8, 2, 3]);
    assert_eq!(x.status(), 201);
}

#[test]
fn complete_body_takes_no_more_chunks() {
    let mut x = FetchExchange::begin(200);
    x.on_read(Some(vec![9]));
    x.on_read(None);
    assert!(!x.on_read(Some(vec![1])));
    assert!(!x.on_read(None));
    assert_eq!(x.bytes(), &vec![9u8]);
    assert!(x.is_complete());
}

#[test]
fn empty_body() {
    let mut x = FetchExchange::begin(204);
    assert!(!x.on_read(None));
    assert_eq!(x.text(), Some(String::new()));
    assert_eq!(x.bytes().len(), 0);
}

#[test]
fn read_body_stops_at_the_end_of_the_body() {
    let mut response = BoxedResponse::new(Chunked {
        status: 200,
        chunks: vec![b"Hel".to_vec(), b"lo ".to_vec(), b"world".to_vec()],
        next: 0,
        reads: 0,
    });
    let mut x = FetchExchange::begin(response.get_http_status());
    assert!(!x.read_body(&mut response, 0));
    assert_eq!(x.bytes().len(), 0);
    assert!(!x.read_body(&mut response, 2));
    assert_eq!(x.bytes(), &b"Hello ".to_vec());
    assert_eq!(x.text(), None);
    assert!(x.read_body(&mut response, 100));
    assert_eq!(x.text(), Some("Hello world".to_string()));
    assert!(x.read_body(&mut response, 100));
    assert_eq!(x.text(), Some("Hello world".to_string()));
    assert_eq!(response.get_header("content-type"), Some("text/plain"));
    assert_eq!(response.get_header("etag"), None);
    assert_eq!(response.read(), None);
}

#[test]
fn text_needs_well_formed_utf8() {
    let mut x = FetchExchange::begin(200);
    x.on_read(Some(vec![0xff, 0xfe]));
    x.on_read(None);
    assert_eq!(x.text(), None);
    assert_eq!(x.bytes(), &vec![0xffu8, 0xfe]);
    let mut x = FetchExchange::begin(200);
    x.on_read(Some(vec![0xc3]));
    x.on_read(Some(vec![0xa9]));
    x.on_read(None);
    assert_eq!(x.text(), Some("\u{e9}".to_string()));
    let mut x = FetchExchange::begin(200);
    x.on_read(Some(vec![0xc3]));
    x.on_read(None);
    assert_eq!(x.text(), None);
}

#[test]
fn request_keeps_what_it_was_given() {
    let r = FetchRequest::new("POST", "https://example.org/a");
    assert_eq!(r.get_method(), "POST");
    assert_eq!(r.get_url(), "https://example.org/a");
    assert_eq!(r.get_header("accept"), None);
    assert_eq!(r.get_body(), &None);
    let r = r
        .header("accept", "text/html")
        .header("x-a", "1")
        .header("accept", "*/*")
        .body(vec![1, 2, 3]);
    assert_eq!(r.get_header("accept"), Some("*/*"));
    assert_eq!(r.get_header("x-a"), Some("1"));
    assert_eq!(r.get_header("Accept"), None);
    assert_eq!(r.get_body(), &Some(vec![1u8, 2, 3]));
    assert_eq!(r.get_method(), "POST");
}

#[test]
fn provider_sees_the_request() {
    let rt: EsRuntime<u8> = EsRuntimeBuilder::new()
        .fetch_response_provider(|req: &FetchRequest| {
            let status = if req.get_url() == "found" { 200 } else { 404 };
            BoxedResponse::new(Chunked {
                status,
                chunks: vec![req.get_method().as_bytes().to_vec()],
                next: 0,
                reads: 0,
            })
        })
        .build();
    let (mut response, mut x) = rt.start_fetch(&FetchRequest::new("PUT", "lost")).ok().unwrap();
    assert_eq!(x.status(), 404);
    assert!(x.read_body(&mut response, 10));
    assert_eq!(x.text(), Some("PUT".to_string()));
    let (_, x) = rt.start_fetch(&FetchRequest::new("GET", "found")).ok().unwrap();
    assert_eq!(x.status(), 200);
}

#[test]
fn read_body_takes_what_the_response_gives_first() {
    let mut response = BoxedResponse::new(Chunked {
        status: 200,
        chunks: vec![vec![7, 8], vec![9]],
        next: 0,
        reads: 0,
    });
    let mut x = FetchExchange::begin(200);
    assert!(!x.read_body(&mut response, 1));
    assert_eq!(x.bytes(), &vec![7u8, 8]);
    assert!(!x.read_body(&mut response, 1));
    assert_eq!(x.bytes(), &vec![7u8, 8, 9]);
    assert!(x.read_body(&mut response, 1));
    assert_eq!(x.bytes(), &vec![7u8, 8, 9]);
}
