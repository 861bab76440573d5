use nginx_rs::conf::{ConfigContext, CycleContext, ModuleRecord};
use nginx_rs::headers::{HeaderEntry, HeaderList, HeaderPart};
use nginx_rs::pool::{Pool, StringView};
use nginx_rs::request::{
    Buffer, ComplexValue, Connection, HeadersIn, HeadersOut, HostOutcomes, Request,
};
use nginx_rs::status::{Status, NGX_AGAIN, NGX_ERROR, NGX_OK};

fn list_from(cap: usize, entries: Vec<(Vec<u8>, Vec<u8>)>) -> HeaderList {
    let mut parts: Vec<HeaderPart> = Vec::new();
    let mut cur: Vec<HeaderEntry> = Vec::new();
    for (name, value) in entries {
        if cur.len() == cap {
            parts.push(HeaderPart { entries: cur });
            cur = Vec::new();
        }
        cur.push(HeaderEntry { hash: 1, name, value });
    }
    if !cur.is_empty() {
        parts.push(HeaderPart { entries: cur });
    }
    HeaderList { parts, cap }
}

fn base_request() -> Request {
    Request {
        own_addr: 1000,
        main: 1000,
        pool: Pool { capacity: 4096, used: 0, buffers: Vec::new() },
        connection: Connection {
            formatted_addr: b"192.0.2.1:80".to_vec(),
            addr_text: StringView { bytes: b"192.0.2.1".to_vec() },
        },
        conf: ConfigContext { main_conf: Vec::new(), srv_conf: Vec::new(), loc_conf: Vec::new() },
        headers_in: HeadersIn {
            host: None,
            user_agent: None,
            referer: None,
            accept_language: None,
            content_type: None,
            content_length: None,
            accept: None,
            headers: HeaderList { parts: Vec::new(), cap: 4 },
        },
        headers_out: HeadersOut {
            status: 0,
            content_length_n: 0,
            headers: HeaderList { parts: Vec::new(), cap: 4 },
        },
        uri: StringView { bytes: b"/".to_vec() },
        args: StringView { bytes: Vec::new() },
        header_only: false,
        body_discarded: false,
        sent_status: None,
        output: Vec::new(),
        host: HostOutcomes { send_header: NGX_OK, discard_body: NGX_OK, output_filter: NGX_OK },
    }
}

#[test]
fn status_sentinels() {
    assert!(Status(NGX_OK).is_ok());
    assert!(!Status(NGX_ERROR).is_ok());
    assert!(!Status(NGX_AGAIN).is_ok());
    assert_eq!(Status(NGX_ERROR).into_raw(), -1);
    assert_eq!(Status(NGX_AGAIN).into_raw(), -2);
    assert_eq!(Status(NGX_OK).into_raw(), 0);
}

#[test]
fn status_equality_is_on_the_integer() {
    assert_eq!(Status(7), Status(7));
    assert_ne!(Status(7), Status(8));
    assert!(Status(NGX_AGAIN) < Status(NGX_OK));
}

#[test]
fn is_main_for_top_level_request() {
    let r = base_request();
    assert!(r.is_main());
}

#[test]
fn is_main_false_for_sub_request() {
    let mut r = base_request();
    r.main = 2000;
    assert!(!r.is_main());
}

#[test]
fn get_header_is_case_insensitive() {
    let mut r = base_request();
    r.headers_in.host = Some(b"example.com".to_vec());
    let a = r.get_header(&b"Host".to_vec());
    let b = r.get_header(&b"host".to_vec());
    let c = r.get_header(&b"HOST".to_vec());
    assert_eq!(a, Some(b"example.com".to_vec()));
    assert_eq!(a, b);
    assert_eq!(b, c);
}

#[test]
fn get_header_chain_lookup_is_case_insensitive() {
    let mut r = base_request();
    r.headers_in.headers =
        list_from(4, vec![(b"X-Custom".to_vec(), b"42".to_vec())]);
    assert_eq!(r.get_header(&b"x-custom".to_vec()), Some(b"42".to_vec()));
    assert_eq!(r.get_header(&b"X-CUSTOM".to_vec()), Some(b"42".to_vec()));
}

#[test]
fn get_header_underscored_alias_reaches_dedicated_field() {
    let mut r = base_request();
    r.headers_in.content_length = Some(b"512".to_vec());
    r.headers_in.accept_language = Some(b"en".to_vec());
    r.headers_in.content_type = Some(b"text/plain".to_vec());
    r.headers_in.user_agent = Some(b"probe".to_vec());
    assert_eq!(
        r.get_header(&b"content-length".to_vec()),
        r.get_header(&b"content_length".to_vec())
    );
    assert_eq!(r.get_header(&b"content_length".to_vec()), Some(b"512".to_vec()));
    assert_eq!(
        r.get_header(&b"accept-language".to_vec()),
        r.get_header(&b"accept_language".to_vec())
    );
    assert_eq!(
        r.get_header(&b"content-type".to_vec()),
        r.get_header(&b"content_type".to_vec())
    );
    assert_eq!(
        r.get_header(&b"user-agent".to_vec()),
        r.get_header(&b"user_agent".to_vec())
    );
}

#[test]
fn dedicated_name_is_not_found_in_the_chain() {
    let mut r = base_request();
    // The chain holds a "host" entry, but the dedicated field is empty:
    // the dedicated field wins and the answer is absence.
    r.headers_in.headers = list_from(4, vec![(b"Host".to_vec(), b"other".to_vec())]);
    assert_eq!(r.get_header(&b"host".to_vec()), None);
}

#[test]
fn chain_spanning_two_parts_is_fully_traversed() {
    let mut r = base_request();
    // Capacity two per part, three entries: the third lives in the second
    // linked part and must still be found.
    r.headers_in.headers = list_from(
        2,
        vec![
            (b"A".to_vec(), b"1".to_vec()),
            (b"B".to_vec(), b"2".to_vec()),
            (b"C".to_vec(), b"3".to_vec()),
        ],
    );
    assert_eq!(r.headers_in.headers.parts.len(), 2);
    assert_eq!(r.get_header(&b"c".to_vec()), Some(b"3".to_vec()));
    assert_eq!(r.get_header(&b"a".to_vec()), Some(b"1".to_vec()));
    assert_eq!(r.get_header_names(), Some(b"A B C".to_vec()));
}

#[test]
fn get_header_returns_first_match() {
    let mut r = base_request();
    r.headers_in.headers = list_from(
        2,
        vec![
            (b"Dup".to_vec(), b"first".to_vec()),
            (b"Other".to_vec(), b"x".to_vec()),
            (b"dup".to_vec(), b"second".to_vec()),
        ],
    );
    assert_eq!(r.get_header(&b"DUP".to_vec()), Some(b"first".to_vec()));
}

#[test]
fn get_header_requires_full_name_equality() {
    let mut r = base_request();
    r.headers_in.headers = list_from(4, vec![(b"X-Token".to_vec(), b"v".to_vec())]);
    assert_eq!(r.get_header(&b"X-Tok".to_vec()), None);
    assert_eq!(r.get_header(&b"X-Token-More".to_vec()), None);
}

#[test]
fn get_header_missing_and_empty_values_are_absent() {
    let mut r = base_request();
    r.headers_in.referer = Some(Vec::new());
    r.headers_in.headers = list_from(4, vec![(b"X-Empty".to_vec(), Vec::new())]);
    assert_eq!(r.get_header(&b"referer".to_vec()), None);
    assert_eq!(r.get_header(&b"x-empty".to_vec()), None);
    assert_eq!(r.get_header(&b"missing".to_vec()), None);
}

#[test]
fn get_header_names_absent_on_empty_chain() {
    let r = base_request();
    assert_eq!(r.get_header_names(), None);
}

#[test]
fn get_header_names_skips_empty_names() {
    let mut r = base_request();
    r.headers_in.headers = list_from(
        4,
        vec![
            (Vec::new(), b"dropped".to_vec()),
            (b"Kept".to_vec(), b"v".to_vec()),
        ],
    );
    assert_eq!(r.get_header_names(), Some(b"Kept".to_vec()));
}

#[test]
fn set_header_appears_in_outbound_names() {
    let mut r = base_request();
    assert!(r.set_header(&b"X-Test".to_vec(), b"v1".to_vec().as_ref()));
    let names = r.headers_out.headers.names_joined().expect("one name");
    assert_eq!(names, b"X-Test".to_vec());
    // The copies went through the arena and the entry carries the
    // presence sentinel.
    assert_eq!(r.pool.buffers.len(), 2);
    assert_eq!(r.pool.buffers[0], b"X-Test".to_vec());
    assert_eq!(r.pool.buffers[1], b"v1".to_vec());
    let last_part = r.headers_out.headers.parts.last().expect("a part");
    let entry = last_part.entries.last().expect("an entry");
    assert_eq!(entry.hash, 1);
    assert_eq!(entry.value, b"v1".to_vec());
}

#[test]
fn set_header_always_appends_duplicates() {
    let mut r = base_request();
    assert!(r.set_header(&b"X-Dup".to_vec(), &b"a".to_vec()));
    assert!(r.set_header(&b"X-Dup".to_vec(), &b"b".to_vec()));
    let names = r.headers_out.headers.names_joined().expect("two names");
    assert_eq!(names, b"X-Dup X-Dup".to_vec());
}

#[test]
fn set_header_fails_without_arena_room() {
    let mut r = base_request();
    r.pool.capacity = 4;
    assert!(!r.set_header(&b"Too-Long".to_vec(), &b"v".to_vec()));
    assert!(r.headers_out.headers.parts.is_empty());
}

#[test]
fn set_header_opens_new_part_when_full() {
    let mut r = base_request();
    r.headers_out.headers = HeaderList::new(1);
    assert!(r.set_header(&b"A".to_vec(), &b"1".to_vec()));
    assert!(r.set_header(&b"B".to_vec(), &b"2".to_vec()));
    assert_eq!(r.headers_out.headers.parts.len(), 2);
    assert_eq!(r.headers_out.headers.names_joined(), Some(b"A B".to_vec()));
}

#[test]
fn remote_address_formats_the_peer() {
    let mut r = base_request();
    assert_eq!(r.remote_address(), Some(b"192.0.2.1:80".to_vec()));
    // The text went through a fresh arena buffer.
    assert_eq!(r.pool.buffers.len(), 1);
}

#[test]
fn remote_address_of_empty_text_is_absent_not_empty() {
    let mut r = base_request();
    r.connection.formatted_addr = Vec::new();
    assert_eq!(r.remote_address(), None);
}

#[test]
fn remote_address_absent_when_arena_is_full() {
    let mut r = base_request();
    r.pool.capacity = 4;
    r.pool.used = 4;
    assert_eq!(r.remote_address(), None);
}

#[test]
fn pool_round_trip_reproduces_the_bytes() {
    let mut pool = Pool { capacity: 64, used: 0, buffers: Vec::new() };
    let h = pool.allocate(b"payload".to_vec()).expect("room");
    let view = StringView::from_allocation(&pool, h);
    assert_eq!(view.as_bytes(), &b"payload".to_vec());
    assert_eq!(view.len(), 7);
    assert!(!view.is_empty());
}

#[test]
fn pool_allocate_fails_beyond_capacity() {
    let mut pool = Pool { capacity: 4, used: 0, buffers: Vec::new() };
    assert_eq!(pool.allocate(b"12345".to_vec()), None);
    assert_eq!(pool.allocate(b"1234".to_vec()), Some(0));
    assert_eq!(pool.allocate(b"5".to_vec()), None);
    assert_eq!(pool.used, 4);
}

#[test]
fn scenario_inbound_headers() {
    let mut r = base_request();
    r.headers_in.host = Some(b"example.com".to_vec());
    r.headers_in.user_agent = Some(b"test-agent".to_vec());
    assert_eq!(r.get_header(&b"host".to_vec()), Some(b"example.com".to_vec()));
    assert_eq!(r.user_agent(), &b"test-agent".to_vec());
    assert_eq!(r.get_header(&b"missing".to_vec()), None);
}

#[test]
fn scenario_status_then_send_header() {
    let mut r = base_request();
    r.set_status(404);
    let st = r.send_header();
    assert!(st.is_ok());
    assert_eq!(r.sent_status, Some(404));
    // A later setter call does not reach the already-sent response.
    r.set_status(500);
    assert_eq!(r.sent_status, Some(404));
    let again = r.send_header();
    assert!(again.is_ok());
    assert_eq!(r.sent_status, Some(404));
}

#[test]
fn set_content_length_n_writes_the_field() {
    let mut r = base_request();
    r.set_content_length_n(321);
    assert_eq!(r.headers_out.content_length_n, 321);
}

#[test]
fn header_only_reflects_the_flag() {
    let mut r = base_request();
    assert!(!r.header_only());
    r.header_only = true;
    assert!(r.header_only());
}

#[test]
fn discard_request_body_reports_the_host_outcome() {
    let mut r = base_request();
    r.host.discard_body = NGX_AGAIN;
    let st = r.discard_request_body();
    assert_eq!(st.into_raw(), NGX_AGAIN);
    assert!(r.body_discarded);
}

#[test]
fn output_filter_accumulates_buffers() {
    let mut r = base_request();
    r.host.output_filter = NGX_OK;
    let st = r.output_filter(Buffer { bytes: b"chunk one".to_vec(), last_buf: false });
    assert!(st.is_ok());
    let st = r.output_filter(Buffer { bytes: b"chunk two".to_vec(), last_buf: true });
    assert!(st.is_ok());
    assert_eq!(r.output.len(), 2);
    assert_eq!(r.output[0].bytes, b"chunk one".to_vec());
    assert!(r.output[1].last_buf);
}

#[test]
fn uri_args_addr_views() {
    let mut r = base_request();
    r.uri = StringView::from_bytes(b"/index.html".to_vec());
    r.args = StringView::from_bytes(b"q=1".to_vec());
    assert_eq!(r.uri().as_bytes(), &b"/index.html".to_vec());
    assert_eq!(r.args().as_bytes(), &b"q=1".to_vec());
    assert_eq!(r.addr().as_bytes(), &b"192.0.2.1".to_vec());
    assert_eq!(r.connection().addr_text.bytes, b"192.0.2.1".to_vec());
    assert_eq!(r.pool().capacity, 4096);
}

#[test]
fn complex_value_surfaces_the_host_evaluation() {
    let r = base_request();
    let ok = ComplexValue { value: Some(b"evaluated".to_vec()) };
    let failed = ComplexValue { value: None };
    assert_eq!(r.get_complex_value(&ok), Some(b"evaluated".to_vec()));
    assert_eq!(r.get_complex_value(&failed), None);
}

#[test]
fn conf_lookups_index_the_parallel_tables() {
    let cf = ConfigContext {
        main_conf: vec![11, 12],
        srv_conf: vec![21, 22],
        loc_conf: vec![31, 32],
    };
    let module = ModuleRecord { ctx_index: 1, index: 0 };
    assert_eq!(nginx_rs::conf::ngx_http_conf_get_module_main_conf(&cf, &module), 12);
    assert_eq!(nginx_rs::conf::ngx_http_conf_get_module_srv_conf(&cf, &module), 22);
    assert_eq!(nginx_rs::conf::ngx_http_conf_get_module_loc_conf(&cf, &module), 32);
}

#[test]
fn cycle_lookup_absent_without_root_context() {
    let cycle = CycleContext { conf_ctx: vec![None, None], http_slot: 1 };
    let module = ModuleRecord { ctx_index: 0, index: 0 };
    assert_eq!(
        nginx_rs::conf::ngx_cycle_conf_get_module_main_conf(&cycle, &module),
        None
    );
}

#[test]
fn cycle_lookup_delegates_to_main_conf() {
    let ctx = ConfigContext {
        main_conf: vec![7, 8],
        srv_conf: Vec::new(),
        loc_conf: Vec::new(),
    };
    let cycle = CycleContext { conf_ctx: vec![None, Some(ctx)], http_slot: 1 };
    let module = ModuleRecord { ctx_index: 1, index: 0 };
    assert_eq!(
        nginx_rs::conf::ngx_cycle_conf_get_module_main_conf(&cycle, &module),
        Some(8)
    );
}

#[test]
fn request_conf_accessors() {
    let mut r = base_request();
    r.conf = ConfigContext {
        main_conf: vec![5],
        srv_conf: vec![6],
        loc_conf: vec![7],
    };
    let module = ModuleRecord { ctx_index: 0, index: 0 };
    assert_eq!(r.get_module_main_conf(&module), 5);
    assert_eq!(r.get_module_loc_conf(&module), 7);
}
