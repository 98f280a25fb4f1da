use varnish::backend::{body_status, failure_message, header_defaults, needs_body_processor, transfer_pull, BodyStatus};
use varnish::ctx::{Event, LogTag, Loggable, VslTags};
use varnish::error::Error;
use varnish::http::{HTTP, HDR_FIRST};
use varnish::probe::{COWProbe, COWRequest, Request};
use varnish::processor::{InitResult, PullResult, PushAction, PushResult};
use varnish::vpriv::VPriv;
use varnish::vsc::{Format, NulError, Semantics, Stat, VSCBuilder, VSC};
use varnish::ws::TestWS;

fn tags() -> VslTags {
    VslTags { debug: 1, error: 2, vcl_error: 3, fetch_error: 4, backend_health: 5, vcl_log: 6 }
}

#[test]
fn log_tag_codes() {
    let t = tags();
    assert_eq!(LogTag::Debug.into_u32(&t), 1);
    assert_eq!(LogTag::VclLog.into_u32(&t), 6);
    assert_eq!(LogTag::FetchError.into_u32(&t), 4);
    assert_eq!(LogTag::Any(77).into_u32(&t), 77);
}

#[test]
fn event_codes() {
    assert_eq!(Event::new(0), Event::Load);
    assert_eq!(Event::new(1), Event::Warm);
    assert_eq!(Event::new(2), Event::Cold);
    assert_eq!(Event::new(3), Event::Discard);
}

#[test]
fn error_messages() {
    let e = Error::new("boom".to_string());
    assert_eq!(e.as_str(), "boom");
    let f: Error = Error::from("from a string".to_string());
    assert_eq!(f.to_string(), "from a string");
    assert_eq!(Error::from_msg("x").as_str(), "x");
}

#[test]
fn vpriv_store_take() {
    let mut vp: VPriv<i32> = VPriv::new();
    assert!(vp.as_ref().is_none());
    assert!(!vp.is_allocated());
    vp.store(5);
    assert_eq!(*vp.as_ref().unwrap(), 5);
    vp.store(7);
    assert_eq!(*vp.as_ref().unwrap(), 7);
    *vp.as_mut().unwrap() += 1;
    assert_eq!(vp.take(), Some(8));
    assert_eq!(vp.take(), None);
    assert!(vp.is_allocated());
    vp.store(1);
    vp.clear();
    assert!(vp.as_ref().is_none());
}

#[test]
fn semantics_and_format_codes() {
    assert_eq!(Semantics::from_c_int('c' as i32), Semantics::Counter);
    assert_eq!(Semantics::from_c_int('g' as i32), Semantics::Gauge);
    assert_eq!(Semantics::from_c_int('b' as i32), Semantics::Bitmap);
    assert_eq!(Semantics::from_c_int('x' as i32), Semantics::Unknown);
    assert_eq!(char::from(Semantics::Gauge), 'g');
    assert_eq!(char::from(Semantics::Unknown), '?');
    assert_eq!(Format::from_c_int('B' as i32), Format::Bytes);
    assert_eq!(Format::from_c_int('d' as i32), Format::Duration);
    assert_eq!(Format::from_c_int('i' as i32), Format::Integer);
    assert_eq!(Format::from_c_int('z' as i32), Format::Unknown);
    assert_eq!(char::from(Format::Bitmap), 'b');
}

fn stat(name: &str, value: u64) -> Stat {
    Stat {
        value,
        name: name.to_string(),
        short_desc: String::new(),
        long_desc: String::new(),
        semantics: Semantics::Gauge,
        format: Format::Integer,
    }
}

#[test]
fn clamped_values() {
    assert_eq!(stat("a", 5).get_clamped_value(), 5);
    assert_eq!(stat("a", i64::MAX as u64).get_clamped_value(), i64::MAX as u64);
    assert_eq!(stat("a", u64::MAX).get_clamped_value(), 0);
    assert_eq!(stat("a", u64::MAX).get_raw_value(), u64::MAX);
}

#[test]
fn vsc_builder_patterns() {
    let b = VSCBuilder::new().include_glob("MAIN.*").unwrap().exclude("MAIN.n_*").unwrap().require("MAIN.uptime").unwrap();
    let args: Vec<(char, Option<String>)> = b.args().iter().map(|a| (a.opt, a.value.clone())).collect();
    assert_eq!(
        args,
        vec![
            ('r', None),
            ('I', Some("MAIN.*".to_string())),
            ('X', Some("MAIN.n_*".to_string())),
            ('R', Some("MAIN.uptime".to_string())),
        ]
    );
    assert_eq!(VSCBuilder::new().exclude("ab\0c").err(), Some(NulError { position: 2 }));
    assert_eq!(VSCBuilder::new().include_glob("é\0").err(), Some(NulError { position: 2 }));
}

#[test]
fn vsc_points_and_updates() {
    let mut vsc = VSC::new();
    vsc.add_point(1, stat("one", 1));
    vsc.add_point(2, stat("two", 2));
    assert_eq!(vsc.stats().len(), 2);
    let (added, deleted) = vsc.update();
    assert_eq!(added, vec![1, 2]);
    assert!(deleted.is_empty());
    // replacing a statistic shows its handle in both lists
    vsc.del_point(1);
    vsc.add_point(1, stat("uno", 10));
    let (added, deleted) = vsc.update();
    assert_eq!(added, vec![1]);
    assert_eq!(deleted, vec![1]);
    assert_eq!(vsc.stats()[&1].name, "uno");
    let (added, deleted) = vsc.update();
    assert!(added.is_empty() && deleted.is_empty());
    // a run of changes: every key that appeared is added, every key that went away is deleted
    vsc.add_point(3, stat("three", 3));
    vsc.del_point(2);
    let (added, deleted) = vsc.update();
    assert_eq!(added, vec![3]);
    assert_eq!(deleted, vec![2]);
    let mut keys: Vec<usize> = vsc.stats().keys().copied().collect();
    keys.sort();
    assert_eq!(keys, vec![1, 3]);
}

#[test]
fn processor_codes() {
    assert_eq!(PushAction::from_code(0), Some(PushAction::Null));
    assert_eq!(PushAction::from_code(2), Some(PushAction::End));
    assert_eq!(PushAction::from_code(3), None);
    assert_eq!(PushAction::Flush.code(), 1);
    assert_eq!(PushResult::from_status(-5), PushResult::Error);
    assert_eq!(PushResult::from_status(0), PushResult::Continue);
    assert_eq!(PushResult::from_status(9), PushResult::End);
    assert_eq!(PushResult::End.status(), 1);
    assert_eq!(PushResult::Error.status(), -1);
    assert_eq!(PullResult::from_suck(0, 10, 20), PullResult::Continue(10));
    assert_eq!(PullResult::from_suck(1, 0, 20), PullResult::End(0));
    assert_eq!(PullResult::from_suck(-1, 99, 20), PullResult::Error);
    assert_eq!(PullResult::Continue(4).status(), (0, Some(4)));
    assert_eq!(PullResult::Error.status(), (-1, None));
    let (s, p) = InitResult::Created(3u8).into_status();
    assert_eq!((s, p), (0, Some(3)));
    assert_eq!(InitResult::<u8>::Pass.into_status().0, 1);
    assert_eq!(InitResult::<u8>::Error("no".to_string()).into_status().0, -1);
}

#[test]
fn ws_copies() {
    let mut test_ws = TestWS::new(64);
    let ws = test_ws.ws();
    let a = ws.copy_bytes(b"abc").unwrap();
    assert_eq!(a.len(), 3);
    assert_eq!(ws.bytes(&a), b"abc");
    let b = ws.copy_bytes_with_null(b"xyz").unwrap();
    assert_eq!(ws.bytes(&b), b"xyz\0");
    // allocations do not overlap, and earlier copies stay
    assert!(b.start >= a.start + a.len);
    assert_eq!(ws.bytes(&a), b"abc");
    let c = ws.copy_str("héllo").unwrap();
    assert_eq!(ws.bytes(&c), "héllo".as_bytes());
    let e = ws.allocate(200);
    assert_eq!(e.err(), Some("workspace allocation (200 bytes) failed".to_string()));
}

fn request(slots: u16, ws_size: usize) -> HTTP {
    let mut hd: Vec<Option<String>> = Vec::new();
    hd.push(Some("GET".to_string()));
    hd.push(Some("/index.html".to_string()));
    hd.push(Some("HTTP/1.1".to_string()));
    hd.push(None);
    hd.push(None);
    for _ in HDR_FIRST..slots {
        hd.push(None);
    }
    let hdf = vec![0u8; hd.len()];
    let ws = TestWS::new(ws_size).into_ws();
    HTTP::from_parts(hd, hdf, HDR_FIRST, ws)
}

#[test]
fn http_fields() {
    let h = request(8, 256);
    assert_eq!(h.method(), Some("GET"));
    assert_eq!(h.url(), Some("/index.html"));
    assert_eq!(h.proto(), Some("HTTP/1.1"));
    assert_eq!(h.status(), None);
    assert_eq!(h.reason(), None);
}

#[test]
fn http_set_get_unset() {
    let mut h = request(9, 256);
    h.set_header("Host", "example.com").unwrap();
    h.set_header("X-Foo", "1").unwrap();
    h.set_header("x-foo", "2").unwrap();
    assert_eq!(h.header("host"), Some("example.com".to_string()));
    assert_eq!(h.header("X-FOO"), Some("1".to_string()));
    assert_eq!(h.header("missing"), None);
    assert_eq!(
        h.headers(),
        vec![
            ("Host".to_string(), "example.com".to_string()),
            ("X-Foo".to_string(), "1".to_string()),
            ("x-foo".to_string(), "2".to_string()),
        ]
    );
    let removed = h.unset_header("X-Foo");
    assert_eq!(removed, vec!["X-Foo: 1".to_string(), "x-foo: 2".to_string()]);
    assert!(h.unset_header("absent").is_empty());
    assert_eq!(h.header("x-foo"), None);
    assert_eq!(h.headers(), vec![("Host".to_string(), "example.com".to_string())]);
    // the table is full after four more lines
    h.set_header("a", "1").unwrap();
    h.set_header("b", "2").unwrap();
    h.set_header("c", "3").unwrap();
    assert_eq!(h.set_header("d", "4").err(), Some("no more header slot".to_string()));
}

#[test]
fn http_header_values() {
    let mut h = request(8, 256);
    // an empty value reads back empty
    h.set_header("Empty", "").unwrap();
    assert_eq!(h.header("empty"), Some("".to_string()));
    assert_eq!(h.header("EMPTY"), Some("".to_string()));
    // leading whitespace of a value is skipped
    h.set_header("Pad", "\t x").unwrap();
    assert_eq!(h.header("pad"), Some("x".to_string()));
}

#[test]
fn http_workspace_exhausted() {
    let mut h = request(8, 16);
    let e = h.set_header("A-Long-Header-Name", "with a long value");
    assert_eq!(e.err(), Some("workspace allocation (38 bytes) failed".to_string()));
    assert_eq!(h.headers(), vec![]);
}

#[test]
fn backend_bodies() {
    assert_eq!(body_status(None), (BodyStatus::NoBody, 0));
    assert_eq!(body_status(Some(None)), (BodyStatus::Chunked, 0));
    assert_eq!(body_status(Some(Some(0))), (BodyStatus::NoBody, 0));
    assert_eq!(body_status(Some(Some(42))), (BodyStatus::Length, 42));
    assert!(!needs_body_processor(BodyStatus::NoBody));
    assert!(needs_body_processor(BodyStatus::Chunked));
    assert_eq!(header_defaults(false, false), (Some(200), Some("HTTP/1.1")));
    assert_eq!(header_defaults(true, true), (None, None));
    assert_eq!(failure_message("mybe", "insuficient workspace"), "mybe: insuficient workspace");
}

#[test]
fn backend_body_pulls() {
    assert_eq!(transfer_pull(None), PullResult::Continue(0));
    assert_eq!(transfer_pull(Some(Err("broken pipe".to_string()))), PullResult::Error);
    assert_eq!(transfer_pull(Some(Ok(0))), PullResult::End(0));
    assert_eq!(transfer_pull(Some(Ok(512))), PullResult::Continue(512));
    assert_eq!(transfer_pull(Some(Ok(512))).status(), (0, Some(512)));
}

#[test]
fn probe_to_owned() {
    let p = COWProbe {
        request: COWRequest::URL("/health".to_string()),
        timeout: std::time::Duration::from_secs(2),
        interval: std::time::Duration::from_secs(5),
        exp_status: 200,
        window: 8,
        threshold: 3,
        initial: 2,
    };
    let o = p.to_owned();
    assert!(matches!(o.request, Request::URL(ref u) if u == "/health"));
    assert_eq!(o.timeout, std::time::Duration::from_secs(2));
    assert_eq!(o.window, 8);
    assert_eq!(o.initial, 2);
}

#[test]
fn exploration() {
    let mut vpriv_int: VPriv<i32> = VPriv::new();
    assert_eq!(None, vpriv_int.as_ref());

    let x_in = 5;
    vpriv_int.store(x_in);
    assert_eq!(x_in, *vpriv_int.as_ref().unwrap());

    vpriv_int.store(7);
    assert_eq!(7, *vpriv_int.as_ref().unwrap());
}

#[test]
fn loggable_messages() {
    assert_eq!(Loggable::from_str("all good").as_str(), "all good");
    assert_eq!(Loggable::from_string("x".to_string()).as_str(), "x");
    assert_eq!(
        Loggable::from_str("bad\0byte").as_str(),
        "Internal Error: message contains null bytes and cannot be shown"
    );
}
