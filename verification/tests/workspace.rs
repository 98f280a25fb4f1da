use varnish::ws::TestWS;

#[test]
fn ws_test() {
    let mut test_ws = TestWS::new(160);
    let ws = test_ws.ws();
    for _ in 0..10 {
        let r = ws.allocate(16);
        assert!(r.is_ok());
        let buf = r.unwrap();
        assert_eq!(buf.len(), 16);
    }
    assert!(ws.allocate(1).is_err());
}

#[test]
fn reserve_write_release() {
    let mut test_ws = TestWS::new(160);
    let ws = test_ws.ws();
    // first reservation gets the full buffer
    let mut r = ws.reserve();
    assert_eq!(r.len(), 160);
    assert_eq!(ws.write_reserved(&mut r, b"0123456789"), 10);
    assert_eq!(r.len(), 150);
    // release after the part written
    let kept = ws.release(r, 0);
    assert_eq!(ws.bytes(&kept), b"0123456789");
    // second reservation gets 160 - 10 bytes; dropping it keeps nothing
    let r2 = ws.reserve();
    assert_eq!(r2.len(), 150);
    drop(r2);
    let r3 = ws.reserve();
    assert_eq!(r3.len(), 150);
}
