use mascot_nanai::codec::ShioriRequestBuilder;
use mascot_nanai::manager::build_event_request;

#[test]
fn mouse_click_request_is_exact() {
    let request = ShioriRequestBuilder::on_mouse_click(10, 20, "left").build();
    assert_eq!(
        request,
        "NOTIFY SHIORI/3.0 SHIORI/3.0\r\nEvent: OnMouseClick\r\nReference0: 10\r\nReference1: 20\r\nReference2: left\r\nCharset: UTF-8\r\n\r\n"
    );
}

#[test]
fn empty_request_has_request_line_and_terminator() {
    let request = ShioriRequestBuilder::new().build();
    assert_eq!(request, "GET SHIORI/3.0 SHIORI/3.0\r\n\r\n");
}

#[test]
fn header_order_is_insertion_order() {
    let request = ShioriRequestBuilder::new()
        .header("B", "2")
        .header("A", "1")
        .build();
    assert_eq!(request, "GET SHIORI/3.0 SHIORI/3.0\r\nB: 2\r\nA: 1\r\n\r\n");
}

#[test]
fn sender_charset_event_are_named_headers() {
    let request = ShioriRequestBuilder::new()
        .method("NOTIFY")
        .event("OnTest")
        .sender("embedder")
        .charset("UTF-8")
        .build();
    assert_eq!(
        request,
        "NOTIFY SHIORI/3.0 SHIORI/3.0\r\nEvent: OnTest\r\nSender: embedder\r\nCharset: UTF-8\r\n\r\n"
    );
}

#[test]
fn reference_indices_are_decimal() {
    let request = ShioriRequestBuilder::new()
        .reference(0, "a")
        .reference(11, "b")
        .build();
    assert_eq!(
        request,
        "GET SHIORI/3.0 SHIORI/3.0\r\nReference0: a\r\nReference11: b\r\n\r\n"
    );
}

#[test]
fn on_boot_request_is_exact() {
    let request = ShioriRequestBuilder::on_boot().build();
    assert_eq!(
        request,
        "NOTIFY SHIORI/3.0 SHIORI/3.0\r\nEvent: OnBoot\r\nCharset: UTF-8\r\n\r\n"
    );
}

#[test]
fn on_close_request_is_exact() {
    let request = ShioriRequestBuilder::on_close().build();
    assert_eq!(
        request,
        "NOTIFY SHIORI/3.0 SHIORI/3.0\r\nEvent: OnClose\r\nCharset: UTF-8\r\n\r\n"
    );
}

#[test]
fn on_second_change_request_is_exact() {
    let request = ShioriRequestBuilder::on_second_change().build();
    assert_eq!(
        request,
        "NOTIFY SHIORI/3.0 SHIORI/3.0\r\nEvent: OnSecondChange\r\nCharset: UTF-8\r\n\r\n"
    );
}

#[test]
fn negative_coordinates_render_with_sign() {
    let request = ShioriRequestBuilder::on_mouse_click(-5, -2147483648, "right").build();
    assert_eq!(
        request,
        "NOTIFY SHIORI/3.0 SHIORI/3.0\r\nEvent: OnMouseClick\r\nReference0: -5\r\nReference1: -2147483648\r\nReference2: right\r\nCharset: UTF-8\r\n\r\n"
    );
}

#[test]
fn event_request_uses_get_and_id() {
    let text = build_event_request("OnBoot", &Vec::new());
    assert_eq!(text, "GET SHIORI/3.0 SHIORI/3.0\r\nID: OnBoot\r\n\r\n");
    let refs = vec!["10".to_string(), "left".to_string()];
    let text = build_event_request("OnMouseClick", &refs);
    assert_eq!(
        text,
        "GET SHIORI/3.0 SHIORI/3.0\r\nID: OnMouseClick\r\nReference0: 10\r\nReference1: left\r\n\r\n"
    );
}
