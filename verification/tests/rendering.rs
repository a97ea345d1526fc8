use browserlify::render::{
    build_render_response, paper_dimensions, parse_clip, parse_dec, pick_author, race_error,
    pdf_file_name, screenshot_ext, screenshot_file_name, image_content_type, stamp_pdf_author,
    ClipRect, ImageFormat, RenderAbort, RenderParams, CONTENT_TYPE_HTML, CONTENT_TYPE_PDF,
    CONTENT_TYPE_TEXT,
};

fn empty_params(url: &str) -> RenderParams {
    RenderParams {
        url: url.to_string(),
        file_name: None,
        timeout: None,
        wait_load: None,
        wait_selector: None,
        wait_images: None,
        wait_network_idle: None,
        wait_page_ready: None,
        scroll_bottom: None,
        scroll_interval: None,
        paper_width: None,
        paper_height: None,
        scale: None,
        margin_top: None,
        margin_bottom: None,
        margin_left: None,
        margin_right: None,
        print_background: None,
        landscape: None,
        page_ranges: None,
        emulating_device: None,
        disable_link: None,
        paper_size: None,
        header_template: None,
        footer_template: None,
        format: None,
        quality: None,
        clip: None,
        full_page: None,
        author: None,
    }
}

#[test]
fn paper_table() {
    assert_eq!(paper_dimensions("a3"), (1169, 1654));
    assert_eq!(paper_dimensions("A3"), (1169, 1654));
    assert_eq!(paper_dimensions("a5"), (583, 827));
    assert_eq!(paper_dimensions("legal"), (850, 1400));
    assert_eq!(paper_dimensions("Letter"), (850, 1100));
    assert_eq!(paper_dimensions("a4"), (827, 1169));
    assert_eq!(paper_dimensions("anything"), (827, 1169));
    assert_eq!(paper_dimensions(""), (827, 1169));
}

#[test]
fn pdf_options_mapping() {
    let mut p = empty_params("http://example.com/");
    p.paper_size = Some("a3".to_string());
    p.margin_top = Some(100);
    p.landscape = Some(true);
    p.page_ranges = Some("1-3".to_string());
    let o = p.to_pdf_options();
    // explicit width/height override the paper table even when absent
    assert_eq!(o.paper_width, None);
    assert_eq!(o.paper_height, None);
    assert_eq!(o.margin_top, Some(100));
    assert_eq!(o.landscape, Some(true));
    assert_eq!(o.page_ranges.as_deref(), Some("1-3"));
    assert_eq!(o.display_header_footer, None);
    let mut p = empty_params("http://example.com/");
    p.paper_width = Some(850);
    p.paper_height = Some(1100);
    p.header_template = Some("<span/>".to_string());
    let o = p.to_pdf_options();
    assert_eq!(o.paper_width, Some(850));
    assert_eq!(o.paper_height, Some(1100));
    assert_eq!(o.display_header_footer, Some(true));
    assert_eq!(o.header_template.as_deref(), Some("<span/>"));
    assert_eq!(o.footer_template, None);
    let mut p = empty_params("http://example.com/");
    p.footer_template = Some("f".to_string());
    let o = p.to_pdf_options();
    assert_eq!(o.display_header_footer, Some(true));
}

#[test]
fn decimal_parse_in_hundredths() {
    assert_eq!(parse_dec("8.5"), Some(850));
    assert_eq!(parse_dec("-1.25"), Some(-125));
    assert_eq!(parse_dec("10"), Some(1000));
    assert_eq!(parse_dec("0"), Some(0));
    assert_eq!(parse_dec("1.999"), Some(199));
    assert_eq!(parse_dec("3."), Some(300));
    assert_eq!(parse_dec(""), None);
    assert_eq!(parse_dec("x"), None);
    assert_eq!(parse_dec("1.2.3"), None);
    assert_eq!(parse_dec(".5"), None);
    assert_eq!(parse_dec("-"), None);
}

#[test]
fn clip_parse() {
    assert_eq!(
        parse_clip("0,0,800,600"),
        Some(ClipRect { x: 0, y: 0, width: 80000, height: 60000 })
    );
    assert_eq!(
        parse_clip("1.5,2"),
        Some(ClipRect { x: 150, y: 200, width: 0, height: 0 })
    );
    assert_eq!(
        parse_clip("7"),
        Some(ClipRect { x: 700, y: 0, width: 0, height: 0 })
    );
    assert_eq!(parse_clip("a,b"), None);
    assert_eq!(parse_clip(""), None);
    // parts beyond the fourth are ignored
    assert_eq!(
        parse_clip("1,2,3,4,nonsense"),
        Some(ClipRect { x: 100, y: 200, width: 300, height: 400 })
    );
}

#[test]
fn screenshot_options_mapping() {
    let mut p = empty_params("http://example.com/");
    let o = p.to_screenshot_options();
    assert_eq!(o.format, ImageFormat::Png);
    assert_eq!(o.quality, 0);
    assert!(!o.full_page);
    assert!(o.clip.is_none());
    p.format = Some("jpeg".to_string());
    p.quality = Some(80);
    p.full_page = Some(true);
    p.clip = Some("1,2,3,4".to_string());
    let o = p.to_screenshot_options();
    assert_eq!(o.format, ImageFormat::Jpeg);
    assert_eq!(o.quality, 80);
    assert!(o.full_page);
    assert_eq!(o.clip, Some(ClipRect { x: 100, y: 200, width: 300, height: 400 }));
    p.format = Some("webp".to_string());
    assert_eq!(p.to_screenshot_options().format, ImageFormat::Webp);
    p.format = Some("gif".to_string());
    assert_eq!(p.to_screenshot_options().format, ImageFormat::Png);
    p.format = Some("JPEG".to_string());
    assert_eq!(p.to_screenshot_options().format, ImageFormat::Png);
}

#[test]
fn race_errors_carry_the_diagnostic() {
    let e = race_error(RenderAbort::HandlerExit);
    assert_eq!((e.status_code, e.message.as_str()), (503, "handler exit"));
    let e = race_error(RenderAbort::SessionCancel);
    assert_eq!((e.status_code, e.message.as_str()), (503, "session cancel"));
    let e = race_error(RenderAbort::DeadlineExpired);
    assert_eq!((e.status_code, e.message.as_str()), (503, "timeout"));
}

#[test]
fn author_and_names() {
    assert_eq!(pick_author(&Some("xyz".into()), &Some("cfg".into())), "xyz");
    assert_eq!(pick_author(&None, &Some("cfg".into())), "cfg");
    assert_eq!(pick_author(&None, &None), "Browserlify");
    assert_eq!(pdf_file_name(&None, "example.com"), "example.com.pdf");
    assert_eq!(pdf_file_name(&Some("out.pdf".into()), "example.com"), "out.pdf");
    assert_eq!(screenshot_ext(&None), "png");
    assert_eq!(screenshot_ext(&Some("webp".into())), "webp");
    assert_eq!(screenshot_file_name(&None, "example.com", "png"), "example.com.png");
    assert_eq!(image_content_type("png"), "image/png");
    assert_eq!(CONTENT_TYPE_PDF, "application/pdf");
    assert_eq!(CONTENT_TYPE_TEXT, "plain/text");
    assert_eq!(CONTENT_TYPE_HTML, "text/html");
}

#[test]
fn response_assembly() {
    let r = build_render_response(vec![1, 2, 3], "application/pdf".to_string(), Some("a.pdf".to_string()));
    assert_eq!(r.status, 200);
    assert_eq!(r.content_type, "application/pdf");
    assert_eq!(r.body, vec![1, 2, 3]);
    assert_eq!(r.content_disposition.as_deref(), Some("attachment; filename=\"a.pdf\""));
    let r = build_render_response(Vec::new(), "text/html".to_string(), None);
    assert!(r.content_disposition.is_none());
}

#[test]
fn pdf_author_stamp_round_trip() {
    // build a tiny valid PDF with the pdf library itself
    let mut doc = lopdf::Document::with_version("1.5");
    let pages_id = doc.new_object_id();
    let content = lopdf::content::Content { operations: vec![] };
    let content_id = doc.add_object(lopdf::Object::Stream(lopdf::Stream::new(
        lopdf::Dictionary::new(),
        content.encode().unwrap(),
    )));
    let mut page = lopdf::Dictionary::new();
    page.set("Type", lopdf::Object::Name(b"Page".to_vec()));
    page.set("Parent", lopdf::Object::Reference(pages_id));
    page.set("Contents", lopdf::Object::Reference(content_id));
    let page_id = doc.add_object(lopdf::Object::Dictionary(page));
    let mut pages = lopdf::Dictionary::new();
    pages.set("Type", lopdf::Object::Name(b"Pages".to_vec()));
    pages.set(
        "Kids",
        lopdf::Object::Array(vec![lopdf::Object::Reference(page_id)]),
    );
    pages.set("Count", lopdf::Object::Integer(1));
    doc.objects.insert(pages_id, lopdf::Object::Dictionary(pages));
    let mut catalog = lopdf::Dictionary::new();
    catalog.set("Type", lopdf::Object::Name(b"Catalog".to_vec()));
    catalog.set("Pages", lopdf::Object::Reference(pages_id));
    let catalog_id = doc.add_object(lopdf::Object::Dictionary(catalog));
    doc.trailer.set("Root", catalog_id);
    let mut bytes = Vec::new();
    doc.save_to(&mut bytes).unwrap();

    let stamped = stamp_pdf_author(bytes.clone(), "xyz");
    assert_ne!(stamped, bytes);
    let reloaded = lopdf::Document::load_mem(&stamped).unwrap();
    let info_ref = reloaded.trailer.get(b"Info").unwrap();
    let info = reloaded.get_dictionary(info_ref.as_reference().unwrap()).unwrap();
    let author = info.get(b"Author").unwrap().as_str().unwrap();
    assert_eq!(author, b"xyz");
}

#[test]
fn pdf_stamp_passes_garbage_through() {
    let garbage = vec![0u8, 1, 2, 3, 4];
    assert_eq!(stamp_pdf_author(garbage.clone(), "xyz"), garbage);
}

#[test]
fn pdf_stamp_is_a_function_of_its_inputs() {
    // the same bytes and author always stamp to the same bytes
    let mut doc = lopdf::Document::with_version("1.5");
    let catalog_id = {
        let mut catalog = lopdf::Dictionary::new();
        catalog.set("Type", lopdf::Object::Name(b"Catalog".to_vec()));
        doc.add_object(lopdf::Object::Dictionary(catalog))
    };
    doc.trailer.set("Root", catalog_id);
    let mut bytes = Vec::new();
    doc.save_to(&mut bytes).unwrap();
    let once = stamp_pdf_author(bytes.clone(), "xyz");
    let twice = stamp_pdf_author(bytes.clone(), "xyz");
    assert_eq!(once, twice);
    assert_ne!(once, stamp_pdf_author(bytes, "other"));
}
