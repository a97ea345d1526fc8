//! Render parameters and the mapping to the per-format extraction
//! options. Lengths that the browser takes as fractional inches are
//! carried as hundredths, so "8.5" is 850.
use vstd::prelude::*;
use crate::error::{Error, SERVICE_UNAVAILABLE};
use crate::numstr::{
    spec_run_end, spec_digits_val, spec_digit_val, spec_is_digit, run_end, long_digits_val,
    lemma_run_end_props,
};
use crate::strutil::{str_eq, eq_ignore_case, spec_lower, spec_find_char, find_char};

verus! {

broadcast use vstd::string::group_string_axioms;

/// The script that rewrites every anchor before a PDF render when
/// links are disabled.
pub const JS_DISABLE_LINKS: &'static str = "document.querySelectorAll('a').forEach((el) => el.setAttribute('href', '#'))";

/// The script that extracts the page's visible text.
pub const JS_INNER_TEXT: &'static str = "document.documentElement? document.documentElement.innerText:''";

pub const CONTENT_TYPE_PDF: &'static str = "application/pdf";

pub const CONTENT_TYPE_TEXT: &'static str = "plain/text";

pub const CONTENT_TYPE_HTML: &'static str = "text/html";

/// Everything a render request may carry. All fields but the URL are
/// optional; fractional lengths are hundredths.
pub struct RenderParams {
    pub url: String,
    pub file_name: Option<String>,
    pub timeout: Option<u64>,
    pub wait_load: Option<u64>,
    pub wait_selector: Option<String>,
    pub wait_images: Option<bool>,
    pub wait_network_idle: Option<u64>,
    pub wait_page_ready: Option<bool>,
    pub scroll_bottom: Option<u64>,
    pub scroll_interval: Option<u64>,
    pub paper_width: Option<i64>,
    pub paper_height: Option<i64>,
    pub scale: Option<i64>,
    pub margin_top: Option<i64>,
    pub margin_bottom: Option<i64>,
    pub margin_left: Option<i64>,
    pub margin_right: Option<i64>,
    pub print_background: Option<bool>,
    pub landscape: Option<bool>,
    pub page_ranges: Option<String>,
    pub emulating_device: Option<String>,
    pub disable_link: Option<bool>,
    pub paper_size: Option<String>,
    pub header_template: Option<String>,
    pub footer_template: Option<String>,
    pub format: Option<String>,
    pub quality: Option<i64>,
    pub clip: Option<String>,
    pub full_page: Option<bool>,
    pub author: Option<String>,
}

/// What print-to-PDF is invoked with; lengths in hundredths of an
/// inch, scale in hundredths.
pub struct PdfOptions {
    pub paper_width: Option<i64>,
    pub paper_height: Option<i64>,
    pub scale: Option<i64>,
    pub margin_top: Option<i64>,
    pub margin_bottom: Option<i64>,
    pub margin_left: Option<i64>,
    pub margin_right: Option<i64>,
    pub print_background: Option<bool>,
    pub landscape: Option<bool>,
    pub page_ranges: Option<String>,
    pub display_header_footer: Option<bool>,
    pub header_template: Option<String>,
    pub footer_template: Option<String>,
}

/// The paper table: named sizes in hundredths of an inch; any unknown
/// or absent name means A4. The name is matched case-insensitively.
pub fn paper_dimensions(name: &str) -> (r: (i64, i64))
    ensures
        spec_lower(name@) == "a3"@ ==> r.0 == 1169 && r.1 == 1654,
        spec_lower(name@) == "a5"@ ==> r.0 == 583 && r.1 == 827,
        spec_lower(name@) == "legal"@ ==> r.0 == 850 && r.1 == 1400,
        spec_lower(name@) == "letter"@ ==> r.0 == 850 && r.1 == 1100,
        !(spec_lower(name@) == "a3"@ || spec_lower(name@) == "a5"@ || spec_lower(name@)
            == "legal"@ || spec_lower(name@) == "letter"@) ==> r.0 == 827 && r.1 == 1169,
{
    proof {
        reveal_strlit("a3");
        reveal_strlit("a5");
        reveal_strlit("legal");
        reveal_strlit("letter");
        assert("a3"@.len() == 2 && "a3"@[1] == '3');
        assert("a5"@.len() == 2 && "a5"@[1] == '5');
        assert("legal"@.len() == 5 && "legal"@[1] == 'e');
        assert("letter"@.len() == 6);
        assert(spec_lower("a3"@) =~= "a3"@);
        assert(spec_lower("a5"@) =~= "a5"@);
        assert(spec_lower("legal"@) =~= "legal"@);
        assert(spec_lower("letter"@) =~= "letter"@);
    }
    if eq_ignore_case(name, "a3") {
        (1169, 1654)
    } else if eq_ignore_case(name, "a5") {
        (583, 827)
    } else if eq_ignore_case(name, "legal") {
        (850, 1400)
    } else if eq_ignore_case(name, "letter") {
        (850, 1100)
    } else {
        (827, 1169)
    }
}

impl RenderParams {
    /// Map the request to print-to-PDF options. The `paper` name sets
    /// table defaults, but the explicit width and height override them
    /// unconditionally — present or absent — so what the request
    /// carries is what the browser sees. A header or footer template
    /// switches header/footer display on by its mere presence.
    pub fn to_pdf_options(self) -> (r: PdfOptions)
        ensures
            r.paper_width == self.paper_width,
            r.paper_height == self.paper_height,
            r.scale == self.scale,
            r.margin_top == self.margin_top,
            r.margin_bottom == self.margin_bottom,
            r.margin_left == self.margin_left,
            r.margin_right == self.margin_right,
            r.print_background == self.print_background,
            r.landscape == self.landscape,
            r.page_ranges == self.page_ranges,
            r.display_header_footer == if self.header_template is Some || self.footer_template
                is Some {
                Some(true)
            } else {
                None::<bool>
            },
            r.header_template == self.header_template,
            r.footer_template == self.footer_template,
    {
        let paper = match &self.paper_size {
            Some(p) => paper_dimensions(p.as_str()),
            None => paper_dimensions(""),
        };
        let mut opts = PdfOptions {
            paper_width: Some(paper.0),
            paper_height: Some(paper.1),
            scale: self.scale,
            margin_top: self.margin_top,
            margin_bottom: self.margin_bottom,
            margin_left: self.margin_left,
            margin_right: self.margin_right,
            print_background: self.print_background,
            landscape: self.landscape,
            page_ranges: self.page_ranges,
            display_header_footer: None,
            header_template: None,
            footer_template: None,
        };
        opts.paper_width = self.paper_width;
        opts.paper_height = self.paper_height;
        if self.header_template.is_some() {
            opts.display_header_footer = Some(true);
            opts.header_template = self.header_template;
        }
        if self.footer_template.is_some() {
            opts.display_header_footer = Some(true);
            opts.footer_template = self.footer_template;
        }
        opts
    }
}

#[derive(Clone, Copy, Debug, PartialEq, Eq, Structural)]
pub enum ImageFormat {
    Png,
    Jpeg,
    Webp,
}

/// A screenshot clip rectangle, in hundredths.
#[derive(Clone, Copy, Debug, PartialEq, Eq, Structural)]
pub struct ClipRect {
    pub x: i64,
    pub y: i64,
    pub width: i64,
    pub height: i64,
}

/// What a screenshot is captured with.
pub struct ScreenshotOptions {
    pub format: ImageFormat,
    pub quality: i64,
    pub full_page: bool,
    pub clip: Option<ClipRect>,
}

/// The value of a decimal literal with an optional sign and fraction,
/// in hundredths (fraction digits beyond the second are dropped); the
/// integer part holds at most nine digits.
pub open spec fn spec_parse_dec(s: Seq<char>) -> Option<int> {
    if s.len() == 0 {
        None
    } else {
        let neg = s[0] == '-';
        let b = if neg {
            s.drop_first()
        } else {
            s
        };
        let e = spec_run_end(b, 0);
        if e == 0 || e > 9 {
            None
        } else {
            let ip = spec_digits_val(b.subrange(0, e));
            if e == b.len() {
                Some(
                    if neg {
                        -(ip * 100)
                    } else {
                        ip * 100
                    },
                )
            } else if b[e] == '.' && spec_run_end(b, e + 1) == b.len() {
                let d1 = if b.len() > e + 1 {
                    spec_digit_val(b[e + 1])
                } else {
                    0
                };
                let d2 = if b.len() > e + 2 {
                    spec_digit_val(b[e + 2])
                } else {
                    0
                };
                let v = ip * 100 + d1 * 10 + d2;
                Some(
                    if neg {
                        -v
                    } else {
                        v
                    },
                )
            } else {
                None
            }
        }
    }
}

/// Parse one decimal literal into hundredths.
pub fn parse_dec(s: &str) -> (r: Option<i64>)
    ensures
        ({
            match spec_parse_dec(s@) {
                Some(v) => r == Some(v as i64) && r->Some_0 == v,
                None => r is None,
            }
        }),
{
    let n = s.unicode_len();
    if n == 0 {
        return None;
    }
    let neg = s.get_char(0) == '-';
    let off: usize = if neg {
        1
    } else {
        0
    };
    let ghost b = if neg {
        s@.drop_first()
    } else {
        s@
    };
    let e = run_end(s, off);
    proof {
        lemma_run_end_props(s@, off as int);
        if neg {
            lemma_run_end_shift_one(s@, 1);
            assert(spec_run_end(b, 0) == e - off);
        }
        assert(b.len() == n - off);
    }
    let dcount = e - off;
    if dcount == 0 || dcount > 9 {
        return None;
    }
    let ip = long_digits_val(s, off, e);
    proof {
        assert(s@.subrange(off as int, e as int) =~= b.subrange(0, (e - off) as int));
        crate::numstr::lemma_digits_val_bound(s@.subrange(off as int, e as int));
        crate::numstr::lemma_pow10_values();
        crate::numstr::lemma_pow10_monotone(((e - off)) as nat, 9);
    }
    let v100: i64 = (ip as i64) * 100;
    if e == n {
        return Some(
            if neg {
                -v100
            } else {
                v100
            },
        );
    }
    proof {
        if neg {
            assert(b[(e - off) as int] == s@[e as int]);
        }
    }
    if s.get_char(e) != '.' {
        return None;
    }
    let f = run_end(s, e + 1);
    proof {
        lemma_run_end_props(s@, e + 1);
        if neg {
            lemma_run_end_shift_one(s@, e + 1);
            assert(spec_run_end(b, (e - off) + 1) == f - off);
        }
    }
    if f != n {
        return None;
    }
    let d1: i64 = if n > e + 1 {
        proof {
            if neg {
                assert(b[(e - off) + 1] == s@[e + 1]);
            }
        }
        crate::numstr::digit_val(s.get_char(e + 1)) as i64
    } else {
        0
    };
    let d2: i64 = if n > e + 2 {
        proof {
            if neg {
                assert(b[(e - off) + 2] == s@[e + 2]);
            }
        }
        crate::numstr::digit_val(s.get_char(e + 2)) as i64
    } else {
        0
    };
    let v = v100 + d1 * 10 + d2;
    Some(
        if neg {
            -v
        } else {
            v
        },
    )
}

/// Digit runs shift with the string: the run seen from index `i` of
/// the full string is the run seen from `i - 1` of its tail.
proof fn lemma_run_end_shift_one(s: Seq<char>, i: int)
    requires
        1 <= i <= s.len(),
    ensures
        spec_run_end(s, i) - 1 == spec_run_end(s.drop_first(), i - 1),
    decreases s.len() - i,
{
    if i < s.len() && spec_is_digit(s[i]) {
        lemma_run_end_shift_one(s, i + 1);
    }
}

/// The clip parameter "x,y,width,height": comma-separated decimals,
/// missing trailing parts counting as zero, parts beyond the fourth
/// ignored.
pub open spec fn spec_parse_clip(s: Seq<char>) -> Option<(int, int, int, int)> {
    let n = s.len() as int;
    let k1 = spec_find_char(s, 0, ',');
    let x = spec_parse_dec(s.subrange(0, k1));
    if x is None {
        None
    } else if k1 >= n {
        Some((x->Some_0, 0, 0, 0))
    } else {
        let k2 = spec_find_char(s, k1 + 1, ',');
        let y = spec_parse_dec(s.subrange(k1 + 1, k2));
        if y is None {
            None
        } else if k2 >= n {
            Some((x->Some_0, y->Some_0, 0, 0))
        } else {
            let k3 = spec_find_char(s, k2 + 1, ',');
            let z = spec_parse_dec(s.subrange(k2 + 1, k3));
            if z is None {
                None
            } else if k3 >= n {
                Some((x->Some_0, y->Some_0, z->Some_0, 0))
            } else {
                let k4 = spec_find_char(s, k3 + 1, ',');
                let w = spec_parse_dec(s.subrange(k3 + 1, k4));
                if w is None {
                    None
                } else {
                    Some((x->Some_0, y->Some_0, z->Some_0, w->Some_0))
                }
            }
        }
    }
}

/// Parse the clip parameter.
pub fn parse_clip(s: &str) -> (r: Option<ClipRect>)
    ensures
        ({
            match spec_parse_clip(s@) {
                Some(c) => r matches Some(rc) && rc.x == c.0 && rc.y == c.1 && rc.width == c.2
                    && rc.height == c.3,
                None => r is None,
            }
        }),
{
    let n = s.unicode_len();
    let k1 = find_char(s, 0, ',');
    let x = match parse_dec(s.substring_char(0, k1)) {
        Some(v) => v,
        None => {
            return None;
        },
    };
    if k1 >= n {
        return Some(ClipRect { x, y: 0, width: 0, height: 0 });
    }
    let k2 = find_char(s, k1 + 1, ',');
    let y = match parse_dec(s.substring_char(k1 + 1, k2)) {
        Some(v) => v,
        None => {
            return None;
        },
    };
    if k2 >= n {
        return Some(ClipRect { x, y, width: 0, height: 0 });
    }
    let k3 = find_char(s, k2 + 1, ',');
    let width = match parse_dec(s.substring_char(k2 + 1, k3)) {
        Some(v) => v,
        None => {
            return None;
        },
    };
    if k3 >= n {
        return Some(ClipRect { x, y, width, height: 0 });
    }
    let k4 = find_char(s, k3 + 1, ',');
    let height = match parse_dec(s.substring_char(k3 + 1, k4)) {
        Some(v) => v,
        None => {
            return None;
        },
    };
    Some(ClipRect { x, y, width, height })
}

impl RenderParams {
    /// Map the request to screenshot options: the format falls back to
    /// PNG for anything but the three known names, quality to 0,
    /// full-page to off; the clip string must parse where present.
    pub fn to_screenshot_options(&self) -> (r: ScreenshotOptions)
        requires
            self.clip matches Some(c) ==> spec_parse_clip(c@) is Some,
        ensures
            r.format == ({
                if self.format matches Some(f) && f@ == "jpeg"@ {
                    ImageFormat::Jpeg
                } else if self.format matches Some(f) && f@ == "webp"@ {
                    ImageFormat::Webp
                } else {
                    ImageFormat::Png
                }
            }),
            r.quality == if self.quality is Some {
                self.quality->Some_0 as int
            } else {
                0
            },
            r.full_page == (self.full_page == Some(true)),
            self.clip is None ==> r.clip is None,
            self.clip matches Some(c) ==> (r.clip matches Some(rc) && {
                let p = spec_parse_clip(c@)->Some_0;
                rc.x == p.0 && rc.y == p.1 && rc.width == p.2 && rc.height == p.3
            }),
    {
        let format = match &self.format {
            Some(f) => {
                if str_eq(f.as_str(), "jpeg") {
                    ImageFormat::Jpeg
                } else if str_eq(f.as_str(), "webp") {
                    ImageFormat::Webp
                } else {
                    ImageFormat::Png
                }
            },
            None => ImageFormat::Png,
        };
        let clip = match &self.clip {
            Some(c) => parse_clip(c.as_str()),
            None => None,
        };
        let quality = match self.quality {
            Some(q) => q,
            None => 0,
        };
        let full_page = self.full_page == Some(true);
        ScreenshotOptions { format, quality, full_page, clip }
    }
}

/// Why a render was aborted before the extractor finished.
pub enum RenderAbort {
    HandlerExit,
    SessionCancel,
    DeadlineExpired,
}

/// The error reported for an aborted render: 503 with the short
/// diagnostic of the branch that won the race.
pub fn race_error(abort: RenderAbort) -> (r: Error)
    ensures
        r.status_code == SERVICE_UNAVAILABLE,
        abort is HandlerExit ==> r.message@ == "handler exit"@,
        abort is SessionCancel ==> r.message@ == "session cancel"@,
        abort is DeadlineExpired ==> r.message@ == "timeout"@,
{
    match abort {
        RenderAbort::HandlerExit => Error::new(SERVICE_UNAVAILABLE, "handler exit"),
        RenderAbort::SessionCancel => Error::new(SERVICE_UNAVAILABLE, "session cancel"),
        RenderAbort::DeadlineExpired => Error::new(SERVICE_UNAVAILABLE, "timeout"),
    }
}

/// The PDF author: the request's, else the configured default, else
/// "Browserlify".
pub fn pick_author(params_author: &Option<String>, state_author: &Option<String>) -> (r: String)
    ensures
        params_author matches Some(a) ==> r@ == a@,
        params_author is None ==> (state_author matches Some(a) ==> r@ == a@),
        params_author is None && state_author is None ==> r@ == "Browserlify"@,
{
    match params_author {
        Some(a) => a.clone(),
        None => match state_author {
            Some(a) => a.clone(),
            None => "Browserlify".to_owned(),
        },
    }
}

/// The attachment name of a PDF: the forced name, or `<host>.pdf`.
pub fn pdf_file_name(file_name: &Option<String>, host: &str) -> (r: String)
    ensures
        file_name matches Some(n) ==> r@ == n@,
        file_name is None ==> r@ == host@ + ".pdf"@,
{
    match file_name {
        Some(n) => n.clone(),
        None => host.to_owned().concat(".pdf"),
    }
}

/// The file extension of a screenshot: the requested format name as
/// given, or "png".
pub fn screenshot_ext(format: &Option<String>) -> (r: String)
    ensures
        format matches Some(f) ==> r@ == f@,
        format is None ==> r@ == "png"@,
{
    match format {
        Some(f) => f.clone(),
        None => "png".to_owned(),
    }
}

/// The attachment name of a screenshot: the forced name, or
/// `<host>.<ext>`.
pub fn screenshot_file_name(file_name: &Option<String>, host: &str, ext: &str) -> (r: String)
    ensures
        file_name matches Some(n) ==> r@ == n@,
        file_name is None ==> r@ == host@ + "."@ + ext@,
{
    match file_name {
        Some(n) => n.clone(),
        None => host.to_owned().concat(".").concat(ext),
    }
}

/// The content type of a screenshot: `image/<ext>`.
pub fn image_content_type(ext: &str) -> (r: String)
    ensures
        r@ == "image/"@ + ext@,
{
    "image/".to_owned().concat(ext)
}

/// A finished render, ready to be sent: status, content type, an
/// optional attachment disposition, and the body.
pub struct RenderResponse {
    pub status: u16,
    pub content_type: String,
    pub content_disposition: Option<String>,
    pub body: Vec<u8>,
}

/// Assemble the successful response: 200, the extractor's content
/// type, and — when a file name is known — an attachment disposition
/// around it.
pub fn build_render_response(content: Vec<u8>, content_type: String, file_name: Option<String>) -> (r:
    RenderResponse)
    ensures
        r.status == 200,
        r.content_type == content_type,
        r.body == content,
        file_name is None ==> r.content_disposition is None,
        file_name matches Some(n) ==> (r.content_disposition matches Some(d) && d@
            == "attachment; filename=\""@ + n@ + "\""@),
{
    let content_disposition = match file_name {
        Some(n) => Some(
            "attachment; filename=\"".to_owned().concat(n.as_str()).concat("\""),
        ),
        None => None,
    };
    RenderResponse { status: 200, content_type, content_disposition, body: content }
}

/// The assembled PDF bytes when the stamping pipeline produced them,
/// else the renderer's bytes unchanged.
pub fn choose_pdf_bytes(original: Vec<u8>, edited: Option<Vec<u8>>) -> (r: Vec<u8>)
    ensures
        edited matches Some(v) ==> r == v,
        edited is None ==> r == original,
{
    match edited {
        Some(v) => v,
        None => original,
    }
}

/// What re-serializing a PDF with an Info dictionary whose Author is
/// the given string yields, or nothing when the PDF library cannot
/// read or write the bytes; the bytes and the author alone determine
/// it.
pub uninterp spec fn pdf_stamped(bytes: Seq<u8>, author: Seq<char>) -> Option<Seq<u8>>;

/// Relies on lopdf's Document::load_mem, Dictionary, Object and
/// Document::save_to: parse the PDF, attach an Info dictionary whose
/// Author is the author's byte string, point the trailer at it, and
/// re-serialize; bytes that cannot be read or written yield nothing.
#[verifier::external_body]
fn pdf_stamp(content: &Vec<u8>, author: &str) -> (r: Option<Vec<u8>>)
    ensures
        ({
            match pdf_stamped(content@, author@) {
                Some(v) => r matches Some(out) && out@ == v,
                None => r is None,
            }
        }),
{
    let mut doc = lopdf::Document::load_mem(content.as_slice()).ok()?;
    let mut info = lopdf::Dictionary::new();
    info.set(
        "Author",
        lopdf::Object::String(author.as_bytes().to_vec(), lopdf::StringFormat::Literal),
    );
    let value = doc.add_object(lopdf::Object::Dictionary(info));
    doc.trailer.set("Info", value);
    let mut out: Vec<u8> = Vec::new();
    doc.save_to(&mut out).ok()?;
    Some(out)
}

/// Stamp the author into a rendered PDF: the re-serialized document
/// with the Info/Author dictionary attached, or — when the PDF
/// library cannot read or write the bytes — the renderer's bytes
/// unchanged, never an error.
pub fn stamp_pdf_author(content: Vec<u8>, author: &str) -> (r: Vec<u8>)
    ensures
        r@ == (match pdf_stamped(content@, author@) {
            Some(v) => v,
            None => content@,
        }),
{
    let edited = pdf_stamp(&content, author);
    choose_pdf_bytes(content, edited)
}

} // verus!
