//! Static catalog of emulation profiles: viewport geometry, user agent,
//! touch and mobile flags, and device pixel ratio, keyed by a short name.
use vstd::prelude::*;
use crate::strutil::str_eq;

verus! {

broadcast use vstd::string::group_string_axioms;

pub const UA_MAC: &'static str = "Mozilla/5.0 (Macintosh; Intel Mac OS X 11_0_0) AppleWebKit/537.36 (KHTML, like Gecko) Chrome/87.0.4280.88 Safari/537.36";

pub const UA_IPHONE: &'static str = "Mozilla/5.0 (iPhone; CPU iPhone OS 13_2_3 like Mac OS X) AppleWebKit/605.1.15 (KHTML, like Gecko) Version/13.0.3 Mobile/15E148 Safari/604.1";

pub const UA_IPHONE_15: &'static str = "Mozilla/5.0 (iPhone; CPU iPhone OS 15_0 like Mac OS X) AppleWebKit/605.1.15 (KHTML, like Gecko) Version/15.0 Mobile/15E148 Safari/604.1";

pub const UA_IPAD: &'static str = "Mozilla/5.0 (iPad; CPU OS 11_0 like Mac OS X) AppleWebKit/604.1.34 (KHTML, like Gecko) Version/11.0 Mobile/15A5341f Safari/604.1";

pub const UA_NEXUS_10: &'static str = "Mozilla/5.0 (Linux; Android 6.0.1; Nexus 10 Build/MOB31T) AppleWebKit/537.36 (KHTML, like Gecko) Chrome/%s Safari/537.36";

pub const UA_SURFACE_DUO: &'static str = "Mozilla/5.0 (Linux; Android 8.0; Pixel 2 Build/OPD3.170816.012) AppleWebKit/537.36 (KHTML, like Gecko) Chrome/%s Mobile Safari/537.36";

pub const UA_GALAXY_NOTE_3: &'static str = "Mozilla/5.0 (Linux; U; Android 4.3; en-us; SM-N900T Build/JSS15J) AppleWebKit/534.30 (KHTML, like Gecko) Version/4.0 Mobile Safari/534.30";

#[derive(Clone, Copy, Debug, PartialEq, Eq, Structural)]
pub struct ScreenSize {
    pub width: u32,
    pub height: u32,
}

#[derive(Clone, Copy, Debug, PartialEq, Eq, Structural)]
pub struct DeviceScreen {
    pub device_pixel_ratio: u32,
    pub horizontal: ScreenSize,
    pub vertical: ScreenSize,
}

#[derive(Debug)]
pub struct Device {
    pub title: String,
    pub has_touch: bool,
    pub emulating_mobile: bool,
    pub user_agent: String,
    pub accept_language: String,
    pub screen: DeviceScreen,
}

impl Clone for Device {
    fn clone(&self) -> (r: Self)
        ensures
            spec_device_eq(r, *self),
    {
        Device {
            title: self.title.clone(),
            has_touch: self.has_touch,
            emulating_mobile: self.emulating_mobile,
            user_agent: self.user_agent.clone(),
            accept_language: self.accept_language.clone(),
            screen: self.screen,
        }
    }
}

/// Equal observable content: same text in every string field and the
/// same flags and geometry.
pub open spec fn spec_device_eq(a: Device, b: Device) -> bool {
    &&& a.title@ == b.title@
    &&& a.has_touch == b.has_touch
    &&& a.emulating_mobile == b.emulating_mobile
    &&& a.user_agent@ == b.user_agent@
    &&& a.accept_language@ == b.accept_language@
    &&& a.screen == b.screen
}

/// The emulation viewport handed to the browser when a device profile
/// is applied.
#[derive(Clone, Copy, Debug, PartialEq, Eq, Structural)]
pub struct Viewport {
    pub width: u32,
    pub height: u32,
    pub device_scale_factor: Option<u32>,
    pub emulating_mobile: bool,
    pub has_touch: bool,
    pub is_landscape: bool,
}

/// The viewport that `d` yields for the requested orientation.
pub open spec fn spec_viewport(d: Device, landscape: bool) -> Viewport {
    Viewport {
        width: if landscape {
            d.screen.horizontal.width
        } else {
            d.screen.vertical.width
        },
        height: if landscape {
            d.screen.horizontal.height
        } else {
            d.screen.vertical.height
        },
        device_scale_factor: Some(d.screen.device_pixel_ratio),
        emulating_mobile: d.emulating_mobile,
        has_touch: d.has_touch,
        is_landscape: landscape,
    }
}

impl Device {
    pub fn new(
        title: String,
        has_touch: bool,
        emulating_mobile: bool,
        user_agent: String,
        accept_language: String,
        screen: DeviceScreen,
    ) -> (r: Self)
        ensures
            r.title == title,
            r.has_touch == has_touch,
            r.emulating_mobile == emulating_mobile,
            r.user_agent == user_agent,
            r.accept_language == accept_language,
            r.screen == screen,
    {
        Self { title, has_touch, emulating_mobile, user_agent, accept_language, screen }
    }

    /// The viewport for the requested orientation: horizontal geometry
    /// when landscape, vertical otherwise.
    pub fn get_viewport(&self, landscape: bool) -> (r: Viewport)
        ensures
            r == spec_viewport(*self, landscape),
    {
        let (width, height) = if landscape {
            (self.screen.horizontal.width, self.screen.horizontal.height)
        } else {
            (self.screen.vertical.width, self.screen.vertical.height)
        };
        Viewport {
            width,
            height,
            device_scale_factor: Some(self.screen.device_pixel_ratio),
            emulating_mobile: self.emulating_mobile,
            has_touch: self.has_touch,
            is_landscape: landscape,
        }
    }
}

/// The profile `d` carries exactly this title, user agent, flags and
/// geometry (accept-language is "en" throughout the catalog).
pub open spec fn device_is(
    d: Device,
    title: Seq<char>,
    ua: Seq<char>,
    touch: bool,
    mobile: bool,
    dpr: u32,
    hw: u32,
    hh: u32,
    vw: u32,
    vh: u32,
) -> bool {
    &&& d.title@ == title
    &&& d.user_agent@ == ua
    &&& d.accept_language@ == "en"@
    &&& d.has_touch == touch
    &&& d.emulating_mobile == mobile
    &&& d.screen.device_pixel_ratio == dpr
    &&& d.screen.horizontal == (ScreenSize { width: hw, height: hh })
    &&& d.screen.vertical == (ScreenSize { width: vw, height: vh })
}

/// The catalog names, as a predicate.
pub open spec fn spec_known_device(n: Seq<char>) -> bool {
    ||| n == "laptop-touch"@
    ||| n == "laptop-hidpi"@
    ||| n == "laptop-mdpi"@
    ||| n == "wide-hidpi"@
    ||| n == "laptop-1920"@
    ||| n == "4k"@
    ||| n == "iphone-6-7-8"@
    ||| n == "iphone-6-7-8-plus"@
    ||| n == "iphone-x"@
    ||| n == "iphone-13"@
    ||| n == "ipad-mini"@
    ||| n == "ipad"@
    ||| n == "ipad-pro"@
    ||| n == "nexus-10"@
    ||| n == "surface-duo"@
    ||| n == "galaxy-note-3"@
}

fn make_device(
    title: &str,
    has_touch: bool,
    emulating_mobile: bool,
    user_agent: &str,
    dpr: u32,
    hw: u32,
    hh: u32,
    vw: u32,
    vh: u32,
) -> (r: Device)
    ensures
        device_is(r, title@, user_agent@, has_touch, emulating_mobile, dpr, hw, hh, vw, vh),
{
    Device {
        title: title.to_owned(),
        has_touch,
        emulating_mobile,
        user_agent: user_agent.to_owned(),
        accept_language: "en".to_owned(),
        screen: DeviceScreen {
            device_pixel_ratio: dpr,
            horizontal: ScreenSize { width: hw, height: hh },
            vertical: ScreenSize { width: vw, height: vh },
        },
    }
}

/// The catalog lookup: a known name yields its profile, any other name
/// yields no device (no emulation is applied).
pub fn get_device(name: &str) -> (r: Option<Device>)
    ensures
        r is Some <==> spec_known_device(name@),
        name@ == "laptop-touch"@ ==> device_is(r->Some_0, "Laptop with touch"@, UA_MAC@, true, false, 1, 1280, 950, 950, 1280),
        name@ == "laptop-hidpi"@ ==> device_is(r->Some_0, "Laptop with HiDPI screen"@, UA_MAC@, false, false, 2, 1440, 900, 900, 1440),
        name@ == "laptop-mdpi"@ ==> device_is(r->Some_0, "Laptop with MDPI screen"@, UA_MAC@, false, false, 1, 1280, 800, 800, 1280),
        name@ == "wide-hidpi"@ ==> device_is(r->Some_0, "HiDPI Widescreen 2560 x 1440"@, UA_MAC@, false, false, 2, 2560, 1440, 1440, 2560),
        name@ == "laptop-1920"@ ==> device_is(r->Some_0, "HiDPI Laptop 1920 x 1080"@, UA_MAC@, false, false, 2, 1920, 1080, 1080, 1920),
        name@ == "4k"@ ==> device_is(r->Some_0, "4K Laptop 1920 x 1080"@, UA_MAC@, false, false, 3, 1920, 1080, 1080, 1920),
        name@ == "iphone-6-7-8"@ ==> device_is(r->Some_0, "iPhone 6/7/8"@, UA_IPHONE@, true, true, 2, 667, 375, 375, 667),
        name@ == "iphone-6-7-8-plus"@ ==> device_is(r->Some_0, "iPhone 6/7/8 Plus"@, UA_IPHONE@, true, true, 3, 736, 414, 414, 736),
        name@ == "iphone-x"@ ==> device_is(r->Some_0, "iPhone X"@, UA_IPHONE@, true, true, 3, 812, 375, 375, 812),
        name@ == "iphone-13"@ ==> device_is(r->Some_0, "iPhone 13"@, UA_IPHONE_15@, true, true, 3, 844, 390, 390, 844),
        name@ == "ipad-mini"@ ==> device_is(r->Some_0, "iPad Mini"@, UA_IPAD@, true, true, 2, 1024, 768, 768, 1024),
        name@ == "ipad"@ ==> device_is(r->Some_0, "iPad"@, UA_IPAD@, true, true, 2, 1024, 768, 768, 1024),
        name@ == "ipad-pro"@ ==> device_is(r->Some_0, "iPad Pro"@, UA_IPAD@, true, true, 2, 1366, 1024, 1024, 1366),
        name@ == "nexus-10"@ ==> device_is(r->Some_0, "Nexus 10"@, UA_NEXUS_10@, true, true, 2, 1280, 800, 800, 1280),
        name@ == "surface-duo"@ ==> device_is(r->Some_0, "Surface Duo"@, UA_SURFACE_DUO@, true, true, 2, 720, 540, 540, 720),
        name@ == "galaxy-note-3"@ ==> device_is(r->Some_0, "Galaxy Note 3"@, UA_GALAXY_NOTE_3@, true, true, 3, 640, 360, 360, 640),
{
    proof {
        reveal_strlit("laptop-touch");
        reveal_strlit("laptop-hidpi");
        reveal_strlit("laptop-mdpi");
        reveal_strlit("wide-hidpi");
        reveal_strlit("laptop-1920");
        reveal_strlit("4k");
        reveal_strlit("iphone-6-7-8");
        reveal_strlit("iphone-6-7-8-plus");
        reveal_strlit("iphone-x");
        reveal_strlit("iphone-13");
        reveal_strlit("ipad-mini");
        reveal_strlit("ipad");
        reveal_strlit("ipad-pro");
        reveal_strlit("nexus-10");
        reveal_strlit("surface-duo");
        reveal_strlit("galaxy-note-3");
        assert("laptop-touch"@.len() == 12 && "laptop-touch"@[0] == 'l' && "laptop-touch"@[7] == 't');
        assert("laptop-hidpi"@.len() == 12 && "laptop-hidpi"@[0] == 'l' && "laptop-hidpi"@[7] == 'h');
        assert("laptop-mdpi"@.len() == 11 && "laptop-mdpi"@[0] == 'l' && "laptop-mdpi"@[7] == 'm');
        assert("wide-hidpi"@.len() == 10);
        assert("laptop-1920"@.len() == 11 && "laptop-1920"@[0] == 'l' && "laptop-1920"@[7] == '1');
        assert("4k"@.len() == 2);
        assert("iphone-6-7-8"@.len() == 12 && "iphone-6-7-8"@[0] == 'i');
        assert("iphone-6-7-8-plus"@.len() == 17);
        assert("iphone-x"@.len() == 8 && "iphone-x"@[0] == 'i' && "iphone-x"@[2] == 'h');
        assert("iphone-13"@.len() == 9 && "iphone-13"@[2] == 'h');
        assert("ipad-mini"@.len() == 9 && "ipad-mini"@[2] == 'a');
        assert("ipad"@.len() == 4);
        assert("ipad-pro"@.len() == 8 && "ipad-pro"@[0] == 'i' && "ipad-pro"@[2] == 'a');
        assert("nexus-10"@.len() == 8 && "nexus-10"@[0] == 'n');
        assert("surface-duo"@.len() == 11 && "surface-duo"@[0] == 's');
        assert("galaxy-note-3"@.len() == 13);
    }
    if str_eq(name, "laptop-touch") {
        Some(make_device("Laptop with touch", true, false, UA_MAC, 1, 1280, 950, 950, 1280))
    } else if str_eq(name, "laptop-hidpi") {
        Some(make_device("Laptop with HiDPI screen", false, false, UA_MAC, 2, 1440, 900, 900, 1440))
    } else if str_eq(name, "laptop-mdpi") {
        Some(make_device("Laptop with MDPI screen", false, false, UA_MAC, 1, 1280, 800, 800, 1280))
    } else if str_eq(name, "wide-hidpi") {
        Some(make_device("HiDPI Widescreen 2560 x 1440", false, false, UA_MAC, 2, 2560, 1440, 1440, 2560))
    } else if str_eq(name, "laptop-1920") {
        Some(make_device("HiDPI Laptop 1920 x 1080", false, false, UA_MAC, 2, 1920, 1080, 1080, 1920))
    } else if str_eq(name, "4k") {
        Some(make_device("4K Laptop 1920 x 1080", false, false, UA_MAC, 3, 1920, 1080, 1080, 1920))
    } else if str_eq(name, "iphone-6-7-8") {
        Some(make_device("iPhone 6/7/8", true, true, UA_IPHONE, 2, 667, 375, 375, 667))
    } else if str_eq(name, "iphone-6-7-8-plus") {
        Some(make_device("iPhone 6/7/8 Plus", true, true, UA_IPHONE, 3, 736, 414, 414, 736))
    } else if str_eq(name, "iphone-x") {
        Some(make_device("iPhone X", true, true, UA_IPHONE, 3, 812, 375, 375, 812))
    } else if str_eq(name, "iphone-13") {
        Some(make_device("iPhone 13", true, true, UA_IPHONE_15, 3, 844, 390, 390, 844))
    } else if str_eq(name, "ipad-mini") {
        Some(make_device("iPad Mini", true, true, UA_IPAD, 2, 1024, 768, 768, 1024))
    } else if str_eq(name, "ipad") {
        Some(make_device("iPad", true, true, UA_IPAD, 2, 1024, 768, 768, 1024))
    } else if str_eq(name, "ipad-pro") {
        Some(make_device("iPad Pro", true, true, UA_IPAD, 2, 1366, 1024, 1024, 1366))
    } else if str_eq(name, "nexus-10") {
        Some(make_device("Nexus 10", true, true, UA_NEXUS_10, 2, 1280, 800, 800, 1280))
    } else if str_eq(name, "surface-duo") {
        Some(make_device("Surface Duo", true, true, UA_SURFACE_DUO, 2, 720, 540, 540, 720))
    } else if str_eq(name, "galaxy-note-3") {
        Some(make_device("Galaxy Note 3", true, true, UA_GALAXY_NOTE_3, 3, 640, 360, 360, 640))
    } else {
        None
    }
}

} // verus!
