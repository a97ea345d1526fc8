use browserlify::headless::make_headless_session;
use browserlify::remote::{
    apply_remote_edit, browser_binary, connect_endpoint, desktop_name, display_arg,
    expire_stamp_due, homepage_or_default, initial_remote_info, make_remote_session, mark_running,
    missing_binary_error, parse_endpoint_addr, parse_screen_dimensions, plan_screen, remote_dir,
    remote_browser_args, remote_browser_env, remote_file_path, scrot_args, screen_or_default,
    session_option_from_info, singleton_paths, start_remote_check, vnc_endpoint, x11vnc_args,
    x11vnc_log_path, xvfb_args, CreateRemoteParams, ScreenPlan, DEFAULT_BROWSER, DEFAULT_HOMEPAGE,
    DEFAULT_SCREEN, REMOTE_SUFFIX,
};
use browserlify::session::{AppState, SessionOption};

#[test]
fn screen_geometry_parse() {
    assert_eq!(parse_screen_dimensions("1200x900x24"), (1200, 900));
    assert_eq!(parse_screen_dimensions("800x600"), (800, 600));
    assert_eq!(parse_screen_dimensions("abc"), (1200, 900));
    assert_eq!(parse_screen_dimensions(""), (1200, 900));
    assert_eq!(parse_screen_dimensions("axb"), (1200, 900));
    assert_eq!(parse_screen_dimensions("1a2x3"), (2, 3));
    assert_eq!(parse_screen_dimensions("0008x0006"), (8, 6));
    // an oversized number falls back to the default
    assert_eq!(parse_screen_dimensions("99999999999x2"), (1200, 900));
    assert_eq!(parse_screen_dimensions("12x"), (1200, 900));
    assert_eq!(DEFAULT_SCREEN, "1200x900x24");
}

#[test]
fn command_lines() {
    let args = xvfb_args(":100".to_string(), "1200x900x24".to_string());
    assert_eq!(args, vec![":100", "-nolisten", "tcp", "-screen", "scrn", "1200x900x24"]);
    let args = x11vnc_args(
        ":100".to_string(),
        "/tmp/d/x11vnc.log".to_string(),
        5901,
        "mydesk".to_string(),
    );
    assert_eq!(
        args,
        vec![
            "-noxdamage", "-display", ":100", "-nopw", "-forever", "-shared", "-o",
            "/tmp/d/x11vnc.log", "-listen", "localhost", "-rfbport", "5901", "-desktop", "mydesk"
        ]
    );
    let args = remote_browser_args("/tmp/d", 1200, 900, "https://example.com".to_string());
    assert_eq!(args[0], "--user-data-dir=/tmp/d");
    assert_eq!(args[10], "--window-size=1200,900");
    assert_eq!(args[11], "https://example.com");
    assert_eq!(args.len(), 12);
    let args = scrot_args(50, "/tmp/shot.png".to_string());
    assert_eq!(args, vec!["-t", "50", "/tmp/shot.png"]);
    assert_eq!(display_arg(101), ":101");
}

#[test]
fn environment_layout() {
    let env = remote_browser_env(
        ":100".to_string(),
        &Some("en_US.UTF-8".to_string()),
        &Some("UTC".to_string()),
        &Some("http://proxy:3128".to_string()),
    );
    assert_eq!(env.len(), 5);
    assert_eq!(env[0], ("DISPLAY".to_string(), ":100".to_string()));
    assert_eq!(env[1], ("LC_CTYPE".to_string(), "en_US.UTF-8".to_string()));
    assert_eq!(env[2], ("TZ".to_string(), "UTC".to_string()));
    assert_eq!(env[3], ("http_proxy".to_string(), "http://proxy:3128".to_string()));
    assert_eq!(env[4], ("https_proxy".to_string(), "http://proxy:3128".to_string()));
    let env = remote_browser_env(":7".to_string(), &None, &None, &None);
    assert_eq!(env.len(), 1);
}

#[test]
fn endpoints() {
    assert_eq!(vnc_endpoint(5900), "vnc://127.0.0.1:5900");
    assert_eq!(
        parse_endpoint_addr("vnc://127.0.0.1:5900"),
        Some(("127.0.0.1".to_string(), 5900))
    );
    assert_eq!(
        parse_endpoint_addr("ws://localhost:9222"),
        Some(("localhost".to_string(), 9222))
    );
    assert_eq!(parse_endpoint_addr("vnc://127.0.0.1"), None);
    assert_eq!(parse_endpoint_addr("vnc://127.0.0.1:"), None);
    assert_eq!(parse_endpoint_addr("vnc://127.0.0.1:99999"), None);
    assert_eq!(parse_endpoint_addr("nonsense"), None);
}

#[test]
fn paths_and_defaults() {
    assert_eq!(remote_dir("/tmp/root/", "abc"), "/tmp/root/abc");
    assert_eq!(remote_file_path("/tmp/root/abc"), "/tmp/root/abc/.remote.json");
    assert_eq!(REMOTE_SUFFIX, ".remote.json");
    assert_eq!(x11vnc_log_path("/tmp/root/abc"), "/tmp/root/abc/x11vnc.log");
    let s = singleton_paths("/tmp/root/abc");
    assert_eq!(
        s,
        vec![
            "/tmp/root/abc/SingletonCookie",
            "/tmp/root/abc/SingletonLock",
            "/tmp/root/abc/SingletonSocket"
        ]
    );
    assert_eq!(browser_binary(&None), DEFAULT_BROWSER);
    assert_eq!(browser_binary(&Some("firefox".to_string())), "firefox");
    assert_eq!(homepage_or_default(&None), DEFAULT_HOMEPAGE);
    assert_eq!(screen_or_default(&None), "1200x900x24");
    assert_eq!(desktop_name(&Some("nice".to_string()), "id1"), "nice");
    assert_eq!(desktop_name(&None, "id1"), "id1");
    let e = missing_binary_error("x11vnc");
    assert_eq!((e.status_code, e.message.as_str()), (502, "x11vnc is required"));
}

#[test]
fn remote_info_lifecycle() {
    let params = CreateRemoteParams {
        id: Some("r1".to_string()),
        name: Some("desk".to_string()),
        homepage: None,
        http_proxy: None,
    };
    let mut info = initial_remote_info("r1".to_string(), params, "2024-03-19T07:30:14+00:00".to_string());
    assert_eq!(info.id, "r1");
    assert_eq!(info.name.as_deref(), Some("desk"));
    assert!(info.screen.is_none() && info.binary.is_none());
    let edit = CreateRemoteParams {
        id: None,
        name: None,
        homepage: Some("https://example.com".to_string()),
        http_proxy: Some("http://p:1".to_string()),
    };
    apply_remote_edit(&mut info, edit);
    assert_eq!(info.name.as_deref(), Some("desk"));
    assert_eq!(info.homepage.as_deref(), Some("https://example.com"));
    assert_eq!(info.http_proxy.as_deref(), Some("http://p:1"));

    let opt = session_option_from_info(
        "r1".to_string(),
        info,
        "/tmp/root/r1".to_string(),
        Some("C".to_string()),
        None,
    );
    assert_eq!(opt.id, "r1");
    assert_eq!(opt.data_dir, "/tmp/root/r1");
    assert_eq!(opt.homepage.as_deref(), Some("https://example.com"));
    assert_eq!(opt.lc_ctype.as_deref(), Some("C"));
}

#[test]
fn expiry_stamp() {
    let stamp = "2024-03-19T07:30:14.970638011+00:00";
    let t = chrono::DateTime::parse_from_rfc3339(stamp).unwrap().timestamp();
    assert!(expire_stamp_due(stamp, t + 1));
    assert!(!expire_stamp_due(stamp, t));
    assert!(!expire_stamp_due(stamp, t - 100));
    assert!(!expire_stamp_due("not a stamp", i64::MAX));
    // the stamp is taken verbatim: the caller trims the file's text
    assert!(!expire_stamp_due("  2024-03-19T07:30:14.970638011+00:00\n", t + 1));
}

#[test]
fn registry_interactions() {
    let mut st = AppState::new("/tmp/root".to_string(), 0);
    assert!(start_remote_check(&st, "r1").is_ok());
    let e = connect_endpoint(&st, "r1").unwrap_err();
    assert_eq!((e.status_code, e.message.as_str()), (502, "session is shutdown"));
    let e = plan_screen(&st, "r1", None).unwrap_err();
    assert_eq!((e.status_code, e.message.as_str()), (502, "session not found"));

    let s = make_remote_session(
        "r1".to_string(),
        "/tmp/root/r1".to_string(),
        vnc_endpoint(5900),
        100,
        None,
        7,
    );
    assert!(!s.cleanup);
    assert_eq!(s.display_num, Some(100));
    st.admit_insert(s).unwrap();

    let e = start_remote_check(&st, "r1").unwrap_err();
    assert_eq!(e.message, "session is shutdown");
    assert_eq!(connect_endpoint(&st, "r1").unwrap(), "vnc://127.0.0.1:5900");
    match plan_screen(&st, "r1", None).unwrap() {
        ScreenPlan::Scrot(display, pct) => {
            assert_eq!(display, 100);
            assert_eq!(pct, 50);
        }
        _ => panic!("expected a scrot plan"),
    }
    match plan_screen(&st, "r1", Some(25)).unwrap() {
        ScreenPlan::Scrot(_, pct) => assert_eq!(pct, 25),
        _ => panic!("expected a scrot plan"),
    }

    let opt = SessionOption::default();
    let h = make_headless_session(
        "h1".to_string(),
        "/tmp/root/h1".to_string(),
        "ws://127.0.0.1:9222/x".to_string(),
        &opt,
        None,
        None,
        7,
    );
    st.admit_insert(h).unwrap();
    match plan_screen(&st, "h1", None).unwrap() {
        ScreenPlan::Devtools(ep) => assert_eq!(ep, "ws://127.0.0.1:9222/x"),
        _ => panic!("expected a devtools plan"),
    }

    let infos = vec![
        initial_remote_info(
            "r1".to_string(),
            CreateRemoteParams { id: None, name: None, homepage: None, http_proxy: None },
            "now".to_string(),
        ),
        initial_remote_info(
            "r2".to_string(),
            CreateRemoteParams { id: None, name: None, homepage: None, http_proxy: None },
            "now".to_string(),
        ),
    ];
    let marked = mark_running(&st, infos);
    assert_eq!(marked.len(), 2);
    assert!(marked[0].running);
    assert!(!marked[1].running);
}
