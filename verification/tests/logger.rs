use nsuite::ncommon::logger::{effective_log_path, LoggerState, DEFAULT_LOG_PATH};
use nsuite::ncommon::symbol::{lookup_symbol_addr, CachedSymbol};

#[test]
fn init_records_path_and_outcome() {
    let mut l = LoggerState::new();
    assert_eq!(l.current_file_path(), None);
    assert!(!l.init_default(false));
    assert_eq!(l.current_file_path().as_deref(), Some(DEFAULT_LOG_PATH));
    assert!(l.init(Some("sd:/other.log"), true));
    assert_eq!(l.current_file_path().as_deref(), Some("sd:/other.log"));
    assert_eq!(effective_log_path(None), "sd:/ssbusync.log");
    assert_eq!(effective_log_path(Some("x")), "x");
}

#[test]
fn log_outputs() {
    let mut l = LoggerState::new();
    let out = l.log("hi");
    assert_eq!(out.file, None);
    assert_eq!(out.tcp.as_deref(), Some(&b"hi"[..]));
    l.init(None, true);
    let out = l.log("hi");
    assert_eq!(out.file.as_deref(), Some(&b"hi"[..]));
    let out = l.log_line("hi");
    assert_eq!(out.file.as_deref(), Some(&b"hi\n"[..]));
    assert_eq!(out.tcp.as_deref(), Some(&b"hi\n"[..]));
    let out = l.write_c_string_line(b"abc");
    assert_eq!(out.file.as_deref(), Some(&b"abc\n"[..]));
    assert_eq!(out.tcp.as_deref(), Some(&b"abc\n"[..]));
    let out = l.write_c_string_line(&[0xff, 0x41]);
    assert_eq!(out.file.as_deref(), Some(&[0xff, 0x41, 0x0a][..]));
    assert_eq!(out.tcp, None);
}

#[test]
fn mirroring_decisions() {
    let mut l = LoggerState::new();
    assert!(l.should_mirror_message("[nsuite][gpu] hello"));
    assert!(l.should_mirror_message("x [nsuite]"));
    assert!(!l.should_mirror_message("[nsuit] hello"));
    assert!(!l.should_mirror_message(""));
    assert!(l.should_mirror_raw(b"[nsuite] raw"));
    assert!(!l.should_mirror_raw(b"other"));
    assert!(!l.should_mirror_raw(&[0xff, 0xfe]));
    assert!(!l.should_mirror_raw(b""));
    l.set_mirror_all_plugins(true);
    assert!(l.mirror_all_plugins());
    assert!(l.should_mirror_message("other"));
    assert!(l.should_mirror_raw(&[0xff, 0xfe]));
    assert!(!l.should_mirror_raw(b""));
}

#[test]
fn hook_install_outcome() {
    let mut l = LoggerState::new();
    assert!(!l.finish_log_hook_install(0));
    assert!(!l.global_skyline_log_hook_installed());
    assert!(l.finish_log_hook_install(0x1234));
    assert!(l.global_skyline_log_hook_installed());
    assert!(l.finish_log_hook_install(0));
}

#[test]
fn utf8_decoding() {
    let l = LoggerState::new();
    let ok = l.write_c_string_line(b"ok");
    assert_eq!(ok.tcp, Some(b"ok\n".to_vec()));
    let bad = l.write_c_string_line(&[0xc3, 0x28]);
    assert_eq!(bad.tcp, None);
    assert_eq!(bad.file, None);
}

#[test]
fn symbol_cache() {
    assert_eq!(lookup_symbol_addr(0, 0x10), Some(0x10));
    assert_eq!(lookup_symbol_addr(1, 0x10), None);
    assert_eq!(lookup_symbol_addr(0, 0), None);
    let mut s = CachedSymbol::new(b"malloc\0");
    assert_eq!(s.symbol(), b"malloc\0");
    assert!(!s.is_initialized());
    assert_eq!(s.get(), None);
    assert!(!s.init(None));
    assert_eq!(s.address(), 0);
    assert!(!s.init(Some(0)));
    assert!(!s.is_initialized());
    assert!(s.init(Some(0x4000)));
    assert!(s.is_initialized());
    assert_eq!(s.get(), Some(0x4000));
    assert_eq!(s.address(), 0x4000);
    assert!(!s.init(Some(0)));
    assert_eq!(s.address(), 0x4000);
}
