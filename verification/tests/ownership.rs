use wui::Error;
use wui::brush::Brush;
use wui::cursor::Cursor;
use wui::handle::DisposeAction;
use wui::handle::Handle;
use wui::handle::teardown_outcome;
use wui::icon::Icon;
use wui::text::Font;
use wui::text::font_teardown_outcome;
use wui::traits::AsRaw;
use wui::traits::FromRaw;
use wui::traits::IntoRaw;
use wui::traits::TryDrop;
use wui::wnd::Wnd;

#[test]
fn release_disarms_the_destructor() {
    let mut h = Handle::acquired(5, false);
    assert_eq!(h.as_raw(), 5);
    assert_eq!(h.release(), 5);
    assert_eq!(h.dispose(), DisposeAction::Skip);
}

#[test]
fn owned_handle_is_destroyed_once() {
    let mut h = Handle::acquired(9, false);
    assert_eq!(h.dispose(), DisposeAction::Destroy(9));
    assert_eq!(h.dispose(), DisposeAction::Skip);
}

#[test]
fn shared_handle_never_destroyed() {
    let mut h = Handle::acquired(7, true);
    assert_eq!(h.dispose(), DisposeAction::Skip);
}

#[test]
fn shared_cursor_skips_destroy() {
    let c = Cursor::load(42, 0).unwrap();
    assert_eq!(c.try_drop(), DisposeAction::Skip);
}

#[test]
fn shared_icon_skips_destroy() {
    let i = Icon::load(43, 0).unwrap();
    assert_eq!(i.try_drop(), DisposeAction::Skip);
}

#[test]
fn cursor_load_failure_carries_error_code() {
    match Cursor::load(0, 120) {
        Err(Error::Os(code)) => assert_eq!(code, 120),
        _ => panic!("expected the platform error"),
    }
}

#[test]
fn icon_load_failure_carries_error_code() {
    match Icon::load(0, 7) {
        Err(Error::Os(code)) => assert_eq!(code, 7),
        _ => panic!("expected the platform error"),
    }
}

#[test]
fn owned_brush_reports_destroy() {
    let b = Brush::get_sys_color(42, 0).unwrap();
    assert_eq!(b.as_raw(), 42);
    assert_eq!(b.try_drop(), DisposeAction::Destroy(42));
}

#[test]
fn released_brush_destroys_nothing() {
    let b = Brush::get_sys_color(42, 0).unwrap();
    assert_eq!(b.into_raw(), 42);
}

#[test]
fn brush_failure_carries_error_code() {
    match Brush::get_sys_color(0, 8) {
        Err(Error::Os(code)) => assert_eq!(code, 8),
        _ => panic!("expected the platform error"),
    }
}

#[test]
fn teardown_outcomes() {
    assert!(teardown_outcome(DisposeAction::Skip, 0, 99).is_ok());
    assert!(teardown_outcome(DisposeAction::Destroy(4), 1, 99).is_ok());
    match teardown_outcome(DisposeAction::Destroy(4), 0, 99) {
        Err(Error::Os(code)) => assert_eq!(code, 99),
        _ => panic!("expected the platform error"),
    }
}

#[test]
fn font_lifecycle() {
    match Font::create(0) {
        Err(Error::Other(m)) => assert_eq!(m, "CreateFontIndirectW failed"),
        _ => panic!("expected the constructed message"),
    }
    let f = Font::create(11).unwrap();
    assert_eq!(f.as_raw(), 11);
    assert_eq!(f.try_drop(), DisposeAction::Destroy(11));
    let g = Font::from_raw(12);
    assert_eq!(g.as_raw(), 12);
    match font_teardown_outcome(DisposeAction::Destroy(12), 0) {
        Err(Error::Other(m)) => assert_eq!(m, "DeleteObject on font failed"),
        _ => panic!("expected the constructed message"),
    }
    assert!(font_teardown_outcome(DisposeAction::Skip, 0).is_ok());
}

#[test]
fn window_creation_decodes() {
    match Wnd::create_raw(0, 31) {
        Err(Error::Os(code)) => assert_eq!(code, 31),
        _ => panic!("expected the platform error"),
    }
    let w = Wnd::create_raw(77, 0).unwrap();
    assert_eq!(w.as_raw(), 77);
    assert_eq!(w.try_drop(), DisposeAction::Destroy(77));
}
