use wui::button::ButtonStyle;
use wui::button::BS_NOTIFY;
use wui::dialog::MessageBoxType;
use wui::dialog::MB_OKCANCEL;
use wui::dialog::MB_ICONERROR;
use wui::static_::StaticStyle;
use wui::static_::SS_NOTIFY;
use wui::static_::SS_SUNKEN;
use wui::wnd::WndStyle;
use wui::wnd::WS_BORDER;
use wui::wnd::WS_CAPTION;
use wui::wnd::WS_OVERLAPPEDWINDOW;
use wui::wnd::WS_VISIBLE;
use wui::wnd_class::WndClassStyle;
use wui::wnd_class::CS_HREDRAW;
use wui::wnd_class::CS_VREDRAW;

#[test]
fn union_holds_both_sides() {
    let a = WndStyle::from_bits(WS_BORDER).unwrap();
    let b = WndStyle::from_bits(WS_VISIBLE).unwrap();
    let u = a.union(b);
    assert_eq!(u.bits(), WS_BORDER | WS_VISIBLE);
    assert!(u.contains(a));
    assert!(u.contains(b));
    assert!(WndStyle::all().contains(u));
}

#[test]
fn intersection_is_common_bits() {
    let a = WndStyle::from_bits_truncate(WS_BORDER | WS_VISIBLE);
    let b = WndStyle::from_bits_truncate(WS_VISIBLE | WS_CAPTION);
    assert_eq!(a.intersection(b).bits(), WS_VISIBLE | (WS_BORDER & WS_CAPTION));
    assert!(a.intersects(b));
}

#[test]
fn difference_is_and_not() {
    let a = WndStyle::from_bits_truncate(WS_BORDER | WS_VISIBLE);
    let b = WndStyle::from_bits_truncate(WS_VISIBLE);
    assert_eq!(a.difference(b), a.intersection(b.complement()));
    assert_eq!(a.difference(b).bits(), WS_BORDER & !WS_VISIBLE);
}

#[test]
fn double_complement_is_identity() {
    let a = WndStyle::from_bits_truncate(WS_OVERLAPPEDWINDOW | WS_VISIBLE);
    assert_eq!(a.complement().complement(), a);
    let c = WndClassStyle::from_bits_truncate(CS_HREDRAW | CS_VREDRAW);
    assert_eq!(c.complement().complement(), c);
}

#[test]
fn truncate_and_complement_cover_all() {
    let x = 0xDEAD_BEEFu32;
    let left = WndStyle::from_bits_truncate(x);
    let right = WndStyle::from_bits_truncate(!x);
    assert_eq!(left.union(right), WndStyle::all());
    let bl = ButtonStyle::from_bits_truncate(x);
    let br = ButtonStyle::from_bits_truncate(!x);
    assert_eq!(bl.union(br), ButtonStyle::all());
}

#[test]
fn round_trip_through_bits() {
    let a = WndStyle::from_bits_truncate(WS_OVERLAPPEDWINDOW);
    assert_eq!(WndStyle::from_bits(a.bits()), Some(a));
    let m = MessageBoxType::from_bits(MB_OKCANCEL | MB_ICONERROR).unwrap();
    assert_eq!(MessageBoxType::from_bits(m.bits()), Some(m));
    let s = StaticStyle::from_bits(SS_NOTIFY | SS_SUNKEN).unwrap();
    assert_eq!(StaticStyle::from_bits(s.bits()), Some(s));
}

#[test]
fn from_bits_rejects_unknown_bits() {
    assert_eq!(WndStyle::from_bits(0x0000_0001), None);
    assert_eq!(ButtonStyle::from_bits(0x0001_0000), None);
    assert_eq!(MessageBoxType::from_bits(0x0040_0000), None);
    assert!(WndStyle::from_bits(WS_CAPTION).is_some());
}

#[test]
fn from_bits_truncate_stays_in_mask() {
    let t = ButtonStyle::from_bits_truncate(0xFFFF_FFFF);
    assert_eq!(t, ButtonStyle::all());
    assert_eq!(WndStyle::from_bits_truncate(0x0000_FFFF).bits(), 0);
}

#[test]
fn in_place_edits() {
    let mut a = WndStyle::empty();
    let b = WndStyle::from_bits_truncate(WS_BORDER);
    let v = WndStyle::from_bits_truncate(WS_VISIBLE);
    a.insert(b);
    a.insert(v);
    assert_eq!(a.bits(), WS_BORDER | WS_VISIBLE);
    a.remove(b);
    assert_eq!(a.bits(), WS_VISIBLE);
    a.toggle(v);
    assert!(a.is_empty());
    a.toggle(v);
    assert_eq!(a, v);
}

#[test]
fn empty_and_all_extremes() {
    assert!(WndStyle::empty().is_empty());
    assert!(WndStyle::all().is_all());
    assert!(!WndStyle::all().is_empty());
    assert_eq!(ButtonStyle::empty().symmetric_difference(ButtonStyle::all()), ButtonStyle::all());
    let n = ButtonStyle::from_bits_truncate(BS_NOTIFY);
    assert_eq!(ButtonStyle::all().symmetric_difference(n).union(n), ButtonStyle::all());
}
