use wui::Error;
use wui::button::Button;
use wui::dc::Dc;
use wui::dll::get_module_handle;
use wui::paint::WndPaint;
use wui::text::text_len_arg;
use wui::text::text_out_outcome;
use wui::traits::AsRaw;
use wui::traits::TryDrop;
use wui::util::ResId;
use wui::util::Shared;
use wui::util::WCString;
use wui::wnd::CW_USEDEFAULT;
use wui::wnd::Wnd;
use wui::wnd::WndStyle;
use wui::wnd::WS_OVERLAPPEDWINDOW;
use wui::wnd_class::WndClass;
use wui::wnd_class::usize_2_int;

fn wide(s: &str) -> Vec<u16> {
    let mut v: Vec<u16> = s.encode_utf16().collect();
    v.push(0);
    v
}

#[test]
fn wide_string_encoding() {
    assert_eq!(WCString::from_str("ab").as_ptr(), &[0x61, 0x62, 0][..]);
    assert_eq!(WCString::from_str("").as_ptr(), &[0][..]);
    assert_eq!(WCString::from_str("\u{20AC}").as_ptr(), &[0x20AC, 0][..]);
    assert_eq!(
        WCString::from_str("\u{10437}").as_ptr(),
        &[0xD801, 0xDC37, 0][..]
    );
    assert_eq!(WCString::from_str("naive").len(), 6);
}

#[test]
fn window_builder_fills_every_field() {
    let params = Wnd::new()
        .class_name("MyClass")
        .window_name("Title")
        .style(WndStyle::from_bits_truncate(WS_OVERLAPPEDWINDOW))
        .x(10)
        .y(20)
        .width(300)
        .height(200)
        .button_id(9)
        .create();
    assert_eq!(params.ex_style, 0);
    assert_eq!(params.style, WS_OVERLAPPEDWINDOW);
    assert_eq!(params.x, 10);
    assert_eq!(params.y, 20);
    assert_eq!(params.width, 300);
    assert_eq!(params.height, 200);
    assert_eq!(params.wnd_parent, 0);
    assert_eq!(params.menu, 9);
    assert_eq!(params.param, 0);
    assert_eq!(params.window_name.as_ptr(), &wide("Title")[..]);
    let (id, instance) = params.class_id.unpack();
    assert_eq!(instance, 0);
    match id {
        ResId::Name(units) => assert_eq!(units, wide("MyClass")),
        ResId::Ordinal(_) => panic!("expected a class name"),
    }
}

#[test]
fn window_builder_defaults_let_the_system_choose() {
    let params = Wnd::new()
        .class_name("C")
        .window_name("W")
        .style(WndStyle::empty())
        .create();
    assert_eq!(params.x, CW_USEDEFAULT);
    assert_eq!(params.y, CW_USEDEFAULT);
    assert_eq!(params.width, CW_USEDEFAULT);
    assert_eq!(params.height, CW_USEDEFAULT);
}

#[test]
fn window_builder_reports_missing_fields_in_order() {
    match Wnd::new().try_create() {
        Err(Error::Other(m)) => assert_eq!(m, "missing class_name"),
        _ => panic!("expected the missing-field error"),
    }
    match Wnd::new().class_name("C").try_create() {
        Err(Error::Other(m)) => assert_eq!(m, "missing window_name"),
        _ => panic!("expected the missing-field error"),
    }
    match Wnd::new().class_name("C").window_name("W").try_create() {
        Err(Error::Other(m)) => assert_eq!(m, "missing style"),
        _ => panic!("expected the missing-field error"),
    }
    assert!(
        Wnd::new()
            .class_name("C")
            .window_name("W")
            .style(WndStyle::empty())
            .try_create()
            .is_ok()
    );
}

#[test]
fn class_builder_fills_the_record() {
    let params = WndClass::new()
        .wnd_proc(0x1234)
        .instance(0x10)
        .class_name("Hello")
        .register()
        .unwrap();
    assert_eq!(params.style, 0);
    assert_eq!(params.wnd_proc, 0x1234);
    assert_eq!(params.cls_extra, 0);
    assert_eq!(params.wnd_extra, 0);
    assert_eq!(params.instance, 0x10);
    assert_eq!(params.icon, 0);
    assert_eq!(params.cursor, 0);
    assert_eq!(params.background, 0);
    assert_eq!(params.menu_name, 0);
    assert_eq!(params.icon_sm, 0);
    assert_eq!(params.class_name.as_ptr(), &wide("Hello")[..]);
}

#[test]
fn class_builder_reports_missing_fields_in_order() {
    match WndClass::new().try_register() {
        Err(Error::Other(m)) => assert_eq!(m, "missing wnd_class"),
        _ => panic!("expected the missing-field error"),
    }
    match WndClass::new().wnd_proc(1).try_register() {
        Err(Error::Other(m)) => assert_eq!(m, "missing instance"),
        _ => panic!("expected the missing-field error"),
    }
    match WndClass::new().wnd_proc(1).instance(2).try_register() {
        Err(Error::Other(m)) => assert_eq!(m, "missing class_name"),
        _ => panic!("expected the missing-field error"),
    }
}

#[test]
fn class_registration_decodes() {
    match WndClass::register_raw(0, 5, 17) {
        Err(Error::Os(code)) => assert_eq!(code, 17),
        _ => panic!("expected the platform error"),
    }
    let c = WndClass::register_raw(0xC001, 5, 0).unwrap();
    let call = c.try_drop();
    assert_eq!(call.atom, 0xC001);
    assert_eq!(call.instance, 5);
}

#[test]
fn registered_class_names_a_window() {
    let c = WndClass::register_raw(0xC002, 7, 0).unwrap();
    let params = Wnd::new()
        .class_name(&c)
        .window_name("W")
        .style(WndStyle::empty())
        .create();
    let (id, instance) = params.class_id.unpack();
    assert_eq!(instance, 7);
    match id {
        ResId::Ordinal(atom) => assert_eq!(atom, 0xC002),
        ResId::Name(_) => panic!("expected the class atom"),
    }
}

#[test]
fn button_preset_targets_the_button_class() {
    let parent = Wnd::create_raw(0x500, 0).unwrap();
    let b = Button::new(&parent, 101);
    assert_eq!(b.wnd_parent, Some(0x500));
    assert_eq!(b.menu, Some(101));
    match b.class_name {
        Some(id) => {
            let (res, instance) = id.unpack();
            assert_eq!(instance, 0);
            match res {
                ResId::Name(units) => assert_eq!(units, wide("BUTTON")),
                ResId::Ordinal(_) => panic!("expected the class name"),
            }
        },
        None => panic!("expected the button class"),
    }
}

#[test]
fn extra_bytes_conversion_bounds() {
    assert_eq!(usize_2_int(0).unwrap(), 0);
    assert_eq!(usize_2_int(0x7FFF_FFFF).unwrap(), 0x7FFF_FFFF);
    assert!(usize_2_int(0x8000_0000).is_err());
}

#[test]
fn module_handle_decodes() {
    match get_module_handle(0, 2) {
        Err(Error::Os(code)) => assert_eq!(code, 2),
        _ => panic!("expected the platform error"),
    }
    assert_eq!(get_module_handle(0x400000, 0).unwrap(), 0x400000);
}

#[test]
fn paint_session_yields_its_device_context() {
    match WndPaint::begin_paint(1, 0, 7) {
        Err(Error::Os(code)) => assert_eq!(code, 7),
        _ => panic!("expected the platform error"),
    }
    let p = WndPaint::begin_paint(1, 99, 0).unwrap();
    assert_eq!(p.dc().as_raw(), 99);
    assert_eq!(p.wnd(), 1);
    assert_eq!(Dc::from_raw_dc(4).as_raw(), 4);
}

#[test]
fn resource_id_ordinal_accessor() {
    let id = ResId::Ordinal(32512);
    assert_eq!(id.ordinal(), Some(32512));
    let name = ResId::Name(wide("X"));
    assert_eq!(name.ordinal(), None);
}

#[test]
fn text_length_argument_saturates() {
    assert_eq!(text_len_arg(5), 5);
    assert_eq!(text_len_arg(0x7FFF_FFFF), 0x7FFF_FFFF);
    assert_eq!(text_len_arg(0x8000_0000), 0x7FFF_FFFF);
    match text_out_outcome(0) {
        Err(Error::Other(m)) => assert_eq!(m, "TextOutW failed"),
        _ => panic!("expected the constructed message"),
    }
    assert!(text_out_outcome(1).is_ok());
}

#[test]
fn shared_tag_truth_value() {
    assert!(Shared::Yes.to_bool());
    assert!(!Shared::No.to_bool());
}
