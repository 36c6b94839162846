use wui::Error;
use wui::brush::Color;
use wui::dialog::MessageBoxResult;
use wui::dialog::message_box_outcome;
use wui::msg::LoopStep;
use wui::msg::Msg;
use wui::msg::WM_COMMAND;
use wui::msg::WM_QUIT;
use wui::msg::get_message_args;
use wui::msg::get_message_outcome;
use wui::msg::loop_step;
use wui::msg::register_window_message;
use wui::wnd::Show;
use wui::wnd::WasVisible;
use wui::wnd::show_outcome;
use wui::wnd::update_outcome;
use wui::wnd::get_window_long_ptr;
use wui::wnd::set_window_long_ptr;
use wui::wnd_proc::WmCommand;
use wui::wnd_proc::wm_command;

fn msg_with(message: u32, w_param: usize, l_param: isize) -> Msg {
    Msg { wnd: 0, message, w_param, l_param, time: 0, pt_x: 0, pt_y: 0 }
}

#[test]
fn menu_command_has_zero_words() {
    assert_eq!(wm_command(7, 0), WmCommand::Menu { id: 7 });
}

#[test]
fn button_click_shares_the_zero_high_word() {
    assert_eq!(
        wm_command(7, 0x2468),
        WmCommand::Control { code: 0, id: 7, ctl_wnd: 0x2468 }
    );
}

#[test]
fn accelerator_ignores_the_control_handle() {
    assert_eq!(wm_command(0x0001_0003, 0), WmCommand::Accelerator { id: 3 });
    assert_eq!(wm_command(0x0001_0003, 55), WmCommand::Accelerator { id: 3 });
}

#[test]
fn control_notification_decodes_both_words() {
    assert_eq!(
        wm_command(0x0003_0009, 0x1000),
        WmCommand::Control { code: 3, id: 9, ctl_wnd: 0x1000 }
    );
}

#[test]
fn quit_message_exits_with_carried_code() {
    let quit = msg_with(WM_QUIT, 3, 0);
    assert_eq!(loop_step(&quit), LoopStep::ExitProcess(3));
}

#[test]
fn ordinary_message_is_dispatched() {
    let m = msg_with(WM_COMMAND, 1, 2);
    assert_eq!(loop_step(&m), LoopStep::Dispatch);
}

#[test]
fn fetch_arguments_default_to_zero() {
    assert_eq!(get_message_args(None, None), (0, 0, 0));
    assert_eq!(get_message_args(Some(5), Some((10, 20))), (5, 10, 20));
}

#[test]
fn fetch_failure_is_minus_one() {
    let m = msg_with(WM_QUIT, 0, 0);
    match get_message_outcome(-1, m, 6) {
        Err(Error::Os(code)) => assert_eq!(code, 6),
        _ => panic!("expected the platform error"),
    }
    assert_eq!(get_message_outcome(0, m, 6).unwrap(), m);
    assert_eq!(get_message_outcome(1, m, 6).unwrap(), m);
}

#[test]
fn message_registration_decodes() {
    match register_window_message(0, 13) {
        Err(Error::Os(code)) => assert_eq!(code, 13),
        _ => panic!("expected the platform error"),
    }
    assert_eq!(register_window_message(0xC042, 0).unwrap(), 0xC042);
}

#[test]
fn show_repertoire_round_trips() {
    assert_eq!(Show::ShowDefault.into_repr(), 10);
    assert_eq!(Show::Hide.into_repr(), 0);
    assert_eq!(Show::try_from_repr(10), Some(Show::ShowDefault));
    assert_eq!(Show::try_from_repr(12), None);
    assert_eq!(Show::try_from_repr(-1), None);
}

#[test]
fn show_and_update_outcomes() {
    assert_eq!(show_outcome(0), WasVisible::No);
    assert_eq!(show_outcome(1), WasVisible::Yes);
    assert!(update_outcome(1, 0).is_ok());
    match update_outcome(0, 44) {
        Err(Error::Os(code)) => assert_eq!(code, 44),
        _ => panic!("expected the platform error"),
    }
}

#[test]
fn window_data_outcomes() {
    assert_eq!(get_window_long_ptr(0, 0).unwrap(), 0);
    match get_window_long_ptr(0, 3) {
        Err(Error::Os(code)) => assert_eq!(code, 3),
        _ => panic!("expected the platform error"),
    }
    assert_eq!(get_window_long_ptr(640, 0).unwrap(), 640);
    assert_eq!(set_window_long_ptr(640, 7).unwrap(), 640);
}

#[test]
fn message_box_result_repertoire() {
    assert_eq!(MessageBoxResult::try_from_repr(6), Some(MessageBoxResult::Yes));
    assert_eq!(MessageBoxResult::try_from_repr(1), Some(MessageBoxResult::Okay));
    assert_eq!(MessageBoxResult::try_from_repr(8), None);
    assert_eq!(MessageBoxResult::try_from_repr(11), Some(MessageBoxResult::Continue));
}

#[test]
fn message_box_outcomes() {
    match message_box_outcome(0, 5) {
        Err(Error::Os(code)) => assert_eq!(code, 5),
        _ => panic!("expected the platform error"),
    }
    match message_box_outcome(9, 0) {
        Err(Error::Other(m)) => assert_eq!(m, "unexpected result"),
        _ => panic!("expected the unexpected-result error"),
    }
    assert_eq!(message_box_outcome(7, 0).unwrap(), MessageBoxResult::No);
}

#[test]
fn error_messages_describe_both_variants() {
    assert_eq!(Error::Os(5).message(), "os error 5");
    assert!(Error::Os(5).is_os());
    let e = Error::Other("broken".to_string());
    assert_eq!(e.message(), "broken");
    assert!(!e.is_os());
}

#[test]
fn color_repertoire() {
    assert_eq!(Color::BtnFace.into_repr(), 15);
    assert_eq!(Color::MenuBar.into_repr(), 30);
    assert_eq!(Color::try_from_repr(15), Some(Color::BtnFace));
    assert_eq!(Color::try_from_repr(25), None);
    assert_eq!(Color::try_from_repr(26), Some(Color::Hotlight));
    assert_eq!(Color::try_from_repr(31), None);
}
