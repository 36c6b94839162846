//! Brushes and the system color repertoire.

use vstd::prelude::*;

use crate::Error;
use crate::last_error;
use crate::handle::DisposeAction;
use crate::handle::Handle;
use crate::traits::AsRaw;
use crate::traits::IntoRaw;
use crate::traits::TryDrop;

verus! {

/// The system colors a brush can be asked for.
#[derive(Debug, Clone, Copy, PartialEq, Eq, Structural)]
pub enum Color {
    ScrollBar,
    Background,
    ActiveCaption,
    InactiveCaption,
    Menu,
    Window,
    WindowFrame,
    MenuText,
    WindowText,
    CaptionText,
    ActiveBorder,
    InactiveBorder,
    AppWorkspace,
    Highlight,
    HighlightText,
    BtnFace,
    BtnShadow,
    GrayText,
    BtnText,
    InactiveCaptionText,
    BtnHighlight,
    ThreeDDkShadow,
    ThreeDLight,
    InfoText,
    InfoBk,
    Hotlight,
    GradientActiveCaption,
    GradientInactiveCaption,
    MenuHilight,
    MenuBar,
}

impl Color {
    /// The native numeric index of this color.
    pub open spec fn spec_repr(self) -> i32 {
        match self {
            Color::ScrollBar => 0,
            Color::Background => 1,
            Color::ActiveCaption => 2,
            Color::InactiveCaption => 3,
            Color::Menu => 4,
            Color::Window => 5,
            Color::WindowFrame => 6,
            Color::MenuText => 7,
            Color::WindowText => 8,
            Color::CaptionText => 9,
            Color::ActiveBorder => 10,
            Color::InactiveBorder => 11,
            Color::AppWorkspace => 12,
            Color::Highlight => 13,
            Color::HighlightText => 14,
            Color::BtnFace => 15,
            Color::BtnShadow => 16,
            Color::GrayText => 17,
            Color::BtnText => 18,
            Color::InactiveCaptionText => 19,
            Color::BtnHighlight => 20,
            Color::ThreeDDkShadow => 21,
            Color::ThreeDLight => 22,
            Color::InfoText => 23,
            Color::InfoBk => 24,
            Color::Hotlight => 26,
            Color::GradientActiveCaption => 27,
            Color::GradientInactiveCaption => 28,
            Color::MenuHilight => 29,
            Color::MenuBar => 30,
        }
    }

    /// Converts to the native numeric index.
    pub fn into_repr(self) -> (r: i32)
        ensures
            r == self.spec_repr(),
    {
        match self {
            Color::ScrollBar => 0,
            Color::Background => 1,
            Color::ActiveCaption => 2,
            Color::InactiveCaption => 3,
            Color::Menu => 4,
            Color::Window => 5,
            Color::WindowFrame => 6,
            Color::MenuText => 7,
            Color::WindowText => 8,
            Color::CaptionText => 9,
            Color::ActiveBorder => 10,
            Color::InactiveBorder => 11,
            Color::AppWorkspace => 12,
            Color::Highlight => 13,
            Color::HighlightText => 14,
            Color::BtnFace => 15,
            Color::BtnShadow => 16,
            Color::GrayText => 17,
            Color::BtnText => 18,
            Color::InactiveCaptionText => 19,
            Color::BtnHighlight => 20,
            Color::ThreeDDkShadow => 21,
            Color::ThreeDLight => 22,
            Color::InfoText => 23,
            Color::InfoBk => 24,
            Color::Hotlight => 26,
            Color::GradientActiveCaption => 27,
            Color::GradientInactiveCaption => 28,
            Color::MenuHilight => 29,
            Color::MenuBar => 30,
        }
    }

    /// Converts from the native numeric index; fails exactly on values
    /// no color carries (25 among them).
    pub fn try_from_repr(v: i32) -> (r: Option<Color>)
        ensures
            r matches Some(c) ==> c.spec_repr() == v,
            r is None <==> !(0 <= v <= 30 && v != 25),
    {
        match v {
            0 => Some(Color::ScrollBar),
            1 => Some(Color::Background),
            2 => Some(Color::ActiveCaption),
            3 => Some(Color::InactiveCaption),
            4 => Some(Color::Menu),
            5 => Some(Color::Window),
            6 => Some(Color::WindowFrame),
            7 => Some(Color::MenuText),
            8 => Some(Color::WindowText),
            9 => Some(Color::CaptionText),
            10 => Some(Color::ActiveBorder),
            11 => Some(Color::InactiveBorder),
            12 => Some(Color::AppWorkspace),
            13 => Some(Color::Highlight),
            14 => Some(Color::HighlightText),
            15 => Some(Color::BtnFace),
            16 => Some(Color::BtnShadow),
            17 => Some(Color::GrayText),
            18 => Some(Color::BtnText),
            19 => Some(Color::InactiveCaptionText),
            20 => Some(Color::BtnHighlight),
            21 => Some(Color::ThreeDDkShadow),
            22 => Some(Color::ThreeDLight),
            23 => Some(Color::InfoText),
            24 => Some(Color::InfoBk),
            26 => Some(Color::Hotlight),
            27 => Some(Color::GradientActiveCaption),
            28 => Some(Color::GradientInactiveCaption),
            29 => Some(Color::MenuHilight),
            30 => Some(Color::MenuBar),
            _ => None,
        }
    }
}

/// An owned brush.
#[derive(Debug)]
pub struct Brush {
    h: Handle,
}

impl Brush {
    pub closed spec fn handle(self) -> Handle {
        self.h
    }

    pub open spec fn wf(self) -> bool {
        self.handle().wf() && !self.handle().is_shared()
    }

    /// Decodes the native system-color-brush call's result: a null
    /// handle means failure with the platform error code.
    pub fn get_sys_color(raw: usize, err_code: u32) -> (r: Result<Brush, Error>)
        ensures
            raw == 0 ==> r == Result::<Brush, Error>::Err(Error::Os(err_code)),
            raw != 0 ==> (r matches Ok(b) && b.handle().spec_raw() == raw && b.wf()
                && b.handle().is_armed()),
    {
        if raw == 0 {
            last_error(err_code)
        } else {
            Ok(Brush { h: Handle::acquired(raw, false) })
        }
    }
}

impl AsRaw for Brush {
    type Raw = usize;

    open spec fn spec_raw(&self) -> usize {
        self.handle().spec_raw()
    }

    open spec fn as_raw_req(&self) -> bool {
        self.handle().is_armed() && self.handle().wf()
    }

    fn as_raw(&self) -> (r: usize) {
        self.h.as_raw()
    }
}

impl IntoRaw for Brush {
    fn into_raw(self) -> (r: usize) {
        let mut h = self.h;
        h.release()
    }
}

impl TryDrop for Brush {
    type Action = DisposeAction;

    open spec fn try_drop_req(&self) -> bool {
        self.wf()
    }

    open spec fn spec_dispose_target(&self) -> DisposeAction {
        self.handle().dispose_target()
    }

    fn try_drop(self) -> (r: DisposeAction) {
        let mut h = self.h;
        h.dispose()
    }
}

} // verus!
