//! Buttons: physical positions, per-screen visuals and the action table.
//!
//! The device has three hardware buttons. What each shows on a given screen
//! is a `ButtonLayout` of optional `ButtonDetails`; what each *does* once the
//! current page cannot consume the press is a `ButtonActions` table of
//! optional `ButtonAction` entries. Visuals carry text, so contracts speak of
//! their views (`ButtonLayoutV` and friends), where text is a character
//! sequence.

use vstd::prelude::*;

verus! {

/// The physical position of a hardware button.
#[derive(Clone, Copy, PartialEq, Eq, Structural, Debug)]
pub enum ButtonPos {
    Left,
    Middle,
    Right,
}

/// What a button press means once the current page cannot consume it.
/// `Action` stands for a screen-specific action handled by the page's own
/// content; the flow ignores it, as it ignores `Select`.
#[derive(Clone, Copy, PartialEq, Eq, Structural, Debug)]
pub enum ButtonAction {
    PrevPage,
    NextPage,
    FirstPage,
    LastPage,
    Cancel,
    Confirm,
    Select,
    Action,
    Info,
}

impl ButtonAction {
    pub open spec fn spec_string(&self) -> Seq<char> {
        match self {
            ButtonAction::PrevPage => "Prev"@,
            ButtonAction::NextPage => "Next"@,
            ButtonAction::FirstPage => "First"@,
            ButtonAction::LastPage => "Last"@,
            ButtonAction::Cancel => "Cancel"@,
            ButtonAction::Confirm => "Confirm"@,
            ButtonAction::Select => "Select"@,
            ButtonAction::Action => "Action"@,
            ButtonAction::Info => "Info"@,
        }
    }

    /// A short name of the action, for diagnostics.
    pub fn string(&self) -> (s: String)
        ensures
            s@ == self.spec_string(),
    {
        match self {
            ButtonAction::PrevPage => "Prev".to_owned(),
            ButtonAction::NextPage => "Next".to_owned(),
            ButtonAction::FirstPage => "First".to_owned(),
            ButtonAction::LastPage => "Last".to_owned(),
            ButtonAction::Cancel => "Cancel".to_owned(),
            ButtonAction::Confirm => "Confirm".to_owned(),
            ButtonAction::Select => "Select".to_owned(),
            ButtonAction::Action => "Action".to_owned(),
            ButtonAction::Info => "Info".to_owned(),
        }
    }

    /// The name reported for a button with no action.
    pub fn empty() -> (s: String)
        ensures
            s@ == "None"@,
    {
        "None".to_owned()
    }
}

/// The action table of one page: what each position does, if anything.
#[derive(Clone, Copy, PartialEq, Eq, Structural, Debug)]
pub struct ButtonActions {
    pub left: Option<ButtonAction>,
    pub middle: Option<ButtonAction>,
    pub right: Option<ButtonAction>,
}

impl ButtonActions {
    pub fn new(
        left: Option<ButtonAction>,
        middle: Option<ButtonAction>,
        right: Option<ButtonAction>,
    ) -> (r: ButtonActions)
        ensures
            r == (ButtonActions { left, middle, right }),
    {
        ButtonActions { left, middle, right }
    }

    pub open spec fn spec_get(&self, pos: ButtonPos) -> Option<ButtonAction> {
        match pos {
            ButtonPos::Left => self.left,
            ButtonPos::Middle => self.middle,
            ButtonPos::Right => self.right,
        }
    }

    /// The action at a position, if the page defines one.
    pub fn get_action(&self, pos: ButtonPos) -> (r: Option<ButtonAction>)
        ensures
            r == self.spec_get(pos),
    {
        match pos {
            ButtonPos::Left => self.left,
            ButtonPos::Middle => self.middle,
            ButtonPos::Right => self.right,
        }
    }
}

/// The icons a button can show.
#[derive(Clone, Copy, PartialEq, Eq, Structural, Debug)]
pub enum IconKind {
    ArrowUp,
    ArrowDown,
    ArrowLeft,
    ArrowRight,
    ArrowBackUp,
    Cancel,
    Delete,
    Eye,
    Tick,
    Space,
}

/// What one button shows.
#[derive(Clone, PartialEq, Eq, Debug)]
pub enum ButtonContent {
    Text(String),
    Icon(IconKind),
}

/// View of `ButtonContent`: text as a character sequence.
pub enum ButtonContentV {
    Text(Seq<char>),
    Icon(IconKind),
}

impl View for ButtonContent {
    type V = ButtonContentV;

    open spec fn view(&self) -> ButtonContentV {
        match self {
            ButtonContent::Text(s) => ButtonContentV::Text(s@),
            ButtonContent::Icon(k) => ButtonContentV::Icon(*k),
        }
    }
}

/// The visual of one button: its content, whether it is drawn wide, and
/// whether it must be held to confirm (armed).
#[derive(Clone, PartialEq, Eq, Debug)]
pub struct ButtonDetails {
    pub content: ButtonContent,
    pub wide: bool,
    pub armed: bool,
}

/// View of `ButtonDetails`.
pub struct ButtonDetailsV {
    pub content: ButtonContentV,
    pub wide: bool,
    pub armed: bool,
}

impl View for ButtonDetails {
    type V = ButtonDetailsV;

    open spec fn view(&self) -> ButtonDetailsV {
        ButtonDetailsV { content: self.content@, wide: self.wide, armed: self.armed }
    }
}

/// View of an optional button visual.
pub open spec fn opt_details_view(o: Option<ButtonDetails>) -> Option<ButtonDetailsV> {
    match o {
        Some(d) => Some(d@),
        None => None,
    }
}

/// The view of a plain text button.
pub open spec fn text_details_v(t: Seq<char>) -> ButtonDetailsV {
    ButtonDetailsV { content: ButtonContentV::Text(t), wide: false, armed: false }
}

/// The view of an armed (hold-to-confirm) text button.
pub open spec fn armed_text_details_v(t: Seq<char>) -> ButtonDetailsV {
    ButtonDetailsV { content: ButtonContentV::Text(t), wide: false, armed: true }
}

/// The view of an icon button.
pub open spec fn icon_details_v(kind: IconKind, wide: bool) -> ButtonDetailsV {
    ButtonDetailsV { content: ButtonContentV::Icon(kind), wide, armed: false }
}

impl ButtonDetails {
    pub fn text(t: String) -> (r: ButtonDetails)
        ensures
            r@ == text_details_v(t@),
    {
        ButtonDetails { content: ButtonContent::Text(t), wide: false, armed: false }
    }

    /// Text on a button that must be held to confirm.
    pub fn armed_text(t: String) -> (r: ButtonDetails)
        ensures
            r@ == armed_text_details_v(t@),
    {
        ButtonDetails { content: ButtonContent::Text(t), wide: false, armed: true }
    }

    pub fn icon(kind: IconKind) -> (r: ButtonDetails)
        ensures
            r@ == icon_details_v(kind, false),
    {
        ButtonDetails { content: ButtonContent::Icon(kind), wide: false, armed: false }
    }

    /// Narrow up arrow: previous sub-page.
    pub fn up_arrow_icon() -> (r: ButtonDetails)
        ensures
            r@ == icon_details_v(IconKind::ArrowUp, false),
    {
        ButtonDetails { content: ButtonContent::Icon(IconKind::ArrowUp), wide: false, armed: false }
    }

    /// Wide up arrow: previous sub-page, leaving room for a wide down arrow.
    pub fn up_arrow_icon_wide() -> (r: ButtonDetails)
        ensures
            r@ == icon_details_v(IconKind::ArrowUp, true),
    {
        ButtonDetails { content: ButtonContent::Icon(IconKind::ArrowUp), wide: true, armed: false }
    }

    /// Wide down arrow: next sub-page.
    pub fn down_arrow_icon_wide() -> (r: ButtonDetails)
        ensures
            r@ == icon_details_v(IconKind::ArrowDown, true),
    {
        ButtonDetails { content: ButtonContent::Icon(IconKind::ArrowDown), wide: true, armed: false }
    }

    /// A copy whose view is the original's.
    pub fn duplicate(&self) -> (r: ButtonDetails)
        ensures
            r@ == self@,
    {
        let content = match &self.content {
            ButtonContent::Text(s) => ButtonContent::Text(s.clone()),
            ButtonContent::Icon(k) => ButtonContent::Icon(*k),
        };
        ButtonDetails { content, wide: self.wide, armed: self.armed }
    }
}

/// A copy of an optional button visual, view-preserving.
pub fn duplicate_opt_details(o: &Option<ButtonDetails>) -> (r: Option<ButtonDetails>)
    ensures
        opt_details_view(r) == opt_details_view(*o),
{
    match o {
        Some(d) => Some(d.duplicate()),
        None => None,
    }
}

/// What the three buttons currently show.
#[derive(Clone, PartialEq, Eq, Debug)]
pub struct ButtonLayout {
    pub btn_left: Option<ButtonDetails>,
    pub btn_middle: Option<ButtonDetails>,
    pub btn_right: Option<ButtonDetails>,
}

/// View of `ButtonLayout`.
pub struct ButtonLayoutV {
    pub btn_left: Option<ButtonDetailsV>,
    pub btn_middle: Option<ButtonDetailsV>,
    pub btn_right: Option<ButtonDetailsV>,
}

impl View for ButtonLayout {
    type V = ButtonLayoutV;

    open spec fn view(&self) -> ButtonLayoutV {
        ButtonLayoutV {
            btn_left: opt_details_view(self.btn_left),
            btn_middle: opt_details_view(self.btn_middle),
            btn_right: opt_details_view(self.btn_right),
        }
    }
}

/// The view of the default carousel layout: arrows around an armed select.
pub open spec fn default_three_icons_v() -> ButtonLayoutV {
    ButtonLayoutV {
        btn_left: Some(icon_details_v(IconKind::ArrowLeft, false)),
        btn_middle: Some(armed_text_details_v("SELECT"@)),
        btn_right: Some(icon_details_v(IconKind::ArrowRight, false)),
    }
}

impl ButtonLayout {
    pub fn new(
        btn_left: Option<ButtonDetails>,
        btn_middle: Option<ButtonDetails>,
        btn_right: Option<ButtonDetails>,
    ) -> (r: ButtonLayout)
        ensures
            r@ == (ButtonLayoutV {
                btn_left: opt_details_view(btn_left),
                btn_middle: opt_details_view(btn_middle),
                btn_right: opt_details_view(btn_right),
            }),
    {
        ButtonLayout { btn_left, btn_middle, btn_right }
    }

    /// No buttons shown; used until the first placement is known.
    pub fn empty() -> (r: ButtonLayout)
        ensures
            r@ == (ButtonLayoutV {
                btn_left: None::<ButtonDetailsV>,
                btn_middle: None::<ButtonDetailsV>,
                btn_right: None::<ButtonDetailsV>,
            }),
    {
        ButtonLayout { btn_left: None, btn_middle: None, btn_right: None }
    }

    /// Left and right arrows around an armed select button.
    pub fn default_three_icons() -> (r: ButtonLayout)
        ensures
            r@ == default_three_icons_v(),
    {
        ButtonLayout {
            btn_left: Some(ButtonDetails::icon(IconKind::ArrowLeft)),
            btn_middle: Some(ButtonDetails::armed_text("SELECT".to_owned())),
            btn_right: Some(ButtonDetails::icon(IconKind::ArrowRight)),
        }
    }

    /// Cancel icon, armed middle text, plain right text.
    pub fn cancel_armed_text(middle: String, right: String) -> (r: ButtonLayout)
        ensures
            r@ == (ButtonLayoutV {
                btn_left: Some(icon_details_v(IconKind::Cancel, false)),
                btn_middle: Some(armed_text_details_v(middle@)),
                btn_right: Some(text_details_v(right@)),
            }),
    {
        ButtonLayout {
            btn_left: Some(ButtonDetails::icon(IconKind::Cancel)),
            btn_middle: Some(ButtonDetails::armed_text(middle)),
            btn_right: Some(ButtonDetails::text(right)),
        }
    }

    /// Left arrow, armed middle text, right arrow.
    pub fn arrow_armed_arrow(middle: String) -> (r: ButtonLayout)
        ensures
            r@ == (ButtonLayoutV {
                btn_left: Some(icon_details_v(IconKind::ArrowLeft, false)),
                btn_middle: Some(armed_text_details_v(middle@)),
                btn_right: Some(icon_details_v(IconKind::ArrowRight, false)),
            }),
    {
        ButtonLayout {
            btn_left: Some(ButtonDetails::icon(IconKind::ArrowLeft)),
            btn_middle: Some(ButtonDetails::armed_text(middle)),
            btn_right: Some(ButtonDetails::icon(IconKind::ArrowRight)),
        }
    }

    /// Nothing on the left, armed middle text, right arrow.
    pub fn none_armed_arrow(middle: String) -> (r: ButtonLayout)
        ensures
            r@ == (ButtonLayoutV {
                btn_left: None::<ButtonDetailsV>,
                btn_middle: Some(armed_text_details_v(middle@)),
                btn_right: Some(icon_details_v(IconKind::ArrowRight, false)),
            }),
    {
        ButtonLayout {
            btn_left: None,
            btn_middle: Some(ButtonDetails::armed_text(middle)),
            btn_right: Some(ButtonDetails::icon(IconKind::ArrowRight)),
        }
    }

    /// A copy whose view is the original's.
    pub fn duplicate(&self) -> (r: ButtonLayout)
        ensures
            r@ == self@,
    {
        ButtonLayout {
            btn_left: duplicate_opt_details(&self.btn_left),
            btn_middle: duplicate_opt_details(&self.btn_middle),
            btn_right: duplicate_opt_details(&self.btn_right),
        }
    }
}

} // verus!
