//! Where the parts of the screen go, and what the tip, the bottom bar and the overflow menu consist
//! of.
//!
//! The latter are described as elements, which are processed one after the other. Distances are in
//! pixels.

use vstd::prelude::*;

verus! {

/// The height of the bottom bar.
pub const BOTTOM_BAR_SIZE: u32 = 32;

/// The width of the overflow menu.
pub const OVERFLOW_MENU_WIDTH: u32 = 256;

/// The amount of padding applied around the canvas area, when laying out elements on top of it.
pub const CANVAS_INNER_PADDING: u32 = 8;

/// A distance.
#[derive(Clone, Copy, Debug, PartialEq, Eq, Structural)]
pub enum Extent {
    /// A number of pixels.
    Pixels(u32),
    /// As much as the enclosing group.
    Full,
    /// What is left in the enclosing group.
    Remaining,
    /// Two lines of sans text, and a number of pixels between them.
    TwoLines(u32),
}

/// Where the elements of a group go.
#[derive(Clone, Copy, Debug, PartialEq, Eq, Structural)]
pub enum Layout {
    Freeform,
    Horizontal,
    HorizontalRev,
    Vertical,
}

/// How text looks.
#[derive(Clone, Copy, Debug, PartialEq, Eq, Structural)]
pub enum Font {
    Sans,
    SansBold,
    /// Monospace of the given size.
    Monospace(u32),
}

/// What text says.
#[derive(Clone, Copy, Debug, PartialEq, Eq, Structural)]
pub enum Caption {
    /// "Room ID"
    RoomIdHeading,
    /// The room ID itself.
    RoomId,
    /// "You are the host"
    YouAreTheHost,
    /// The host's nickname.
    HostName,
    /// "is your host"
    IsYourHost,
    /// The name of an action.
    ActionName(usize),
    /// The tip.
    Tip,
}

/// A picture.
#[derive(Clone, Copy, Debug, PartialEq, Eq, Structural)]
pub enum Icon {
    Menu,
    Copy,
    Host,
    Client,
    Action(usize),
}

/// Something that can be clicked.
#[derive(Clone, Copy, Debug, PartialEq, Eq, Structural)]
pub enum Button {
    Menu,
    CopyRoomId,
    Action(usize),
}

/// A part of the tip, the bottom bar or the overflow menu.
#[derive(Clone, Copy, Debug, PartialEq, Eq, Structural)]
pub enum Element {
    /// Fills the group with the color of panels.
    FillPanel,
    /// Fills the group with black of the given opacity.
    FillBlack(u8),
    /// Insets the group.
    Pad { horizontal: u32, vertical: u32 },
    /// Leaves a gap.
    Space(u32),
    /// Begins a group.
    Push { width: Extent, height: Extent, layout: Layout },
    /// Ends the group that was begun last.
    Pop,
    /// Shrinks the group to what is in it.
    Fit,
    /// Aligns what follows to sides of the group.
    Align(AlignH, AlignV),
    /// Text on the left, with the next text below it.
    VerticalLabel(Font, Caption),
    /// Text on the left that is cut to the width of the group, with the next text below it.
    TruncatedLabel(Font, Caption),
    /// Text, with the next text beside it.
    HorizontalLabel(Font, Caption),
    /// Text in the middle of what is left of the group.
    CenteredLabel(Font, Caption),
    /// White text in the middle of the group.
    WhiteLabel(Font, Caption),
    /// A picture as wide as the group is high.
    Picture(Icon),
    /// A button with a picture on it.
    IconButton { button: Button, icon: Icon, button_height: Extent, corner_radius: u32 },
    /// A button as wide as the group, with the elements of [`action_button`] on it.
    ActionButton { action: usize, button_height: Extent, corner_radius: u32 },
    /// A line along the upper edge.
    BorderTop(u32),
    /// What the current tool has to show.
    ToolOptions,
}

/// A part of the screen.
#[derive(Clone, Copy, Debug, PartialEq, Eq, Structural)]
pub enum Area {
    Canvas,
    BottomBar,
    OverflowMenu,
}

/// How far a part of the screen extends in one direction.
#[derive(Clone, Copy, Debug, PartialEq, Eq, Structural)]
pub enum Dimension {
    /// A number of pixels.
    Constant(u128),
    /// A percentage of the whole screen.
    Percentage(u32),
    /// A share of what the parts of other dimensions leave.
    Rest(u32),
}

/// A side that something is aligned to from left to right.
#[derive(Clone, Copy, Debug, PartialEq, Eq, Structural)]
pub enum AlignH {
    Left,
    Center,
    Right,
}

/// A side that something is aligned to from top to bottom.
#[derive(Clone, Copy, Debug, PartialEq, Eq, Structural)]
pub enum AlignV {
    Top,
    Middle,
    Bottom,
}

/// A piece of the work of arranging the parts of the screen.
#[derive(Clone, Copy, Debug, PartialEq, Eq, Structural)]
pub enum Placement {
    /// Puts the part on top of those that were stacked before it. The first one goes to the bottom
    /// of the screen.
    Stack(Area),
    /// Aligns the part to sides of another part, with a distance kept from its edges.
    Align { area: Area, within: Area, padding: u32, horizontal: AlignH, vertical: AlignV },
}

/// The width and the height of a part of the screen, given the height of the overflow menu.
pub open spec fn area_size(area: Area, overflow_menu_height: int) -> (Dimension, Dimension) {
    match area {
        Area::Canvas => (Dimension::Percentage(100), Dimension::Rest(1)),
        Area::BottomBar => (
            Dimension::Percentage(100),
            Dimension::Constant(BOTTOM_BAR_SIZE as u128),
        ),
        Area::OverflowMenu => (
            Dimension::Constant(OVERFLOW_MENU_WIDTH as u128),
            Dimension::Constant(overflow_menu_height as u128),
        ),
    }
}

/// Where the parts of the screen go.
pub open spec fn screen_layout() -> Seq<Placement> {
    seq![
        Placement::Stack(Area::BottomBar),
        Placement::Stack(Area::Canvas),
        Placement::Align {
            area: Area::OverflowMenu,
            within: Area::Canvas,
            padding: CANVAS_INNER_PADDING,
            horizontal: AlignH::Right,
            vertical: AlignV::Bottom,
        },
    ]
}

/// Returns where the parts of the screen go.
pub fn reflow_layout() -> (placements: Vec<Placement>)
    ensures
        placements@ == screen_layout(),
{
    vec![
        // The bottom bar and the canvas.
        Placement::Stack(Area::BottomBar),
        Placement::Stack(Area::Canvas),
        // The overflow menu.
        Placement::Align {
            area: Area::OverflowMenu,
            within: Area::Canvas,
            padding: CANVAS_INNER_PADDING,
            horizontal: AlignH::Right,
            vertical: AlignV::Bottom,
        },
    ]
}

/// How many groups are begun but not ended.
pub open spec fn open_groups(elements: Seq<Element>) -> int
    decreases elements.len(),
{
    if elements.len() == 0 {
        0
    } else {
        let earlier = open_groups(elements.drop_last());
        match elements.last() {
            Element::Push { .. } => earlier + 1,
            Element::Pop => earlier - 1,
            _ => earlier,
        }
    }
}

/// Whether every group is ended, and no group is ended before it is begun.
pub open spec fn balanced(elements: Seq<Element>) -> bool {
    &&& open_groups(elements) == 0
    &&& forall|i: int| 0 <= i <= elements.len() ==> open_groups(#[trigger] elements.take(i)) >= 0
}

/// The elements of the bottom bar.
pub open spec fn bottom_bar_elements() -> Seq<Element> {
    seq![
        Element::FillPanel,
        Element::Pad { horizontal: 8, vertical: 0 },
        Element::ToolOptions,
        Element::Push {
            width: Extent::Remaining,
            height: Extent::Full,
            layout: Layout::HorizontalRev,
        },
        Element::IconButton {
            button: Button::Menu,
            icon: Icon::Menu,
            button_height: Extent::Full,
            corner_radius: 0,
        },
        Element::Pop,
    ]
}

/// Returns the elements of the bottom bar.
pub fn bottom_bar() -> (elements: Vec<Element>)
    ensures
        elements@ == bottom_bar_elements(),
{
    vec![
        Element::FillPanel,
        Element::Pad { horizontal: 8, vertical: 0 },
        Element::ToolOptions,
        Element::Push {
            width: Extent::Remaining,
            height: Extent::Full,
            layout: Layout::HorizontalRev,
        },
        Element::IconButton {
            button: Button::Menu,
            icon: Icon::Menu,
            button_height: Extent::Full,
            corner_radius: 0,
        },
        Element::Pop,
    ]
}

/// The elements of the tip.
pub open spec fn tip_elements() -> Seq<Element> {
    seq![
        Element::Push { width: Extent::Full, height: Extent::Full, layout: Layout::Freeform },
        Element::Pad { horizontal: 16, vertical: 16 },
        Element::Push {
            width: Extent::Pixels(72),
            height: Extent::Pixels(32),
            layout: Layout::Freeform,
        },
        Element::FillBlack(192),
        Element::WhiteLabel(Font::Sans, Caption::Tip),
        Element::Pop,
        Element::Pop,
    ]
}

/// Returns the elements of the tip.
pub fn tip() -> (elements: Vec<Element>)
    ensures
        elements@ == tip_elements(),
{
    vec![
        Element::Push { width: Extent::Full, height: Extent::Full, layout: Layout::Freeform },
        Element::Pad { horizontal: 16, vertical: 16 },
        Element::Push {
            width: Extent::Pixels(72),
            height: Extent::Pixels(32),
            layout: Layout::Freeform,
        },
        Element::FillBlack(192),
        Element::WhiteLabel(Font::Sans, Caption::Tip),
        Element::Pop,
        Element::Pop,
    ]
}

/// The part of the overflow menu that shows the room ID.
pub open spec fn room_id_elements() -> Seq<Element> {
    seq![
        Element::Pad { horizontal: 8, vertical: 8 },
        Element::Push { width: Extent::Full, height: Extent::Pixels(0), layout: Layout::Vertical },
        Element::Pad { horizontal: 8, vertical: 0 },
        Element::Space(8),
        Element::VerticalLabel(Font::Sans, Caption::RoomIdHeading),
        Element::Space(8),
        Element::Push {
            width: Extent::Full,
            height: Extent::Pixels(32),
            layout: Layout::HorizontalRev,
        },
        Element::IconButton {
            button: Button::CopyRoomId,
            icon: Icon::Copy,
            button_height: Extent::Full,
            corner_radius: 0,
        },
        Element::CenteredLabel(Font::Monospace(24), Caption::RoomId),
        Element::Pop,
        Element::Fit,
        Element::Pop,
        Element::Space(4),
    ]
}

/// The part of the overflow menu that shows who the host is.
pub open spec fn host_elements(is_host: bool) -> Seq<Element> {
    if is_host {
        seq![
            Element::Push {
                width: Extent::Full,
                height: Extent::Pixels(32),
                layout: Layout::Horizontal,
            },
            Element::Picture(Icon::Host),
            Element::Space(4),
            Element::HorizontalLabel(Font::Sans, Caption::YouAreTheHost),
            Element::Pop,
        ]
    } else {
        seq![
            Element::Push {
                width: Extent::Full,
                height: Extent::Pixels(32),
                layout: Layout::Horizontal,
            },
            Element::Picture(Icon::Client),
            Element::Space(4),
            Element::Push {
                width: Extent::Remaining,
                height: Extent::TwoLines(4),
                layout: Layout::Vertical,
            },
            Element::Align(AlignH::Right, AlignV::Middle),
            Element::TruncatedLabel(Font::SansBold, Caption::HostName),
            Element::Space(4),
            Element::VerticalLabel(Font::Sans, Caption::IsYourHost),
            Element::Pop,
            Element::Pop,
        ]
    }
}

/// The line between the parts of the overflow menu.
pub open spec fn separator_elements() -> Seq<Element> {
    seq![
        Element::Space(8),
        Element::Push { width: Extent::Full, height: Extent::Pixels(0), layout: Layout::Freeform },
        Element::BorderTop(1),
        Element::Pop,
        Element::Space(8),
    ]
}

/// The button of an action.
pub open spec fn action_button_element(action: usize) -> Element {
    Element::ActionButton { action, button_height: Extent::Pixels(32), corner_radius: 2 }
}

/// The part of the overflow menu that holds the actions: one button for each of them.
pub open spec fn action_elements(actions: nat) -> Seq<Element> {
    Seq::new(
        2 * actions,
        |i: int|
            if i % 2 == 0 {
                action_button_element((i / 2) as usize)
            } else {
                Element::Space(4)
            },
    )
}

/// The elements of the overflow menu.
pub open spec fn overflow_menu_elements(is_host: bool, actions: nat) -> Seq<Element> {
    room_id_elements() + host_elements(is_host) + separator_elements() + action_elements(actions)
}

/// Returns the elements of the overflow menu.
pub fn overflow_menu(is_host: bool, actions: usize) -> (elements: Vec<Element>)
    ensures
        elements@ == overflow_menu_elements(is_host, actions as nat),
{
    let mut elements: Vec<Element> = vec![
        Element::Pad { horizontal: 8, vertical: 8 },
        // Room ID display
        Element::Push { width: Extent::Full, height: Extent::Pixels(0), layout: Layout::Vertical },
        Element::Pad { horizontal: 8, vertical: 0 },
        Element::Space(8),
        Element::VerticalLabel(Font::Sans, Caption::RoomIdHeading),
        Element::Space(8),
        Element::Push {
            width: Extent::Full,
            height: Extent::Pixels(32),
            layout: Layout::HorizontalRev,
        },
        Element::IconButton {
            button: Button::CopyRoomId,
            icon: Icon::Copy,
            button_height: Extent::Full,
            corner_radius: 0,
        },
        Element::CenteredLabel(Font::Monospace(24), Caption::RoomId),
        Element::Pop,
        Element::Fit,
        Element::Pop,
        Element::Space(4),
    ];
    assert(elements@ =~= room_id_elements());
    // Room host display
    elements.push(
        Element::Push {
            width: Extent::Full,
            height: Extent::Pixels(32),
            layout: Layout::Horizontal,
        },
    );
    if is_host {
        elements.push(Element::Picture(Icon::Host));
        elements.push(Element::Space(4));
        elements.push(Element::HorizontalLabel(Font::Sans, Caption::YouAreTheHost));
    } else {
        elements.push(Element::Picture(Icon::Client));
        elements.push(Element::Space(4));
        elements.push(
            Element::Push {
                width: Extent::Remaining,
                height: Extent::TwoLines(4),
                layout: Layout::Vertical,
            },
        );
        elements.push(Element::Align(AlignH::Right, AlignV::Middle));
        elements.push(Element::TruncatedLabel(Font::SansBold, Caption::HostName));
        elements.push(Element::Space(4));
        elements.push(Element::VerticalLabel(Font::Sans, Caption::IsYourHost));
        elements.push(Element::Pop);
    }
    elements.push(Element::Pop);
    assert(elements@ =~= room_id_elements() + host_elements(is_host));
    // Separator
    elements.push(Element::Space(8));
    elements.push(
        Element::Push { width: Extent::Full, height: Extent::Pixels(0), layout: Layout::Freeform },
    );
    elements.push(Element::BorderTop(1));
    elements.push(Element::Pop);
    elements.push(Element::Space(8));
    let ghost header = room_id_elements() + host_elements(is_host) + separator_elements();
    assert(elements@ =~= header);
    // Actions
    let mut action: usize = 0;
    assert(action_elements(0) =~= Seq::<Element>::empty());
    while action < actions
        invariant
            action <= actions,
            header == room_id_elements() + host_elements(is_host) + separator_elements(),
            elements@ == header + action_elements(action as nat),
        decreases actions - action,
    {
        elements.push(Element::ActionButton { action, button_height: Extent::Pixels(32), corner_radius: 2 });
        elements.push(Element::Space(4));
        assert(action_elements(action as nat + 1) =~= action_elements(action as nat).push(
            action_button_element(action),
        ).push(Element::Space(4)));
        action += 1;
        assert(elements@ =~= header + action_elements(action as nat));
    }
    elements
}

/// The elements on the button of an action.
pub open spec fn action_button_elements(action: usize) -> Seq<Element> {
    seq![
        Element::Push { width: Extent::Full, height: Extent::Full, layout: Layout::Horizontal },
        Element::Picture(Icon::Action(action)),
        Element::Space(4),
        Element::HorizontalLabel(Font::Sans, Caption::ActionName(action)),
        Element::Pop,
    ]
}

/// Returns the elements on the button of an action.
pub fn action_button(action: usize) -> (elements: Vec<Element>)
    ensures
        elements@ == action_button_elements(action),
{
    vec![
        Element::Push { width: Extent::Full, height: Extent::Full, layout: Layout::Horizontal },
        Element::Picture(Icon::Action(action)),
        Element::Space(4),
        Element::HorizontalLabel(Font::Sans, Caption::ActionName(action)),
        Element::Pop,
    ]
}

/// The texts that are not always the same.
#[verifier::ext_equal]
pub struct TextsModel {
    pub room_id: Seq<char>,
    pub host_name: Option<Seq<char>>,
    pub actions: Seq<Seq<char>>,
    pub tip: Seq<char>,
}

/// The texts that are not always the same.
#[derive(Debug, Default, PartialEq, Eq)]
pub struct Texts {
    pub room_id: String,
    /// The host's nickname, if it is known.
    pub host_name: Option<String>,
    /// The names of the actions.
    pub actions: Vec<String>,
    pub tip: String,
}

impl View for Texts {
    type V = TextsModel;

    open spec fn view(&self) -> TextsModel {
        TextsModel {
            room_id: self.room_id@,
            host_name: match self.host_name {
                Some(host_name) => Some(host_name@),
                None => None,
            },
            actions: self.actions@.map_values(|action: String| action@),
            tip: self.tip@,
        }
    }
}

impl Caption {
    /// What the text says.
    pub open spec fn says(self, texts: TextsModel) -> Seq<char> {
        match self {
            Caption::RoomIdHeading => "Room ID"@,
            Caption::RoomId => texts.room_id,
            Caption::YouAreTheHost => "You are the host"@,
            Caption::HostName => match texts.host_name {
                Some(host_name) => host_name,
                None => "<unknown>"@,
            },
            Caption::IsYourHost => "is your host"@,
            Caption::ActionName(action) => texts.actions[action as int],
            Caption::Tip => texts.tip,
        }
    }

    /// Returns what the text says.
    pub fn text(self, texts: &Texts) -> (text: String)
        requires
            self matches Caption::ActionName(action) ==> action < texts@.actions.len(),
        ensures
            text@ == self.says(texts@),
    {
        match self {
            Caption::RoomIdHeading => "Room ID".to_string(),
            Caption::RoomId => texts.room_id.clone(),
            Caption::YouAreTheHost => "You are the host".to_string(),
            Caption::HostName => match &texts.host_name {
                Some(host_name) => host_name.clone(),
                None => "<unknown>".to_string(),
            },
            Caption::IsYourHost => "is your host".to_string(),
            Caption::ActionName(action) => texts.actions[action].clone(),
            Caption::Tip => texts.tip.clone(),
        }
    }
}

/// The height of the overflow menu.
pub open spec fn menu_height(actions: int) -> int {
    108 + 8 * 2 + (32 * actions + 4 * (actions - 1) + 4)
}

/// Returns the height of the overflow menu, given the number of actions in it.
pub fn overflow_menu_height(actions: usize) -> (height: u128)
    requires
        actions > 0,
    ensures
        height == menu_height(actions as int),
{
    let room_id_height: u128 = 108;
    let separator_height: u128 = 8 * 2;
    let action_height: u128 = 32;
    let action_margin: u128 = 4;
    let actions_height: u128 = action_height * actions as u128 + action_margin * (actions
        - 1) as u128 + 4;
    room_id_height + separator_height + actions_height
}

} // verus!
