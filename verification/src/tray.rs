//! The icon in the notification area: its menu, its state and the commands chosen there.
use vstd::prelude::*;

use crate::config::FrameRate;
use crate::spout::SenderName;
use crate::text::{double_ampersands, same_text};

verus! {

pub const TRAY_ICON_ID: u32 = 1;

pub const TRAY_SUBCLASS_ID: usize = 2;

/// The message by which the icon reports mouse events.
pub const TRAY_CALLBACK_MESSAGE: u32 = 0x8001;

pub const WM_CONTEXTMENU: u32 = 0x007B;

pub const WM_LBUTTONDBLCLK: u32 = 0x0203;

pub const WM_RBUTTONUP: u32 = 0x0205;

pub const CMD_TOGGLE_VISIBILITY: u32 = 1001;

pub const CMD_TOGGLE_INTERACTION: u32 = 1002;

pub const CMD_TOGGLE_TOPMOST: u32 = 1003;

pub const CMD_FPS_UNLIMITED: u32 = 1010;

pub const CMD_FPS_120: u32 = 1011;

pub const CMD_FPS_60: u32 = 1012;

pub const CMD_FPS_30: u32 = 1013;

pub const CMD_QUIT: u32 = 1099;

/// The command of the first source; the others follow.
pub const CMD_SOURCE_BASE: u32 = 2000;

/// No more sources than this get a command.
pub const MAX_SOURCE_COMMANDS: usize = 512;

pub const STATE_VISIBLE: u32 = 1;

pub const STATE_INTERACTION: u32 = 2;

pub const STATE_TOPMOST: u32 = 4;

pub const STATE_RATE_SHIFT: u32 = 3;

pub const STATE_RATE_MASK: u32 = 24;

pub const STATE_HAS_SOURCE: u32 = 32;

pub const MF_UNCHECKED: u32 = 0;

pub const MF_GRAYED: u32 = 1;

pub const MF_CHECKED: u32 = 8;

/// What a menu command asks for.
#[derive(Clone, Copy, Debug, PartialEq, Eq, Structural)]
pub enum TrayAction {
    ToggleVisibility,
    ToggleInteraction,
    ToggleTopmost,
    SetFrameRate(FrameRate),
    SelectSource(usize),
    Quit,
}

/// What the menu shows of the window.
#[derive(Clone, Copy, Debug, PartialEq, Eq, Structural)]
pub struct TrayState {
    pub visible: bool,
    pub interaction: bool,
    pub topmost: bool,
    pub frame_rate: FrameRate,
    pub has_source: bool,
}

/// The number that stands for a rate.
pub open spec fn rate_code(rate: FrameRate) -> u32 {
    match rate {
        FrameRate::Unlimited => 0,
        FrameRate::Fps120 => 1,
        FrameRate::Fps60 => 2,
        FrameRate::Fps30 => 3,
    }
}

/// The rate that a number stands for.
pub open spec fn coded_rate(code: u32) -> FrameRate {
    if code == 1 {
        FrameRate::Fps120
    } else if code == 2 {
        FrameRate::Fps60
    } else if code == 3 {
        FrameRate::Fps30
    } else {
        FrameRate::Unlimited
    }
}

pub open spec fn bit(set: bool) -> int {
    if set {
        1
    } else {
        0
    }
}

/// The number that stands for a state.
pub open spec fn state_code(state: TrayState) -> int {
    bit(state.visible) + 2 * bit(state.interaction) + 4 * bit(state.topmost) + 8 * rate_code(
        state.frame_rate,
    ) + 32 * bit(state.has_source)
}

/// The state that a number stands for.
pub open spec fn coded_state(code: u32) -> TrayState {
    TrayState {
        visible: code % 2 == 1,
        interaction: code / 2 % 2 == 1,
        topmost: code / 4 % 2 == 1,
        frame_rate: coded_rate(code / 8 % 4),
        has_source: code / 32 % 2 == 1,
    }
}

pub fn encode_rate(rate: FrameRate) -> (code: u32)
    ensures
        code == rate_code(rate),
{
    match rate {
        FrameRate::Unlimited => 0,
        FrameRate::Fps120 => 1,
        FrameRate::Fps60 => 2,
        FrameRate::Fps30 => 3,
    }
}

pub fn decode_rate(code: u32) -> (rate: FrameRate)
    ensures
        rate == coded_rate(code),
{
    match code {
        1 => FrameRate::Fps120,
        2 => FrameRate::Fps60,
        3 => FrameRate::Fps30,
        _ => FrameRate::Unlimited,
    }
}

pub fn encode_state(state: TrayState) -> (code: u32)
    ensures
        code == state_code(state),
{
    let visible: u32 = if state.visible {
        STATE_VISIBLE
    } else {
        0
    };
    let interaction: u32 = if state.interaction {
        STATE_INTERACTION
    } else {
        0
    };
    let topmost: u32 = if state.topmost {
        STATE_TOPMOST
    } else {
        0
    };
    let has_source: u32 = if state.has_source {
        STATE_HAS_SOURCE
    } else {
        0
    };
    let rate: u32 = encode_rate(state.frame_rate);
    assert(visible | interaction | topmost | has_source | (rate << 3) == visible + interaction
        + topmost + has_source + 8 * rate) by (bit_vector)
        requires
            visible == 0 || visible == 1,
            interaction == 0 || interaction == 2,
            topmost == 0 || topmost == 4,
            has_source == 0 || has_source == 32,
            rate <= 3,
    ;
    visible | interaction | topmost | has_source | (rate << STATE_RATE_SHIFT)
}

pub fn decode_state(code: u32) -> (state: TrayState)
    ensures
        state == coded_state(code),
{
    assert((code & 1 != 0) == (code % 2 == 1)) by (bit_vector);
    assert((code & 2 != 0) == (code / 2 % 2 == 1)) by (bit_vector);
    assert((code & 4 != 0) == (code / 4 % 2 == 1)) by (bit_vector);
    assert((code & 24) >> 3 == code / 8 % 4) by (bit_vector);
    assert((code & 32 != 0) == (code / 32 % 2 == 1)) by (bit_vector);
    TrayState {
        visible: code & STATE_VISIBLE != 0,
        interaction: code & STATE_INTERACTION != 0,
        topmost: code & STATE_TOPMOST != 0,
        frame_rate: decode_rate((code & STATE_RATE_MASK) >> STATE_RATE_SHIFT),
        has_source: code & STATE_HAS_SOURCE != 0,
    }
}

/// The action that a command stands for.
pub open spec fn commanded_action(command: u32) -> Option<TrayAction> {
    if command == CMD_TOGGLE_VISIBILITY {
        Some(TrayAction::ToggleVisibility)
    } else if command == CMD_TOGGLE_INTERACTION {
        Some(TrayAction::ToggleInteraction)
    } else if command == CMD_TOGGLE_TOPMOST {
        Some(TrayAction::ToggleTopmost)
    } else if command == CMD_FPS_UNLIMITED {
        Some(TrayAction::SetFrameRate(FrameRate::Unlimited))
    } else if command == CMD_FPS_120 {
        Some(TrayAction::SetFrameRate(FrameRate::Fps120))
    } else if command == CMD_FPS_60 {
        Some(TrayAction::SetFrameRate(FrameRate::Fps60))
    } else if command == CMD_FPS_30 {
        Some(TrayAction::SetFrameRate(FrameRate::Fps30))
    } else if command == CMD_QUIT {
        Some(TrayAction::Quit)
    } else if CMD_SOURCE_BASE <= command < CMD_SOURCE_BASE + MAX_SOURCE_COMMANDS {
        Some(TrayAction::SelectSource((command - CMD_SOURCE_BASE) as usize))
    } else {
        None
    }
}

pub fn action_from_command(command: u32) -> (action: Option<TrayAction>)
    ensures
        action == commanded_action(command),
{
    if command == CMD_TOGGLE_VISIBILITY {
        Some(TrayAction::ToggleVisibility)
    } else if command == CMD_TOGGLE_INTERACTION {
        Some(TrayAction::ToggleInteraction)
    } else if command == CMD_TOGGLE_TOPMOST {
        Some(TrayAction::ToggleTopmost)
    } else if command == CMD_FPS_UNLIMITED {
        Some(TrayAction::SetFrameRate(FrameRate::Unlimited))
    } else if command == CMD_FPS_120 {
        Some(TrayAction::SetFrameRate(FrameRate::Fps120))
    } else if command == CMD_FPS_60 {
        Some(TrayAction::SetFrameRate(FrameRate::Fps60))
    } else if command == CMD_FPS_30 {
        Some(TrayAction::SetFrameRate(FrameRate::Fps30))
    } else if command == CMD_QUIT {
        Some(TrayAction::Quit)
    } else if CMD_SOURCE_BASE <= command && command < CMD_SOURCE_BASE
        + MAX_SOURCE_COMMANDS as u32 {
        Some(TrayAction::SelectSource((command - CMD_SOURCE_BASE) as usize))
    } else {
        None
    }
}

/// The flag of a menu item that may carry a check mark.
pub fn checked(value: bool) -> (flag: u32)
    ensures
        flag == if value {
            MF_CHECKED
        } else {
            MF_UNCHECKED
        },
{
    if value {
        MF_CHECKED
    } else {
        MF_UNCHECKED
    }
}

/// The flag of a menu item that may be out of reach.
pub fn disabled(value: bool) -> (flag: u32)
    ensures
        flag == if value {
            MF_GRAYED
        } else {
            MF_UNCHECKED
        },
{
    if value {
        MF_GRAYED
    } else {
        MF_UNCHECKED
    }
}

/// A line of a menu, with its label as characters.
pub struct ItemModel {
    pub command: u32,
    pub label: Seq<char>,
    pub checked: bool,
    pub grayed: bool,
}

/// A line of a menu.
#[derive(Debug)]
pub struct MenuItem {
    pub command: u32,
    pub label: String,
    pub checked: bool,
    pub grayed: bool,
}

impl View for MenuItem {
    type V = ItemModel;

    open spec fn view(&self) -> ItemModel {
        ItemModel {
            command: self.command,
            label: self.label@,
            checked: self.checked,
            grayed: self.grayed,
        }
    }
}

/// An entry of the menu, with its texts as characters.
pub enum EntryModel {
    Item(ItemModel),
    Submenu(Seq<char>, Seq<ItemModel>),
    Separator,
}

/// An entry of the menu.
#[derive(Debug)]
pub enum MenuEntry {
    Item(MenuItem),
    Submenu(String, Vec<MenuItem>),
    Separator,
}

pub open spec fn item_models(items: Seq<MenuItem>) -> Seq<ItemModel> {
    items.map_values(|item: MenuItem| item@)
}

impl View for MenuEntry {
    type V = EntryModel;

    open spec fn view(&self) -> EntryModel {
        match self {
            MenuEntry::Item(item) => EntryModel::Item(item@),
            MenuEntry::Submenu(title, items) => EntryModel::Submenu(title@, item_models(items@)),
            MenuEntry::Separator => EntryModel::Separator,
        }
    }
}

pub open spec fn entry_models(entries: Seq<MenuEntry>) -> Seq<EntryModel> {
    entries.map_values(|entry: MenuEntry| entry@)
}

/// The lines of the source menu: one for each source that has a command, in order, or a single
/// gray one where there is none.
pub open spec fn source_items(
    labels: Seq<Seq<char>>,
    selected: Option<Seq<char>>,
) -> Seq<ItemModel> {
    if labels.len() == 0 {
        seq![ItemModel { command: 0, label: "无可用来源"@, checked: false, grayed: true }]
    } else {
        let shown = if labels.len() < MAX_SOURCE_COMMANDS {
            labels.len()
        } else {
            MAX_SOURCE_COMMANDS as nat
        };
        Seq::new(
            shown,
            |i: int|
                ItemModel {
                    command: (CMD_SOURCE_BASE + i) as u32,
                    label: crate::text::doubled_ampersands(labels[i]),
                    checked: selected == Some(labels[i]),
                    grayed: false,
                },
        )
    }
}

pub open spec fn rate_item(
    command: u32,
    label: Seq<char>,
    rate: FrameRate,
    current: FrameRate,
) -> ItemModel {
    ItemModel { command, label, checked: rate == current, grayed: false }
}

/// The lines of the frame-rate menu; the current rate is checked.
pub open spec fn rate_items(current: FrameRate) -> Seq<ItemModel> {
    seq![
        rate_item(CMD_FPS_UNLIMITED, "不限制"@, FrameRate::Unlimited, current),
        rate_item(CMD_FPS_120, "120 FPS"@, FrameRate::Fps120, current),
        rate_item(CMD_FPS_60, "60 FPS"@, FrameRate::Fps60, current),
        rate_item(CMD_FPS_30, "30 FPS"@, FrameRate::Fps30, current),
    ]
}

/// The line that hides and shows the window.
pub open spec fn visibility_item(state: TrayState) -> ItemModel {
    ItemModel {
        command: CMD_TOGGLE_VISIBILITY,
        label: if !state.has_source {
            "无可用来源"@
        } else if state.visible {
            "隐藏窗口"@
        } else {
            "显示窗口"@
        },
        checked: false,
        grayed: !state.has_source,
    }
}

/// The whole menu.
pub open spec fn menu_entries(
    state: TrayState,
    labels: Seq<Seq<char>>,
    selected: Option<Seq<char>>,
) -> Seq<EntryModel> {
    seq![
        EntryModel::Item(visibility_item(state)),
        EntryModel::Submenu("来源"@, source_items(labels, selected)),
        EntryModel::Item(
            ItemModel {
                command: CMD_TOGGLE_INTERACTION,
                label: "交互模式"@,
                checked: state.interaction,
                grayed: false,
            },
        ),
        EntryModel::Item(
            ItemModel {
                command: CMD_TOGGLE_TOPMOST,
                label: "窗口置顶"@,
                checked: state.topmost,
                grayed: false,
            },
        ),
        EntryModel::Submenu("帧率"@, rate_items(state.frame_rate)),
        EntryModel::Separator,
        EntryModel::Item(
            ItemModel { command: CMD_QUIT, label: "退出"@, checked: false, grayed: false },
        ),
    ]
}

/// The characters of each label.
pub open spec fn label_texts(labels: Seq<String>) -> Seq<Seq<char>> {
    labels.map_values(|label: String| label@)
}

pub open spec fn optional_text(text: Option<String>) -> Option<Seq<char>> {
    match text {
        Some(text) => Some(text@),
        None => None,
    }
}

fn item(command: u32, label: &str, checked: bool, grayed: bool) -> (item: MenuItem)
    ensures
        item@ == (ItemModel { command, label: label@, checked, grayed }),
{
    MenuItem { command, label: label.to_owned(), checked, grayed }
}

/// Builds the lines of the source menu.
pub fn source_menu(labels: &Vec<String>, selected: &Option<String>) -> (items: Vec<MenuItem>)
    ensures
        item_models(items@) == source_items(label_texts(labels@), optional_text(*selected)),
{
    let mut items: Vec<MenuItem> = Vec::new();
    let ghost wanted = source_items(label_texts(labels@), optional_text(*selected));
    if labels.len() == 0 {
        items.push(item(0, "无可用来源", false, true));
        assert(item_models(items@) =~= wanted);
        return items;
    }
    let shown: usize = if labels.len() < MAX_SOURCE_COMMANDS {
        labels.len()
    } else {
        MAX_SOURCE_COMMANDS
    };
    let mut i: usize = 0;
    while i < shown
        invariant
            i <= shown <= MAX_SOURCE_COMMANDS,
            shown <= labels@.len(),
            wanted == source_items(label_texts(labels@), optional_text(*selected)),
            labels@.len() > 0,
            wanted.len() == shown,
            items@.len() == i,
            forall|j: int| 0 <= j < i ==> #[trigger] items@[j]@ == wanted[j],
        decreases shown - i,
    {
        let label = labels[i].as_str();
        let chosen = match selected {
            Some(name) => same_text(name.as_str(), label),
            None => false,
        };
        let escaped = double_ampersands(label);
        assert(label_texts(labels@)[i as int] == label@);
        items.push(item(CMD_SOURCE_BASE + i as u32, escaped.as_str(), chosen, false));
        assert(items@[i as int]@ == wanted[i as int]);
        i += 1;
    }
    assert(item_models(items@) =~= wanted);
    items
}

fn rate_menu(current: FrameRate) -> (items: Vec<MenuItem>)
    ensures
        item_models(items@) == rate_items(current),
{
    let mut items: Vec<MenuItem> = Vec::new();
    items.push(item(CMD_FPS_UNLIMITED, "不限制", current == FrameRate::Unlimited, false));
    items.push(item(CMD_FPS_120, "120 FPS", current == FrameRate::Fps120, false));
    items.push(item(CMD_FPS_60, "60 FPS", current == FrameRate::Fps60, false));
    items.push(item(CMD_FPS_30, "30 FPS", current == FrameRate::Fps30, false));
    assert(item_models(items@) =~= rate_items(current));
    items
}

/// Builds the menu.
pub fn context_menu(
    state: TrayState,
    labels: &Vec<String>,
    selected: &Option<String>,
) -> (entries: Vec<MenuEntry>)
    ensures
        entry_models(entries@) == menu_entries(
            state,
            label_texts(labels@),
            optional_text(*selected),
        ),
{
    let visibility = if !state.has_source {
        "无可用来源"
    } else if state.visible {
        "隐藏窗口"
    } else {
        "显示窗口"
    };
    let mut entries: Vec<MenuEntry> = Vec::new();
    entries.push(
        MenuEntry::Item(item(CMD_TOGGLE_VISIBILITY, visibility, false, !state.has_source)),
    );
    entries.push(MenuEntry::Submenu("来源".to_owned(), source_menu(labels, selected)));
    entries.push(
        MenuEntry::Item(item(CMD_TOGGLE_INTERACTION, "交互模式", state.interaction, false)),
    );
    entries.push(MenuEntry::Item(item(CMD_TOGGLE_TOPMOST, "窗口置顶", state.topmost, false)));
    entries.push(MenuEntry::Submenu("帧率".to_owned(), rate_menu(state.frame_rate)));
    entries.push(MenuEntry::Separator);
    entries.push(MenuEntry::Item(item(CMD_QUIT, "退出", false, false)));
    assert(entry_models(entries@) =~= menu_entries(
        state,
        label_texts(labels@),
        optional_text(*selected),
    ));
    entries
}

/// What a message to the window means for the icon.
#[derive(Clone, Copy, Debug, PartialEq, Eq, Structural)]
pub enum TrayMessage {
    OpenMenu,
    ToggleVisibility,
    RestoreIcon,
    Unrelated,
}

/// What a message to the window means for the icon.
pub open spec fn meaning_of(message: u32, event: u32, taskbar_created: u32) -> TrayMessage {
    if message == TRAY_CALLBACK_MESSAGE && (event == WM_RBUTTONUP || event == WM_CONTEXTMENU) {
        TrayMessage::OpenMenu
    } else if message == TRAY_CALLBACK_MESSAGE && event == WM_LBUTTONDBLCLK {
        TrayMessage::ToggleVisibility
    } else if taskbar_created != 0 && message == taskbar_created {
        TrayMessage::RestoreIcon
    } else {
        TrayMessage::Unrelated
    }
}

/// Reads a message to the window. `event` is what the icon reports with it, and
/// `taskbar_created` the message by which a new taskbar announces itself, or zero.
pub fn tray_message(message: u32, event: u32, taskbar_created: u32) -> (meaning: TrayMessage)
    ensures
        meaning == meaning_of(message, event, taskbar_created),
{
    if message == TRAY_CALLBACK_MESSAGE {
        if event == WM_RBUTTONUP || event == WM_CONTEXTMENU {
            return TrayMessage::OpenMenu;
        }
        if event == WM_LBUTTONDBLCLK {
            return TrayMessage::ToggleVisibility;
        }
    }
    if taskbar_created != 0 && message == taskbar_created {
        TrayMessage::RestoreIcon
    } else {
        TrayMessage::Unrelated
    }
}

/// What the user chose, with the bytes of a chosen source.
pub enum ChoiceModel {
    Action(TrayAction),
    Source(Seq<u8>),
}

/// What the user chose in the menu.
pub enum TrayChoice {
    Action(TrayAction),
    /// The source that stood in the menu that was looked at.
    Source(SenderName),
}

impl View for TrayChoice {
    type V = ChoiceModel;

    open spec fn view(&self) -> ChoiceModel {
        match self {
            TrayChoice::Action(action) => ChoiceModel::Action(*action),
            TrayChoice::Source(name) => ChoiceModel::Source(name@),
        }
    }
}

pub open spec fn choice_model(choice: Option<TrayChoice>) -> Option<ChoiceModel> {
    match choice {
        Some(choice) => Some(choice@),
        None => None,
    }
}

/// What a command means in a menu that listed `names`.
pub open spec fn chosen(command: u32, names: Seq<Seq<u8>>) -> Option<ChoiceModel> {
    match commanded_action(command) {
        Some(TrayAction::SelectSource(index)) => if index < names.len() {
            Some(ChoiceModel::Source(names[index as int]))
        } else {
            None
        },
        Some(action) => Some(ChoiceModel::Action(action)),
        None => None,
    }
}

/// Reads a command of a menu that listed `names`.
pub fn resolve_command(command: u32, names: &Vec<SenderName>) -> (choice: Option<TrayChoice>)
    ensures
        choice_model(choice) == chosen(command, crate::spout::order::name_bytes(names@)),
{
    match action_from_command(command) {
        Some(TrayAction::SelectSource(index)) => {
            if index < names.len() {
                Some(TrayChoice::Source(names[index].clone()))
            } else {
                None
            }
        },
        Some(action) => Some(TrayChoice::Action(action)),
        None => None,
    }
}

/// The names as people read them.
pub open spec fn displayed(names: Seq<Seq<u8>>) -> Seq<Seq<char>> {
    names.map_values(|name: Seq<u8>| crate::text::lossy_text(name))
}

pub open spec fn displayed_selection(selected: Option<Seq<u8>>) -> Option<Seq<char>> {
    match selected {
        Some(name) => Some(crate::text::lossy_text(name)),
        None => None,
    }
}

fn display_names(names: &Vec<SenderName>) -> (labels: Vec<String>)
    ensures
        label_texts(labels@) == displayed(crate::spout::order::name_bytes(names@)),
{
    let mut labels: Vec<String> = Vec::new();
    let mut i: usize = 0;
    while i < names.len()
        invariant
            i <= names@.len(),
            labels@.len() == i,
            forall|j: int|
                0 <= j < i ==> #[trigger] labels@[j]@ == crate::text::lossy_text(names@[j]@),
        decreases names@.len() - i,
    {
        labels.push(names[i].display_name());
        i += 1;
    }
    assert(label_texts(labels@) =~= displayed(crate::spout::order::name_bytes(names@)));
    labels
}

pub(crate) fn copy_names(names: &Vec<SenderName>) -> (copies: Vec<SenderName>)
    ensures
        crate::spout::order::name_bytes(copies@) == crate::spout::order::name_bytes(names@),
{
    let mut copies: Vec<SenderName> = Vec::new();
    let mut i: usize = 0;
    while i < names.len()
        invariant
            i <= names@.len(),
            copies@.len() == i,
            forall|j: int| 0 <= j < i ==> #[trigger] copies@[j]@ == names@[j]@,
        decreases names@.len() - i,
    {
        copies.push(names[i].clone());
        i += 1;
    }
    assert(crate::spout::order::name_bytes(copies@) =~= crate::spout::order::name_bytes(names@));
    copies
}

/// The menu as it was when it was opened.
pub struct MenuSnapshot {
    pub names: Vec<SenderName>,
    pub entries: Vec<MenuEntry>,
}

/// What a [`TrayIcon`] remembers.
pub struct TrayModel {
    pub code: u32,
    pub names: Seq<Seq<u8>>,
    pub selected: Option<Seq<u8>>,
    pub pending: Option<ChoiceModel>,
    pub menu_open: bool,
}

impl TrayModel {
    /// The menu that is shown when it is opened now.
    pub open spec fn menu(self) -> Seq<EntryModel> {
        menu_entries(
            coded_state(self.code),
            displayed(self.names),
            displayed_selection(self.selected),
        )
    }

    /// The tray after `command` was chosen in a menu that listed `names`.
    pub open spec fn after_choice(self, command: u32, names: Seq<Seq<u8>>) -> TrayModel {
        if command == 0 {
            self
        } else {
            TrayModel { pending: chosen(command, names), ..self }
        }
    }
}

/// What the icon shows, and what was chosen there last.
pub struct TrayIcon {
    code: u32,
    names: Vec<SenderName>,
    selected: Option<SenderName>,
    pending: Option<TrayChoice>,
    menu_open: bool,
}

impl View for TrayIcon {
    type V = TrayModel;

    closed spec fn view(&self) -> TrayModel {
        TrayModel {
            code: self.code,
            names: crate::spout::order::name_bytes(self.names@),
            selected: crate::spout::receiver::optional_bytes(self.selected),
            pending: choice_model(self.pending),
            menu_open: self.menu_open,
        }
    }
}

impl TrayIcon {
    /// An icon of which nothing is known yet.
    pub fn install() -> (icon: Self)
        ensures
            icon@ == (TrayModel {
                code: 0,
                names: Seq::empty(),
                selected: None,
                pending: None,
                menu_open: false,
            }),
    {
        let icon = TrayIcon {
            code: 0,
            names: Vec::new(),
            selected: None,
            pending: None,
            menu_open: false,
        };
        assert(icon@.names =~= Seq::empty());
        icon
    }

    pub fn update_state(&mut self, state: TrayState)
        ensures
            final(self)@ == (TrayModel { code: state_code(state) as u32, ..old(self)@ }),
    {
        self.code = encode_state(state);
    }

    pub fn update_sources(&mut self, names: Vec<SenderName>, selected: Option<SenderName>)
        ensures
            final(self)@ == (TrayModel {
                names: crate::spout::order::name_bytes(names@),
                selected: crate::spout::receiver::optional_bytes(selected),
                ..old(self)@
            }),
    {
        self.names = names;
        self.selected = selected;
    }

    /// What was chosen since this was last asked.
    pub fn take_action(&mut self) -> (choice: Option<TrayChoice>)
        ensures
            choice_model(choice) == old(self)@.pending,
            final(self)@ == (TrayModel { pending: None, ..old(self)@ }),
    {
        self.pending.take()
    }

    /// A double click on the icon stands for the command that hides and shows the window.
    pub fn toggle_visibility(&mut self)
        ensures
            final(self)@ == (TrayModel {
                pending: Some(ChoiceModel::Action(TrayAction::ToggleVisibility)),
                ..old(self)@
            }),
    {
        self.pending = Some(TrayChoice::Action(TrayAction::ToggleVisibility));
    }

    /// Opens the menu, unless it is open already.
    pub fn open_menu(&mut self) -> (snapshot: Option<MenuSnapshot>)
        ensures
            snapshot is Some <==> !old(self)@.menu_open,
            final(self)@ == (TrayModel { menu_open: true, ..old(self)@ }),
            snapshot matches Some(shown) ==> crate::spout::order::name_bytes(shown.names@) == old(self)@.names
                && entry_models(shown.entries@) == old(self)@.menu(),
    {
        if self.menu_open {
            return None;
        }
        self.menu_open = true;
        let labels = display_names(&self.names);
        let selected = match &self.selected {
            Some(name) => Some(name.display_name()),
            None => None,
        };
        Some(
            MenuSnapshot {
                names: copy_names(&self.names),
                entries: context_menu(decode_state(self.code), &labels, &selected),
            },
        )
    }

    /// Takes the command that a menu gave, zero when none was chosen.
    pub fn take_command(&mut self, snapshot: &MenuSnapshot, command: u32)
        ensures
            final(self)@ == old(self)@.after_choice(command, crate::spout::order::name_bytes(snapshot.names@)),
    {
        if command != 0 {
            self.pending = resolve_command(command, &snapshot.names);
        }
    }

    pub fn close_menu(&mut self)
        ensures
            final(self)@ == (TrayModel { menu_open: false, ..old(self)@ }),
    {
        self.menu_open = false;
    }

    /// Forgets what was chosen, because the icon goes away.
    pub fn remove(&mut self)
        ensures
            final(self)@ == (TrayModel { pending: None, ..old(self)@ }),
    {
        self.pending = None;
    }
}

/// A rate comes back from its number.
pub proof fn rate_round_trips(rate: FrameRate)
    ensures
        coded_rate(rate_code(rate)) == rate,
{
}

/// A state comes back from its number.
pub proof fn tray_state_round_trips(state: TrayState)
    ensures
        0 <= state_code(state) < 64,
        coded_state(state_code(state) as u32) == state,
{
}

/// No two commands stand for the same action.
pub proof fn commands_are_distinct(one: u32, other: u32)
    requires
        commanded_action(one) is Some,
        commanded_action(one) == commanded_action(other),
    ensures
        one == other,
{
}

/// The lines for the frame rates set the rates that they name, and the current rate alone is
/// checked.
pub proof fn rate_lines_set_their_rates(current: FrameRate)
    ensures
        commanded_action(rate_items(current)[0].command) == Some(
            TrayAction::SetFrameRate(FrameRate::Unlimited),
        ),
        commanded_action(rate_items(current)[1].command) == Some(
            TrayAction::SetFrameRate(FrameRate::Fps120),
        ),
        commanded_action(rate_items(current)[2].command) == Some(
            TrayAction::SetFrameRate(FrameRate::Fps60),
        ),
        commanded_action(rate_items(current)[3].command) == Some(
            TrayAction::SetFrameRate(FrameRate::Fps30),
        ),
        forall|i: int|
            0 <= i < 4 ==> ((#[trigger] rate_items(current)[i]).checked <==> commanded_action(
                rate_items(current)[i].command,
            ) == Some(TrayAction::SetFrameRate(current))),
{
}

/// The line at an index of the source menu chooses the source at that index, whatever the list
/// of sources has become by the time that the line is chosen.
pub proof fn chosen_line_is_the_shown_source(
    opened: TrayModel,
    index: int,
    refreshed: Seq<Seq<u8>>,
    selected: Option<Seq<u8>>,
)
    requires
        0 <= index < opened.names.len(),
        index < MAX_SOURCE_COMMANDS,
    ensures
        ({
            let line = source_items(
                displayed(opened.names),
                displayed_selection(opened.selected),
            )[index];
            let later = TrayModel { names: refreshed, selected, ..opened };
            &&& line.label == crate::text::doubled_ampersands(
                crate::text::lossy_text(opened.names[index]),
            )
            &&& !line.grayed
            &&& later.after_choice(line.command, opened.names).pending == Some(
                ChoiceModel::Source(opened.names[index]),
            )
        }),
{
}

/// Closing the menu without a choice keeps what was chosen before.
pub proof fn dismissing_the_menu_chooses_nothing(tray: TrayModel, names: Seq<Seq<u8>>)
    ensures
        tray.after_choice(0, names) == tray,
{
}

/// The lines of the menu do what they say: the line about interaction shows whether that is on and
/// switches it, the line about staying on top likewise, the first line hides and shows the window,
/// and the last one ends the program.
pub proof fn lines_do_what_they_say(
    state: TrayState,
    labels: Seq<Seq<char>>,
    selected: Option<Seq<char>>,
    names: Seq<Seq<u8>>,
)
    ensures
        ({
            let menu = menu_entries(state, labels, selected);
            &&& menu.len() == 7
            &&& menu[0] matches EntryModel::Item(line) && {
                &&& commanded_action(line.command) == Some(TrayAction::ToggleVisibility)
                &&& line.grayed == !state.has_source
                &&& !line.checked
                &&& line.label == if !state.has_source {
                    "无可用来源"@
                } else if state.visible {
                    "隐藏窗口"@
                } else {
                    "显示窗口"@
                }
            }
            &&& menu[1] == EntryModel::Submenu("来源"@, source_items(labels, selected))
            &&& menu[2] matches EntryModel::Item(line) && {
                &&& commanded_action(line.command) == Some(TrayAction::ToggleInteraction)
                &&& line.label == "交互模式"@
                &&& line.checked == state.interaction
                &&& !line.grayed
            }
            &&& menu[3] matches EntryModel::Item(line) && {
                &&& commanded_action(line.command) == Some(TrayAction::ToggleTopmost)
                &&& line.label == "窗口置顶"@
                &&& line.checked == state.topmost
                &&& !line.grayed
            }
            &&& menu[4] == EntryModel::Submenu("帧率"@, rate_items(state.frame_rate))
            &&& menu[5] is Separator
            &&& menu[6] matches EntryModel::Item(line) && {
                &&& commanded_action(line.command) == Some(TrayAction::Quit)
                &&& line.label == "退出"@
                &&& !line.checked
                &&& !line.grayed
            }
        }),
{
}

/// A change of the window shows in the line that would bring it about, and in no other: switching
/// interaction changes the line that switches interaction, and staying on top the line that
/// switches that.
pub proof fn switches_show_in_their_own_lines(
    state: TrayState,
    labels: Seq<Seq<char>>,
    selected: Option<Seq<char>>,
    i: int,
)
    requires
        0 <= i < 7,
    ensures
        ({
            let menu = menu_entries(state, labels, selected);
            let switched = menu_entries(
                TrayState { interaction: !state.interaction, ..state },
                labels,
                selected,
            );
            menu[i] != switched[i] <==> (menu[i] matches EntryModel::Item(line)
                && commanded_action(line.command) == Some(TrayAction::ToggleInteraction))
        }),
        ({
            let menu = menu_entries(state, labels, selected);
            let switched = menu_entries(
                TrayState { topmost: !state.topmost, ..state },
                labels,
                selected,
            );
            menu[i] != switched[i] <==> (menu[i] matches EntryModel::Item(line)
                && commanded_action(line.command) == Some(TrayAction::ToggleTopmost))
        }),
{
    let menu = menu_entries(state, labels, selected);
    let interaction = menu_entries(
        TrayState { interaction: !state.interaction, ..state },
        labels,
        selected,
    );
    let topmost = menu_entries(TrayState { topmost: !state.topmost, ..state }, labels, selected);
    assert(menu[2]->Item_0.checked != interaction[2]->Item_0.checked);
    assert(menu[3]->Item_0.checked != topmost[3]->Item_0.checked);
}

/// The frame-rate lines are labelled with the rates that they set.
pub proof fn rate_lines_are_labelled(current: FrameRate, i: int)
    requires
        0 <= i < 4,
    ensures
        rate_items(current).len() == 4,
        !rate_items(current)[i].grayed,
        commanded_action(rate_items(current)[i].command) == Some(
            TrayAction::SetFrameRate(FrameRate::Unlimited),
        ) <==> rate_items(current)[i].label == "不限制"@,
        commanded_action(rate_items(current)[i].command) == Some(
            TrayAction::SetFrameRate(FrameRate::Fps120),
        ) <==> rate_items(current)[i].label == "120 FPS"@,
        commanded_action(rate_items(current)[i].command) == Some(
            TrayAction::SetFrameRate(FrameRate::Fps60),
        ) <==> rate_items(current)[i].label == "60 FPS"@,
        commanded_action(rate_items(current)[i].command) == Some(
            TrayAction::SetFrameRate(FrameRate::Fps30),
        ) <==> rate_items(current)[i].label == "30 FPS"@,
{
    reveal_strlit("不限制");
    reveal_strlit("120 FPS");
    reveal_strlit("60 FPS");
    reveal_strlit("30 FPS");
    assert("不限制"@.len() == 3 && "120 FPS"@.len() == 7);
    assert("60 FPS"@[0] == '6' && "30 FPS"@[0] == '3');
    assert("60 FPS"@.len() == 6 && "30 FPS"@.len() == 6);
}

/// The source menu has a line for each source, up to 512, of which exactly those that read like the
/// selected one are checked; without a source it has a single gray line that does nothing.
pub proof fn source_lines_show_the_selection(
    labels: Seq<Seq<char>>,
    selected: Option<Seq<char>>,
    i: int,
)
    ensures
        labels.len() == 0 ==> source_items(labels, selected).len() == 1 && source_items(
            labels,
            selected,
        )[0].grayed && !source_items(labels, selected)[0].checked && commanded_action(
            source_items(labels, selected)[0].command,
        ) is None,
        0 < labels.len() <= 512 ==> source_items(labels, selected).len() == labels.len(),
        labels.len() > 512 ==> source_items(labels, selected).len() == 512,
        0 <= i < labels.len() && i < 512 ==> {
            let line = source_items(labels, selected)[i];
            &&& line.checked <==> selected == Some(labels[i])
            &&& !line.grayed
            &&& line.label == crate::text::doubled_ampersands(labels[i])
            &&& commanded_action(line.command) == Some(TrayAction::SelectSource(i as usize))
        },
{
}

/// The menu shows the state and the sources that the icon was told last.
pub proof fn menu_shows_what_was_told(tray: TrayModel, state: TrayState)
    requires
        tray.code == state_code(state),
    ensures
        tray.menu() == menu_entries(
            state,
            displayed(tray.names),
            displayed_selection(tray.selected),
        ),
        forall|i: int|
            0 <= i < tray.names.len() && i < 512 ==> (tray.selected == Some(tray.names[i])
                ==> (#[trigger] source_items(
                displayed(tray.names),
                displayed_selection(tray.selected),
            )[i]).checked),
{
    tray_state_round_trips(state);
}

/// Choosing the line of a switch leaves the choice of that switch behind, for whoever asks next.
pub proof fn chosen_lines_are_remembered(
    tray: TrayModel,
    state: TrayState,
    labels: Seq<Seq<char>>,
    selected: Option<Seq<char>>,
    names: Seq<Seq<u8>>,
)
    ensures
        ({
            let menu = menu_entries(state, labels, selected);
            &&& tray.after_choice(menu[0]->Item_0.command, names).pending == Some(
                ChoiceModel::Action(TrayAction::ToggleVisibility),
            )
            &&& tray.after_choice(menu[2]->Item_0.command, names).pending == Some(
                ChoiceModel::Action(TrayAction::ToggleInteraction),
            )
            &&& tray.after_choice(menu[3]->Item_0.command, names).pending == Some(
                ChoiceModel::Action(TrayAction::ToggleTopmost),
            )
            &&& tray.after_choice(menu[6]->Item_0.command, names).pending == Some(
                ChoiceModel::Action(TrayAction::Quit),
            )
        }),
        forall|command: u32|
            #[trigger] tray.after_choice(command, names) == (TrayModel {
                pending: tray.after_choice(command, names).pending,
                ..tray
            }),
{
}

/// A command stands for an action exactly when it is the command of a line: one of the five
/// switches and four rates, or one of 512 sources. Any other leaves nothing to be done.
pub proof fn other_commands_do_nothing(command: u32, names: Seq<Seq<u8>>, i: int)
    ensures
        commanded_action(command) is Some <==> 1001 <= command <= 1003 || 1010 <= command <= 1013
            || command == 1099 || 2000 <= command < 2512,
        0 <= i < 512 ==> commanded_action((2000 + i) as u32) == Some(
            TrayAction::SelectSource(i as usize),
        ),
        chosen(command, names) is Some <==> 1001 <= command <= 1003 || 1010 <= command <= 1013
            || command == 1099 || 2000 <= command < 2512 && command - 2000 < names.len(),
{
}

/// The icon opens its menu on a click with the right button or the key for menus, hides and shows
/// the window on a double click, and comes back when a new taskbar announces itself; every other
/// message has nothing to do with it.
pub proof fn icon_answers_its_messages(message: u32, event: u32, taskbar_created: u32)
    ensures
        meaning_of(message, event, taskbar_created) == TrayMessage::OpenMenu <==> message == 0x8001
            && (event == 0x0205 || event == 0x007B),
        meaning_of(message, event, taskbar_created) == TrayMessage::ToggleVisibility <==> message
            == 0x8001 && event == 0x0203,
        message != 0x8001 ==> (meaning_of(message, event, taskbar_created)
            == TrayMessage::RestoreIcon <==> taskbar_created != 0 && message == taskbar_created),
        message == 0x8001 && taskbar_created != 0x8001 ==> meaning_of(
            message,
            event,
            taskbar_created,
        ) != TrayMessage::RestoreIcon,
{
}

} // verus!
