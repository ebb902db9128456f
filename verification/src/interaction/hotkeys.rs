//! Global hotkeys: their configuration, their registration and the requests that they raise.
use vstd::prelude::*;
use vstd::string::*;

use crate::interaction::InteractionError;
use crate::text::{decimal_text, same_text, uppercase};

verus! {

pub const MOD_ALT: u32 = 0x0001;

pub const MOD_CONTROL: u32 = 0x0002;

pub const MOD_SHIFT: u32 = 0x0004;

/// Holding a hotkey down raises it once.
pub const MOD_NOREPEAT_FLAG: u32 = 0x4000;

/// The window message that reports a pressed hotkey.
pub const WM_HOTKEY_MSG: u32 = 0x0312;

/// The configuration that holds when no file replaces it.
pub const DEFAULT_HOTKEY_CONFIG: &'static str =
    "{\"hotkeys\":[{\"modifiers\":[\"CTRL\",\"SHIFT\"],\"key\":\"M\",\"action\":\"toggle_interaction\"},{\"modifiers\":[\"CTRL\",\"SHIFT\"],\"key\":\"F\",\"action\":\"cycle_framerate\"},{\"modifiers\":[\"CTRL\",\"SHIFT\"],\"key\":\"T\",\"action\":\"toggle_topmost\"},{\"modifiers\":[\"CTRL\",\"SHIFT\"],\"key\":\"Q\",\"action\":\"quit\"}]}";

/// What a hotkey does.
#[derive(Debug, Clone, Copy, PartialEq, Eq, Structural)]
pub enum HotKeyAction {
    ToggleInteraction,
    ToggleTopmost,
    Quit,
    CycleFrameRate,
}

/// One hotkey as it stands in a configuration.
#[derive(Debug)]
pub struct RawHotKeyDef {
    pub modifiers: Vec<String>,
    pub key: String,
    pub action: String,
}

/// One hotkey as it is registered.
#[derive(Debug, Clone, Copy, PartialEq, Eq, Structural)]
pub struct HotKeyBinding {
    pub id: i32,
    pub modifiers: u32,
    pub vk: u32,
    pub action: HotKeyAction,
}

pub open spec fn is_control(name: Seq<char>) -> bool {
    name == "CTRL"@ || name == "CONTROL"@
}

pub open spec fn is_shift(name: Seq<char>) -> bool {
    name == "SHIFT"@
}

pub open spec fn is_alt(name: Seq<char>) -> bool {
    name == "ALT"@
}

pub open spec fn is_modifier(name: Seq<char>) -> bool {
    is_control(name) || is_shift(name) || is_alt(name)
}

/// The flags that a list of capitalised modifier names stands for: one bit for each modifier
/// that occurs, and the flag against repetition. None when a name is unknown.
pub open spec fn flags_of(names: Seq<Seq<char>>) -> Option<u32> {
    if forall|i: int| 0 <= i < names.len() ==> is_modifier(#[trigger] names[i]) {
        let control: int = if exists|i: int|
            0 <= i < names.len() && is_control(#[trigger] names[i]) {
            2
        } else {
            0
        };
        let shift: int = if exists|i: int| 0 <= i < names.len() && is_shift(#[trigger] names[i]) {
            4
        } else {
            0
        };
        let alt: int = if exists|i: int| 0 <= i < names.len() && is_alt(#[trigger] names[i]) {
            1
        } else {
            0
        };
        Some((0x4000 + control + shift + alt) as u32)
    } else {
        None
    }
}

pub open spec fn texts(strings: Seq<String>) -> Seq<Seq<char>> {
    strings.map_values(|s: String| s@)
}

/// The names in capitals.
pub open spec fn capitalised(names: Seq<Seq<char>>) -> Seq<Seq<char>> {
    names.map_values(|name: Seq<char>| crate::text::uppercase_text(name))
}

/// The names in capitals, for names in plain ASCII.
pub open spec fn ascii_capitalised(names: Seq<Seq<char>>) -> Seq<Seq<char>> {
    names.map_values(|name: Seq<char>| crate::text::ascii_uppercase(name))
}

pub open spec fn all_ascii(names: Seq<Seq<char>>) -> bool {
    forall|i: int| 0 <= i < names.len() ==> vstd::utf8::is_ascii_chars(#[trigger] names[i])
}

/// Turns capitalised modifier names into registration flags.
pub fn modifier_flags(names: &Vec<String>) -> (flags: Option<u32>)
    ensures
        flags == flags_of(texts(names@)),
{
    let ghost all = texts(names@);
    let mut control: bool = false;
    let mut shift: bool = false;
    let mut alt: bool = false;
    let mut i: usize = 0;
    while i < names.len()
        invariant
            i <= names@.len(),
            all == texts(names@),
            forall|j: int| 0 <= j < i ==> is_modifier(#[trigger] all[j]),
            control == exists|j: int| 0 <= j < i && is_control(#[trigger] all[j]),
            shift == exists|j: int| 0 <= j < i && is_shift(#[trigger] all[j]),
            alt == exists|j: int| 0 <= j < i && is_alt(#[trigger] all[j]),
        decreases names@.len() - i,
    {
        let name = names[i].as_str();
        assert(all[i as int] == name@);
        proof {
            reveal_strlit("CTRL");
            reveal_strlit("CONTROL");
            reveal_strlit("SHIFT");
            reveal_strlit("ALT");
            assert("CTRL"@.len() == 4 && "CONTROL"@.len() == 7);
            assert("SHIFT"@.len() == 5 && "ALT"@.len() == 3);
        }
        if same_text(name, "CTRL") || same_text(name, "CONTROL") {
            control = true;
            assert(is_control(all[i as int]));
        } else if same_text(name, "SHIFT") {
            shift = true;
            assert(is_shift(all[i as int]));
        } else if same_text(name, "ALT") {
            alt = true;
            assert(is_alt(all[i as int]));
        } else {
            assert(!is_modifier(all[i as int]));
            return None;
        }
        assert(!control ==> !is_control(all[i as int]));
        assert(!shift ==> !is_shift(all[i as int]));
        assert(!alt ==> !is_alt(all[i as int]));
        i += 1;
    }
    let mut flags: u32 = MOD_NOREPEAT_FLAG;
    if control {
        flags = flags + MOD_CONTROL;
    }
    if shift {
        flags = flags + MOD_SHIFT;
    }
    if alt {
        flags = flags + MOD_ALT;
    }
    Some(flags)
}

/// Turns modifier names in any case into registration flags. An unknown name makes the whole
/// list invalid.
pub fn parse_modifiers(mods: &[String]) -> (flags: Option<u32>)
    ensures
        flags == flags_of(capitalised(texts(mods@))),
        all_ascii(texts(mods@)) ==> flags == flags_of(ascii_capitalised(texts(mods@))),
{
    let mut upper: Vec<String> = Vec::new();
    let mut i: usize = 0;
    while i < mods.len()
        invariant
            i <= mods@.len(),
            upper@.len() == i,
            forall|j: int|
                0 <= j < i ==> (#[trigger] upper@[j])@ == crate::text::uppercase_text(mods@[j]@),
            forall|j: int|
                0 <= j < i && vstd::utf8::is_ascii_chars(mods@[j]@) ==> (#[trigger] upper@[j])@
                    == crate::text::ascii_uppercase(mods@[j]@),
        decreases mods@.len() - i,
    {
        upper.push(uppercase(mods[i].as_str()));
        i += 1;
    }
    assert(texts(upper@) =~= capitalised(texts(mods@)));
    proof {
        if all_ascii(texts(mods@)) {
            assert forall|j: int| 0 <= j < mods@.len() implies vstd::utf8::is_ascii_chars(
                #[trigger] mods@[j]@,
            ) by {
                assert(texts(mods@)[j] == mods@[j]@);
            }
            assert(texts(upper@) =~= ascii_capitalised(texts(mods@)));
        }
    }
    modifier_flags(&upper)
}

/// The virtual key of a key name: a single ASCII letter or digit, the letter as its capital.
pub open spec fn vk_of(key: Seq<char>) -> Option<u32> {
    if key.len() == 1 && ('a' <= key[0] <= 'z' || 'A' <= key[0] <= 'Z' || '0' <= key[0] <= '9') {
        Some(crate::text::ascii_upper(key[0]) as u32)
    } else {
        None
    }
}

pub fn parse_vk(key: &str) -> (vk: Option<u32>)
    ensures
        vk == vk_of(key@),
{
    if key.unicode_len() != 1 {
        return None;
    }
    let c = key.get_char(0);
    if 'a' <= c && c <= 'z' {
        Some(c as u32 - 32)
    } else if ('A' <= c && c <= 'Z') || ('0' <= c && c <= '9') {
        Some(c as u32)
    } else {
        None
    }
}

pub open spec fn action_of(action: Seq<char>) -> Option<HotKeyAction> {
    if action == "toggle_interaction"@ {
        Some(HotKeyAction::ToggleInteraction)
    } else if action == "toggle_topmost"@ {
        Some(HotKeyAction::ToggleTopmost)
    } else if action == "quit"@ {
        Some(HotKeyAction::Quit)
    } else if action == "cycle_framerate"@ {
        Some(HotKeyAction::CycleFrameRate)
    } else {
        None
    }
}

pub fn parse_action(action: &str) -> (parsed: Option<HotKeyAction>)
    ensures
        parsed == action_of(action@),
{
    if same_text(action, "toggle_interaction") {
        Some(HotKeyAction::ToggleInteraction)
    } else if same_text(action, "toggle_topmost") {
        Some(HotKeyAction::ToggleTopmost)
    } else if same_text(action, "quit") {
        Some(HotKeyAction::Quit)
    } else if same_text(action, "cycle_framerate") {
        Some(HotKeyAction::CycleFrameRate)
    } else {
        None
    }
}

impl RawHotKeyDef {
    pub open spec fn flags(self) -> Option<u32> {
        flags_of(capitalised(texts(self.modifiers@)))
    }

    /// What is wrong with the definition at position `index`, if anything: the modifiers are
    /// looked at first, then the key, the action and the position.
    pub open spec fn fault(self, index: int) -> Option<Seq<char>> {
        if self.flags() is None {
            Some("Invalid modifiers in hotkey "@ + crate::text::decimal(index as nat))
        } else if vk_of(self.key@) is None {
            Some(
                "Unknown key '"@ + self.key@ + "' in hotkey "@ + crate::text::decimal(
                    index as nat,
                ),
            )
        } else if action_of(self.action@) is None {
            Some(
                "Unknown action '"@ + self.action@ + "' in hotkey "@ + crate::text::decimal(
                    index as nat,
                ),
            )
        } else if index + 1 > i32::MAX {
            Some("Too many hotkeys"@)
        } else {
            None
        }
    }

    /// The hotkey that the definition at position `index` asks for.
    pub open spec fn binding(self, index: int) -> HotKeyBinding {
        HotKeyBinding {
            id: (index + 1) as i32,
            modifiers: self.flags()->0,
            vk: vk_of(self.key@)->0,
            action: action_of(self.action@)->0,
        }
    }
}

/// No definition before position `end` has a fault.
pub open spec fn sound_before(defs: Seq<RawHotKeyDef>, end: int) -> bool {
    forall|i: int| 0 <= i < end ==> (#[trigger] defs[i]).fault(i) is None
}

pub open spec fn bindings_of(defs: Seq<RawHotKeyDef>) -> Seq<HotKeyBinding> {
    defs.map(|i: int, def: RawHotKeyDef| def.binding(i))
}

fn parse_hotkey(def: &RawHotKeyDef, index: usize) -> (parsed: Result<
    HotKeyBinding,
    InteractionError,
>)
    requires
        index < usize::MAX,
    ensures
        match def.fault(index as int) {
            None => parsed == Ok::<HotKeyBinding, InteractionError>(def.binding(index as int)),
            Some(message) => parsed matches Err(InteractionError::Config(text)) && text@
                == message,
        },
{
    let modifiers: u32 = match parse_modifiers(def.modifiers.as_slice()) {
        Some(flags) => flags,
        None => {
            let mut message = "Invalid modifiers in hotkey ".to_owned();
            message.append(decimal_text(index).as_str());
            return Err(InteractionError::Config(message));
        },
    };
    let vk: u32 = match parse_vk(def.key.as_str()) {
        Some(vk) => vk,
        None => {
            let mut message = "Unknown key '".to_owned();
            message.append(def.key.as_str());
            message.append("' in hotkey ");
            message.append(decimal_text(index).as_str());
            return Err(InteractionError::Config(message));
        },
    };
    let action = match parse_action(def.action.as_str()) {
        Some(action) => action,
        None => {
            let mut message = "Unknown action '".to_owned();
            message.append(def.action.as_str());
            message.append("' in hotkey ");
            message.append(decimal_text(index).as_str());
            return Err(InteractionError::Config(message));
        },
    };
    let id: u64 = index as u64 + 1;
    if id > i32::MAX as u64 {
        return Err(InteractionError::Config("Too many hotkeys".to_owned()));
    }
    Ok(HotKeyBinding { id: id as i32, modifiers, vk, action })
}

/// Checks a whole configuration before anything is registered. The hotkeys are numbered from
/// one in the order of the configuration; the first faulty definition is reported.
pub fn parse_hotkeys(defs: &Vec<RawHotKeyDef>) -> (parsed: Result<
    Vec<HotKeyBinding>,
    InteractionError,
>)
    ensures
        parsed is Ok <==> sound_before(defs@, defs@.len() as int),
        match parsed {
            Ok(bindings) => bindings@ == bindings_of(defs@),
            Err(error) => exists|i: int|
                0 <= i < defs@.len() && sound_before(defs@, i) && {
                    &&& (#[trigger] defs@[i]).fault(i) is Some
                    &&& error matches InteractionError::Config(text)
                    &&& text@ == defs@[i].fault(i)->0
                },
        },
{
    let mut bindings: Vec<HotKeyBinding> = Vec::with_capacity(defs.len());
    let mut i: usize = 0;
    while i < defs.len()
        invariant
            i <= defs@.len(),
            sound_before(defs@, i as int),
            bindings@.len() == i,
            forall|j: int| 0 <= j < i ==> #[trigger] bindings@[j] == defs@[j].binding(j),
        decreases defs@.len() - i,
    {
        match parse_hotkey(&defs[i], i) {
            Ok(binding) => bindings.push(binding),
            Err(error) => {
                assert(defs@[i as int].fault(i as int) is Some);
                return Err(error);
            },
        }
        i += 1;
    }
    assert(bindings@ =~= bindings_of(defs@));
    Ok(bindings)
}

/// A registered hotkey.
#[derive(Debug, Clone, Copy, PartialEq, Eq, Structural)]
pub struct ActiveHotkey {
    pub id: i32,
    pub action: HotKeyAction,
}

pub open spec fn active_of(bindings: Seq<HotKeyBinding>) -> Seq<ActiveHotkey> {
    bindings.map_values(|b: HotKeyBinding| ActiveHotkey { id: b.id, action: b.action })
}

pub open spec fn binding_ids(bindings: Seq<HotKeyBinding>) -> Seq<i32> {
    bindings.map_values(|b: HotKeyBinding| b.id)
}

/// The action of the first hotkey with the given number.
pub open spec fn action_for_id(hotkeys: Seq<ActiveHotkey>, id: i32) -> Option<HotKeyAction>
    decreases hotkeys.len(),
{
    if hotkeys.len() == 0 {
        None
    } else if hotkeys[0].id == id {
        Some(hotkeys[0].action)
    } else {
        action_for_id(hotkeys.drop_first(), id)
    }
}

/// The hotkeys that are in force.
#[derive(Debug)]
pub struct HotkeyRegistry {
    active: Vec<ActiveHotkey>,
}

impl View for HotkeyRegistry {
    type V = Seq<ActiveHotkey>;

    closed spec fn view(&self) -> Seq<ActiveHotkey> {
        self.active@
    }
}

impl HotkeyRegistry {
    pub fn new() -> (registry: Self)
        ensures
            registry@ == Seq::<ActiveHotkey>::empty(),
    {
        HotkeyRegistry { active: Vec::new() }
    }

    pub fn find_action(&self, id: i32) -> (action: Option<HotKeyAction>)
        ensures
            action == action_for_id(self@, id),
    {
        let mut i: usize = 0;
        assert(self.active@.subrange(0, self.active@.len() as int) =~= self.active@);
        while i < self.active.len()
            invariant
                i <= self.active@.len(),
                action_for_id(self.active@, id) == action_for_id(
                    self.active@.subrange(i as int, self.active@.len() as int),
                    id,
                ),
            decreases self.active@.len() - i,
        {
            let ghost rest = self.active@.subrange(i as int, self.active@.len() as int);
            if self.active[i].id == id {
                return Some(self.active[i].action);
            }
            assert(rest.drop_first() =~= self.active@.subrange(
                i + 1,
                self.active@.len() as int,
            ));
            i += 1;
        }
        None
    }
}

/// Forgets every hotkey and hands out the numbers that are to be released.
pub fn unregister_all_hotkeys(registry: &mut HotkeyRegistry) -> (ids: Vec<i32>)
    ensures
        ids@ == old(registry)@.map_values(|hotkey: ActiveHotkey| hotkey.id),
        final(registry)@ == Seq::<ActiveHotkey>::empty(),
{
    let mut ids: Vec<i32> = Vec::with_capacity(registry.active.len());
    let mut i: usize = 0;
    while i < registry.active.len()
        invariant
            i <= registry.active@.len(),
            registry@ == old(registry)@,
            registry.active@ == registry@,
            ids@.len() == i,
            forall|j: int| 0 <= j < i ==> #[trigger] ids@[j] == registry@[j].id,
        decreases registry.active@.len() - i,
    {
        ids.push(registry.active[i].id);
        i += 1;
    }
    assert(ids@ =~= registry@.map_values(|hotkey: ActiveHotkey| hotkey.id));
    registry.active.clear();
    ids
}

/// The registration of a checked configuration, hotkey by hotkey.
#[derive(Debug)]
pub struct Registration {
    bindings: Vec<HotKeyBinding>,
    registered: usize,
}

/// How far a [`Registration`] has come.
pub struct RegistrationState {
    pub bindings: Seq<HotKeyBinding>,
    pub registered: nat,
}

impl RegistrationState {
    pub open spec fn wf(self) -> bool {
        self.registered <= self.bindings.len()
    }

    pub open spec fn complete(self) -> bool {
        self.registered == self.bindings.len()
    }

    /// The hotkey that is registered next.
    pub open spec fn offered(self) -> Option<HotKeyBinding> {
        if self.complete() {
            None
        } else {
            Some(self.bindings[self.registered as int])
        }
    }

    /// The registration once the offered hotkey was accepted or refused.
    pub open spec fn reported(self, accepted: bool) -> RegistrationState {
        if accepted {
            RegistrationState { registered: self.registered + 1, ..self }
        } else {
            self
        }
    }

    /// The numbers of the hotkeys that were accepted, in order.
    pub open spec fn accepted_ids(self) -> Seq<i32> {
        binding_ids(self.bindings.subrange(0, self.registered as int))
    }
}

impl View for Registration {
    type V = RegistrationState;

    closed spec fn view(&self) -> RegistrationState {
        RegistrationState { bindings: self.bindings@, registered: self.registered as nat }
    }
}

/// A hotkey was refused. The hotkeys in `undo` were registered before it and have to be
/// released again.
#[derive(Debug)]
pub struct RegistrationFailure {
    pub error: InteractionError,
    pub undo: Vec<i32>,
}

impl Registration {
    pub fn new(bindings: Vec<HotKeyBinding>) -> (registration: Self)
        ensures
            registration@ == (RegistrationState { bindings: bindings@, registered: 0 }),
            registration@.wf(),
    {
        Registration { bindings, registered: 0 }
    }

    /// The hotkey to register now; none once all are registered.
    pub fn next(&self) -> (binding: Option<HotKeyBinding>)
        requires
            self@.wf(),
        ensures
            binding == self@.offered(),
    {
        if self.registered == self.bindings.len() {
            None
        } else {
            Some(self.bindings[self.registered])
        }
    }

    /// Takes note of how the registration of [`Registration::next`] went.
    pub fn report(&mut self, accepted: bool) -> (outcome: Result<(), RegistrationFailure>)
        requires
            old(self)@.wf(),
            !old(self)@.complete(),
        ensures
            final(self)@.wf(),
            outcome is Ok <==> accepted,
            final(self)@ == old(self)@.reported(accepted),
            outcome matches Err(failure) ==> {
                &&& failure.error == InteractionError::HotKeyRegistrationFailed {
                    id: old(self)@.offered()->0.id,
                }
                &&& failure.undo@ == old(self)@.accepted_ids()
            },
    {
        if accepted {
            assert(self.registered < self.bindings.len());
            self.registered = self.registered + 1;
            return Ok(());
        }
        let mut undo: Vec<i32> = Vec::with_capacity(self.registered);
        let mut i: usize = 0;
        while i < self.registered
            invariant
                i <= self.registered,
                self.registered < self.bindings@.len(),
                undo@.len() == i,
                forall|j: int| 0 <= j < i ==> #[trigger] undo@[j] == self.bindings@[j].id,
            decreases self.registered - i,
        {
            undo.push(self.bindings[i].id);
            i += 1;
        }
        assert(undo@ =~= binding_ids(self.bindings@.subrange(0, self.registered as int)));
        let id: i32 = self.bindings[self.registered].id;
        Err(RegistrationFailure { error: InteractionError::HotKeyRegistrationFailed { id }, undo })
    }

    /// Puts the registered hotkeys in force.
    pub fn finish(self, registry: &mut HotkeyRegistry)
        requires
            self@.complete(),
        ensures
            final(registry)@ == active_of(self@.bindings),
    {
        let mut active: Vec<ActiveHotkey> = Vec::with_capacity(self.bindings.len());
        let mut i: usize = 0;
        while i < self.bindings.len()
            invariant
                i <= self.bindings@.len(),
                active@.len() == i,
                forall|j: int|
                    0 <= j < i ==> #[trigger] active@[j] == (ActiveHotkey {
                        id: self.bindings@[j].id,
                        action: self.bindings@[j].action,
                    }),
            decreases self.bindings@.len() - i,
        {
            let binding = self.bindings[i];
            active.push(ActiveHotkey { id: binding.id, action: binding.action });
            i += 1;
        }
        assert(active@ =~= active_of(self.bindings@));
        registry.active = active;
    }
}

/// What the hotkeys have asked for since the last look.
#[derive(Debug, Clone, Copy, PartialEq, Eq, Structural)]
pub struct HotkeyRequests {
    pub toggle_interaction: bool,
    pub toggle_topmost: bool,
    pub quit: bool,
    pub cycle_framerate: bool,
}

impl HotkeyRequests {
    pub fn none() -> (requests: Self)
        ensures
            requests == (HotkeyRequests {
                toggle_interaction: false,
                toggle_topmost: false,
                quit: false,
                cycle_framerate: false,
            }),
    {
        HotkeyRequests {
            toggle_interaction: false,
            toggle_topmost: false,
            quit: false,
            cycle_framerate: false,
        }
    }

    /// The requests once `action` has been asked for too.
    pub open spec fn with(self, action: HotKeyAction) -> HotkeyRequests {
        match action {
            HotKeyAction::ToggleInteraction => HotkeyRequests { toggle_interaction: true, ..self },
            HotKeyAction::ToggleTopmost => HotkeyRequests { toggle_topmost: true, ..self },
            HotKeyAction::Quit => HotkeyRequests { quit: true, ..self },
            HotKeyAction::CycleFrameRate => HotkeyRequests { cycle_framerate: true, ..self },
        }
    }

    /// The requests once a message about the hotkey `id` has been looked at.
    pub open spec fn after_message(
        self,
        message: u32,
        id: i32,
        hotkeys: Seq<ActiveHotkey>,
    ) -> HotkeyRequests {
        match action_for_id(hotkeys, id) {
            Some(action) if message == WM_HOTKEY_MSG => self.with(action),
            _ => self,
        }
    }

    /// Takes everything that was asked for.
    pub fn take(&mut self) -> (requests: Self)
        ensures
            requests == *old(self),
            *final(self) == (HotkeyRequests {
                toggle_interaction: false,
                toggle_topmost: false,
                quit: false,
                cycle_framerate: false,
            }),
    {
        let requests = *self;
        *self = HotkeyRequests::none();
        requests
    }

    pub fn raise(&mut self, action: HotKeyAction)
        ensures
            *final(self) == old(self).with(action),
    {
        match action {
            HotKeyAction::ToggleInteraction => self.toggle_interaction = true,
            HotKeyAction::ToggleTopmost => self.toggle_topmost = true,
            HotKeyAction::Quit => self.quit = true,
            HotKeyAction::CycleFrameRate => self.cycle_framerate = true,
        }
    }
}

/// Looks at a window message. A hotkey message is handled here, whether or not its number is
/// known; any other is left to the window.
pub fn handle_hotkey_message(
    message: u32,
    id: i32,
    registry: &HotkeyRegistry,
    requests: &mut HotkeyRequests,
) -> (handled: bool)
    ensures
        handled == (message == WM_HOTKEY_MSG),
        *final(requests) == old(requests).after_message(message, id, registry@),
{
    if message != WM_HOTKEY_MSG {
        return false;
    }
    match registry.find_action(id) {
        Some(action) => requests.raise(action),
        None => {},
    }
    true
}

/// Whether interaction is to be toggled; asking takes the request.
pub fn poll_toggle_interaction(requests: &mut HotkeyRequests) -> (requested: bool)
    ensures
        requested == old(requests).toggle_interaction,
        *final(requests) == (HotkeyRequests { toggle_interaction: false, ..*old(requests) }),
{
    let requested = requests.toggle_interaction;
    requests.toggle_interaction = false;
    requested
}

/// Whether staying on top is to be toggled; asking takes the request.
pub fn poll_toggle_topmost(requests: &mut HotkeyRequests) -> (requested: bool)
    ensures
        requested == old(requests).toggle_topmost,
        *final(requests) == (HotkeyRequests { toggle_topmost: false, ..*old(requests) }),
{
    let requested = requests.toggle_topmost;
    requests.toggle_topmost = false;
    requested
}

/// Whether the program is to end; asking takes the request.
pub fn poll_quit(requests: &mut HotkeyRequests) -> (requested: bool)
    ensures
        requested == old(requests).quit,
        *final(requests) == (HotkeyRequests { quit: false, ..*old(requests) }),
{
    let requested = requests.quit;
    requests.quit = false;
    requested
}

/// Whether the frame rate is to be switched; asking takes the request.
pub fn poll_cycle_framerate(requests: &mut HotkeyRequests) -> (requested: bool)
    ensures
        requested == old(requests).cycle_framerate,
        *final(requests) == (HotkeyRequests { cycle_framerate: false, ..*old(requests) }),
{
    let requested = requests.cycle_framerate;
    requests.cycle_framerate = false;
    requested
}

/// Whether the window procedure could be hooked up.
pub fn subclass_outcome(installed: bool) -> (outcome: Result<(), InteractionError>)
    ensures
        outcome == if installed {
            Ok::<(), InteractionError>(())
        } else {
            Err(InteractionError::SubclassInstallFailed)
        },
{
    if installed {
        Ok(())
    } else {
        Err(InteractionError::SubclassInstallFailed)
    }
}

proof fn action_found_at(hotkeys: Seq<ActiveHotkey>, at: int)
    requires
        0 <= at < hotkeys.len(),
        forall|i: int| 0 <= i < at ==> (#[trigger] hotkeys[i]).id != hotkeys[at].id,
    ensures
        action_for_id(hotkeys, hotkeys[at].id) == Some(hotkeys[at].action),
    decreases at,
{
    if at > 0 {
        let rest = hotkeys.drop_first();
        assert forall|i: int| 0 <= i < at - 1 implies (#[trigger] rest[i]).id != rest[at - 1].id by {
            assert(rest[i] == hotkeys[i + 1]);
        }
        action_found_at(rest, at - 1);
    }
}

/// Once a sound configuration is in force, the hotkey of each of its definitions raises the
/// action that the definition names, and no other.
pub proof fn configured_hotkey_raises_its_action(defs: Seq<RawHotKeyDef>, at: int)
    requires
        sound_before(defs, defs.len() as int),
        0 <= at < defs.len(),
    ensures
        bindings_of(defs)[at].id == at + 1,
        action_for_id(active_of(bindings_of(defs)), (at + 1) as i32) == action_of(
            defs[at].action@,
        ),
        action_of(defs[at].action@) is Some,
{
    let active = active_of(bindings_of(defs));
    assert(defs[at].fault(at) is None);
    assert forall|i: int| 0 <= i < at implies (#[trigger] active[i]).id != active[at].id by {
        assert(defs[i].fault(i) is None);
    }
    action_found_at(active, at);
}

/// A number that no definition has raises nothing.
pub proof fn unknown_hotkey_raises_nothing(hotkeys: Seq<ActiveHotkey>, id: i32)
    requires
        forall|i: int| 0 <= i < hotkeys.len() ==> (#[trigger] hotkeys[i]).id != id,
    ensures
        action_for_id(hotkeys, id) is None,
    decreases hotkeys.len(),
{
    if hotkeys.len() > 0 {
        let rest = hotkeys.drop_first();
        assert forall|i: int| 0 <= i < rest.len() implies (#[trigger] rest[i]).id != id by {
            assert(rest[i] == hotkeys[i + 1]);
        }
        unknown_hotkey_raises_nothing(rest, id);
    }
}

/// Asking twice for the same thing between two looks counts once, and requests of different
/// kinds do not disturb each other.
pub proof fn requests_are_independent(before: HotkeyRequests, a: HotKeyAction, b: HotKeyAction)
    ensures
        before.with(a).with(a) == before.with(a),
        before.with(a).with(b) == before.with(b).with(a),
{
}

proof fn named_in_both(a: Seq<Seq<char>>, b: Seq<Seq<char>>)
    requires
        forall|name: Seq<char>| a.contains(name) ==> b.contains(name),
    ensures
        (exists|i: int| 0 <= i < a.len() && is_control(#[trigger] a[i])) ==> exists|j: int|
            0 <= j < b.len() && is_control(#[trigger] b[j]),
        (exists|i: int| 0 <= i < a.len() && is_shift(#[trigger] a[i])) ==> exists|j: int|
            0 <= j < b.len() && is_shift(#[trigger] b[j]),
        (exists|i: int| 0 <= i < a.len() && is_alt(#[trigger] a[i])) ==> exists|j: int|
            0 <= j < b.len() && is_alt(#[trigger] b[j]),
        (forall|j: int| 0 <= j < b.len() ==> is_modifier(#[trigger] b[j])) ==> forall|i: int|
            0 <= i < a.len() ==> is_modifier(#[trigger] a[i]),
{
    assert forall|i: int| 0 <= i < a.len() implies b.contains(#[trigger] a[i]) by {
        assert(a.contains(a[i]));
    }
}

/// The flags are the same in whatever order and however often the modifiers are named.
pub proof fn modifier_order_is_irrelevant(a: Seq<Seq<char>>, b: Seq<Seq<char>>)
    requires
        forall|name: Seq<char>| a.contains(name) <==> b.contains(name),
    ensures
        flags_of(a) == flags_of(b),
{
    named_in_both(a, b);
    named_in_both(b, a);
}

/// A list of modifiers is understood exactly when every name in it is one of the four known ones,
/// and the flags then hold the bit of a modifier exactly when the list names it.
pub proof fn flags_hold_the_named_modifiers(names: Seq<Seq<char>>)
    ensures
        flags_of(names) is Some <==> forall|name: Seq<char>| #[trigger]
            names.contains(name) ==> name == "CTRL"@ || name == "CONTROL"@ || name == "SHIFT"@
                || name == "ALT"@,
        flags_of(names) matches Some(flags) ==> {
            &&& flags & 0x4000 == 0x4000
            &&& flags & 2 == 2 <==> names.contains("CTRL"@) || names.contains("CONTROL"@)
            &&& flags & 4 == 4 <==> names.contains("SHIFT"@)
            &&& flags & 1 == 1 <==> names.contains("ALT"@)
            &&& flags < 0x4008
        },
{
    if forall|name: Seq<char>| #[trigger]
        names.contains(name) ==> name == "CTRL"@ || name == "CONTROL"@ || name == "SHIFT"@ || name
            == "ALT"@ {
        assert forall|i: int| 0 <= i < names.len() implies is_modifier(#[trigger] names[i]) by {
            assert(names.contains(names[i]));
        }
    }
    if let Some(flags) = flags_of(names) {
        let control = names.contains("CTRL"@) || names.contains("CONTROL"@);
        let shift = names.contains("SHIFT"@);
        let alt = names.contains("ALT"@);
        assert(control == exists|i: int| 0 <= i < names.len() && is_control(#[trigger] names[i]));
        assert(shift == exists|i: int| 0 <= i < names.len() && is_shift(#[trigger] names[i]));
        assert(alt == exists|i: int| 0 <= i < names.len() && is_alt(#[trigger] names[i]));
        assert(flags & 0x4000 == 0x4000 && (flags & 2 == 2 <==> control) && (flags & 4 == 4
            <==> shift) && (flags & 1 == 1 <==> alt)) by (bit_vector)
            requires
                flags == 0x4000 + (if control {
                    2int
                } else {
                    0int
                }) + (if shift {
                    4int
                } else {
                    0int
                }) + (if alt {
                    1int
                } else {
                    0int
                }),
        ;
    }
}

/// A key is a single letter or digit: a letter in either case stands for its capital's code, a
/// digit for its own, and nothing else is a key.
pub proof fn keys_are_letters_and_digits(key: Seq<char>, c: char)
    ensures
        key.len() != 1 ==> vk_of(key) is None,
        'A' <= c <= 'Z' || '0' <= c <= '9' ==> vk_of(seq![c]) == Some(c as u32),
        'a' <= c <= 'z' ==> vk_of(seq![c]) == Some((c as u32 - 32) as u32),
        vk_of(seq![c]) is Some <==> 'A' <= c <= 'Z' || 'a' <= c <= 'z' || '0' <= c <= '9',
{
}

/// The name of an action in a configuration.
pub open spec fn action_name(action: HotKeyAction) -> Seq<char> {
    match action {
        HotKeyAction::ToggleInteraction => "toggle_interaction"@,
        HotKeyAction::ToggleTopmost => "toggle_topmost"@,
        HotKeyAction::Quit => "quit"@,
        HotKeyAction::CycleFrameRate => "cycle_framerate"@,
    }
}

/// Every action is found under its name, and under no other.
pub proof fn actions_have_their_names(action: HotKeyAction, name: Seq<char>)
    ensures
        action_of(action_name(action)) == Some(action),
        action_of(name) == Some(action) ==> name == action_name(action),
{
    reveal_strlit("toggle_interaction");
    reveal_strlit("toggle_topmost");
    reveal_strlit("quit");
    reveal_strlit("cycle_framerate");
    assert("toggle_interaction"@.len() == 18 && "toggle_topmost"@.len() == 14);
    assert("quit"@.len() == 4 && "cycle_framerate"@.len() == 15);
}

/// A hotkey that is raised asks for its own action, and everything else that was asked for stays
/// as it was.
pub proof fn raised_action_is_asked_for(before: HotkeyRequests, action: HotKeyAction)
    ensures
        before.with(action).toggle_interaction == (before.toggle_interaction || action
            == HotKeyAction::ToggleInteraction),
        before.with(action).toggle_topmost == (before.toggle_topmost || action
            == HotKeyAction::ToggleTopmost),
        before.with(action).quit == (before.quit || action == HotKeyAction::Quit),
        before.with(action).cycle_framerate == (before.cycle_framerate || action
            == HotKeyAction::CycleFrameRate),
{
}

/// A definition is sound exactly when its modifiers, its key and its action are all understood and
/// it can be numbered; it is then registered with the flags of those modifiers and that key.
pub proof fn sound_definitions_are_registered(defs: Seq<RawHotKeyDef>, at: int)
    requires
        0 <= at < defs.len(),
    ensures
        defs[at].fault(at) is None <==> flags_of(capitalised(texts(defs[at].modifiers@))) is Some
            && vk_of(defs[at].key@) is Some && action_of(defs[at].action@) is Some && at
            < 0x7FFF_FFFF,
        defs[at].fault(at) is None ==> {
            let binding = bindings_of(defs)[at];
            &&& binding.id == at + 1
            &&& Some(binding.modifiers) == flags_of(capitalised(texts(defs[at].modifiers@)))
            &&& Some(binding.vk) == vk_of(defs[at].key@)
            &&& Some(binding.action) == action_of(defs[at].action@)
        },
        bindings_of(defs).len() == defs.len(),
{
}

/// The hotkeys are offered in the order of the configuration, each once: whatever is accepted joins
/// those that a later refusal releases again, a refusal changes nothing, and once every hotkey was
/// accepted none is left.
pub proof fn registration_goes_through_the_hotkeys(state: RegistrationState)
    requires
        state.wf(),
    ensures
        state.registered == 0 ==> state.accepted_ids().len() == 0,
        state.offered() is None <==> state.registered == state.bindings.len(),
        state.offered() matches Some(binding) ==> {
            &&& binding == state.bindings[state.registered as int]
            &&& state.reported(true).accepted_ids() == state.accepted_ids().push(binding.id)
            &&& state.reported(true).wf()
            &&& state.reported(true).bindings == state.bindings
            &&& state.reported(true).registered == state.registered + 1
        },
        state.reported(false) == state,
{
    if state.registered < state.bindings.len() {
        assert(state.reported(true).accepted_ids() =~= state.accepted_ids().push(
            state.offered()->0.id,
        ));
    }
}

/// Once a registration is complete, exactly its hotkeys are in force, under their numbers and with
/// their actions.
pub proof fn registered_hotkeys_are_in_force(bindings: Seq<HotKeyBinding>, i: int)
    requires
        0 <= i < bindings.len(),
    ensures
        active_of(bindings).len() == bindings.len(),
        active_of(bindings)[i].id == bindings[i].id,
        active_of(bindings)[i].action == bindings[i].action,
        binding_ids(bindings)[i] == bindings[i].id,
{
}

/// Of several faults the first is named: the modifiers come before the key, the key before the
/// action, and the action before the number of hotkeys. The definition is named by its position.
pub proof fn first_fault_is_named(def: RawHotKeyDef, index: nat)
    ensures
        def.flags() is None ==> def.fault(index as int) == Some(
            "Invalid modifiers in hotkey "@ + crate::text::decimal(index),
        ),
        def.flags() is Some && vk_of(def.key@) is None ==> def.fault(index as int) == Some(
            "Unknown key '"@ + def.key@ + "' in hotkey "@ + crate::text::decimal(index),
        ),
        def.flags() is Some && vk_of(def.key@) is Some && action_of(def.action@) is None
            ==> def.fault(index as int) == Some(
            "Unknown action '"@ + def.action@ + "' in hotkey "@ + crate::text::decimal(index),
        ),
        def.flags() is Some && vk_of(def.key@) is Some && action_of(def.action@) is Some && index
            >= 0x7FFF_FFFF ==> def.fault(index as int) == Some("Too many hotkeys"@),
{
}

/// Once a sound configuration is in force, the message of one of its hotkeys asks for the action of
/// that hotkey; no other message and no other number asks for anything.
pub proof fn hotkey_messages_ask_for_their_action(
    before: HotkeyRequests,
    defs: Seq<RawHotKeyDef>,
    at: int,
    message: u32,
    id: i32,
)
    requires
        sound_before(defs, defs.len() as int),
        0 <= at < defs.len(),
    ensures
        ({
            let hotkeys = active_of(bindings_of(defs));
            &&& before.after_message(0x0312, (at + 1) as i32, hotkeys) == before.with(
                action_of(defs[at].action@)->0,
            )
            &&& message != 0x0312 ==> before.after_message(message, id, hotkeys) == before
            &&& id < 1 || id > defs.len() ==> before.after_message(message, id, hotkeys) == before
        }),
{
    let hotkeys = active_of(bindings_of(defs));
    configured_hotkey_raises_its_action(defs, at);
    if id < 1 || id > defs.len() {
        assert forall|i: int| 0 <= i < hotkeys.len() implies (#[trigger] hotkeys[i]).id != id by {
            assert(defs[i].fault(i) is None);
        }
        unknown_hotkey_raises_nothing(hotkeys, id);
    }
}

} // verus!
