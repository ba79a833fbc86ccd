//! Keyboard, pointer and gamepad state, merged into one frame-scoped view.
use vstd::prelude::*;

use crate::analog::{clamp_button_value, clamped_unit, normalize_axis_value, normalized_axis, ZERO_BITS};
use crate::table::{Duplicate, Key, KeyMap, KeySet};

verus! {

/// Whether a key or button went down or up.
#[derive(Clone, Copy, Debug, PartialEq, Eq, Structural)]
pub enum ElementState {
    Pressed,
    Released,
}

#[derive(Clone, Copy, Debug, PartialEq, Eq, Structural)]
pub enum MouseButton {
    Left,
    Right,
    Middle,
    Back,
    Forward,
    Other(u16),
}

/// One wheel movement: in lines (two `f32` bit patterns) or in pixels (two
/// `f64` bit patterns).
#[derive(Clone, Copy, Debug, PartialEq, Eq, Structural)]
pub enum ScrollDelta {
    Line(u32, u32),
    Pixel(u64, u64),
}

/// The window events this crate distinguishes. A key is a physical key code,
/// absent when the platform could not identify the key; a position is a pair
/// of `f64` bit patterns.
#[derive(Clone, Copy, Debug, PartialEq, Eq, Structural)]
pub enum WindowEvent {
    KeyboardInput { key: Option<u32>, state: ElementState },
    CursorMoved { x: u64, y: u64 },
    MouseInput { button: MouseButton, state: ElementState },
    MouseWheel { delta: ScrollDelta },
    ModifiersChanged { modifiers: u32 },
    Resized { width: u32, height: u32 },
    RedrawRequested,
    CloseRequested,
    Other,
}

#[derive(Clone, Copy, Debug, PartialEq, Eq, Structural)]
pub enum Button {
    South,
    East,
    North,
    West,
    C,
    Z,
    LeftTrigger,
    LeftTrigger2,
    RightTrigger,
    RightTrigger2,
    Select,
    Start,
    Mode,
    LeftThumb,
    RightThumb,
    DPadUp,
    DPadDown,
    DPadLeft,
    DPadRight,
    Unknown,
}

#[derive(Clone, Copy, Debug, PartialEq, Eq, Structural)]
pub enum Axis {
    LeftStickX,
    LeftStickY,
    LeftZ,
    RightStickX,
    RightStickY,
    RightZ,
    DPadX,
    DPadY,
    Unknown,
}

impl Key for MouseButton {
    fn same(&self, other: &Self) -> (r: bool) {
        *self == *other
    }
}

impl Key for Button {
    fn same(&self, other: &Self) -> (r: bool) {
        *self == *other
    }
}

impl Key for Axis {
    fn same(&self, other: &Self) -> (r: bool) {
        *self == *other
    }
}

/// A button of one device, as recorded by an edge.
#[derive(Clone, Copy, Debug, PartialEq, Eq, Structural)]
pub struct DeviceButton {
    pub id: usize,
    pub button: Button,
}

impl Key for DeviceButton {
    fn same(&self, other: &Self) -> (r: bool) {
        *self == *other
    }
}

/// What the backend reports about a device.
#[derive(Debug, Clone)]
pub struct GamepadInfo {
    pub name: String,
    pub is_connected: bool,
}

impl Default for GamepadInfo {
    fn default() -> (r: Self)
        ensures
            r.name@ == Seq::<char>::empty(),
            !r.is_connected,
    {
        GamepadInfo { name: String::new(), is_connected: false }
    }
}

impl GamepadInfo {
    pub fn copied(&self) -> (r: Self)
        ensures
            r == *self,
    {
        GamepadInfo { name: self.name.clone(), is_connected: self.is_connected }
    }
}

/// Everything recorded for one device.
pub struct GamepadState {
    pub info: GamepadInfo,
    pub buttons_down: KeySet<Button>,
    /// Analog value of each button, as `f32` bits in `[0.0, 1.0]`.
    pub button_values: KeyMap<Button, u32>,
    /// Value of each axis, as `f32` bits in `[-1.0, 1.0]`.
    pub axes: KeyMap<Axis, u32>,
}

/// The abstract value of a [`GamepadState`].
pub struct GamepadView {
    pub info: GamepadInfo,
    pub buttons_down: Set<Button>,
    pub button_values: Map<Button, u32>,
    pub axes: Map<Axis, u32>,
}

impl GamepadView {
    /// A device seen for the first time: nothing held, no readings.
    pub open spec fn fresh(info: GamepadInfo) -> GamepadView {
        GamepadView {
            info,
            buttons_down: Set::empty(),
            button_values: Map::empty(),
            axes: Map::empty(),
        }
    }
}

impl View for GamepadState {
    type V = GamepadView;

    open spec fn view(&self) -> GamepadView {
        GamepadView {
            info: self.info,
            buttons_down: self.buttons_down@,
            button_values: self.button_values@,
            axes: self.axes@,
        }
    }
}

impl GamepadState {
    pub fn new(info: GamepadInfo) -> (r: Self)
        ensures
            r@ == GamepadView::fresh(info),
    {
        GamepadState {
            info,
            buttons_down: KeySet::new(),
            button_values: KeyMap::new(),
            axes: KeyMap::new(),
        }
    }
}

impl Duplicate for GamepadState {
    fn duplicate(&self) -> (r: Self) {
        GamepadState {
            info: self.info.copied(),
            buttons_down: self.buttons_down.duplicate(),
            button_values: self.button_values.duplicate(),
            axes: self.axes.duplicate(),
        }
    }
}

/// A copy of every device's state at one moment.
pub struct GamepadsSnapshot {
    pub gamepads: KeyMap<usize, GamepadState>,
}

/// A change reported by the gamepad backend.
#[derive(Clone, Copy, Debug, PartialEq, Eq, Structural)]
pub enum GamepadEventKind {
    Connected,
    Disconnected,
    ButtonPressed(Button),
    ButtonReleased(Button),
    /// A button's analog value, as `f32` bits.
    ButtonChanged(Button, u32),
    /// An axis value, as `f32` bits.
    AxisChanged(Axis, u32),
    /// Any other kind, which is ignored.
    Other,
}

/// A backend event for device `id`, with what the backend reported about that
/// device when the event was drained.
pub struct GamepadEvent {
    pub id: usize,
    pub kind: GamepadEventKind,
    pub info: GamepadInfo,
}

/// The abstract value of an [`InputManager`].
pub struct InputView<E> {
    pub keys_down: Set<u32>,
    pub mouse_buttons_down: Set<MouseButton>,
    pub cursor_position: Option<(u64, u64)>,
    /// Wheel movements since the last frame reset, oldest first; the
    /// accumulated scroll is their sum.
    pub scroll_deltas: Seq<ScrollDelta>,
    pub last_key: Option<(u32, ElementState)>,
    pub last_mouse_button: Option<(MouseButton, ElementState)>,
    pub latest_event: Option<E>,
    pub gamepads: Map<usize, GamepadView>,
    pub just_pressed: Set<DeviceButton>,
    pub just_released: Set<DeviceButton>,
}

/// The device table after its entry for `id` takes `info`; an entry seen for
/// the first time starts fresh, an existing one keeps its readings.
pub open spec fn refreshed(g: Map<usize, GamepadView>, id: usize, info: GamepadInfo) -> Map<
    usize,
    GamepadView,
> {
    if g.contains_key(id) {
        g.insert(id, GamepadView { info, ..g[id] })
    } else {
        g.insert(id, GamepadView::fresh(info))
    }
}

/// The effect of one backend event.
pub open spec fn gamepad_step<E>(v: InputView<E>, ev: GamepadEvent) -> InputView<E> {
    let id = ev.id;
    let g = refreshed(v.gamepads, id, ev.info);
    match ev.kind {
        GamepadEventKind::Connected => InputView { gamepads: g, ..v },
        GamepadEventKind::Disconnected => InputView { gamepads: g, ..v },
        GamepadEventKind::ButtonPressed(b) => InputView {
            gamepads: g.insert(id, GamepadView { buttons_down: g[id].buttons_down.insert(b), ..g[id] }),
            just_pressed: v.just_pressed.insert(DeviceButton { id, button: b }),
            ..v
        },
        GamepadEventKind::ButtonReleased(b) => InputView {
            gamepads: g.insert(id, GamepadView { buttons_down: g[id].buttons_down.remove(b), ..g[id] }),
            just_released: v.just_released.insert(DeviceButton { id, button: b }),
            ..v
        },
        GamepadEventKind::ButtonChanged(b, x) => InputView {
            gamepads: g.insert(
                id,
                GamepadView { button_values: g[id].button_values.insert(b, clamped_unit(x)), ..g[id] },
            ),
            ..v
        },
        GamepadEventKind::AxisChanged(a, x) => InputView {
            gamepads: g.insert(id, GamepadView { axes: g[id].axes.insert(a, normalized_axis(x)), ..g[id] }),
            ..v
        },
        GamepadEventKind::Other => v,
    }
}

/// The effect of a sequence of backend events, in arrival order.
pub open spec fn gamepad_steps<E>(v: InputView<E>, evs: Seq<GamepadEvent>) -> InputView<E>
    decreases evs.len(),
{
    if evs.len() == 0 {
        v
    } else {
        gamepad_step(gamepad_steps(v, evs.drop_last()), evs.last())
    }
}

/// The state at the start of a gamepad update: last update's edges dropped.
pub open spec fn edges_cleared<E>(v: InputView<E>) -> InputView<E> {
    InputView { just_pressed: Set::empty(), just_released: Set::empty(), ..v }
}

/// The device table seeded with devices known at start-up.
pub open spec fn seeded(devices: Seq<(usize, GamepadInfo)>) -> Map<usize, GamepadView>
    decreases devices.len(),
{
    if devices.len() == 0 {
        Map::empty()
    } else {
        refreshed(seeded(devices.drop_last()), devices.last().0, devices.last().1)
    }
}

/// The effect of one window event on the keyboard and pointer state. Only
/// the input kinds change anything; the event itself is recorded separately.
pub open spec fn window_step<E>(v: InputView<E>, event: WindowEvent) -> InputView<E> {
    match event {
        WindowEvent::KeyboardInput { key, state } => match key {
            Some(code) => InputView {
                last_key: Some((code, state)),
                keys_down: if state == ElementState::Pressed {
                    v.keys_down.insert(code)
                } else {
                    v.keys_down.remove(code)
                },
                ..v
            },
            None => v,
        },
        WindowEvent::CursorMoved { x, y } => InputView { cursor_position: Some((x, y)), ..v },
        WindowEvent::MouseInput { button, state } => InputView {
            last_mouse_button: Some((button, state)),
            mouse_buttons_down: if state == ElementState::Pressed {
                v.mouse_buttons_down.insert(button)
            } else {
                v.mouse_buttons_down.remove(button)
            },
            ..v
        },
        WindowEvent::MouseWheel { delta } => InputView { scroll_deltas: v.scroll_deltas.push(delta), ..v },
        _ => v,
    }
}

/// Whether `button` of device `id` is held in `v`.
pub open spec fn held<E>(v: InputView<E>, id: usize, button: Button) -> bool {
    v.gamepads.contains_key(id) && v.gamepads[id].buttons_down.contains(button)
}

/// The last press or release of `button` on device `id` among `evs`:
/// `Some(true)` for a press, `Some(false)` for a release, `None` if neither
/// occurs.
pub open spec fn last_transition(evs: Seq<GamepadEvent>, id: usize, button: Button) -> Option<bool>
    decreases evs.len(),
{
    if evs.len() == 0 {
        None
    } else if evs.last().id == id && evs.last().kind == GamepadEventKind::ButtonPressed(button) {
        Some(true)
    } else if evs.last().id == id && evs.last().kind == GamepadEventKind::ButtonReleased(button) {
        Some(false)
    } else {
        last_transition(evs.drop_last(), id, button)
    }
}

/// Whether `evs` holds a press of `button` on device `id`.
pub open spec fn has_press(evs: Seq<GamepadEvent>, id: usize, button: Button) -> bool {
    exists|i: int| 0 <= i < evs.len() && evs[i].id == id && evs[i].kind == GamepadEventKind::ButtonPressed(button)
}

/// However presses and releases interleave, a button is held exactly when
/// its last transition was a press; without one, it stays as it was. Other
/// events, and events of other devices, leave it alone.
pub proof fn lemma_held_follows_last_transition<E>(
    v: InputView<E>,
    evs: Seq<GamepadEvent>,
    id: usize,
    button: Button,
)
    ensures
        held(gamepad_steps(v, evs), id, button) == match last_transition(evs, id, button) {
            Some(pressed) => pressed,
            None => held(v, id, button),
        },
    decreases evs.len(),
{
    if evs.len() > 0 {
        lemma_held_follows_last_transition(v, evs.drop_last(), id, button);
    }
}

proof fn lemma_just_pressed_steps<E>(v: InputView<E>, evs: Seq<GamepadEvent>, id: usize, button: Button)
    ensures
        gamepad_steps(v, evs).just_pressed.contains(DeviceButton { id, button })
            <==> (v.just_pressed.contains(DeviceButton { id, button }) || has_press(evs, id, button)),
    decreases evs.len(),
{
    if evs.len() > 0 {
        let init = evs.drop_last();
        lemma_just_pressed_steps(v, init, id, button);
        if has_press(init, id, button) {
            let i = choose|i: int| 0 <= i < init.len() && init[i].id == id
                && init[i].kind == GamepadEventKind::ButtonPressed(button);
            assert(evs[i] == init[i]);
        }
        if has_press(evs, id, button) && !has_press(init, id, button) {
            let i = choose|i: int| 0 <= i < evs.len() && evs[i].id == id
                && evs[i].kind == GamepadEventKind::ButtonPressed(button);
            if i < evs.len() - 1 {
                assert(init[i] == evs[i]);
            }
        }
    }
}

/// After an update, a button was just pressed exactly when that update's
/// events hold a press of it: the edge lasts one update.
pub proof fn lemma_just_pressed_one_update<E>(v: InputView<E>, evs: Seq<GamepadEvent>, id: usize, button: Button)
    ensures
        gamepad_steps(edges_cleared(v), evs).just_pressed.contains(DeviceButton { id, button })
            == has_press(evs, id, button),
{
    lemma_just_pressed_steps(edges_cleared(v), evs, id, button);
}

/// A press seen by one update is reported by it, and by no later update
/// whose events hold no new press of that button.
pub proof fn lemma_press_edge_then_gone<E>(
    v: InputView<E>,
    first: Seq<GamepadEvent>,
    second: Seq<GamepadEvent>,
    id: usize,
    button: Button,
)
    requires
        has_press(first, id, button),
        !has_press(second, id, button),
    ensures
        gamepad_steps(edges_cleared(v), first).just_pressed.contains(DeviceButton { id, button }),
        !gamepad_steps(edges_cleared(gamepad_steps(edges_cleared(v), first)), second).just_pressed.contains(
            DeviceButton { id, button },
        ),
{
    lemma_just_pressed_one_update(v, first, id, button);
    lemma_just_pressed_one_update(gamepad_steps(edges_cleared(v), first), second, id, button);
}

/// A disconnect only updates the device's info: its held buttons and its
/// recorded readings stay until later events overwrite them.
pub proof fn lemma_disconnect_keeps_readings<E>(v: InputView<E>, ev: GamepadEvent)
    requires
        ev.kind == GamepadEventKind::Disconnected,
        v.gamepads.contains_key(ev.id),
    ensures
        gamepad_step(v, ev).gamepads[ev.id] == (GamepadView { info: ev.info, ..v.gamepads[ev.id] }),
        gamepad_step(v, ev).gamepads.dom() == v.gamepads.dom(),
{
    assert(gamepad_step(v, ev).gamepads.dom() =~= v.gamepads.dom());
}

/// Keyboard, pointer and gamepad state. `E` is the platform's own event type,
/// of which the latest one polled is kept for callers that need more than
/// this type records.
pub struct InputManager<E> {
    latest_event: Option<E>,
    keys_down: KeySet<u32>,
    mouse_buttons_down: KeySet<MouseButton>,
    cursor_position: Option<(u64, u64)>,
    scroll_deltas: Vec<ScrollDelta>,
    last_key: Option<(u32, ElementState)>,
    last_mouse_button: Option<(MouseButton, ElementState)>,
    gamepads: KeyMap<usize, GamepadState>,
    just_pressed: KeySet<DeviceButton>,
    just_released: KeySet<DeviceButton>,
}

impl<E> View for InputManager<E> {
    type V = InputView<E>;

    closed spec fn view(&self) -> InputView<E> {
        InputView {
            keys_down: self.keys_down@,
            mouse_buttons_down: self.mouse_buttons_down@,
            cursor_position: self.cursor_position,
            scroll_deltas: self.scroll_deltas@,
            last_key: self.last_key,
            last_mouse_button: self.last_mouse_button,
            latest_event: self.latest_event,
            gamepads: self.gamepads@,
            just_pressed: self.just_pressed@,
            just_released: self.just_released@,
        }
    }
}

impl<E> InputManager<E> {
    /// An aggregator that knows the devices connected at start-up, each with
    /// what the backend reported about it.
    pub fn new(devices: Vec<(usize, GamepadInfo)>) -> (r: Self)
        ensures
            r@ == (InputView::<E> {
                keys_down: Set::empty(),
                mouse_buttons_down: Set::empty(),
                cursor_position: None,
                scroll_deltas: Seq::empty(),
                last_key: None,
                last_mouse_button: None,
                latest_event: None,
                gamepads: seeded(devices@),
                just_pressed: Set::empty(),
                just_released: Set::empty(),
            }),
    {
        let mut r = InputManager {
            latest_event: None,
            keys_down: KeySet::new(),
            mouse_buttons_down: KeySet::new(),
            cursor_position: None,
            scroll_deltas: Vec::new(),
            last_key: None,
            last_mouse_button: None,
            gamepads: KeyMap::new(),
            just_pressed: KeySet::new(),
            just_released: KeySet::new(),
        };
        let mut i: usize = 0;
        while i < devices.len()
            invariant
                i <= devices.len(),
                r@ == (InputView::<E> {
                    keys_down: Set::empty(),
                    mouse_buttons_down: Set::empty(),
                    cursor_position: None,
                    scroll_deltas: Seq::empty(),
                    last_key: None,
                    last_mouse_button: None,
                    latest_event: None,
                    gamepads: seeded(devices@.subrange(0, i as int)),
                    just_pressed: Set::empty(),
                    just_released: Set::empty(),
                }),
            decreases devices.len() - i,
        {
            let id = devices[i].0;
            let info = devices[i].1.copied();
            r.refresh_gamepad_info(id, info);
            assert(devices@.subrange(0, i + 1).drop_last() =~= devices@.subrange(0, i as int));
            i += 1;
        }
        assert(devices@.subrange(0, devices@.len() as int) =~= devices@);
        r
    }

    fn refresh_gamepad_info(&mut self, id: usize, info: GamepadInfo)
        ensures
            final(self)@ == (InputView { gamepads: refreshed(old(self)@.gamepads, id, info), ..old(self)@ }),
    {
        match self.gamepads.take(&id) {
            Some(mut state) => {
                state.info = info;
                self.gamepads.insert(id, state);
            },
            None => {
                self.gamepads.insert(id, GamepadState::new(info));
            },
        }
        proof {
            assert(self@.gamepads =~= refreshed(old(self)@.gamepads, id, info));
        }
    }

    /// Applies one backend event.
    fn apply_gamepad_event(&mut self, ev: &GamepadEvent)
        ensures
            final(self)@ == gamepad_step(old(self)@, *ev),
    {
        let id = ev.id;
        match ev.kind {
            GamepadEventKind::Other => {
                return;
            },
            _ => {},
        }
        self.refresh_gamepad_info(id, ev.info.copied());
        let ghost g = self@.gamepads;
        match ev.kind {
            GamepadEventKind::ButtonPressed(b) => {
                if let Some(mut state) = self.gamepads.take(&id) {
                    state.buttons_down.insert(b);
                    self.gamepads.insert(id, state);
                }
                self.just_pressed.insert(DeviceButton { id, button: b });
                assert(self@.gamepads =~= g.insert(id, GamepadView { buttons_down: g[id].buttons_down.insert(b), ..g[id] }));
            },
            GamepadEventKind::ButtonReleased(b) => {
                if let Some(mut state) = self.gamepads.take(&id) {
                    state.buttons_down.remove(&b);
                    self.gamepads.insert(id, state);
                }
                self.just_released.insert(DeviceButton { id, button: b });
                assert(self@.gamepads =~= g.insert(id, GamepadView { buttons_down: g[id].buttons_down.remove(b), ..g[id] }));
            },
            GamepadEventKind::ButtonChanged(b, x) => {
                if let Some(mut state) = self.gamepads.take(&id) {
                    state.button_values.insert(b, clamp_button_value(x));
                    self.gamepads.insert(id, state);
                }
                assert(self@.gamepads =~= g.insert(id, GamepadView { button_values: g[id].button_values.insert(b, clamped_unit(x)), ..g[id] }));
            },
            GamepadEventKind::AxisChanged(a, x) => {
                if let Some(mut state) = self.gamepads.take(&id) {
                    state.axes.insert(a, normalize_axis_value(x));
                    self.gamepads.insert(id, state);
                }
                assert(self@.gamepads =~= g.insert(id, GamepadView { axes: g[id].axes.insert(a, normalized_axis(x)), ..g[id] }));
            },
            _ => {},
        }
    }

    /// Processes the gamepad events drained from the backend since the last
    /// call, in arrival order. Call once per frame: the previous call's
    /// just-pressed and just-released edges are dropped first, so an edge
    /// lasts exactly one update.
    pub fn update_gamepads(&mut self, events: Vec<GamepadEvent>)
        ensures
            final(self)@ == gamepad_steps(edges_cleared(old(self)@), events@),
    {
        self.just_pressed.clear();
        self.just_released.clear();
        proof {
            assert(self@ == gamepad_steps(edges_cleared(old(self)@), events@.subrange(0, 0)));
        }
        let mut i: usize = 0;
        while i < events.len()
            invariant
                i <= events.len(),
                self@ == gamepad_steps(edges_cleared(old(self)@), events@.subrange(0, i as int)),
            decreases events.len() - i,
        {
            self.apply_gamepad_event(&events[i]);
            assert(events@.subrange(0, i + 1).drop_last() =~= events@.subrange(0, i as int));
            i += 1;
        }
        assert(events@.subrange(0, events@.len() as int) =~= events@);
    }

    /// Forgets the frame-scoped values: the accumulated scroll and the last
    /// key and mouse-button transitions. Held keys and buttons and gamepad
    /// readings persist.
    pub fn reset_frame_deltas(&mut self)
        ensures
            final(self)@ == (InputView {
                scroll_deltas: Seq::empty(),
                last_key: None,
                last_mouse_button: None,
                ..old(self)@
            }),
    {
        self.scroll_deltas = Vec::new();
        self.last_key = None;
        self.last_mouse_button = None;
        assert(self@.scroll_deltas =~= Seq::empty());
    }

    /// Whether this window event is one that [`InputManager::poll`] takes.
    pub fn is_input_event(event: &WindowEvent) -> (r: bool)
        ensures
            r == (event is KeyboardInput || event is CursorMoved || event is MouseInput
                || event is MouseWheel || event is ModifiersChanged),
    {
        match event {
            WindowEvent::KeyboardInput { .. } => true,
            WindowEvent::CursorMoved { .. } => true,
            WindowEvent::MouseInput { .. } => true,
            WindowEvent::MouseWheel { .. } => true,
            WindowEvent::ModifiersChanged { .. } => true,
            _ => false,
        }
    }

    /// Records one window event: `event` is what this crate reads of it,
    /// `raw` the platform's own event, kept as the latest one.
    pub fn poll(&mut self, event: WindowEvent, raw: E)
        ensures
            final(self)@ == (InputView { latest_event: Some(raw), ..window_step(old(self)@, event) }),
    {
        match event {
            WindowEvent::KeyboardInput { key, state } => {
                if let Some(code) = key {
                    self.last_key = Some((code, state));
                    match state {
                        ElementState::Pressed => self.keys_down.insert(code),
                        ElementState::Released => self.keys_down.remove(&code),
                    }
                }
            },
            WindowEvent::CursorMoved { x, y } => {
                self.cursor_position = Some((x, y));
            },
            WindowEvent::MouseInput { button, state } => {
                self.last_mouse_button = Some((button, state));
                match state {
                    ElementState::Pressed => self.mouse_buttons_down.insert(button),
                    ElementState::Released => self.mouse_buttons_down.remove(&button),
                }
            },
            WindowEvent::MouseWheel { delta } => {
                self.scroll_deltas.push(delta);
            },
            _ => {},
        }
        self.latest_event = Some(raw);
    }

    pub fn is_key_down(&self, key: u32) -> (r: bool)
        ensures
            r == self@.keys_down.contains(key),
    {
        self.keys_down.contains(&key)
    }

    pub fn is_mouse_down(&self, button: MouseButton) -> (r: bool)
        ensures
            r == self@.mouse_buttons_down.contains(button),
    {
        self.mouse_buttons_down.contains(&button)
    }

    /// The last cursor position, as `f64` bits; none before the first move.
    pub fn cursor_position(&self) -> (r: Option<(u64, u64)>)
        ensures
            r == self@.cursor_position,
    {
        self.cursor_position
    }

    /// The wheel movements since the last frame reset, oldest first. The
    /// accumulated scroll is their sum, `(0.0, 0.0)` when there are none.
    pub fn scroll_delta(&self) -> (r: Vec<ScrollDelta>)
        ensures
            r@ == self@.scroll_deltas,
    {
        let mut r: Vec<ScrollDelta> = Vec::new();
        let mut i: usize = 0;
        while i < self.scroll_deltas.len()
            invariant
                i <= self.scroll_deltas.len(),
                r@ == self.scroll_deltas@.subrange(0, i as int),
            decreases self.scroll_deltas.len() - i,
        {
            r.push(self.scroll_deltas[i]);
            i += 1;
            assert(r@ =~= self.scroll_deltas@.subrange(0, i as int));
        }
        assert(r@ =~= self.scroll_deltas@);
        r
    }

    pub fn last_key(&self) -> (r: Option<(u32, ElementState)>)
        ensures
            r == self@.last_key,
    {
        self.last_key
    }

    pub fn last_mouse_button(&self) -> (r: Option<(MouseButton, ElementState)>)
        ensures
            r == self@.last_mouse_button,
    {
        self.last_mouse_button
    }

    /// Hands out the latest polled event, leaving none behind.
    pub fn take_latest_event(&mut self) -> (r: Option<E>)
        ensures
            r == old(self)@.latest_event,
            final(self)@ == (InputView { latest_event: None, ..old(self)@ }),
    {
        let mut r: Option<E> = None;
        std::mem::swap(&mut self.latest_event, &mut r);
        r
    }

    /// A deep copy of every device's state: later changes to this aggregator
    /// do not reach it.
    pub fn gamepads_snapshot(&self) -> (r: GamepadsSnapshot)
        ensures
            r.gamepads@ == self@.gamepads,
    {
        GamepadsSnapshot { gamepads: self.gamepads.duplicate() }
    }

    pub fn is_button_pressed(&self, id: usize, button: Button) -> (r: bool)
        ensures
            r == (self@.gamepads.contains_key(id) && self@.gamepads[id].buttons_down.contains(button)),
    {
        match self.gamepads.get(&id) {
            Some(state) => state.buttons_down.contains(&button),
            None => false,
        }
    }

    /// A button's analog value as `f32` bits; `0.0` when none was recorded.
    pub fn button_value(&self, id: usize, button: Button) -> (r: u32)
        ensures
            r == if self@.gamepads.contains_key(id) && self@.gamepads[id].button_values.contains_key(button) {
                self@.gamepads[id].button_values[button]
            } else {
                ZERO_BITS
            },
    {
        match self.gamepads.get(&id) {
            Some(state) => match state.button_values.get(&button) {
                Some(v) => *v,
                None => ZERO_BITS,
            },
            None => ZERO_BITS,
        }
    }

    /// An axis value as `f32` bits; `0.0` when none was recorded.
    pub fn axis_value(&self, id: usize, axis: Axis) -> (r: u32)
        ensures
            r == if self@.gamepads.contains_key(id) && self@.gamepads[id].axes.contains_key(axis) {
                self@.gamepads[id].axes[axis]
            } else {
                ZERO_BITS
            },
    {
        match self.gamepads.get(&id) {
            Some(state) => match state.axes.get(&axis) {
                Some(v) => *v,
                None => ZERO_BITS,
            },
            None => ZERO_BITS,
        }
    }

    pub fn was_button_just_pressed(&self, id: usize, button: Button) -> (r: bool)
        ensures
            r == self@.just_pressed.contains(DeviceButton { id, button }),
    {
        self.just_pressed.contains(&DeviceButton { id, button })
    }

    pub fn was_button_just_released(&self, id: usize, button: Button) -> (r: bool)
        ensures
            r == self@.just_released.contains(DeviceButton { id, button }),
    {
        self.just_released.contains(&DeviceButton { id, button })
    }
}

} // verus!
