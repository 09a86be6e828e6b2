//! Input: from raw pointer, wheel, touch and key events to what the camera
//! and the frame loop are asked to do.
//!
//! Events only record. What they add up to is taken once per frame by
//! [`InputHandler::update_camera`], which measures the pointer against the
//! position it last consumed, so that any number of moves between two frames
//! make one camera command.
use vstd::prelude::*;
use crate::scalar::Scalar;

verus! {

/// Button number of the primary pointer button, which rotates.
pub const PRIMARY_BUTTON: i16 = 0;

/// Button number of the secondary pointer button, which pans.
pub const SECONDARY_BUTTON: i16 = 2;

/// Encoding of 0.1, the dead zone of the zoom delta.
pub const DEAD_ZONE_BITS: u32 = 0x3DCC_CCCD;

/// Encoding of 0.01, the radians turned for each pixel dragged.
pub const ROTATE_SENSITIVITY_BITS: u32 = 0x3C23_D70A;

/// Encoding of 5.0, the zoom delta for each pixel of pinch.
pub const PINCH_SENSITIVITY_BITS: u32 = 0x40A0_0000;

/// A pointer or touch position in whole pixels.
#[derive(Clone, Copy, Debug, PartialEq, Eq, Structural)]
pub struct Point {
    pub x: i32,
    pub y: i32,
}

/// What a key press means here.
#[derive(Clone, Copy, Debug, PartialEq, Eq, Structural)]
pub enum Key {
    /// The key that pauses and resumes the simulation.
    Pause,
    /// The key that puts the camera back.
    Reset,
    /// Any other key.
    Other,
}

/// One change that the accumulated input asks of the camera.
#[derive(Clone, Copy, Debug, PartialEq, Eq, Structural)]
pub enum CameraCommand {
    /// Turn by the pixels dragged since the pointer was last consumed.
    Rotate { dx: i64, dy: i64 },
    /// Shift by the pixels dragged since the pointer was last consumed.
    Pan { dx: i64, dy: i64 },
    /// Zoom by the pending delta.
    Zoom { delta: Scalar },
    /// Put the camera back to where it started.
    Reset,
}

/// What has been recorded since input was last consumed.
#[derive(Clone, Copy, Debug, PartialEq, Eq, Structural)]
pub struct InputState {
    /// Where the pointer is.
    pub mouse_pos: Point,
    /// Where the pointer was when a frame last consumed it.
    pub last_mouse_pos: Point,
    /// Whether the secondary button is held.
    pub is_dragging: bool,
    /// Whether the primary button, or a single touch, is held.
    pub is_rotating: bool,
    /// The zoom delta waiting for the next frame; positive zooms in.
    pub zoom_delta: Scalar,
    /// Whether the pause key was pressed and not yet acted on.
    pub pause_pressed: bool,
    /// Whether the reset key was pressed and not yet acted on.
    pub reset_pressed: bool,
    /// Contacts on the surface at the last touch start or end.
    pub touch_count: usize,
    /// Distance between the first two contacts at their last sample; zero
    /// while there is none to compare with.
    pub last_pinch_distance: Scalar,
}

/// Whether a move of `delta` pixels along one axis is more than a tenth of
/// a pixel, the dead zone of the pointer.
pub open spec fn beyond_dead_zone(delta: int) -> bool {
    10 * delta > 1 || 10 * delta < -1
}

/// The code of the key that pauses.
pub open spec fn pause_code() -> Seq<char> {
    "Space"@
}

/// The code of the key that resets.
pub open spec fn reset_code() -> Seq<char> {
    "KeyR"@
}

/// What the key with the code `code` means.
pub open spec fn key_spec(code: Seq<char>) -> Key {
    if code == pause_code() {
        Key::Pause
    } else if code == reset_code() {
        Key::Reset
    } else {
        Key::Other
    }
}

impl InputState {
    /// The state before any event.
    pub open spec fn initial() -> InputState {
        InputState {
            mouse_pos: Point { x: 0, y: 0 },
            last_mouse_pos: Point { x: 0, y: 0 },
            is_dragging: false,
            is_rotating: false,
            zoom_delta: Scalar { bits: 0 },
            pause_pressed: false,
            reset_pressed: false,
            touch_count: 0,
            last_pinch_distance: Scalar { bits: 0 },
        }
    }

    /// After a button went down at `at`: the primary button starts rotating,
    /// the secondary one panning, and the pointer counts as consumed there.
    pub open spec fn after_mouse_down(self, button: i16, at: Point) -> InputState {
        InputState {
            is_rotating: self.is_rotating || button == PRIMARY_BUTTON,
            is_dragging: self.is_dragging || button == SECONDARY_BUTTON,
            last_mouse_pos: at,
            mouse_pos: at,
            ..self
        }
    }

    /// After the pointer moved to `at`.
    pub open spec fn after_mouse_move(self, at: Point) -> InputState {
        InputState { mouse_pos: at, ..self }
    }

    /// After a button went up: neither rotating nor panning.
    pub open spec fn after_mouse_up(self) -> InputState {
        InputState { is_dragging: false, is_rotating: false, ..self }
    }

    /// After the wheel turned by `delta_y`: scrolling down zooms out.
    pub open spec fn after_wheel(self, delta_y: Scalar) -> InputState {
        InputState { zoom_delta: delta_y.neg_spec(), ..self }
    }

    /// After `contacts` touched down, the first two of them `distance`
    /// apart. A single contact rotates; two or more start a pinch.
    pub open spec fn after_touch_start(self, contacts: Seq<Point>, distance: Scalar) -> InputState {
        let counted = InputState { touch_count: contacts.len() as usize, ..self };
        let placed = if contacts.len() > 0 {
            InputState {
                last_mouse_pos: contacts[0],
                mouse_pos: contacts[0],
                is_rotating: contacts.len() == 1,
                ..counted
            }
        } else {
            counted
        };
        if contacts.len() >= 2 {
            InputState { last_pinch_distance: distance, ..placed }
        } else {
            placed
        }
    }

    /// Whether there is an earlier pinch distance to compare with.
    pub open spec fn pinch_armed(self) -> bool {
        self.last_pinch_distance.gt(Scalar { bits: 0 })
    }

    /// After `contacts` moved, the first two of them now `distance` apart,
    /// which makes a zoom delta of `zoom` against the distance before. A
    /// single contact moves the pointer; two or more pinch.
    pub open spec fn after_touch_move(
        self,
        contacts: Seq<Point>,
        distance: Scalar,
        zoom: Scalar,
    ) -> InputState {
        if contacts.len() == 1 {
            InputState { mouse_pos: contacts[0], ..self }
        } else if contacts.len() >= 2 {
            InputState {
                zoom_delta: if self.pinch_armed() {
                    zoom
                } else {
                    self.zoom_delta
                },
                last_pinch_distance: distance,
                ..self
            }
        } else {
            self
        }
    }

    /// After contacts lifted and `remaining` stay down.
    pub open spec fn after_touch_end(self, remaining: usize) -> InputState {
        if remaining == 0 {
            InputState {
                touch_count: 0,
                is_rotating: false,
                last_pinch_distance: Scalar { bits: 0 },
                ..self
            }
        } else {
            InputState { touch_count: remaining, ..self }
        }
    }

    /// After `key` went down.
    pub open spec fn after_key_down(self, key: Key) -> InputState {
        match key {
            Key::Pause => InputState { pause_pressed: true, ..self },
            Key::Reset => InputState { reset_pressed: true, ..self },
            Key::Other => self,
        }
    }

    /// Pixels along x between the pointer and where it was last consumed.
    pub open spec fn delta_x(self) -> int {
        self.mouse_pos.x - self.last_mouse_pos.x
    }

    /// Pixels along y between the pointer and where it was last consumed.
    pub open spec fn delta_y(self) -> int {
        self.mouse_pos.y - self.last_mouse_pos.y
    }

    /// Whether the pointer left the dead zone around where it was last
    /// consumed.
    pub open spec fn pointer_moved(self) -> bool {
        beyond_dead_zone(self.delta_x()) || beyond_dead_zone(self.delta_y())
    }

    /// Whether a rotation is due.
    pub open spec fn rotation_due(self) -> bool {
        self.is_rotating && self.pointer_moved()
    }

    /// Whether a pan is due. A move that rotates is used up by the rotation.
    pub open spec fn pan_due(self) -> bool {
        self.is_dragging && !self.is_rotating && self.pointer_moved()
    }

    /// Whether the pending zoom delta is beyond its dead zone. A NaN is not.
    pub open spec fn zoom_due(self) -> bool {
        self.zoom_delta.abs_spec().gt(Scalar { bits: DEAD_ZONE_BITS })
    }

    /// What the camera is asked to do, in the order in which it is done:
    /// rotate, pan, zoom, reset.
    pub open spec fn pending_commands(self) -> Seq<CameraCommand> {
        let rotate = if self.rotation_due() {
            seq![CameraCommand::Rotate { dx: self.delta_x() as i64, dy: self.delta_y() as i64 }]
        } else {
            Seq::empty()
        };
        let pan = if self.pan_due() {
            seq![CameraCommand::Pan { dx: self.delta_x() as i64, dy: self.delta_y() as i64 }]
        } else {
            Seq::empty()
        };
        let zoom = if self.zoom_due() {
            seq![CameraCommand::Zoom { delta: self.zoom_delta }]
        } else {
            Seq::empty()
        };
        let reset = if self.reset_pressed {
            seq![CameraCommand::Reset]
        } else {
            Seq::empty()
        };
        rotate + pan + zoom + reset
    }

    /// The state once the pending commands are taken: the pointer is
    /// consumed where it moved something, a zoom delta that was due is zero,
    /// and the reset is no longer pending.
    pub open spec fn drained(self) -> InputState {
        InputState {
            last_mouse_pos: if self.rotation_due() || self.pan_due() {
                self.mouse_pos
            } else {
                self.last_mouse_pos
            },
            zoom_delta: if self.zoom_due() {
                Scalar { bits: 0 }
            } else {
                self.zoom_delta
            },
            reset_pressed: false,
            ..self
        }
    }

    /// The state before any event.
    pub fn new() -> (state: InputState)
        ensures
            state == InputState::initial(),
    {
        InputState {
            mouse_pos: Point { x: 0, y: 0 },
            last_mouse_pos: Point { x: 0, y: 0 },
            is_dragging: false,
            is_rotating: false,
            zoom_delta: Scalar { bits: 0 },
            pause_pressed: false,
            reset_pressed: false,
            touch_count: 0,
            last_pinch_distance: Scalar { bits: 0 },
        }
    }
}

/// What the key with the code `code` means: `"Space"` pauses, `"KeyR"`
/// resets, and no other key does anything.
pub fn key_of(code: &str) -> (key: Key)
    ensures
        key == key_spec(code@),
{
    let owned: String = code.to_owned();
    if owned == "Space".to_owned() {
        Key::Pause
    } else if owned == "KeyR".to_owned() {
        Key::Reset
    } else {
        Key::Other
    }
}

/// The input of one canvas: the recorded state, fed by events and consumed
/// once per frame.
pub struct InputHandler {
    state: InputState,
}

impl View for InputHandler {
    type V = InputState;

    closed spec fn view(&self) -> InputState {
        self.state
    }
}

impl InputHandler {
    /// A handler that has seen no event.
    pub fn new() -> (handler: InputHandler)
        ensures
            handler@ == InputState::initial(),
    {
        InputHandler { state: InputState::new() }
    }

    /// The recorded state.
    pub fn state(&self) -> (state: InputState)
        ensures
            state == self@,
    {
        self.state
    }

    /// A pointer button went down at `at`. The default action stays.
    pub fn mouse_down(&mut self, button: i16, at: Point) -> (prevent_default: bool)
        ensures
            final(self)@ == old(self)@.after_mouse_down(button, at),
            !prevent_default,
    {
        if button == PRIMARY_BUTTON {
            self.state.is_rotating = true;
        } else if button == SECONDARY_BUTTON {
            self.state.is_dragging = true;
        }
        self.state.last_mouse_pos = at;
        self.state.mouse_pos = at;
        false
    }

    /// The pointer moved to `at`. Only the position is recorded; the camera
    /// moves when the frame consumes it.
    pub fn mouse_move(&mut self, at: Point) -> (prevent_default: bool)
        ensures
            final(self)@ == old(self)@.after_mouse_move(at),
            !prevent_default,
    {
        self.state.mouse_pos = at;
        false
    }

    /// A pointer button went up.
    pub fn mouse_up(&mut self) -> (prevent_default: bool)
        ensures
            final(self)@ == old(self)@.after_mouse_up(),
            !prevent_default,
    {
        self.state.is_dragging = false;
        self.state.is_rotating = false;
        false
    }

    /// The context menu was asked for. It is always suppressed, so that the
    /// secondary button can pan; nothing is recorded.
    pub fn context_menu(&self) -> (prevent_default: bool)
        ensures
            prevent_default,
    {
        true
    }

    /// The wheel turned by `delta_y`. The pending zoom delta becomes its
    /// negation, whatever was pending; the page does not scroll.
    pub fn wheel(&mut self, delta_y: Scalar) -> (prevent_default: bool)
        ensures
            final(self)@ == old(self)@.after_wheel(delta_y),
            prevent_default,
    {
        self.state.zoom_delta = delta_y.neg();
        true
    }

    /// Contacts touched down; `contacts` are all that are now on the
    /// surface, and `distance` is how far apart the first two are (read only
    /// where there are two).
    pub fn touch_start(&mut self, contacts: &Vec<Point>, distance: Scalar) -> (prevent_default:
        bool)
        ensures
            final(self)@ == old(self)@.after_touch_start(contacts@, distance),
            prevent_default,
    {
        self.state.touch_count = contacts.len();
        if contacts.len() > 0 {
            self.state.last_mouse_pos = contacts[0];
            self.state.mouse_pos = contacts[0];
            self.state.is_rotating = contacts.len() == 1;
        }
        if contacts.len() >= 2 {
            self.state.last_pinch_distance = distance;
        }
        true
    }

    /// Contacts moved; `contacts` are all that are on the surface,
    /// `distance` is how far apart the first two are now, and `zoom` is the
    /// zoom delta that this distance makes against
    /// `last_pinch_distance`: their difference times the pinch sensitivity.
    /// Both are read only where there are two contacts, and `zoom` only
    /// where there is an earlier distance.
    pub fn touch_move(&mut self, contacts: &Vec<Point>, distance: Scalar, zoom: Scalar) -> (prevent_default:
        bool)
        ensures
            final(self)@ == old(self)@.after_touch_move(contacts@, distance, zoom),
            prevent_default,
    {
        if contacts.len() == 1 {
            self.state.mouse_pos = contacts[0];
        } else if contacts.len() >= 2 {
            if self.state.last_pinch_distance.greater_than(Scalar::from_bits(0)) {
                self.state.zoom_delta = zoom;
            }
            self.state.last_pinch_distance = distance;
        }
        true
    }

    /// Contacts lifted and `remaining` stay on the surface.
    pub fn touch_end(&mut self, remaining: usize) -> (prevent_default: bool)
        ensures
            final(self)@ == old(self)@.after_touch_end(remaining),
            prevent_default,
    {
        self.state.touch_count = remaining;
        if remaining == 0 {
            self.state.is_rotating = false;
            self.state.last_pinch_distance = Scalar::from_bits(0);
        }
        true
    }

    /// The key with the code `code` went down. Only the pause key keeps its
    /// default action from happening.
    pub fn key_down(&mut self, code: &str) -> (prevent_default: bool)
        ensures
            final(self)@ == old(self)@.after_key_down(key_spec(code@)),
            prevent_default == (key_spec(code@) == Key::Pause),
    {
        match key_of(code) {
            Key::Pause => {
                self.state.pause_pressed = true;
                true
            },
            Key::Reset => {
                self.state.reset_pressed = true;
                false
            },
            Key::Other => false,
        }
    }

    /// Takes what the input asks of the camera since the last frame, in the
    /// order in which it is to be done, and leaves nothing of it pending.
    pub fn update_camera(&mut self) -> (commands: Vec<CameraCommand>)
        ensures
            commands@ == old(self)@.pending_commands(),
            final(self)@ == old(self)@.drained(),
    {
        let mut commands: Vec<CameraCommand> = Vec::new();
        let dx: i64 = self.state.mouse_pos.x as i64 - self.state.last_mouse_pos.x as i64;
        let dy: i64 = self.state.mouse_pos.y as i64 - self.state.last_mouse_pos.y as i64;
        let moved: bool = dx != 0 || dy != 0;
        if self.state.is_rotating && moved {
            commands.push(CameraCommand::Rotate { dx, dy });
            self.state.last_mouse_pos = self.state.mouse_pos;
        } else if self.state.is_dragging && moved {
            commands.push(CameraCommand::Pan { dx, dy });
            self.state.last_mouse_pos = self.state.mouse_pos;
        }
        if self.state.zoom_delta.abs().greater_than(Scalar::from_bits(DEAD_ZONE_BITS)) {
            commands.push(CameraCommand::Zoom { delta: self.state.zoom_delta });
            self.state.zoom_delta = Scalar::from_bits(0);
        }
        if self.state.reset_pressed {
            commands.push(CameraCommand::Reset);
            self.state.reset_pressed = false;
        }
        assert(commands@ =~= old(self)@.pending_commands());
        commands
    }

    /// Whether the pause key was pressed since this was last asked. The
    /// press is used up by the asking.
    pub fn pause_toggled(&mut self) -> (toggled: bool)
        ensures
            toggled == old(self)@.pause_pressed,
            final(self)@ == (InputState { pause_pressed: false, ..old(self)@ }),
    {
        if self.state.pause_pressed {
            self.state.pause_pressed = false;
            true
        } else {
            false
        }
    }
}

/// The offsets along x and y from the first contact to the second: what a
/// pinch distance is measured from. None where fewer than two contacts are
/// down; then there is no pinch and its distance counts as zero.
pub fn pinch_span(contacts: &Vec<Point>) -> (span: Option<(i64, i64)>)
    ensures
        contacts@.len() < 2 <==> span is None,
        span matches Some(offsets) ==> offsets.0 == contacts@[1].x - contacts@[0].x && offsets.1
            == contacts@[1].y - contacts@[0].y,
{
    if contacts.len() >= 2 {
        let first: Point = contacts[0];
        let second: Point = contacts[1];
        Some((second.x as i64 - first.x as i64, second.y as i64 - first.y as i64))
    } else {
        None
    }
}

/// Input is consumed once: right after the pending commands are taken,
/// nothing is pending, and taking again changes nothing. So a turn of the
/// wheel zooms in one frame only, and a press of the reset key resets once.
pub proof fn law_input_is_consumed_once(state: InputState)
    ensures
        state.drained().pending_commands() == Seq::<CameraCommand>::empty(),
        state.drained().drained() == state.drained(),
        !state.drained().reset_pressed,
{
    let after = state.drained();
    assert(!after.rotation_due());
    assert(!after.pan_due());
    assert(!after.zoom_due());
    assert(after.pending_commands() =~= Seq::<CameraCommand>::empty());
}

/// Moves between two frames collapse: only the last position counts, and
/// the frame measures it against the position it last consumed, not against
/// the move before.
pub proof fn law_moves_collapse(state: InputState, first: Point, second: Point)
    ensures
        state.after_mouse_move(first).after_mouse_move(second) == state.after_mouse_move(second),
        state.after_mouse_move(second).delta_x() == second.x - state.last_mouse_pos.x,
        state.after_mouse_move(second).delta_y() == second.y - state.last_mouse_pos.y,
{
}

/// A pointer that rests where it was last consumed asks for nothing, and one
/// that is a whole pixel away along either axis is out of the dead zone.
pub proof fn law_pointer_dead_zone(state: InputState)
    ensures
        state.mouse_pos == state.last_mouse_pos ==> !state.pointer_moved(),
        state.mouse_pos != state.last_mouse_pos ==> state.pointer_moved(),
        !state.is_rotating && !state.is_dragging ==> !state.rotation_due() && !state.pan_due(),
{
}

/// The two key flags are edge-triggered: only a press of their key sets
/// them, no other event touches them, and each is cleared by the one call
/// that reads it, so that one press has one effect.
pub proof fn law_key_flags_are_edge_triggered(
    state: InputState,
    button: i16,
    at: Point,
    scalar: Scalar,
    contacts: Seq<Point>,
    remaining: usize,
    key: Key,
)
    ensures
        state.after_mouse_down(button, at).pause_pressed == state.pause_pressed,
        state.after_mouse_down(button, at).reset_pressed == state.reset_pressed,
        state.after_mouse_move(at).pause_pressed == state.pause_pressed,
        state.after_mouse_move(at).reset_pressed == state.reset_pressed,
        state.after_mouse_up().pause_pressed == state.pause_pressed,
        state.after_mouse_up().reset_pressed == state.reset_pressed,
        state.after_wheel(scalar).pause_pressed == state.pause_pressed,
        state.after_wheel(scalar).reset_pressed == state.reset_pressed,
        state.after_touch_start(contacts, scalar).pause_pressed == state.pause_pressed,
        state.after_touch_start(contacts, scalar).reset_pressed == state.reset_pressed,
        state.after_touch_move(contacts, scalar, scalar).pause_pressed == state.pause_pressed,
        state.after_touch_move(contacts, scalar, scalar).reset_pressed == state.reset_pressed,
        state.after_touch_end(remaining).pause_pressed == state.pause_pressed,
        state.after_touch_end(remaining).reset_pressed == state.reset_pressed,
        state.after_key_down(key).pause_pressed == (state.pause_pressed || key == Key::Pause),
        state.after_key_down(key).reset_pressed == (state.reset_pressed || key == Key::Reset),
        state.drained().pause_pressed == state.pause_pressed,
        !state.drained().reset_pressed,
        state.reset_pressed <==> state.pending_commands().contains(CameraCommand::Reset),
{
    let commands = state.pending_commands();
    if state.reset_pressed {
        assert(commands[commands.len() - 1] == CameraCommand::Reset);
    }
}

} // verus!
