//! The editor's widgets as plain values: what they show, where, and how they
//! answer to the clock and the mouse. Drawing them is left to the caller.

use vstd::prelude::*;
use vstd::std_specs::iter::IteratorSpec;
use vstd::string::{axiom_spec_iter, next_postcondition};

use crate::soyboy::constants::ONE;
use crate::soyboy::utils::{interpolate, spec_clamp, spec_interpolate};
use crate::vst3::utils::{num_clamp, str_eq};

verus! {

/// Width of the editor's window, in pixels.
pub const SCREEN_WIDTH: u32 = 680;

/// Height of the editor's window, in pixels.
pub const SCREEN_HEIGHT: u32 = 560;

/// Longest text that a parameter value is laid out from, in characters.
pub const TEXT_LENGTH_MAX: usize = 0x0100_0000;

/// Time for which a button shows as pressed after a click, in milliseconds.
pub const CLICK_SHOWN_MSEC: u64 = 100;

/// Whether the editor can be shown in a window of the platform type `type_`:
/// only as an embedded X11 window.
pub fn is_platform_type_supported(type_: &str) -> (supported: bool)
    ensures
        supported == (type_@ == "X11EmbedWindowID"@),
{
    str_eq(type_, "X11EmbedWindowID")
}

/// A rectangle on the screen, from its top left corner to its bottom right
/// one, in pixels.
#[derive(Clone, Copy, Debug, PartialEq, Eq, Structural)]
pub struct Rect {
    pub left: i64,
    pub top: i64,
    pub right: i64,
    pub bottom: i64,
}

impl Rect {
    /// The rectangle of `size` whose top left corner is at `x` and `y`.
    pub open spec fn spec_at(x: i32, y: i32, size: (u32, u32)) -> Rect {
        Rect {
            left: x as i64,
            top: y as i64,
            right: (x + size.0) as i64,
            bottom: (y + size.1) as i64,
        }
    }

    /// The rectangle of `size` whose top left corner is at `x` and `y`.
    pub fn at(x: i32, y: i32, size: (u32, u32)) -> (rect: Rect)
        ensures
            rect == Rect::spec_at(x, y, size),
    {
        Rect {
            left: x as i64,
            top: y as i64,
            right: x as i64 + size.0 as i64,
            bottom: y as i64 + size.1 as i64,
        }
    }

    /// The rectangle moved by `dx` to the right and by `dy` down.
    pub open spec fn spec_translate(self, dx: int, dy: int) -> Rect {
        Rect {
            left: (self.left + dx) as i64,
            top: (self.top + dy) as i64,
            right: (self.right + dx) as i64,
            bottom: (self.bottom + dy) as i64,
        }
    }

    /// Whether the rectangle can be moved by `dx` and `dy` without leaving
    /// the range of its coordinates.
    pub open spec fn spec_can_translate(self, dx: int, dy: int) -> bool {
        &&& i64::MIN <= self.left + dx <= i64::MAX
        &&& i64::MIN <= self.right + dx <= i64::MAX
        &&& i64::MIN <= self.top + dy <= i64::MAX
        &&& i64::MIN <= self.bottom + dy <= i64::MAX
    }

    /// Moves the rectangle by `dx` to the right and by `dy` down.
    pub fn translate(&self, dx: i32, dy: i32) -> (moved: Rect)
        requires
            self.spec_can_translate(dx as int, dy as int),
        ensures
            moved == self.spec_translate(dx as int, dy as int),
    {
        Rect {
            left: self.left + dx as i64,
            top: self.top + dy as i64,
            right: self.right + dx as i64,
            bottom: self.bottom + dy as i64,
        }
    }
}

/// The rectangle of the editor's window.
pub fn view_rect() -> (rect: Rect)
    ensures
        rect == Rect::spec_at(0, 0, (SCREEN_WIDTH, SCREEN_HEIGHT)),
{
    Rect::at(0, 0, (SCREEN_WIDTH, SCREEN_HEIGHT))
}

/// A switch that remembers what it was before it was last set.
#[derive(Clone, Copy, Debug)]
pub struct Toggle {
    value: bool,
    prev_value: bool,
}

impl View for Toggle {
    type V = (bool, bool);

    /// The value and the value before it.
    closed spec fn view(&self) -> (bool, bool) {
        (self.value, self.prev_value)
    }
}

impl Toggle {
    /// A switch at `v` that was at `prev` before.
    pub fn new(v: bool, prev: bool) -> (toggle: Toggle)
        ensures
            toggle@ == (v, prev),
    {
        Self { value: v, prev_value: prev }
    }

    /// The value.
    pub fn val(&self) -> (value: bool)
        ensures
            value == self@.0,
    {
        self.value
    }

    /// Sets the switch to `v` and remembers what it was.
    pub fn set(&mut self, v: bool)
        ensures
            final(self)@ == (v, old(self)@.0),
    {
        self.prev_value = self.value;
        self.value = v;
    }

    /// Whether the last `set` changed the value.
    pub fn toggled(&self) -> (changed: bool)
        ensures
            changed == (self@.0 != self@.1),
    {
        self.value != self.prev_value
    }
}

/// A part of the glyph atlas: where it starts and how large it is, in pixels.
#[derive(Clone, Copy, Debug, PartialEq, Eq, Structural)]
pub struct Region {
    pub x: u32,
    pub y: u32,
    pub w: u32,
    pub h: u32,
}

/// The characters that the glyph atlas has a picture of.
#[derive(Clone, Copy, Debug, PartialEq, Eq, Structural)]
pub enum Character {
    Digit0,
    Digit1,
    Digit2,
    Digit3,
    Digit4,
    Digit5,
    Digit6,
    Digit7,
    Digit8,
    Digit9,
    Dot,
    Minus,
}

impl Character {
    /// The glyph of `ch`, if the atlas has one: the ten digits, the dot and
    /// the minus sign.
    pub open spec fn spec_from_char(ch: char) -> Option<Character> {
        if ch == '0' {
            Some(Character::Digit0)
        } else if ch == '1' {
            Some(Character::Digit1)
        } else if ch == '2' {
            Some(Character::Digit2)
        } else if ch == '3' {
            Some(Character::Digit3)
        } else if ch == '4' {
            Some(Character::Digit4)
        } else if ch == '5' {
            Some(Character::Digit5)
        } else if ch == '6' {
            Some(Character::Digit6)
        } else if ch == '7' {
            Some(Character::Digit7)
        } else if ch == '8' {
            Some(Character::Digit8)
        } else if ch == '9' {
            Some(Character::Digit9)
        } else if ch == '.' {
            Some(Character::Dot)
        } else if ch == '-' {
            Some(Character::Minus)
        } else {
            None
        }
    }

    /// Where the glyph lies in the atlas.
    pub open spec fn spec_get_region(self) -> Region {
        match self {
            Character::Digit0 => Region { x: 0, y: 0, w: 10, h: 14 },
            Character::Digit1 => Region { x: 14, y: 0, w: 6, h: 14 },
            Character::Digit2 => Region { x: 24, y: 0, w: 10, h: 14 },
            Character::Digit3 => Region { x: 36, y: 0, w: 10, h: 14 },
            Character::Digit4 => Region { x: 48, y: 0, w: 10, h: 14 },
            Character::Digit5 => Region { x: 60, y: 0, w: 10, h: 14 },
            Character::Digit6 => Region { x: 72, y: 0, w: 10, h: 14 },
            Character::Digit7 => Region { x: 84, y: 0, w: 10, h: 14 },
            Character::Digit8 => Region { x: 96, y: 0, w: 10, h: 14 },
            Character::Digit9 => Region { x: 108, y: 0, w: 10, h: 14 },
            Character::Dot => Region { x: 132, y: 0, w: 2, h: 14 },
            Character::Minus => Region { x: 136, y: 0, w: 10, h: 14 },
        }
    }

    /// The glyph of `ch`; `None` for a character that the atlas has no
    /// picture of.
    pub fn from_char(ch: char) -> (glyph: Option<Character>)
        ensures
            glyph == Character::spec_from_char(ch),
    {
        match ch {
            '0' => Some(Character::Digit0),
            '1' => Some(Character::Digit1),
            '2' => Some(Character::Digit2),
            '3' => Some(Character::Digit3),
            '4' => Some(Character::Digit4),
            '5' => Some(Character::Digit5),
            '6' => Some(Character::Digit6),
            '7' => Some(Character::Digit7),
            '8' => Some(Character::Digit8),
            '9' => Some(Character::Digit9),
            '.' => Some(Character::Dot),
            '-' => Some(Character::Minus),
            _ => None,
        }
    }

    /// Where the glyph lies in the atlas.
    pub fn get_region(&self) -> (region: Region)
        ensures
            region == self.spec_get_region(),
            region.w <= 10,
            region.h == 14,
    {
        match self {
            Character::Digit0 => Region { x: 0, y: 0, w: 10, h: 14 },
            Character::Digit1 => Region { x: 14, y: 0, w: 6, h: 14 },
            Character::Digit2 => Region { x: 24, y: 0, w: 10, h: 14 },
            Character::Digit3 => Region { x: 36, y: 0, w: 10, h: 14 },
            Character::Digit4 => Region { x: 48, y: 0, w: 10, h: 14 },
            Character::Digit5 => Region { x: 60, y: 0, w: 10, h: 14 },
            Character::Digit6 => Region { x: 72, y: 0, w: 10, h: 14 },
            Character::Digit7 => Region { x: 84, y: 0, w: 10, h: 14 },
            Character::Digit8 => Region { x: 96, y: 0, w: 10, h: 14 },
            Character::Digit9 => Region { x: 108, y: 0, w: 10, h: 14 },
            Character::Dot => Region { x: 132, y: 0, w: 2, h: 14 },
            Character::Minus => Region { x: 136, y: 0, w: 10, h: 14 },
        }
    }
}

/// The units that the glyph atlas has a picture of.
#[derive(Clone, Copy, Debug, PartialEq, Eq, Structural)]
pub enum ParameterUnit {
    NoUnit,
    Decibel,
    Cent,
    MilliSec,
    Sec,
    Percent,
}

impl ParameterUnit {
    /// Where the unit's picture lies in the atlas; nothing for no unit.
    pub open spec fn spec_get_region(self) -> Option<Region> {
        match self {
            ParameterUnit::NoUnit => None,
            ParameterUnit::Decibel => Some(Region { x: 0, y: 16, w: 22, h: 14 }),
            ParameterUnit::Cent => Some(Region { x: 30, y: 16, w: 58, h: 14 }),
            ParameterUnit::MilliSec => Some(Region { x: 96, y: 16, w: 22, h: 14 }),
            ParameterUnit::Sec => Some(Region { x: 126, y: 16, w: 10, h: 14 }),
            ParameterUnit::Percent => Some(Region { x: 144, y: 16, w: 10, h: 14 }),
        }
    }

    /// Where the unit's picture lies in the atlas; nothing for no unit.
    pub fn get_region(&self) -> (region: Option<Region>)
        ensures
            region == self.spec_get_region(),
            region matches Some(r) ==> r.w <= 58 && r.h == 14,
    {
        match self {
            ParameterUnit::NoUnit => None,
            ParameterUnit::Decibel => Some(Region { x: 0, y: 16, w: 22, h: 14 }),
            ParameterUnit::Cent => Some(Region { x: 30, y: 16, w: 58, h: 14 }),
            ParameterUnit::MilliSec => Some(Region { x: 96, y: 16, w: 22, h: 14 }),
            ParameterUnit::Sec => Some(Region { x: 126, y: 16, w: 10, h: 14 }),
            ParameterUnit::Percent => Some(Region { x: 144, y: 16, w: 10, h: 14 }),
        }
    }
}

/// The regions of the glyphs of `text`, in the order of the text. A character
/// without a glyph is left out.
pub open spec fn spec_glyph_regions(text: Seq<char>) -> Seq<Region>
    decreases text.len(),
{
    if text.len() == 0 {
        Seq::empty()
    } else {
        let before = spec_glyph_regions(text.drop_last());
        match Character::spec_from_char(text.last()) {
            Some(glyph) => before.push(glyph.spec_get_region()),
            None => before,
        }
    }
}

/// The regions that a value shown as `text` with `unit` is drawn from: the
/// glyphs of the text, then the picture of the unit, if it has one.
pub open spec fn spec_layout_regions(text: Seq<char>, unit: ParameterUnit) -> Seq<Region> {
    match unit.spec_get_region() {
        Some(region) => spec_glyph_regions(text).push(region),
        None => spec_glyph_regions(text),
    }
}

/// The widths of `regions`, added up.
pub open spec fn spec_total_width(regions: Seq<Region>) -> int
    decreases regions.len(),
{
    if regions.len() == 0 {
        0
    } else {
        spec_total_width(regions.drop_last()) + regions.last().w
    }
}

/// The height of the region that comes last; 0 where there is none.
pub open spec fn spec_last_height(regions: Seq<Region>) -> int {
    if regions.len() == 0 {
        0
    } else {
        regions.last().h as int
    }
}

/// A value shown with the pictures of the glyph atlas: the regions to draw,
/// one after the other, and the place and size of the whole.
#[derive(Debug)]
pub struct ParameterValue {
    pub regions: Vec<Region>,
    pub x: i32,
    pub y: i32,
    pub w: u32,
    pub h: u32,
}

impl ParameterValue {
    /// The value shown as `text` with `unit`, with its top left corner at `x`
    /// and `y`.
    pub fn new(text: &str, unit: ParameterUnit, x: i32, y: i32) -> (value: ParameterValue)
        requires
            text@.len() <= TEXT_LENGTH_MAX,
        ensures
            value.regions@ == spec_layout_regions(text@, unit),
            value.x == x,
            value.y == y,
            value.w == spec_total_width(value.regions@),
            value.h == spec_last_height(value.regions@),
    {
        let (regions, w, h) = ParameterValue::layout(text, unit);
        Self { regions, x, y, w, h }
    }

    /// The rectangle that the value takes up on the screen.
    pub fn rect(&self) -> (rect: Rect)
        ensures
            rect == Rect::spec_at(self.x, self.y, (self.w, self.h)),
    {
        Rect::at(self.x, self.y, (self.w, self.h))
    }

    /// Lays out `text` with `unit`: the regions of the glyphs and of the
    /// unit, the sum of their widths, and the height of the last of them. A
    /// character without a glyph takes no room.
    pub fn layout(text: &str, unit: ParameterUnit) -> (laid_out: (Vec<Region>, u32, u32))
        requires
            text@.len() <= TEXT_LENGTH_MAX,
        ensures
            laid_out.0@ == spec_layout_regions(text@, unit),
            laid_out.1 == spec_total_width(laid_out.0@),
            laid_out.2 == spec_last_height(laid_out.0@),
    {
        broadcast use {axiom_spec_iter, next_postcondition};

        let mut regions: Vec<Region> = Vec::new();
        let mut w: u32 = 0;
        let mut h: u32 = 0;
        let mut chars = text.chars();
        let ghost mut seen: int = 0;
        assert(text@.skip(0) =~= text@);
        assert(text@.take(0) =~= Seq::<char>::empty());
        loop
            invariant
                chars.obeys_prophetic_iter_laws(),
                0 <= seen <= text@.len() <= TEXT_LENGTH_MAX,
                chars.remaining() == text@.skip(seen),
                regions@ == spec_glyph_regions(text@.take(seen)),
                regions@.len() <= seen,
                w == spec_total_width(regions@),
                w <= 10 * seen,
                h == spec_last_height(regions@),
            ensures
                seen == text@.len(),
            decreases text@.len() - seen,
        {
            match chars.next() {
                Some(ch) => {
                    proof {
                        assert(text@.take(seen + 1).drop_last() =~= text@.take(seen));
                        assert(text@.take(seen + 1).last() == ch);
                        assert(text@.skip(seen).drop_first() =~= text@.skip(seen + 1));
                        seen = seen + 1;
                    }
                    match Character::from_char(ch) {
                        Some(c) => {
                            let region = c.get_region();
                            proof {
                                assert(regions@.push(region).drop_last() =~= regions@);
                            }
                            w += region.w;
                            h = region.h;
                            regions.push(region);
                        },
                        None => {},
                    }
                },
                None => {
                    break ;
                },
            }
        }
        assert(text@.take(seen) =~= text@);
        if let Some(region) = unit.get_region() {
            proof {
                assert(regions@.push(region).drop_last() =~= regions@);
            }
            w += region.w;
            h = region.h;
            regions.push(region);
        }
        (regions, w, h)
    }
}

/// A picture at a fixed place.
#[derive(Clone, Copy, Debug)]
pub struct ImageLabel {
    pub size: (u32, u32),
    pub x: i32,
    pub y: i32,
}

impl ImageLabel {
    /// The label that shows a picture of `size` with its top left corner at
    /// `x` and `y`.
    pub fn new(size: (u32, u32), x: i32, y: i32) -> (label: ImageLabel)
        ensures
            label.size == size,
            label.x == x,
            label.y == y,
    {
        Self { size, x, y }
    }

    /// The rectangle that the picture takes up on the screen.
    pub fn rect(&self) -> (rect: Rect)
        ensures
            rect == Rect::spec_at(self.x, self.y, self.size),
    {
        Rect::at(self.x, self.y, self.size)
    }
}

/// A button as it is drawn: pressed or not, at a place.
#[derive(Clone, Copy, Debug)]
pub struct Button {
    pub clicked: bool,
    pub rect: Rect,
}

impl Button {
    /// The button at `rect`.
    pub fn new(clicked: bool, rect: Rect) -> (button: Button)
        ensures
            button.clicked == clicked,
            button.rect == rect,
    {
        Self { clicked, rect }
    }

    /// Where the button is drawn: a pressed button sits two pixels to the
    /// right and two pixels down.
    pub fn shown_rect(&self) -> (rect: Rect)
        requires
            self.rect.spec_can_translate(2, 2),
        ensures
            rect == if self.clicked {
                self.rect.spec_translate(2, 2)
            } else {
                self.rect
            },
    {
        if self.clicked {
            self.rect.translate(2, 2)
        } else {
            self.rect
        }
    }
}

/// What a button remembers from frame to frame.
#[derive(Clone, Copy, Debug)]
pub struct ButtonBehavior {
    size: (u32, u32),
    clicked: Toggle,
    x: i32,
    y: i32,
}

impl ButtonBehavior {
    /// Whether the button shows as pressed.
    pub closed spec fn pressed(&self) -> bool {
        self.clicked@.0
    }

    /// The rectangle that the button takes up when it is not pressed.
    pub closed spec fn spec_rect(&self) -> Rect {
        Rect::spec_at(self.x, self.y, self.size)
    }

    /// The button with a picture of `size` and its top left corner at `x` and
    /// `y`, not pressed.
    pub fn new(size: (u32, u32), x: i32, y: i32) -> (button: ButtonBehavior)
        ensures
            !button.pressed(),
            button.spec_rect() == Rect::spec_at(x, y, size),
    {
        Self { size, clicked: Toggle::new(false, false), x, y }
    }

    /// The rectangle that the button takes up when it is not pressed.
    pub fn rect(&self) -> (rect: Rect)
        ensures
            rect == self.spec_rect(),
    {
        Rect::at(self.x, self.y, self.size)
    }

    /// Looks at the clock: the button shows as pressed for `CLICK_SHOWN_MSEC`
    /// milliseconds after a click. Returns whether that changed, so that the
    /// button has to be drawn again.
    pub fn update(&mut self, since_click_msec: u64) -> (redraw: bool)
        ensures
            final(self).pressed() == (since_click_msec <= CLICK_SHOWN_MSEC),
            final(self).spec_rect() == old(self).spec_rect(),
            redraw == (final(self).pressed() != old(self).pressed()),
    {
        if since_click_msec <= CLICK_SHOWN_MSEC {
            self.clicked.set(true);
        } else {
            self.clicked.set(false);
        }
        self.clicked.toggled()
    }

    /// The button as it is to be drawn in this frame.
    pub fn show(&self) -> (widget: Button)
        ensures
            widget.clicked == self.pressed(),
            widget.rect == self.spec_rect(),
    {
        Button::new(self.clicked.val(), self.rect())
    }
}

/// A slider as it is drawn: its frame and how far it is filled.
#[derive(Clone, Copy, Debug)]
pub struct Slider {
    pub rect: Rect,
    pub bipolar: bool,
    pub value: i64,
}

impl Slider {
    /// The slider at `rect`, filled to `value` millionths.
    pub fn new(value: i64, bipolar: bool, rect: Rect) -> (slider: Slider)
        ensures
            slider.rect == rect,
            slider.bipolar == bipolar,
            slider.value == value,
    {
        Self { rect, bipolar, value }
    }

    /// The part of the frame that is filled: from the left edge, the share of
    /// the width that the value is of `ONE`. A bipolar slider is not filled.
    pub fn filled_rect(&self) -> (filled: Option<Rect>)
        ensures
            filled == if self.bipolar {
                None
            } else {
                Some(
                    Rect {
                        right: spec_interpolate(
                            self.rect.left as int,
                            self.rect.right as int,
                            self.value as int,
                        ) as i64,
                        ..self.rect
                    },
                )
            },
    {
        if self.bipolar {
            None
        } else {
            Some(
                Rect {
                    left: self.rect.left,
                    top: self.rect.top,
                    right: interpolate(self.rect.left, self.rect.right, self.value),
                    bottom: self.rect.bottom,
                },
            )
        }
    }
}

/// Number of pixels that a drag covers to take a slider from one end to the
/// other.
pub const DRAG_PIXELS: i64 = 300;

/// The same for a fine drag, with the shift key down.
pub const DRAG_PIXELS_FINE: i64 = 3000;

/// The change of a slider's value that a drag of `delta_x` millionths of a
/// pixel makes, rounded toward 0.
pub open spec fn spec_drag_delta(delta_x: int, fine: bool) -> int {
    let pixels = if fine {
        DRAG_PIXELS_FINE as int
    } else {
        DRAG_PIXELS as int
    };
    if delta_x >= 0 {
        delta_x / pixels
    } else {
        -((-delta_x) / pixels)
    }
}

/// What a slider remembers from frame to frame.
#[derive(Clone, Copy, Debug)]
pub struct SliderBehavior {
    size: (u32, u32),
    bipolar: bool,
    value: i64,
    x: i32,
    y: i32,
}

impl SliderBehavior {
    /// The value, in millionths.
    pub closed spec fn spec_value(&self) -> i64 {
        self.value
    }

    /// Whether the slider is drawn from its middle.
    pub closed spec fn spec_bipolar(&self) -> bool {
        self.bipolar
    }

    /// The rectangle that the slider takes up.
    pub closed spec fn spec_rect(&self) -> Rect {
        Rect::spec_at(self.x, self.y, self.size)
    }

    /// The slider with a frame of `size` and its top left corner at `x` and
    /// `y`, at `value`.
    pub fn new(size: (u32, u32), value: i64, bipolar: bool, x: i32, y: i32) -> (slider:
        SliderBehavior)
        ensures
            slider.spec_value() == value,
            slider.spec_bipolar() == bipolar,
            slider.spec_rect() == Rect::spec_at(x, y, size),
    {
        Self { size, value, bipolar, x, y }
    }

    /// The value, in millionths.
    #[verifier::when_used_as_spec(spec_value)]
    pub fn value(&self) -> (value: i64)
        ensures
            value == self.spec_value(),
    {
        self.value
    }

    /// A slider does not change by itself: there is nothing to draw again.
    pub fn update(&mut self) -> (redraw: bool)
        ensures
            !redraw,
            *final(self) == *old(self),
    {
        false
    }

    /// The rectangle that the slider takes up.
    pub fn rect(&self) -> (rect: Rect)
        ensures
            rect == self.spec_rect(),
    {
        Rect::at(self.x, self.y, self.size)
    }

    /// The slider as it is to be drawn in this frame.
    pub fn show(&self) -> (widget: Slider)
        ensures
            widget.rect == self.spec_rect(),
            widget.bipolar == self.spec_bipolar(),
            widget.value == self.spec_value(),
    {
        Slider::new(self.value, self.bipolar, self.rect())
    }

    /// The slider was dragged by `delta_x` millionths of a pixel, `fine` with
    /// the shift key down: the value moves with it and stays between 0 and
    /// `ONE`.
    pub fn drag(&mut self, delta_x: i64, fine: bool)
        ensures
            final(self).spec_value() == spec_clamp(
                old(self).spec_value() + spec_drag_delta(delta_x as int, fine),
                0,
                ONE as int,
            ),
            final(self).spec_bipolar() == old(self).spec_bipolar(),
            final(self).spec_rect() == old(self).spec_rect(),
    {
        let pixels: i128 = if fine {
            DRAG_PIXELS_FINE as i128
        } else {
            DRAG_PIXELS as i128
        };
        let delta: i128 = if delta_x >= 0 {
            (delta_x as i128) / pixels
        } else {
            -((-(delta_x as i128)) / pixels)
        };
        let moved: i128 = (self.value as i128) + delta;
        self.value = num_clamp(moved, 0, ONE as i128) as i64;
    }
}

} // verus!
