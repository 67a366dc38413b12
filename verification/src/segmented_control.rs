//! A horizontal toggle made of mutually exclusive labelled segments.
//!
//! The control keeps its labels, the selected segment, the segment a mouse
//! button is held down on, and a bit mask of disabled segments. Each segment
//! is as wide as its label's byte length plus one cell of padding on each
//! side, and the segments sit side by side from column zero.
use vstd::prelude::*;
use vstd::string::*;
use vstd::utf8::encode_utf8;
use vstd::utf8::is_ascii_chars;
use vstd::utf8::is_ascii_chars_encode_utf8;
use crate::input::Chord;
use crate::input::Direction;
use crate::input::InputEvent;
use crate::input::Key;
use crate::input::MouseButton;
use crate::input::Trigger;
use crate::input::plain;

verus! {

/// The number of cells a segment with `label` takes: the label's UTF-8
/// byte length and one cell of padding on each side.
pub open spec fn label_width(label: Seq<char>) -> int {
    encode_utf8(label).len() + 2int
}

/// The first column of segment `i`: the widths of the segments before it.
pub open spec fn segment_start(labels: Seq<Seq<char>>, i: int) -> int
    decreases i,
{
    if i <= 0 {
        0
    } else {
        segment_start(labels, i - 1) + label_width(labels[i - 1])
    }
}

/// The width of all segments together.
pub open spec fn total_width(labels: Seq<Seq<char>>) -> int {
    segment_start(labels, labels.len() as int)
}

/// Whether bit `index` of `mask` is set.
pub open spec fn bit_set(mask: u32, index: u32) -> bool {
    mask & (1u32 << index) != 0u32
}

/// The segment under the cell (`x`, `y`) of a control `height` rows tall.
pub open spec fn segment_hit(labels: Seq<Seq<char>>, x: int, y: int, height: int) -> Option<int> {
    if 0 <= y < height && 0 <= x < total_width(labels) {
        Some(
            choose|i: int|
                0 <= i < labels.len() && #[trigger] segment_start(labels, i) <= x < segment_start(
                    labels,
                    i + 1,
                ),
        )
    } else {
        None
    }
}

/// Walking from segment `i` in steps of `dir` (one to the right, minus one
/// to the left), the first segment that is not disabled, or `None` once the
/// walk leaves the `count` segments.
pub open spec fn next_enabled(count: int, mask: u32, i: int, dir: int) -> Option<int>
    decreases (if dir > 0 {
        count - i
    } else {
        i + 1
    }),
{
    if !(dir == 1 || dir == -1) || i < 0 || i >= count {
        None
    } else if !bit_set(mask, i as u32) {
        Some(i)
    } else {
        next_enabled(count, mask, i + dir, dir)
    }
}

/// The state of a segmented control, as its contracts speak of it.
pub struct SegmentedView {
    pub labels: Seq<Seq<char>>,
    pub selected: nat,
    pub pressed: Option<nat>,
    pub disabled: u32,
}

/// What a segmented control asks of the UI runtime after handling input.
#[derive(Clone, Copy, Debug, PartialEq, Eq, Structural)]
pub struct ControlEffects {
    /// The event was consumed.
    pub handled: bool,
    /// The control must be painted again.
    pub repaint: bool,
    /// The control asks for keyboard focus.
    pub focus: bool,
    /// The control reports that this segment was chosen.
    pub change: Option<usize>,
}

/// The effects of an event that was consumed and asked for nothing.
pub open spec fn consumed() -> ControlEffects {
    ControlEffects { handled: true, repaint: false, focus: false, change: None }
}

/// The effects of an event that was not consumed.
pub open spec fn ignored() -> ControlEffects {
    ControlEffects { handled: false, repaint: false, focus: false, change: None }
}

/// Asking to select `index`: a segment in range that is not disabled becomes
/// the selection and is reported as chosen (a repaint is owed when the
/// selection moved); any other index leaves the control as it is.
pub open spec fn spec_select(v: SegmentedView, index: int) -> (SegmentedView, bool, Option<usize>) {
    if 0 <= index < v.labels.len() && index < 32 && !bit_set(v.disabled, index as u32) {
        (
            SegmentedView { selected: index as nat, ..v },
            v.selected != index,
            Some(index as usize),
        )
    } else {
        (v, false, None)
    }
}

/// Setting whether segment `index` is disabled: its bit of the mask is set
/// or cleared, nothing else changes.
pub open spec fn spec_set_disabled(v: SegmentedView, index: u32, disabled: bool) -> SegmentedView {
    SegmentedView {
        disabled: if disabled {
            v.disabled | (1u32 << index)
        } else {
            v.disabled & !(1u32 << index)
        },
        ..v
    }
}

/// Marking `pressed` as the segment held down, and whether a repaint is owed.
pub open spec fn spec_press(v: SegmentedView, pressed: Option<nat>) -> (SegmentedView, bool) {
    (SegmentedView { pressed, ..v }, v.pressed != pressed)
}

/// An optional index as a mathematical one.
pub open spec fn opt_nat(o: Option<usize>) -> Option<nat> {
    match o {
        Some(i) => Some(i as nat),
        None => None,
    }
}

/// An optional mathematical index as a machine one.
pub open spec fn opt_usize(o: Option<int>) -> Option<usize> {
    match o {
        Some(i) => Some(i as usize),
        None => None,
    }
}

/// A key that moves the selection one segment left: Left or `h`.
pub open spec fn is_move_left(c: Chord) -> bool {
    c == plain(Trigger::Key(Key::Arrow(Direction::Left))) || c == plain(Trigger::Key(Key::Char('h')))
}

/// A key that moves the selection one segment right: Right or `l`.
pub open spec fn is_move_right(c: Chord) -> bool {
    c == plain(Trigger::Key(Key::Arrow(Direction::Right))) || c == plain(
        Trigger::Key(Key::Char('l')),
    )
}

/// How the control answers `event` when it is `height` rows tall: the new
/// state and the effects.
///
/// - Left/`h` and Right/`l` select the nearest enabled segment in that
///   direction, if there is one.
/// - A left click on an enabled segment asks for focus and marks that
///   segment as held down.
/// - Releasing the left button clears the held segment, and selects the
///   segment under the pointer when it is the one that was held.
/// - Any other event is not consumed.
pub open spec fn input_outcome(v: SegmentedView, event: InputEvent, height: int) -> (SegmentedView, ControlEffects) {
    let c = event.chord;
    let hit = segment_hit(v.labels, event.cell_x as int, event.cell_y as int, height);
    if is_move_left(c) || is_move_right(c) {
        let dir: int = if is_move_left(c) {
            -1
        } else {
            1
        };
        match next_enabled(v.labels.len() as int, v.disabled, v.selected + dir, dir) {
            Some(i) => {
                let (w, repaint, change) = spec_select(v, i);
                (w, ControlEffects { handled: true, repaint, focus: false, change })
            },
            None => (v, consumed()),
        }
    } else if c == plain(Trigger::MouseDown(MouseButton::Left)) {
        match hit {
            Some(i) => if !bit_set(v.disabled, i as u32) {
                let (w, repaint) = spec_press(v, Some(i as nat));
                (w, ControlEffects { handled: true, repaint, focus: true, change: None })
            } else {
                (v, consumed())
            },
            None => (v, consumed()),
        }
    } else if c == plain(Trigger::MouseUp(MouseButton::Left)) {
        let (w1, repaint1) = spec_press(v, None);
        match hit {
            Some(i) => if v.pressed == Some(i as nat) {
                let (w2, repaint2, change) = spec_select(w1, i);
                (
                    w2,
                    ControlEffects {
                        handled: true,
                        repaint: repaint1 || repaint2,
                        focus: false,
                        change,
                    },
                )
            } else {
                (w1, ControlEffects { handled: true, repaint: repaint1, focus: false, change: None })
            },
            None => (w1, ControlEffects { handled: true, repaint: repaint1, focus: false, change: None }),
        }
    } else {
        (v, ignored())
    }
}

/// Which style a segment is drawn in.
#[derive(Clone, Copy, Debug, PartialEq, Eq, Structural)]
pub enum SegmentStyle {
    /// The selected segment while the control is in the focus chain.
    SelectedFocused,
    /// The selected segment while the control is not in the focus chain.
    SelectedUnfocused,
    /// The segment a mouse button is held down on.
    Pressed,
    /// Any other segment.
    Base,
}

/// How one segment is drawn: an optional separator glyph (one cell, in the
/// separator style) followed by `text` in `style`, dimmed when `dim`.
pub struct SegmentPaint {
    pub separator: bool,
    pub style: SegmentStyle,
    pub dim: bool,
    pub text: String,
}

/// Whether segment `i` is drawn after a separator: it is not the first, and
/// neither it nor the segment before it is selected.
pub open spec fn needs_separator(v: SegmentedView, i: int) -> bool {
    i > 0 && i != v.selected && i - 1 != v.selected
}

/// The style of segment `i`.
pub open spec fn segment_style(v: SegmentedView, i: int, focused: bool) -> SegmentStyle {
    if i == v.selected {
        if focused {
            SegmentStyle::SelectedFocused
        } else {
            SegmentStyle::SelectedUnfocused
        }
    } else if v.pressed == Some(i as nat) {
        SegmentStyle::Pressed
    } else {
        SegmentStyle::Base
    }
}

/// The text of a segment: the label and a trailing space, with a leading
/// space in place of the separator when there is none.
pub open spec fn segment_text(label: Seq<char>, separator: bool) -> Seq<char> {
    if separator {
        label + seq![' ']
    } else {
        seq![' '] + label + seq![' ']
    }
}

/// Horizontal toggle with mutually exclusive labelled segments.
pub struct SegmentedControl {
    labels: Vec<String>,
    selected: usize,
    pressed: Option<usize>,
    disabled: u32,
}

impl View for SegmentedControl {
    type V = SegmentedView;

    closed spec fn view(&self) -> SegmentedView {
        SegmentedView {
            labels: self.labels@.map_values(|s: String| s@),
            selected: self.selected as nat,
            pressed: match self.pressed {
                Some(p) => Some(p as nat),
                None => None,
            },
            disabled: self.disabled,
        }
    }
}

/// What every segmented control satisfies: at most 32 segments (one bit of
/// the mask each), all segments fit in a `u16` width, and the selection fits
/// in an `i32` with room to step past it.
pub open spec fn view_wf(v: SegmentedView) -> bool {
    &&& v.labels.len() <= 32
    &&& total_width(v.labels) <= 0xffff
    &&& v.selected < 0x7fff_ffff
}

/// Segment starts grow by at least two per segment.
pub proof fn lemma_segment_start_grows(labels: Seq<Seq<char>>, i: int, j: int)
    requires
        0 <= i <= j,
    ensures
        segment_start(labels, i) + 2 * (j - i) <= segment_start(labels, j),
    decreases j - i,
{
    if i < j {
        lemma_segment_start_grows(labels, i, j - 1);
    }
}

/// Walking to the next enabled segment ends on a segment in range that is
/// not disabled, strictly beyond the start in the direction of the walk,
/// having passed over disabled segments only.
pub proof fn lemma_next_enabled(count: int, mask: u32, i: int, dir: int)
    ensures
        next_enabled(count, mask, i, dir) matches Some(j) ==> {
            &&& 0 <= j < count
            &&& !bit_set(mask, j as u32)
            &&& (dir == 1 ==> i <= j && forall|k: int| i <= k < j ==> #[trigger] bit_set(mask, k as u32))
            &&& (dir == -1 ==> j <= i && forall|k: int| j < k <= i ==> #[trigger] bit_set(mask, k as u32))
        },
        next_enabled(count, mask, i, dir) is None && dir == 1 && 0 <= i ==> forall|k: int|
            i <= k < count ==> #[trigger] bit_set(mask, k as u32),
        next_enabled(count, mask, i, dir) is None && dir == -1 && i < count ==> forall|k: int|
            0 <= k <= i ==> #[trigger] bit_set(mask, k as u32),
    decreases (if dir > 0 {
        count - i
    } else {
        i + 1
    }),
{
    if !(dir == 1 || dir == -1) || i < 0 || i >= count {
    } else if !bit_set(mask, i as u32) {
    } else {
        lemma_next_enabled(count, mask, i + dir, dir);
    }
}

/// At most one segment holds a given column.
proof fn lemma_segment_unique(labels: Seq<Seq<char>>, x: int, i: int, j: int)
    requires
        0 <= i,
        0 <= j,
        segment_start(labels, i) <= x < segment_start(labels, i + 1),
        segment_start(labels, j) <= x < segment_start(labels, j + 1),
    ensures
        i == j,
{
    if i < j {
        lemma_segment_start_grows(labels, i + 1, j);
    } else if j < i {
        lemma_segment_start_grows(labels, j + 1, i);
    }
}

impl SegmentedControl {
    /// Whether this control satisfies [`view_wf`].
    pub open spec fn wf(&self) -> bool {
        view_wf(self@)
    }

    /// Creates a control with one segment per label, the first one selected,
    /// none held down and none disabled.
    pub fn new(labels: &[&str]) -> (control: Box<Self>)
        requires
            labels@.len() <= 32,
            total_width(labels@.map_values(|s: &str| s@)) <= 0xffff,
        ensures
            control.wf(),
            control@ == (SegmentedView {
                labels: labels@.map_values(|s: &str| s@),
                selected: 0,
                pressed: None,
                disabled: 0,
            }),
    {
        let mut owned: Vec<String> = Vec::new();
        let mut i: usize = 0;
        while i < labels.len()
            invariant
                0 <= i <= labels@.len(),
                owned@.len() == i,
                forall|j: int| 0 <= j < i ==> #[trigger] owned@[j]@ == labels@[j]@,
            decreases labels@.len() - i,
        {
            let s = String::from_str(labels[i]);
            owned.push(s);
            i = i + 1;
        }
        let control = SegmentedControl { labels: owned, selected: 0, pressed: None, disabled: 0 };
        assert(control@.labels =~= labels@.map_values(|s: &str| s@));
        Box::new(control)
    }

    /// Whether segment `index` is disabled.
    pub fn is_disabled(&self, index: usize) -> (disabled: bool)
        requires
            index < 32,
        ensures
            disabled == bit_set(self@.disabled, index as u32),
    {
        let bit: u32 = 1u32 << (index as u32);
        self.disabled & bit != 0u32
    }

    /// Marks the segment at `index` as disabled from the start.
    pub fn disabled(self: Box<Self>, index: usize) -> (control: Box<Self>)
        requires
            self.wf(),
            index < 32,
        ensures
            control.wf(),
            control@ == spec_set_disabled(self@, index as u32, true),
    {
        let mut c = self;
        let bit: u32 = 1u32 << (index as u32);
        c.disabled = c.disabled | bit;
        c
    }

    /// Sets the segment at `index` as the one selected from the start.
    pub fn selected(self: Box<Self>, index: usize) -> (control: Box<Self>)
        requires
            self.wf(),
            index < 0x7fff_ffff,
        ensures
            control.wf(),
            control@ == (SegmentedView { selected: index as nat, ..self@ }),
    {
        let mut c = self;
        c.selected = index;
        c
    }
    /// Sets whether the segment at `index` is disabled; says whether the
    /// mask changed and the control must be painted again.
    pub fn set_disabled(&mut self, index: usize, disabled: bool) -> (repaint: bool)
        requires
            old(self).wf(),
            index < 32,
        ensures
            final(self).wf(),
            final(self)@ == spec_set_disabled(old(self)@, index as u32, disabled),
            repaint == (final(self)@.disabled != old(self)@.disabled),
    {
        let mask = self.disabled;
        let bit: u32 = 1u32 << (index as u32);
        let new_mask = if disabled {
            mask | bit
        } else {
            mask & !bit
        };
        if new_mask != mask {
            self.disabled = new_mask;
            true
        } else {
            false
        }
    }

    /// Returns the selected segment index.
    pub fn get_selected(&self) -> (selected: usize)
        ensures
            selected == self@.selected,
    {
        self.selected
    }

    /// Selects the segment at `index` without reporting a change; an index
    /// out of range or of a disabled segment is ignored. Says whether the
    /// selection moved and the control must be painted again.
    pub fn set_selected(&mut self, index: usize) -> (repaint: bool)
        requires
            old(self).wf(),
        ensures
            final(self).wf(),
            final(self)@ == spec_select(old(self)@, index as int).0,
            repaint == spec_select(old(self)@, index as int).1,
    {
        if index >= self.labels.len() || self.is_disabled(index) {
            return false;
        }
        if self.selected != index {
            self.selected = index;
            true
        } else {
            false
        }
    }

    /// Selects the segment at `index` and reports it as chosen; an index out
    /// of range or of a disabled segment is ignored. Returns whether the
    /// control must be painted again and the index to report, if any.
    pub fn select_index(&mut self, index: usize) -> (result: (bool, Option<usize>))
        requires
            old(self).wf(),
        ensures
            final(self).wf(),
            (final(self)@, result.0, result.1) == spec_select(old(self)@, index as int),
    {
        if index >= self.labels.len() || self.is_disabled(index) {
            return (false, None);
        }
        let repaint = self.selected != index;
        if repaint {
            self.selected = index;
        }
        (repaint, Some(index))
    }

    /// Marks `pressed` as the segment a mouse button is held down on; says
    /// whether that changed and the control must be painted again.
    pub fn set_pressed(&mut self, pressed: Option<usize>) -> (repaint: bool)
        requires
            old(self).wf(),
        ensures
            final(self).wf(),
            (final(self)@, repaint) == spec_press(old(self)@, opt_nat(pressed)),
    {
        let changed = match (self.pressed, pressed) {
            (Some(a), Some(b)) => a != b,
            (None, None) => false,
            _ => true,
        };
        if changed {
            self.pressed = pressed;
        }
        changed
    }

    /// The nearest segment that is not disabled, walking from `from` in
    /// steps of `dir` (one or minus one); `None` when the walk leaves the
    /// control first.
    pub fn step(&self, from: usize, dir: i32) -> (next: Option<usize>)
        requires
            self.wf(),
            from < 0x7fff_ffff,
            dir == 1 || dir == -1,
        ensures
            next == opt_usize(
                next_enabled(self@.labels.len() as int, self@.disabled, from + dir, dir as int),
            ),
            next matches Some(i) ==> i < self@.labels.len() && !bit_set(self@.disabled, i as u32),
    {
        proof {
            lemma_next_enabled(self@.labels.len() as int, self@.disabled, from + dir, dir as int);
        }
        let n: i32 = self.labels.len() as i32;
        let mut i: i32 = from as i32 + dir;
        while i >= 0 && i < n
            invariant
                self.wf(),
                n == self@.labels.len(),
                dir == 1 || dir == -1,
                -1 <= i <= 0x7fff_ffff,
                next_enabled(n as int, self@.disabled, from + dir, dir as int) == next_enabled(
                    n as int,
                    self@.disabled,
                    i as int,
                    dir as int,
                ),
            decreases (if dir > 0 {
                n - i
            } else {
                i + 1
            }),
        {
            if !self.is_disabled(i as usize) {
                return Some(i as usize);
            }
            i = i + dir;
        }
        None
    }

    /// The segment under the cell (`cell_x`, `cell_y`) of a control `height`
    /// rows tall, if any.
    pub fn hit_segment(&self, cell_x: i32, cell_y: i32, height: u16) -> (hit: Option<usize>)
        requires
            self.wf(),
        ensures
            hit == opt_usize(
                segment_hit(self@.labels, cell_x as int, cell_y as int, height as int),
            ),
            hit matches Some(i) ==> i < self@.labels.len() && segment_start(self@.labels, i as int)
                <= cell_x < segment_start(self@.labels, i + 1),
            segment_hit(self@.labels, cell_x as int, cell_y as int, height as int) matches Some(j)
                ==> 0 <= j < self@.labels.len(),
    {
        let h: i32 = height as i32;
        if cell_y < 0 || cell_y >= h {
            return None;
        }
        let ghost labels = self@.labels;
        let mut x: i32 = 0;
        let mut i: usize = 0;
        while i < self.labels.len()
            invariant
                self.wf(),
                labels == self@.labels,
                0 <= i <= labels.len(),
                0 <= cell_y < height,
                x == segment_start(labels, i as int),
                cell_x < 0 || cell_x >= x,
            decreases labels.len() - i,
        {
            let len: usize = self.labels[i].as_str().len();
            proof {
                lemma_segment_start_grows(labels, 0, i as int);
                lemma_segment_start_grows(labels, i + 1, labels.len() as int);
                assert(labels[i as int] == self.labels@[i as int]@);
            }
            let width: i32 = len as i32 + 2;
            if cell_x >= x && cell_x < x + width {
                proof {
                    let ii = i as int;
                    let cx = cell_x as int;
                    assert(segment_start(labels, ii) <= cx < segment_start(labels, ii + 1));
                    let c = choose|j: int|
                        0 <= j < labels.len() && #[trigger] segment_start(labels, j) <= cx
                            < segment_start(labels, j + 1);
                    lemma_segment_unique(labels, cx, ii, c);
                }
                return Some(i);
            }
            x = x + width;
            i = i + 1;
        }
        None
    }

    /// The width of all segments together.
    pub fn content_width(&self) -> (width: u16)
        requires
            self.wf(),
        ensures
            width == total_width(self@.labels),
    {
        let ghost labels = self@.labels;
        let mut sum: u16 = 0;
        let mut i: usize = 0;
        while i < self.labels.len()
            invariant
                self.wf(),
                labels == self@.labels,
                0 <= i <= labels.len(),
                sum == segment_start(labels, i as int),
            decreases labels.len() - i,
        {
            let len: usize = self.labels[i].as_str().len();
            proof {
                lemma_segment_start_grows(labels, 0, i as int);
                lemma_segment_start_grows(labels, i + 1, labels.len() as int);
                assert(labels[i as int] == self.labels@[i as int]@);
            }
            sum = sum + (len as u16 + 2);
            i = i + 1;
        }
        sum
    }

    /// The size the control asks for: its content width plus the horizontal
    /// margin, and one row plus the vertical margin.
    pub fn measure(&self, margin_x: u16, margin_y: u16) -> (size: (u16, u16))
        requires
            self.wf(),
            total_width(self@.labels) + margin_x <= 0xffff,
            margin_y < 0xffff,
        ensures
            size.0 == total_width(self@.labels) + margin_x,
            size.1 == 1 + margin_y,
    {
        (self.content_width() + margin_x, 1 + margin_y)
    }

    /// How each segment is drawn, in order, when the control is (or is not)
    /// in the focus chain.
    pub fn render(&self, focused: bool) -> (paints: Vec<SegmentPaint>)
        requires
            self.wf(),
        ensures
            paints.len() == self@.labels.len(),
            forall|i: int|
                #![trigger paints[i]]
                0 <= i < paints.len() ==> {
                    &&& paints[i].separator == needs_separator(self@, i)
                    &&& paints[i].style == segment_style(self@, i, focused)
                    &&& paints[i].dim == bit_set(self@.disabled, i as u32)
                    &&& paints[i].text@ == segment_text(
                        self@.labels[i],
                        needs_separator(self@, i),
                    )
                },
    {
        let selected = self.selected;
        let pressed = self.pressed;
        let mut paints: Vec<SegmentPaint> = Vec::new();
        let mut i: usize = 0;
        proof {
            reveal_strlit(" ");
        }
        while i < self.labels.len()
            invariant
                self.wf(),
                selected == self@.selected,
                opt_nat(pressed) == self@.pressed,
                0 <= i <= self@.labels.len(),
                paints.len() == i,
                " "@ == seq![' '],
                forall|j: int|
                    #![trigger paints[j]]
                    0 <= j < i ==> {
                        &&& paints[j].separator == needs_separator(self@, j)
                        &&& paints[j].style == segment_style(self@, j, focused)
                        &&& paints[j].dim == bit_set(self@.disabled, j as u32)
                        &&& paints[j].text@ == segment_text(
                            self@.labels[j],
                            needs_separator(self@, j),
                        )
                    },
            decreases self@.labels.len() - i,
        {
            let is_pressed = match pressed {
                Some(p) => p == i,
                None => false,
            };
            let is_selected = i == selected;
            let is_disabled = self.is_disabled(i);
            let needs_sep = i > 0 && !is_selected && i - 1 != selected;
            let style = if is_selected {
                if focused {
                    SegmentStyle::SelectedFocused
                } else {
                    SegmentStyle::SelectedUnfocused
                }
            } else if is_pressed {
                SegmentStyle::Pressed
            } else {
                SegmentStyle::Base
            };
            let label: &str = self.labels[i].as_str();
            proof {
                assert(label@ == self@.labels[i as int]);
            }
            let text = if needs_sep {
                String::from_str(label).concat(" ")
            } else {
                String::from_str(" ").concat(label).concat(" ")
            };
            paints.push(SegmentPaint { separator: needs_sep, style, dim: is_disabled, text });
            i = i + 1;
        }
        paints
    }

    /// Answers `event` for a control `height` rows tall: updates the state
    /// and returns what to ask of the UI runtime.
    pub fn on_input(&mut self, event: &InputEvent, height: u16) -> (effects: ControlEffects)
        requires
            old(self).wf(),
        ensures
            final(self).wf(),
            (final(self)@, effects) == input_outcome(old(self)@, *event, height as int),
    {
        let selected = self.selected;
        let c = event.chord;
        proof {
            lemma_next_enabled(self@.labels.len() as int, self@.disabled, selected - 1, -1);
            lemma_next_enabled(self@.labels.len() as int, self@.disabled, selected + 1, 1);
        }
        let left = c == Chord { trigger: Trigger::Key(Key::Arrow(Direction::Left)), modifiers: 0 }
            || c == Chord { trigger: Trigger::Key(Key::Char('h')), modifiers: 0 };
        let right = c == Chord { trigger: Trigger::Key(Key::Arrow(Direction::Right)), modifiers: 0 }
            || c == Chord { trigger: Trigger::Key(Key::Char('l')), modifiers: 0 };
        if left || right {
            let dir: i32 = if left {
                -1
            } else {
                1
            };
            match self.step(selected, dir) {
                Some(i) => {
                    let (repaint, change) = self.select_index(i);
                    ControlEffects { handled: true, repaint, focus: false, change }
                },
                None => ControlEffects { handled: true, repaint: false, focus: false, change: None },
            }
        } else if c == (Chord { trigger: Trigger::MouseDown(MouseButton::Left), modifiers: 0 }) {
            match self.hit_segment(event.cell_x, event.cell_y, height) {
                Some(i) => {
                    if !self.is_disabled(i) {
                        let repaint = self.set_pressed(Some(i));
                        ControlEffects { handled: true, repaint, focus: true, change: None }
                    } else {
                        ControlEffects { handled: true, repaint: false, focus: false, change: None }
                    }
                },
                None => ControlEffects { handled: true, repaint: false, focus: false, change: None },
            }
        } else if c == (Chord { trigger: Trigger::MouseUp(MouseButton::Left), modifiers: 0 }) {
            let pressed = self.pressed;
            let repaint1 = self.set_pressed(None);
            let hit = self.hit_segment(event.cell_x, event.cell_y, height);
            let same = match (hit, pressed) {
                (Some(i), Some(p)) => i == p,
                _ => false,
            };
            if same {
                let i = hit.unwrap();
                let (repaint2, change) = self.select_index(i);
                ControlEffects { handled: true, repaint: repaint1 || repaint2, focus: false, change }
            } else {
                ControlEffects { handled: true, repaint: repaint1, focus: false, change: None }
            }
        } else {
            ControlEffects { handled: false, repaint: false, focus: false, change: None }
        }
    }
}

} // verus!

verus! {

/// Every column of the control's width lies in some segment.
proof fn lemma_segment_exists(labels: Seq<Seq<char>>, x: int, k: int)
    requires
        0 <= k <= labels.len(),
        0 <= x < segment_start(labels, k),
    ensures
        exists|i: int|
            0 <= i < k && #[trigger] segment_start(labels, i) <= x < segment_start(labels, i + 1),
    decreases k,
{
    if k > 0 {
        if x < segment_start(labels, k - 1) {
            lemma_segment_exists(labels, x, k - 1);
            let i = choose|i: int|
                0 <= i < k - 1 && #[trigger] segment_start(labels, i) <= x < segment_start(
                    labels,
                    i + 1,
                );
            assert(0 <= i < k && segment_start(labels, i) <= x < segment_start(labels, i + 1));
        } else {
            assert(segment_start(labels, k - 1) <= x < segment_start(labels, k));
        }
    }
}

/// The segment under a cell, when there is one, is a segment of the control
/// whose columns contain the cell; a cell over the control's rows and within
/// its width always has one.
pub proof fn law_hit_is_containing_segment(labels: Seq<Seq<char>>, x: int, y: int, height: int)
    ensures
        segment_hit(labels, x, y, height) matches Some(i) ==> {
            &&& 0 <= i < labels.len()
            &&& segment_start(labels, i) <= x < segment_start(labels, i) + label_width(labels[i])
        },
        segment_hit(labels, x, y, height) is None <==> !(0 <= y < height && 0 <= x < total_width(
            labels,
        )),
{
    if 0 <= y < height && 0 <= x < total_width(labels) {
        lemma_segment_exists(labels, x, labels.len() as int);
    }
}

/// Input asks for a repaint exactly when what is drawn changes: the selected
/// segment or the segment held down. It never changes the labels or the
/// disabled mask.
pub proof fn law_repaint_iff_drawn_state_changes(v: SegmentedView, event: InputEvent, height: int)
    requires
        view_wf(v),
    ensures
        ({
            let (w, e) = input_outcome(v, event, height);
            &&& e.repaint == (w.selected != v.selected || w.pressed != v.pressed)
            &&& w.labels == v.labels
            &&& w.disabled == v.disabled
            &&& view_wf(w)
        }),
{
}

/// Input only ever moves the selection onto a segment of the control that is
/// not disabled, and a reported change names the new selection.
pub proof fn law_input_selects_enabled_segments(v: SegmentedView, event: InputEvent, height: int)
    requires
        view_wf(v),
    ensures
        ({
            let (w, e) = input_outcome(v, event, height);
            &&& w.selected != v.selected ==> w.selected < v.labels.len() && !bit_set(
                v.disabled,
                w.selected as u32,
            )
            &&& e.change matches Some(i) ==> {
                &&& w.selected == i
                &&& i < v.labels.len()
                &&& !bit_set(v.disabled, i as u32)
            }
            &&& (e.change is Some || e.focus || e.repaint) ==> e.handled
        }),
{
    lemma_next_enabled(v.labels.len() as int, v.disabled, v.selected - 1, -1);
    lemma_next_enabled(v.labels.len() as int, v.disabled, v.selected + 1int, 1);
    law_hit_is_containing_segment(v.labels, event.cell_x as int, event.cell_y as int, height);
}

/// Pressing the left button on an enabled segment and releasing it over the
/// same segment focuses the control, selects that segment and reports it.
pub proof fn law_click_selects_segment(
    v: SegmentedView,
    press: InputEvent,
    release: InputEvent,
    height: int,
    i: int,
)
    requires
        view_wf(v),
        press.chord == plain(Trigger::MouseDown(MouseButton::Left)),
        release.chord == plain(Trigger::MouseUp(MouseButton::Left)),
        segment_hit(v.labels, press.cell_x as int, press.cell_y as int, height) == Some(i),
        segment_hit(v.labels, release.cell_x as int, release.cell_y as int, height) == Some(i),
        !bit_set(v.disabled, i as u32),
    ensures
        ({
            let (w1, e1) = input_outcome(v, press, height);
            let (w2, e2) = input_outcome(w1, release, height);
            &&& e1.focus
            &&& w1.pressed == Some(i as nat)
            &&& w2.selected == i
            &&& w2.pressed is None
            &&& e2.change == Some(i as usize)
        }),
{
    law_hit_is_containing_segment(v.labels, press.cell_x as int, press.cell_y as int, height);
}

/// Releasing the left button anywhere but over the segment that was held
/// down leaves the selection alone and reports no change; nothing stays held.
pub proof fn law_release_elsewhere_keeps_selection(
    v: SegmentedView,
    release: InputEvent,
    height: int,
)
    requires
        view_wf(v),
        release.chord == plain(Trigger::MouseUp(MouseButton::Left)),
        segment_hit(v.labels, release.cell_x as int, release.cell_y as int, height) is None
            || segment_hit(v.labels, release.cell_x as int, release.cell_y as int, height).unwrap()
            != v.pressed.unwrap() || v.pressed is None,
    ensures
        ({
            let (w, e) = input_outcome(v, release, height);
            &&& w.selected == v.selected
            &&& w.pressed is None
            &&& e.change is None
        }),
{
    law_hit_is_containing_segment(v.labels, release.cell_x as int, release.cell_y as int, height);
}

/// Setting a segment's disabled flag is read back by its bit, leaves every
/// other segment's bit alone, and setting it back restores the mask.
pub proof fn law_set_disabled_read_back(v: SegmentedView, index: u32, other: u32, disabled: bool)
    requires
        index < 32,
        other < 32,
    ensures
        bit_set(spec_set_disabled(v, index, disabled).disabled, index) == disabled,
        other != index ==> bit_set(spec_set_disabled(v, index, disabled).disabled, other)
            == bit_set(v.disabled, other),
        spec_set_disabled(spec_set_disabled(v, index, disabled), index, bit_set(v.disabled, index))
            == v,
{
    let m = v.disabled;
    assert(bit_set(m | (1u32 << index), index)) by (bit_vector)
        requires
            index < 32,
    ;
    assert(!bit_set(m & !(1u32 << index), index)) by (bit_vector)
        requires
            index < 32,
    ;
    assert(other != index ==> bit_set(m | (1u32 << index), other) == bit_set(m, other))
        by (bit_vector)
        requires
            index < 32,
            other < 32,
    ;
    assert(other != index ==> bit_set(m & !(1u32 << index), other) == bit_set(m, other))
        by (bit_vector)
        requires
            index < 32,
            other < 32,
    ;
    assert(bit_set(m, index) ==> (m | (1u32 << index)) | (1u32 << index) == m
        && (m & !(1u32 << index)) | (1u32 << index) == m) by (bit_vector)
        requires
            index < 32,
    ;
    assert(!bit_set(m, index) ==> (m | (1u32 << index)) & !(1u32 << index) == m
        && (m & !(1u32 << index)) & !(1u32 << index) == m) by (bit_vector)
        requires
            index < 32,
    ;
}

/// Selecting an enabled segment in range is read back as the selection and
/// reported as the change; anything else leaves the control unchanged.
pub proof fn law_select_read_back(v: SegmentedView, index: int)
    requires
        view_wf(v),
    ensures
        0 <= index < v.labels.len() && !bit_set(v.disabled, index as u32) ==> {
            &&& spec_select(v, index).0.selected == index
            &&& spec_select(v, index).2 == Some(index as usize)
        },
        !(0 <= index < v.labels.len() && !bit_set(v.disabled, index as u32)) ==> spec_select(
            v,
            index,
        ).0 == v && !spec_select(v, index).1 && spec_select(v, index).2 is None,
{
}

/// The cells segment `i` is drawn over: its separator glyph, if any, and
/// its text.
pub open spec fn drawn_cells(v: SegmentedView, i: int) -> int {
    (if needs_separator(v, i) {
        1int
    } else {
        0int
    }) + segment_text(v.labels[i], needs_separator(v, i)).len()
}

/// The column at which segment `k` starts being drawn.
pub open spec fn drawn_start(v: SegmentedView, k: int) -> int
    decreases k,
{
    if k <= 0 {
        0
    } else {
        drawn_start(v, k - 1) + drawn_cells(v, k - 1)
    }
}

/// With ASCII labels, every segment is drawn over exactly the columns that
/// the hit test gives it, so a click lands on the segment drawn under it.
/// (A label with a character outside ASCII is wider in bytes than in
/// characters, and there the two part ways.)
pub proof fn law_ascii_drawing_matches_hit_test(v: SegmentedView, k: int)
    requires
        0 <= k <= v.labels.len(),
        forall|i: int| 0 <= i < v.labels.len() ==> is_ascii_chars(#[trigger] v.labels[i]),
    ensures
        drawn_start(v, k) == segment_start(v.labels, k),
    decreases k,
{
    if k > 0 {
        law_ascii_drawing_matches_hit_test(v, k - 1);
        is_ascii_chars_encode_utf8(v.labels[k - 1]);
    }
}

/// The selected segment is always drawn in a selected style, whatever is
/// held down; the held segment is drawn pressed only when it is not the
/// selected one; every other segment takes the base style. A separator
/// stands exactly between two neighbours neither of which is selected.
pub proof fn law_segment_styles(v: SegmentedView, i: int, focused: bool)
    ensures
        segment_style(v, v.selected as int, focused) == (if focused {
            SegmentStyle::SelectedFocused
        } else {
            SegmentStyle::SelectedUnfocused
        }),
        (segment_style(v, i, focused) == SegmentStyle::SelectedFocused || segment_style(
            v,
            i,
            focused,
        ) == SegmentStyle::SelectedUnfocused) <==> i == v.selected,
        segment_style(v, i, focused) == SegmentStyle::Pressed <==> (i != v.selected && v.pressed
            == Some(i as nat)),
        segment_style(v, i, focused) == SegmentStyle::Base <==> (i != v.selected && v.pressed
            != Some(i as nat)),
        needs_separator(v, i) <==> (0 < i && i != v.selected && i - 1 != v.selected),
{
}

/// A segment's text is its label followed by one space, preceded by one
/// space unless a separator is drawn before it; so, separator included, a
/// segment covers its label's characters and two cells more.
pub proof fn law_segment_text(label: Seq<char>, separator: bool)
    ensures
        segment_text(label, true) == label + seq![' '],
        segment_text(label, false) == seq![' '] + label + seq![' '],
        segment_text(label, separator).len() + (if separator {
            1int
        } else {
            0int
        }) == label.len() + 2,
{
}

/// A segment is as wide as its label's UTF-8 bytes plus one cell on each
/// side; the first segment starts at column zero and each next one where the
/// previous one ends.
pub proof fn law_segment_columns(labels: Seq<Seq<char>>, i: int)
    requires
        0 <= i,
    ensures
        label_width(labels[i]) == encode_utf8(labels[i]).len() + 2,
        is_ascii_chars(labels[i]) ==> label_width(labels[i]) == labels[i].len() + 2,
        segment_start(labels, 0) == 0,
        segment_start(labels, i + 1) == segment_start(labels, i) + label_width(labels[i]),
        total_width(labels) == segment_start(labels, labels.len() as int),
{
    if is_ascii_chars(labels[i]) {
        is_ascii_chars_encode_utf8(labels[i]);
    }
}

/// Right and `l` move the selection to the nearest segment to the right that
/// is not disabled, passing only disabled ones, and report it; when there is
/// none, nothing changes. Left and `h` do the same to the left. Either way
/// the key is consumed, focus is not asked for, and nothing is held.
pub proof fn law_arrow_keys(v: SegmentedView, event: InputEvent, height: int)
    requires
        view_wf(v),
    ensures
        ({
            let (w, e) = input_outcome(v, event, height);
            let n = v.labels.len() as int;
            &&& (event.chord == plain(Trigger::Key(Key::Arrow(Direction::Right))) || event.chord
                == plain(Trigger::Key(Key::Char('l')))) ==> {
                &&& e.handled && !e.focus && w.pressed == v.pressed
                &&& (e.change matches Some(i) ==> {
                    &&& v.selected < i < n
                    &&& w.selected == i
                    &&& !bit_set(v.disabled, i as u32)
                    &&& forall|k: int|
                        v.selected < k < i ==> #[trigger] bit_set(v.disabled, k as u32)
                })
                &&& (e.change is None ==> w == v && forall|k: int|
                    v.selected < k < n ==> #[trigger] bit_set(v.disabled, k as u32))
            }
            &&& (event.chord == plain(Trigger::Key(Key::Arrow(Direction::Left))) || event.chord
                == plain(Trigger::Key(Key::Char('h')))) ==> {
                &&& e.handled && !e.focus && w.pressed == v.pressed
                &&& (e.change matches Some(i) ==> {
                    &&& 0 <= i < v.selected
                    &&& w.selected == i
                    &&& !bit_set(v.disabled, i as u32)
                    &&& forall|k: int|
                        i < k < v.selected ==> #[trigger] bit_set(v.disabled, k as u32)
                })
                &&& (e.change is None ==> w == v && (v.selected > n || forall|k: int|
                    0 <= k < v.selected ==> #[trigger] bit_set(v.disabled, k as u32)))
            }
        }),
{
    lemma_next_enabled(v.labels.len() as int, v.disabled, v.selected - 1, -1);
    lemma_next_enabled(v.labels.len() as int, v.disabled, v.selected + 1int, 1);
}

/// A left press over an enabled segment asks for focus and marks it held;
/// anywhere else it is consumed without effect. Chords other than the
/// arrow keys, `h`, `l`, and a left press or release are left to others:
/// in particular any key or button with a modifier held.
pub proof fn law_pointer_and_other_chords(v: SegmentedView, event: InputEvent, height: int)
    requires
        view_wf(v),
    ensures
        ({
            let (w, e) = input_outcome(v, event, height);
            let hit = segment_hit(v.labels, event.cell_x as int, event.cell_y as int, height);
            &&& event.chord == plain(Trigger::MouseDown(MouseButton::Left)) ==> {
                &&& e.handled && e.change is None && w.selected == v.selected
                &&& hit matches Some(i) ==> {
                    &&& !bit_set(v.disabled, i as u32) ==> e.focus && w.pressed == Some(i as nat)
                    &&& bit_set(v.disabled, i as u32) ==> !e.focus && w == v && !e.repaint
                }
                &&& hit is None ==> !e.focus && w == v && !e.repaint
            }
            &&& event.chord.modifiers != 0 ==> w == v && e == ignored()
            &&& !(event.chord.trigger == Trigger::Key(Key::Arrow(Direction::Right))
                || event.chord.trigger == Trigger::Key(Key::Arrow(Direction::Left))
                || event.chord.trigger == Trigger::Key(Key::Char('h'))
                || event.chord.trigger == Trigger::Key(Key::Char('l'))
                || event.chord.trigger == Trigger::MouseDown(MouseButton::Left)
                || event.chord.trigger == Trigger::MouseUp(MouseButton::Left)) ==> w == v && e
                == (ControlEffects { handled: false, repaint: false, focus: false, change: None })
        }),
{
}

/// Marking a segment as held records exactly that segment and owes a
/// repaint exactly when the held segment changes; selecting an enabled
/// segment in range owes a repaint exactly when the selection moves, and
/// leaves the held segment and the mask alone.
pub proof fn law_press_and_select_state(v: SegmentedView, pressed: Option<nat>, index: int)
    requires
        view_wf(v),
    ensures
        spec_press(v, pressed).0 == (SegmentedView { pressed, ..v }),
        spec_press(v, pressed).1 == (v.pressed != pressed),
        (0 <= index < v.labels.len() && !bit_set(v.disabled, index as u32)) ==> {
            &&& spec_select(v, index).1 == (v.selected != index)
            &&& spec_select(v, index).0.pressed == v.pressed
            &&& spec_select(v, index).0.disabled == v.disabled
            &&& spec_select(v, index).0.labels == v.labels
        },
{
}

} // verus!
