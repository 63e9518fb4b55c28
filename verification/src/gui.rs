//! Basic GUI widgets: a clickable button, a focusable text input and the
//! configuration panel that groups them.
//!
//! Only the widgets' state machines live here — what is focused or hovered,
//! when a click lands, how a text event edits the string under the input.
//! Drawing them is the render collaborator's business.

use vstd::prelude::*;
use vstd::string::StrSliceExecFns;
use vstd::string::StringExecFns;

use crate::editor::EditorEvent;
use crate::geometry::{Point, Rect};

verus! {

/// The fonts the presentation layer keeps loaded; widgets only name one.
#[derive(Clone, Copy, PartialEq, Eq, Structural, Debug)]
pub enum GlobalyLoadedFonts {
    Tarzeau12,
    Tarzeau16,
}

/// The keys a text widget distinguishes; every other key is `Other`.
#[derive(Clone, Copy, PartialEq, Eq, Structural, Debug)]
pub enum Key {
    Backspace,
    Delete,
    Other,
}

/// A text-editing event: a key going down, or committed input text.
#[derive(PartialEq, Eq, Debug)]
pub enum TextEvent {
    KeyDown { key: Key },
    Input { text: String },
}

/// A labelled clickable region.
pub struct Button {
    pub text: String,
    pub rect: Rect,
    pub is_hovered: bool,
    pub font: GlobalyLoadedFonts,
}

/// What a pointer event does to a button: motion recomputes the hover flag,
/// everything else leaves it alone.
pub open spec fn button_after(b: Button, event: EditorEvent) -> Button {
    match event {
        EditorEvent::PointerMove { x, y } => Button {
            is_hovered: b.rect.spec_contains(x as int, y as int),
            ..b
        },
        _ => b,
    }
}

impl Button {
    pub fn new(text: String, rect: Rect) -> (r: Button)
        ensures
            r.text == text,
            r.rect == rect,
            !r.is_hovered,
            r.font == GlobalyLoadedFonts::Tarzeau16,
    {
        Button { text, rect, is_hovered: false, font: GlobalyLoadedFonts::Tarzeau16 }
    }

    /// Whether this event is a pointer-down inside the button.
    pub fn is_clicked(&self, event: EditorEvent) -> (r: bool)
        ensures
            r == (event matches EditorEvent::PointerDown { x, y } && self.rect.spec_contains(
                x as int,
                y as int,
            )),
    {
        match event {
            EditorEvent::PointerDown { x, y } => self.rect.contains_point(Point::new(x, y)),
            _ => false,
        }
    }

    pub fn handle_event(&mut self, event: EditorEvent)
        ensures
            *final(self) == button_after(*old(self), event),
    {
        match event {
            EditorEvent::PointerMove { x, y } => {
                self.is_hovered = self.rect.contains_point(Point::new(x, y));
            },
            _ => {},
        }
    }
}

/// A focusable single-line text input. The edited string itself belongs to
/// the caller and is handed to `on_text_change` together with each event.
pub struct TextInput {
    pub rect: Rect,
    pub focused: bool,
    pub hovered: bool,
    pub cursor: u16,
    pub font: GlobalyLoadedFonts,
}

/// What a pointer event does to a text input: a pointer-down focuses it
/// exactly when it lands inside, motion recomputes the hover flag.
pub open spec fn text_input_after(t: TextInput, event: EditorEvent) -> TextInput {
    match event {
        EditorEvent::PointerDown { x, y } => TextInput {
            focused: t.rect.spec_contains(x as int, y as int),
            ..t
        },
        EditorEvent::PointerMove { x, y } => TextInput {
            hovered: t.rect.spec_contains(x as int, y as int),
            ..t
        },
        _ => t,
    }
}

impl TextInput {
    pub fn new(rect: Rect) -> (r: TextInput)
        ensures
            r.rect == rect,
            !r.focused,
            !r.hovered,
            r.cursor == 0,
            r.font == GlobalyLoadedFonts::Tarzeau16,
    {
        TextInput {
            rect,
            cursor: 0,
            focused: false,
            hovered: false,
            font: GlobalyLoadedFonts::Tarzeau16,
        }
    }

    /// Apply one text event to the edited string: backspace and delete remove
    /// the last character, committed input is appended — both only while the
    /// input is focused, and an empty string has nothing to remove.
    pub fn on_text_change(&mut self, text: &mut String, event: TextEvent)
        ensures
            *final(self) == *old(self),
            match event {
                TextEvent::KeyDown { key } => {
                    if (key == Key::Backspace || key == Key::Delete) && old(self).focused && old(
                        text,
                    )@.len() > 0 {
                        final(text)@ == old(text)@.subrange(0, old(text)@.len() - 1)
                    } else {
                        *final(text) == *old(text)
                    }
                },
                TextEvent::Input { text: t } => {
                    if old(self).focused {
                        final(text)@ == old(text)@ + t@
                    } else {
                        *final(text) == *old(text)
                    }
                },
            },
    {
        match event {
            TextEvent::KeyDown { key: Key::Backspace } | TextEvent::KeyDown {
                key: Key::Delete,
            } => {
                if !self.focused {
                    return ;
                }
                let n: usize = text.as_str().unicode_len();
                if n == 0 {
                    return ;
                }
                let shortened: String = text.as_str().substring_char(0, n - 1).to_owned();
                *text = shortened;
            },
            TextEvent::Input { text: committed } => {
                if !self.focused {
                    return ;
                }
                text.append(committed.as_str());
            },
            _ => {},
        }
    }

    pub fn handle_event(&mut self, event: EditorEvent)
        ensures
            *final(self) == text_input_after(*old(self), event),
    {
        match event {
            EditorEvent::PointerDown { x, y } => {
                self.focused = self.rect.contains_point(Point::new(x, y));
            },
            EditorEvent::PointerMove { x, y } => {
                self.hovered = self.rect.contains_point(Point::new(x, y));
            },
            _ => {},
        }
    }
}

/// The side panel for the selected component: an "add state" button and a
/// name editor, laid out inside a column of width `w` at `(x, y)`.
pub struct ConfigPanel {
    pub x: i32,
    pub y: i32,
    pub add_state_button: Button,
    pub state_edit_input: TextInput,
}

impl ConfigPanel {
    pub fn new(x: i32, y: i32, w: u32) -> (r: ConfigPanel)
        requires
            i32::MIN + 100 <= x + w <= i32::MAX,
            y + 80 <= i32::MAX,
            w >= 20,
        ensures
            r.x == x,
            r.y == y,
            r.add_state_button.rect == (Rect {
                x: (x + w - 100) as i32,
                y: (y + 20) as i32,
                w: 90,
                h: 22,
            }),
            r.add_state_button.font == GlobalyLoadedFonts::Tarzeau12,
            !r.add_state_button.is_hovered,
            r.state_edit_input.rect == (Rect { x, y: (y + 80) as i32, w: (w - 20) as u32, h: 30 }),
            !r.state_edit_input.focused,
            !r.state_edit_input.hovered,
    {
        let bx: i32 = ((x as i64 + w as i64) - 100) as i32;
        let mut add_state_button = Button::new("Add State".to_string(), Rect::new(bx, y + 20, 90, 22));
        add_state_button.font = GlobalyLoadedFonts::Tarzeau12;
        let state_edit_input = TextInput::new(Rect::new(x, y + 80, w - 20, 30));
        ConfigPanel { x, y, add_state_button, state_edit_input }
    }

    /// Forward one pointer event to both widgets.
    pub fn handle_event(&mut self, event: EditorEvent)
        ensures
            *final(self) == (ConfigPanel {
                add_state_button: button_after(old(self).add_state_button, event),
                state_edit_input: text_input_after(old(self).state_edit_input, event),
                ..*old(self)
            }),
    {
        self.add_state_button.handle_event(event);
        self.state_edit_input.handle_event(event);
    }
}

} // verus!
