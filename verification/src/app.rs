//! The engine: the fields, which of them has the focus, and what a tick of
//! the timer or an event of the terminal does to them.
//!
//! The engine decides; it neither computes with numbers nor touches the
//! terminal. On a tick its caller scales the focused field's number to every
//! field and hands the scaled entries to [`App::update`]. An event goes to
//! [`App::handle_event`], which says whether it is meant for the editor of
//! the focused field; what the editor makes of it comes back through
//! [`App::handle_text_input`].
use vstd::prelude::*;
use crate::entry::{entry_views, Entry, EntryView};
use crate::event::{Event, KeyCode, KeyEvent, KeyEventKind};
use crate::item::{Item, ItemView};
use crate::layout::{split_horizontal, Area};
use crate::number::Ratio;
use crate::style::{decoration_of, style_of, Decoration, DecorationView, Style};
use crate::value::{value_views, Value, ValueView};

verus! {

/// Why no engine can be made of a list of values.
#[derive(Clone, Copy, Debug, PartialEq, Eq, Structural)]
pub enum ConfigError {
    /// The list is empty.
    Empty,
    /// The first value is zero or not finite, so that no ratio to it exists.
    Degenerate,
}

/// The state of the engine as the contracts speak of it.
pub struct AppView {
    pub fields: Seq<ItemView>,
    /// The index of the field that has the focus.
    pub focus: int,
    pub quit: bool,
}

/// The field that the value at `i` starts as: its ratio is that of its
/// number to the first value's number, its text reads as its number.
pub open spec fn initial_field(values: Seq<ValueView>, i: int) -> ItemView {
    ItemView {
        ratio: Ratio { numerator: values[i].value, denominator: values[0].value },
        title: values[i].name,
        entry: EntryView { text: values[i].text, value: Some(values[i].value) },
    }
}

/// The state that an engine made of `values` starts in.
pub open spec fn initial(values: Seq<ValueView>) -> AppView {
    AppView {
        fields: Seq::new(values.len(), |i: int| initial_field(values, i)),
        focus: 0,
        quit: false,
    }
}

impl AppView {
    /// There is a field, the focus is on one of them, the first field's ratio
    /// is one and every ratio is taken to the first field's first number.
    pub open spec fn wf(self) -> bool {
        &&& 0 <= self.focus < self.fields.len()
        &&& self.fields[0].ratio.is_one()
        &&& forall|i: int|
            0 <= i < self.fields.len() ==> (#[trigger] self.fields[i]).ratio.denominator
                == self.fields[0].ratio.numerator
    }

    /// The ratios of the fields, in order.
    pub open spec fn ratios(self) -> Seq<Ratio> {
        Seq::new(self.fields.len(), |i: int| self.fields[i].ratio)
    }

    /// The focused field's text reads as a finite number.
    pub open spec fn current_valid(self) -> bool {
        self.fields[self.focus].entry.valid()
    }

    /// The state after a tick for which the caller scaled the focused
    /// field's number to `scaled`. While the focused field is valid and
    /// `scaled` has an entry for every field, each other field takes the
    /// entry at its index. Otherwise nothing changes.
    pub open spec fn updated(self, scaled: Seq<EntryView>) -> AppView {
        if self.current_valid() && scaled.len() == self.fields.len() {
            AppView {
                fields: Seq::new(
                    self.fields.len(),
                    |i: int|
                        if i == self.focus {
                            self.fields[i]
                        } else {
                            self.fields[i].with_entry(scaled[i])
                        },
                ),
                ..self
            }
        } else {
            self
        }
    }

    /// The state after a request to move the focus on: to the next field,
    /// from the last to the first, while the focused field is valid.
    pub open spec fn advanced(self) -> AppView {
        if self.current_valid() {
            AppView { focus: (self.focus + 1) % (self.fields.len() as int), ..self }
        } else {
            self
        }
    }

    /// The state after a request to leave.
    pub open spec fn quitting(self) -> AppView {
        AppView { quit: true, ..self }
    }

    /// The state after the editor of the focused field left `entry` in it.
    pub open spec fn typed(self, entry: EntryView) -> AppView {
        AppView {
            fields: self.fields.update(self.focus, self.fields[self.focus].with_entry(entry)),
            ..self
        }
    }

    /// The state after an event of the terminal.
    pub open spec fn handled(self, event: Event) -> AppView {
        if event.quits() {
            self.quitting()
        } else if event.advances() {
            self.advanced()
        } else {
            self
        }
    }

    /// The state in which the field at `index` is shown.
    pub open spec fn style(self, index: int) -> Style {
        style_of(index, self.focus, self.current_valid())
    }

    /// The decoration of the field at `index`.
    pub open spec fn decoration(self, index: int) -> DecorationView {
        decoration_of(self.style(index), self.fields[index].label())
    }
}

/// What the event loop hands to the engine, one at a time.
#[derive(Debug)]
pub enum Stimulus {
    /// The timer fired; with it come the entries that the focused field's
    /// number was scaled to.
    Tick(Vec<Entry>),
    /// The terminal reported an event.
    Terminal(Event),
    /// The editor of the focused field left an entry in it.
    Edited(Entry),
}

/// A [`Stimulus`] as the contracts speak of it.
pub enum StimulusView {
    Tick(Seq<EntryView>),
    Terminal(Event),
    Edited(EntryView),
}

impl View for Stimulus {
    type V = StimulusView;

    open spec fn view(&self) -> StimulusView {
        match self {
            Stimulus::Tick(scaled) => StimulusView::Tick(entry_views(scaled@)),
            Stimulus::Terminal(event) => StimulusView::Terminal(*event),
            Stimulus::Edited(entry) => StimulusView::Edited(entry@),
        }
    }
}

/// What the event loop has to do after a stimulus.
#[derive(Clone, Copy, Debug, PartialEq, Eq, Structural)]
pub enum Effect {
    /// Paint the fields.
    Draw,
    /// Hand the event to the editor of the focused field, and what the
    /// editor leaves in the field back to the engine.
    Forward,
    /// Nothing.
    Idle,
}

/// What the event loop has to do after `stimulus`: a tick is followed by a
/// frame, an event by none.
pub open spec fn effect_of(stimulus: StimulusView) -> Effect {
    match stimulus {
        StimulusView::Tick(_) => Effect::Draw,
        StimulusView::Terminal(event) => if event.edits() {
            Effect::Forward
        } else {
            Effect::Idle
        },
        StimulusView::Edited(_) => Effect::Idle,
    }
}

impl AppView {
    /// The state after one stimulus.
    pub open spec fn stepped(self, stimulus: StimulusView) -> AppView {
        match stimulus {
            StimulusView::Tick(scaled) => self.updated(scaled),
            StimulusView::Terminal(event) => self.handled(event),
            StimulusView::Edited(entry) => self.typed(entry),
        }
    }

    /// The state in which the event loop ends when it is handed `stimuli` in
    /// order: it takes them one by one until leaving was requested.
    pub open spec fn run(self, stimuli: Seq<StimulusView>) -> AppView
        decreases stimuli.len(),
    {
        if self.quit || stimuli.len() == 0 {
            self
        } else {
            self.stepped(stimuli[0]).run(stimuli.drop_first())
        }
    }
}

/// How often the timer fires in a second.
pub const FRAMES_PER_SECOND: u32 = 60;

/// The engine.
#[derive(Debug)]
pub struct App {
    items: Vec<Item>,
    should_quit: bool,
    current: usize,
}

impl View for App {
    type V = AppView;

    closed spec fn view(&self) -> AppView {
        AppView {
            fields: Seq::new(self.items@.len(), |i: int| self.items@[i]@),
            focus: self.current as int,
            quit: self.should_quit,
        }
    }
}

impl App {
    /// An engine with one field for each value, in order, the focus on the
    /// first. The list must hold a value, and the first value must be finite
    /// and not zero: every ratio is taken to it.
    pub fn new(values: Vec<Value>) -> (r: Result<App, ConfigError>)
        ensures
            match r {
                Ok(app) => {
                    &&& values@.len() > 0
                    &&& values@[0].value.finite()
                    &&& !values@[0].value.zero()
                    &&& app@ == initial(value_views(values@))
                    &&& app@.wf()
                },
                Err(ConfigError::Empty) => values@.len() == 0,
                Err(ConfigError::Degenerate) => {
                    &&& values@.len() > 0
                    &&& !(values@[0].value.finite() && !values@[0].value.zero())
                },
            },
    {
        if values.len() == 0 {
            return Err(ConfigError::Empty);
        }
        let first = values[0].value;
        if !first.is_finite() || first.is_zero() {
            return Err(ConfigError::Degenerate);
        }
        let ghost views = value_views(values@);
        let mut items: Vec<Item> = Vec::new();
        let mut index: usize = 0;
        while index < values.len()
            invariant
                index <= values@.len(),
                items@.len() == index,
                views == value_views(values@),
                first == values@[0].value,
                forall|i: int| 0 <= i < index ==> (#[trigger] items@[i])@ == initial_field(views, i),
            decreases values@.len() - index,
        {
            let value = &values[index];
            let title = match &value.name {
                Some(name) => Some(name.clone()),
                None => None,
            };
            let entry = Entry::new(value.text.clone(), Some(value.value));
            let ratio = Ratio { numerator: value.value, denominator: first };
            items.push(Item::new(ratio, title, entry));
            index += 1;
        }
        let app = App { items, should_quit: false, current: 0 };
        proof {
            assert(app@.fields =~= initial(views).fields);
        }
        Ok(app)
    }

    /// The number of fields.
    pub fn len(&self) -> (r: usize)
        ensures
            r == self@.fields.len(),
    {
        self.items.len()
    }

    /// The index of the field that has the focus.
    pub fn current(&self) -> (r: usize)
        ensures
            r == self@.focus,
    {
        self.current
    }

    /// Whether leaving was requested.
    pub fn should_quit(&self) -> (r: bool)
        ensures
            r == self@.quit,
    {
        self.should_quit
    }

    /// The field at `index`, where there is one.
    pub fn item(&self, index: usize) -> (r: Option<&Item>)
        ensures
            match r {
                Some(item) => index < self@.fields.len() && item@ == self@.fields[index as int],
                None => index >= self@.fields.len(),
            },
    {
        if index < self.items.len() {
            Some(&self.items[index])
        } else {
            None
        }
    }

    /// Whether the focused field's text reads as a finite number.
    pub fn current_valid(&self) -> (r: bool)
        requires
            self@.wf(),
        ensures
            r == self@.current_valid(),
    {
        self.items[self.current].is_valid()
    }

    /// One tick. `scaled` is the focused field's number scaled to each
    /// field, in the order of the fields. While the focused field is valid,
    /// every other field's text and reading are replaced as a whole by the
    /// entry at its index; the focused field keeps its text as it was typed.
    /// While it is not valid, or where `scaled` has not one entry for each
    /// field, nothing changes.
    pub fn update(&mut self, scaled: Vec<Entry>)
        requires
            old(self)@.wf(),
        ensures
            final(self)@ == old(self)@.updated(entry_views(scaled@)),
            final(self)@.wf(),
    {
        if self.current_valid() && scaled.len() == self.items.len() {
            let ghost before = self@;
            Self::propagate(&mut self.items, self.current, scaled);
            proof {
                assert(self@.fields =~= before.updated(entry_views(scaled@)).fields);
            }
        }
    }

    /// Gives every field but the one at `focus` the entry at its index.
    fn propagate(items: &mut Vec<Item>, focus: usize, scaled: Vec<Entry>)
        requires
            scaled@.len() == old(items)@.len(),
        ensures
            final(items)@.len() == old(items)@.len(),
            forall|i: int|
                0 <= i < old(items)@.len() ==> (#[trigger] final(items)@[i])@ == if i == focus {
                    old(items)@[i]@
                } else {
                    old(items)@[i]@.with_entry(scaled@[i]@)
                },
    {
        let ghost entries = scaled@;
        let mut scaled = scaled;
        let mut index: usize = scaled.len();
        while index > 0
            invariant
                index == scaled@.len(),
                index <= entries.len() == old(items)@.len() == items@.len(),
                forall|i: int| 0 <= i < index ==> scaled@[i] == entries[i],
                forall|i: int| 0 <= i < index ==> items@[i] == old(items)@[i],
                forall|i: int|
                    index <= i < items@.len() ==> (#[trigger] items@[i])@ == if i == focus {
                        old(items)@[i]@
                    } else {
                        old(items)@[i]@.with_entry(entries[i]@)
                    },
            decreases index,
        {
            index -= 1;
            let entry = scaled.pop().unwrap();
            if index != focus {
                items[index].set_new_value(entry);
            }
        }
    }

    /// Moves the focus to the next field, from the last to the first, while
    /// the focused field is valid. While it is not, the focus stays.
    pub fn increment_focus(&mut self)
        requires
            old(self)@.wf(),
        ensures
            final(self)@ == old(self)@.advanced(),
            final(self)@.wf(),
    {
        if self.current_valid() {
            assert(self.current < self.items.len());
            self.current = (self.current + 1) % self.items.len();
        }
    }

    /// Records the request to leave.
    pub fn request_quit(&mut self)
        requires
            old(self)@.wf(),
        ensures
            final(self)@ == old(self)@.quitting(),
            final(self)@.wf(),
    {
        self.should_quit = true;
    }

    /// Puts what the editor of the focused field made of an event into that
    /// field. No other field changes before the next tick.
    pub fn handle_text_input(&mut self, entry: Entry)
        requires
            old(self)@.wf(),
        ensures
            final(self)@ == old(self)@.typed(entry@),
            final(self)@.wf(),
    {
        let ghost before = self@;
        Self::replace(&mut self.items, self.current, entry);
        proof {
            assert(self@.fields =~= before.typed(entry@).fields);
        }
    }

    /// Gives the field at `index` the entry `entry`.
    fn replace(items: &mut Vec<Item>, index: usize, entry: Entry)
        requires
            index < old(items)@.len(),
        ensures
            final(items)@.len() == old(items)@.len(),
            final(items)@[index as int]@ == old(items)@[index as int]@.with_entry(entry@),
            forall|i: int|
                0 <= i < old(items)@.len() && i != index ==> final(items)@[i] == old(items)@[i],
    {
        items[index].set_new_value(entry);
    }

    /// One event of the terminal. `q` going down requests to leave, the tab
    /// key going down moves the focus on. Every other event is meant for the
    /// editor of the focused field and changes nothing here: the result is
    /// `true` for those and for no others.
    pub fn handle_event(&mut self, event: &Event) -> (forward: bool)
        requires
            old(self)@.wf(),
        ensures
            final(self)@ == old(self)@.handled(*event),
            final(self)@.wf(),
            forward == event.edits(),
    {
        match event {
            Event::Key(KeyEvent { code: KeyCode::Char('q'), kind: KeyEventKind::Press }) => {
                self.request_quit();
                false
            },
            Event::Key(KeyEvent { code: KeyCode::Tab, kind: KeyEventKind::Press }) => {
                self.increment_focus();
                false
            },
            _ => true,
        }
    }

    /// One turn of the event loop: takes a stimulus and says what the loop
    /// has to do next.
    pub fn step(&mut self, stimulus: Stimulus) -> (effect: Effect)
        requires
            old(self)@.wf(),
        ensures
            final(self)@ == old(self)@.stepped(stimulus@),
            final(self)@.wf(),
            effect == effect_of(stimulus@),
    {
        match stimulus {
            Stimulus::Tick(scaled) => {
                self.update(scaled);
                Effect::Draw
            },
            Stimulus::Terminal(event) => {
                if self.handle_event(&event) {
                    Effect::Forward
                } else {
                    Effect::Idle
                }
            },
            Stimulus::Edited(entry) => {
                self.handle_text_input(entry);
                Effect::Idle
            },
        }
    }

    /// The state in which the field at `index` is shown.
    pub fn style(&self, index: usize) -> (r: Style)
        requires
            self@.wf(),
        ensures
            r == self@.style(index as int),
    {
        if index != self.current {
            Style::Unfocussed
        } else if self.current_valid() {
            Style::Focussed
        } else {
            Style::Invalid
        }
    }

    /// The decoration of the field at `index`, where there is one.
    pub fn decoration(&self, index: usize) -> (r: Option<Decoration>)
        requires
            self@.wf(),
        ensures
            match r {
                Some(decoration) => index < self@.fields.len() && decoration@ == self@.decoration(
                    index as int,
                ),
                None => index >= self@.fields.len(),
            },
    {
        if index < self.items.len() {
            Some(self.decorate(index, self.current_valid()))
        } else {
            None
        }
    }

    /// The decorations of all fields, in the order of the fields.
    pub fn decorations(&self) -> (r: Vec<Decoration>)
        requires
            self@.wf(),
        ensures
            r@.len() == self@.fields.len(),
            forall|i: int| 0 <= i < r@.len() ==> (#[trigger] r@[i])@ == self@.decoration(i),
    {
        let current_valid = self.current_valid();
        let mut decorations: Vec<Decoration> = Vec::new();
        let mut index: usize = 0;
        while index < self.items.len()
            invariant
                current_valid == self@.current_valid(),
                index <= self.items@.len(),
                decorations@.len() == index,
                forall|i: int|
                    0 <= i < index ==> (#[trigger] decorations@[i])@ == self@.decoration(i),
            decreases self.items@.len() - index,
        {
            decorations.push(self.decorate(index, current_valid));
            index += 1;
        }
        decorations
    }

    /// The decoration of the field at `index`, given whether the focused
    /// field is valid.
    fn decorate(&self, index: usize, current_valid: bool) -> (r: Decoration)
        requires
            index < self@.fields.len(),
            current_valid == self@.current_valid(),
        ensures
            r@ == self@.decoration(index as int),
    {
        let item = &self.items[index];
        if index != self.current {
            item.style_unfocussed()
        } else if current_valid {
            item.style_focussed()
        } else {
            item.style_invalid()
        }
    }

    /// Splits `body` from left to right into one region for each field, in
    /// the order of the fields, each as high as `body` and in its rows.
    pub fn build_layout(&self, body: Area) -> (r: Vec<Area>)
        ensures
            r@.len() == self@.fields.len(),
            forall|i: int| 0 <= i < r@.len() ==> r@[i].y == body.y && r@[i].height == body.height,
    {
        let weights: Vec<u16> = vec![1u16; self.items.len()];
        split_horizontal(&weights, body)
    }
}

} // verus!
