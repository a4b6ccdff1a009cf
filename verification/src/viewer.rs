//! The viewer: which image is shown, and what each event leads to.

use vstd::prelude::*;
use vstd::string::*;

verus! {

/// A key, by what it stands for.
#[derive(Debug)]
pub enum Key {
    Escape,
    ArrowRight,
    ArrowLeft,
    ArrowUp,
    ArrowDown,
    /// The text that the key types.
    Character(String),
    Other,
}

/// A change of how the image is looked at. Distances are in tenths of the image's size at the
/// current zoom, factors in percent.
#[derive(Clone, Copy, Debug, PartialEq, Eq, Structural)]
pub enum ViewChange {
    Pan { right: i32, down: i32 },
    ZoomIn { percent: u32 },
    ZoomOut { percent: u32 },
    Reset,
}

/// What a key asks for.
#[derive(Clone, Copy, Debug, PartialEq, Eq, Structural)]
pub enum Command {
    Quit,
    Next,
    Previous,
    Change(ViewChange),
    ToggleFullscreen,
    Nothing,
}

/// One step of a pan to the right or down.
pub const STEP: i32 = 1;

/// One step of a pan to the left or up.
pub const STEP_BACK: i32 = -1;

/// How much a key zooms.
pub const KEY_ZOOM_PERCENT: u32 = 120;

/// How much one notch of the mouse wheel zooms.
pub const WHEEL_ZOOM_PERCENT: u32 = 110;

/// The text is this one character.
pub open spec fn is_text(text: Seq<char>, c: char) -> bool {
    text == seq![c]
}

fn types(text: &String, c: char) -> (r: bool)
    ensures
        r == is_text(text@, c),
{
    let text: &str = text.as_str();
    let r: bool = text.unicode_len() == 1 && text.get_char(0) == c;
    assert(r ==> text@ =~= seq![c]);
    r
}

/// The commands of the characters.
pub open spec fn character_command(text: Seq<char>) -> Command {
    if is_text(text, 'q') {
        Command::Quit
    } else if is_text(text, 'l') {
        Command::Next
    } else if is_text(text, 'h') {
        Command::Previous
    } else if is_text(text, 'j') {
        Command::Change(ViewChange::Pan { right: 0, down: STEP_BACK })
    } else if is_text(text, 'k') {
        Command::Change(ViewChange::Pan { right: 0, down: STEP })
    } else if is_text(text, '+') || is_text(text, '=') {
        Command::Change(ViewChange::ZoomIn { percent: KEY_ZOOM_PERCENT })
    } else if is_text(text, '-') {
        Command::Change(ViewChange::ZoomOut { percent: KEY_ZOOM_PERCENT })
    } else if is_text(text, '0') {
        Command::Change(ViewChange::Reset)
    } else if is_text(text, 'f') {
        Command::ToggleFullscreen
    } else {
        Command::Nothing
    }
}

/// The commands of the keys.
pub open spec fn key_command(key: Key, shift: bool) -> Command {
    match key {
        Key::Escape => Command::Quit,
        Key::ArrowRight => if shift {
            Command::Next
        } else {
            Command::Change(ViewChange::Pan { right: STEP_BACK, down: 0 })
        },
        Key::ArrowLeft => if shift {
            Command::Previous
        } else {
            Command::Change(ViewChange::Pan { right: STEP, down: 0 })
        },
        Key::ArrowUp => Command::Change(ViewChange::Pan { right: 0, down: STEP }),
        Key::ArrowDown => Command::Change(ViewChange::Pan { right: 0, down: STEP_BACK }),
        Key::Character(text) => character_command(text@),
        Key::Other => Command::Nothing,
    }
}

/// What a key asks for, with or without the shift key.
pub fn command_for(key: &Key, shift: bool) -> (command: Command)
    ensures
        command == key_command(*key, shift),
{
    match key {
        Key::Escape => Command::Quit,
        Key::ArrowRight => if shift {
            Command::Next
        } else {
            Command::Change(ViewChange::Pan { right: STEP_BACK, down: 0 })
        },
        Key::ArrowLeft => if shift {
            Command::Previous
        } else {
            Command::Change(ViewChange::Pan { right: STEP, down: 0 })
        },
        Key::ArrowUp => Command::Change(ViewChange::Pan { right: 0, down: STEP }),
        Key::ArrowDown => Command::Change(ViewChange::Pan { right: 0, down: STEP_BACK }),
        Key::Character(text) => if types(text, 'q') {
            Command::Quit
        } else if types(text, 'l') {
            Command::Next
        } else if types(text, 'h') {
            Command::Previous
        } else if types(text, 'j') {
            Command::Change(ViewChange::Pan { right: 0, down: STEP_BACK })
        } else if types(text, 'k') {
            Command::Change(ViewChange::Pan { right: 0, down: STEP })
        } else if types(text, '+') || types(text, '=') {
            Command::Change(ViewChange::ZoomIn { percent: KEY_ZOOM_PERCENT })
        } else if types(text, '-') {
            Command::Change(ViewChange::ZoomOut { percent: KEY_ZOOM_PERCENT })
        } else if types(text, '0') {
            Command::Change(ViewChange::Reset)
        } else if types(text, 'f') {
            Command::ToggleFullscreen
        } else {
            Command::Nothing
        },
        Key::Other => Command::Nothing,
    }
}

/// What happens to the viewer.
#[derive(Debug)]
pub enum Event {
    CloseRequested,
    Resized { width: u32, height: u32 },
    ModifiersChanged { shift: bool },
    /// The window has to be drawn; `cached` says whether the current image is on the GPU.
    RedrawRequested { cached: bool },
    Keyboard { key: Key, pressed: bool },
    /// The mouse wheel turned by lines, up or not.
    Wheel { up: bool },
    /// There is nothing left to do, so many nanoseconds after another image was chosen.
    AboutToWait { since_choice: u128 },
    /// The image with this number has been decoded.
    Decoded { index: usize },
    /// The image with this number could not be decoded.
    DecodeFailed { index: usize },
    Other,
}

/// What the viewer wants done.
#[derive(Clone, Copy, Debug, PartialEq, Eq, Structural)]
pub enum Effect {
    Exit,
    Rebuild { width: u32, height: u32 },
    /// Decode the image with this number in the background.
    Decode { index: usize },
    /// Make the image with this number the one that is drawn.
    Show { index: usize },
    /// Name this image in the title of the window.
    SetTitle { index: usize },
    /// Give up, because the image with this number cannot be shown.
    GiveUp { index: usize },
    /// Choose the zoom at which the whole image is seen, and centre it.
    FitView,
    Draw,
    RequestRedraw,
    /// Count the time from now.
    RestartTimer,
    ChangeView(ViewChange),
    ToggleFullscreen,
}

/// The state of the viewer.
#[derive(Clone, Copy, Debug, PartialEq, Eq, Structural)]
pub struct Viewer {
    pub image_count: usize,
    /// The image that is chosen.
    pub current: usize,
    /// The chosen image is not on the screen yet.
    pub needs_update: bool,
    /// The image that is being decoded.
    pub loading: Option<usize>,
    /// The image that is drawn.
    pub displayed: Option<usize>,
    pub shift: bool,
    /// The time between two images of a slideshow, in nanoseconds.
    pub slideshow: Option<u128>,
}

/// The number after `current`, and the first one after the last.
pub open spec fn index_after(current: int, count: int) -> int {
    (current + 1) % count
}

/// The number before `current`, and the last one before the first.
pub open spec fn index_before(current: int, count: int) -> int {
    (current + count - 1) % count
}

impl Viewer {
    /// The chosen image exists, and an image that needs no update is the one that is drawn.
    pub open spec fn wf(self) -> bool {
        &&& self.current < self.image_count
        &&& !self.needs_update ==> self.displayed == Some(self.current)
    }

    pub open spec fn choosing(self, index: int) -> Viewer {
        Viewer { current: index as usize, needs_update: true, ..self }
    }

    pub open spec fn showing_current(self) -> Viewer {
        Viewer { needs_update: false, displayed: Some(self.current), ..self }
    }

    /// A slideshow shows the next image.
    pub open spec fn is_due(self, since_choice: u128) -> bool {
        self.slideshow matches Some(interval) && since_choice > interval
    }

    /// The state after a command.
    pub open spec fn after_command(self, command: Command) -> Viewer {
        match command {
            Command::Next => self.choosing(
                index_after(self.current as int, self.image_count as int),
            ),
            Command::Previous => self.choosing(
                index_before(self.current as int, self.image_count as int),
            ),
            _ => self,
        }
    }

    /// The state after an event.
    pub open spec fn after(self, event: Event) -> Viewer {
        match event {
            Event::ModifiersChanged { shift } => Viewer { shift, ..self },
            Event::RedrawRequested { cached } => if !self.needs_update {
                self
            } else if cached {
                self.showing_current()
            } else {
                Viewer { loading: Some(self.current), ..self }
            },
            Event::Keyboard { key, pressed } => if pressed {
                self.after_command(key_command(key, self.shift))
            } else {
                self
            },
            Event::AboutToWait { since_choice } => if self.is_due(since_choice) {
                self.after_command(Command::Next)
            } else {
                self
            },
            Event::Decoded { index } => if self.loading != Some(index) {
                self
            } else if self.needs_update && index == self.current {
                Viewer { loading: None, ..self }.showing_current()
            } else {
                Viewer { loading: None, ..self }
            },
            Event::DecodeFailed { index } => if self.loading == Some(index) {
                Viewer { loading: None, ..self }
            } else {
                self
            },
            _ => self,
        }
    }

    /// The viewer waits for the image with this number to be decoded, and wants to show it.
    pub open spec fn awaits(self, index: usize) -> bool {
        self.loading == Some(index) && self.needs_update && index == self.current
    }

    /// What a command wants done.
    pub open spec fn command_effects(self, command: Command) -> Seq<Effect> {
        match command {
            Command::Quit => seq![Effect::Exit],
            Command::Next => seq![Effect::RestartTimer, Effect::RequestRedraw],
            Command::Previous => seq![Effect::RestartTimer, Effect::RequestRedraw],
            Command::Change(change) => seq![Effect::ChangeView(change), Effect::RequestRedraw],
            Command::ToggleFullscreen => seq![Effect::ToggleFullscreen],
            Command::Nothing => Seq::empty(),
        }
    }

    /// What brings the current image to the screen.
    pub open spec fn show_effects(self) -> Seq<Effect> {
        seq![
            Effect::Show { index: self.current },
            Effect::SetTitle { index: self.current },
            Effect::FitView,
            Effect::Draw,
        ]
    }

    /// What is done while the current image is not on the GPU: it is decoded, unless it already
    /// is being decoded, and the image that is on the screen stays there.
    pub open spec fn waiting_effects(self) -> Seq<Effect> {
        (if self.loading != Some(self.current) {
            seq![Effect::Decode { index: self.current }]
        } else {
            Seq::empty()
        }) + (if self.displayed is Some {
            seq![Effect::Draw]
        } else {
            Seq::empty()
        })
    }

    /// What an event wants done, in this order.
    pub open spec fn effects(self, event: Event) -> Seq<Effect> {
        match event {
            Event::CloseRequested => seq![Effect::Exit],
            Event::Resized { width, height } => seq![Effect::Rebuild { width, height }],
            Event::RedrawRequested { cached } => if !self.needs_update {
                seq![Effect::Draw]
            } else if cached {
                self.show_effects()
            } else {
                self.waiting_effects()
            },
            Event::Keyboard { key, pressed } => if pressed {
                self.command_effects(key_command(key, self.shift))
            } else {
                Seq::empty()
            },
            Event::Wheel { up } => self.command_effects(
                Command::Change(
                    if up {
                        ViewChange::ZoomIn { percent: WHEEL_ZOOM_PERCENT }
                    } else {
                        ViewChange::ZoomOut { percent: WHEEL_ZOOM_PERCENT }
                    },
                ),
            ),
            Event::AboutToWait { since_choice } => if self.is_due(since_choice) {
                self.command_effects(Command::Next)
            } else {
                Seq::empty()
            },
            Event::Decoded { index } => if self.awaits(index) {
                self.show_effects()
            } else {
                Seq::empty()
            },
            Event::DecodeFailed { index } => if self.awaits(index) {
                seq![Effect::GiveUp { index }]
            } else {
                Seq::empty()
            },
            _ => Seq::empty(),
        }
    }

    /// A viewer of so many images, which starts at the image with the given number.
    pub fn new(image_count: usize, start: usize, slideshow: Option<u128>) -> (viewer: Viewer)
        requires
            start < image_count,
        ensures
            viewer.wf(),
            viewer == (Viewer {
                image_count,
                current: start,
                needs_update: true,
                loading: None,
                displayed: None,
                shift: false,
                slideshow,
            }),
    {
        Viewer {
            image_count,
            current: start,
            needs_update: true,
            loading: None,
            displayed: None,
            shift: false,
            slideshow,
        }
    }

    /// How long to sleep at most before the next event, in nanoseconds; where there is no
    /// slideshow, until something happens.
    pub fn sleep_limit(&self) -> (limit: Option<u128>)
        ensures
            limit == self.slideshow,
    {
        self.slideshow
    }

    /// Takes an event, and says what has to be done.
    pub fn handle(&mut self, event: Event) -> (effects: Vec<Effect>)
        requires
            old(self).wf(),
        ensures
            final(self).wf(),
            *final(self) == old(self).after(event),
            effects@ == old(self).effects(event),
    {
        match event {
            Event::CloseRequested => vec![Effect::Exit],
            Event::Resized { width, height } => vec![Effect::Rebuild { width, height }],
            Event::ModifiersChanged { shift } => {
                self.shift = shift;
                Vec::new()
            },
            Event::RedrawRequested { cached } => self.redraw(cached),
            Event::Keyboard { key, pressed } => if pressed {
                let command: Command = command_for(&key, self.shift);
                self.obey(command)
            } else {
                Vec::new()
            },
            Event::Wheel { up } => self.obey(
                Command::Change(
                    if up {
                        ViewChange::ZoomIn { percent: WHEEL_ZOOM_PERCENT }
                    } else {
                        ViewChange::ZoomOut { percent: WHEEL_ZOOM_PERCENT }
                    },
                ),
            ),
            Event::AboutToWait { since_choice } => {
                let due: bool = match self.slideshow {
                    Some(interval) => since_choice > interval,
                    None => false,
                };
                if due {
                    self.obey(Command::Next)
                } else {
                    Vec::new()
                }
            },
            Event::Decoded { index } => self.decoded(index),
            Event::DecodeFailed { index } => {
                let loading: bool = self.is_loading(index);
                if loading {
                    self.loading = None;
                }
                if loading && self.needs_update && index == self.current {
                    vec![Effect::GiveUp { index }]
                } else {
                    Vec::new()
                }
            },
            Event::Other => Vec::new(),
        }
    }

    fn obey(&mut self, command: Command) -> (effects: Vec<Effect>)
        requires
            old(self).wf(),
        ensures
            final(self).wf(),
            *final(self) == old(self).after_command(command),
            effects@ == old(self).command_effects(command),
    {
        match command {
            Command::Quit => vec![Effect::Exit],
            Command::Next => {
                proof {
                    lemma_index_after(self.current as int, self.image_count as int);
                }
                self.current = if self.current + 1 == self.image_count {
                    0
                } else {
                    self.current + 1
                };
                self.needs_update = true;
                vec![Effect::RestartTimer, Effect::RequestRedraw]
            },
            Command::Previous => {
                proof {
                    lemma_index_before(self.current as int, self.image_count as int);
                }
                self.current = if self.current == 0 {
                    self.image_count - 1
                } else {
                    self.current - 1
                };
                self.needs_update = true;
                vec![Effect::RestartTimer, Effect::RequestRedraw]
            },
            Command::Change(change) => vec![Effect::ChangeView(change), Effect::RequestRedraw],
            Command::ToggleFullscreen => vec![Effect::ToggleFullscreen],
            Command::Nothing => Vec::new(),
        }
    }

    fn redraw(&mut self, cached: bool) -> (effects: Vec<Effect>)
        requires
            old(self).wf(),
        ensures
            final(self).wf(),
            *final(self) == old(self).after(Event::RedrawRequested { cached }),
            effects@ == old(self).effects(Event::RedrawRequested { cached }),
    {
        if !self.needs_update {
            vec![Effect::Draw]
        } else if cached {
            self.show_current()
        } else {
            let mut effects: Vec<Effect> = Vec::new();
            if !self.is_loading(self.current) {
                effects.push(Effect::Decode { index: self.current });
            }
            if self.displayed.is_some() {
                effects.push(Effect::Draw);
            }
            self.loading = Some(self.current);
            assert(effects@ =~= old(self).waiting_effects());
            effects
        }
    }

    fn is_loading(&self, index: usize) -> (r: bool)
        ensures
            r == (self.loading == Some(index)),
    {
        match self.loading {
            Some(loading) => loading == index,
            None => false,
        }
    }

    fn decoded(&mut self, index: usize) -> (effects: Vec<Effect>)
        requires
            old(self).wf(),
        ensures
            final(self).wf(),
            *final(self) == old(self).after(Event::Decoded { index }),
            effects@ == old(self).effects(Event::Decoded { index }),
    {
        if !self.is_loading(index) {
            return Vec::new();
        }
        self.loading = None;
        if self.needs_update && index == self.current {
            self.show_current()
        } else {
            Vec::new()
        }
    }

    fn show_current(&mut self) -> (effects: Vec<Effect>)
        requires
            old(self).wf(),
        ensures
            final(self).wf(),
            *final(self) == old(self).showing_current(),
            effects@ == old(self).show_effects(),
    {
        self.needs_update = false;
        self.displayed = Some(self.current);
        vec![
            Effect::Show { index: self.current },
            Effect::SetTitle { index: self.current },
            Effect::FitView,
            Effect::Draw,
        ]
    }
}

proof fn lemma_index_after(current: int, count: int)
    requires
        0 <= current < count,
    ensures
        index_after(current, count) == (if current + 1 == count {
            0
        } else {
            current + 1
        }),
{
    if current + 1 == count {
        vstd::arithmetic::div_mod::lemma_mod_self_0(count);
    } else {
        vstd::arithmetic::div_mod::lemma_small_mod((current + 1) as nat, count as nat);
    }
}

proof fn lemma_index_before(current: int, count: int)
    requires
        0 <= current < count,
    ensures
        index_before(current, count) == (if current == 0 {
            count - 1
        } else {
            current - 1
        }),
{
    if current == 0 {
        vstd::arithmetic::div_mod::lemma_small_mod((count - 1) as nat, count as nat);
    } else {
        vstd::arithmetic::div_mod::lemma_mod_add_multiples_vanish(current - 1, count);
        vstd::arithmetic::div_mod::lemma_small_mod((current - 1) as nat, count as nat);
    }
}

/// Going on and going back undo each other.
pub proof fn law_next_and_previous_undo_each_other(viewer: Viewer)
    requires
        viewer.wf(),
    ensures
        viewer.after_command(Command::Next).after_command(Command::Previous).current
            == viewer.current,
        viewer.after_command(Command::Previous).after_command(Command::Next).current
            == viewer.current,
{
    let count = viewer.image_count as int;
    lemma_index_after(viewer.current as int, count);
    lemma_index_before(viewer.current as int, count);
    lemma_index_before(index_after(viewer.current as int, count), count);
    lemma_index_after(index_before(viewer.current as int, count), count);
}

/// The viewer after going on `steps` times.
pub open spec fn after_steps(viewer: Viewer, steps: nat) -> Viewer
    decreases steps,
{
    if steps == 0 {
        viewer
    } else {
        after_steps(viewer, (steps - 1) as nat).after_command(Command::Next)
    }
}

/// Going on walks through the images in order and comes back to where it began after as many
/// steps as there are images, and not before.
pub proof fn law_images_form_a_cycle(viewer: Viewer, steps: nat)
    requires
        viewer.wf(),
    ensures
        after_steps(viewer, steps).wf(),
        after_steps(viewer, steps).image_count == viewer.image_count,
        after_steps(viewer, steps).current == (viewer.current + steps) % (
        viewer.image_count as int),
        steps == viewer.image_count ==> after_steps(viewer, steps).current == viewer.current,
        0 < steps < viewer.image_count ==> after_steps(viewer, steps).current != viewer.current,
    decreases steps,
{
    let count = viewer.image_count as int;
    let current = viewer.current as int;
    if steps == 0 {
        vstd::arithmetic::div_mod::lemma_small_mod(current as nat, count as nat);
    } else {
        let before = (steps - 1) as nat;
        law_images_form_a_cycle(viewer, before);
        let there = (current + before) % count;
        lemma_index_after(there, count);
        assert((there + 1) % count == (current + steps) % count) by {
            vstd::arithmetic::div_mod::lemma_add_mod_noop(current + before, 1, count);
            vstd::arithmetic::div_mod::lemma_add_mod_noop(there, 1, count);
            vstd::arithmetic::div_mod::lemma_mod_twice(current + before, count);
        }
        if steps == count {
            vstd::arithmetic::div_mod::lemma_mod_add_multiples_vanish(current, count);
            vstd::arithmetic::div_mod::lemma_small_mod(current as nat, count as nat);
        }
        if steps < count {
            if current + steps < count {
                vstd::arithmetic::div_mod::lemma_small_mod((current + steps) as nat, count as nat);
            } else {
                vstd::arithmetic::div_mod::lemma_mod_add_multiples_vanish(
                    current + steps - count,
                    count,
                );
                vstd::arithmetic::div_mod::lemma_small_mod(
                    (current + steps - count) as nat,
                    count as nat,
                );
            }
        }
    }
}

/// Only going on, going back and the slideshow change which image is chosen.
pub proof fn law_other_events_keep_the_choice(viewer: Viewer, event: Event)
    requires
        viewer.wf(),
        viewer.after(event).current != viewer.current,
    ensures
        match event {
            Event::Keyboard { key, pressed } => pressed && (key_command(key, viewer.shift)
                == Command::Next || key_command(key, viewer.shift) == Command::Previous),
            Event::AboutToWait { since_choice } => viewer.is_due(since_choice),
            _ => false,
        },
{
}

/// A chosen image comes to the screen: at once where it is on the GPU, and otherwise when it has
/// been decoded, whatever else was drawn meanwhile. Until then the screen keeps its image.
pub proof fn law_chosen_image_is_shown(viewer: Viewer)
    requires
        viewer.wf(),
        viewer.needs_update,
    ensures
        ({
            let shown = viewer.after(Event::RedrawRequested { cached: true });
            &&& !shown.needs_update
            &&& shown.displayed == Some(viewer.current)
            &&& viewer.effects(Event::RedrawRequested { cached: true }) == viewer.show_effects()
        }),
        ({
            let waiting = viewer.after(Event::RedrawRequested { cached: false });
            let shown = waiting.after(Event::Decoded { index: viewer.current });
            &&& waiting.displayed == viewer.displayed
            &&& waiting.after(Event::RedrawRequested { cached: false }) == waiting
            &&& !shown.needs_update
            &&& shown.displayed == Some(viewer.current)
            &&& waiting.effects(Event::Decoded { index: viewer.current }) == viewer.show_effects()
        }),
{
}

/// An image is decoded at most once for each choice: while it is being decoded, drawing the window
/// does not ask for it again.
pub proof fn law_decoding_is_asked_for_once(viewer: Viewer)
    requires
        viewer.wf(),
        viewer.needs_update,
    ensures
        ({
            let waiting = viewer.after(Event::RedrawRequested { cached: false });
            !waiting.effects(Event::RedrawRequested { cached: false }).contains(
                Effect::Decode { index: viewer.current },
            )
        }),
{
    let waiting = viewer.after(Event::RedrawRequested { cached: false });
    let effects = waiting.effects(Event::RedrawRequested { cached: false });
    assert(forall|i: int| 0 <= i < effects.len() ==> effects[i] == Effect::Draw);
}

/// An image that was decoded for a choice that has been changed since is not shown, and one that
/// could not be decoded does no harm.
pub proof fn law_late_image_is_not_shown(viewer: Viewer, index: usize)
    requires
        viewer.wf(),
        index != viewer.current,
    ensures
        viewer.effects(Event::Decoded { index }) == Seq::<Effect>::empty(),
        viewer.after(Event::Decoded { index }).displayed == viewer.displayed,
        viewer.after(Event::Decoded { index }).current == viewer.current,
        viewer.effects(Event::DecodeFailed { index }) == Seq::<Effect>::empty(),
        viewer.after(Event::DecodeFailed { index }).displayed == viewer.displayed,
        viewer.after(Event::DecodeFailed { index }).current == viewer.current,
{
}

/// A slideshow goes on to the next image once more than its interval has passed since the last
/// choice, and not before. Without a slideshow, time changes nothing.
pub proof fn law_slideshow_goes_on(viewer: Viewer, since_choice: u128)
    requires
        viewer.wf(),
    ensures
        ({
            let event = Event::AboutToWait { since_choice };
            match viewer.slideshow {
                Some(interval) if since_choice > interval => {
                    &&& viewer.after(event) == viewer.after_command(Command::Next)
                    &&& viewer.effects(event).contains(Effect::RestartTimer)
                },
                _ => {
                    &&& viewer.after(event) == viewer
                    &&& viewer.effects(event) == Seq::<Effect>::empty()
                },
            }
        }),
{
    let effects = viewer.effects(Event::AboutToWait { since_choice });
    if viewer.is_due(since_choice) {
        assert(effects[0] == Effect::RestartTimer);
    }
}

/// Every choice of an image, by a key or by the slideshow, restarts the timer and has the window
/// drawn, in whichever direction it goes and however many images there are. So has every event after
/// which the screen lacks the chosen image and before which it did not.
pub proof fn law_every_choice_is_drawn(viewer: Viewer, event: Event)
    requires
        viewer.wf(),
    ensures
        (match event {
            Event::Keyboard { key, pressed } => pressed && (key_command(key, viewer.shift)
                == Command::Next || key_command(key, viewer.shift) == Command::Previous),
            Event::AboutToWait { since_choice } => viewer.slideshow matches Some(interval)
                && since_choice > interval,
            _ => false,
        }) ==> {
            &&& viewer.after(event).needs_update
            &&& viewer.effects(event).contains(Effect::RequestRedraw)
            &&& viewer.effects(event).contains(Effect::RestartTimer)
            &&& viewer.effects(event).len() == 2
        },
        viewer.after(event).current != viewer.current || (viewer.after(event).needs_update
            && !viewer.needs_update) ==> {
            &&& viewer.effects(event).contains(Effect::RequestRedraw)
            &&& viewer.effects(event).contains(Effect::RestartTimer)
        },
        viewer.effects(event).contains(Effect::RestartTimer) ==> viewer.after(event).needs_update,
{
    let effects = viewer.effects(event);
    if effects.len() == 2 {
        assert(effects.contains(effects[0]));
        assert(effects.contains(effects[1]));
    }
    lemma_index_after(viewer.current as int, viewer.image_count as int);
    lemma_index_before(viewer.current as int, viewer.image_count as int);
}

/// Going on chooses the image with the next number, and after the last one the first; going back
/// chooses the one before, and before the first one the last. Neither touches what is drawn, what is
/// being decoded, or the settings.
pub proof fn law_choices_are_neighbours(viewer: Viewer)
    requires
        viewer.wf(),
    ensures
        ({
            let next = viewer.after_command(Command::Next);
            let previous = viewer.after_command(Command::Previous);
            &&& viewer.current + 1 < viewer.image_count ==> next.current == viewer.current + 1
            &&& viewer.current + 1 == viewer.image_count ==> next.current == 0
            &&& viewer.current > 0 ==> previous.current == viewer.current - 1
            &&& viewer.current == 0 ==> previous.current == viewer.image_count - 1
            &&& next == (Viewer { current: next.current, needs_update: true, ..viewer })
            &&& previous == (Viewer { current: previous.current, needs_update: true, ..viewer })
        }),
{
    lemma_index_after(viewer.current as int, viewer.image_count as int);
    lemma_index_before(viewer.current as int, viewer.image_count as int);
}

/// Each key asks for one thing: escape and q quit; l, and right with shift, go on; h, and left with
/// shift, go back; f switches to the full screen or back; 0 resets the view; plus and the equals sign
/// zoom in and minus zooms out by a fifth; the arrows and j and k move the view by one step. No other
/// key does anything.
pub proof fn law_keys(key: Key, shift: bool)
    ensures
        ({
            let command = key_command(key, shift);
            let text = match key {
                Key::Character(text) => Some(text@),
                _ => None,
            };
            let types = |c: char| text == Some(seq![c]);
            let pans = |right: int, down: int|
                command matches Command::Change(ViewChange::Pan { right: r, down: d }) && r == right
                    && d == down;
            &&& command == Command::Quit <==> key is Escape || types('q')
            &&& command == Command::Next <==> types('l') || (key is ArrowRight && shift)
            &&& command == Command::Previous <==> types('h') || (key is ArrowLeft && shift)
            &&& command == Command::ToggleFullscreen <==> types('f')
            &&& command == Command::Change(ViewChange::Reset) <==> types('0')
            &&& command == Command::Change(ViewChange::ZoomIn { percent: 120 }) <==> types('+')
                || types('=')
            &&& command == Command::Change(ViewChange::ZoomOut { percent: 120 }) <==> types('-')
            &&& pans(-1, 0) <==> key is ArrowRight && !shift
            &&& pans(1, 0) <==> key is ArrowLeft && !shift
            &&& pans(0, 1) <==> key is ArrowUp || types('k')
            &&& pans(0, -1) <==> key is ArrowDown || types('j')
            &&& command == Command::Nothing <==> key is Other || (key is Character && !types('q')
                && !types('l') && !types('h') && !types('f') && !types('0') && !types('+')
                && !types('=') && !types('-') && !types('k') && !types('j'))
        }),
{
    let text = match key {
        Key::Character(text) => text@,
        _ => Seq::empty(),
    };
    assert forall|c: char| #[trigger] is_text(text, c) implies text.len() == 1 && text[0] == c by {
    }
}

/// A pressed key has its command carried out, and a released one nothing. A command to quit ends
/// the program, one to change the view has it changed and drawn anew, and one to switch the full
/// screen has that switched.
pub proof fn law_pressed_keys_are_obeyed(viewer: Viewer, key: Key, change: ViewChange)
    ensures
        ({
            let effects = viewer.effects(Event::Keyboard { key, pressed: true });
            let command = key_command(key, viewer.shift);
            &&& command == Command::Quit ==> effects == seq![Effect::Exit]
            &&& command == Command::Change(change) ==> effects == seq![
                Effect::ChangeView(change),
                Effect::RequestRedraw,
            ]
            &&& command == Command::ToggleFullscreen ==> effects == seq![Effect::ToggleFullscreen]
            &&& command == Command::Nothing ==> effects == Seq::<Effect>::empty()
            &&& command != Command::Next && command != Command::Previous ==> viewer.after(
                Event::Keyboard { key, pressed: true },
            ) == viewer
        }),
        viewer.effects(Event::Keyboard { key, pressed: false }) == Seq::<Effect>::empty(),
        viewer.after(Event::Keyboard { key, pressed: false }) == viewer,
{
}

/// The window is closed when that is asked for, and its surroundings are rebuilt in exactly the size
/// that it was given. The wheel zooms in upwards and out downwards, by a tenth. The shift key is
/// remembered as it is. None of this chooses another image.
pub proof fn law_window_events(viewer: Viewer, width: u32, height: u32, shift: bool)
    ensures
        viewer.effects(Event::CloseRequested) == seq![Effect::Exit],
        viewer.effects(Event::Resized { width, height }) == seq![Effect::Rebuild { width, height }],
        viewer.effects(Event::Wheel { up: true }) == seq![
            Effect::ChangeView(ViewChange::ZoomIn { percent: 110 }),
            Effect::RequestRedraw,
        ],
        viewer.effects(Event::Wheel { up: false }) == seq![
            Effect::ChangeView(ViewChange::ZoomOut { percent: 110 }),
            Effect::RequestRedraw,
        ],
        viewer.effects(Event::ModifiersChanged { shift }) == Seq::<Effect>::empty(),
        viewer.effects(Event::Other) == Seq::<Effect>::empty(),
        viewer.after(Event::CloseRequested) == viewer,
        viewer.after(Event::Resized { width, height }) == viewer,
        viewer.after(Event::Wheel { up: shift }) == viewer,
        viewer.after(Event::ModifiersChanged { shift }) == (Viewer { shift, ..viewer }),
        viewer.after(Event::Other) == viewer,
{
}

/// No event changes how many images there are or how fast the slideshow is, and only the shift key
/// changes what is known of it.
pub proof fn law_settings_stay(viewer: Viewer, event: Event)
    ensures
        viewer.after(event).image_count == viewer.image_count,
        viewer.after(event).slideshow == viewer.slideshow,
        !(event is ModifiersChanged) ==> viewer.after(event).shift == viewer.shift,
{
}

/// What is asked for when the window has to be drawn. An image that is on the screen is drawn. One
/// that is on the GPU is shown, named in the title, fitted and drawn. Otherwise the chosen image is
/// decoded, unless it is being decoded already, and what is on the screen is drawn again.
pub proof fn law_window_is_drawn(viewer: Viewer, cached: bool)
    requires
        viewer.wf(),
    ensures
        ({
            let effects = viewer.effects(Event::RedrawRequested { cached });
            let after = viewer.after(Event::RedrawRequested { cached });
            let shown = viewer.needs_update && cached;
            let waits = viewer.needs_update && !cached;
            &&& effects.contains(Effect::Draw) <==> viewer.displayed is Some || shown
            &&& shown ==> effects == seq![
                Effect::Show { index: viewer.current },
                Effect::SetTitle { index: viewer.current },
                Effect::FitView,
                Effect::Draw,
            ]
            &&& !viewer.needs_update ==> effects == seq![Effect::Draw]
            &&& effects.contains(Effect::Decode { index: viewer.current }) <==> waits
                && viewer.loading != Some(viewer.current)
            &&& forall|i: int|
                0 <= i < effects.len() && (#[trigger] effects[i] is Decode) ==> effects[i]
                    == Effect::Decode { index: viewer.current }
            &&& waits ==> effects.len() <= 2 && forall|i: int|
                0 <= i < effects.len() ==> (#[trigger] effects[i] is Decode) || effects[i]
                    == Effect::Draw
            &&& forall|i: int| 0 < i < effects.len() ==> !(#[trigger] effects[i] is Decode)
            &&& forall|i: int, j: int|
                0 <= i < j < effects.len() ==> #[trigger] effects[i] != #[trigger] effects[j]
            &&& after.current == viewer.current
            &&& after.loading == (if waits {
                Some(viewer.current)
            } else {
                viewer.loading
            })
            &&& after.needs_update == waits
            &&& after.displayed == (if shown {
                Some(viewer.current)
            } else {
                viewer.displayed
            })
        }),
{
    let effects = viewer.effects(Event::RedrawRequested { cached });
    if viewer.needs_update && !cached {
        let asks = viewer.loading != Some(viewer.current);
        let draws = viewer.displayed is Some;
        if asks {
            assert(effects[0] == Effect::Decode { index: viewer.current });
        }
        if draws {
            assert(effects.last() == Effect::Draw);
        }
    } else if viewer.needs_update {
        assert(effects[3] == Effect::Draw);
    } else {
        assert(effects[0] == Effect::Draw);
    }
}

/// A decoded image is shown exactly if it is the one that was being decoded and still is the chosen
/// one; one that could not be decoded is given up exactly then. Either way the viewer no longer waits
/// for it, and it keeps waiting for another one.
pub proof fn law_decoded_image_is_shown(viewer: Viewer, index: usize)
    requires
        viewer.wf(),
    ensures
        ({
            let event = Event::Decoded { index };
            let failure = Event::DecodeFailed { index };
            let waited = viewer.loading == Some(index) && viewer.needs_update && viewer.current
                == index;
            &&& waited ==> viewer.effects(event) == seq![
                Effect::Show { index },
                Effect::SetTitle { index },
                Effect::FitView,
                Effect::Draw,
            ]
            &&& waited ==> viewer.effects(failure) == seq![Effect::GiveUp { index }]
            &&& !waited ==> viewer.effects(event) == Seq::<Effect>::empty()
            &&& !waited ==> viewer.effects(failure) == Seq::<Effect>::empty()
            &&& viewer.after(event).displayed == (if waited {
                Some(index)
            } else {
                viewer.displayed
            })
            &&& viewer.after(event).needs_update == (viewer.needs_update && !waited)
            &&& viewer.after(event).loading == (if viewer.loading == Some(index) {
                None
            } else {
                viewer.loading
            })
            &&& viewer.after(event).current == viewer.current
            &&& viewer.after(failure) == (Viewer {
                loading: viewer.after(event).loading,
                ..viewer
            })
        }),
{
}

} // verus!
