//! Control state of the full-screen dashboard: the interrupt state machine,
//! the key table, scroll offsets and the decisions on when to draw a frame.
use vstd::prelude::*;

verus! {

/// Relies on `tui::layout::Rect`, a window area that is only carried through.
#[verifier::external_type_specification]
#[verifier::external_body]
pub struct ExRect(tui::layout::Rect);

/// Relies on the `Clone` that `tui::layout::Rect` derives: a field-by-field copy.
pub assume_specification[ <tui::layout::Rect as std::clone::Clone>::clone ](
    a: &tui::layout::Rect,
) -> (r: tui::layout::Rect)
    ensures
        r == *a,
;

/// A line as used in `Event::SetInformation`.
#[derive(Debug, Clone)]
pub enum Line {
    /// Set a title with the given text
    Title(String),
    /// Set a line of text with the given content
    Text(String),
}

/// The variants represented here allow the user to control when the GUI can be shutdown.
#[derive(Debug, Clone, Copy, PartialEq, Eq, Structural)]
pub enum Interrupt {
    /// Immediately exit the GUI event loop when there is an interrupt request.
    ///
    /// This is the default when the event loop is entered.
    Instantly,
    /// Instead of exiting the event loop instantly, wait until the next Interrupt::Instantly
    /// event is coming in.
    Deferred,
}

/// The interrupt state of a running loop.
#[derive(Debug, Clone, Copy, PartialEq, Eq, Structural)]
pub enum InterruptDrawInfo {
    Instantly,
    /// Boolean signals if interrupt is requested
    Deferred(bool),
}

/// A key press, as read from the terminal.
#[derive(Debug, Clone, Copy, PartialEq, Eq, Structural)]
pub enum Key {
    Backspace,
    Left,
    Right,
    Up,
    Down,
    Home,
    End,
    PageUp,
    PageDown,
    BackTab,
    Delete,
    Insert,
    F(u8),
    Char(char),
    Alt(char),
    Ctrl(char),
    Null,
    Esc,
}

/// An event to be sent into the dashboard's event stream.
#[derive(Debug, Clone)]
pub enum Event {
    /// Draw a frame
    Tick,
    /// Send any key - can be used to simulate user input.
    Input(Key),
    /// Change the size of the window to the given rectangle.
    SetWindowSize(tui::layout::Rect),
    /// Set the title of the progress dashboard
    SetTitle(String),
    /// Provide a list of titles and lines to populate the side bar on the right.
    SetInformation(Vec<Line>),
    /// The way the GUI will respond to interrupt requests.
    SetInterruptMode(Interrupt),
}

/// What the dashboard shows, as changed by events.
pub struct ViewState {
    pub title: String,
    pub hide_messages: bool,
    pub messages_fullscreen: bool,
    pub message_offset: u16,
    pub task_offset: u16,
    pub hide_info: bool,
    pub maximize_info: bool,
    pub user_provided_window_size: Option<tui::layout::Rect>,
    pub information: Vec<Line>,
    pub last_tree_column_width: Option<u16>,
    pub next_tree_column_width: Option<u16>,
}

/// What the loop does after an event.
#[derive(Debug, Clone, Copy, PartialEq, Eq, Structural)]
pub enum Control {
    /// Leave the loop.
    Exit,
    /// Draw nothing for this event.
    Skip,
    /// Compare the progress with the copy kept of the last drawn one, then
    /// report the result with `Dashboard::compared`.
    Compare,
    /// Draw a frame.
    Redraw,
}

/// Whether a key asks to quit.
pub open spec fn is_quit(k: Key) -> bool {
    k == Key::Esc || k == Key::Char('q') || k == Key::Ctrl('c') || k == Key::Ctrl('[')
}

/// Whether a key has a meaning beyond quitting.
pub open spec fn is_view_key(k: Key) -> bool {
    k == Key::Char('`') || k == Key::Char('~') || k == Key::Char('J') || k == Key::Char('D')
        || k == Key::Char('j') || k == Key::Char('d') || k == Key::Char('K') || k == Key::Char('U')
        || k == Key::Char('k') || k == Key::Char('u') || k == Key::Char('[') || k == Key::Char('{')
}

/// `a + b`, at most the largest `u16`.
pub open spec fn sat_add(a: u16, b: u16) -> u16 {
    if a + b > 0xffff {
        0xffff
    } else {
        (a + b) as u16
    }
}

/// `a - b`, at least zero.
pub open spec fn sat_sub(a: u16, b: u16) -> u16 {
    if a < b {
        0
    } else {
        (a - b) as u16
    }
}

/// The view after a key press.
pub open spec fn view_after_key(v: ViewState, k: Key) -> ViewState {
    if k == Key::Char('`') {
        ViewState { hide_messages: !v.hide_messages, ..v }
    } else if k == Key::Char('~') {
        ViewState { messages_fullscreen: !v.messages_fullscreen, ..v }
    } else if k == Key::Char('J') {
        ViewState { message_offset: sat_add(v.message_offset, 1), ..v }
    } else if k == Key::Char('D') {
        ViewState { message_offset: sat_add(v.message_offset, 10), ..v }
    } else if k == Key::Char('j') {
        ViewState { task_offset: sat_add(v.task_offset, 1), ..v }
    } else if k == Key::Char('d') {
        ViewState { task_offset: sat_add(v.task_offset, 10), ..v }
    } else if k == Key::Char('K') {
        ViewState { message_offset: sat_sub(v.message_offset, 1), ..v }
    } else if k == Key::Char('U') {
        ViewState { message_offset: sat_sub(v.message_offset, 10), ..v }
    } else if k == Key::Char('k') {
        ViewState { task_offset: sat_sub(v.task_offset, 1), ..v }
    } else if k == Key::Char('u') {
        ViewState { task_offset: sat_sub(v.task_offset, 10), ..v }
    } else if k == Key::Char('[') {
        ViewState { hide_info: !v.hide_info, ..v }
    } else if k == Key::Char('{') {
        ViewState { maximize_info: !v.maximize_info, ..v }
    } else {
        v
    }
}

/// The view after an event.
pub open spec fn view_after(v: ViewState, e: Event) -> ViewState {
    match e {
        Event::Input(k) => view_after_key(v, k),
        Event::SetWindowSize(b) => ViewState { user_provided_window_size: Some(b), ..v },
        Event::SetTitle(t) => ViewState { title: t, ..v },
        Event::SetInformation(i) => ViewState { information: i, ..v },
        _ => v,
    }
}

/// The interrupt state after an event, or `None` where the loop ends.
pub open spec fn interrupt_after(mode: InterruptDrawInfo, e: Event) -> Option<InterruptDrawInfo> {
    match e {
        Event::Input(k) => if is_quit(k) {
            match mode {
                InterruptDrawInfo::Instantly => None,
                InterruptDrawInfo::Deferred(_) => Some(InterruptDrawInfo::Deferred(true)),
            }
        } else {
            Some(mode)
        },
        Event::SetInterruptMode(Interrupt::Instantly) => if mode == InterruptDrawInfo::Deferred(
            true,
        ) {
            None
        } else {
            Some(InterruptDrawInfo::Instantly)
        },
        Event::SetInterruptMode(Interrupt::Deferred) => match mode {
            InterruptDrawInfo::Deferred(requested) => Some(InterruptDrawInfo::Deferred(requested)),
            InterruptDrawInfo::Instantly => Some(InterruptDrawInfo::Deferred(false)),
        },
        _ => Some(mode),
    }
}

/// Whether an event leaves nothing to draw: a key that means nothing.
pub open spec fn skips_redraw(e: Event) -> bool {
    match e {
        Event::Input(k) => !is_quit(k) && !is_view_key(k),
        _ => false,
    }
}

/// What the loop does after an event, with or without the redraw-skip check.
pub open spec fn control_after(mode: InterruptDrawInfo, e: Event, only_on_change: bool) -> Control {
    if interrupt_after(mode, e) is None {
        Control::Exit
    } else if skips_redraw(e) {
        Control::Skip
    } else if only_on_change {
        Control::Compare
    } else {
        Control::Redraw
    }
}

/// What the loop does once the progress was compared with the last drawn copy.
pub open spec fn control_after_compare(unchanged: bool) -> Control {
    if unchanged {
        Control::Skip
    } else {
        Control::Redraw
    }
}

/// Whether the tree column width is taken over after drawing frame `tick`.
pub open spec fn column_width_taken(tick: nat, every: nat, last: Option<u16>) -> bool {
    tick == 1 || (every > 0 && tick % every == 0) || last.unwrap_or(0) == 0
}

fn saturating_add(a: u16, b: u16) -> (r: u16)
    ensures
        r == sat_add(a, b),
{
    if a > 0xffff - b {
        0xffff
    } else {
        a + b
    }
}

fn saturating_sub(a: u16, b: u16) -> (r: u16)
    ensures
        r == sat_sub(a, b),
{
    if a < b {
        0
    } else {
        a - b
    }
}


/// The state of a running dashboard loop.
pub struct Dashboard {
    pub view: ViewState,
    pub interrupt_mode: InterruptDrawInfo,
    /// Frames drawn so far.
    pub tick: usize,
    /// The tree column width is taken over every this many frames.
    pub store_task_size_every: usize,
    /// Whether a frame is drawn only where the progress changed since the last one.
    pub redraw_only_on_state_change: bool,
}

impl Dashboard {
    pub open spec fn wf(&self) -> bool {
        self.store_task_size_every >= 1
    }

    /// A dashboard before its first event, in `Interrupt::Instantly` mode.
    pub fn new(
        title: String,
        recompute_column_width_every_nth_frame: Option<usize>,
        redraw_only_on_state_change: bool,
    ) -> (r: Dashboard)
        ensures
            r.wf(),
            r.view.title == title,
            !r.view.hide_messages && !r.view.messages_fullscreen,
            !r.view.hide_info && !r.view.maximize_info,
            r.view.message_offset == 0 && r.view.task_offset == 0,
            r.view.user_provided_window_size is None,
            r.view.information@.len() == 0,
            r.view.last_tree_column_width is None && r.view.next_tree_column_width is None,
            r.interrupt_mode == InterruptDrawInfo::Instantly,
            r.tick == 0,
            r.store_task_size_every == match recompute_column_width_every_nth_frame {
                Some(n) => if n == 0 {
                    1
                } else {
                    n
                },
                None => 1,
            },
            r.redraw_only_on_state_change == redraw_only_on_state_change,
    {
        let every: usize = match recompute_column_width_every_nth_frame {
            Some(n) => if n == 0 {
                1
            } else {
                n
            },
            None => 1,
        };
        Dashboard {
            view: ViewState {
                title,
                hide_messages: false,
                messages_fullscreen: false,
                message_offset: 0,
                task_offset: 0,
                hide_info: false,
                maximize_info: false,
                user_provided_window_size: None,
                information: Vec::new(),
                last_tree_column_width: None,
                next_tree_column_width: None,
            },
            interrupt_mode: InterruptDrawInfo::Instantly,
            tick: 0,
            store_task_size_every: every,
            redraw_only_on_state_change,
        }
    }

    /// Applies one event: updates the view and the interrupt state, and says
    /// whether the loop ends, draws nothing, or goes on to draw.
    pub fn handle_event(&mut self, event: Event) -> (r: Control)
        ensures
            r == control_after(old(self).interrupt_mode, event, old(self).redraw_only_on_state_change),
            r == Control::Exit ==> *final(self) == *old(self),
            r != Control::Exit ==> {
                &&& final(self).interrupt_mode == interrupt_after(old(self).interrupt_mode, event)->Some_0
                &&& final(self).view == view_after(old(self).view, event)
                &&& final(self).tick == old(self).tick
                &&& final(self).store_task_size_every == old(self).store_task_size_every
                &&& final(self).redraw_only_on_state_change == old(self).redraw_only_on_state_change
            },
    {
        let mut skip_redraw = false;
        match event {
            Event::Tick => {},
            Event::Input(key) => match key {
                Key::Esc | Key::Char('q') | Key::Ctrl('c') | Key::Ctrl('[') => {
                    match self.interrupt_mode {
                        InterruptDrawInfo::Instantly => {
                            return Control::Exit;
                        },
                        InterruptDrawInfo::Deferred(_) => {
                            self.interrupt_mode = InterruptDrawInfo::Deferred(true);
                        },
                    }
                },
                Key::Char('`') => self.view.hide_messages = !self.view.hide_messages,
                Key::Char('~') => self.view.messages_fullscreen = !self.view.messages_fullscreen,
                Key::Char('J') => self.view.message_offset = saturating_add(self.view.message_offset, 1),
                Key::Char('D') => self.view.message_offset = saturating_add(self.view.message_offset, 10),
                Key::Char('j') => self.view.task_offset = saturating_add(self.view.task_offset, 1),
                Key::Char('d') => self.view.task_offset = saturating_add(self.view.task_offset, 10),
                Key::Char('K') => self.view.message_offset = saturating_sub(self.view.message_offset, 1),
                Key::Char('U') => self.view.message_offset = saturating_sub(self.view.message_offset, 10),
                Key::Char('k') => self.view.task_offset = saturating_sub(self.view.task_offset, 1),
                Key::Char('u') => self.view.task_offset = saturating_sub(self.view.task_offset, 10),
                Key::Char('[') => self.view.hide_info = !self.view.hide_info,
                Key::Char('{') => self.view.maximize_info = !self.view.maximize_info,
                _ => skip_redraw = true,
            },
            Event::SetWindowSize(bound) => self.view.user_provided_window_size = Some(bound),
            Event::SetTitle(title) => self.view.title = title,
            Event::SetInformation(info) => self.view.information = info,
            Event::SetInterruptMode(mode) => {
                match mode {
                    Interrupt::Instantly => {
                        if let InterruptDrawInfo::Deferred(true) = self.interrupt_mode {
                            return Control::Exit;
                        }
                        self.interrupt_mode = InterruptDrawInfo::Instantly;
                    },
                    Interrupt::Deferred => {
                        self.interrupt_mode = InterruptDrawInfo::Deferred(
                            match self.interrupt_mode {
                                InterruptDrawInfo::Deferred(requested) => requested,
                                InterruptDrawInfo::Instantly => false,
                            },
                        );
                    },
                }
            },
        }
        if skip_redraw {
            Control::Skip
        } else if self.redraw_only_on_state_change {
            Control::Compare
        } else {
            Control::Redraw
        }
    }

    /// After `Control::Compare`: skip the frame where the progress equals the
    /// copy kept of the last drawn one, else draw it (and keep a new copy).
    pub fn compared(&self, unchanged: bool) -> (r: Control)
        ensures
            r == control_after_compare(unchanged),
    {
        if unchanged {
            Control::Skip
        } else {
            Control::Redraw
        }
    }

    /// Counts a frame that is about to be drawn.
    pub fn begin_frame(&mut self)
        requires
            old(self).tick < usize::MAX,
        ensures
            final(self).tick == old(self).tick + 1,
            final(self).view == old(self).view,
            final(self).interrupt_mode == old(self).interrupt_mode,
            final(self).store_task_size_every == old(self).store_task_size_every,
            final(self).redraw_only_on_state_change == old(self).redraw_only_on_state_change,
    {
        self.tick = self.tick + 1;
    }

    /// Records the tree column width that the drawn frame used, and takes it
    /// over for the next frames on the first frame, every
    /// `store_task_size_every` frames, or while no width is known.
    pub fn end_frame(&mut self, last_tree_column_width: Option<u16>)
        requires
            old(self).wf(),
        ensures
            final(self).view.last_tree_column_width == last_tree_column_width,
            final(self).view.next_tree_column_width == if column_width_taken(
                old(self).tick as nat,
                old(self).store_task_size_every as nat,
                last_tree_column_width,
            ) {
                last_tree_column_width
            } else {
                old(self).view.next_tree_column_width
            },
            final(self).view == (ViewState {
                last_tree_column_width: final(self).view.last_tree_column_width,
                next_tree_column_width: final(self).view.next_tree_column_width,
                ..old(self).view
            }),
            final(self).tick == old(self).tick,
            final(self).interrupt_mode == old(self).interrupt_mode,
            final(self).store_task_size_every == old(self).store_task_size_every,
            final(self).redraw_only_on_state_change == old(self).redraw_only_on_state_change,
    {
        self.view.last_tree_column_width = last_tree_column_width;
        let width: u16 = match last_tree_column_width {
            Some(w) => w,
            None => 0,
        };
        if self.tick == 1 || self.tick % self.store_task_size_every == 0 || width == 0 {
            self.view.next_tree_column_width = last_tree_column_width;
        }
    }

    /// The window to draw into: the size set by an event, else the one
    /// configured, else the terminal's.
    pub fn window_size(
        &self,
        configured: Option<tui::layout::Rect>,
        terminal: tui::layout::Rect,
    ) -> (r: tui::layout::Rect)
        ensures
            r == match self.view.user_provided_window_size {
                Some(w) => w,
                None => match configured {
                    Some(w) => w,
                    None => terminal,
                },
            },
    {
        match self.view.user_provided_window_size {
            Some(w) => w,
            None => match configured {
                Some(w) => w,
                None => terminal,
            },
        }
    }
}


/// The view after pressing the same key `n` times.
pub open spec fn press_times(v: ViewState, k: Key, n: nat) -> ViewState
    decreases n,
{
    if n == 0 {
        v
    } else {
        view_after_key(press_times(v, k, (n - 1) as nat), k)
    }
}

/// Quitting ends the loop in instant mode; in deferred mode it is recorded
/// and the loop goes on, until instant mode is asked for again, which then
/// ends it. Switching into deferred mode keeps a pending request.
pub proof fn lemma_interrupt_state_machine(quit: Key, only_on_change: bool, requested: bool)
    requires
        is_quit(quit),
    ensures
        control_after(InterruptDrawInfo::Instantly, Event::Input(quit), only_on_change)
            == Control::Exit,
        interrupt_after(InterruptDrawInfo::Deferred(false), Event::Input(quit)) == Some(
            InterruptDrawInfo::Deferred(true),
        ),
        control_after(InterruptDrawInfo::Deferred(false), Event::Input(quit), only_on_change)
            != Control::Exit,
        control_after(
            InterruptDrawInfo::Deferred(true),
            Event::SetInterruptMode(Interrupt::Instantly),
            only_on_change,
        ) == Control::Exit,
        interrupt_after(
            InterruptDrawInfo::Deferred(requested),
            Event::SetInterruptMode(Interrupt::Deferred),
        ) == Some(InterruptDrawInfo::Deferred(requested)),
{
}

/// With the redraw-skip check, a tick asks for a comparison and leaves the
/// state alone; a changed progress is drawn and a copy of it kept, so the
/// next tick on an equal progress draws nothing: one frame for two ticks.
pub proof fn lemma_redraw_skip(mode: InterruptDrawInfo, v: ViewState)
    ensures
        control_after(mode, Event::Tick, true) == Control::Compare,
        interrupt_after(mode, Event::Tick) == Some(mode),
        view_after(v, Event::Tick) == v,
        control_after_compare(false) == Control::Redraw,
        control_after_compare(true) == Control::Skip,
{
}

/// Scrolling up by ten, any number of times, stops at zero.
pub proof fn lemma_scroll_up_saturates(v: ViewState, n: nat)
    ensures
        press_times(v, Key::Char('u'), n).task_offset == if v.task_offset >= 10 * n {
            v.task_offset - 10 * n
        } else {
            0
        },
        press_times(v, Key::Char('U'), n).message_offset == if v.message_offset >= 10 * n {
            v.message_offset - 10 * n
        } else {
            0
        },
    decreases n,
{
    if n > 0 {
        lemma_scroll_up_saturates(v, (n - 1) as nat);
    }
}

} // verus!
