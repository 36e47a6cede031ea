//! The line renderer: decides which lines to print, how far to pad them and
//! how to return the cursor so that the next frame overwrites this one.
use vstd::prelude::*;

verus! {

/// How to turn last frame's lines into this frame's.
pub struct LineDiff {
    /// Spaces to append to each visible line so that no stale cell remains.
    pub pads: Vec<u16>,
    /// Widths of lines that are no longer visible and must be blanked.
    pub blanks: Vec<u16>,
    /// How many lines to move the cursor up after drawing.
    pub move_up: usize,
}

/// Padding of line `i` of the new frame, given last frame's widths.
pub open spec fn pad_of(prev: Seq<u16>, cur: Seq<u16>, i: int) -> u16 {
    if i < prev.len() && prev[i] > cur[i] {
        (prev[i] - cur[i]) as u16
    } else {
        0
    }
}

/// Lines drawn last frame that lie beyond the new frame's last line.
pub open spec fn blanks_of(prev: Seq<u16>, cur: Seq<u16>) -> Seq<u16> {
    if prev.len() > cur.len() {
        prev.subrange(cur.len() as int, prev.len() as int)
    } else {
        Seq::empty()
    }
}

/// Lines to move up: the old count when the frame shrank, else the new count.
pub open spec fn move_up_of(prev: Seq<u16>, cur: Seq<u16>) -> nat {
    if prev.len() > cur.len() {
        prev.len()
    } else {
        cur.len()
    }
}

/// Compares last frame's line widths `prev` with this frame's `cur`.
pub fn diff_lines(prev: &Vec<u16>, cur: &Vec<u16>) -> (r: LineDiff)
    ensures
        r.pads@.len() == cur@.len(),
        forall|i: int| 0 <= i < cur@.len() ==> r.pads@[i] == pad_of(prev@, cur@, i),
        r.blanks@ == blanks_of(prev@, cur@),
        r.move_up == move_up_of(prev@, cur@),
{
    let mut pads: Vec<u16> = Vec::new();
    let mut i: usize = 0;
    while i < cur.len()
        invariant
            i <= cur@.len(),
            pads@.len() == i,
            forall|j: int| 0 <= j < i ==> pads@[j] == pad_of(prev@, cur@, j),
        decreases cur@.len() - i,
    {
        let p: u16 = if i < prev.len() && prev[i] > cur[i] {
            prev[i] - cur[i]
        } else {
            0
        };
        pads.push(p);
        i = i + 1;
    }
    let mut blanks: Vec<u16> = Vec::new();
    let mut move_up: usize = cur.len();
    if prev.len() > cur.len() {
        let mut k: usize = cur.len();
        while k < prev.len()
            invariant
                cur@.len() <= k <= prev@.len(),
                blanks@ == prev@.subrange(cur@.len() as int, k as int),
            decreases prev@.len() - k,
        {
            blanks.push(prev[k]);
            k = k + 1;
            assert(blanks@ == prev@.subrange(cur@.len() as int, k as int));
        }
        move_up = prev.len();
    }
    assert(blanks@ == blanks_of(prev@, cur@));
    LineDiff { pads, blanks, move_up }
}


/// Displayed width in terminal columns of a string with the given characters.
pub uninterp spec fn str_width(s: Seq<char>) -> nat;

/// Relies on `unicode_width::UnicodeWidthStr::width`: the displayed width in
/// columns, which depends on the characters alone; nothing has width zero.
#[verifier::external_body]
fn display_width(s: &str) -> (r: usize)
    ensures
        r as nat == str_width(s@),
        s@.len() == 0 ==> r == 0,
{
    unicode_width::UnicodeWidthStr::width(s)
}

/// Text printed after each task's name.
pub const FILLER: &'static str = "long text long text long text long text long text long text long text long text long text long text long text ";

/// Nesting depth of a task.
pub type Level = u8;

/// A task as the line renderer sees it: its depth and its name.
pub struct Task {
    pub level: Level,
    pub name: String,
}

/// How a message is to be highlighted.
#[derive(Clone, Copy, Debug, PartialEq, Eq, Structural)]
pub enum MessageLevel {
    Info,
    Success,
    Failure,
}

/// One entry of the message log.
pub struct Message {
    pub level: MessageLevel,
    pub origin: String,
    pub message: String,
}

/// Renderer state carried from one frame to the next.
pub struct State {
    /// The widest origin label seen so far.
    pub max_message_origin_size: usize,
    /// The amount of cells per line written last time.
    pub blocks_per_line: Vec<u16>,
    /// Amount of times we drew so far.
    pub ticks: usize,
}

/// Configuration of the line renderer.
pub struct Options {
    /// Only tasks whose level lies in this inclusive range are drawn.
    pub level_filter: Option<(Level, Level)>,
    pub keep_running_if_progress_is_empty: bool,
    pub output_is_terminal: bool,
    pub colored: bool,
    pub timestamp: bool,
}

/// The message at position `message`, its origin right-aligned by `fill` spaces.
pub struct MessageLine {
    pub message: usize,
    pub fill: usize,
}

/// A task line: the task at position `task`, drawn with the tick counter `ticks`,
/// followed by `pad` spaces.
pub struct TaskLine {
    pub task: usize,
    pub ticks: usize,
    pub pad: u16,
}

/// Everything one call of `all` prints, in order: the messages, the task
/// lines, the blanked lines, then a cursor movement up by `move_up` lines.
pub struct Frame {
    pub messages: Vec<MessageLine>,
    pub lines: Vec<TaskLine>,
    pub blanks: Vec<u16>,
    pub move_up: Option<usize>,
}

/// Why a frame was not drawn.
#[derive(Clone, Copy, Debug, PartialEq, Eq, Structural)]
pub enum RenderError {
    /// There is nothing to show and the renderer was asked to stop then.
    ProgressIsEmpty,
}

/// The widest origin after seeing origins of widths `w`, starting from `init`.
pub open spec fn max_width(init: nat, w: Seq<nat>) -> nat
    decreases w.len(),
{
    if w.len() == 0 {
        init
    } else {
        let m = max_width(init, w.drop_last());
        if w.last() > m {
            w.last()
        } else {
            m
        }
    }
}

/// The widths of the messages' origins.
pub open spec fn origin_widths(msgs: Seq<Message>) -> Seq<nat> {
    Seq::new(msgs.len(), |i: int| str_width(msgs[i].origin@))
}

/// Whether a task of the given level passes the filter.
pub open spec fn level_passes(filter: Option<(Level, Level)>, level: Level) -> bool {
    match filter {
        None => true,
        Some((lo, hi)) => lo <= level && level <= hi,
    }
}

/// Indices of the first `n` tasks that pass the filter, in order.
pub open spec fn visible(tasks: Seq<Task>, filter: Option<(Level, Level)>, n: nat) -> Seq<int>
    decreases n,
{
    if n == 0 {
        Seq::empty()
    } else {
        let v = visible(tasks, filter, (n - 1) as nat);
        if level_passes(filter, tasks[n - 1].level) {
            v.push(n - 1)
        } else {
            v
        }
    }
}

/// Number of decimal digits of `n`.
pub open spec fn decimal_digits(n: nat) -> nat
    decreases n,
{
    if n < 10 {
        1
    } else {
        1 + decimal_digits(n / 10)
    }
}

/// `v` capped at the largest `u16`.
pub open spec fn cap_u16(v: int) -> u16 {
    if v > 0xffff {
        0xffff
    } else {
        v as u16
    }
}

/// Printed width of a task line: indentation, tick counter, name and filler.
pub open spec fn task_width(level: Level, ticks: nat, name: Seq<char>) -> u16 {
    width_sum(level, ticks, str_width(name), str_width(FILLER@))
}

/// Width of a line with the given indentation, tick counter, and name and
/// filler widths, capped at the largest `u16`.
pub open spec fn width_sum(level: Level, ticks: nat, name_width: nat, filler_width: nat) -> u16 {
    cap_u16(level + decimal_digits(ticks) + name_width + filler_width)
}

/// Widths of the task lines at the given indices.
pub open spec fn widths_of(tasks: Seq<Task>, idx: Seq<int>, ticks: nat) -> Seq<u16> {
    Seq::new(idx.len(), |i: int| task_width(tasks[idx[i]].level, ticks, tasks[idx[i]].name@))
}

proof fn lemma_digits_bounded(n: nat)
    requires
        n >= 1,
    ensures
        1 <= decimal_digits(n) <= n,
    decreases n,
{
    if n >= 10 {
        lemma_digits_bounded(n / 10);
    }
}

fn digits(n: usize) -> (r: usize)
    ensures
        r == decimal_digits(n as nat),
{
    let mut m: usize = n;
    let mut d: usize = 1;
    proof {
        if n >= 1 {
            lemma_digits_bounded(n as nat);
        }
    }
    while m >= 10
        invariant
            d >= 1,
            d + decimal_digits(m as nat) == 1 + decimal_digits(n as nat),
            n >= 1 ==> decimal_digits(n as nat) <= n,
            m <= n,
        decreases m,
    {
        proof {
            lemma_digits_bounded((m / 10) as nat);
        }
        m = m / 10;
        d = d + 1;
    }
    d
}


fn add_capped(a: usize, b: usize) -> (r: usize)
    requires
        a <= 0xffff,
    ensures
        r == cap_u16(a + b),
{
    if b > 0xffff - a {
        0xffff
    } else {
        a + b
    }
}

/// Width of a task line given the widths of its name and of the filler.
pub fn line_width(level: Level, ticks: usize, name_width: usize, filler_width: usize) -> (r: u16)
    ensures
        r == width_sum(level, ticks as nat, name_width as nat, filler_width as nat),
{
    let a = add_capped(level as usize, digits(ticks));
    let b = add_capped(a, name_width);
    let c = add_capped(b, filler_width);
    c as u16
}

/// Printed width of the line for a task, as `task_width` gives it.
pub fn task_line_width(level: Level, ticks: usize, name: &String) -> (r: u16)
    ensures
        r == task_width(level, ticks as nat, name@),
{
    line_width(level, ticks, display_width(name.as_str()), display_width(FILLER))
}

/// The widths as natural numbers.
pub open spec fn as_nats(w: Seq<usize>) -> Seq<nat> {
    Seq::new(w.len(), |i: int| w[i] as nat)
}

/// Right-aligns origins of the given widths: returns the widest origin after
/// all of them, starting from `widest`, and for each origin the spaces to put
/// before it so that it ends where the widest one seen so far ends.
pub fn align_origins(widest: usize, widths: &Vec<usize>) -> (r: (usize, Vec<usize>))
    ensures
        r.0 == max_width(widest as nat, as_nats(widths@)),
        r.1@.len() == widths@.len(),
        forall|i: int|
            0 <= i < widths@.len() ==> #[trigger] r.1@[i] == max_width(
                widest as nat,
                as_nats(widths@).take(i + 1),
            ) - widths@[i],
{
    let ghost w = as_nats(widths@);
    let mut max: usize = widest;
    let mut fills: Vec<usize> = Vec::new();
    let mut i: usize = 0;
    while i < widths.len()
        invariant
            i <= widths@.len(),
            w == as_nats(widths@),
            max == max_width(widest as nat, w.take(i as int)),
            fills@.len() == i,
            forall|j: int|
                0 <= j < i ==> #[trigger] fills@[j] == max_width(widest as nat, w.take(j + 1))
                    - widths@[j],
        decreases widths@.len() - i,
    {
        let width = widths[i];
        assert(w.take(i + 1).drop_last() == w.take(i as int));
        assert(w.take(i + 1).last() == w[i as int]);
        if width > max {
            max = width;
        }
        let ghost before = fills@;
        fills.push(max - width);
        assert forall|j: int| 0 <= j < i + 1 implies #[trigger] fills@[j] == max_width(
            widest as nat,
            w.take(j + 1),
        ) - widths@[j] by {
            if j < i {
                assert(fills@[j] == before[j]);
            }
        }
        i = i + 1;
    }
    assert(w.take(i as int) == w);
    (max, fills)
}

/// Lays out the messages: each origin is right-aligned to the widest origin
/// seen so far, which `state` keeps from call to call.
fn messages(msgs: &Vec<Message>, state: &mut State) -> (r: Vec<MessageLine>)
    ensures
        final(state).max_message_origin_size == max_width(
            old(state).max_message_origin_size as nat,
            origin_widths(msgs@),
        ),
        final(state).blocks_per_line == old(state).blocks_per_line,
        final(state).ticks == old(state).ticks,
        r@.len() == msgs@.len(),
        forall|i: int|
            0 <= i < msgs@.len() ==> (#[trigger] r@[i]).message as int == i && r@[i].fill
                == max_width(
                old(state).max_message_origin_size as nat,
                origin_widths(msgs@).take(i + 1),
            ) - origin_widths(msgs@)[i],
{
    let mut widths: Vec<usize> = Vec::new();
    let mut i: usize = 0;
    while i < msgs.len()
        invariant
            i <= msgs@.len(),
            widths@.len() == i,
            forall|j: int| 0 <= j < i ==> widths@[j] as nat == str_width(#[trigger] msgs@[j].origin@),
        decreases msgs@.len() - i,
    {
        widths.push(display_width(msgs[i].origin.as_str()));
        i = i + 1;
    }
    assert(as_nats(widths@) =~= origin_widths(msgs@));
    let (widest, fills) = align_origins(state.max_message_origin_size, &widths);
    state.max_message_origin_size = widest;
    let mut out: Vec<MessageLine> = Vec::new();
    let mut k: usize = 0;
    while k < fills.len()
        invariant
            k <= fills@.len(),
            out@.len() == k,
            forall|j: int|
                0 <= j < k ==> (#[trigger] out@[j]).message as int == j && out@[j].fill == fills@[j],
        decreases fills@.len() - k,
    {
        let ghost before = out@;
        out.push(MessageLine { message: k, fill: fills[k] });
        assert forall|j: int| 0 <= j < k + 1 implies (#[trigger] out@[j]).message as int == j
            && out@[j].fill == fills@[j] by {
            if j < k {
                assert(out@[j] == before[j]);
            }
        }
        k = k + 1;
    }
    out
}

/// The frame `all` draws on success, for the terminal part.
pub open spec fn lines_match(
    lines: Seq<TaskLine>,
    idx: Seq<int>,
    prev: Seq<u16>,
    cur: Seq<u16>,
    ticks: nat,
) -> bool {
    &&& lines.len() == idx.len()
    &&& forall|i: int|
        0 <= i < idx.len() ==> (#[trigger] lines[i]).task as int == idx[i] && lines[i].ticks == ticks
            && lines[i].pad == pad_of(prev, cur, i)
}

/// Renders one frame of `tasks` (sorted) and the newly produced `msgs`.
///
/// Fails with `ProgressIsEmpty`, leaving `state` as it was, exactly when there
/// are no tasks and the renderer is not to keep running then. Otherwise all
/// messages are laid out; on a terminal each task passing the level filter
/// gets a line padded to last frame's width, lines no longer shown are blanked
/// and the cursor returns to the top of the block; the tick counter advances.
pub fn all(tasks: &Vec<Task>, msgs: &Vec<Message>, state: &mut State, config: &Options) -> (r:
    Result<Frame, RenderError>)
    requires
        old(state).ticks < usize::MAX,
    ensures
        r is Err <==> (!config.keep_running_if_progress_is_empty && tasks@.len() == 0),
        r is Err ==> *final(state) == *old(state),
        r is Ok ==> {
            let f = r->Ok_0;
            let vis = visible(tasks@, config.level_filter, tasks@.len());
            let prev = old(state).blocks_per_line@;
            let cur = widths_of(tasks@, vis, old(state).ticks as nat);
            &&& final(state).ticks == old(state).ticks + 1
            &&& final(state).max_message_origin_size == max_width(
                old(state).max_message_origin_size as nat,
                origin_widths(msgs@),
            )
            &&& f.messages@.len() == msgs@.len()
            &&& forall|i: int|
                0 <= i < msgs@.len() ==> (#[trigger] f.messages@[i]).message as int == i && f.messages@[i].fill
                    == max_width(
                    old(state).max_message_origin_size as nat,
                    origin_widths(msgs@).take(i + 1),
                ) - origin_widths(msgs@)[i]
            &&& if config.output_is_terminal {
                &&& lines_match(f.lines@, vis, prev, cur, old(state).ticks as nat)
                &&& f.blanks@ == blanks_of(prev, cur)
                &&& f.move_up == Some(move_up_of(prev, cur) as usize)
                &&& final(state).blocks_per_line@ == cur
            } else {
                &&& f.lines@.len() == 0
                &&& f.blanks@.len() == 0
                &&& f.move_up is None
                &&& final(state).blocks_per_line == old(state).blocks_per_line
            }
        },
{
    if !config.keep_running_if_progress_is_empty && tasks.len() == 0 {
        return Err(RenderError::ProgressIsEmpty);
    }
    let message_lines = messages(msgs, state);
    let ticks = state.ticks;
    let mut lines: Vec<TaskLine> = Vec::new();
    let mut blanks: Vec<u16> = Vec::new();
    let mut move_up: Option<usize> = None;
    if config.output_is_terminal {
        let ghost filter = config.level_filter;
        let mut idx: Vec<usize> = Vec::new();
        let mut cur: Vec<u16> = Vec::new();
        let mut i: usize = 0;
        while i < tasks.len()
            invariant
                i <= tasks@.len(),
                filter == config.level_filter,
                idx@.len() == cur@.len(),
                idx@.len() == visible(tasks@, filter, i as nat).len(),
                forall|j: int|
                    0 <= j < idx@.len() ==> (#[trigger] idx@[j]) as int == visible(
                        tasks@,
                        filter,
                        i as nat,
                    )[j],
                cur@ == widths_of(tasks@, visible(tasks@, filter, i as nat), ticks as nat),
            decreases tasks@.len() - i,
        {
            let level = tasks[i].level;
            let passes = match config.level_filter {
                None => true,
                Some((lo, hi)) => lo <= level && level <= hi,
            };
            if passes {
                idx.push(i);
                cur.push(task_line_width(level, ticks, &tasks[i].name));
            }
            i = i + 1;
            assert(cur@ == widths_of(tasks@, visible(tasks@, filter, i as nat), ticks as nat));
        }
        let diff = diff_lines(&state.blocks_per_line, &cur);
        let mut k: usize = 0;
        while k < idx.len()
            invariant
                k <= idx@.len(),
                idx@.len() == cur@.len(),
                diff.pads@.len() == cur@.len(),
                lines@.len() == k,
                forall|j: int|
                    0 <= j < k ==> (#[trigger] lines@[j]).task == idx@[j] && lines@[j].ticks == ticks
                        && lines@[j].pad == diff.pads@[j],
            decreases idx@.len() - k,
        {
            let ghost before = lines@;
            lines.push(TaskLine { task: idx[k], ticks, pad: diff.pads[k] });
            assert forall|j: int| 0 <= j < k + 1 implies (#[trigger] lines@[j]).task == idx@[j]
                && lines@[j].ticks == ticks && lines@[j].pad == diff.pads@[j] by {
                if j < k {
                    assert(lines@[j] == before[j]);
                }
            }
            k = k + 1;
        }
        blanks = diff.blanks;
        move_up = Some(diff.move_up);
        state.blocks_per_line = cur;
    }
    state.ticks = ticks + 1;
    Ok(Frame { messages: message_lines, lines, blanks, move_up })
}


/// Drawing the same tasks again, with a tick counter of as many digits as
/// last time, gives lines of the same widths: no line is padded or blanked,
/// and the cursor returns by exactly the number of lines drawn.
pub proof fn lemma_same_snapshot_leaves_no_residue(tasks: Seq<Task>, idx: Seq<int>, ticks: nat, next: nat)
    requires
        decimal_digits(ticks) == decimal_digits(next),
    ensures
        widths_of(tasks, idx, next) == widths_of(tasks, idx, ticks),
        forall|i: int|
            0 <= i < idx.len() ==> pad_of(
                widths_of(tasks, idx, ticks),
                widths_of(tasks, idx, next),
                i,
            ) == 0,
        blanks_of(widths_of(tasks, idx, ticks), widths_of(tasks, idx, next)).len() == 0,
        move_up_of(widths_of(tasks, idx, ticks), widths_of(tasks, idx, next)) == idx.len(),
{
    assert(widths_of(tasks, idx, next) =~= widths_of(tasks, idx, ticks));
}

/// When a frame has fewer lines than the last one, every kept line is padded
/// to at least its old width, each dropped line is blanked to its old width,
/// and the cursor moves up by the old line count.
pub proof fn lemma_shrink_erases_old_lines(prev: Seq<u16>, cur: Seq<u16>)
    requires
        prev.len() > cur.len(),
    ensures
        forall|i: int| 0 <= i < cur.len() ==> cur[i] + pad_of(prev, cur, i) >= prev[i],
        blanks_of(prev, cur) == prev.subrange(cur.len() as int, prev.len() as int),
        move_up_of(prev, cur) == prev.len(),
{
}

/// The widest origin seen never decreases as messages come in, and it is at
/// least as wide as each origin seen.
pub proof fn lemma_origin_width_monotone(init: nat, w: Seq<nat>, i: int, j: int)
    requires
        0 <= i <= j <= w.len(),
    ensures
        max_width(init, w.take(i)) <= max_width(init, w.take(j)),
        init <= max_width(init, w.take(j)),
        forall|k: int| 0 <= k < j ==> w[k] <= max_width(init, w.take(j)),
    decreases j,
{
    if j > 0 {
        assert(w.take(j).drop_last() == w.take(j - 1));
        if i < j {
            lemma_origin_width_monotone(init, w, i, j - 1);
        } else {
            lemma_origin_width_monotone(init, w, i - 1, j - 1);
        }
        assert forall|k: int| 0 <= k < j implies w[k] <= max_width(init, w.take(j)) by {
            if k < j - 1 {
                lemma_origin_width_monotone(init, w, k, j - 1);
            }
        }
    } else {
        assert(w.take(0).len() == 0);
    }
}

} // verus!
