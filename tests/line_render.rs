use prodash::line::{
    align_origins, all, diff_lines, line_width, task_line_width, Message, MessageLevel, Options, RenderError, State, Task,
    FILLER,
};

fn state() -> State {
    State { max_message_origin_size: 0, blocks_per_line: Vec::new(), ticks: 0 }
}

fn options(terminal: bool, keep_running: bool) -> Options {
    Options {
        level_filter: None,
        keep_running_if_progress_is_empty: keep_running,
        output_is_terminal: terminal,
        colored: false,
        timestamp: false,
    }
}

fn task(level: u8, name: &str) -> Task {
    Task { level, name: name.to_string() }
}

fn message(origin: &str) -> Message {
    Message { level: MessageLevel::Info, origin: origin.to_string(), message: "text".to_string() }
}

#[test]
fn shrink_pads_blanks_and_moves_up_by_old_count() {
    let d = diff_lines(&vec![5, 8, 3], &vec![5, 2]);
    assert_eq!(d.pads, vec![0, 6]);
    assert_eq!(d.blanks, vec![3]);
    assert_eq!(d.move_up, 3);
}

#[test]
fn same_widths_add_nothing() {
    let d = diff_lines(&vec![5, 8, 3], &vec![5, 8, 3]);
    assert_eq!(d.pads, vec![0, 0, 0]);
    assert!(d.blanks.is_empty());
    assert_eq!(d.move_up, 3);
}

#[test]
fn growing_frame_moves_up_by_new_count() {
    let d = diff_lines(&vec![7], &vec![4, 5, 6]);
    assert_eq!(d.pads, vec![3, 0, 0]);
    assert!(d.blanks.is_empty());
    assert_eq!(d.move_up, 3);
}

#[test]
fn empty_progress_stops_and_keeps_state() {
    let mut s = state();
    s.blocks_per_line = vec![4];
    let r = all(&Vec::new(), &vec![message("abc")], &mut s, &options(true, false));
    assert!(matches!(r, Err(RenderError::ProgressIsEmpty)));
    assert_eq!(s.blocks_per_line, vec![4]);
    assert_eq!(s.ticks, 0);
    assert_eq!(s.max_message_origin_size, 0);
}

#[test]
fn empty_progress_keeps_running_when_asked() {
    let mut s = state();
    s.blocks_per_line = vec![4, 2];
    let f = all(&Vec::new(), &Vec::new(), &mut s, &options(true, true)).ok().unwrap();
    assert!(f.lines.is_empty());
    assert_eq!(f.blanks, vec![4, 2]);
    assert_eq!(f.move_up, Some(2));
    assert!(s.blocks_per_line.is_empty());
    assert_eq!(s.ticks, 1);
}

#[test]
fn origin_width_is_monotone() {
    let mut s = state();
    let msgs = vec![message("abc"), message("abcdefg"), message("abcd")];
    let f = all(&vec![task(0, "a")], &msgs, &mut s, &options(false, false)).ok().unwrap();
    let fills: Vec<usize> = f.messages.iter().map(|m| m.fill).collect();
    let order: Vec<usize> = f.messages.iter().map(|m| m.message).collect();
    assert_eq!(order, vec![0, 1, 2]);
    // widest so far after each: 3, 7, 7
    assert_eq!(fills, vec![0, 0, 3]);
    assert_eq!(s.max_message_origin_size, 7);
    let f = all(&vec![task(0, "a")], &vec![message("ab")], &mut s, &options(false, false))
        .ok()
        .unwrap();
    assert_eq!(f.messages[0].fill, 5);
    assert_eq!(s.max_message_origin_size, 7);
}

#[test]
fn wide_characters_count_double() {
    let mut s = state();
    let f = all(&vec![task(0, "a")], &vec![message("日本")], &mut s, &options(false, false))
        .ok()
        .unwrap();
    assert_eq!(f.messages[0].fill, 0);
    assert_eq!(s.max_message_origin_size, 4);
}

#[test]
fn task_width_sums_indent_ticks_name_and_filler() {
    assert_eq!(task_line_width(2, 12, &"abc".to_string()) as usize, 2 + 2 + 3 + FILLER.len());
    assert_eq!(task_line_width(0, 0, &"日本".to_string()) as usize, 1 + 4 + FILLER.len());
    assert_eq!(task_line_width(0, 9, &"".to_string()) as usize, 1 + FILLER.len());
    assert_eq!(task_line_width(0, 10, &"".to_string()) as usize, 2 + FILLER.len());
}

#[test]
fn task_width_is_capped() {
    let long = "x".repeat(70000);
    assert_eq!(task_line_width(0, 0, &long), u16::MAX);
}

#[test]
fn not_a_terminal_prints_messages_only() {
    let mut s = state();
    let f = all(&vec![task(0, "a")], &vec![message("o")], &mut s, &options(false, false))
        .ok()
        .unwrap();
    assert_eq!(f.messages.len(), 1);
    assert!(f.lines.is_empty());
    assert!(f.blanks.is_empty());
    assert_eq!(f.move_up, None);
    assert!(s.blocks_per_line.is_empty());
    assert_eq!(s.ticks, 1);
}

#[test]
fn frames_shrink_then_repeat() {
    let mut s = state();
    let tasks = vec![task(0, "a"), task(1, "bb"), task(2, "ccc")];
    let f = all(&tasks, &Vec::new(), &mut s, &options(true, false)).ok().unwrap();
    let w: Vec<u16> = tasks.iter().map(|t| task_line_width(t.level, 0, &t.name)).collect();
    assert_eq!(f.lines.iter().map(|l| l.task).collect::<Vec<_>>(), vec![0, 1, 2]);
    assert!(f.lines.iter().all(|l| l.pad == 0 && l.ticks == 0));
    assert_eq!(f.move_up, Some(3));
    assert_eq!(s.blocks_per_line, w);

    let shorter = vec![task(0, "a"), task(1, "b")];
    let f = all(&shorter, &Vec::new(), &mut s, &options(true, false)).ok().unwrap();
    assert_eq!(f.lines[0].pad, 0);
    assert_eq!(f.lines[1].pad, 1);
    assert_eq!(f.lines[1].ticks, 1);
    assert_eq!(f.blanks, vec![w[2]]);
    assert_eq!(f.move_up, Some(3));
    assert_eq!(s.blocks_per_line.len(), 2);

    let f = all(&shorter, &Vec::new(), &mut s, &options(true, false)).ok().unwrap();
    assert!(f.lines.iter().all(|l| l.pad == 0));
    assert!(f.blanks.is_empty());
    assert_eq!(f.move_up, Some(2));
    assert_eq!(s.ticks, 3);
}

#[test]
fn level_filter_selects_tasks() {
    let mut s = state();
    let tasks = vec![task(0, "a"), task(1, "b"), task(2, "c"), task(3, "d")];
    let mut o = options(true, false);
    o.level_filter = Some((1, 2));
    let f = all(&tasks, &Vec::new(), &mut s, &o).ok().unwrap();
    assert_eq!(f.lines.iter().map(|l| l.task).collect::<Vec<_>>(), vec![1, 2]);
    assert_eq!(f.move_up, Some(2));
}

#[test]
fn origins_of_widths_three_seven_four_align_to_seven() {
    let (widest, fills) = align_origins(0, &vec![3, 7, 4]);
    assert_eq!(widest, 7);
    assert_eq!(fills, vec![0, 0, 3]);
    let (widest, fills) = align_origins(3, &vec![3]);
    assert_eq!((widest, fills), (3, vec![0]));
    let (widest, fills) = align_origins(9, &Vec::new());
    assert_eq!((widest, fills), (9, Vec::new()));
}

#[test]
fn line_width_adds_parts_and_caps() {
    assert_eq!(line_width(2, 12, 3, 10), 17);
    assert_eq!(line_width(0, 0, 0, 0), 1);
    assert_eq!(line_width(255, usize::MAX, 0, 0), 255 + 20);
    assert_eq!(line_width(1, 1, 65534, 0), u16::MAX);
    assert_eq!(line_width(0, 0, usize::MAX, usize::MAX), u16::MAX);
}
