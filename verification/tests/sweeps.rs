use cursive::view::scroll::{layout, Core, Scroller};
use panel_scroll::scroll::{abilities, locate};
use panel_scroll::{
    conclude, scroll_by, Debounce, Drag, Event, EventResult, Key, Keybindings, MouseButton,
    MouseEvent, Rect, ScrollContent, Vec2,
};

struct Frame {
    core: Core,
}

impl Scroller for Frame {
    fn get_scroller_mut(&mut self) -> &mut Core {
        &mut self.core
    }

    fn get_scroller(&self) -> &Core {
        &self.core
    }
}

/// A core with a window of `window` cells over `content` cells, both axes
/// scrolling, at `offset`.
fn laid_out(content: (usize, usize), window: (usize, usize), offset: (usize, usize)) -> Core {
    let mut frame = Frame { core: Core::new().scroll_x(true) };
    let bar_columns = if content.1 > window.1 { 2 } else { 0 };
    let bar_rows = if content.0 > window.0 { 1 } else { 0 };
    layout(
        &mut frame,
        cursive::Vec2::new(window.0 + bar_columns, window.1 + bar_rows),
        true,
        |_, _| {},
        |_, _| cursive::Vec2::new(content.0, content.1),
    );
    frame.core.set_offset(cursive::Vec2::new(offset.0, offset.1));
    assert_eq!(frame.core.last_available_size(), cursive::Vec2::new(window.0, window.1));
    assert_eq!(frame.core.inner_size(), cursive::Vec2::new(content.0, content.1));
    frame.core
}

fn offset_of(core: &Core) -> (usize, usize) {
    let at = core.content_viewport().top_left();
    (at.x, at.y)
}

fn arrows() -> Keybindings {
    Keybindings {
        down: Event::Key(Key::Down),
        up: Event::Key(Key::Up),
        left: Event::Key(Key::Left),
        right: Event::Key(Key::Right),
    }
}

/// Content that uses every event and names a fixed area.
struct Fixed {
    area: Rect,
}

impl ScrollContent for Fixed {
    fn on_event(&mut self, _core: &mut Core, _event: &Event) -> EventResult {
        EventResult::Consumed(None)
    }

    fn on_scroll(&mut self, _core: &Core) {}

    fn important_area(&self, _core: &Core, _size: Vec2) -> Rect {
        self.area
    }
}

/// On one axis, the offset nearest to `offset` at which a window of
/// `available` cells shows the cells `first` to `last`.
fn nearest(offset: usize, first: usize, last: usize, available: usize) -> usize {
    let reach = (last + 1).saturating_sub(available);
    offset.max(reach.min(first)).min(reach.max(first))
}

#[test]
fn every_step_stops_at_its_edge() {
    let content: (usize, usize) = (23, 37);
    let window: (usize, usize) = (6, 10);
    let last: (usize, usize) = (content.0 - window.0, content.1 - window.1);
    let keys = arrows();
    let wheel = |kind| Event::Mouse { offset: Vec2::zero(), position: Vec2::zero(), event: kind };
    for x in 0..=last.0 {
        for y in 0..=last.1 {
            let cases = [
                (Event::Key(Key::PageUp), y > 0, (x, y.saturating_sub(10))),
                (Event::Key(Key::PageDown), y < last.1, (x, (y + 10).min(last.1))),
                (Event::Key(Key::Up), y > 0, (x, y.saturating_sub(1))),
                (Event::Key(Key::Down), y < last.1, (x, (y + 1).min(last.1))),
                (Event::Key(Key::Left), x > 0, (x.saturating_sub(1), y)),
                (Event::Key(Key::Right), x < last.0, ((x + 1).min(last.0), y)),
                (wheel(MouseEvent::WheelUp), y > 0, (x, y.saturating_sub(3))),
                (wheel(MouseEvent::WheelDown), y < last.1, (x, (y + 3).min(last.1))),
                (Event::CtrlChar('u'), y > 0, (x, y.saturating_sub(5))),
                (Event::CtrlChar('d'), y < last.1, (x, (y + 5).min(last.1))),
                (Event::Key(Key::Home), true, (0, 0)),
                (Event::Key(Key::End), true, last),
                (Event::Char('G'), true, (x, last.1)),
            ];
            for (event, fires, reached) in cases {
                let mut core = laid_out(content, window, (x, y));
                let mut gesture = Debounce::new();
                let fired = scroll_by(&mut core, &event, &keys, &mut gesture, &mut Drag::new(), 0);
                assert_eq!(fired, fires);
                let expected = if fires { reached } else { (x, y) };
                assert_eq!(offset_of(&core), expected);
            }
        }
    }
}

#[test]
fn abilities_tell_the_edges_apart() {
    let content: (usize, usize) = (9, 7);
    // Windows small enough for both scrollbars to show.
    for width in 1..=6usize {
        for height in 1..=5usize {
            for x in 0..=content.0 - width {
                for y in 0..=content.1 - height {
                    let core = laid_out(content, (width, height), (x, y));
                    let can = abilities(&core, &Debounce::new(), &Drag::new(), 0);
                    assert!(can.any_axis);
                    assert_eq!(can.up, y > 0);
                    assert_eq!(can.left, x > 0);
                    assert_eq!(can.down, y + height < content.1);
                    assert_eq!(can.right, x + width < content.0);
                }
            }
        }
    }
}

#[test]
fn following_goes_to_the_nearest_offset_that_shows_the_area() {
    let content: (usize, usize) = (12, 12);
    let keys = arrows();
    for width in 1..=5usize {
        for height in 1..=5usize {
            let window = (width, height + 1);
            for start in 0..=(content.0 - window.0.max(window.1)) {
                for first in 0..content.0 {
                    for last in first..content.0 {
                        // The same span on both axes, in windows of two sizes.
                        let area = Rect::from_corners(Vec2::new(first, first), Vec2::new(last, last));
                        let mut core = laid_out(content, window, (start, start));
                        let mut gesture = Debounce::new();
                        conclude(
                            &mut core,
                            &mut Fixed { area },
                            &Event::Char('x'),
                            EventResult::Consumed(None),
                            &keys,
                            &mut gesture,
                            &mut Drag::new(),
                            0,
                        );
                        let expected = (
                            nearest(start, first, last, window.0),
                            nearest(start, first, last, window.1),
                        );
                        assert_eq!(offset_of(&core), expected);
                        // What is shown stays where it is.
                        let shown = first >= start && last < start + window.0;
                        if shown {
                            assert_eq!(expected.0, start);
                        }
                        // What fits is shown afterwards.
                        if last - first < window.0 {
                            assert!(first >= expected.0 && last < expected.0 + window.0);
                        }
                    }
                }
            }
        }
    }
}

#[test]
fn the_mouse_is_inside_up_to_the_cell_past_the_window() {
    let core = laid_out((40, 40), (6, 4), (7, 9));
    let corner: (usize, usize) = (3, 2);
    for x in 0..14usize {
        for y in 0..12usize {
            let event = Event::Mouse {
                offset: Vec2::new(corner.0, corner.1),
                position: Vec2::new(x, y),
                event: MouseEvent::Press(MouseButton::Middle),
            };
            let inside = x >= corner.0 && y >= corner.1 && x - corner.0 <= 6 && y - corner.1 <= 4;
            let moved = Event::Mouse {
                offset: Vec2::new(corner.0, corner.1),
                position: Vec2::new(x + 7, y + 9),
                event: MouseEvent::Press(MouseButton::Middle),
            };
            assert_eq!(locate(&core, &event), (inside, Some(moved)));
        }
    }
}
