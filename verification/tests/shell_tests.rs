use wayshell::application::{
    Application, EventHandler, GlobalAnnounce, GlobalKind, Globals, InputEvent, PointerEvent,
    RoutingError,
};
use wayshell::builder::WindowBuilder;
use wayshell::error::{Error, ErrorKind};
use wayshell::geometry::{Point, Rect, Scale, Size};
use wayshell::handler::{MouseEvent, SurfaceBackend, WinHandler};
use wayshell::idle::{IdleKind, IdleToken};
use wayshell::menu::Menu;
use wayshell::region::Region;
use wayshell::timer::TimerToken;
use wayshell::window::{RenderOutcome, WindowState};

#[derive(Default)]
struct MockBackend {
    allocs: Vec<(u32, u32, u64)>,
    alloc_ok: bool,
    clips: Vec<usize>,
    finish_ok: bool,
    finishes: usize,
    presents: Vec<usize>,
    frames: usize,
    commits: usize,
    acks: Vec<u32>,
    titles: Vec<String>,
    app_ids: Vec<String>,
}

impl MockBackend {
    fn ok() -> MockBackend {
        MockBackend { alloc_ok: true, finish_ok: true, ..MockBackend::default() }
    }
}

impl SurfaceBackend for MockBackend {
    fn allocate(&mut self, width: u32, height: u32, len: u64) -> bool {
        self.allocs.push((width, height, len));
        self.alloc_ok
    }
    fn set_clip(&mut self, invalid: &Region) {
        self.clips.push(invalid.len());
    }
    fn finish(&mut self) -> bool {
        self.finishes += 1;
        self.finish_ok
    }
    fn present(&mut self, _size: Size, damage: &Region) {
        self.presents.push(damage.len());
    }
    fn request_frame(&mut self) {
        self.frames += 1;
    }
    fn commit(&mut self) {
        self.commits += 1;
    }
    fn ack_configure(&mut self, serial: u32) {
        self.acks.push(serial);
    }
    fn set_title(&mut self, title: &str) {
        self.titles.push(title.to_string());
    }
    fn set_app_id(&mut self, app_id: &str) {
        self.app_ids.push(app_id.to_string());
    }
}

#[derive(Default)]
struct MockHandler {
    connects: usize,
    sizes: Vec<(u32, u32)>,
    prepares: usize,
    paints: usize,
    paint_ok: bool,
    moves: Vec<(i64, i64)>,
    downs: Vec<(i64, i64, u8, bool)>,
    ups: Vec<(i64, i64, u8, bool)>,
}

impl MockHandler {
    fn ok() -> MockHandler {
        MockHandler { paint_ok: true, ..MockHandler::default() }
    }
}

impl WinHandler<MockBackend> for MockHandler {
    fn connect(&mut self, _handle: &wayshell::handle::WindowHandle) {
        self.connects += 1;
    }
    fn size(&mut self, size: Size) {
        self.sizes.push((size.width, size.height));
    }
    fn prepare_paint(&mut self) {
        self.prepares += 1;
    }
    fn paint(&mut self, _surface: &mut MockBackend, _invalid: &Region) -> bool {
        self.paints += 1;
        self.paint_ok
    }
    fn mouse_move(&mut self, event: &MouseEvent) {
        self.moves.push((event.pos.x, event.pos.y));
    }
    fn mouse_down(&mut self, event: &MouseEvent) {
        let left = event.button == Some(wayshell::handler::MouseButton::Left);
        self.downs.push((event.pos.x, event.pos.y, event.count, left));
    }
    fn mouse_up(&mut self, event: &MouseEvent) {
        let left = event.button == Some(wayshell::handler::MouseButton::Left);
        self.ups.push((event.pos.x, event.pos.y, event.count, left));
    }
}

fn all_globals() -> Vec<GlobalAnnounce> {
    vec![
        GlobalAnnounce { kind: GlobalKind::Shm, version: 1 },
        GlobalAnnounce { kind: GlobalKind::Compositor, version: 4 },
        GlobalAnnounce { kind: GlobalKind::Seat, version: 5 },
        GlobalAnnounce { kind: GlobalKind::WmBase, version: 2 },
    ]
}

fn new_app() -> Application<MockBackend, MockHandler> {
    let globals = Globals::new(&all_globals()).unwrap();
    Application::new(globals)
}

fn build_window(
    app: &mut Application<MockBackend, MockHandler>,
    surface: u64,
    width: u32,
    height: u32,
) -> wayshell::handle::WindowHandle {
    let mut builder: WindowBuilder<MockHandler> = WindowBuilder::new();
    builder.set_handler(MockHandler::ok());
    builder.set_size(Size::new(width, height));
    builder.set_title("demo");
    builder.build(app, surface, MockBackend::ok()).unwrap()
}

#[test]
fn globals_bind_when_all_present() {
    let globals = Globals::new(&all_globals()).unwrap();
    assert_eq!(globals.shm, 1);
    assert_eq!(globals.compositor, 4);
    assert_eq!(globals.seat, 1);
    assert_eq!(globals.wm_base, 1);
}

#[test]
fn globals_fail_on_missing_seat() {
    let announced: Vec<GlobalAnnounce> = all_globals()
        .into_iter()
        .filter(|g| g.kind != GlobalKind::Seat)
        .collect();
    let err = Globals::new(&announced).unwrap_err();
    assert_eq!(err, Error(ErrorKind::MissingGlobal(GlobalKind::Seat)));
}

#[test]
fn globals_fail_on_low_compositor_version() {
    let mut announced = all_globals();
    announced[1].version = 3;
    let err = Globals::new(&announced).unwrap_err();
    assert_eq!(err, Error(ErrorKind::MissingGlobal(GlobalKind::Compositor)));
}

#[test]
fn builder_without_handler_fails() {
    let mut app = new_app();
    let builder: WindowBuilder<MockHandler> = WindowBuilder::new();
    let err = builder.build(&mut app, 1, MockBackend::ok()).unwrap_err();
    assert_eq!(err, Error(ErrorKind::NoHandler));
    assert_eq!(app.windows.len(), 0);
    assert_eq!(app.window_counter, 0);
}

#[test]
fn builder_registers_window_and_ids_increase() {
    let mut app = new_app();
    let h1 = build_window(&mut app, 10, 500, 400);
    let h2 = build_window(&mut app, 11, 300, 200);
    assert_eq!(h1.id, 0);
    assert_eq!(h2.id, 1);
    assert_eq!(app.window_counter, 2);
    assert_eq!(app.windows.len(), 2);
    let w = &app.windows[0];
    assert!(!w.configured);
    assert_eq!(w.generation, 0);
    assert_eq!(w.backend.titles, vec![String::from("demo")]);
    assert_eq!(w.backend.app_ids, vec![String::from("wayshell")]);
    assert_eq!(w.backend.commits, 1);
}

#[test]
fn render_while_unconfigured_never_paints() {
    let mut app = new_app();
    build_window(&mut app, 10, 500, 400);
    let w = &mut app.windows[0];
    let outcome = w.render();
    assert_eq!(outcome, RenderOutcome::Skipped);
    assert_eq!(w.handler.paints, 0);
    assert_eq!(w.handler.prepares, 0);
    assert_eq!(w.backend.allocs.len(), 0);
}

#[test]
fn first_configure_connects_sizes_and_paints_once() {
    let mut app = new_app();
    build_window(&mut app, 10, 500, 400);
    let w = &mut app.windows[0];
    let response = w.handle_surface_configure(1);
    assert_eq!(response.acked_serial, 1);
    assert!(response.first);
    assert_eq!(response.render, Some(RenderOutcome::Presented));
    assert!(w.configured);
    assert_eq!(w.backend.acks, vec![1]);
    assert_eq!(w.handler.connects, 1);
    assert_eq!(w.handler.sizes, vec![(500, 400)]);
    assert_eq!(w.handler.paints, 1);
    assert_eq!(w.backend.allocs, vec![(500, 400, 500 * 400 * 4)]);
    assert_eq!(w.invalid.len(), 0);
}

#[test]
fn later_configures_only_ack() {
    let mut app = new_app();
    build_window(&mut app, 10, 500, 400);
    let w = &mut app.windows[0];
    w.handle_surface_configure(1);
    let response = w.handle_surface_configure(2);
    assert_eq!(response.acked_serial, 2);
    assert!(!response.first);
    assert!(response.render.is_none());
    assert_eq!(w.backend.acks, vec![1, 2]);
    assert_eq!(w.handler.connects, 1);
    assert_eq!(w.handler.sizes.len(), 1);
    assert_eq!(w.handler.paints, 1);
}

#[test]
fn toplevel_configure_resizes_once_and_marks_all_invalid() {
    let mut app = new_app();
    build_window(&mut app, 10, 500, 400);
    let w = &mut app.windows[0];
    w.handle_surface_configure(1);
    assert_eq!(w.generation, 1);
    let outcome = w.handle_toplevel_configure(800, 600);
    assert_eq!(outcome, Some(RenderOutcome::Presented));
    assert_eq!(w.handler.sizes, vec![(500, 400), (800, 600)]);
    assert_eq!(w.handler.connects, 1);
    // exactly one more backing-surface allocation, at the new size
    assert_eq!(w.backend.allocs, vec![(500, 400, 500 * 400 * 4), (800, 600, 800 * 600 * 4)]);
    assert_eq!(w.generation, 2);
    // the full new area was the damage of that pass: one rectangle
    assert_eq!(*w.backend.presents.last().unwrap(), 1);
    // a repaint at the unchanged size does not reallocate
    let again = w.render();
    assert_eq!(again, RenderOutcome::Presented);
    assert_eq!(w.backend.allocs.len(), 2);
    assert_eq!(w.generation, 2);
}

#[test]
fn non_positive_toplevel_configure_is_ignored() {
    let mut app = new_app();
    build_window(&mut app, 10, 500, 400);
    let w = &mut app.windows[0];
    w.handle_surface_configure(1);
    assert_eq!(w.handle_toplevel_configure(0, 600), None);
    assert_eq!(w.handle_toplevel_configure(640, -1), None);
    assert_eq!(w.handler.sizes, vec![(500, 400)]);
    assert_eq!(w.size, Size::new(500, 400));
}

#[test]
fn invalid_region_accumulates_expanded_rects_and_clears_on_render() {
    let mut app = new_app();
    build_window(&mut app, 10, 500, 400);
    let w = &mut app.windows[0];
    w.handle_surface_configure(1);
    assert_eq!(w.invalid.len(), 0);
    w.invalidate_rect(Rect::new(10, 10, 20, 20));
    w.invalidate_rect(Rect::new(100, 50, 120, 80));
    let rects = w.invalid.rects().clone();
    assert_eq!(rects, vec![Rect::new(9, 9, 21, 21), Rect::new(99, 49, 121, 81)]);
    // each invalidation deferred the repaint to a frame callback
    assert_eq!(w.backend.frames, 2);
    let outcome = w.render();
    assert_eq!(outcome, RenderOutcome::Presented);
    assert_eq!(w.invalid.len(), 0);
}

#[test]
fn accumulated_damage_is_the_union_of_expanded_rects() {
    let mut app = new_app();
    build_window(&mut app, 10, 500, 400);
    let w = &mut app.windows[0];
    w.handle_surface_configure(1);
    w.invalidate_rect(Rect::new(10, 10, 20, 20));
    w.invalidate_rect(Rect::new(100, 50, 120, 80));
    // inside the first rectangle, and in its one-unit margin
    assert!(w.invalid.covers_point(15, 15));
    assert!(w.invalid.covers_point(9, 9));
    assert!(w.invalid.covers_point(20, 20));
    // inside the second rectangle
    assert!(w.invalid.covers_point(110, 60));
    // outside both, even beyond the margins
    assert!(!w.invalid.covers_point(21, 21));
    assert!(!w.invalid.covers_point(50, 50));
    assert!(!w.invalid.covers_point(8, 15));
}

#[test]
fn invalidate_marks_expanded_full_bounds() {
    let mut app = new_app();
    build_window(&mut app, 10, 500, 400);
    let w = &mut app.windows[0];
    w.handle_surface_configure(1);
    w.invalidate();
    assert_eq!(w.invalid.rects().clone(), vec![Rect::new(-1, -1, 501, 401)]);
}

#[test]
fn failed_paint_retains_damage() {
    let mut app = new_app();
    build_window(&mut app, 10, 500, 400);
    let w = &mut app.windows[0];
    w.handle_surface_configure(1);
    w.invalidate_rect(Rect::new(0, 0, 10, 10));
    w.handler.paint_ok = false;
    let outcome = w.render();
    assert_eq!(outcome, RenderOutcome::PaintFailed);
    // the flush was still attempted, but nothing was presented
    assert_eq!(w.backend.finishes, 2);
    assert_eq!(w.backend.presents.len(), 1);
    assert_eq!(w.invalid.rects().clone(), vec![Rect::new(-1, -1, 11, 11)]);
    // the retry paints the same damage and clears it
    w.handler.paint_ok = true;
    assert_eq!(w.render(), RenderOutcome::Presented);
    assert_eq!(w.invalid.len(), 0);
}

#[test]
fn failed_allocation_keeps_full_damage_for_retry() {
    let mut app = new_app();
    build_window(&mut app, 10, 500, 400);
    let w = &mut app.windows[0];
    w.backend.alloc_ok = false;
    let response = w.handle_surface_configure(1);
    assert_eq!(response.render, Some(RenderOutcome::AllocFailed));
    assert_eq!(w.handler.paints, 0);
    assert_eq!(w.generation, 0);
    assert_eq!(w.invalid.rects().clone(), vec![Rect::new(0, 0, 500, 400)]);
    w.backend.alloc_ok = true;
    assert_eq!(w.render(), RenderOutcome::Presented);
    assert_eq!(w.generation, 1);
    assert_eq!(w.invalid.len(), 0);
}

#[test]
fn earlier_deadline_is_poll_ready_first() {
    let mut app = new_app();
    build_window(&mut app, 10, 500, 400);
    let w = &mut app.windows[0];
    let t1 = w.request_timer(100);
    let t2 = w.request_timer(50);
    assert_eq!(t1, TimerToken(1));
    assert_eq!(t2, TimerToken(2));
    assert_eq!(w.timers.next_deadline(), Some(50));
    let first = w.timers.pop_due(60).unwrap();
    assert_eq!(first.token, t2);
    assert_eq!(first.deadline, 50);
    assert_eq!(w.timers.pop_due(60), None);
    let second = w.timers.pop_due(100).unwrap();
    assert_eq!(second.token, t1);
}

#[test]
fn equal_deadlines_fire_in_request_order() {
    let mut app = new_app();
    build_window(&mut app, 10, 500, 400);
    let w = &mut app.windows[0];
    let t1 = w.request_timer(70);
    let t2 = w.request_timer(70);
    assert_eq!(w.timers.pop_due(70).unwrap().token, t1);
    assert_eq!(w.timers.pop_due(70).unwrap().token, t2);
}

#[test]
fn idle_queue_drains_in_fifo_order_once() {
    let mut app = new_app();
    let handle = build_window(&mut app, 10, 500, 400);
    let idle = handle.get_idle_handle(&app).unwrap();
    idle.add_idle_token(&mut app, IdleToken(1));
    idle.add_idle_callback(&mut app, 9);
    idle.schedule_redraw(&mut app);
    let batch = app.drain_idle(handle.id);
    assert_eq!(
        batch,
        vec![IdleKind::Token(IdleToken(1)), IdleKind::Callback(9), IdleKind::Redraw]
    );
    let empty = app.drain_idle(handle.id);
    assert_eq!(empty, Vec::new());
}

#[test]
fn dropped_window_degrades_every_handle_operation() {
    let mut app = new_app();
    let handle = build_window(&mut app, 10, 500, 400);
    assert_eq!(handle.request_timer(&mut app, 5), TimerToken(1));
    assert!(app.drop_window(handle.id));
    assert!(!app.drop_window(handle.id));
    // every operation falls back without panicking or erroring
    assert_eq!(handle.request_timer(&mut app, 5), TimerToken(0));
    assert_eq!(handle.show(&mut app), None);
    handle.close(&app);
    handle.invalidate(&mut app);
    handle.invalidate_rect(&mut app, Rect::new(0, 0, 5, 5));
    handle.request_anim_frame(&mut app);
    handle.set_title(&app, "gone");
    assert_eq!(handle.get_idle_handle(&app), None);
    assert_eq!(handle.get_scale(&app), Ok(Scale::new(1, 1)));
    assert_eq!(handle.get_position(), Point::new(0, 0));
    assert_eq!(handle.get_size(), Size::new(0, 0));
    assert_eq!(handle.get_window_state(), WindowState::Restored);
    assert_eq!(app.windows.len(), 0);
    // ids are never reused after a drop
    let h2 = build_window(&mut app, 11, 100, 100);
    assert_eq!(h2.id, 1);
}

#[test]
fn idle_handle_of_dropped_window_is_inert() {
    let mut app = new_app();
    let handle = build_window(&mut app, 10, 500, 400);
    let idle = handle.get_idle_handle(&app).unwrap();
    app.drop_window(handle.id);
    idle.add_idle_token(&mut app, IdleToken(3));
    idle.schedule_redraw(&mut app);
    assert_eq!(app.drain_idle(handle.id), Vec::new());
}

#[test]
fn pointer_motion_routes_to_focused_window_only() {
    let mut app = new_app();
    build_window(&mut app, 10, 500, 400);
    build_window(&mut app, 11, 300, 200);
    let mut events = EventHandler::new();
    let enter = InputEvent::Pointer(PointerEvent::Enter { surface: 11, x: 5, y: 6 });
    assert_eq!(events.handle(&enter, &mut app), Ok(()));
    let motion = InputEvent::Pointer(PointerEvent::Motion { x: 7, y: 8 });
    assert_eq!(events.handle(&motion, &mut app), Ok(()));
    assert_eq!(app.windows[0].handler.moves.len(), 0);
    assert_eq!(app.windows[1].handler.moves, vec![(7, 8)]);
}

#[test]
fn buttons_forward_as_left_clicks() {
    let mut app = new_app();
    build_window(&mut app, 10, 500, 400);
    let mut events = EventHandler::new();
    events
        .handle(&InputEvent::Pointer(PointerEvent::Enter { surface: 10, x: 1, y: 2 }), &mut app)
        .unwrap();
    events
        .handle(&InputEvent::Pointer(PointerEvent::Button { pressed: true }), &mut app)
        .unwrap();
    events
        .handle(&InputEvent::Pointer(PointerEvent::Button { pressed: false }), &mut app)
        .unwrap();
    // clicks are synthesized as single left-button interactions at the
    // tracked cursor position
    assert_eq!(app.windows[0].handler.downs, vec![(1, 2, 1, true)]);
    assert_eq!(app.windows[0].handler.ups, vec![(1, 2, 1, true)]);
}

#[test]
fn leave_clears_focus_and_stops_routing() {
    let mut app = new_app();
    build_window(&mut app, 10, 500, 400);
    let mut events = EventHandler::new();
    events
        .handle(&InputEvent::Pointer(PointerEvent::Enter { surface: 10, x: 1, y: 2 }), &mut app)
        .unwrap();
    events.handle(&InputEvent::Pointer(PointerEvent::Leave), &mut app).unwrap();
    events
        .handle(&InputEvent::Pointer(PointerEvent::Motion { x: 9, y: 9 }), &mut app)
        .unwrap();
    assert_eq!(app.windows[0].handler.moves.len(), 0);
}

#[test]
fn motion_on_unknown_surface_reports_routing_error() {
    let mut app = new_app();
    build_window(&mut app, 10, 500, 400);
    let mut events = EventHandler::new();
    events
        .handle(&InputEvent::Pointer(PointerEvent::Enter { surface: 99, x: 0, y: 0 }), &mut app)
        .unwrap();
    let motion = InputEvent::Pointer(PointerEvent::Motion { x: 1, y: 1 });
    assert_eq!(events.handle(&motion, &mut app), Err(RoutingError { surface: 99 }));
}

#[test]
fn end_to_end_window_lifecycle() {
    let mut app = new_app();
    let handle = build_window(&mut app, 10, 500, 400);
    assert_eq!(handle.id, 0);
    {
        let w = &mut app.windows[0];
        let response = w.handle_surface_configure(1);
        assert!(response.first);
        assert_eq!(w.handler.connects, 1);
        assert_eq!(w.handler.sizes, vec![(500, 400)]);
        assert_eq!(w.backend.allocs, vec![(500, 400, 500 * 400 * 4)]);
    }
    {
        let w = &mut app.windows[0];
        let paints_before = w.handler.paints;
        w.handle_toplevel_configure(640, 480);
        assert_eq!(w.handler.sizes, vec![(500, 400), (640, 480)]);
        assert_eq!(w.handler.paints, paints_before + 1);
        assert_eq!(w.handler.connects, 1);
    }
}

#[test]
fn ping_replies_with_the_same_serial() {
    let app = new_app();
    assert_eq!(app.handle_ping(7), 7);
    assert_eq!(app.handle_ping(4242), 4242);
}

#[test]
fn builder_defaults_to_500_by_400() {
    let mut app = new_app();
    let mut builder: WindowBuilder<MockHandler> = WindowBuilder::new();
    builder.set_handler(MockHandler::ok());
    let handle = builder.build(&mut app, 42, MockBackend::ok()).unwrap();
    assert_eq!(handle.id, 0);
    assert_eq!(app.windows[0].size, Size::new(500, 400));
}

#[test]
fn live_handle_operations_reach_the_window() {
    let mut app = new_app();
    let handle = build_window(&mut app, 10, 500, 400);
    app.windows[0].handle_surface_configure(1);
    let frames_before = app.windows[0].backend.frames;
    handle.request_anim_frame(&mut app);
    assert_eq!(app.windows[0].backend.frames, frames_before + 1);
    handle.invalidate_rect(&mut app, Rect::new(5, 5, 6, 6));
    assert_eq!(app.windows[0].invalid.rects().clone(), vec![Rect::new(4, 4, 7, 7)]);
    let presents_before = app.windows[0].backend.presents.len();
    assert_eq!(handle.show(&mut app), Some(RenderOutcome::Presented));
    assert_eq!(app.windows[0].backend.presents.len(), presents_before + 1);
    assert_eq!(app.windows[0].invalid.len(), 0);
    assert_eq!(handle.request_timer(&mut app, 9), TimerToken(1));
}

#[test]
fn dialogs_and_cursors_are_inert() {
    let mut app = new_app();
    let mut handle = build_window(&mut app, 10, 500, 400);
    let options = wayshell::dialog::FileDialogOptions {
        select_directories: false,
        multi_selection: false,
    };
    assert!(handle.open_file(options.clone()).is_none());
    assert!(handle.open_file_sync(options.clone()).is_none());
    assert!(handle.save_as_sync(options.clone()).is_none());
    assert!(handle.save_as(options).is_none());
    let desc = wayshell::window::CursorDesc { hot: Point::new(0, 0) };
    assert!(handle.make_cursor(&desc).is_none());
    handle.set_cursor(&wayshell::window::Cursor::Arrow);
    handle.show_context_menu(Menu::new(), Point::new(1, 1));
}

#[test]
fn seat_devices_are_created_exactly_once() {
    let mut seat = wayshell::application::SeatState::new();
    let first = seat.handle_capabilities(true, false);
    assert!(first.create_pointer);
    assert!(!first.create_keyboard);
    let second = seat.handle_capabilities(true, true);
    assert!(!second.create_pointer);
    assert!(second.create_keyboard);
    let third = seat.handle_capabilities(true, true);
    assert!(!third.create_pointer);
    assert!(!third.create_keyboard);
}

#[test]
fn locale_is_fixed() {
    assert_eq!(
        Application::<MockBackend, MockHandler>::get_locale(),
        String::from("en-US")
    );
}
