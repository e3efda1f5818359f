use wayshell::application::GlobalKind;
use wayshell::clipboard::Clipboard;
use wayshell::error::{Error, ErrorKind};
use wayshell::geometry::{Point, Size};
use wayshell::handler::MouseEvent;
use wayshell::menu::Menu;
use wayshell::modal::{Event, Modal, ModalPosition, Widget};
use wayshell::screen::get_monitors;

struct CountingWidget {
    events: usize,
    updates: usize,
}

impl Widget<bool> for CountingWidget {
    fn event(&mut self, _event: &Event, _data: &mut bool) {
        self.events += 1;
    }
    fn update(&mut self, _data: &bool) {
        self.updates += 1;
    }
}

#[test]
fn modal_tracks_window_size_and_cursor() {
    let content = CountingWidget { events: 0, updates: 0 };
    let mut modal = Modal::new(ModalPosition::Window, |visible: &bool| *visible, content);
    let mut data = false;
    modal.event(&Event::WindowSize(Size::new(320, 240)), &mut data);
    assert_eq!(modal.window_size, Size::new(320, 240));
    let me = MouseEvent {
        pos: Point::new(12, 34),
        buttons: wayshell::handler::MouseButtons(0),
        mods: 0,
        count: 0,
        focus: true,
        button: None,
        wheel_delta: Point::new(0, 0),
    };
    modal.event(&Event::MouseMove(me), &mut data);
    assert_eq!(modal.cursor_position, Point::new(12, 34));
}

#[test]
fn modal_forwards_only_while_visible() {
    let content = CountingWidget { events: 0, updates: 0 };
    let mut modal = Modal::new(ModalPosition::Relative, |visible: &bool| *visible, content);
    let mut hidden = false;
    modal.event(&Event::Other, &mut hidden);
    modal.update(&hidden);
    assert_eq!(modal.content.events, 0);
    assert_eq!(modal.content.updates, 0);
    let mut shown = true;
    modal.event(&Event::Other, &mut shown);
    modal.update(&shown);
    assert_eq!(modal.content.events, 1);
    assert_eq!(modal.content.updates, 1);
}

#[test]
fn clipboard_is_inert() {
    let mut clipboard = Clipboard {};
    clipboard.put_string("ignored");
    clipboard.put_formats(&[]);
    assert_eq!(clipboard.get_string(), None);
    assert_eq!(clipboard.preferred_format(&["text/plain"]), None);
    assert_eq!(clipboard.get_format("text/plain"), None);
    assert!(clipboard.available_type_names().is_empty());
}

#[test]
fn menus_accept_every_mutation() {
    let mut menu = Menu::new();
    let sub = Menu::new_for_popup();
    menu.add_dropdown(sub, "file", true);
    menu.add_item(1, "open", None, true, false);
    menu.add_separator();
}

#[test]
fn no_monitors_are_reported() {
    assert!(get_monitors().is_empty());
}

#[test]
fn errors_describe_themselves() {
    assert_eq!(
        Error(ErrorKind::Connection).describe(),
        String::from("could not connect to the display server")
    );
    assert_eq!(
        Error(ErrorKind::NoHandler).describe(),
        String::from("a window handler must be set")
    );
}

#[test]
fn missing_global_diagnostics_name_the_global() {
    assert_eq!(
        Error(ErrorKind::MissingGlobal(GlobalKind::Shm)).describe(),
        String::from("the shared-memory allocator global is not advertised")
    );
    assert_eq!(
        Error(ErrorKind::MissingGlobal(GlobalKind::Compositor)).describe(),
        String::from("the compositor global is not advertised")
    );
    assert_eq!(
        Error(ErrorKind::MissingGlobal(GlobalKind::Seat)).describe(),
        String::from("the input-seat global is not advertised")
    );
    assert_eq!(
        Error(ErrorKind::MissingGlobal(GlobalKind::WmBase)).describe(),
        String::from("the shell-base global is not advertised")
    );
}
