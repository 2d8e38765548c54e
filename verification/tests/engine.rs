use bitgeon::backend;
use bitgeon::backend::Application;
use bitgeon::backend::State;
use bitgeon::error::AppError;
use bitgeon::file_processing::PathState;
use bitgeon::server::IpAddress;
use bitgeon::server::RefreshProbe;
use bitgeon::server::Server;
use bitgeon::server::ServerStatus;
use bitgeon::ui;
use bitgeon::ui::Ui;
use bitgeon::ui::scene::EditFiles;
use bitgeon::ui::scene::Home;
use bitgeon::ui::scene::Scene;
use bitgeon::util::Rejected;
use bitgeon::util::ThreadChannel;
use bitgeon::util::frame_delay_micros;
use bitgeon::widget::Key;

#[test]
fn channel_roundtrip_is_fifo() {
    let (a, b): (ThreadChannel<u32, u32>, ThreadChannel<u32, u32>) = ThreadChannel::new_pair();
    assert!(a.receive().is_empty());
    b.send(1).unwrap();
    b.send(2).unwrap();
    b.send(3).unwrap();
    assert_eq!(a.receive(), vec![1, 2, 3]);
    assert!(a.receive().is_empty());
}

#[test]
fn send_to_dropped_receiver_is_rejected() {
    let (a, b): (ThreadChannel<u32, u32>, ThreadChannel<u32, u32>) = ThreadChannel::new_pair();
    drop(b);
    match a.send(7) {
        Ok(()) => panic!("a send to a dropped peer must be rejected"),
        Err(Rejected(message)) => assert_eq!(message, 7),
    }
}

#[test]
fn frame_delay_catches_up_when_behind() {
    // ahead of schedule: 2 frames done in 10 microseconds at 1000 Hz
    let ahead = frame_delay_micros(10, 2, 1000);
    assert_eq!(ahead, (2 * 1_000_000 - 10 * 1000) / 1000);
    // behind schedule: no sleep, the loop catches up
    assert_eq!(frame_delay_micros(1_000_000, 1, 1000), 0);
}

#[test]
fn home_decision_follows_the_selection() {
    type Msg = backend::Message<backend::data::Ui, backend::event::Ui>;
    let empty: Vec<Msg> = Vec::new();
    assert_eq!(Application::home_decision(&empty).unwrap(), State::End);
    let pick = |n: usize| -> Vec<Msg> {
        vec![backend::Message::Event(backend::event::Ui::Selection(n))]
    };
    assert_eq!(Application::home_decision(&pick(0)).unwrap(), State::EditFiles);
    assert_eq!(Application::home_decision(&pick(1)).unwrap(), State::Receive);
    assert_eq!(Application::home_decision(&pick(2)).unwrap(), State::End);
    assert_eq!(
        Application::home_decision(&pick(3)).unwrap_err(),
        AppError::UnsupportedMessage
    );
}

fn fresh_application() -> (
    Application,
    ThreadChannel<
        backend::Message<backend::data::Ui, backend::event::Ui>,
        ui::Message<ui::data::Backend, ui::event::Backend>,
    >,
) {
    let (app_to_ui, ui_to_app) = ThreadChannel::new_pair();
    let (app_to_server, _server_to_app) = ThreadChannel::new_pair();
    (Application::new(app_to_ui, app_to_server), ui_to_app)
}

#[test]
fn edit_files_round_trip_stores_a_classified_list() {
    let (mut app, interface) = fresh_application();

    // init -> home
    assert!(!app.request().unwrap());
    assert!(!app.step(Vec::new()).unwrap());
    assert_eq!(app.state, State::Home);

    // the interface picks "Add or remove files" before the menu waits
    interface.send(backend::Message::Event(backend::event::Ui::Selection(0))).unwrap();
    assert!(app.request().unwrap());
    let menu_reply = app.wait_for_input();
    assert!(!app.step(menu_reply).unwrap());
    assert_eq!(app.state, State::EditFiles);
    let _menu_screen = interface.receive();

    // the application hands its list over
    assert!(app.request().unwrap());
    let mut inbox = interface.receive();
    assert_eq!(inbox.len(), 1);
    let list = match inbox.remove(0) {
        ui::Message::Event(ui::event::Backend::StateChange(ui::AppState::EditFiles(list))) => list,
        _ => panic!("the interface expected the list to edit"),
    };

    // the interface edits: two fragments added via confirm, one deleted
    let mut scene = EditFiles::new(list);
    for c in "/tmp/a".chars() {
        scene.interact(&Key::Char(c)).unwrap();
    }
    scene.interact(&Key::Enter).unwrap();
    for c in "/tmp/b".chars() {
        scene.interact(&Key::Char(c)).unwrap();
    }
    scene.interact(&Key::Enter).unwrap();
    scene.interact(&Key::Delete).unwrap();
    let reply = scene.interact(&Key::Esc).unwrap().expect("escape hands the list back");
    interface.send(reply).unwrap();

    // the application stores the edited list and returns home
    let edits = app.wait_for_input();
    assert!(!app.step(edits).unwrap());
    assert_eq!(app.state, State::Home);
    assert!(app.files_for_transmission.paths.len() >= 2);
    for entry in &app.files_for_transmission.paths {
        assert!(!matches!(entry.state, PathState::Unchecked));
    }
}

#[test]
fn end_state_reaches_exit() {
    let (mut app, interface) = fresh_application();
    assert!(!app.step(Vec::new()).unwrap());
    interface.send(backend::Message::Event(backend::event::Ui::Selection(2))).unwrap();
    assert!(app.request().unwrap());
    let reply = app.wait_for_input();
    assert!(!app.step(reply).unwrap());
    assert_eq!(app.state, State::End);
    assert!(!app.request().unwrap());
    assert!(app.step(Vec::new()).unwrap());
    assert_eq!(app.state, State::Exit);
    // the terminal state is absorbing
    assert!(app.step(Vec::new()).unwrap());
    assert_eq!(app.state, State::Exit);
}

#[test]
fn receive_state_is_unimplemented() {
    let (mut app, _interface) = fresh_application();
    app.state = State::Receive;
    assert_eq!(app.step(Vec::new()).unwrap_err(), AppError::Unimplemented);
}

#[test]
fn home_menu_selection_events() {
    let mut home = Home::new("info".to_string());
    assert_eq!(home.menu.state.selected, Some(0));
    home.interact(&Key::Down).unwrap();
    assert_eq!(home.menu.state.selected, Some(1));
    home.interact(&Key::Up).unwrap();
    home.interact(&Key::Up).unwrap();
    assert_eq!(home.menu.state.selected, Some(2));
    match home.interact(&Key::Enter).unwrap() {
        Some(backend::Message::Event(backend::event::Ui::Selection(option))) => {
            assert_eq!(option, 2)
        },
        _ => panic!("enter must produce the selection"),
    }
}

fn fresh_ui() -> (
    Ui,
    ThreadChannel<
        ui::Message<ui::data::Backend, ui::event::Backend>,
        backend::Message<backend::data::Ui, backend::event::Ui>,
    >,
) {
    let (ui_to_app, app_to_ui) = ThreadChannel::new_pair();
    let (ui_to_server, _server_to_ui) = ThreadChannel::new_pair();
    (Ui::new(ui_to_app, ui_to_server), app_to_ui)
}

#[test]
fn fresh_application_starts_with_one_empty_entry() {
    let (app, _interface) = fresh_application();
    assert_eq!(app.state, State::Init);
    assert_eq!(app.frame_count, 0);
    assert_eq!(app.files_for_transmission.paths.len(), 1);
    assert_eq!(app.files_for_transmission.paths[0].path, "");
    assert_eq!(app.files_for_transmission.paths[0].state, PathState::Unchecked);
}

#[test]
fn interface_keys_drive_the_scene() {
    let (mut screen, _application) = fresh_ui();
    screen.interact(&Key::Down).unwrap();
    match &screen.scene {
        Scene::Home(home) => assert_eq!(home.menu.state.selected, Some(1)),
        _ => panic!("the home scene must stay on screen"),
    }
    screen.interact(&Key::Up).unwrap();
    match &screen.scene {
        Scene::Home(home) => assert_eq!(home.menu.state.selected, Some(0)),
        _ => panic!("the home scene must stay on screen"),
    }
    screen.scene = Scene::End;
    assert_eq!(screen.interact(&Key::Enter).unwrap_err(), AppError::Unimplemented);
    screen.interact(&Key::Other).unwrap();
}

#[test]
fn interface_follows_state_changes() {
    let (mut screen, application) = fresh_ui();
    assert!(matches!(screen.scene, Scene::Home(_)));

    application
        .send(ui::Message::Event(ui::event::Backend::StateChange(ui::AppState::Home(
            "1.2.3.4:5".to_string(),
        ))))
        .unwrap();
    screen.update().unwrap();
    match &screen.scene {
        Scene::Home(home) => assert_eq!(home.connection_info, "1.2.3.4:5"),
        _ => panic!("a home state change must show the home scene"),
    }

    application
        .send(ui::Message::Event(ui::event::Backend::StateChange(ui::AppState::End)))
        .unwrap();
    screen.update().unwrap();
    assert!(matches!(screen.scene, Scene::End));
}

#[test]
fn interface_refuses_unsupported_messages() {
    let (mut screen, application) = fresh_ui();
    application
        .send(ui::Message::Event(ui::event::Backend::StateChange(ui::AppState::Initialization)))
        .unwrap();
    assert_eq!(screen.update().unwrap_err(), AppError::Unimplemented);
}

fn fresh_server() -> Server {
    let (server_to_app, _app) = ThreadChannel::new_pair();
    let (server_to_ui, _ui) = ThreadChannel::new_pair();
    Server::new(server_to_app, server_to_ui)
}

#[test]
fn refresh_connection_records_every_step() {
    let mut server = fresh_server();
    server.refresh_connection(RefreshProbe {
        bind: Ok(()),
        local_ip: Ok(IpAddress::V4(192, 168, 0, 2)),
        public_ip: Ok(IpAddress::V4(8, 8, 8, 8)),
        internal_port: Ok(4100),
        mapping: Ok(41000),
    });
    assert_eq!(server.status, ServerStatus::Good);
    assert_eq!(server.local_ip, Some(IpAddress::V4(192, 168, 0, 2)));
    assert_eq!(server.public_ip, Some(IpAddress::V4(8, 8, 8, 8)));
    assert_eq!(server.internal_port, Some(4100));
    assert_eq!(server.external_port, Some(41000));
}

#[test]
fn refresh_connection_stops_at_the_first_failure() {
    let mut server = fresh_server();
    server.refresh_connection(RefreshProbe {
        bind: Ok(()),
        local_ip: Err("no gateway".to_string()),
        public_ip: Ok(IpAddress::V4(8, 8, 8, 8)),
        internal_port: Ok(4100),
        mapping: Ok(41000),
    });
    assert_eq!(server.status, ServerStatus::LocalIpError("no gateway".to_string()));
    assert_eq!(server.local_ip, None);
    assert_eq!(server.public_ip, None);
    assert_eq!(server.internal_port, None);
    assert_eq!(server.external_port, None);
}

#[test]
fn mapping_request_needs_a_v4_address() {
    let mut server = fresh_server();
    assert_eq!(server.mapping_request().unwrap_err(), "No internal port.");
    server.internal_port = Some(4100);
    assert_eq!(server.mapping_request().unwrap_err(), "No local IP address.");
    server.local_ip = Some(IpAddress::V6(0, 0, 0, 0, 0, 0, 0, 1));
    assert_eq!(
        server.mapping_request().unwrap_err(),
        "Local IP is IPv6, but only IPv4 is supported."
    );
    server.local_ip = Some(IpAddress::V4(10, 0, 0, 9));
    let request = server.mapping_request().unwrap();
    assert_eq!(request.local_ip, (10, 0, 0, 9));
    assert_eq!(request.internal_port, 4100);
    assert_eq!(request.lease_seconds, 900);
}

#[test]
fn unimplemented_server_transitions_fail() {
    let mut server = fresh_server();
    assert_eq!(server.accept_connection().unwrap_err(), AppError::Unimplemented);
    assert_eq!(Server::establish_connection().unwrap_err(), AppError::Unimplemented);
    assert_eq!(server.display_connection().unwrap_err(), AppError::Unimplemented);
    assert_eq!(server.status.message(), "All good");
}

#[test]
fn refresh_ips_records_both_addresses() {
    let mut server = fresh_server();
    server
        .refresh_ips(Ok(IpAddress::V4(10, 0, 0, 1)), Ok(IpAddress::V4(1, 2, 3, 4)))
        .unwrap();
    assert_eq!(server.local_ip, Some(IpAddress::V4(10, 0, 0, 1)));
    assert_eq!(server.public_ip, Some(IpAddress::V4(1, 2, 3, 4)));
    let verdict = server.refresh_ips(Err("down".to_string()), Ok(IpAddress::V4(1, 2, 3, 4)));
    assert_eq!(verdict.unwrap_err(), AppError::IPError);
}
