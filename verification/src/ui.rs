use vstd::prelude::*;

pub mod data;
pub mod event;
pub mod scene;

verus! {

use crate::backend;
use crate::error::AppError;
use crate::server;
use crate::util;
use crate::util::ThreadChannel;
use crate::widget::Key;
use crate::widget::spec_edit_selected_post;
use crate::ui::scene::Scene;
use crate::ui::scene::spec_home_interact_post;

pub trait Data {

}

pub trait Event {

}

/// What the interface worker exchanges with a peer worker: payload data or
/// an event.
#[derive(Debug)]
pub enum Message<D: Data, E: Event> {
    Data(D),
    Event(E),
}

/// The application-level state the interface mirrors on screen.
#[derive(Debug)]
pub enum AppState {
    EditFiles(crate::widget::StyledPathList),
    End,
    Home(String),
    Initialization,
}

/// The interface worker: the scene on screen, driven by application state
/// changes, and the channels to its peers. Drawing and raw key capture live
/// outside the core and feed it through `update` and `interact`.
pub struct Ui {
    pub application: ThreadChannel<
        backend::Message<backend::data::Ui, backend::event::Ui>,
        Message<data::Backend, event::Backend>,
    >,
    pub server: ThreadChannel<
        server::Message<server::data::Ui, server::event::Ui>,
        Message<data::Server, event::Server>,
    >,
    pub application_state: AppState,
    pub scene: Scene,
    pub ui_refresh_rate: u128,
    pub clock: std::time::Instant,
    pub frame_count: u128,
    pub last_frame: std::time::Instant,
    pub frame_changed: bool,
}

impl Ui {
    /// Whatever scene is on screen is internally consistent.
    pub open spec fn wf(&self) -> bool {
        match self.scene {
            Scene::Home(h) => h.wf(),
            Scene::EditFiles(e) => e.wf(),
            _ => true,
        }
    }

    /// A fresh interface worker showing the home screen.
    pub fn new(
        application: ThreadChannel<
            backend::Message<backend::data::Ui, backend::event::Ui>,
            Message<data::Backend, event::Backend>,
        >,
        server: ThreadChannel<
            server::Message<server::data::Ui, server::event::Ui>,
            Message<data::Server, event::Server>,
        >,
    ) -> (r: Ui)
        ensures
            r.wf(),
            r.application == application,
            r.server == server,
            r.application_state is Initialization,
            r.scene is Home,
            r.ui_refresh_rate == 60,
            r.frame_count == 0,
            r.frame_changed,
    {
        Ui {
            application,
            server,
            application_state: AppState::Initialization,
            scene: Scene::Home(scene::Home::new(String::new())),
            ui_refresh_rate: 60,
            clock: util::monotonic_now(),
            frame_count: 0,
            last_frame: util::monotonic_now(),
            frame_changed: true,
        }
    }

    /// Applies one message from the application worker: a state change swaps
    /// the scene in; anything the interface has no transition for is an
    /// error. This is the interface's whole transition rule.
    pub fn apply_message(&mut self, message: Message<data::Backend, event::Backend>) -> (r: Result<
        (),
        AppError,
    >)
        requires
            old(self).wf(),
        ensures
            final(self).wf(),
            final(self).application == old(self).application,
            final(self).server == old(self).server,
            message matches Message::Event(event::Backend::StateChange(st)) ==> match st {
                AppState::EditFiles(list) => ({
                    &&& r is Ok
                    &&& (final(self).scene matches Scene::EditFiles(e) && e.file_paths.heading
                        == list.heading && e.file_paths.state.selected == Some(0usize))
                    &&& final(self).application_state == AppState::EditFiles(list)
                }),
                AppState::End => ({
                    &&& r is Ok
                    &&& final(self).scene is End
                    &&& final(self).application_state is End
                }),
                AppState::Home(info) => ({
                    &&& r is Ok
                    &&& (final(self).scene matches Scene::Home(h) && h.connection_info@ == info@
                        && h.menu.state.selected == Some(0usize))
                    &&& final(self).application_state == AppState::Home(info)
                }),
                AppState::Initialization => ({
                    &&& r == Err::<(), AppError>(AppError::Unimplemented)
                    &&& *final(self) == *old(self)
                }),
            },
            message is Data ==> ({
                &&& r == Err::<(), AppError>(AppError::UnsupportedMessage)
                &&& *final(self) == *old(self)
            }),
    {
        match message {
            Message::Event(event::Backend::StateChange(state)) => {
                match state {
                    AppState::EditFiles(file_list) => {
                        let copy = file_list.duplicate();
                        self.scene = Scene::EditFiles(scene::EditFiles::new(copy));
                        self.application_state = AppState::EditFiles(file_list);
                        Ok(())
                    },
                    AppState::End => {
                        self.scene = Scene::End;
                        self.application_state = AppState::End;
                        Ok(())
                    },
                    AppState::Home(connection_info) => {
                        let copy = connection_info.clone();
                        self.scene = Scene::Home(scene::Home::new(copy));
                        self.application_state = AppState::Home(connection_info);
                        Ok(())
                    },
                    AppState::Initialization => Err(AppError::Unimplemented),
                }
            },
            Message::Data(_) => Err(AppError::UnsupportedMessage),
        }
    }

    /// Drains the updates the application worker has queued and applies them
    /// in order, stopping at the first one the interface has no transition
    /// for; a non-empty batch marks the frame as changed.
    pub fn update(&mut self) -> (r: Result<(), AppError>)
        requires
            old(self).wf(),
        ensures
            final(self).wf(),
            final(self).application == old(self).application,
            final(self).server == old(self).server,
    {
        let mut app_updates = self.application.receive();
        if app_updates.len() > 0 {
            while app_updates.len() > 0
                invariant
                    self.wf(),
                    self.application == old(self).application,
                    self.server == old(self).server,
                decreases app_updates@.len(),
            {
                let message = app_updates.remove(0);
                match self.apply_message(message) {
                    Ok(_) => (),
                    Err(e) => {
                        return Err(e);
                    },
                }
            }
            self.frame_changed = true;
        }
        Ok(())
    }

    /// Reacts to one key stroke: the active scene handles it — the home menu
    /// moves as `spec_home_interact_post` says, the file list as
    /// `spec_edit_selected_post` says — and whatever message the scene
    /// produces goes to the application worker. A key that sends nothing
    /// always succeeds; a rejected send surfaces as a channel error; a scene
    /// with no key handling yet is an unimplemented transition.
    pub fn interact(&mut self, key: &Key) -> (r: Result<(), AppError>)
        requires
            old(self).wf(),
        ensures
            final(self).wf(),
            final(self).application == old(self).application,
            final(self).server == old(self).server,
            key is Other ==> (r is Ok && final(self).scene == old(self).scene),
            !(key is Other) ==> match old(self).scene {
                Scene::Home(h) => ({
                    &&& (final(self).scene matches Scene::Home(h2) && spec_home_interact_post(
                        h,
                        h2,
                        *key,
                    ))
                    &&& (!(key is Enter && h.menu.state.selected is Some) ==> r is Ok)
                    &&& (r is Ok || r == Err::<(), AppError>(AppError::ChannelRejected))
                    &&& (r is Ok ==> final(self).frame_changed)
                }),
                Scene::EditFiles(e) => ({
                    &&& (final(self).scene matches Scene::EditFiles(e2)
                        && spec_edit_selected_post(e.file_paths, e2.file_paths, *key) && e2.input
                        == e.input)
                    &&& (!(key is Esc) ==> r is Ok)
                    &&& (r is Ok || r == Err::<(), AppError>(AppError::ChannelRejected))
                    &&& (r is Ok ==> final(self).frame_changed)
                }),
                _ => ({
                    &&& r == Err::<(), AppError>(AppError::Unimplemented)
                    &&& *final(self) == *old(self)
                }),
            },
    {
        match key {
            Key::Backspace | Key::Char(_) | Key::Delete | Key::Down | Key::Enter | Key::Up
                | Key::Esc => {
                let message: Option<backend::Message<backend::data::Ui, backend::event::Ui>>;
                match &mut self.scene {
                    Scene::EditFiles(scene) => {
                        message = match scene.interact(key) {
                            Ok(m) => m,
                            Err(e) => {
                                return Err(e);
                            },
                        };
                    },
                    Scene::Home(scene) => {
                        message = match scene.interact(key) {
                            Ok(m) => m,
                            Err(e) => {
                                return Err(e);
                            },
                        };
                    },
                    _ => {
                        return Err(AppError::Unimplemented);
                    },
                }
                match message {
                    Some(message) => {
                        match self.application.send(message) {
                            Ok(_) => (),
                            Err(_) => {
                                return Err(AppError::ChannelRejected);
                            },
                        }
                    },
                    None => (),
                }
                self.frame_changed = true;
            },
            Key::Other => (),
        }
        Ok(())
    }

    /// Whether period number `count` at `rate` periods per second has
    /// elapsed on this worker's clock.
    pub fn period_elapsed(&self, count: &u64, rate: &u16) -> bool
        requires
            *rate > 0,
    {
        util::period_elapsed(&self.clock, count, rate)
    }
}

} // verus!
