use vstd::prelude::*;

pub mod data;
pub mod event;

verus! {

use vstd::string::StringExecFns;

use crate::error::AppError;
use crate::server;
use crate::settings::LogicSettings;
use crate::ui;
use crate::util;
use crate::util::ThreadChannel;
use crate::file_processing::PathState;
use crate::widget::StyledFilePath;
use crate::widget::StyledPathList;

pub trait Data {

}

pub trait Event {

}

/// What the application worker exchanges with a peer worker: payload data or
/// an event.
#[derive(Debug)]
pub enum Message<D: Data, E: Event> {
    Data(D),
    Event(E),
}

/// A named step of the application worker's behavior. `Exit` is the
/// absorbing terminal state: it transitions only to itself, and the run loop
/// stops on it.
#[derive(Clone, Copy, PartialEq, Eq, Structural, Debug)]
pub enum State {
    Init,
    Home,
    EditFiles,
    Receive,
    End,
    Exit,
}

/// Every message of the batch is a data message.
pub open spec fn spec_all_data(messages: Seq<Message<data::Ui, event::Ui>>) -> bool {
    forall|k: int| 0 <= k < messages.len() ==> (#[trigger] messages[k]) is Data
}

/// The last file-path list carried by a data message, or the fallback when
/// no message carries one.
pub open spec fn spec_last_path_list(
    messages: Seq<Message<data::Ui, event::Ui>>,
    fallback: StyledPathList,
) -> StyledPathList
    decreases messages.len(),
{
    if messages.len() == 0 {
        fallback
    } else {
        match messages.last() {
            Message::Data(data::Ui::FilePathList(list)) => list,
            _ => spec_last_path_list(messages.drop_last(), fallback),
        }
    }
}

/// The application worker: the logic thread's state machine, its domain
/// state, and its channels to the interface and server workers.
pub struct Application {
    pub state: State,
    pub clock: std::time::Instant,
    pub frame_count: u128,
    pub ui: ThreadChannel<
        ui::Message<ui::data::Backend, ui::event::Backend>,
        Message<data::Ui, event::Ui>,
    >,
    pub settings: LogicSettings,
    pub files_for_transmission: StyledPathList,
    pub server: ThreadChannel<
        server::Message<server::data::Backend, server::event::Backend>,
        Message<data::Server, event::Server>,
    >,
}

impl Application {
    /// The worker's loop can always be paced.
    pub open spec fn wf(&self) -> bool {
        self.settings.internal_logic_refresh_rate > 0
    }

    /// A fresh application worker in its initial state, holding one empty
    /// path entry ready for editing.
    pub fn new(
        ui: ThreadChannel<
            ui::Message<ui::data::Backend, ui::event::Backend>,
            Message<data::Ui, event::Ui>,
        >,
        server: ThreadChannel<
            server::Message<server::data::Backend, server::event::Backend>,
            Message<data::Server, event::Server>,
        >,
    ) -> (r: Application)
        ensures
            r.wf(),
            r.state == State::Init,
            r.frame_count == 0,
            r.ui == ui,
            r.server == server,
            r.settings.interface_refresh_rate == 60,
            r.settings.progress_refresh_rate == 4,
            r.settings.internal_logic_refresh_rate == 60,
            r.files_for_transmission.wf(),
            r.files_for_transmission.paths@.len() == 1,
            r.files_for_transmission.paths@[0].path@ == Seq::<char>::empty(),
            r.files_for_transmission.paths@[0].state == PathState::Unchecked,
            r.files_for_transmission.heading@
                == "Edit paths below, or simply drag and drop files or directories here:"@,
    {
        let mut initial_paths: Vec<StyledFilePath> = Vec::new();
        let entry = StyledFilePath::new("");
        proof {
            reveal_strlit("");
        }
        assert(entry.path@ =~= Seq::<char>::empty());
        initial_paths.push(entry);
        Application {
            state: State::Init,
            clock: util::monotonic_now(),
            frame_count: 0,
            server,
            ui,
            settings: LogicSettings::default(),
            files_for_transmission: StyledPathList::new(
                String::from_str(
                    "Edit paths below, or simply drag and drop files or directories here:",
                ),
                initial_paths,
            ),
        }
    }

    /// Emits whatever the current state must send before it can decide, and
    /// says whether the state now waits for inbound messages. The run loop
    /// calls this, gathers input where asked, and hands it to `step`.
    pub fn request(&mut self) -> (r: Result<bool, AppError>)
        requires
            old(self).wf(),
        ensures
            final(self).wf(),
            final(self).state == old(self).state,
            final(self).files_for_transmission == old(self).files_for_transmission,
            r matches Ok(needs_input) ==> (needs_input <==> (old(self).state == State::Home
                || old(self).state == State::EditFiles)),
            !(old(self).state == State::Home || old(self).state == State::EditFiles) ==> r
                == Ok::<bool, AppError>(false),
            r is Err ==> r == Err::<bool, AppError>(AppError::ChannelRejected),
    {
        match self.state {
            State::Home => {
                match self.ui.send(
                    ui::Message::Event(
                        ui::event::Backend::StateChange(ui::AppState::Home(String::new())),
                    ),
                ) {
                    Ok(_) => Ok(true),
                    Err(_) => Err(AppError::ChannelRejected),
                }
            },
            State::EditFiles => {
                let copy = self.files_for_transmission.duplicate();
                match self.ui.send(
                    ui::Message::Event(
                        ui::event::Backend::StateChange(ui::AppState::EditFiles(copy)),
                    ),
                ) {
                    Ok(_) => Ok(true),
                    Err(_) => Err(AppError::ChannelRejected),
                }
            },
            State::Init | State::Receive | State::End | State::Exit => Ok(false),
        }
    }

    /// One turn of the state machine, fed the batch of inbound messages the
    /// current state asked for (an empty batch where it asked for none): the
    /// handler decides the next state. Returns whether the machine stands in
    /// the absorbing exit state, on which the run loop stops.
    pub fn step(&mut self, messages: Vec<Message<data::Ui, event::Ui>>) -> (r: Result<
        bool,
        AppError,
    >)
        requires
            old(self).wf(),
        ensures
            final(self).wf(),
            old(self).state == State::Init ==> (r == Ok::<bool, AppError>(false)
                && *final(self) == (Application { state: State::Home, ..*old(self) })),
            old(self).state == State::Home ==> ({
                &&& (r is Ok ==> (final(self).state == State::EditFiles || final(self).state
                    == State::Receive || final(self).state == State::End))
                &&& final(self).files_for_transmission == old(self).files_for_transmission
            }),
            old(self).state == State::EditFiles ==> (r is Ok ==> ({
                &&& final(self).state == State::Home
                &&& (spec_all_data(messages@)
                    ==> final(self).files_for_transmission == spec_last_path_list(
                    messages@,
                    old(self).files_for_transmission,
                ))
            })),
            old(self).state == State::Receive ==> r == Err::<bool, AppError>(
                AppError::Unimplemented,
            ),
            old(self).state == State::End ==> (r is Ok ==> (r == Ok::<bool, AppError>(true)
                && final(self).state == State::Exit)),
            old(self).state == State::Exit ==> (r == Ok::<bool, AppError>(true) && *final(self)
                == *old(self)),
            r matches Ok(done) ==> (done <==> final(self).state == State::Exit),
    {
        let next = match self.state {
            State::Init => self.init(),
            State::Home => Self::home_decision(&messages),
            State::EditFiles => {
                match self.apply_edit_updates(messages) {
                    Ok(_) => Ok(State::Home),
                    Err(e) => Err(e),
                }
            },
            State::Receive => self.receive(),
            State::End => self.end(),
            State::Exit => self.exit(),
        };
        match next {
            Ok(state) => {
                self.state = state;
                Ok(match self.state {
                    State::Exit => true,
                    _ => false,
                })
            },
            Err(e) => Err(e),
        }
    }

    /// One paced poll of the interface channel: drains what is queued, and
    /// where nothing is, waits on the channel itself for at most the time
    /// the frame pacer grants, then drains again. An empty batch means no
    /// message arrived within the frame; the run loop simply polls again, so
    /// the wait stays rate-limited and never indefinite.
    pub fn wait_for_input(&mut self) -> (r: Vec<Message<data::Ui, event::Ui>>)
        requires
            old(self).wf(),
        ensures
            final(self).wf(),
            final(self).state == old(self).state,
            final(self).files_for_transmission == old(self).files_for_transmission,
            final(self).settings == old(self).settings,
            final(self).ui == old(self).ui,
            final(self).server == old(self).server,
            final(self).clock == old(self).clock,
    {
        let mut ui_updates = self.ui.receive();
        if ui_updates.len() == 0 {
            let micros = util::remaining_frame_micros(
                &self.clock,
                &mut self.frame_count,
                self.settings.internal_logic_refresh_rate,
            );
            let bounded: u64 = if micros > u64::MAX as u128 {
                u64::MAX
            } else {
                micros as u64
            };
            match self.ui.receive_timeout(bounded) {
                Some(message) => {
                    ui_updates.push(message);
                    let mut rest = self.ui.receive();
                    ui_updates.append(&mut rest);
                },
                None => (),
            }
        }
        ui_updates
    }

    /// The home state's transition rule: the first message decides the next
    /// state — option 0 edits files, option 1 receives, option 2 ends — and
    /// anything else has no transition; an empty batch ends the session.
    pub fn home_decision(messages: &Vec<Message<data::Ui, event::Ui>>) -> (r: Result<
        State,
        AppError,
    >)
        ensures
            messages@.len() == 0 ==> r == Ok::<State, AppError>(State::End),
            messages@.len() > 0 ==> match messages@[0] {
                Message::Event(event::Ui::Selection(selection)) => {
                    &&& (selection == 0 ==> r == Ok::<State, AppError>(State::EditFiles))
                    &&& (selection == 1 ==> r == Ok::<State, AppError>(State::Receive))
                    &&& (selection == 2 ==> r == Ok::<State, AppError>(State::End))
                    &&& (selection > 2 ==> r == Err::<State, AppError>(
                        AppError::UnsupportedMessage,
                    ))
                },
                Message::Data(_) => r == Err::<State, AppError>(AppError::UnsupportedMessage),
            },
    {
        if messages.len() == 0 {
            return Ok(State::End);
        }
        match &messages[0] {
            Message::Event(event::Ui::Selection(selection)) => {
                match *selection {
                    0 => Ok(State::EditFiles),
                    1 => Ok(State::Receive),
                    2 => Ok(State::End),
                    _ => Err(AppError::UnsupportedMessage),
                }
            },
            Message::Data(_) => Err(AppError::UnsupportedMessage),
        }
    }

    /// Applies the interface's replies to the edit-files request: every data
    /// message carries a full path list and the last one wins; any event
    /// here has no transition and is fatal to the operation.
    pub fn apply_edit_updates(&mut self, messages: Vec<Message<data::Ui, event::Ui>>) -> (r:
        Result<(), AppError>)
        ensures
            final(self).wf() == old(self).wf(),
            final(self).state == old(self).state,
            final(self).ui == old(self).ui,
            final(self).server == old(self).server,
            final(self).settings == old(self).settings,
            spec_all_data(messages@) ==> ({
                &&& r is Ok
                &&& final(self).files_for_transmission == spec_last_path_list(
                    messages@,
                    old(self).files_for_transmission,
                )
            }),
            !spec_all_data(messages@) ==> r == Err::<(), AppError>(AppError::UnsupportedMessage),
    {
        let ghost all = messages@;
        let mut messages = messages;
        let total = messages.len();
        let mut processed: usize = 0;
        #[verifier::loop_isolation(false)]
        while messages.len() > 0
            invariant
                all.len() == total,
                processed + messages@.len() == all.len(),
                messages@ == all.subrange(processed as int, all.len() as int),
                forall|k: int| 0 <= k < processed ==> all[k] is Data,
                self.files_for_transmission == spec_last_path_list(
                    all.subrange(0, processed as int),
                    old(self).files_for_transmission,
                ),
                self.state == old(self).state,
                self.ui == old(self).ui,
                self.server == old(self).server,
                self.settings == old(self).settings,
                self.clock == old(self).clock,
                self.frame_count == old(self).frame_count,
            decreases messages@.len(),
        {
            let message = messages.remove(0);
            assert(message == all[processed as int]);
            match message {
                Message::Data(ui_data) => {
                    let data::Ui::FilePathList(file_paths) = ui_data;
                    self.files_for_transmission = file_paths;
                },
                Message::Event(_) => {
                    proof {
                        assert(!spec_all_data(all)) by {
                            assert(0 <= processed < all.len() && !((all[processed as int])
                                is Data));
                        }
                    }
                    return Err(AppError::UnsupportedMessage);
                },
            }
            processed = processed + 1;
            proof {
                let prefix = all.subrange(0, processed as int);
                assert(prefix.drop_last() =~= all.subrange(0, processed - 1));
                assert(prefix.last() == all[processed - 1]);
            }
        }
        proof {
            assert(all.subrange(0, all.len() as int) =~= all);
        }
        Ok(())
    }

    /// Announces the end of the session to the interface and steps into the
    /// absorbing exit state.
    pub fn end(&mut self) -> (r: Result<State, AppError>)
        requires
            old(self).wf(),
        ensures
            final(self).wf(),
            *final(self) == *old(self),
            r matches Ok(next) ==> next == State::Exit,
            r is Err ==> r == Err::<State, AppError>(AppError::ChannelRejected),
    {
        match self.ui.send(ui::Message::Event(ui::event::Backend::StateChange(ui::AppState::End))) {
            Ok(_) => Ok(State::Exit),
            Err(_) => Err(AppError::ChannelRejected),
        }
    }

    /// The absorbing terminal state: it transitions only to itself.
    pub fn exit(&mut self) -> (r: Result<State, AppError>)
        ensures
            *final(self) == *old(self),
            r == Ok::<State, AppError>(State::Exit),
    {
        Ok(State::Exit)
    }

    /// The initial state steps straight to the home menu.
    pub fn init(&mut self) -> (r: Result<State, AppError>)
        ensures
            *final(self) == *old(self),
            r == Ok::<State, AppError>(State::Home),
    {
        Ok(State::Home)
    }

    /// Receiving a transmission is a placeholder with no implemented
    /// behavior yet.
    pub fn receive(&mut self) -> (r: Result<State, AppError>)
        ensures
            *final(self) == *old(self),
            r == Err::<State, AppError>(AppError::Unimplemented),
    {
        Err(AppError::Unimplemented)
    }
}

} // verus!
