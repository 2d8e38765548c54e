use vstd::prelude::*;

verus! {

use vstd::string::StringExecFns;

use crate::backend;
use crate::error::AppError;
use crate::widget::Key;
use crate::widget::ScrollList;
use crate::widget::StyledPathList;
use crate::widget::spec_edit_selected_post;
use crate::widget::spec_reparsed_at;

/// The screen the interface currently shows.
pub enum Scene {
    EditFiles(EditFiles),
    End,
    Home(Home),
    Initialization,
}

/// How one key moves the home screen: up and down step the menu cursor with
/// wraparound (an unset cursor lands on the first action), and every other
/// key leaves the screen as it stands.
pub open spec fn spec_home_interact_post(before: Home, after: Home, key: Key) -> bool {
    &&& after.connection_info == before.connection_info
    &&& after.menu.heading == before.menu.heading
    &&& after.menu.options == before.menu.options
    &&& (key is Up ==> after.menu.state.selected == Some(
        match before.menu.state.selected {
            Some(i) => if i == 0 {
                (before.menu.options@.len() - 1) as usize
            } else {
                (i - 1) as usize
            },
            None => 0usize,
        },
    ))
    &&& (key is Down ==> after.menu.state.selected == Some(
        match before.menu.state.selected {
            Some(i) => ((i + 1) % (before.menu.options@.len() as int)) as usize,
            None => 0usize,
        },
    ))
    &&& (!(key is Up || key is Down) ==> after == before)
}

/// The home screen: a menu of actions and a connection info line.
pub struct Home {
    pub menu: ScrollList,
    pub connection_info: String,
}

impl Home {
    /// The menu always holds its three actions, with a cursor in range.
    pub open spec fn wf(&self) -> bool {
        &&& self.menu.wf()
        &&& self.menu.options@.len() == 3
    }

    pub fn new(connection_info: String) -> (r: Home)
        ensures
            r.wf(),
            r.menu.state.selected == Some(0usize),
            r.connection_info == connection_info,
    {
        let mut options: Vec<String> = Vec::new();
        options.push(String::from_str("Add or remove files"));
        options.push(String::from_str("Receive"));
        options.push(String::from_str("End"));
        let mut scene = Home {
            menu: ScrollList::new(String::from_str("Choose an option:"), options),
            connection_info,
        };
        scene.menu.next();
        scene
    }

    /// Reacts to one key: up and down move the menu cursor with wraparound,
    /// and enter turns the selected option into a selection event for the
    /// application worker. The scene transition is `spec_home_interact_post`.
    pub fn interact(&mut self, key: &Key) -> (r: Result<
        Option<backend::Message<backend::data::Ui, backend::event::Ui>>,
        AppError,
    >)
        requires
            old(self).wf(),
        ensures
            r is Ok,
            final(self).wf(),
            spec_home_interact_post(*old(self), *final(self), *key),
            (key is Up || key is Down) ==> r->Ok_0 is None,
            key is Enter ==> ({
                &&& (old(self).menu.state.selected matches Some(option) ==> r == Ok::<
                    Option<backend::Message<backend::data::Ui, backend::event::Ui>>,
                    AppError,
                >(Some(backend::Message::Event(backend::event::Ui::Selection(option)))))
                &&& (old(self).menu.state.selected is None ==> r->Ok_0 is None)
            }),
            !(key is Up || key is Down || key is Enter) ==> r->Ok_0 is None,
    {
        match key {
            Key::Up => {
                self.menu.previous();
            },
            Key::Down => {
                self.menu.next();
            },
            Key::Enter => {
                match self.menu.state.selected() {
                    Some(option) => {
                        return Ok(
                            Some(backend::Message::Event(backend::event::Ui::Selection(option))),
                        );
                    },
                    None => (),
                }
            },
            _ => (),
        }
        Ok(None)
    }
}

/// The file-editing screen: pending raw input and the path list under edit.
pub struct EditFiles {
    pub input: Vec<char>,
    pub file_paths: StyledPathList,
}

impl EditFiles {
    /// The list is well-formed and always has a selected entry.
    pub open spec fn wf(&self) -> bool {
        &&& self.file_paths.wf()
        &&& self.file_paths.state.selected is Some
    }

    pub fn new(file_paths: StyledPathList) -> (r: EditFiles)
        ensures
            r.wf(),
            r.input@ == Seq::<char>::empty(),
            r.file_paths.state.selected == Some(0usize),
            r.file_paths.heading == file_paths.heading,
    {
        let mut scene = EditFiles { input: Vec::new(), file_paths };
        scene.file_paths.select_first();
        scene
    }

    /// Forwards one editing key to the path list — the list moves exactly as
    /// `spec_edit_selected_post` says — and escape additionally hands back an
    /// independent copy of the final, fully re-parsed list for the
    /// application worker to store.
    pub fn interact(&mut self, key: &Key) -> (r: Result<
        Option<backend::Message<backend::data::Ui, backend::event::Ui>>,
        AppError,
    >)
        requires
            old(self).wf(),
        ensures
            r is Ok,
            final(self).wf(),
            final(self).input == old(self).input,
            spec_edit_selected_post(old(self).file_paths, final(self).file_paths, *key),
            key is Esc ==> ({
                &&& (r->Ok_0 matches Some(backend::Message::Data(
                    backend::data::Ui::FilePathList(copy),
                )) && copy.paths@ == final(self).file_paths.paths@)
                &&& spec_reparsed_at(
                    old(self).file_paths,
                    final(self).file_paths,
                    old(self).file_paths.state.selected->0 as int,
                )
            }),
            !(key is Esc) ==> r->Ok_0 is None,
            key is Other ==> *final(self) == *old(self),
    {
        match key {
            Key::Backspace | Key::Char(_) | Key::Delete | Key::Down | Key::Enter | Key::Up => {
                match self.file_paths.edit_selected(key) {
                    Ok(_) => (),
                    Err(_) => {
                        proof {
                            assert(false);
                        }
                    },
                }
                Ok(None)
            },
            Key::Esc => {
                match self.file_paths.edit_selected(key) {
                    Ok(_) => (),
                    Err(_) => {
                        proof {
                            assert(false);
                        }
                    },
                }
                let copy = self.file_paths.duplicate();
                Ok(Some(backend::Message::Data(backend::data::Ui::FilePathList(copy))))
            },
            Key::Other => Ok(None),
        }
    }
}

} // verus!
