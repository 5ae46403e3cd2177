use vstd::prelude::*;

use crate::asset::{display_name, label_of, label_spec, Entity, EntityKind};
use crate::menu::Menu;
use crate::collection::{appended, relocated_at, toggled_at, Collection};
use crate::errors::CoreError;
use crate::paths::file_name_spec;

verus! {

/// Control state of a management session. `InitialEmptyAdd`, `ActionMenu`
/// and `Terminated` are the resting states; the others wait for the
/// answer to one pending request.
#[derive(Clone, Copy, Debug, PartialEq, Eq, Structural)]
pub enum Phase {
    /// Very first iteration and the collection was empty: the Add action
    /// is forced without showing the menu.
    InitialEmptyAdd,
    /// Top of the interaction loop; the next step presents the menu.
    ActionMenu,
    /// The four-choice action menu is on screen.
    AwaitingAction,
    /// The browser is resolving a path for Add.
    Browsing,
    /// Waiting for the confirmation to relocate the file just appended
    /// at this index.
    ConfirmingMove(usize),
    /// The caller is relocating the file backing this index.
    MovingFile(usize),
    /// The toggle list is on screen.
    ChoosingToggle,
    /// The remove list is on screen.
    ChoosingRemove,
    /// Waiting for the deletion confirmation for this index.
    ConfirmingRemove(usize),
    /// The session is over.
    Terminated,
}

/// One answer from the caller: a user selection, a browser result, or
/// word that a requested piece of outside work finished.
#[derive(Debug)]
pub enum Event {
    /// Begin the session, or resume after a `Notice`.
    Proceed,
    /// The index picked on the action menu (0 Add, 1 Toggle, 2 Remove,
    /// 3 Back).
    ActionChosen(usize),
    /// What the browser resolved: a path, or `None` for cancellation.
    Browsed(Option<String>),
    /// The answer to the relocation confirmation.
    MoveAnswer(bool),
    /// The backing file was relocated to this path.
    Moved(String),
    /// The index picked on the toggle list.
    ToggleChosen(usize),
    /// The index picked on the remove list.
    RemoveChosen(usize),
    /// The answer to the deletion confirmation.
    RemoveAnswer(bool),
}

/// What the caller must do next. Every prompt and every filesystem touch
/// happens outside; the engine only decides.
#[derive(Debug)]
pub enum Request {
    /// Present the four action choices and answer with `ActionChosen`.
    ChooseAction,
    /// Print this informational line, then send `Proceed`.
    Notice(String),
    /// Run the file browser in file mode under the kind's extension
    /// filter, no default; answer with `Browsed`.
    BrowseForFile,
    /// Ask whether to relocate the just-added file (default yes); answer
    /// with `MoveAnswer`.
    ConfirmMove,
    /// Relocate the file backing this index into the managed location;
    /// answer with `Moved` and the new path, or abort the session if the
    /// move failed (the entity stays appended).
    MoveFile(usize),
    /// Present these labels (with the trailing `Back` sentinel) and
    /// answer with `ToggleChosen`.
    ChooseToggle(Vec<String>),
    /// Present these labels (with the trailing `Back` sentinel) and
    /// answer with `RemoveChosen`.
    ChooseRemove(Vec<String>),
    /// Ask for an explicit yes/no confirmation naming this labelled
    /// entity; answer with `RemoveAnswer`.
    ConfirmRemove(String),
    /// The session ended.
    Done,
}

/// The list handed to the toggle and remove prompts: one label per
/// entity, in order, then the `Back` sentinel.
pub open spec fn list_labels_ok(ls: Seq<String>, s: Seq<Entity>) -> bool {
    &&& ls.len() == s.len() + 1
    &&& forall|i: int| 0 <= i < s.len() ==> ls[i]@ == label_spec(s[i])
    &&& ls[s.len() as int]@ == "Back"@
}

/// The line reported after a toggle: the new state, a space, the
/// entity's display name.
pub open spec fn toggle_report_spec(enabled_now: bool, path: Seq<char>) -> Seq<char> {
    (if enabled_now {
        "Enabled"@
    } else {
        "Disabled"@
    }) + " "@ + file_name_spec(path)
}

/// The generic collection-management engine: one session of the
/// add/toggle/remove interaction protocol over one collection, any kind.
///
/// The caller loops: it performs each `Request` (prompting, browsing,
/// moving a file) and feeds the answer back through `step` until `Done`,
/// or until an error aborts the session.
#[derive(Debug)]
pub struct Engine {
    pub collection: Collection,
    pub phase: Phase,
}

impl Engine {
    /// The collection is well-formed and every index a phase carries is
    /// in bounds.
    pub open spec fn wf(self) -> bool {
        &&& self.collection.wf()
        &&& (self.phase matches Phase::ConfirmingMove(ix) ==> ix < self.collection.entities@.len())
        &&& (self.phase matches Phase::MovingFile(ix) ==> ix < self.collection.entities@.len())
        &&& (self.phase matches Phase::ConfirmingRemove(ix) ==> ix
            < self.collection.entities@.len())
    }

    /// Which events `step` accepts in the current phase: exactly the
    /// answer to the pending request, with its index in range of the
    /// list it answers.
    pub open spec fn event_fits(self, event: Event) -> bool {
        match (self.phase, event) {
            (Phase::InitialEmptyAdd, Event::Proceed) => true,
            (Phase::ActionMenu, Event::Proceed) => true,
            (Phase::AwaitingAction, Event::ActionChosen(a)) => a < 4,
            (Phase::Browsing, Event::Browsed(_)) => true,
            (Phase::ConfirmingMove(_), Event::MoveAnswer(_)) => true,
            (Phase::MovingFile(_), Event::Moved(_)) => true,
            (Phase::ChoosingToggle, Event::ToggleChosen(i)) => i
                <= self.collection.entities@.len(),
            (Phase::ChoosingRemove, Event::RemoveChosen(i)) => i
                <= self.collection.entities@.len(),
            (Phase::ConfirmingRemove(_), Event::RemoveAnswer(_)) => true,
            _ => false,
        }
    }

    /// Opens a session over `collection`. The forced-add state is taken
    /// only when the collection starts empty.
    pub fn new(collection: Collection) -> (e: Engine)
        requires
            collection.wf(),
        ensures
            e.wf(),
            e.collection == collection,
            e.phase == (if collection.entities@.len() == 0 {
                Phase::InitialEmptyAdd
            } else {
                Phase::ActionMenu
            }),
    {
        let phase = if collection.len() == 0 {
            Phase::InitialEmptyAdd
        } else {
            Phase::ActionMenu
        };
        Engine { collection, phase }
    }

    /// The action menu that belongs to this session's entity kind.
    pub fn menu(&self) -> (m: Menu)
        ensures
            m == (if self.collection.kind == EntityKind::BaseData {
                Menu::IwadManagementMenu
            } else {
                Menu::ModManagementMenu
            }),
    {
        match self.collection.kind {
            EntityKind::BaseData => Menu::IwadManagementMenu,
            EntityKind::AddOn => Menu::ModManagementMenu,
        }
    }

    /// Hands the collection back when the session is over.
    pub fn into_collection(self) -> (c: Collection)
        ensures
            c == self.collection,
    {
        self.collection
    }

    /// One decision step: consumes the answer to the pending request and
    /// says what to do next. Every mutation of the collection happens
    /// here, exactly as the clauses below state; an `Err` aborts the
    /// session with the collection kept as it stands (a failed move
    /// leaves the entity appended — no rollback).
    pub fn step(&mut self, event: Event) -> (r: Result<Request, CoreError>)
        requires
            old(self).wf(),
            old(self).event_fits(event),
        ensures
            final(self).wf(),
            final(self).collection.kind == old(self).collection.kind,
            match (old(self).phase, event) {
                (Phase::InitialEmptyAdd, Event::Proceed) => {
                    &&& final(self).collection.entities@ == old(self).collection.entities@
                    &&& final(self).phase == Phase::Browsing
                    &&& r matches Ok(Request::BrowseForFile)
                },
                (Phase::ActionMenu, Event::Proceed) => {
                    &&& final(self).collection.entities@ == old(self).collection.entities@
                    &&& final(self).phase == Phase::AwaitingAction
                    &&& r matches Ok(Request::ChooseAction)
                },
                (Phase::AwaitingAction, Event::ActionChosen(a)) => {
                    &&& final(self).collection.entities@ == old(self).collection.entities@
                    &&& if a == 0 {
                        final(self).phase == Phase::Browsing && r matches Ok(
                            Request::BrowseForFile,
                        )
                    } else if a == 1 {
                        if old(self).collection.entities@.len() == 0 {
                            &&& final(self).phase == Phase::ActionMenu
                            &&& r matches Ok(Request::Notice(n)) && n@
                                == "No assets available to toggle."@
                        } else {
                            &&& final(self).phase == Phase::ChoosingToggle
                            &&& r matches Ok(Request::ChooseToggle(ls)) && list_labels_ok(
                                ls@,
                                old(self).collection.entities@,
                            )
                        }
                    } else if a == 2 {
                        if old(self).collection.entities@.len() == 0 {
                            &&& final(self).phase == Phase::ActionMenu
                            &&& r matches Ok(Request::Notice(n)) && n@
                                == "No assets available to remove."@
                        } else {
                            &&& final(self).phase == Phase::ChoosingRemove
                            &&& r matches Ok(Request::ChooseRemove(ls)) && list_labels_ok(
                                ls@,
                                old(self).collection.entities@,
                            )
                        }
                    } else {
                        final(self).phase == Phase::Terminated && r matches Ok(Request::Done)
                    }
                },
                (Phase::Browsing, Event::Browsed(popt)) => match popt {
                    Option::None => {
                        &&& final(self).collection.entities@ == old(self).collection.entities@
                        &&& final(self).phase == Phase::AwaitingAction
                        &&& r matches Ok(Request::ChooseAction)
                    },
                    Option::Some(path) => {
                        if file_name_spec(path@).len() > 0 {
                            &&& final(self).collection.entities@ == appended(
                                old(self).collection.entities@,
                                old(self).collection.kind,
                                path,
                            )
                            &&& final(self).phase matches Phase::ConfirmingMove(ix) && ix
                                == old(self).collection.entities@.len()
                            &&& r matches Ok(Request::ConfirmMove)
                        } else {
                            &&& final(self).collection.entities@ == old(
                                self,
                            ).collection.entities@
                            &&& final(self).phase == Phase::Terminated
                            &&& r matches Err(e) && e == CoreError::InvalidPath
                        }
                    },
                },
                (Phase::ConfirmingMove(ix), Event::MoveAnswer(yes)) => {
                    &&& final(self).collection.entities@ == old(self).collection.entities@
                    &&& if yes {
                        final(self).phase == Phase::MovingFile(ix) && (r matches Ok(
                            Request::MoveFile(jx),
                        ) && jx == ix)
                    } else {
                        final(self).phase == Phase::AwaitingAction && r matches Ok(
                            Request::ChooseAction,
                        )
                    }
                },
                (Phase::MovingFile(ix), Event::Moved(path)) => {
                    if file_name_spec(path@).len() > 0 {
                        &&& final(self).collection.entities@ == relocated_at(
                            old(self).collection.entities@,
                            ix as int,
                            path,
                        )
                        &&& final(self).phase == Phase::AwaitingAction
                        &&& r matches Ok(Request::ChooseAction)
                    } else {
                        &&& final(self).collection.entities@ == old(self).collection.entities@
                        &&& final(self).phase == Phase::Terminated
                        &&& r matches Err(e) && e == CoreError::InvalidPath
                    }
                },
                (Phase::ChoosingToggle, Event::ToggleChosen(i)) => {
                    if i == old(self).collection.entities@.len() {
                        &&& final(self).collection.entities@ == old(self).collection.entities@
                        &&& final(self).phase == Phase::AwaitingAction
                        &&& r matches Ok(Request::ChooseAction)
                    } else {
                        &&& final(self).collection.entities@ == toggled_at(
                            old(self).collection.entities@,
                            i as int,
                        )
                        &&& final(self).phase == Phase::ActionMenu
                        &&& r matches Ok(Request::Notice(n)) && n@ == toggle_report_spec(
                            !old(self).collection.entities@[i as int].asset.enabled,
                            old(self).collection.entities@[i as int].asset.path@,
                        )
                    }
                },
                (Phase::ChoosingRemove, Event::RemoveChosen(i)) => {
                    &&& final(self).collection.entities@ == old(self).collection.entities@
                    &&& if i == old(self).collection.entities@.len() {
                        final(self).phase == Phase::AwaitingAction && r matches Ok(
                            Request::ChooseAction,
                        )
                    } else {
                        &&& final(self).phase matches Phase::ConfirmingRemove(jx) && jx == i
                        &&& r matches Ok(Request::ConfirmRemove(l)) && l@ == label_spec(
                            old(self).collection.entities@[i as int],
                        )
                    }
                },
                (Phase::ConfirmingRemove(ix), Event::RemoveAnswer(yes)) => {
                    if yes {
                        &&& final(self).collection.entities@ == old(
                            self,
                        ).collection.entities@.remove(ix as int)
                        &&& final(self).phase == Phase::Terminated
                        &&& r matches Ok(Request::Done)
                    } else {
                        &&& final(self).collection.entities@ == old(self).collection.entities@
                        &&& final(self).phase == Phase::AwaitingAction
                        &&& r matches Ok(Request::ChooseAction)
                    }
                },
                _ => true,
            },
    {
        match (self.phase, event) {
            (Phase::InitialEmptyAdd, Event::Proceed) => {
                self.phase = Phase::Browsing;
                Ok(Request::BrowseForFile)
            },
            (Phase::ActionMenu, Event::Proceed) => {
                self.phase = Phase::AwaitingAction;
                Ok(Request::ChooseAction)
            },
            (Phase::AwaitingAction, Event::ActionChosen(a)) => {
                if a == 0 {
                    self.phase = Phase::Browsing;
                    Ok(Request::BrowseForFile)
                } else if a == 1 {
                    if self.collection.len() == 0 {
                        self.phase = Phase::ActionMenu;
                        Ok(Request::Notice("No assets available to toggle.".to_owned()))
                    } else {
                        let mut ls = self.collection.labels();
                        ls.push("Back".to_owned());
                        self.phase = Phase::ChoosingToggle;
                        Ok(Request::ChooseToggle(ls))
                    }
                } else if a == 2 {
                    if self.collection.len() == 0 {
                        self.phase = Phase::ActionMenu;
                        Ok(Request::Notice("No assets available to remove.".to_owned()))
                    } else {
                        let mut ls = self.collection.labels();
                        ls.push("Back".to_owned());
                        self.phase = Phase::ChoosingRemove;
                        Ok(Request::ChooseRemove(ls))
                    }
                } else {
                    self.phase = Phase::Terminated;
                    Ok(Request::Done)
                }
            },
            (Phase::Browsing, Event::Browsed(popt)) => match popt {
                Option::None => {
                    self.phase = Phase::AwaitingAction;
                    Ok(Request::ChooseAction)
                },
                Option::Some(path) => match self.collection.add(path) {
                    Ok(ix) => {
                        self.phase = Phase::ConfirmingMove(ix);
                        Ok(Request::ConfirmMove)
                    },
                    Err(err) => {
                        self.phase = Phase::Terminated;
                        Err(err)
                    },
                },
            },
            (Phase::ConfirmingMove(ix), Event::MoveAnswer(yes)) => {
                if yes {
                    self.phase = Phase::MovingFile(ix);
                    Ok(Request::MoveFile(ix))
                } else {
                    self.phase = Phase::AwaitingAction;
                    Ok(Request::ChooseAction)
                }
            },
            (Phase::MovingFile(ix), Event::Moved(path)) => match self.collection.set_path(
                ix,
                path,
            ) {
                Ok(_) => {
                    self.phase = Phase::AwaitingAction;
                    Ok(Request::ChooseAction)
                },
                Err(err) => {
                    self.phase = Phase::Terminated;
                    Err(err)
                },
            },
            (Phase::ChoosingToggle, Event::ToggleChosen(i)) => {
                let n = self.collection.len();
                if i == n {
                    self.phase = Phase::AwaitingAction;
                    Ok(Request::ChooseAction)
                } else {
                    let now = match self.collection.toggle(i) {
                        Ok(b) => b,
                        Err(_) => {
                            proof {
                                assert(false);
                            }
                            false
                        },
                    };
                    let name = match display_name(&self.collection.entities[i]) {
                        Ok(nm) => nm,
                        Err(_) => {
                            proof {
                                assert(false);
                            }
                            String::new()
                        },
                    };
                    let mut msg = if now {
                        "Enabled".to_owned()
                    } else {
                        "Disabled".to_owned()
                    };
                    msg.append(" ");
                    msg.append(name.as_str());
                    self.phase = Phase::ActionMenu;
                    Ok(Request::Notice(msg))
                }
            },
            (Phase::ChoosingRemove, Event::RemoveChosen(i)) => {
                let n = self.collection.len();
                if i == n {
                    self.phase = Phase::AwaitingAction;
                    Ok(Request::ChooseAction)
                } else {
                    let l = label_of(&self.collection.entities[i]);
                    self.phase = Phase::ConfirmingRemove(i);
                    Ok(Request::ConfirmRemove(l))
                }
            },
            (Phase::ConfirmingRemove(ix), Event::RemoveAnswer(yes)) => {
                if yes {
                    match self.collection.remove_entity(ix) {
                        Ok(_) => {},
                        Err(_) => {
                            proof {
                                assert(false);
                            }
                        },
                    }
                    self.phase = Phase::Terminated;
                    Ok(Request::Done)
                } else {
                    self.phase = Phase::AwaitingAction;
                    Ok(Request::ChooseAction)
                }
            },
            _ => {
                proof {
                    assert(false);
                }
                Err(CoreError::PromptError)
            },
        }
    }
}

} // verus!
