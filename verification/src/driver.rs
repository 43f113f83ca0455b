//! The driver's side of the coordination: what the user interface knows of
//! the worker, brought up to date from what the worker sent, and the rule
//! that decides whether a command may be issued.

use crate::process::{command_view, MiuchizProcess, ProcessView};
use vstd::prelude::*;
use vstd::string::*;

verus! {

/// The task the user interface shows.
#[derive(Clone, Copy, Debug, PartialEq, Eq, Structural)]
pub enum MiuchizAppTab {
    DumpView,
    FlashView,
}

impl Default for MiuchizAppTab {
    fn default() -> (tab: MiuchizAppTab)
        ensures
            tab == MiuchizAppTab::DumpView,
    {
        MiuchizAppTab::DumpView
    }
}

/// What the driver knows: the latest of everything the worker sent, and
/// what the user selected.
pub struct MiuchizApp {
    pub app_tab: MiuchizAppTab,
    /// The connected handhelds, as last enumerated.
    pub handheld_list: Vec<String>,
    pub selected_handheld: Option<String>,
    pub selected_load_file: Option<String>,
    /// The latest status line.
    pub text: String,
    /// The operation the worker last said it was about to execute.
    pub processing_state: MiuchizProcess,
    /// The latest progress of the current operation: pages done, of how many.
    pub progress_amount: Option<(u32, u32)>,
}

/// The state of a [`MiuchizApp`].
pub struct MiuchizAppView {
    pub app_tab: MiuchizAppTab,
    pub handheld_list: Seq<Seq<char>>,
    pub selected_handheld: Option<Seq<char>>,
    pub selected_load_file: Option<Seq<char>>,
    pub text: Seq<char>,
    pub processing_state: ProcessView,
    pub progress_amount: Option<(u32, u32)>,
}

/// The view of a text that may be absent.
pub open spec fn text_view(text: Option<String>) -> Option<Seq<char>> {
    match text {
        Some(text) => Some(text@),
        None => None,
    }
}

/// The view of a handheld list that may be absent.
pub open spec fn list_view(list: Option<Vec<String>>) -> Option<Seq<Seq<char>>> {
    match list {
        Some(list) => Some(list.deep_view()),
        None => None,
    }
}

impl View for MiuchizApp {
    type V = MiuchizAppView;

    open spec fn view(&self) -> MiuchizAppView {
        MiuchizAppView {
            app_tab: self.app_tab,
            handheld_list: self.handheld_list.deep_view(),
            selected_handheld: text_view(self.selected_handheld),
            selected_load_file: text_view(self.selected_load_file),
            text: self.text@,
            processing_state: self.processing_state@,
            progress_amount: self.progress_amount,
        }
    }
}

impl MiuchizAppView {
    /// The state after the driver took in what it received: each value that
    /// arrived replaces the one shown before, and a selected handheld that
    /// the current list no longer holds is deselected.
    pub open spec fn updated(
        self,
        list: Option<Seq<Seq<char>>>,
        state: Option<ProcessView>,
        progress: Option<(u32, u32)>,
        text: Option<Seq<char>>,
    ) -> MiuchizAppView {
        let handheld_list = match list {
            Some(list) => list,
            None => self.handheld_list,
        };
        MiuchizAppView {
            app_tab: self.app_tab,
            handheld_list,
            selected_handheld: match self.selected_handheld {
                Some(selected) => if handheld_list.contains(selected) {
                    Some(selected)
                } else {
                    None
                },
                None => None,
            },
            selected_load_file: self.selected_load_file,
            text: match text {
                Some(text) => text,
                None => self.text,
            },
            processing_state: match state {
                Some(state) => state,
                None => self.processing_state,
            },
            progress_amount: match progress {
                Some(progress) => Some(progress),
                None => self.progress_amount,
            },
        }
    }

    /// Whether the driver may issue a command: only while the worker was
    /// last seen idle.
    pub open spec fn accepts_commands(self) -> bool {
        self.processing_state is WatchingForHandhelds
    }

    /// The state after the driver issued a command: the progress of the
    /// operation before it is cleared.
    pub open spec fn cleared(self) -> MiuchizAppView {
        MiuchizAppView { progress_amount: None, ..self }
    }
}

impl MiuchizApp {
    /// The driver's state at start: nothing is known of any handheld, the
    /// worker counts as idle and the status line reads "OK".
    pub fn new() -> (app: MiuchizApp)
        ensures
            app@ == (MiuchizAppView {
                app_tab: MiuchizAppTab::DumpView,
                handheld_list: Seq::empty(),
                selected_handheld: None,
                selected_load_file: None,
                text: "OK"@,
                processing_state: ProcessView::WatchingForHandhelds,
                progress_amount: None,
            }),
    {
        let app = MiuchizApp {
            app_tab: MiuchizAppTab::DumpView,
            handheld_list: Vec::new(),
            selected_handheld: None,
            selected_load_file: None,
            text: String::from_str("OK"),
            processing_state: MiuchizProcess::WatchingForHandhelds,
            progress_amount: None,
        };
        assert(app.handheld_list.deep_view() =~= Seq::<Seq<char>>::empty());
        app
    }

    /// Whether the list of connected handhelds holds the identifier.
    pub fn is_connected(&self, path: &String) -> (connected: bool)
        ensures
            connected == self@.handheld_list.contains(path@),
    {
        let mut i: usize = 0;
        while i < self.handheld_list.len()
            invariant
                i <= self.handheld_list.len(),
                forall|k: int| 0 <= k < i ==> self@.handheld_list[k] != path@,
            decreases self.handheld_list.len() - i,
        {
            assert(self@.handheld_list[i as int] == self.handheld_list[i as int]@);
            if self.handheld_list[i] == *path {
                return true;
            }
            i = i + 1;
        }
        false
    }

    /// Takes in what was received from the worker since the last call: the
    /// latest list of handhelds, operation, progress and status line, each
    /// absent when nothing arrived.
    pub fn update_messages(
        &mut self,
        list: Option<Vec<String>>,
        state: Option<MiuchizProcess>,
        progress: Option<(u32, u32)>,
        text: Option<String>,
    )
        ensures
            final(self)@ == old(self)@.updated(
                list_view(list),
                command_view(state),
                progress,
                text_view(text),
            ),
    {
        if let Some(message) = list {
            self.handheld_list = message;
        }
        let still_valid: bool = match &self.selected_handheld {
            Some(selected) => self.is_connected(selected),
            None => true,
        };
        if !still_valid {
            self.selected_handheld = None;
        }
        if let Some(state) = state {
            self.processing_state = state;
        }
        if let Some(progress) = progress {
            self.progress_amount = Some(progress);
        }
        if let Some(text) = text {
            self.text = text;
        }
    }

    /// Decides whether a command may be issued now. While the worker was
    /// last seen idle the command is handed back for posting and the shown
    /// progress is cleared; otherwise the command is dropped and nothing
    /// changes.
    pub fn try_set_state(&mut self, process: MiuchizProcess) -> (command: Option<MiuchizProcess>)
        ensures
            old(self)@.accepts_commands() ==> final(self)@ == old(self)@.cleared() && command_view(
                command,
            ) == Some(process@),
            !old(self)@.accepts_commands() ==> final(self)@ == old(self)@ && command is None,
    {
        if self.processing_state.is_watching() {
            self.progress_amount = None;
            Some(process)
        } else {
            None
        }
    }
}

} // verus!
