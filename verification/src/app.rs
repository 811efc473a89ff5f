//! The browsing session: which view is shown, which bundle is selected, and
//! how user actions move between them.

use vstd::prelude::*;
use vstd::view::View as _;
use crate::config::{entries_view, DotfileEntry, Entry};
use crate::installer::InstallResult;

verus! {

/// The screens of a session.
#[derive(Debug, Clone, Copy, PartialEq, Eq, Structural)]
pub enum View {
    Home,
    Browse,
    Preview,
    Installing,
}

/// A key, as far as the bindings tell keys apart.
#[derive(Debug, Clone, Copy, PartialEq, Eq, Structural)]
pub enum Key {
    Char(char),
    Esc,
    Enter,
    Up,
    Down,
    Other,
}

/// What a user can ask of a session.
#[derive(Debug, Clone, Copy, PartialEq, Eq, Structural)]
pub enum Action {
    /// End the session.
    Quit,
    /// Go from the home screen to the list of bundles.
    Browse,
    /// Go back one level.
    Back,
    /// Select the next bundle of the list.
    Next,
    /// Select the previous bundle of the list.
    Previous,
    /// Open the preview of the selected bundle.
    Open,
    /// Install the selected bundle.
    Install,
}

/// The state of a session.
pub struct App {
    pub view: View,
    pub dotfiles: Vec<DotfileEntry>,
    pub selected_index: usize,
    pub should_quit: bool,
    pub install_output: Option<String>,
    pub install_success: bool,
}

/// The mathematical value of an [`App`].
pub struct Session {
    pub view: View,
    pub dotfiles: Seq<Entry>,
    pub selected_index: nat,
    pub should_quit: bool,
    pub install_output: Option<Seq<char>>,
    pub install_success: bool,
}

/// The view that "back" leads to.
pub open spec fn parent(view: View) -> View {
    match view {
        View::Home => View::Home,
        View::Browse => View::Home,
        View::Preview => View::Browse,
        View::Installing => View::Preview,
    }
}

/// The index after `index` in a list of `len` items, the first after the
/// last.
pub open spec fn next_index(index: nat, len: nat) -> nat
    recommends
        len > 0,
{
    (index + 1) % (len as int) as nat
}

/// The index before `index` in a list of `len` items, the last before the
/// first.
pub open spec fn previous_index(index: nat, len: nat) -> nat
    recommends
        len > 0,
{
    if index == 0 {
        (len - 1) as nat
    } else {
        (index - 1) as nat
    }
}

/// The action that a key stands for in a view, if it stands for one.
pub open spec fn binding(view: View, key: Key) -> Option<Action> {
    match view {
        View::Home => match key {
            Key::Char('q') | Key::Esc => Some(Action::Quit),
            Key::Char('b') => Some(Action::Browse),
            _ => None,
        },
        View::Browse => match key {
            Key::Char('q') => Some(Action::Quit),
            Key::Esc | Key::Char('b') => Some(Action::Back),
            Key::Down | Key::Char('j') => Some(Action::Next),
            Key::Up | Key::Char('k') => Some(Action::Previous),
            Key::Char('i') => Some(Action::Install),
            Key::Enter => Some(Action::Open),
            _ => None,
        },
        View::Preview => match key {
            Key::Char('q') => Some(Action::Quit),
            Key::Esc => Some(Action::Back),
            Key::Char('i') | Key::Enter => Some(Action::Install),
            _ => None,
        },
        View::Installing => match key {
            Key::Char('q') => Some(Action::Quit),
            Key::Esc | Key::Enter => Some(Action::Back),
            _ => None,
        },
    }
}

impl Session {
    /// Whether a bundle is selected: the cursor lies within the list.
    pub open spec fn has_selection(self) -> bool {
        self.selected_index < self.dotfiles.len()
    }

    /// The session with the next bundle selected; unchanged where there is
    /// no bundle.
    pub open spec fn next_item(self) -> Session {
        if self.dotfiles.len() == 0 {
            self
        } else {
            Session { selected_index: next_index(self.selected_index, self.dotfiles.len()), ..self }
        }
    }

    /// The session with the previous bundle selected; unchanged where there
    /// is no bundle.
    pub open spec fn previous_item(self) -> Session {
        if self.dotfiles.len() == 0 {
            self
        } else {
            Session {
                selected_index: previous_index(self.selected_index, self.dotfiles.len()),
                ..self
            }
        }
    }

    /// The session one level back.
    pub open spec fn go_back(self) -> Session {
        Session { view: parent(self.view), ..self }
    }

    /// The session after an installation of the selected bundle came to
    /// `success` and `output`; unchanged where no bundle is selected.
    pub open spec fn installed(self, success: bool, output: Seq<char>) -> Session {
        if self.has_selection() {
            Session {
                view: View::Installing,
                install_output: Some(output),
                install_success: success,
                ..self
            }
        } else {
            self
        }
    }

    /// Whether `action` asks for the selected bundle to be installed: the
    /// install action, in the list or in the preview, with a bundle selected.
    pub open spec fn asks_install(self, action: Action) -> bool {
        action == Action::Install && (self.view == View::Browse || self.view == View::Preview)
            && self.has_selection()
    }

    /// The session after `action`. Installing changes nothing by itself: the
    /// change comes with the result, by [`Session::installed`].
    pub open spec fn apply(self, action: Action) -> Session {
        match action {
            Action::Quit => Session { should_quit: true, ..self },
            Action::Browse => if self.view == View::Home {
                Session { view: View::Browse, ..self }
            } else {
                self
            },
            Action::Back => self.go_back(),
            Action::Next => if self.view == View::Browse {
                self.next_item()
            } else {
                self
            },
            Action::Previous => if self.view == View::Browse {
                self.previous_item()
            } else {
                self
            },
            Action::Open => if self.view == View::Browse && self.dotfiles.len() > 0 {
                Session { view: View::Preview, ..self }
            } else {
                self
            },
            Action::Install => self,
        }
    }
}

/// The characters of an optional string.
pub open spec fn output_view(output: Option<String>) -> Option<Seq<char>> {
    match output {
        Some(s) => Some(s@),
        None => None,
    }
}

impl vstd::view::View for App {
    type V = Session;

    open spec fn view(&self) -> Session {
        Session {
            view: self.view,
            dotfiles: entries_view(self.dotfiles@),
            selected_index: self.selected_index as nat,
            should_quit: self.should_quit,
            install_output: output_view(self.install_output),
            install_success: self.install_success,
        }
    }
}

/// The action that `key` stands for in `view`.
pub fn key_action(view: View, key: Key) -> (action: Option<Action>)
    ensures
        action == binding(view, key),
{
    match view {
        View::Home => match key {
            Key::Char('q') | Key::Esc => Some(Action::Quit),
            Key::Char('b') => Some(Action::Browse),
            _ => None,
        },
        View::Browse => match key {
            Key::Char('q') => Some(Action::Quit),
            Key::Esc | Key::Char('b') => Some(Action::Back),
            Key::Down | Key::Char('j') => Some(Action::Next),
            Key::Up | Key::Char('k') => Some(Action::Previous),
            Key::Char('i') => Some(Action::Install),
            Key::Enter => Some(Action::Open),
            _ => None,
        },
        View::Preview => match key {
            Key::Char('q') => Some(Action::Quit),
            Key::Esc => Some(Action::Back),
            Key::Char('i') | Key::Enter => Some(Action::Install),
            _ => None,
        },
        View::Installing => match key {
            Key::Char('q') => Some(Action::Quit),
            Key::Esc | Key::Enter => Some(Action::Back),
            _ => None,
        },
    }
}

impl App {
    /// A session over the bundles that a scan found: on the home screen, with
    /// the first bundle selected and nothing installed yet.
    pub fn new(dotfiles: Vec<DotfileEntry>) -> (app: App)
        ensures
            app.dotfiles == dotfiles,
            app@ == (Session {
                view: View::Home,
                dotfiles: entries_view(dotfiles@),
                selected_index: 0,
                should_quit: false,
                install_output: None,
                install_success: false,
            }),
    {
        App {
            view: View::Home,
            dotfiles,
            selected_index: 0,
            should_quit: false,
            install_output: None,
            install_success: false,
        }
    }

    /// Selects the next bundle, the first after the last.
    pub fn next_item(&mut self)
        ensures
            final(self).dotfiles == old(self).dotfiles,
            final(self)@ == old(self)@.next_item(),
    {
        let len = self.dotfiles.len();
        if len > 0 {
            let index = self.selected_index;
            if index < usize::MAX {
                self.selected_index = (index + 1) % len;
            } else {
                proof {
                    lemma_step_modulo(index as int, len as int);
                }
                self.selected_index = (index % len + 1) % len;
            }
        }
    }

    /// Selects the previous bundle, the last before the first.
    pub fn previous_item(&mut self)
        ensures
            final(self).dotfiles == old(self).dotfiles,
            final(self)@ == old(self)@.previous_item(),
    {
        if self.dotfiles.len() > 0 {
            if self.selected_index == 0 {
                self.selected_index = self.dotfiles.len() - 1;
            } else {
                self.selected_index -= 1;
            }
        }
    }

    /// The selected bundle, where the cursor lies within the list.
    pub fn selected_dotfile(&self) -> (selected: Option<&DotfileEntry>)
        ensures
            match selected {
                Some(entry) => self@.has_selection() && *entry == self.dotfiles@[
                    self.selected_index as int
                ],
                None => !self@.has_selection(),
            },
    {
        if self.selected_index < self.dotfiles.len() {
            Some(&self.dotfiles[self.selected_index])
        } else {
            None
        }
    }

    /// Marks the session as over.
    pub fn quit(&mut self)
        ensures
            final(self).dotfiles == old(self).dotfiles,
            final(self)@ == (Session { should_quit: true, ..old(self)@ }),
    {
        self.should_quit = true;
    }

    /// Shows `view`.
    pub fn go_to_view(&mut self, view: View)
        ensures
            final(self).dotfiles == old(self).dotfiles,
            final(self)@ == (Session { view, ..old(self)@ }),
    {
        self.view = view;
    }

    /// Goes back one level: to the parent of the view shown.
    pub fn go_back(&mut self)
        ensures
            final(self).dotfiles == old(self).dotfiles,
            final(self)@ == old(self)@.go_back(),
    {
        self.view = match self.view {
            View::Home => View::Home,
            View::Browse => View::Home,
            View::Preview => View::Browse,
            View::Installing => View::Preview,
        };
    }

    /// Records the result of installing the selected bundle and shows it,
    /// whether the installation succeeded or not. Where no bundle is
    /// selected, nothing changes.
    pub fn install_selected(&mut self, result: InstallResult)
        ensures
            final(self).dotfiles == old(self).dotfiles,
            final(self)@ == old(self)@.installed(result.success, result.output@),
    {
        if self.selected_index < self.dotfiles.len() {
            self.install_output = Some(result.output);
            self.install_success = result.success;
            self.view = View::Installing;
        }
    }

    /// Carries out `action`, and says whether the caller is to install the
    /// selected bundle and hand the result to [`App::install_selected`].
    pub fn apply(&mut self, action: Action) -> (install: bool)
        ensures
            final(self).dotfiles == old(self).dotfiles,
            final(self)@ == old(self)@.apply(action),
            install == old(self)@.asks_install(action),
    {
        match action {
            Action::Quit => {
                self.quit();
                false
            },
            Action::Browse => {
                if self.view == View::Home {
                    self.go_to_view(View::Browse);
                }
                false
            },
            Action::Back => {
                self.go_back();
                false
            },
            Action::Next => {
                if self.view == View::Browse {
                    self.next_item();
                }
                false
            },
            Action::Previous => {
                if self.view == View::Browse {
                    self.previous_item();
                }
                false
            },
            Action::Open => {
                if self.view == View::Browse && self.dotfiles.len() > 0 {
                    self.go_to_view(View::Preview);
                }
                false
            },
            Action::Install => {
                (self.view == View::Browse || self.view == View::Preview) && self.selected_index
                    < self.dotfiles.len()
            },
        }
    }

    /// Handles a key press in the view shown: carries out the action that
    /// the key is bound to, if any, and says whether the caller is to install
    /// the selected bundle.
    pub fn handle_key(&mut self, key: Key) -> (install: bool)
        ensures
            final(self).dotfiles == old(self).dotfiles,
            match binding(old(self).view, key) {
                Some(action) => final(self)@ == old(self)@.apply(action) && install == old(
                    self,
                )@.asks_install(action),
                None => final(self)@ == old(self)@ && !install,
            },
    {
        match key_action(self.view, key) {
            Some(action) => self.apply(action),
            None => false,
        }
    }
}

/// Stepping a remainder forward is stepping the number forward.
proof fn lemma_step_modulo(index: int, len: int)
    requires
        0 <= index,
        0 < len,
    ensures
        (index % len + 1) % len == (index + 1) % len,
{
    vstd::arithmetic::div_mod::lemma_add_mod_noop(index, 1, len);
    vstd::arithmetic::div_mod::lemma_mod_bound(index, len);
    if len == 1 {
    } else {
        vstd::arithmetic::div_mod::lemma_small_mod(1, len as nat);
    }
}

/// From any bundle of a list that is not empty, "next" and then "previous"
/// lead back to it, and so do "previous" and then "next".
pub proof fn lemma_next_previous(session: Session)
    requires
        session.dotfiles.len() > 0,
        session.has_selection(),
    ensures
        session.next_item().previous_item() == session,
        session.previous_item().next_item() == session,
{
    let n = session.dotfiles.len() as int;
    let i = session.selected_index as int;
    if i + 1 < n {
        vstd::arithmetic::div_mod::lemma_small_mod((i + 1) as nat, n as nat);
    } else {
        vstd::arithmetic::div_mod::lemma_mod_self_0(n);
    }
    if i == 0 {
        vstd::arithmetic::div_mod::lemma_mod_self_0(n);
    } else {
        vstd::arithmetic::div_mod::lemma_small_mod(i as nat, n as nat);
    }
}

/// On an empty list, "next" and "previous" change nothing.
pub proof fn lemma_navigation_on_empty(session: Session)
    requires
        session.dotfiles.len() == 0,
    ensures
        session.next_item() == session,
        session.previous_item() == session,
{
}

/// "Back" leads from each view to its parent, and from the home screen
/// nowhere: going back there twice is going back once.
pub proof fn lemma_back(session: Session)
    ensures
        session.go_back().view == parent(session.view),
        session.view == View::Home ==> session.go_back() == session,
        session.view == View::Browse ==> session.go_back().view == View::Home,
        session.view == View::Preview ==> session.go_back().view == View::Browse,
        session.view == View::Installing ==> session.go_back().view == View::Preview,
        session.apply(Action::Back) == session.go_back(),
{
}

} // verus!
