use vstd::prelude::*;
use vstd::std_specs::convert::FromSpecImpl;

use crate::text::str_equals;

verus! {

/// What closing the main window does.
#[derive(Debug, Clone, Copy, PartialEq, Eq, Structural)]
pub enum CloseBehavior {
    /// Ask the user each time.
    Ask,
    /// Hide the window; the application keeps running in the tray.
    MinimizeToTray,
    /// Quit the application.
    Close,
}

impl Default for CloseBehavior {
    fn default() -> (r: Self)
        ensures
            r == CloseBehavior::Ask,
    {
        CloseBehavior::Ask
    }
}

/// The answer that the user gives when asked what closing the window does.
#[derive(Debug, Clone, Copy, PartialEq, Eq, Structural)]
pub enum CloseDecision {
    MinimizeToTray,
    Close,
}

/// The close behavior that a decision stands for, when it is remembered.
pub open spec fn behavior_of(decision: CloseDecision) -> CloseBehavior {
    match decision {
        CloseDecision::MinimizeToTray => CloseBehavior::MinimizeToTray,
        CloseDecision::Close => CloseBehavior::Close,
    }
}

impl From<CloseDecision> for CloseBehavior {
    fn from(value: CloseDecision) -> (r: Self) {
        match value {
            CloseDecision::MinimizeToTray => CloseBehavior::MinimizeToTray,
            CloseDecision::Close => CloseBehavior::Close,
        }
    }
}

impl FromSpecImpl<CloseDecision> for CloseBehavior {
    open spec fn obeys_from_spec() -> bool {
        true
    }

    open spec fn from_spec(v: CloseDecision) -> CloseBehavior {
        behavior_of(v)
    }
}

/// The persisted settings of the desktop shell.
#[derive(Debug, Clone, Copy, PartialEq, Eq, Structural)]
pub struct DesktopShellConfig {
    pub close_behavior: CloseBehavior,
}

impl Default for DesktopShellConfig {
    fn default() -> (r: Self)
        ensures
            r.close_behavior == CloseBehavior::Ask,
    {
        DesktopShellConfig { close_behavior: CloseBehavior::Ask }
    }
}

/// What the shell does about a request to close the main window.
#[derive(Debug, Clone, Copy, PartialEq, Eq, Structural)]
pub enum CloseAction {
    /// Nothing: the application is exiting already, or the user is being asked.
    Nothing,
    /// Ask the user what to do (the prompt is now marked open).
    EmitPrompt,
    /// Hide the main window into the tray.
    HideToTray,
    /// Quit the application (it is now marked as exiting).
    Exit,
}

/// The state of the shell that its decisions depend on.
#[derive(Debug, Clone, Copy, PartialEq, Eq, Structural)]
pub struct ShellView {
    pub close_behavior: CloseBehavior,
    pub close_prompt_open: bool,
    pub exiting: bool,
}

impl ShellView {
    /// Marks the close prompt open.
    pub open spec fn with_prompt_open(self) -> ShellView {
        ShellView { close_prompt_open: true, ..self }
    }

    /// Marks the close prompt closed.
    pub open spec fn with_prompt_closed(self) -> ShellView {
        ShellView { close_prompt_open: false, ..self }
    }

    /// Marks the application as exiting; no prompt stays open.
    pub open spec fn exited(self) -> ShellView {
        ShellView { close_prompt_open: false, exiting: true, ..self }
    }

    /// Sets the close behavior.
    pub open spec fn with_behavior(self, behavior: CloseBehavior) -> ShellView {
        ShellView { close_behavior: behavior, ..self }
    }

    /// What a request to close the main window does.
    pub open spec fn close_request_action(self) -> CloseAction {
        if self.exiting {
            CloseAction::Nothing
        } else {
            match self.close_behavior {
                CloseBehavior::Ask => if self.close_prompt_open {
                    CloseAction::Nothing
                } else {
                    CloseAction::EmitPrompt
                },
                CloseBehavior::MinimizeToTray => CloseAction::HideToTray,
                CloseBehavior::Close => CloseAction::Exit,
            }
        }
    }

    /// The state after a request to close the main window.
    pub open spec fn after_close_request(self) -> ShellView {
        match self.close_request_action() {
            CloseAction::EmitPrompt => self.with_prompt_open(),
            CloseAction::Exit => self.exited(),
            _ => self,
        }
    }

    /// The state after the user answered the close prompt: the prompt is
    /// closed, and the answer becomes the close behavior where it is to be
    /// remembered.
    pub open spec fn after_resolve(self, decision: CloseDecision, remember: bool) -> ShellView {
        if remember {
            self.with_prompt_closed().with_behavior(behavior_of(decision))
        } else {
            self.with_prompt_closed()
        }
    }

    /// The state after the answer was carried out.
    pub open spec fn after_decision(self, decision: CloseDecision) -> ShellView {
        match decision {
            CloseDecision::MinimizeToTray => self,
            CloseDecision::Close => self.exited(),
        }
    }
}

/// What carrying out an answer to the close prompt does.
pub open spec fn decision_action(decision: CloseDecision) -> CloseAction {
    match decision {
        CloseDecision::MinimizeToTray => CloseAction::HideToTray,
        CloseDecision::Close => CloseAction::Exit,
    }
}

/// The state of the desktop shell: where its settings are kept (`P`, a
/// path), the close behavior, whether the close prompt is open, and whether
/// the application is exiting.
pub struct DesktopShellState<P> {
    config_path: Option<P>,
    close_behavior: CloseBehavior,
    close_prompt_open: bool,
    exiting: bool,
}

impl<P> View for DesktopShellState<P> {
    type V = ShellView;

    closed spec fn view(&self) -> ShellView {
        ShellView {
            close_behavior: self.close_behavior,
            close_prompt_open: self.close_prompt_open,
            exiting: self.exiting,
        }
    }
}

impl<P> DesktopShellState<P> {
    /// Where the settings are kept, if that is known.
    pub closed spec fn spec_config_path(&self) -> Option<P> {
        self.config_path
    }

    /// The shell state at startup: the close behavior that was loaded from
    /// the settings, or `Ask` where none was; no prompt open; not exiting.
    pub fn new(config_path: Option<P>, loaded: Option<DesktopShellConfig>) -> (state: Self)
        ensures
            state@ == (ShellView {
                close_behavior: match loaded {
                    Some(config) => config.close_behavior,
                    None => CloseBehavior::Ask,
                },
                close_prompt_open: false,
                exiting: false,
            }),
            state.spec_config_path() == config_path,
    {
        let close_behavior = match loaded {
            Some(config) => config.close_behavior,
            None => CloseBehavior::Ask,
        };
        DesktopShellState { config_path, close_behavior, close_prompt_open: false, exiting: false }
    }

    /// Where the settings are kept, if that is known.
    pub fn config_path(&self) -> (path: Option<&P>)
        ensures
            path is Some <==> self.spec_config_path() is Some,
            path is Some ==> *path->0 == self.spec_config_path()->0,
    {
        match &self.config_path {
            Some(p) => Some(p),
            None => None,
        }
    }

    /// The current close behavior.
    pub fn close_behavior(&self) -> (behavior: CloseBehavior)
        ensures
            behavior == self@.close_behavior,
    {
        self.close_behavior
    }

    /// Sets the close behavior.  Returns the settings to write where the
    /// settings have a known place, and none where they are not kept.
    pub fn update_close_behavior(&mut self, behavior: CloseBehavior) -> (to_save: Option<DesktopShellConfig>)
        ensures
            final(self)@ == old(self)@.with_behavior(behavior),
            final(self).spec_config_path() == old(self).spec_config_path(),
            to_save == (if old(self).spec_config_path() is Some {
                Some(DesktopShellConfig { close_behavior: behavior })
            } else {
                None
            }),
    {
        self.close_behavior = behavior;
        if self.config_path.is_some() {
            Some(DesktopShellConfig { close_behavior: behavior })
        } else {
            None
        }
    }

    /// Marks the close prompt open.  Returns whether it was closed before:
    /// only then may the prompt be shown.
    pub fn begin_close_prompt(&mut self) -> (opened: bool)
        ensures
            opened == !old(self)@.close_prompt_open,
            final(self)@ == old(self)@.with_prompt_open(),
            final(self).spec_config_path() == old(self).spec_config_path(),
    {
        let was_open = self.close_prompt_open;
        self.close_prompt_open = true;
        !was_open
    }

    /// Marks the close prompt closed.
    pub fn clear_close_prompt(&mut self)
        ensures
            final(self)@ == old(self)@.with_prompt_closed(),
            final(self).spec_config_path() == old(self).spec_config_path(),
    {
        self.close_prompt_open = false;
    }

    /// Marks the application as exiting, and the close prompt closed.
    pub fn mark_exiting(&mut self)
        ensures
            final(self)@ == old(self)@.exited(),
            final(self).spec_config_path() == old(self).spec_config_path(),
    {
        self.clear_close_prompt();
        self.exiting = true;
    }

    /// Whether the application is exiting.
    pub fn is_exiting(&self) -> (exiting: bool)
        ensures
            exiting == self@.exiting,
    {
        self.exiting
    }

    /// Decides what a request to close the main window does: nothing while
    /// exiting; otherwise by the close behavior, where `Ask` shows the prompt
    /// unless it is open already and `Close` marks the application as exiting.
    pub fn handle_close_request(&mut self) -> (action: CloseAction)
        ensures
            action == old(self)@.close_request_action(),
            final(self)@ == old(self)@.after_close_request(),
            final(self).spec_config_path() == old(self).spec_config_path(),
    {
        if self.is_exiting() {
            return CloseAction::Nothing;
        }
        match self.close_behavior() {
            CloseBehavior::Ask => {
                if self.begin_close_prompt() {
                    CloseAction::EmitPrompt
                } else {
                    CloseAction::Nothing
                }
            },
            CloseBehavior::MinimizeToTray => CloseAction::HideToTray,
            CloseBehavior::Close => {
                self.mark_exiting();
                CloseAction::Exit
            },
        }
    }

    /// Takes the user's answer to the close prompt: closes the prompt, and
    /// where the answer is to be remembered makes it the close behavior.
    /// Returns the settings to write, as `update_close_behavior` does; the
    /// answer is carried out by `apply_close_decision` once they are written.
    pub fn resolve_close_request(&mut self, decision: CloseDecision, remember: bool) -> (to_save: Option<DesktopShellConfig>)
        ensures
            final(self)@ == old(self)@.after_resolve(decision, remember),
            final(self).spec_config_path() == old(self).spec_config_path(),
            to_save == (if remember && old(self).spec_config_path() is Some {
                Some(DesktopShellConfig { close_behavior: behavior_of(decision) })
            } else {
                None
            }),
    {
        self.clear_close_prompt();
        if remember {
            self.update_close_behavior(CloseBehavior::from(decision))
        } else {
            None
        }
    }

    /// Carries out an answer to the close prompt: hide the window, or quit
    /// (marking the application as exiting).
    pub fn apply_close_decision(&mut self, decision: CloseDecision) -> (action: CloseAction)
        ensures
            action == decision_action(decision),
            final(self)@ == old(self)@.after_decision(decision),
            final(self).spec_config_path() == old(self).spec_config_path(),
    {
        match decision {
            CloseDecision::MinimizeToTray => CloseAction::HideToTray,
            CloseDecision::Close => {
                self.mark_exiting();
                CloseAction::Exit
            },
        }
    }
}

/// A close request that shows the prompt is not answered by a second prompt:
/// until the prompt is dismissed or answered, further close requests do
/// nothing and change nothing.
pub proof fn law_close_prompt_shown_once(v: ShellView)
    requires
        v.close_request_action() == CloseAction::EmitPrompt,
    ensures
        v.after_close_request().close_request_action() == CloseAction::Nothing,
        v.after_close_request().after_close_request() == v.after_close_request(),
{
}

/// Once the prompt is dismissed, the next close request asks again, where the
/// behavior is still `Ask` and the application is not exiting.
pub proof fn law_dismissed_prompt_asks_again(v: ShellView)
    requires
        !v.exiting,
        v.close_behavior == CloseBehavior::Ask,
    ensures
        v.with_prompt_closed().close_request_action() == CloseAction::EmitPrompt,
{
}

/// A close request while not exiting follows the close behavior: `Ask`
/// shows the prompt once (marking it open), `MinimizeToTray` hides the
/// window and changes nothing, and `Close` quits and marks the application
/// as exiting with no prompt open.  The behavior is never changed by a close
/// request.
pub proof fn law_close_request_by_behavior(v: ShellView)
    requires
        !v.exiting,
    ensures
        v.after_close_request().close_behavior == v.close_behavior,
        v.close_behavior == CloseBehavior::Ask && !v.close_prompt_open ==> v.close_request_action()
            == CloseAction::EmitPrompt && v.after_close_request().close_prompt_open
            && !v.after_close_request().exiting,
        v.close_behavior == CloseBehavior::Ask && v.close_prompt_open ==> v.close_request_action()
            == CloseAction::Nothing && v.after_close_request() == v,
        v.close_behavior == CloseBehavior::MinimizeToTray ==> v.close_request_action()
            == CloseAction::HideToTray && v.after_close_request() == v,
        v.close_behavior == CloseBehavior::Close ==> v.close_request_action() == CloseAction::Exit
            && v.after_close_request().exiting && !v.after_close_request().close_prompt_open,
{
}

/// Once the application is exiting it stays so: close requests do nothing and
/// change nothing, and no operation of the shell clears the mark.
pub proof fn law_exiting_is_final(v: ShellView, behavior: CloseBehavior, decision: CloseDecision, remember: bool)
    requires
        v.exiting,
    ensures
        v.close_request_action() == CloseAction::Nothing,
        v.after_close_request() == v,
        v.with_prompt_open().exiting,
        v.with_prompt_closed().exiting,
        v.with_behavior(behavior).exiting,
        v.after_resolve(decision, remember).exiting,
        v.after_decision(decision).exiting,
        v.exited().exiting,
{
}

/// A remembered answer becomes the close behavior: after "minimize to tray"
/// was chosen and remembered, every later close request hides the window
/// without asking; after "close" was, the application exits.
pub proof fn law_remembered_decision_applies(v: ShellView, decision: CloseDecision)
    requires
        !v.exiting,
    ensures
        v.after_resolve(decision, true).close_behavior == behavior_of(decision),
        v.after_resolve(decision, true).after_decision(decision).exiting == (decision
            == CloseDecision::Close),
        decision == CloseDecision::MinimizeToTray ==> v.after_resolve(decision, true).after_decision(
            decision,
        ).close_request_action() == CloseAction::HideToTray,
        decision == CloseDecision::MinimizeToTray ==> v.after_resolve(decision, true).after_decision(
            decision,
        ).after_close_request().close_request_action() == CloseAction::HideToTray,
{
}

/// An answer that is not remembered leaves the close behavior as it was.
pub proof fn law_unremembered_decision_keeps_behavior(v: ShellView, decision: CloseDecision)
    ensures
        v.after_resolve(decision, false).close_behavior == v.close_behavior,
        !v.after_resolve(decision, false).close_prompt_open,
{
}

/// Once the user's answer is taken, remembered or not, no close prompt is
/// open: after a remembered "minimize to tray" and a later reset to `Ask`
/// from the tray, the next close request asks again.
pub proof fn law_answer_closes_prompt(v: ShellView, decision: CloseDecision, remember: bool)
    ensures
        !v.after_resolve(decision, remember).close_prompt_open,
        !v.exiting ==> v.after_resolve(CloseDecision::MinimizeToTray, true).after_decision(
            CloseDecision::MinimizeToTray,
        ).with_behavior(CloseBehavior::Ask).close_request_action() == CloseAction::EmitPrompt,
{
}

/// Resetting the close behavior to `Ask` (from the tray menu) makes the next
/// close request ask again, where no prompt is open and the application is
/// not exiting; and a behavior that was set is the one read back.
pub proof fn law_reset_asks_again(v: ShellView, behavior: CloseBehavior)
    requires
        !v.exiting,
        !v.close_prompt_open,
    ensures
        v.with_behavior(CloseBehavior::Ask).close_request_action() == CloseAction::EmitPrompt,
        v.with_behavior(behavior).close_behavior == behavior,
{
}

/// The id of the tray menu item that shows the main window.
pub const TRAY_SHOW_ID: &'static str = "tray_show_main";

/// The id of the tray menu item that makes closing the window ask again.
pub const TRAY_RESET_CLOSE_ID: &'static str = "tray_reset_close_behavior";

/// The id of the tray menu item that quits the application.
pub const TRAY_QUIT_ID: &'static str = "tray_quit";

/// What a tray menu item does.
#[derive(Debug, Clone, Copy, PartialEq, Eq, Structural)]
pub enum TrayMenuAction {
    /// Show and focus the main window.
    ShowMainWindow,
    /// Set the close behavior back to `Ask`.
    ResetCloseBehavior,
    /// Quit the application.
    Quit,
}

/// The action of the tray menu item with this id, if it is one of the
/// shell's items.
pub open spec fn spec_tray_menu_action(id: Seq<char>) -> Option<TrayMenuAction> {
    if id == TRAY_SHOW_ID@ {
        Some(TrayMenuAction::ShowMainWindow)
    } else if id == TRAY_RESET_CLOSE_ID@ {
        Some(TrayMenuAction::ResetCloseBehavior)
    } else if id == TRAY_QUIT_ID@ {
        Some(TrayMenuAction::Quit)
    } else {
        None
    }
}

/// Each of the three tray items does its own action, and any other id does
/// nothing: the ids are told apart exactly.
pub proof fn law_tray_menu_ids(id: Seq<char>)
    ensures
        spec_tray_menu_action(TRAY_SHOW_ID@) == Some(TrayMenuAction::ShowMainWindow),
        spec_tray_menu_action(TRAY_RESET_CLOSE_ID@) == Some(TrayMenuAction::ResetCloseBehavior),
        spec_tray_menu_action(TRAY_QUIT_ID@) == Some(TrayMenuAction::Quit),
        id != TRAY_SHOW_ID@ && id != TRAY_RESET_CLOSE_ID@ && id != TRAY_QUIT_ID@ ==> spec_tray_menu_action(id)
            is None,
        spec_tray_menu_action(id) == Some(TrayMenuAction::ShowMainWindow) ==> id == TRAY_SHOW_ID@,
        spec_tray_menu_action(id) == Some(TrayMenuAction::ResetCloseBehavior) ==> id == TRAY_RESET_CLOSE_ID@,
        spec_tray_menu_action(id) == Some(TrayMenuAction::Quit) ==> id == TRAY_QUIT_ID@,
{
    reveal_strlit("tray_show_main");
    reveal_strlit("tray_reset_close_behavior");
    reveal_strlit("tray_quit");
    assert(TRAY_SHOW_ID@.len() != TRAY_RESET_CLOSE_ID@.len());
    assert(TRAY_SHOW_ID@.len() != TRAY_QUIT_ID@.len());
    assert(TRAY_RESET_CLOSE_ID@.len() != TRAY_QUIT_ID@.len());
}

/// Looks up what the tray menu item with this id does.
pub fn tray_menu_action(id: &str) -> (action: Option<TrayMenuAction>)
    ensures
        action == spec_tray_menu_action(id@),
{
    if str_equals(id, TRAY_SHOW_ID) {
        Some(TrayMenuAction::ShowMainWindow)
    } else if str_equals(id, TRAY_RESET_CLOSE_ID) {
        Some(TrayMenuAction::ResetCloseBehavior)
    } else if str_equals(id, TRAY_QUIT_ID) {
        Some(TrayMenuAction::Quit)
    } else {
        None
    }
}

/// The one-shot signal that stops the local HTTP server.
pub struct HttpServerShutdown<S> {
    sender: Option<S>,
}

impl<S> View for HttpServerShutdown<S> {
    type V = Option<S>;

    closed spec fn view(&self) -> Option<S> {
        self.sender
    }
}

impl<S> HttpServerShutdown<S> {
    /// Holds the sending end of the shutdown signal.
    pub fn new(sender: S) -> (shutdown: Self)
        ensures
            shutdown@ == Some(sender),
    {
        HttpServerShutdown { sender: Some(sender) }
    }

    /// Hands out the sending end the first time, to be fired; afterwards none.
    pub fn shutdown(&mut self) -> (sender: Option<S>)
        ensures
            sender == old(self)@,
            final(self)@ is None,
    {
        self.sender.take()
    }
}

} // verus!
