//! The entries of the engine menu.

use vstd::prelude::*;

verus! {

pub const OPEN_BROWSER: &'static str = "open-browser";

pub const RESTART_ENGINE: &'static str = "restart-engine";

pub const STOP_ENGINE: &'static str = "stop-engine";

/// What a chosen menu entry asks for.
#[derive(Debug)]
pub enum MenuAction {
    /// Open the engine's address in the user's browser.
    OpenExternal(String),
    Restart,
    Stop,
    Nothing,
}

/// Decides on the menu entry `id`, when the engine was last ready at `url`.
pub fn on_menu_event(id: &str, url: Option<String>) -> (action: MenuAction)
    ensures
        id@ == OPEN_BROWSER@ && url is Some ==> action == MenuAction::OpenExternal(url->0),
        id@ == OPEN_BROWSER@ && url is None ==> action == MenuAction::Nothing,
        id@ == RESTART_ENGINE@ ==> action == MenuAction::Restart,
        id@ == STOP_ENGINE@ ==> action == MenuAction::Stop,
        id@ != OPEN_BROWSER@ && id@ != RESTART_ENGINE@ && id@ != STOP_ENGINE@ ==> action
            == MenuAction::Nothing,
{
    proof {
        reveal_strlit("open-browser");
        reveal_strlit("restart-engine");
        reveal_strlit("stop-engine");
        assert("open-browser"@[0] == 'o' && "restart-engine"@[0] == 'r' && "stop-engine"@[0]
            == 's');
    }
    let id = String::from_str(id);
    if id == String::from_str(OPEN_BROWSER) {
        match url {
            Some(url) => MenuAction::OpenExternal(url),
            None => MenuAction::Nothing,
        }
    } else if id == String::from_str(RESTART_ENGINE) {
        MenuAction::Restart
    } else if id == String::from_str(STOP_ENGINE) {
        MenuAction::Stop
    } else {
        MenuAction::Nothing
    }
}

} // verus!
