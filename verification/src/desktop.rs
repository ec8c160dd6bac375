//! What the desktop shell decides before it acts: which folder holds the
//! bundled web runtime, and what an entry of the tray menu asks for.

use vstd::prelude::*;
use crate::text::same_text;

verus! {

/// The folder, beside the program, that may hold a bundled web runtime.
pub const RUNTIME_FOLDER: &'static str = "webview2";

/// What the name of a bundled web runtime's folder starts with.
pub const RUNTIME_PREFIX: &'static str = "Microsoft.WebView2.FixedVersionRuntime";

/// The environment variable that tells the web view where its runtime is.
pub const RUNTIME_VARIABLE: &'static str = "WEBVIEW2_BROWSER_EXECUTABLE_FOLDER";

/// The tray menu's entry that shows the window.
pub const MENU_SHOW: &'static str = "show";

/// The tray menu's entry that ends the program.
pub const MENU_QUIT: &'static str = "quit";

/// What a click on the tray menu asks for.
#[derive(Clone, Copy, PartialEq, Eq, Structural, Debug)]
pub enum MenuCommand {
    /// Show the main window and give it the focus.
    Show,
    /// End the program.
    Quit,
    /// Nothing: the entry is not one of the menu's.
    Ignore,
}

/// What the menu entry `id` asks for.
pub open spec fn command_of(id: Seq<char>) -> MenuCommand {
    if id == MENU_SHOW@ {
        MenuCommand::Show
    } else if id == MENU_QUIT@ {
        MenuCommand::Quit
    } else {
        MenuCommand::Ignore
    }
}

/// Whether `name` is the name of a bundled web runtime's folder.
pub open spec fn is_runtime(name: Seq<char>) -> bool {
    RUNTIME_PREFIX@.is_prefix_of(name)
}

/// What the menu entry `id` asks for.
pub fn menu_command(id: &str) -> (r: MenuCommand)
    ensures
        r == command_of(id@),
{
    if same_text(id, MENU_SHOW) {
        MenuCommand::Show
    } else if same_text(id, MENU_QUIT) {
        MenuCommand::Quit
    } else {
        MenuCommand::Ignore
    }
}

/// Whether `text` starts with `prefix`.
pub fn starts_with(text: &str, prefix: &str) -> (r: bool)
    ensures
        r == prefix@.is_prefix_of(text@),
{
    let wanted: usize = prefix.unicode_len();
    if text.unicode_len() < wanted {
        return false;
    }
    let mut i: usize = 0;
    while i < wanted
        invariant
            i <= wanted,
            wanted == prefix@.len(),
            wanted <= text@.len(),
            forall|k: int| 0 <= k < i ==> text@[k] == prefix@[k],
        decreases wanted - i,
    {
        if text.get_char(i) != prefix.get_char(i) {
            assert(text@.subrange(0, wanted as int)[i as int] != prefix@[i as int]);
            return false;
        }
        i = i + 1;
    }
    assert(prefix@ =~= text@.subrange(0, wanted as int));
    true
}

/// The first of `names` that is the name of a bundled web runtime's
/// folder, by its position; none where no name is.
pub fn find_runtime(names: &Vec<String>) -> (r: Option<usize>)
    ensures
        match r {
            Some(at) => {
                &&& at < names.len()
                &&& is_runtime(names[at as int]@)
                &&& forall|k: int| 0 <= k < at ==> !is_runtime(#[trigger] names[k]@)
            },
            None => forall|k: int| 0 <= k < names.len() ==> !is_runtime(#[trigger] names[k]@),
        },
{
    let mut i: usize = 0;
    while i < names.len()
        invariant
            i <= names.len(),
            forall|k: int| 0 <= k < i ==> !is_runtime(#[trigger] names[k]@),
        decreases names.len() - i,
    {
        if starts_with(names[i].as_str(), RUNTIME_PREFIX) {
            return Some(i);
        }
        i = i + 1;
    }
    None
}

} // verus!
