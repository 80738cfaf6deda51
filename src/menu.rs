use vstd::prelude::*;

use rand::distributions::DistString;

verus! {

/// Number of characters in the label of a region-selection window.
pub const OVERLAY_LABEL_LEN: usize = 16;

/// The entries of the tray menu.
#[derive(Clone, Copy, Debug, PartialEq, Eq, Structural)]
pub enum MenuCommand {
    /// Capture the whole first screen and decode it.
    Scan,
    /// Open an overlay on which the user selects a region to scan.
    Crop,
    /// Decode the image held by the clipboard.
    Clipboard,
}

/// What the shell does for a chosen menu entry.
#[derive(Debug)]
pub enum MenuAction {
    CaptureScreen,
    OpenOverlay { label: String },
    ReadClipboard,
}

pub open spec fn menu_id(c: MenuCommand) -> Seq<char> {
    match c {
        MenuCommand::Scan => "scan"@,
        MenuCommand::Crop => "crop"@,
        MenuCommand::Clipboard => "clipboard"@,
    }
}

pub open spec fn menu_title(c: MenuCommand) -> Seq<char> {
    match c {
        MenuCommand::Scan => "Scan"@,
        MenuCommand::Crop => "Crop"@,
        MenuCommand::Clipboard => "Load From Clipboard"@,
    }
}

pub open spec fn is_ascii_alphanumeric(c: char) -> bool {
    ('A' <= c && c <= 'Z') || ('a' <= c && c <= 'z') || ('0' <= c && c <= '9')
}

/// A label for a region-selection window: letters and digits only.
pub open spec fn is_overlay_label(s: Seq<char>) -> bool {
    &&& s.len() == OVERLAY_LABEL_LEN
    &&& forall|i: int| 0 <= i < s.len() ==> is_ascii_alphanumeric(#[trigger] s[i])
}

/// Relies on rand's `Alphanumeric::sample_string` over `thread_rng`: `len`
/// characters, each drawn from A-Z, a-z and 0-9.
#[verifier::external_body]
fn random_alphanumeric(len: usize) -> (r: String)
    ensures
        r@.len() == len,
        forall|i: int| 0 <= i < r@.len() ==> is_ascii_alphanumeric(#[trigger] r@[i]),
{
    rand::distributions::Alphanumeric.sample_string(&mut rand::thread_rng(), len)
}

impl MenuCommand {
    /// The identifier the tray reports when this entry is chosen.
    pub fn id(&self) -> (r: &'static str)
        ensures
            r@ == menu_id(*self),
    {
        match self {
            MenuCommand::Scan => "scan",
            MenuCommand::Crop => "crop",
            MenuCommand::Clipboard => "clipboard",
        }
    }

    /// The text shown for this entry.
    pub fn title(&self) -> (r: &'static str)
        ensures
            r@ == menu_title(*self),
    {
        match self {
            MenuCommand::Scan => "Scan",
            MenuCommand::Crop => "Crop",
            MenuCommand::Clipboard => "Load From Clipboard",
        }
    }

    /// The entry with this identifier, if any.
    pub fn from_id(id: &str) -> (r: Option<MenuCommand>)
        ensures
            forall|c: MenuCommand| r == Some(c) <==> id@ == menu_id(c),
    {
        proof {
            reveal_strlit("scan");
            reveal_strlit("crop");
            reveal_strlit("clipboard");
            assert("scan"@[1] != "crop"@[1]);
            assert("scan"@.len() != "clipboard"@.len());
            assert("crop"@.len() != "clipboard"@.len());
        }
        let given = String::from_str(id);
        if given == String::from_str("scan") {
            Some(MenuCommand::Scan)
        } else if given == String::from_str("crop") {
            Some(MenuCommand::Crop)
        } else if given == String::from_str("clipboard") {
            Some(MenuCommand::Clipboard)
        } else {
            None
        }
    }
}

/// The tray menu entries, top to bottom.
pub fn tray_menu() -> (r: Vec<MenuCommand>)
    ensures
        r@ == seq![MenuCommand::Scan, MenuCommand::Crop, MenuCommand::Clipboard],
{
    let mut r: Vec<MenuCommand> = Vec::new();
    r.push(MenuCommand::Scan);
    r.push(MenuCommand::Crop);
    r.push(MenuCommand::Clipboard);
    proof {
        assert(r@ =~= seq![MenuCommand::Scan, MenuCommand::Crop, MenuCommand::Clipboard]);
    }
    r
}

/// The action for a chosen entry; a region selection gets a fresh window label.
pub fn menu_action(command: MenuCommand) -> (r: MenuAction)
    ensures
        command == MenuCommand::Scan ==> r is CaptureScreen,
        command == MenuCommand::Clipboard ==> r is ReadClipboard,
        command == MenuCommand::Crop ==> (r matches MenuAction::OpenOverlay { label }
            && is_overlay_label(label@)),
{
    match command {
        MenuCommand::Scan => MenuAction::CaptureScreen,
        MenuCommand::Crop => MenuAction::OpenOverlay {
            label: random_alphanumeric(OVERLAY_LABEL_LEN),
        },
        MenuCommand::Clipboard => MenuAction::ReadClipboard,
    }
}

} // verus!
