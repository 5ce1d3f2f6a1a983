use crate::text::{owned, same_text, text_of, texts};
use vstd::prelude::*;

verus! {

/// What to do with a window's developer tools.
#[derive(Clone, Copy, Debug, PartialEq, Eq, Structural)]
pub enum DevtoolsAction {
    Open,
    Close,
}

/// Toggles the developer tools: open ones are closed, closed ones opened.
pub fn toggle_devtools(open: bool) -> (action: DevtoolsAction)
    ensures
        action == if open {
            DevtoolsAction::Close
        } else {
            DevtoolsAction::Open
        },
{
    if open {
        DevtoolsAction::Close
    } else {
        DevtoolsAction::Open
    }
}

/// Remembers the window that had the focus last.
pub struct FocusTracker {
    last: Option<String>,
}

impl View for FocusTracker {
    type V = Option<Seq<char>>;

    closed spec fn view(&self) -> Option<Seq<char>> {
        text_of(self.last)
    }
}

impl FocusTracker {
    /// A tracker that has seen no window focused.
    pub fn new() -> (tracker: Self)
        ensures
            tracker@ is None,
    {
        FocusTracker { last: None }
    }
}

/// Notes that the window of a label has the focus.
pub fn set_last_focused_window(tracker: &mut FocusTracker, label: &str)
    ensures
        final(tracker)@ == Some(label@),
{
    tracker.last = Some(owned(label));
}

/// The place of the first window with a label among the open ones, or -1.
pub open spec fn place_of(windows: Seq<Seq<char>>, label: Seq<char>) -> int
    decreases windows.len(),
{
    if windows.len() == 0 {
        -1
    } else if windows[0] == label {
        0
    } else {
        let later = place_of(windows.drop_first(), label);
        if later < 0 {
            -1
        } else {
            later + 1
        }
    }
}

/// The window to address: the one that had the focus last where it is
/// still open, else the first that is.
pub open spec fn focused_place(last: Option<Seq<char>>, windows: Seq<Seq<char>>) -> int {
    match last {
        Some(label) => if place_of(windows, label) >= 0 {
            place_of(windows, label)
        } else {
            0
        },
        None => 0,
    }
}

/// The place of the first window with the label from `from` on.
fn find_window(windows: &Vec<String>, label: &str) -> (found: Option<usize>)
    ensures
        match found {
            Some(i) => i < windows.len() && place_of(texts(windows@), label@) == i,
            None => place_of(texts(windows@), label@) < 0,
        },
{
    let mut i: usize = windows.len();
    let mut found: Option<usize> = None;
    let ghost all = texts(windows@);
    assert(all.skip(all.len() as int) =~= Seq::<Seq<char>>::empty());
    while i > 0
        invariant
            i <= windows.len(),
            all == texts(windows@),
            match found {
                Some(k) => i <= k < windows.len() && place_of(all.skip(i as int), label@) == k - i,
                None => place_of(all.skip(i as int), label@) < 0,
            },
        decreases i,
    {
        i -= 1;
        proof {
            assert(all.skip(i as int).drop_first() =~= all.skip(i + 1));
            assert(all.skip(i as int)[0] == windows@[i as int]@);
        }
        if same_text(windows[i].as_str(), label) {
            found = Some(i);
        }
    }
    assert(all.skip(0) =~= all);
    found
}

/// Picks among the open windows, by their labels, the one to address.
pub fn get_last_focused_window(tracker: &FocusTracker, windows: &Vec<String>) -> (place: usize)
    requires
        windows.len() > 0,
    ensures
        place < windows.len(),
        place == focused_place(tracker@, texts(windows@)),
{
    match &tracker.last {
        Some(label) => match find_window(windows, label.as_str()) {
            Some(i) => i,
            None => 0,
        },
        None => 0,
    }
}

/// Calls `Uuid::new_v4` of the uuid crate and writes the identifier out. It
/// is drawn at random: the contract states only the length that every
/// hyphenated identifier has.
#[verifier::external_body]
fn random_identifier() -> (text: String)
    ensures
        text@.len() == 36,
{
    uuid::Uuid::new_v4().to_string()
}

/// The label of a window with an identifier.
pub fn window_label(identifier: &str) -> (label: String)
    ensures
        label@ == "surrealist-"@ + identifier@,
{
    let mut label = owned("surrealist-");
    label.append(identifier);
    label
}

/// A label for a new window: the application's prefix and a fresh
/// identifier.
pub fn new_window_label() -> (label: String)
    ensures
        "surrealist-"@.is_prefix_of(label@),
        label@.len() == "surrealist-"@.len() + 36,
{
    let identifier = random_identifier();
    let label = window_label(identifier.as_str());
    assert(label@.subrange(0, "surrealist-"@.len() as int) =~= "surrealist-"@);
    label
}

} // verus!
