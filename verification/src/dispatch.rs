//! The menu event dispatcher: routes an activation identifier to the handler
//! registered for it, or to a fallback handler that only logs.

use vstd::prelude::*;
use vstd::string::StringExecFns;

use crate::strutil::str_eq;

verus! {

/// The known menu actions: one per custom menu item identifier. Native items
/// (quit, cut, copy, paste) are handled by the windowing layer and never
/// reach the dispatcher.
#[derive(Clone, Copy, PartialEq, Eq, Structural, Debug)]
pub enum MenuAction {
    ProjectNew,
    ProjectOpen,
    FileOpen,
    FileSave,
    FileSaveAs,
    Undo,
    Redo,
}

/// The stable wire identifier of a known action: the dispatcher matches
/// incoming identifiers against these by exact string equality.
pub open spec fn spec_action_id(a: MenuAction) -> Seq<char> {
    match a {
        MenuAction::ProjectNew => "projectnew"@,
        MenuAction::ProjectOpen => "projectopen"@,
        MenuAction::FileOpen => "fileopen"@,
        MenuAction::FileSave => "filesave"@,
        MenuAction::FileSaveAs => "filesaveas"@,
        MenuAction::Undo => "undo"@,
        MenuAction::Redo => "redo"@,
    }
}

/// The diagnostic name of a known action, as it appears in log records.
pub open spec fn spec_action_label(a: MenuAction) -> Seq<char> {
    match a {
        MenuAction::ProjectNew => "Project_New"@,
        MenuAction::ProjectOpen => "Project_Open"@,
        MenuAction::FileOpen => "File_Open"@,
        MenuAction::FileSave => "File_Save"@,
        MenuAction::FileSaveAs => "File_Save_As"@,
        MenuAction::Undo => "Undo"@,
        MenuAction::Redo => "Redo"@,
    }
}

/// The known set: an identifier parses to the unique action it names, and
/// every other identifier parses to `None`.
pub open spec fn spec_parse(id: Seq<char>) -> Option<MenuAction> {
    if id == "projectnew"@ {
        Some(MenuAction::ProjectNew)
    } else if id == "projectopen"@ {
        Some(MenuAction::ProjectOpen)
    } else if id == "fileopen"@ {
        Some(MenuAction::FileOpen)
    } else if id == "filesave"@ {
        Some(MenuAction::FileSave)
    } else if id == "filesaveas"@ {
        Some(MenuAction::FileSaveAs)
    } else if id == "undo"@ {
        Some(MenuAction::Undo)
    } else if id == "redo"@ {
        Some(MenuAction::Redo)
    } else {
        None
    }
}

/// The wire identifier of a known action.
pub fn action_id(a: MenuAction) -> (r: &'static str)
    ensures
        r@ == spec_action_id(a),
{
    match a {
        MenuAction::ProjectNew => "projectnew",
        MenuAction::ProjectOpen => "projectopen",
        MenuAction::FileOpen => "fileopen",
        MenuAction::FileSave => "filesave",
        MenuAction::FileSaveAs => "filesaveas",
        MenuAction::Undo => "undo",
        MenuAction::Redo => "redo",
    }
}

/// The diagnostic name of a known action.
pub fn action_label(a: MenuAction) -> (r: &'static str)
    ensures
        r@ == spec_action_label(a),
{
    match a {
        MenuAction::ProjectNew => "Project_New",
        MenuAction::ProjectOpen => "Project_Open",
        MenuAction::FileOpen => "File_Open",
        MenuAction::FileSave => "File_Save",
        MenuAction::FileSaveAs => "File_Save_As",
        MenuAction::Undo => "Undo",
        MenuAction::Redo => "Redo",
    }
}

/// Matches an incoming identifier against the known set.
pub fn parse_action(id: &str) -> (r: Option<MenuAction>)
    ensures
        r == spec_parse(id@),
{
    if str_eq(id, "projectnew") {
        Some(MenuAction::ProjectNew)
    } else if str_eq(id, "projectopen") {
        Some(MenuAction::ProjectOpen)
    } else if str_eq(id, "fileopen") {
        Some(MenuAction::FileOpen)
    } else if str_eq(id, "filesave") {
        Some(MenuAction::FileSave)
    } else if str_eq(id, "filesaveas") {
        Some(MenuAction::FileSaveAs)
    } else if str_eq(id, "undo") {
        Some(MenuAction::Undo)
    } else if str_eq(id, "redo") {
        Some(MenuAction::Redo)
    } else {
        None
    }
}

/// Enough facts about the known identifier literals to tell any two of them
/// apart: the lengths of all seven, and one distinguishing character for each
/// pair of equal length.
pub(crate) proof fn lemma_id_literal_facts()
    ensures
        "projectnew"@.len() == 10,
        "projectopen"@.len() == 11,
        "fileopen"@.len() == 8,
        "filesave"@.len() == 8,
        "filesaveas"@.len() == 10,
        "undo"@.len() == 4,
        "redo"@.len() == 4,
        "projectnew"@[0] == 'p',
        "filesaveas"@[0] == 'f',
        "fileopen"@[4] == 'o',
        "filesave"@[4] == 's',
        "undo"@[0] == 'u',
        "redo"@[0] == 'r',
{
    reveal_strlit("projectnew");
    reveal_strlit("projectopen");
    reveal_strlit("fileopen");
    reveal_strlit("filesave");
    reveal_strlit("filesaveas");
    reveal_strlit("undo");
    reveal_strlit("redo");
}

/// Every known action's identifier parses back to exactly that action: no
/// identifier of one action ever selects another action's handler.
pub proof fn lemma_parse_action_id(a: MenuAction)
    ensures
        spec_parse(spec_action_id(a)) == Some(a),
{
    lemma_id_literal_facts();
}

/// Known-action identifiers are pairwise distinct.
pub proof fn lemma_action_id_injective(a: MenuAction, b: MenuAction)
    requires
        spec_action_id(a) == spec_action_id(b),
    ensures
        a == b,
{
    lemma_id_literal_facts();
}

/// The log record for an activation of a known action: names the action, then
/// the identifier that arrived. The action itself is intentionally not
/// implemented, so the record is the whole side effect.
pub open spec fn spec_known_log(a: MenuAction, id: Seq<char>) -> Seq<char> {
    spec_action_label(a) + " activated (menu id: "@ + id + ")"@
}

/// The log record of the fallback handler: tags the unrecognized identifier.
pub open spec fn spec_fallback_log(id: Seq<char>) -> Seq<char> {
    "not implemented: unrecognized menu id: "@ + id
}

/// Builds the log record for a known action.
pub fn known_log(a: MenuAction, id: &str) -> (r: String)
    ensures
        r@ == spec_known_log(a, id@),
{
    let mut s: String = action_label(a).to_owned();
    s.append(" activated (menu id: ");
    s.append(id);
    s.append(")");
    s
}

/// Builds the fallback handler's log record.
pub fn fallback_log(id: &str) -> (r: String)
    ensures
        r@ == spec_fallback_log(id@),
{
    let mut s: String = "not implemented: unrecognized menu id: ".to_owned();
    s.append(id);
    s
}

/// The fallback log record embeds the unrecognized identifier verbatim, at
/// its tail.
pub proof fn lemma_fallback_log_embeds_id(id: Seq<char>)
    ensures
        spec_fallback_log(id).len() == "not implemented: unrecognized menu id: "@.len()
            + id.len(),
        spec_fallback_log(id).subrange(
            "not implemented: unrecognized menu id: "@.len() as int,
            spec_fallback_log(id).len() as int,
        ) == id,
{
    assert(spec_fallback_log(id).subrange(
        "not implemented: unrecognized menu id: "@.len() as int,
        spec_fallback_log(id).len() as int,
    ) =~= id);
}

/// A known action's log record embeds the action's diagnostic name at its
/// head and the identifier that arrived verbatim after the fixed middle part.
pub proof fn lemma_known_log_embeds(a: MenuAction, id: Seq<char>)
    ensures
        spec_known_log(a, id).subrange(0, spec_action_label(a).len() as int)
            == spec_action_label(a),
        spec_known_log(a, id).subrange(
            (spec_action_label(a).len() + " activated (menu id: "@.len()) as int,
            (spec_action_label(a).len() + " activated (menu id: "@.len() + id.len()) as int,
        ) == id,
{
    assert(spec_known_log(a, id).subrange(0, spec_action_label(a).len() as int)
        =~= spec_action_label(a));
    assert(spec_known_log(a, id).subrange(
        (spec_action_label(a).len() + " activated (menu id: "@.len()) as int,
        (spec_action_label(a).len() + " activated (menu id: "@.len() + id.len()) as int,
    ) =~= id);
}

/// Which handler an identifier selects.
#[derive(Clone, Copy, PartialEq, Eq, Structural, Debug)]
pub enum HandlerChoice {
    /// The handler registered for one known action.
    Known(MenuAction),
    /// The fallback handler for identifiers outside the known set.
    Fallback,
}

/// The handler that dispatching `id` runs: the known action's handler when
/// the identifier is in the known set, the fallback handler otherwise.
pub open spec fn spec_dispatch_handler(id: Seq<char>) -> HandlerChoice {
    match spec_parse(id) {
        Some(a) => HandlerChoice::Known(a),
        None => HandlerChoice::Fallback,
    }
}

/// The one log record that dispatching `id` emits.
pub open spec fn spec_dispatch_log(id: Seq<char>) -> Seq<char> {
    match spec_parse(id) {
        Some(a) => spec_known_log(a, id),
        None => spec_fallback_log(id),
    }
}

/// The dispatcher's two states: waiting for an event, or running a handler.
/// Handlers are synchronous, so every dispatch ends back in `Idle`.
#[derive(Clone, Copy, PartialEq, Eq, Structural, Debug)]
pub enum DispatchState {
    Idle,
    Handling,
}

/// What one dispatch did: which handler ran, and the log record it emitted.
/// Exactly one handler runs per event, and the record is its only side
/// effect.
pub struct DispatchOutcome {
    pub handler: HandlerChoice,
    pub log: String,
}

/// The menu event dispatcher.
pub struct Dispatcher {
    pub state: DispatchState,
}

impl Dispatcher {
    /// A fresh dispatcher, waiting for its first event.
    pub fn new() -> (d: Self)
        ensures
            d.state is Idle,
    {
        Dispatcher { state: DispatchState::Idle }
    }

    /// Event arrival: the dispatcher leaves `Idle` to run a handler.
    pub fn begin(&mut self)
        requires
            old(self).state is Idle,
        ensures
            final(self).state is Handling,
    {
        self.state = DispatchState::Handling;
    }

    /// Handler completion: the dispatcher returns to `Idle`.
    pub fn complete(&mut self)
        requires
            old(self).state is Handling,
        ensures
            final(self).state is Idle,
    {
        self.state = DispatchState::Idle;
    }

    /// Routes one activation. A known identifier runs exactly the handler
    /// registered for it; any other identifier runs the fallback handler,
    /// which only logs and never fails the process. The dispatcher is back in
    /// `Idle` when the call returns.
    pub fn dispatch(&mut self, id: &str) -> (r: DispatchOutcome)
        requires
            old(self).state is Idle,
        ensures
            final(self).state is Idle,
            r.handler == spec_dispatch_handler(id@),
            r.log@ == spec_dispatch_log(id@),
    {
        self.begin();
        let out = match parse_action(id) {
            Some(a) => DispatchOutcome {
                handler: HandlerChoice::Known(a),
                log: known_log(a, id),
            },
            None => DispatchOutcome {
                handler: HandlerChoice::Fallback,
                log: fallback_log(id),
            },
        };
        self.complete();
        out
    }
}

/// Dispatching a known action's identifier selects that action's handler and
/// no other.
pub proof fn lemma_dispatch_known(a: MenuAction)
    ensures
        spec_dispatch_handler(spec_action_id(a)) == HandlerChoice::Known(a),
        spec_dispatch_log(spec_action_id(a)) == spec_known_log(a, spec_action_id(a)),
{
    lemma_parse_action_id(a);
}

/// An identifier outside the known set selects the fallback handler, whose
/// log record embeds the identifier verbatim; no known action's handler runs.
pub proof fn lemma_dispatch_unknown(id: Seq<char>)
    requires
        spec_parse(id) is None,
    ensures
        spec_dispatch_handler(id) == HandlerChoice::Fallback,
        spec_dispatch_log(id) == spec_fallback_log(id),
        forall|a: MenuAction| spec_dispatch_handler(id) != HandlerChoice::Known(a),
{
}

} // verus!
