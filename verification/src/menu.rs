//! The menu tree: a static, hierarchical description of the menu bar, built
//! once at startup. Item identifiers are the wire contract between the OS
//! menu and the dispatcher, so they must be pairwise unique across the tree.

use vstd::prelude::*;

use crate::dispatch::{action_id, lemma_id_literal_facts, spec_action_id, MenuAction};

verus! {

/// Menu entries the OS supplies ready-made; they carry no identifier and are
/// handled by the windowing layer, never by the dispatcher.
#[derive(Clone, Copy, PartialEq, Eq, Structural, Debug)]
pub enum NativeItem {
    Quit,
    Cut,
    Copy,
    Paste,
}

/// One node of the menu tree. An `Item` carries the stable identifier that a
/// later activation event will carry back to the dispatcher; its accelerator
/// is advisory metadata only.
#[derive(Debug)]
pub enum MenuNode {
    Item { id: String, label: String, accelerator: Option<String> },
    Separator,
    Native { item: NativeItem },
    Submenu { label: String, children: Vec<MenuNode> },
}

/// The item identifiers of one node, in menu order.
pub open spec fn node_ids(n: MenuNode) -> Seq<Seq<char>>
    decreases n,
{
    match n {
        MenuNode::Item { id, .. } => seq![id@],
        MenuNode::Separator => seq![],
        MenuNode::Native { .. } => seq![],
        MenuNode::Submenu { children, .. } => nodes_ids(children@),
    }
}

/// The item identifiers of a sequence of nodes, in menu order.
pub open spec fn nodes_ids(ns: Seq<MenuNode>) -> Seq<Seq<char>>
    decreases ns,
{
    if ns.len() == 0 {
        seq![]
    } else {
        node_ids(ns.first()) + nodes_ids(ns.drop_first())
    }
}

/// The display label of a node; empty for separators and native items.
pub open spec fn spec_node_label(n: MenuNode) -> Seq<char> {
    match n {
        MenuNode::Item { label, .. } => label@,
        MenuNode::Separator => Seq::empty(),
        MenuNode::Native { .. } => Seq::empty(),
        MenuNode::Submenu { label, .. } => label@,
    }
}

/// Pairwise distinctness of a sequence of identifiers.
pub open spec fn ids_unique(ids: Seq<Seq<char>>) -> bool {
    forall|i: int, j: int| 0 <= i < j < ids.len() ==> ids[i] != ids[j]
}

/// The character sequences of a sequence of strings.
pub open spec fn views_of(s: Seq<String>) -> Seq<Seq<char>> {
    s.map_values(|x: String| x@)
}

/// Appending one node appends exactly that node's identifiers.
pub proof fn lemma_nodes_ids_push(s: Seq<MenuNode>, n: MenuNode)
    ensures
        nodes_ids(s.push(n)) == nodes_ids(s) + node_ids(n),
    decreases s.len(),
{
    if s.len() == 0 {
        assert(s.push(n).drop_first() =~= Seq::<MenuNode>::empty());
        assert(nodes_ids(Seq::<MenuNode>::empty()) == Seq::<Seq<char>>::empty());
        assert(nodes_ids(s.push(n)) =~= nodes_ids(s) + node_ids(n));
    } else {
        lemma_nodes_ids_push(s.drop_first(), n);
        assert(s.push(n).drop_first() =~= s.drop_first().push(n));
        assert(s.push(n).first() == s.first());
        assert(nodes_ids(s.push(n)) =~= nodes_ids(s) + node_ids(n));
    }
}

/// A menu tree: the ordered top-level nodes handed to the windowing layer.
#[derive(Debug)]
pub struct MenuTree {
    pub top: Vec<MenuNode>,
}

impl MenuTree {
    /// Every item identifier of the tree, in menu order.
    pub open spec fn ids(self) -> Seq<Seq<char>> {
        nodes_ids(self.top@)
    }

    /// The tree's invariant: its item identifiers are pairwise unique, so the
    /// dispatcher can key on them.
    pub open spec fn wf(self) -> bool {
        ids_unique(self.ids())
    }

    /// Collects every item identifier of the tree, in menu order.
    pub fn collect_ids(&self) -> (ids: Vec<String>)
        ensures
            views_of(ids@) == self.ids(),
    {
        let mut out: Vec<String> = Vec::new();
        proof {
            assert(views_of(out@) =~= nodes_ids(self.top@.take(0)));
        }
        let n = self.top.len();
        let mut j: usize = 0;
        while j < n
            invariant
                n == self.top@.len(),
                j <= n,
                views_of(out@) == nodes_ids(self.top@.take(j as int)),
            decreases n - j,
        {
            let child = &self.top[j];
            let ghost pre = out@;
            child.collect_ids_into(&mut out);
            proof {
                assert(self.top@.take(j + 1) =~= self.top@.take(j as int).push(self.top@[j as int]));
                lemma_nodes_ids_push(self.top@.take(j as int), self.top@[j as int]);
                assert(views_of(out@) =~= nodes_ids(self.top@.take(j + 1)));
            }
            j = j + 1;
        }
        proof {
            assert(self.top@.take(n as int) =~= self.top@);
        }
        out
    }

    /// Tests the tree's invariant: true exactly when the item identifiers are
    /// pairwise unique. Arbitrary tree definitions can be checked with this
    /// before being handed to the windowing layer.
    pub fn check_unique(&self) -> (r: bool)
        ensures
            r == self.wf(),
    {
        let ids = self.collect_ids();
        ids_distinct(&ids)
    }
}

impl MenuNode {
    /// Appends this node's item identifiers, in menu order, to `out`.
    pub fn collect_ids_into(&self, out: &mut Vec<String>)
        ensures
            views_of(final(out)@) == views_of(old(out)@) + node_ids(*self),
        decreases *self,
    {
        match self {
            MenuNode::Item { id, .. } => {
                out.push(id.clone());
                proof {
                    assert(views_of(out@) =~= views_of(old(out)@) + node_ids(*self));
                }
            },
            MenuNode::Separator => {
                proof {
                    assert(views_of(out@) =~= views_of(old(out)@) + node_ids(*self));
                }
            },
            MenuNode::Native { .. } => {
                proof {
                    assert(views_of(out@) =~= views_of(old(out)@) + node_ids(*self));
                }
            },
            MenuNode::Submenu { children, .. } => {
                let n = children.len();
                let mut j: usize = 0;
                while j < n
                    invariant
                        *self is Submenu,
                        self->Submenu_children == *children,
                        n == children@.len(),
                        j <= n,
                        views_of(out@) == views_of(old(out)@) + nodes_ids(children@.take(j as int)),
                    decreases n - j,
                {
                    let child = &children[j];
                    proof {
                        assert(decreases_to!(*self => self->Submenu_children));
                        assert(decreases_to!(*children => children@));
                        assert(decreases_to!(children@ => children@[j as int]));
                    }
                    child.collect_ids_into(out);
                    proof {
                        assert(children@.take(j + 1) =~= children@.take(j as int).push(
                            children@[j as int],
                        ));
                        lemma_nodes_ids_push(children@.take(j as int), children@[j as int]);
                        assert(views_of(out@) =~= views_of(old(out)@) + nodes_ids(
                            children@.take(j + 1),
                        ));
                    }
                    j = j + 1;
                }
                proof {
                    assert(children@.take(n as int) =~= children@);
                }
            },
        }
    }
}

/// Tests whether the given identifiers are pairwise distinct as strings.
pub fn ids_distinct(ids: &Vec<String>) -> (r: bool)
    ensures
        r == ids_unique(views_of(ids@)),
{
    let n = ids.len();
    let mut i: usize = 0;
    while i < n
        invariant
            n == ids@.len(),
            i <= n,
            forall|p: int, q: int|
                0 <= p < q < n && p < i ==> views_of(ids@)[p] != views_of(ids@)[q],
        decreases n - i,
    {
        let mut j: usize = i + 1;
        while j < n
            invariant
                n == ids@.len(),
                i < n,
                i + 1 <= j <= n,
                forall|p: int, q: int|
                    0 <= p < q < n && p < i ==> views_of(ids@)[p] != views_of(ids@)[q],
                forall|q: int| i < q < j ==> views_of(ids@)[i as int] != views_of(ids@)[q],
            decreases n - j,
        {
            if ids[i] == ids[j] {
                proof {
                    assert(views_of(ids@)[i as int] == views_of(ids@)[j as int]);
                    assert(!ids_unique(views_of(ids@)));
                }
                return false;
            }
            j = j + 1;
        }
        i = i + 1;
    }
    true
}

/// Appends a node to a vector under construction, tracking the identifiers.
fn push_node(v: &mut Vec<MenuNode>, n: MenuNode)
    ensures
        final(v)@ == old(v)@.push(n),
        nodes_ids(final(v)@) == nodes_ids(old(v)@) + node_ids(n),
{
    proof {
        lemma_nodes_ids_push(v@, n);
    }
    v.push(n);
}

/// The advisory accelerator of a node; `None` except for items that carry one.
pub open spec fn spec_node_accelerator(n: MenuNode) -> Option<Seq<char>> {
    match n {
        MenuNode::Item { accelerator: Some(acc), .. } => Some(acc@),
        _ => None,
    }
}

/// A custom menu item bound to a known action: its identifier is the
/// action's wire identifier, so a later activation dispatches to the action.
/// The accelerator is advisory metadata; nothing checks it for conflicts.
pub fn action_item(a: MenuAction, label: &str, accelerator: &str) -> (n: MenuNode)
    ensures
        n is Item,
        node_ids(n) == seq![spec_action_id(a)],
        spec_node_label(n) == label@,
        spec_node_accelerator(n) == Some(accelerator@),
{
    let node = MenuNode::Item {
        id: action_id(a).to_owned(),
        label: label.to_owned(),
        accelerator: Some(accelerator.to_owned()),
    };
    proof {
        assert(node_ids(node) =~= seq![spec_action_id(a)]);
    }
    node
}

/// A separator line: no identifier.
pub fn separator() -> (n: MenuNode)
    ensures
        node_ids(n) == Seq::<Seq<char>>::empty(),
{
    let node = MenuNode::Separator;
    proof {
        assert(node_ids(node) =~= Seq::<Seq<char>>::empty());
    }
    node
}

/// A native OS item: no identifier.
pub fn native(item: NativeItem) -> (n: MenuNode)
    ensures
        node_ids(n) == Seq::<Seq<char>>::empty(),
{
    let node = MenuNode::Native { item };
    proof {
        assert(node_ids(node) =~= Seq::<Seq<char>>::empty());
    }
    node
}

/// A submenu over the given children: its identifiers are theirs, in order.
pub fn submenu(label: &str, children: Vec<MenuNode>) -> (n: MenuNode)
    ensures
        n is Submenu,
        node_ids(n) == nodes_ids(children@),
        spec_node_label(n) == label@,
{
    MenuNode::Submenu { label: label.to_owned(), children }
}

/// The identifiers of the custom menu tree, in menu order.
pub open spec fn spec_custom_tree_ids() -> Seq<Seq<char>> {
    seq![
        "projectnew"@,
        "projectopen"@,
        "fileopen"@,
        "filesave"@,
        "filesaveas"@,
        "undo"@,
        "redo"@,
    ]
}

/// The fully custom menu variant: a File submenu with the project and file
/// items, separators and a native quit, and an Edit submenu with undo, redo
/// and the native clipboard items. Its identifiers are exactly the known
/// actions' identifiers, each exactly once, so the tree is well formed.
pub fn custom_tree() -> (t: MenuTree)
    ensures
        t.ids() == spec_custom_tree_ids(),
        t.wf(),
        t.top@.len() == 2,
        t.top@[0] is Submenu,
        t.top@[1] is Submenu,
        spec_node_label(t.top@[0]) == "File"@,
        spec_node_label(t.top@[1]) == "Edit"@,
{
    let mut file_children: Vec<MenuNode> = Vec::new();
    push_node(&mut file_children, action_item(MenuAction::ProjectNew, "Create Project", "Alt+C"));
    push_node(&mut file_children, action_item(MenuAction::ProjectOpen, "Open Project", "Alt+P"));
    push_node(&mut file_children, separator());
    push_node(&mut file_children, action_item(MenuAction::FileOpen, "Open File", "Ctrl+N"));
    push_node(&mut file_children, action_item(MenuAction::FileSave, "Save", "Ctrl+S"));
    push_node(
        &mut file_children,
        action_item(MenuAction::FileSaveAs, "Save As...", "Ctrl+Shift+S"),
    );
    push_node(&mut file_children, separator());
    push_node(&mut file_children, native(NativeItem::Quit));
    let file_menu = submenu("File", file_children);

    let mut edit_children: Vec<MenuNode> = Vec::new();
    push_node(&mut edit_children, action_item(MenuAction::Undo, "Undo", "Ctrl+Z"));
    push_node(&mut edit_children, action_item(MenuAction::Redo, "Redo", "Ctrl+Y"));
    push_node(&mut edit_children, separator());
    push_node(&mut edit_children, native(NativeItem::Cut));
    push_node(&mut edit_children, native(NativeItem::Copy));
    push_node(&mut edit_children, native(NativeItem::Paste));
    let edit_menu = submenu("Edit", edit_children);

    let mut top: Vec<MenuNode> = Vec::new();
    push_node(&mut top, file_menu);
    push_node(&mut top, edit_menu);
    let t = MenuTree { top };
    proof {
        assert(t.ids() =~= spec_custom_tree_ids());
        lemma_id_literal_facts();
        assert forall|i: int, j: int| 0 <= i < j < t.ids().len() implies t.ids()[i]
            != t.ids()[j] by {}
        assert(t.wf());
    }
    t
}

/// The custom tree and the dispatcher agree on the wire contract: every
/// identifier of the custom menu tree is in the dispatcher's known set, so an
/// activation of any custom item reaches a known handler, never the fallback.
pub proof fn lemma_custom_tree_ids_known()
    ensures
        forall|k: int|
            0 <= k < spec_custom_tree_ids().len() ==> crate::dispatch::spec_parse(
                spec_custom_tree_ids()[k],
            ) is Some,
{
    lemma_id_literal_facts();
    assert forall|k: int| 0 <= k < spec_custom_tree_ids().len() implies crate::dispatch::spec_parse(
        spec_custom_tree_ids()[k],
    ) is Some by {}
}

/// The platform-default menu variant, templated with the application's
/// display name: an application submenu holding the native quit item, and an
/// Edit submenu holding the native clipboard items. It defines no custom
/// identifiers, so it is trivially well formed.
pub fn os_default_tree(app_name: &str) -> (t: MenuTree)
    ensures
        t.ids() == Seq::<Seq<char>>::empty(),
        t.wf(),
        t.top@.len() == 2,
        t.top@[0] is Submenu,
        t.top@[1] is Submenu,
        spec_node_label(t.top@[0]) == app_name@,
        spec_node_label(t.top@[1]) == "Edit"@,
{
    let mut app_children: Vec<MenuNode> = Vec::new();
    push_node(&mut app_children, native(NativeItem::Quit));
    let app_menu = submenu(app_name, app_children);

    let mut edit_children: Vec<MenuNode> = Vec::new();
    push_node(&mut edit_children, native(NativeItem::Cut));
    push_node(&mut edit_children, native(NativeItem::Copy));
    push_node(&mut edit_children, native(NativeItem::Paste));
    let edit_menu = submenu("Edit", edit_children);

    let mut top: Vec<MenuNode> = Vec::new();
    push_node(&mut top, app_menu);
    push_node(&mut top, edit_menu);
    let t = MenuTree { top };
    proof {
        assert(t.ids() =~= Seq::<Seq<char>>::empty());
    }
    t
}

} // verus!
