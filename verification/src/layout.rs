//! The application's menu bar: four groups, built once at start-up.

use crate::menu::{
    forest_find, forest_ids, forest_model, ids_unique, lemma_forest_find_push,
    lemma_forest_ids_push, lemma_forest_model, node_find, node_ids, MenuNode, MenuTree,
    NativeAction, NodeModel,
};
use vstd::prelude::*;

verus! {

/// An action item without an accelerator.
pub open spec fn item(id: &str, label: &str) -> NodeModel {
    NodeModel::Action { label: label@, accelerator: None, id: id@ }
}

/// An action item with an accelerator.
pub open spec fn keyed_item(id: &str, label: &str, keys: &str) -> NodeModel {
    NodeModel::Action { label: label@, accelerator: Some(keys@), id: id@ }
}

/// A platform-supplied entry.
pub open spec fn native(action: NativeAction) -> NodeModel {
    NodeModel::Native(action)
}

/// A labelled group.
pub open spec fn group(label: &str, children: Seq<NodeModel>) -> NodeModel {
    NodeModel::Submenu { label: label@, children }
}

/// The group named after the application.
pub open spec fn app_menu_model() -> NodeModel {
    group("Vortex", seq![item("about", "About Vortex"), native(NativeAction::Quit)])
}

/// The "File" group.
pub open spec fn file_menu_model() -> NodeModel {
    group(
        "File",
        seq![
            keyed_item("new", "New", "CmdOrControl+N"),
            keyed_item("open", "Open...", "CmdOrControl+O"),
            NodeModel::Separator,
            keyed_item("save", "Save", "CmdOrControl+S"),
            item("saveas", "Save As..."),
            NodeModel::Separator,
            native(NativeAction::CloseWindow),
            native(NativeAction::Quit),
        ],
    )
}

/// The "Edit" group.
pub open spec fn edit_menu_model() -> NodeModel {
    group(
        "Edit",
        seq![
            keyed_item("undo", "Undo", "CmdOrControl+Z"),
            keyed_item("redo", "Redo", "CmdOrControl+Shift+Z"),
            NodeModel::Separator,
            native(NativeAction::Cut),
            native(NativeAction::Copy),
            native(NativeAction::Paste),
            keyed_item("selectall", "Select All", "CmdOrControl+A"),
        ],
    )
}

/// The "Window" group.
pub open spec fn window_menu_model() -> NodeModel {
    group("Window", seq![native(NativeAction::Minimize), native(NativeAction::Zoom)])
}

/// The whole menu bar.
pub open spec fn application_menu_model() -> Seq<NodeModel> {
    seq![app_menu_model(), file_menu_model(), edit_menu_model(), window_menu_model()]
}

/// Builds the group named after the application.
pub fn app_menu() -> (node: MenuNode)
    ensures
        node@ == app_menu_model(),
{
    let children = vec![
        MenuNode::action("about", "About Vortex", None),
        MenuNode::Native(NativeAction::Quit),
    ];
    proof {
        lemma_forest_model(children@);
        assert(forest_model(children@) =~= app_menu_model()->Submenu_children);
    }
    MenuNode::submenu("Vortex", children)
}

/// Builds the "File" group.
pub fn file_menu() -> (node: MenuNode)
    ensures
        node@ == file_menu_model(),
{
    let children = vec![
        MenuNode::action("new", "New", Some("CmdOrControl+N")),
        MenuNode::action("open", "Open...", Some("CmdOrControl+O")),
        MenuNode::Separator,
        MenuNode::action("save", "Save", Some("CmdOrControl+S")),
        MenuNode::action("saveas", "Save As...", None),
        MenuNode::Separator,
        MenuNode::Native(NativeAction::CloseWindow),
        MenuNode::Native(NativeAction::Quit),
    ];
    proof {
        lemma_forest_model(children@);
        assert(forest_model(children@) =~= file_menu_model()->Submenu_children);
    }
    MenuNode::submenu("File", children)
}

/// Builds the "Edit" group.
pub fn edit_menu() -> (node: MenuNode)
    ensures
        node@ == edit_menu_model(),
{
    let children = vec![
        MenuNode::action("undo", "Undo", Some("CmdOrControl+Z")),
        MenuNode::action("redo", "Redo", Some("CmdOrControl+Shift+Z")),
        MenuNode::Separator,
        MenuNode::Native(NativeAction::Cut),
        MenuNode::Native(NativeAction::Copy),
        MenuNode::Native(NativeAction::Paste),
        MenuNode::action("selectall", "Select All", Some("CmdOrControl+A")),
    ];
    proof {
        lemma_forest_model(children@);
        assert(forest_model(children@) =~= edit_menu_model()->Submenu_children);
    }
    MenuNode::submenu("Edit", children)
}

/// Builds the "Window" group.
pub fn window_menu() -> (node: MenuNode)
    ensures
        node@ == window_menu_model(),
{
    let children = vec![
        MenuNode::Native(NativeAction::Minimize),
        MenuNode::Native(NativeAction::Zoom),
    ];
    proof {
        lemma_forest_model(children@);
        assert(forest_model(children@) =~= window_menu_model()->Submenu_children);
    }
    MenuNode::submenu("Window", children)
}

/// The menu bar has exactly four top-level entries, each a group, labelled
/// "Vortex", "File", "Edit" and "Window" in that order.
pub proof fn lemma_top_level_groups()
    ensures
        application_menu_model().len() == 4,
        forall|i: int| 0 <= i < 4 ==> #[trigger] application_menu_model()[i] is Submenu,
        application_menu_model()[0]->Submenu_label == "Vortex"@,
        application_menu_model()[1]->Submenu_label == "File"@,
        application_menu_model()[2]->Submenu_label == "Edit"@,
        application_menu_model()[3]->Submenu_label == "Window"@,
{
}

/// The identifiers of the menu bar's action items, in menu order.
pub open spec fn application_ids() -> Seq<Seq<char>> {
    seq!["about"@, "new"@, "open"@, "save"@, "saveas"@, "undo"@, "redo"@, "selectall"@]
}

/// The menu bar lists exactly the identifiers of `application_ids`, in that
/// order.
pub proof fn lemma_application_menu_ids()
    ensures
        forest_ids(application_menu_model()) == application_ids(),
{
    assert forall|nodes: Seq<NodeModel>, node: NodeModel|
        #[trigger] forest_ids(nodes.push(node)) == forest_ids(nodes) + node_ids(node) by {
        lemma_forest_ids_push(nodes, node);
    }
    let none = Seq::<NodeModel>::empty();
    assert(forest_ids(none) =~= Seq::<Seq<char>>::empty());
    let a = app_menu_model()->Submenu_children;
    assert(a =~= none.push(a[0]).push(a[1]));
    assert(forest_ids(a) =~= seq!["about"@]);
    let f = file_menu_model()->Submenu_children;
    assert(f =~= none.push(f[0]).push(f[1]).push(f[2]).push(f[3]).push(f[4]).push(f[5]).push(
        f[6],
    ).push(f[7]));
    assert(forest_ids(f) =~= seq!["new"@, "open"@, "save"@, "saveas"@]);
    let e = edit_menu_model()->Submenu_children;
    assert(e =~= none.push(e[0]).push(e[1]).push(e[2]).push(e[3]).push(e[4]).push(e[5]).push(
        e[6],
    ));
    assert(forest_ids(e) =~= seq!["undo"@, "redo"@, "selectall"@]);
    let w = window_menu_model()->Submenu_children;
    assert(w =~= none.push(w[0]).push(w[1]));
    assert(forest_ids(w) =~= Seq::<Seq<char>>::empty());
    let bar = application_menu_model();
    assert(bar =~= none.push(bar[0]).push(bar[1]).push(bar[2]).push(bar[3]));
    assert(forest_ids(application_menu_model()) =~= application_ids());
}

/// No two action items of the menu bar share an identifier.
pub proof fn lemma_application_menu_ids_unique()
    ensures
        ids_unique(application_menu_model()),
{
    lemma_application_menu_ids();
    reveal_strlit("about");
    reveal_strlit("new");
    reveal_strlit("open");
    reveal_strlit("save");
    reveal_strlit("saveas");
    reveal_strlit("undo");
    reveal_strlit("redo");
    reveal_strlit("selectall");
    let ids = application_ids();
    assert(ids.len() == 8);
    assert(ids[0].len() == 5 && ids[1].len() == 3 && ids[4].len() == 6 && ids[7].len() == 9);
    assert(ids[2].len() == 4 && ids[2][0] == 'o');
    assert(ids[3].len() == 4 && ids[3][0] == 's');
    assert(ids[5].len() == 4 && ids[5][0] == 'u');
    assert(ids[6].len() == 4 && ids[6][0] == 'r');
    assert forall|i: int, j: int| 0 <= i < j < ids.len() implies ids[i] != ids[j] by {
        if ids[i].len() == 4 && ids[j].len() == 4 {
            assert(ids[i][0] != ids[j][0]);
        }
    }
}

/// Looking an identifier up in the menu bar gives the item that carries it,
/// with its label and its accelerator.
pub proof fn lemma_application_menu_lookup()
    ensures
        forest_find(application_menu_model(), "about"@) == Some(item("about", "About Vortex")),
        forest_find(application_menu_model(), "new"@) == Some(
            keyed_item("new", "New", "CmdOrControl+N"),
        ),
        forest_find(application_menu_model(), "open"@) == Some(
            keyed_item("open", "Open...", "CmdOrControl+O"),
        ),
        forest_find(application_menu_model(), "save"@) == Some(
            keyed_item("save", "Save", "CmdOrControl+S"),
        ),
        forest_find(application_menu_model(), "saveas"@) == Some(item("saveas", "Save As...")),
        forest_find(application_menu_model(), "undo"@) == Some(
            keyed_item("undo", "Undo", "CmdOrControl+Z"),
        ),
        forest_find(application_menu_model(), "redo"@) == Some(
            keyed_item("redo", "Redo", "CmdOrControl+Shift+Z"),
        ),
        forest_find(application_menu_model(), "selectall"@) == Some(
            keyed_item("selectall", "Select All", "CmdOrControl+A"),
        ),
{
    lemma_application_menu_ids_unique();
    lemma_application_menu_ids();
    let ids = application_ids();
    assert(ids.no_duplicates());
    assert(ids[0] == "about"@ && ids[1] == "new"@ && ids[2] == "open"@ && ids[3] == "save"@);
    assert(ids[4] == "saveas"@ && ids[5] == "undo"@ && ids[6] == "redo"@ && ids[7]
        == "selectall"@);
    assert forall|nodes: Seq<NodeModel>, node: NodeModel, id: Seq<char>|
        #[trigger] forest_find(nodes.push(node), id) == match forest_find(nodes, id) {
            Some(found) => Some(found),
            None => node_find(node, id),
        } by {
        lemma_forest_find_push(nodes, node, id);
    }
    let none = Seq::<NodeModel>::empty();
    let a = app_menu_model()->Submenu_children;
    assert(a =~= none.push(a[0]).push(a[1]));
    let f = file_menu_model()->Submenu_children;
    assert(f =~= none.push(f[0]).push(f[1]).push(f[2]).push(f[3]).push(f[4]).push(f[5]).push(
        f[6],
    ).push(f[7]));
    let e = edit_menu_model()->Submenu_children;
    assert(e =~= none.push(e[0]).push(e[1]).push(e[2]).push(e[3]).push(e[4]).push(e[5]).push(
        e[6],
    ));
    let w = window_menu_model()->Submenu_children;
    assert(w =~= none.push(w[0]).push(w[1]));
    let bar = application_menu_model();
    assert(bar =~= none.push(bar[0]).push(bar[1]).push(bar[2]).push(bar[3]));
    assert forall|k: int| 0 <= k < 8 implies forest_find(a, #[trigger] ids[k]) == (if k == 0 {
        Some(a[0])
    } else {
        None
    }) by {}
    assert forall|k: int| 0 <= k < 8 implies forest_find(f, #[trigger] ids[k]) == (if k == 1 {
        Some(f[0])
    } else if k == 2 {
        Some(f[1])
    } else if k == 3 {
        Some(f[3])
    } else if k == 4 {
        Some(f[4])
    } else {
        None
    }) by {}
    assert forall|k: int| 0 <= k < 8 implies forest_find(e, #[trigger] ids[k]) == (if k == 5 {
        Some(e[0])
    } else if k == 6 {
        Some(e[1])
    } else if k == 7 {
        Some(e[6])
    } else {
        None
    }) by {}
    assert forall|k: int| 0 <= k < 8 implies forest_find(w, #[trigger] ids[k]) is None by {}
}

/// Builds the menu bar. It takes nothing and cannot fail: every call gives
/// the same tree.
pub fn application_menu() -> (tree: MenuTree)
    ensures
        tree@ == application_menu_model(),
        ids_unique(tree@),
{
    let roots = vec![app_menu(), file_menu(), edit_menu(), window_menu()];
    proof {
        lemma_forest_model(roots@);
        assert(forest_model(roots@) =~= application_menu_model());
        lemma_application_menu_ids_unique();
    }
    MenuTree::new(roots)
}

} // verus!
