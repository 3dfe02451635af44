//! The application menu: four top-level submenus whose entries bind to
//! behaviours that the hosting runtime supplies.

use vstd::prelude::*;

verus! {

/// A behaviour implemented by the hosting runtime that a menu entry binds to.
#[derive(Clone, Copy, Debug, PartialEq, Eq, Structural)]
pub enum PredefinedAction {
    Services,
    Hide,
    HideOthers,
    ShowAll,
    Quit,
    CloseWindow,
    Undo,
    Redo,
    Cut,
    Copy,
    Paste,
    SelectAll,
    Minimize,
}

/// What the About panel shows; a field left as `None` takes the runtime's default.
#[derive(Debug, PartialEq, Eq)]
pub struct AboutMetadata {
    pub name: Option<String>,
}

/// One entry of a submenu.
#[derive(Debug, PartialEq, Eq)]
pub enum MenuItem {
    About(AboutMetadata),
    Predefined(PredefinedAction),
    Separator,
}

/// The mathematical value of a menu entry.
pub enum ItemView {
    About { name: Option<Seq<char>> },
    Predefined(PredefinedAction),
    Separator,
}

impl View for MenuItem {
    type V = ItemView;

    open spec fn view(&self) -> ItemView {
        match self {
            MenuItem::About(meta) => ItemView::About {
                name: match meta.name {
                    Some(s) => Some(s@),
                    None => None,
                },
            },
            MenuItem::Predefined(a) => ItemView::Predefined(*a),
            MenuItem::Separator => ItemView::Separator,
        }
    }
}

impl MenuItem {
    /// Whether activating this entry ends the process.
    pub fn terminates_process(&self) -> (r: bool)
        ensures
            r == (self@ == ItemView::Predefined(PredefinedAction::Quit)),
    {
        match self {
            MenuItem::Predefined(PredefinedAction::Quit) => true,
            _ => false,
        }
    }
}

/// A named, ordered container of menu entries.
#[derive(Debug, PartialEq, Eq)]
pub struct Submenu {
    pub label: String,
    pub enabled: bool,
    pub items: Vec<MenuItem>,
}

/// The mathematical value of a submenu.
pub struct SubmenuView {
    pub label: Seq<char>,
    pub enabled: bool,
    pub items: Seq<ItemView>,
}

impl View for Submenu {
    type V = SubmenuView;

    open spec fn view(&self) -> SubmenuView {
        SubmenuView {
            label: self.label@,
            enabled: self.enabled,
            items: self.items@.map_values(|i: MenuItem| i@),
        }
    }
}

impl Submenu {
    /// Builds a submenu fully populated in one step.
    pub fn with_items(label: String, enabled: bool, items: Vec<MenuItem>) -> (r: Submenu)
        ensures
            r@ == (SubmenuView { label: label@, enabled, items: items@.map_values(|i: MenuItem| i@) }),
    {
        Submenu { label, enabled, items }
    }
}

/// The application menu: an ordered sequence of top-level submenus.
#[derive(Debug, PartialEq, Eq)]
pub struct MenuTree {
    submenus: Vec<Submenu>,
}

impl View for MenuTree {
    type V = Seq<SubmenuView>;

    closed spec fn view(&self) -> Seq<SubmenuView> {
        self.submenus@.map_values(|m: Submenu| m@)
    }
}

impl MenuTree {
    /// An empty menu, to which submenus are appended.
    pub fn new() -> (r: MenuTree)
        ensures
            r@ == Seq::<SubmenuView>::empty(),
    {
        let r = MenuTree { submenus: Vec::new() };
        assert(r@ =~= Seq::<SubmenuView>::empty());
        r
    }

    /// Appends `submenu` after the existing top-level entries.
    pub fn append(&mut self, submenu: Submenu)
        ensures
            final(self)@ == old(self)@.push(submenu@),
    {
        self.submenus.push(submenu);
        assert(self@ =~= old(self)@.push(submenu@));
    }

    /// The top-level submenus, in order.
    pub fn submenus(&self) -> (r: &Vec<Submenu>)
        ensures
            r@.map_values(|m: Submenu| m@) == self@,
    {
        &self.submenus
    }
}

/// The entries of the application submenu for an application called `name`.
pub open spec fn app_items(name: Seq<char>) -> Seq<ItemView> {
    seq![
        ItemView::About { name: Some(name) },
        ItemView::Separator,
        ItemView::Predefined(PredefinedAction::Services),
        ItemView::Separator,
        ItemView::Predefined(PredefinedAction::Hide),
        ItemView::Predefined(PredefinedAction::HideOthers),
        ItemView::Predefined(PredefinedAction::ShowAll),
        ItemView::Separator,
        ItemView::Predefined(PredefinedAction::Quit),
    ]
}

/// The entries of the File submenu.
pub open spec fn file_items() -> Seq<ItemView> {
    seq![ItemView::Predefined(PredefinedAction::CloseWindow)]
}

/// The entries of the Edit submenu.
pub open spec fn edit_items() -> Seq<ItemView> {
    seq![
        ItemView::Predefined(PredefinedAction::Undo),
        ItemView::Predefined(PredefinedAction::Redo),
        ItemView::Separator,
        ItemView::Predefined(PredefinedAction::Cut),
        ItemView::Predefined(PredefinedAction::Copy),
        ItemView::Predefined(PredefinedAction::Paste),
        ItemView::Predefined(PredefinedAction::SelectAll),
    ]
}

/// The entries of the Window submenu.
pub open spec fn window_items() -> Seq<ItemView> {
    seq![ItemView::Predefined(PredefinedAction::Minimize)]
}

/// The whole application menu for an application called `name`.
pub open spec fn app_menu(name: Seq<char>) -> Seq<SubmenuView> {
    seq![
        SubmenuView { label: name, enabled: true, items: app_items(name) },
        SubmenuView { label: "File"@, enabled: true, items: file_items() },
        SubmenuView { label: "Edit"@, enabled: true, items: edit_items() },
        SubmenuView { label: "Window"@, enabled: true, items: window_items() },
    ]
}

fn predefined(action: PredefinedAction) -> (r: MenuItem)
    ensures
        r@ == ItemView::Predefined(action),
{
    MenuItem::Predefined(action)
}

/// Builds the application menu for an application whose display name is `app_name`.
pub fn create_menu(app_name: &str) -> (r: MenuTree)
    ensures
        r@ =~~= app_menu(app_name@),
{
    let about = MenuItem::About(AboutMetadata { name: Some(app_name.to_owned()) });
    let app_entries = vec![
        about,
        MenuItem::Separator,
        predefined(PredefinedAction::Services),
        MenuItem::Separator,
        predefined(PredefinedAction::Hide),
        predefined(PredefinedAction::HideOthers),
        predefined(PredefinedAction::ShowAll),
        MenuItem::Separator,
        predefined(PredefinedAction::Quit),
    ];
    assert(app_entries@.map_values(|i: MenuItem| i@) =~= app_items(app_name@));
    let app_menu = Submenu::with_items(app_name.to_owned(), true, app_entries);

    let file_entries = vec![predefined(PredefinedAction::CloseWindow)];
    assert(file_entries@.map_values(|i: MenuItem| i@) =~= file_items());
    let file_menu = Submenu::with_items("File".to_owned(), true, file_entries);

    let edit_entries = vec![
        predefined(PredefinedAction::Undo),
        predefined(PredefinedAction::Redo),
        MenuItem::Separator,
        predefined(PredefinedAction::Cut),
        predefined(PredefinedAction::Copy),
        predefined(PredefinedAction::Paste),
        predefined(PredefinedAction::SelectAll),
    ];
    assert(edit_entries@.map_values(|i: MenuItem| i@) =~= edit_items());
    let edit_menu = Submenu::with_items("Edit".to_owned(), true, edit_entries);

    let window_entries = vec![predefined(PredefinedAction::Minimize)];
    assert(window_entries@.map_values(|i: MenuItem| i@) =~= window_items());
    let window_menu = Submenu::with_items("Window".to_owned(), true, window_entries);

    let mut menu = MenuTree::new();
    menu.append(app_menu);
    menu.append(file_menu);
    menu.append(edit_menu);
    menu.append(window_menu);
    menu
}

/// The menu always has four top-level submenus, the application's own first
/// and labelled with its display name, then File, Edit and Window.
pub proof fn lemma_menu_layout(name: Seq<char>)
    ensures
        app_menu(name).len() == 4,
        app_menu(name)[0].label == name,
        app_menu(name)[1].label == "File"@,
        app_menu(name)[2].label == "Edit"@,
        app_menu(name)[3].label == "Window"@,
        forall|k: int| 0 <= k < 4 ==> (#[trigger] app_menu(name)[k]).enabled,
{
}

} // verus!
