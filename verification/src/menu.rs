//! The main menu: its entries and the cursor that moves over them.

use crate::selection::{next_index, next_position, previous_index, previous_position};
use crate::view::{command_for, command_of, Command, Key};
use vstd::prelude::*;

verus! {

/// One entry of the main menu, in display order.
#[derive(Clone, Copy, Debug, PartialEq, Eq, Structural)]
pub enum MenuItem {
    BrowseDatabase,
    Gae,
    Options,
    Quit,
}

/// Number of entries in the main menu.
pub const MENU_LEN: usize = 4;

impl MenuItem {
    /// The entry shown at row `index`, if there is one.
    pub open spec fn at(index: int) -> Option<MenuItem> {
        if index == 0 {
            Some(MenuItem::BrowseDatabase)
        } else if index == 1 {
            Some(MenuItem::Gae)
        } else if index == 2 {
            Some(MenuItem::Options)
        } else if index == 3 {
            Some(MenuItem::Quit)
        } else {
            None
        }
    }

    /// The label of this entry.
    pub open spec fn label(self) -> Seq<char> {
        match self {
            MenuItem::BrowseDatabase => "Browse database"@,
            MenuItem::Gae => "Graph Analytics Engine (GAE)"@,
            MenuItem::Options => "Options"@,
            MenuItem::Quit => "Quit"@,
        }
    }

    /// The labels of all entries, in display order.
    pub fn items() -> (labels: Vec<&'static str>)
        ensures
            labels@.len() == MENU_LEN,
            forall|i: int|
                0 <= i < MENU_LEN ==> (#[trigger] labels@[i])@ == MenuItem::at(i).unwrap().label(),
    {
        let mut labels: Vec<&'static str> = Vec::new();
        labels.push("Browse database");
        labels.push("Graph Analytics Engine (GAE)");
        labels.push("Options");
        labels.push("Quit");
        labels
    }

    /// The entry at row `index`; `None` past the last row.
    pub fn from_index(index: usize) -> (item: Option<MenuItem>)
        ensures
            item == MenuItem::at(index as int),
            item is Some <==> index < MENU_LEN,
    {
        match index {
            0 => Some(MenuItem::BrowseDatabase),
            1 => Some(MenuItem::Gae),
            2 => Some(MenuItem::Options),
            3 => Some(MenuItem::Quit),
            _ => None,
        }
    }
}

/// What the host is to do after a key press on the main menu.
#[derive(Clone, Copy, Debug, PartialEq, Eq, Structural)]
pub enum MenuAction {
    /// Nothing but to show the menu.
    Continue,
    /// Leave the program.
    Quit,
    /// Open the database browser.
    BrowseDatabase,
}

/// What a key press does on the main menu with the cursor on row
/// `selected`: the row the cursor is on afterwards, and what the host is
/// to do. Entries that have nothing behind them yet do nothing.
pub open spec fn menu_step(selected: usize, key: Key) -> (usize, MenuAction) {
    match command_of(key) {
        Command::Leave => (selected, MenuAction::Quit),
        Command::Down => (
            next_position(selected as int, MENU_LEN as int) as usize,
            MenuAction::Continue,
        ),
        Command::Up => (
            previous_position(selected as int, MENU_LEN as int) as usize,
            MenuAction::Continue,
        ),
        Command::Activate => (
            selected,
            match MenuItem::at(selected as int) {
                Some(MenuItem::Quit) => MenuAction::Quit,
                Some(MenuItem::BrowseDatabase) => MenuAction::BrowseDatabase,
                _ => MenuAction::Continue,
            },
        ),
        _ => (selected, MenuAction::Continue),
    }
}

/// The main menu with its cursor.
#[derive(Debug)]
pub struct MainMenu {
    selected: usize,
}

impl View for MainMenu {
    type V = usize;

    closed spec fn view(&self) -> usize {
        self.selected
    }
}

impl MainMenu {
    /// The menu with the cursor on its first entry.
    pub fn new() -> (menu: Self)
        ensures
            menu@ == 0,
    {
        MainMenu { selected: 0 }
    }

    /// The row the cursor is on.
    pub fn selected(&self) -> (row: usize)
        ensures
            row == self@,
    {
        self.selected
    }

    /// Takes a key press and says what the host is to do.
    pub fn handle_key(&mut self, key: Key) -> (action: MenuAction)
        ensures
            (final(self)@, action) == menu_step(old(self)@, key),
            old(self)@ < MENU_LEN ==> final(self)@ < MENU_LEN,
    {
        match command_for(key) {
            Command::Leave => MenuAction::Quit,
            Command::Down => {
                self.selected = next_index(self.selected, MENU_LEN);
                MenuAction::Continue
            },
            Command::Up => {
                self.selected = previous_index(self.selected, MENU_LEN);
                MenuAction::Continue
            },
            Command::Activate => match MenuItem::from_index(self.selected) {
                Some(MenuItem::Quit) => MenuAction::Quit,
                Some(MenuItem::BrowseDatabase) => MenuAction::BrowseDatabase,
                _ => MenuAction::Continue,
            },
            _ => MenuAction::Continue,
        }
    }
}

} // verus!
