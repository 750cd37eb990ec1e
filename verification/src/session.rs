use vstd::prelude::*;

use crate::game::{all_names_valid, fresh_game, updated, Game, GameMessage};
use crate::menu::{menu_updated, Menu, MenuMessage};

verus! {

/// Which mode of the session is active.
#[derive(Clone, Copy, PartialEq, Eq, Structural, Debug)]
pub enum AppState {
    StateMenu,
    StateGame,
}

/// An intent event addressed to one of the two modes.
#[derive(Debug, Clone)]
pub enum AppMessage {
    InteractMenu(MenuMessage),
    InteractGame(GameMessage),
}

/// The two-mode session controller: it owns the configuration menu and the
/// running game, routes intent events to whichever mode is active, and
/// switches mode on the explicit start and acknowledge events.
pub struct Application {
    pub state: AppState,
    pub menu: Menu,
    pub game: Game,
}

/// What holds of the menu rebuilt from a finished game's roster: the names
/// carry over in seat order, with one undercover seat and no White seat.
pub open spec fn menu_reset_from(menu: Menu, g: Game) -> bool {
    &&& menu.citizen == g.players.len() - 1
    &&& menu.undercover == 1
    &&& !menu.white
    &&& menu.index == 0
    &&& menu.names@.len() == g.players.len()
    &&& (forall|i: int|
        0 <= i < menu.names@.len() ==> (#[trigger] menu.names@[i])@ == g.players@[i].name@)
}

impl Application {
    /// The controller is well formed when both of its modes are.
    pub open spec fn wf(&self) -> bool {
        &&& self.menu.wf()
        &&& self.game.wf()
    }

    /// A controller that starts on the configuration screen.
    pub fn new(menu: Menu, game: Game) -> (r: Application)
        requires
            menu.wf(),
            game.wf(),
        ensures
            r.wf(),
            r.state is StateMenu,
            r.menu == menu,
            r.game == game,
    {
        Application { state: AppState::StateMenu, menu, game }
    }

    /// Routes one intent event. A menu event reaches the menu only while the
    /// menu is active; a game event reaches the game only while the game is
    /// active. The menu's finish event builds a fresh game from the current
    /// configuration (a rejected name leaves the session on the menu), and the
    /// game's acknowledge event returns to a menu rebuilt from the roster.
    pub fn update(&mut self, message: AppMessage)
        requires
            old(self).wf(),
        ensures
            final(self).wf(),
            match message {
                AppMessage::InteractMenu(mm) => {
                    if mm is Done {
                        if all_names_valid(old(self).menu.names@) {
                            &&& final(self).state is StateGame
                            &&& final(self).menu == old(self).menu
                            &&& fresh_game(
                                final(self).game,
                                old(self).menu.names@,
                                old(self).menu.citizen,
                                old(self).menu.undercover,
                                old(self).menu.white,
                            )
                        } else {
                            *final(self) == *old(self)
                        }
                    } else {
                        if old(self).state is StateMenu {
                            &&& menu_updated(old(self).menu, final(self).menu, mm)
                            &&& final(self).game == old(self).game
                            &&& final(self).state == old(self).state
                        } else {
                            *final(self) == *old(self)
                        }
                    }
                },
                AppMessage::InteractGame(gm) => {
                    if gm is Done {
                        if old(self).state is StateGame {
                            &&& final(self).state is StateMenu
                            &&& final(self).game == old(self).game
                            &&& menu_reset_from(final(self).menu, old(self).game)
                        } else {
                            *final(self) == *old(self)
                        }
                    } else {
                        if old(self).state is StateGame {
                            &&& updated(old(self).game, final(self).game, gm)
                            &&& final(self).menu == old(self).menu
                            &&& final(self).state == old(self).state
                        } else {
                            *final(self) == *old(self)
                        }
                    }
                },
            },
    {
        match message {
            AppMessage::InteractMenu(menu_msg) => {
                match menu_msg {
                    MenuMessage::Done => {
                        let names = self.menu.names.clone();
                        proof {
                            assert forall|i: int|
                                0 <= i < names@.len() implies names@[i] == self.menu.names@[i] by {
                                assert(cloned::<String>(self.menu.names@[i], names@[i]));
                            }
                            assert(names@ =~= self.menu.names@);
                        }
                        match Game::new(names, self.menu.citizen, self.menu.undercover, self.menu.white) {
                            Ok(g) => {
                                self.game = g;
                                self.state = AppState::StateGame;
                            },
                            Err(_) => {},
                        }
                    },
                    _ => {
                        if self.state == AppState::StateMenu {
                            self.menu.update(menu_msg);
                        }
                    },
                }
            },
            AppMessage::InteractGame(game_msg) => {
                match game_msg {
                    GameMessage::Done => {
                        if self.state == AppState::StateGame {
                            self.menu = Menu::new(self.game.players_names());
                            self.state = AppState::StateMenu;
                        }
                    },
                    _ => {
                        if self.state == AppState::StateGame {
                            self.game.update(game_msg);
                        }
                    },
                }
            },
        }
    }
}

} // verus!
