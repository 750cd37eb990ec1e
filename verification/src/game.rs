use vstd::prelude::*;

use crate::player::{GameError, Player, Role, valid_name};

verus! {

/// The intent events a caller may feed to the engine.
#[derive(Debug, Clone)]
pub enum GameMessage {
    Revealing,
    Next,
    Confirm(bool),
    Eliminate(usize),
    WordEdit(String),
    WordGuess,
    Done,
}

/// The phase the engine is in. The terminal outcome is tracked separately by
/// the `over` flag, since the game can end from either `Poll` or `Guess`.
#[derive(Clone, Copy, PartialEq, Eq, Structural, Debug)]
pub enum GameState {
    Reveal,
    Poll,
    Guess,
}

/// The secret words of the session: one for the citizens, one for the
/// undercover players. White receives no word.
pub struct SecretWords {
    pub citizen: String,
    pub undercover: String,
}

/// The rule engine: the roster, the word table, the current phase, and the
/// turn bookkeeping. It is driven one intent event at a time.
pub struct Game {
    pub state: GameState,
    pub players: Vec<Player>,
    pub words: SecretWords,
    pub index: usize,
    pub show: bool,
    pub first: usize,
    pub over: bool,
    pub guess: String,
    pub winner: Option<Role>,
}

/// How many players of the sequence hold the given role.
pub open spec fn count_role(s: Seq<Player>, r: Role) -> nat
    decreases s.len(),
{
    if s.len() == 0 {
        0
    } else {
        count_role(s.drop_last(), r) + (if s.last().role == r {
            1nat
        } else {
            0nat
        })
    }
}

/// How many players of the sequence are still alive.
pub open spec fn spec_alive_count(s: Seq<Player>) -> nat
    decreases s.len(),
{
    if s.len() == 0 {
        0
    } else {
        spec_alive_count(s.drop_last()) + (if s.last().alive {
            1nat
        } else {
            0nat
        })
    }
}

/// Whether some undercover player of the sequence is still alive.
pub open spec fn spec_undercover_alive(s: Seq<Player>) -> bool
    decreases s.len(),
{
    if s.len() == 0 {
        false
    } else {
        spec_undercover_alive(s.drop_last()) || (s.last().alive && s.last().role is Undercover)
    }
}

/// The case-folded form of a character sequence, as `str::to_lowercase`
/// computes it.
pub uninterp spec fn fold_case(s: Seq<char>) -> Seq<char>;

/// A quota configuration is valid for a roster of `n_players` names when the
/// quotas cover the roster exactly and at least one non-White seat exists.
pub open spec fn valid_config(citizen: usize, undercover: usize, white: bool, n_players: nat) -> bool {
    &&& citizen + undercover + (if white {
        1int
    } else {
        0int
    }) == n_players
    &&& citizen + undercover >= 1
}

/// Whether every name of the list may be given to a player.
pub open spec fn all_names_valid(names: Seq<String>) -> bool {
    forall|i: int| 0 <= i < names.len() ==> valid_name((#[trigger] names[i])@)
}

/// The win rules, evaluated in order of precedence; the first matching rule
/// decides the winner, and `None` means the game continues.
pub open spec fn spec_win_check(players: Seq<Player>, guess: Seq<char>, word: Seq<char>) -> Option<
    Role,
> {
    if fold_case(guess) == fold_case(word) {
        Some(Role::White)
    } else if !spec_undercover_alive(players) && guess.len() > 0 {
        Some(Role::Citizen)
    } else if spec_undercover_alive(players) && spec_alive_count(players) < 3 && guess.len() > 0 {
        Some(Role::Undercover)
    } else if spec_alive_count(players) < 3 && guess.len() == 0 {
        Some(Role::White)
    } else {
        None
    }
}

impl Game {
    /// The engine's invariant: the roster is non-empty and well formed, the
    /// bookkeeping indices are in range, and the outcome flags agree.
    pub open spec fn wf(&self) -> bool {
        &&& self.players.len() >= 1
        &&& (exists|i: int|
            0 <= i < self.players.len() && (#[trigger] self.players@[i]).role != Role::White)
        &&& (forall|i: int| 0 <= i < self.players.len() ==> (#[trigger] self.players@[i]).wf())
        &&& self.first < self.players.len()
        &&& (self.state is Reveal ==> self.index < self.players.len() && !self.over)
        &&& (self.state is Poll && self.show ==> self.index < self.players.len())
        &&& (self.state is Guess ==> !self.show)
        &&& (self.over <==> self.winner is Some)
    }
}

/// Effect of a reveal request during the reveal phase.
pub open spec fn spec_reveal(g: Game) -> Game {
    Game { show: true, ..g }
}

/// Effect of advancing the reveal cursor one seat: the cursor moves forward,
/// and the phase switches to `Poll` once every seat has been visited.
pub open spec fn spec_advance(g: Game) -> Game {
    Game {
        index: (g.index + 1) as usize,
        show: false,
        state: (if g.index + 1 >= g.players.len() {
            GameState::Poll
        } else {
            GameState::Reveal
        }),
        ..g
    }
}

/// Effect of nominating seat `i` for elimination.
pub open spec fn spec_nominate(g: Game, i: usize) -> Game {
    Game { index: i, show: true, ..g }
}

/// Effect of dismissing a pending nomination.
pub open spec fn spec_dismiss(g: Game) -> Game {
    Game { show: false, ..g }
}

/// Effect of editing the guess buffer.
pub open spec fn spec_edit(g: Game, word: String) -> Game {
    Game { guess: word, ..g }
}

/// Effect of submitting the current guess: the win rules run, and the phase
/// returns to `Poll` regardless of the outcome.
pub open spec fn spec_submit(g: Game) -> Game {
    let w = spec_win_check(g.players@, g.guess@, g.words.citizen@);
    Game { state: GameState::Poll, over: w is Some, winner: w, ..g }
}

/// What holds after a confirmed elimination: the candidate is marked dead, the
/// phase switches to `Guess` exactly when the candidate was White, the win
/// rules run on the reduced roster, and, if the game goes on, a new turn
/// starter is drawn that is not a dead White seat.
pub open spec fn confirmed(pre: Game, post: Game) -> bool {
    let c = pre.index as int;
    let victim = pre.players@[c];
    let roster = pre.players@.update(c, (Player { alive: false, ..victim }));
    let w = spec_win_check(roster, pre.guess@, pre.words.citizen@);
    &&& post.players@ == roster
    &&& post.state == (if victim.role is White {
        GameState::Guess
    } else {
        pre.state
    })
    &&& post.over == (w is Some)
    &&& post.winner == w
    &&& !post.show
    &&& post.index == pre.index
    &&& post.guess == pre.guess
    &&& post.words == pre.words
    &&& (w is Some ==> post.first == pre.first)
    &&& (w is None ==> post.first < post.players@.len() && !(post.players@[post.first as int].role
        is White && !post.players@[post.first as int].alive))
}

/// The full transition relation of the engine: a finished game ignores every
/// event, and an out-of-phase event leaves the state unchanged.
pub open spec fn updated(pre: Game, post: Game, m: GameMessage) -> bool {
    if pre.over {
        post == pre
    } else {
        match m {
            GameMessage::Revealing => post == (if pre.state is Reveal {
                spec_reveal(pre)
            } else {
                pre
            }),
            GameMessage::Next => post == (if pre.state is Reveal {
                spec_advance(pre)
            } else {
                pre
            }),
            GameMessage::Eliminate(i) => post == (if pre.state is Poll && i < pre.players.len() {
                spec_nominate(pre, i)
            } else {
                pre
            }),
            GameMessage::Confirm(yes) => (if pre.state is Poll {
                if yes {
                    if pre.show {
                        confirmed(pre, post)
                    } else {
                        post == pre
                    }
                } else {
                    post == spec_dismiss(pre)
                }
            } else {
                post == pre
            }),
            GameMessage::WordEdit(word) => post == (if pre.state is Guess {
                spec_edit(pre, word)
            } else {
                pre
            }),
            GameMessage::WordGuess => post == (if pre.state is Guess {
                spec_submit(pre)
            } else {
                pre
            }),
            GameMessage::Done => post == pre,
        }
    }
}

/// What holds of a newly constructed game for the given configuration.
pub open spec fn fresh_game(
    g: Game,
    names: Seq<String>,
    citizen: usize,
    undercover: usize,
    white: bool,
) -> bool {
    &&& g.wf()
    &&& g.players.len() == names.len()
    &&& (forall|i: int|
        0 <= i < names.len() ==> (#[trigger] g.players@[i]).name@ == names[i]@
            && g.players@[i].alive)
    &&& count_role(g.players@, Role::Citizen) == citizen
    &&& count_role(g.players@, Role::Undercover) == undercover
    &&& count_role(g.players@, Role::White) == (if white {
        1int
    } else {
        0int
    })
    &&& g.players@[g.first as int].role != Role::White
    &&& g.state is Reveal
    &&& g.index == 0
    &&& !g.show
    &&& !g.over
    &&& g.winner is None
    &&& g.guess@ == Seq::<char>::empty()
    &&& g.words.citizen@ == "Messi"@
    &&& g.words.undercover@ == "Ronaldo"@
}

/// Relies on rand::random_range: a uniform draw from `0..n`, which panics only
/// on an empty range.
#[verifier::external_body]
fn draw_index(n: usize) -> (r: usize)
    requires
        n > 0,
    ensures
        r < n,
{
    rand::random_range(0..n)
}

/// Relies on str::to_lowercase: the lowercase form depends on the characters
/// alone.
#[verifier::external_body]
fn lowercase(s: &str) -> (r: String)
    ensures
        r@ == fold_case(s@),
{
    s.to_lowercase()
}

proof fn lemma_nonwhite_exists(s: Seq<Player>)
    requires
        count_role(s, Role::White) < s.len(),
    ensures
        exists|i: int| 0 <= i < s.len() && (#[trigger] s[i]).role != Role::White,
    decreases s.len(),
{
    if s.last().role != Role::White {
        assert(s[s.len() - 1].role != Role::White);
    } else {
        lemma_nonwhite_exists(s.drop_last());
        let i = choose|i: int|
            0 <= i < s.drop_last().len() && (#[trigger] s.drop_last()[i]).role != Role::White;
        assert(s[i].role != Role::White);
    }
}

/// Draws a turn starter uniformly among the acceptable seats: every non-White
/// seat and, unless every White seat is rejected, also a live White seat.
#[verifier::loop_isolation(false)]
fn pick_starter(players: &Vec<Player>, reject_any_white: bool) -> (r: usize)
    requires
        exists|i: int| 0 <= i < players.len() && (#[trigger] players@[i]).role != Role::White,
    ensures
        r < players.len(),
        players@[r as int].role != Role::White || (!reject_any_white && players@[r as int].alive),
{
    let n = players.len();
    let mut idx: Vec<usize> = Vec::new();
    let mut k: usize = 0;
    while k < n
        invariant
            k <= n,
            forall|j: int|
                0 <= j < idx@.len() ==> (#[trigger] idx@[j]) < n && (players@[idx@[j] as int].role
                    != Role::White || (!reject_any_white && players@[idx@[j] as int].alive)),
            forall|s: int|
                0 <= s < k && (#[trigger] players@[s]).role != Role::White ==> idx@.contains(
                    s as usize,
                ),
        decreases n - k,
    {
        let ghost pre_idx = idx@;
        if players[k].role != Role::White || (!reject_any_white && players[k].alive) {
            idx.push(k);
        }
        proof {
            assert forall|s: int|
                0 <= s < k + 1 && (#[trigger] players@[s]).role != Role::White implies idx@.contains(
                s as usize,
            ) by {
                if s < k {
                    let j = choose|j: int| 0 <= j < pre_idx.len() && pre_idx[j] == s as usize;
                    assert(idx@[j] == s as usize);
                } else {
                    assert(idx@.last() == k as usize);
                }
            }
        }
        k += 1;
    }
    proof {
        let iw = choose|i: int|
            0 <= i < players.len() && (#[trigger] players@[i]).role != Role::White;
        assert(idx@.contains(iw as usize));
    }
    let t = draw_index(idx.len());
    idx[t]
}

proof fn lemma_count_role_push(s: Seq<Player>, p: Player, r: Role)
    ensures
        count_role(s.push(p), r) == count_role(s, r) + (if p.role == r {
            1int
        } else {
            0int
        }),
{
    assert(s.push(p).drop_last() =~= s);
}

/// Appends a live player with the given name and role to the roster.
fn push_player(players: &mut Vec<Player>, name: String, role: Role)
    requires
        valid_name(name@),
    ensures
        final(players)@ == old(players)@.push((Player { name, role, alive: true })),
        forall|r: Role| #[trigger]
            count_role(final(players)@, r) == count_role(old(players)@, r) + (if role == r {
                1int
            } else {
                0int
            }),
{
    let ghost pre = players@;
    let p = Player { name, role, alive: true };
    let ghost pp = p;
    players.push(p);
    proof {
        assert forall|r: Role| #[trigger]
            count_role(players@, r) == count_role(pre, r) + (if role == r {
                1int
            } else {
                0int
            }) by {
            lemma_count_role_push(pre, pp, r);
        }
    }
}

impl Game {
    /// The fixed word table of a session.
    fn generate_words() -> (w: SecretWords)
        ensures
            w.citizen@ == "Messi"@,
            w.undercover@ == "Ronaldo"@,
    {
        SecretWords { citizen: "Messi".to_owned(), undercover: "Ronaldo".to_owned() }
    }

    /// Builds a game from a name list and role quotas. The quotas must cover
    /// the roster exactly and leave a non-White seat, and every name must be
    /// valid. Each seat's role is drawn uniformly among the categories whose
    /// quota is not yet exhausted, and the opening turn starter is drawn
    /// uniformly among the non-White seats.
    #[verifier::loop_isolation(false)]
    pub fn new(names: Vec<String>, citizen: usize, undercover: usize, white: bool) -> (r: Result<
        Game,
        GameError,
    >)
        ensures
            match r {
                Ok(g) => valid_config(citizen, undercover, white, names@.len())
                    && all_names_valid(names@) && fresh_game(
                    g,
                    names@,
                    citizen,
                    undercover,
                    white,
                ),
                Err(e) => {
                    &&& (e == GameError::FatalConfig <==> !valid_config(
                        citizen,
                        undercover,
                        white,
                        names@.len(),
                    ))
                    &&& (e == GameError::InvalidName <==> valid_config(
                        citizen,
                        undercover,
                        white,
                        names@.len(),
                    ) && !all_names_valid(names@))
                },
            },
    {
        let n_names = names.len();
        let white_quota: usize = if white {
            1
        } else {
            0
        };
        let config_ok = citizen <= n_names && undercover <= n_names - citizen && n_names - citizen
            - undercover == white_quota && citizen + undercover >= 1;
        if !config_ok {
            return Err(GameError::FatalConfig);
        }
        let mut k: usize = 0;
        while k < n_names
            invariant
                k <= n_names,
                forall|j: int| 0 <= j < k ==> valid_name((#[trigger] names@[j])@),
            decreases n_names - k,
        {
            if !Player::assert_name(&names[k]) {
                return Err(GameError::InvalidName);
            }
            k += 1;
        }

        let mut players: Vec<Player> = Vec::new();
        let mut c = citizen;
        let mut u = undercover;
        let mut w = white;
        let mut i: usize = 0;
        while c > 0 || u > 0 || w
            invariant
                i == players.len(),
                c <= citizen,
                u <= undercover,
                w ==> white,
                i + c + u + (if w {
                    1int
                } else {
                    0int
                }) == n_names,
                count_role(players@, Role::Citizen) == citizen - c,
                count_role(players@, Role::Undercover) == undercover - u,
                count_role(players@, Role::White) == (if white {
                    1int
                } else {
                    0int
                }) - (if w {
                    1int
                } else {
                    0int
                }),
                forall|j: int|
                    0 <= j < i ==> (#[trigger] players@[j]).name@ == names@[j]@
                        && players@[j].alive,
                forall|j: int| 0 <= j < i ==> (#[trigger] players@[j]).wf(),
            decreases c + u + (if w {
                1int
            } else {
                0int
            }),
        {
            let n_avail = (if c > 0 {
                1usize
            } else {
                0usize
            }) + (if u > 0 {
                1
            } else {
                0
            }) + (if w {
                1
            } else {
                0
            });
            let t = draw_index(n_avail);
            if c > 0 && t == 0 {
                push_player(&mut players, names[i].clone(), Role::Citizen);
                c -= 1;
            } else if u > 0 && t == (if c > 0 {
                1
            } else {
                0
            }) {
                push_player(&mut players, names[i].clone(), Role::Undercover);
                u -= 1;
            } else {
                push_player(&mut players, names[i].clone(), Role::White);
                w = false;
            }
            i += 1;
        }

        proof {
            lemma_nonwhite_exists(players@);
        }
        let first = pick_starter(&players, true);

        Ok(
            Game {
                state: GameState::Reveal,
                players,
                words: Self::generate_words(),
                index: 0,
                show: false,
                first,
                over: false,
                guess: String::new(),
                winner: None,
            },
        )
    }

    /// Whether the game has ended.
    pub fn over(&self) -> (r: bool)
        ensures
            r == self.over,
    {
        self.over
    }

    /// The winning role, once the game has ended.
    pub fn winner(&self) -> (r: Option<Role>)
        ensures
            r == self.winner,
    {
        self.winner
    }

    /// The roster's name list, in seat order.
    #[verifier::loop_isolation(false)]
    pub fn players_names(&self) -> (r: Vec<String>)
        ensures
            r@.len() == self.players.len(),
            forall|i: int| 0 <= i < r@.len() ==> (#[trigger] r@[i])@ == self.players@[i].name@,
    {
        let mut names: Vec<String> = Vec::new();
        let mut k: usize = 0;
        while k < self.players.len()
            invariant
                k <= self.players.len(),
                names@.len() == k,
                forall|i: int| 0 <= i < k ==> (#[trigger] names@[i])@ == self.players@[i].name@,
            decreases self.players.len() - k,
        {
            names.push(self.players[k].name.clone());
            k += 1;
        }
        names
    }

    /// Runs the win rules on the current roster and guess, setting the outcome
    /// flags when one of them fires; everything else is left untouched.
    #[verifier::loop_isolation(false)]
    fn is_game_over(&mut self)
        requires
            !old(self).over,
            old(self).winner is None,
        ensures
            final(self).players == old(self).players,
            final(self).words == old(self).words,
            final(self).state == old(self).state,
            final(self).index == old(self).index,
            final(self).show == old(self).show,
            final(self).first == old(self).first,
            final(self).guess == old(self).guess,
            ({
                let w = spec_win_check(old(self).players@, old(self).guess@, old(self).words.citizen@);
                final(self).over == (w is Some) && final(self).winner == w
            }),
    {
        let lower_guess = lowercase(self.guess.as_str());
        let lower_word = lowercase(self.words.citizen.as_str());
        let guessed = lower_guess == lower_word;
        let empty = self.guess.as_str().is_empty();

        let mut undercover_alive = false;
        let mut count_alive: usize = 0;
        let mut k: usize = 0;
        while k < self.players.len()
            invariant
                k <= self.players.len(),
                count_alive == spec_alive_count(self.players@.take(k as int)),
                undercover_alive == spec_undercover_alive(self.players@.take(k as int)),
                count_alive <= k,
            decreases self.players.len() - k,
        {
            proof {
                assert(self.players@.take(k + 1).drop_last() =~= self.players@.take(k as int));
                assert(self.players@.take(k + 1).last() == self.players@[k as int]);
            }
            if self.players[k].alive {
                count_alive += 1;
                if self.players[k].role == Role::Undercover {
                    undercover_alive = true;
                }
            }
            k += 1;
        }
        proof {
            assert(self.players@.take(self.players.len() as int) =~= self.players@);
        }

        if guessed {
            self.over = true;
            self.winner = Some(Role::White);
        } else if !undercover_alive && !empty {
            self.over = true;
            self.winner = Some(Role::Citizen);
        } else if undercover_alive && count_alive < 3 && !empty {
            self.over = true;
            self.winner = Some(Role::Undercover);
        } else if count_alive < 3 && empty {
            self.over = true;
            self.winner = Some(Role::White);
        }
    }

    /// Applies one intent event. A finished game ignores every event, and an
    /// event that does not belong to the current phase leaves the state
    /// unchanged.
    pub fn update(&mut self, message: GameMessage)
        requires
            old(self).wf(),
        ensures
            final(self).wf(),
            updated(*old(self), *final(self), message),
    {
        if self.over {
            return;
        }
        match message {
            GameMessage::Revealing => {
                if self.state == GameState::Reveal {
                    self.show = true;
                }
            },
            GameMessage::Next => {
                if self.state == GameState::Reveal {
                    self.index = self.index + 1;
                    self.show = false;
                    if self.index >= self.players.len() {
                        self.state = GameState::Poll;
                    }
                }
            },
            GameMessage::Eliminate(i) => {
                if self.state == GameState::Poll && i < self.players.len() {
                    self.index = i;
                    self.show = true;
                }
            },
            GameMessage::Confirm(yes) => {
                if self.state == GameState::Poll {
                    if yes {
                        if self.show {
                            let c = self.index;
                            self.players[c].set_alive(false);
                            if self.players[c].role == Role::White {
                                self.state = GameState::Guess;
                            }
                            self.show = false;
                            proof {
                                let iw = choose|i: int|
                                    0 <= i < old(self).players.len() && (#[trigger] old(
                                        self,
                                    ).players@[i]).role != Role::White;
                                assert(self.players@[iw].role != Role::White);
                            }
                            self.is_game_over();
                            if !self.over {
                                self.first = pick_starter(&self.players, false);
                            }
                        }
                    } else {
                        self.show = false;
                    }
                }
            },
            GameMessage::WordEdit(word) => {
                if self.state == GameState::Guess {
                    self.guess = word;
                }
            },
            GameMessage::WordGuess => {
                if self.state == GameState::Guess {
                    self.is_game_over();
                    self.state = GameState::Poll;
                }
            },
            GameMessage::Done => {},
        }
    }
}

/// The engine state after `n` reveal advances.
pub open spec fn spec_advance_n(g: Game, n: nat) -> Game
    decreases n,
{
    if n == 0 {
        g
    } else {
        spec_advance(spec_advance_n(g, (n - 1) as nat))
    }
}

/// Law: from the start of the reveal phase the cursor visits the seats in
/// roster order, one advance per seat, and the phase switches to `Poll`
/// exactly when every seat has been visited.
pub proof fn lemma_reveal_visits_each_seat(g: Game, n: nat)
    requires
        g.wf(),
        g.state is Reveal,
        g.index == 0,
        n <= g.players.len(),
    ensures
        spec_advance_n(g, n).players == g.players,
        n < g.players.len() ==> spec_advance_n(g, n).state is Reveal && spec_advance_n(
            g,
            n,
        ).index == n,
        n == g.players.len() ==> spec_advance_n(g, n).state is Poll && spec_advance_n(
            g,
            n,
        ).index == n,
    decreases n,
{
    if n > 0 {
        lemma_reveal_visits_each_seat(g, (n - 1) as nat);
    }
}

/// Law: nominating the same seat twice in a row is the same as nominating it
/// once; only the candidate pointer and the confirmation flag change.
pub proof fn lemma_nominate_idempotent(g: Game, i: usize)
    ensures
        spec_nominate(spec_nominate(g, i), i) == spec_nominate(g, i),
        spec_nominate(g, i) == (Game { index: i, show: true, ..g }),
{
}

/// Law: a guess that case-folds to the citizen word declares White the winner,
/// whatever the roster and the other rules say.
pub proof fn lemma_correct_guess_wins(players: Seq<Player>, guess: Seq<char>, word: Seq<char>)
    requires
        fold_case(guess) == fold_case(word),
    ensures
        spec_win_check(players, guess, word) == Some(Role::White),
{
}

/// Law: a confirmed elimination enters the guessing phase exactly when the
/// eliminated seat is White.
pub proof fn lemma_guess_entered_iff_white(pre: Game, post: Game)
    requires
        pre.state is Poll,
        confirmed(pre, post),
    ensures
        post.state is Guess <==> pre.players@[pre.index as int].role is White,
{
}

/// Law: once the game is over, no event of any kind changes anything.
pub proof fn lemma_over_is_final(pre: Game, post: Game, m: GameMessage)
    requires
        pre.over,
        updated(pre, post, m),
    ensures
        post == pre,
{
}

} // verus!
