use vstd::prelude::*;
use vstd::string::*;

use crate::text::{decimal, decimal_digits, str_equal};

verus! {

/// One end of the court.
#[derive(Debug, Clone, Copy, PartialEq, Eq, Structural)]
pub enum CourtEnd {
    North,
    South,
}

impl CourtEnd {
    pub open spec fn spec_opposite(self) -> CourtEnd {
        match self {
            CourtEnd::North => CourtEnd::South,
            CourtEnd::South => CourtEnd::North,
        }
    }

    pub fn opposite(self) -> (other: CourtEnd)
        ensures
            other == self.spec_opposite(),
            other != self,
    {
        match self {
            CourtEnd::North => CourtEnd::South,
            CourtEnd::South => CourtEnd::North,
        }
    }
}

/// Scoring format of the match.
#[derive(Debug, Clone, Copy, PartialEq, Eq, Structural)]
pub enum MatchFormat {
    SinglesAdTiebreak,
}

impl MatchFormat {
    pub open spec fn name(self) -> Seq<char> {
        match self {
            MatchFormat::SinglesAdTiebreak => "singles-ad-tiebreak"@,
        }
    }

    pub fn as_str(self) -> (s: &'static str)
        ensures
            s@ == self.name(),
    {
        match self {
            MatchFormat::SinglesAdTiebreak => "singles-ad-tiebreak",
        }
    }
}

/// A player of the match. `genitive` is the genitive form of the name,
/// used by announcements; it is optional and never affects validation.
#[derive(Debug, Clone, PartialEq)]
pub struct Player {
    pub id: String,
    pub name: String,
    pub genitive: Option<String>,
    pub start_end: CourtEnd,
}

/// Why a match setup was rejected.
#[derive(Debug, Clone, PartialEq)]
pub enum MatchSetupError {
    WrongPlayerCount { count: u32 },
    DuplicateId { id: String },
    UnknownServer { id: String },
    SameEnd,
}

impl MatchSetupError {
    pub open spec fn spec_message(&self) -> Seq<char> {
        match self {
            MatchSetupError::WrongPlayerCount { count } => "expected 2 players, got "@
                + decimal_digits(*count as nat),
            MatchSetupError::DuplicateId { id } => "duplicate player id: "@ + id@,
            MatchSetupError::UnknownServer { id } => "first server "@ + id@
                + " is not among the players"@,
            MatchSetupError::SameEnd => "both players on the same court end"@,
        }
    }

    /// The human-readable message of the error.
    pub fn message(&self) -> (text: String)
        ensures
            text@ == self.spec_message(),
    {
        match self {
            MatchSetupError::WrongPlayerCount { count } => String::from_str(
                "expected 2 players, got ",
            ).concat(decimal(*count).as_str()),
            MatchSetupError::DuplicateId { id } => String::from_str("duplicate player id: ").concat(
                id.as_str(),
            ),
            MatchSetupError::UnknownServer { id } => String::from_str("first server ").concat(
                id.as_str(),
            ).concat(" is not among the players"),
            MatchSetupError::SameEnd => String::from_str("both players on the same court end"),
        }
    }
}

/// The match setup: the players (a list, so that doubles can add players
/// later), who serves first, and the format.
#[derive(Debug, Clone, PartialEq)]
pub struct MatchSetup {
    pub players: Vec<Player>,
    pub first_server: String,
    pub format: MatchFormat,
}

/// End of the court after `completed_games` games for a player who started
/// at `start`: ends change after every odd game, so after
/// `(completed_games + 1) / 2` changes; an even number of changes brings the
/// player back to the starting end.
pub open spec fn end_after_games(start: CourtEnd, completed_games: int) -> CourtEnd {
    if ((completed_games + 1) / 2) % 2 == 0 {
        start
    } else {
        start.spec_opposite()
    }
}

impl MatchSetup {
    /// `i` is the first position whose player has identifier `id`.
    pub open spec fn is_first_with_id(self, i: int, id: Seq<char>) -> bool {
        &&& 0 <= i < self.players@.len()
        &&& self.players@[i].id@ == id
        &&& forall|j: int| 0 <= j < i ==> #[trigger] self.players@[j].id@ != id
    }

    /// The first player whose identifier is `id`, if any.
    pub open spec fn spec_player(self, id: Seq<char>) -> Option<Player> {
        if exists|i: int| self.is_first_with_id(i, id) {
            Some(self.players@[choose|i: int| self.is_first_with_id(i, id)])
        } else {
            None
        }
    }

    pub open spec fn spec_end_of(self, id: Seq<char>, completed_games: int) -> Option<CourtEnd> {
        match self.spec_player(id) {
            Some(p) => Some(end_after_games(p.start_end, completed_games)),
            None => None,
        }
    }

    /// The outcome of validation, checked in this order: exactly two
    /// players, distinct identifiers, a first server among the players,
    /// players at opposite ends.
    pub open spec fn spec_validate(self) -> Result<(), MatchSetupError> {
        if self.players@.len() != 2 {
            Err(MatchSetupError::WrongPlayerCount { count: self.players@.len() as u32 })
        } else if self.players@[0].id@ == self.players@[1].id@ {
            Err(MatchSetupError::DuplicateId { id: self.players@[0].id })
        } else if self.spec_player(self.first_server@) is None {
            Err(MatchSetupError::UnknownServer { id: self.first_server })
        } else if self.players@[0].start_end == self.players@[1].start_end {
            Err(MatchSetupError::SameEnd)
        } else {
            Ok(())
        }
    }

    /// Anonymous default: names must never block the start of a recording.
    pub fn default_singles() -> (setup: MatchSetup)
        ensures
            setup.players@.len() == 2,
            setup.players@[0].id@ == "p1"@,
            setup.players@[0].name@ == "Player 1"@,
            setup.players@[0].genitive is None,
            setup.players@[0].start_end == CourtEnd::North,
            setup.players@[1].id@ == "p2"@,
            setup.players@[1].name@ == "Player 2"@,
            setup.players@[1].genitive is None,
            setup.players@[1].start_end == CourtEnd::South,
            setup.first_server@ == "p1"@,
            setup.format == MatchFormat::SinglesAdTiebreak,
            setup.spec_validate() is Ok,
    {
        let setup = MatchSetup {
            players: vec![
                Player {
                    id: String::from_str("p1"),
                    name: String::from_str("Player 1"),
                    genitive: None,
                    start_end: CourtEnd::North,
                },
                Player {
                    id: String::from_str("p2"),
                    name: String::from_str("Player 2"),
                    genitive: None,
                    start_end: CourtEnd::South,
                },
            ],
            first_server: String::from_str("p1"),
            format: MatchFormat::SinglesAdTiebreak,
        };
        proof {
            reveal_strlit("p1");
            reveal_strlit("p2");
            assert(setup.players@[0].id@[1] != setup.players@[1].id@[1]);
            assert(setup.is_first_with_id(0, setup.first_server@));
        }
        setup
    }

    /// The first player with identifier `id`.
    pub fn player(&self, id: &str) -> (found: Option<&Player>)
        ensures
            match found {
                Some(p) => self.spec_player(id@) == Some(*p),
                None => self.spec_player(id@) is None,
            },
    {
        let n = self.players.len();
        let mut i: usize = 0;
        while i < n
            invariant
                n == self.players@.len(),
                i <= n,
                forall|j: int| 0 <= j < i ==> #[trigger] self.players@[j].id@ != id@,
            decreases n - i,
        {
            if str_equal(self.players[i].id.as_str(), id) {
                proof {
                    assert(self.is_first_with_id(i as int, id@));
                    Self::lemma_first_with_id_unique(*self, i as int, id@);
                }
                return Some(&self.players[i]);
            }
            i = i + 1;
        }
        proof {
            assert forall|k: int| !self.is_first_with_id(k, id@) by {
                if 0 <= k < n {
                    assert(self.players@[k].id@ != id@);
                }
            }
        }
        None
    }

    proof fn lemma_first_with_id_unique(self, i: int, id: Seq<char>)
        requires
            self.is_first_with_id(i, id),
        ensures
            self.spec_player(id) == Some(self.players@[i]),
    {
        let k = choose|k: int| self.is_first_with_id(k, id);
        assert(self.is_first_with_id(k, id));
        if k < i {
            assert(self.players@[k].id@ != id);
        } else if i < k {
            assert(self.players@[i].id@ != id);
        }
    }

    /// The end of the court at which player `id` stands after
    /// `completed_games` games; `None` for an unknown player.
    pub fn end_of(&self, id: &str, completed_games: u32) -> (end: Option<CourtEnd>)
        ensures
            end == self.spec_end_of(id@, completed_games as int),
    {
        match self.player(id) {
            Some(player) => {
                let swaps = completed_games / 2 + completed_games % 2;
                assert(swaps == (completed_games as int + 1) / 2);
                if swaps % 2 == 0 {
                    Some(player.start_end)
                } else {
                    Some(player.start_end.opposite())
                }
            },
            None => None,
        }
    }

    pub fn validate(&self) -> (outcome: Result<(), MatchSetupError>)
        ensures
            outcome == self.spec_validate(),
    {
        if self.players.len() != 2 {
            return Err(MatchSetupError::WrongPlayerCount { count: self.players.len() as u32 });
        }
        if self.players[0].id == self.players[1].id {
            return Err(MatchSetupError::DuplicateId { id: self.players[0].id.clone() });
        }
        if self.player(self.first_server.as_str()).is_none() {
            return Err(MatchSetupError::UnknownServer { id: self.first_server.clone() });
        }
        if self.players[0].start_end == self.players[1].start_end {
            return Err(MatchSetupError::SameEnd);
        }
        Ok(())
    }

    /// In a valid setup each player's identifier finds that very player.
    pub proof fn lemma_valid_setup_finds_both_players(self)
        requires
            self.spec_validate() is Ok,
        ensures
            self.spec_player(self.players@[0].id@) == Some(self.players@[0]),
            self.spec_player(self.players@[1].id@) == Some(self.players@[1]),
    {
        assert(self.is_first_with_id(0, self.players@[0].id@));
        Self::lemma_first_with_id_unique(self, 0, self.players@[0].id@);
        assert(self.is_first_with_id(1, self.players@[1].id@));
        Self::lemma_first_with_id_unique(self, 1, self.players@[1].id@);
    }
}

/// In a valid setup the two players stand at opposite ends of the court
/// after any number of completed games.
pub proof fn lemma_players_always_face_each_other(setup: MatchSetup, completed_games: int)
    requires
        setup.spec_validate() is Ok,
        completed_games >= 0,
    ensures
        setup.spec_end_of(setup.players@[0].id@, completed_games) is Some,
        setup.spec_end_of(setup.players@[1].id@, completed_games) is Some,
        setup.spec_end_of(setup.players@[0].id@, completed_games)
            != setup.spec_end_of(setup.players@[1].id@, completed_games),
{
    setup.lemma_valid_setup_finds_both_players();
}

/// Ends change after odd games only: completing an odd-numbered game moves
/// the player to the other end, completing an even-numbered one does not,
/// and the pattern repeats every four games, starting from the player's own
/// starting end.
pub proof fn lemma_ends_repeat_every_four_games(start: CourtEnd, completed_games: int)
    requires
        completed_games >= 0,
    ensures
        end_after_games(start, completed_games + 4) == end_after_games(start, completed_games),
        end_after_games(start, 0) == start,
        completed_games % 2 == 1 ==> end_after_games(start, completed_games + 1) == end_after_games(
            start,
            completed_games,
        ),
        completed_games % 2 == 0 ==> end_after_games(start, completed_games + 1) != end_after_games(
            start,
            completed_games,
        ),
{
}

/// Validation reads only identifiers, ends and the first server: two
/// setups that agree on those (names and genitives may differ) are
/// accepted or rejected alike.
pub proof fn lemma_names_do_not_affect_validation(setup: MatchSetup, other: MatchSetup)
    requires
        setup.players@.len() == other.players@.len(),
        forall|i: int|
            0 <= i < setup.players@.len() ==> (#[trigger] setup.players@[i]).id == other.players@[i].id
                && setup.players@[i].start_end == other.players@[i].start_end,
        setup.first_server == other.first_server,
    ensures
        setup.spec_validate() == other.spec_validate(),
{
    let id = setup.first_server@;
    assert forall|i: int| setup.is_first_with_id(i, id) <==> other.is_first_with_id(i, id) by {
        if 0 <= i < setup.players@.len() {
            assert(setup.players@[i].id == other.players@[i].id);
            if setup.is_first_with_id(i, id) {
                assert forall|j: int| 0 <= j < i implies #[trigger] other.players@[j].id@ != id by {
                    assert(setup.players@[j].id == other.players@[j].id);
                    assert(setup.players@[j].id@ != id);
                }
            }
            if other.is_first_with_id(i, id) {
                assert forall|j: int| 0 <= j < i implies #[trigger] setup.players@[j].id@ != id by {
                    assert(setup.players@[j].id == other.players@[j].id);
                    assert(other.players@[j].id@ != id);
                }
            }
        }
    }
    if setup.players@.len() == 2 {
        assert(setup.players@[0].id == other.players@[0].id);
        assert(setup.players@[1].id == other.players@[1].id);
    }
}

/// Taking the opposite end twice returns the same end.
pub proof fn lemma_court_end_opposite_involution(e: CourtEnd)
    ensures
        e.spec_opposite().spec_opposite() == e,
        e.spec_opposite() != e,
{
}

/// What validation decides, in terms of the players themselves: a setup is
/// accepted exactly when it has two players with different identifiers at
/// opposite ends and one of them (either one) has the first server's
/// identifier; `UnknownServer` comes exactly when two players with different
/// identifiers both lack that identifier.
pub proof fn lemma_validation_decides_by_players(setup: MatchSetup)
    ensures
        setup.spec_validate() is Ok <==> {
            &&& setup.players@.len() == 2
            &&& setup.players@[0].id@ != setup.players@[1].id@
            &&& (setup.players@[0].id@ == setup.first_server@ || setup.players@[1].id@
                == setup.first_server@)
            &&& setup.players@[0].start_end != setup.players@[1].start_end
        },
        (setup.spec_validate() matches Err(MatchSetupError::UnknownServer { .. })) <==> {
            &&& setup.players@.len() == 2
            &&& setup.players@[0].id@ != setup.players@[1].id@
            &&& setup.players@[0].id@ != setup.first_server@
            &&& setup.players@[1].id@ != setup.first_server@
        },
        setup.players@.len() != 2 ==> setup.spec_validate() == Err::<(), MatchSetupError>(
            MatchSetupError::WrongPlayerCount { count: setup.players@.len() as u32 },
        ),
        setup.players@.len() == 2 && setup.players@[0].id@ == setup.players@[1].id@
            ==> setup.spec_validate() == Err::<(), MatchSetupError>(
            MatchSetupError::DuplicateId { id: setup.players@[0].id },
        ),
        setup.players@.len() == 2 && setup.players@[0].id@ != setup.players@[1].id@
            && (setup.players@[0].id@ == setup.first_server@ || setup.players@[1].id@
            == setup.first_server@) && setup.players@[0].start_end == setup.players@[1].start_end
            ==> setup.spec_validate() == Err::<(), MatchSetupError>(MatchSetupError::SameEnd),
{
    lemma_player_found_iff_some_player_has_id(setup, setup.first_server@);
}

/// Lookup finds a player exactly when some player carries the identifier,
/// and what it finds carries that identifier and belongs to the setup.
pub proof fn lemma_player_found_iff_some_player_has_id(setup: MatchSetup, id: Seq<char>)
    ensures
        setup.spec_player(id) is Some <==> exists|i: int|
            0 <= i < setup.players@.len() && #[trigger] setup.players@[i].id@ == id,
        setup.spec_player(id) matches Some(p) ==> p.id@ == id && setup.players@.contains(p),
{
    if exists|i: int| 0 <= i < setup.players@.len() && #[trigger] setup.players@[i].id@ == id {
        let k = choose|i: int| 0 <= i < setup.players@.len() && #[trigger] setup.players@[i].id@ == id;
        lemma_first_index_exists(setup, id, k);
    }
    if setup.spec_player(id) is Some {
        let k = choose|i: int| setup.is_first_with_id(i, id);
        assert(setup.players@[k].id@ == id);
        assert(setup.players@.contains(setup.players@[k]));
    }
}

proof fn lemma_first_index_exists(setup: MatchSetup, id: Seq<char>, k: int)
    requires
        0 <= k < setup.players@.len(),
        setup.players@[k].id@ == id,
    ensures
        exists|i: int| setup.is_first_with_id(i, id),
    decreases k,
{
    if forall|j: int| 0 <= j < k ==> #[trigger] setup.players@[j].id@ != id {
        assert(setup.is_first_with_id(k, id));
    } else {
        let j = choose|j: int| 0 <= j < k && #[trigger] setup.players@[j].id@ == id;
        lemma_first_index_exists(setup, id, j);
    }
}

} // verus!
