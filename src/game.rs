use vstd::prelude::*;

verus! {

/// One of the two teams.
#[derive(Debug, Clone, Copy, PartialEq, Eq, Structural)]
pub enum Team {
    Red,
    Blue,
}

/// The player who holds serve: a team and which of its two partners.
#[derive(Debug, Clone, Copy, PartialEq, Eq, Structural)]
pub enum Server {
    Red1,
    Red2,
    Blue1,
    Blue2,
}

/// Which side, seen from the current server, won a rally.
#[derive(Debug, Clone, Copy, PartialEq, Eq, Structural)]
pub enum RelativeSide {
    Serving,
    Receiving,
}

/// The team a server plays for.
pub open spec fn team_of(s: Server) -> Team {
    match s {
        Server::Red1 | Server::Red2 => Team::Red,
        Server::Blue1 | Server::Blue2 => Team::Blue,
    }
}

/// Serve rotation: a won rally keeps the server, a lost one hands the
/// serve to the next position of the ring Red1, Red2, Blue1, Blue2.
pub open spec fn next_server(s: Server, w: RelativeSide) -> Server {
    match (s, w) {
        (Server::Red1, RelativeSide::Serving) => Server::Red1,
        (Server::Red1, RelativeSide::Receiving) => Server::Red2,
        (Server::Red2, RelativeSide::Serving) => Server::Red2,
        (Server::Red2, RelativeSide::Receiving) => Server::Blue1,
        (Server::Blue1, RelativeSide::Serving) => Server::Blue1,
        (Server::Blue1, RelativeSide::Receiving) => Server::Blue2,
        (Server::Blue2, RelativeSide::Serving) => Server::Blue2,
        (Server::Blue2, RelativeSide::Receiving) => Server::Red1,
    }
}

/// Score a game has to reach before it can end.
pub const SCORE_SOFT_CAP: u32 = 11;

/// Lead needed to win once the cap is reached.
pub const DEUCE_WIN_DIFF: u32 = 2;

/// The outcome of a game at the given counts: the leading team once one
/// side has reached the cap and leads by the winning margin.
pub open spec fn game_result(red: int, blue: int) -> Option<Team> {
    if red < SCORE_SOFT_CAP && blue < SCORE_SOFT_CAP {
        None
    } else if red > blue {
        if red - blue >= DEUCE_WIN_DIFF { Some(Team::Red) } else { None }
    } else if blue > red {
        if blue - red >= DEUCE_WIN_DIFF { Some(Team::Blue) } else { None }
    } else {
        None
    }
}

/// The state of one game, as plain values.
pub struct ScoreState {
    pub serving: Server,
    pub red: nat,
    pub blue: nat,
}

/// The state after one rally.
pub open spec fn step(s: ScoreState, w: RelativeSide) -> ScoreState {
    let gain: nat = if w == RelativeSide::Serving { 1 } else { 0 };
    ScoreState {
        serving: next_server(s.serving, w),
        red: if team_of(s.serving) == Team::Red { s.red + gain } else { s.red },
        blue: if team_of(s.serving) == Team::Blue { s.blue + gain } else { s.blue },
    }
}

/// The state after a sequence of rallies, played in order.
pub open spec fn play(s: ScoreState, rallies: Seq<RelativeSide>) -> ScoreState
    decreases rallies.len(),
{
    if rallies.len() == 0 {
        s
    } else {
        step(play(s, rallies.drop_last()), rallies.last())
    }
}

/// How many rallies of a sequence the serving side won.
pub open spec fn count_serving(rallies: Seq<RelativeSide>) -> nat
    decreases rallies.len(),
{
    if rallies.len() == 0 {
        0
    } else {
        count_serving(rallies.drop_last()) + if rallies.last() == RelativeSide::Serving {
            1nat
        } else {
            0nat
        }
    }
}

/// Over any sequence of rallies neither count goes down, and the two counts
/// together grow by the number of rallies the serving side won.
pub proof fn lemma_scores_monotone(s: ScoreState, rallies: Seq<RelativeSide>)
    ensures
        play(s, rallies).red >= s.red,
        play(s, rallies).blue >= s.blue,
        play(s, rallies).red + play(s, rallies).blue == s.red + s.blue + count_serving(rallies),
    decreases rallies.len(),
{
    if rallies.len() > 0 {
        lemma_scores_monotone(s, rallies.drop_last());
    }
}

/// While both counts are below the cap the game is not over.
pub proof fn lemma_not_over_below_cap(red: nat, blue: nat)
    requires
        red < SCORE_SOFT_CAP,
        blue < SCORE_SOFT_CAP,
    ensures
        game_result(red as int, blue as int) == None::<Team>,
{
}

/// A game is won exactly when a count has reached the cap, the counts
/// differ, and they differ by at least the winning margin; the winner is the
/// team with the higher count.
pub proof fn lemma_win_condition(red: nat, blue: nat)
    ensures
        game_result(red as int, blue as int) is Some <==> ((red >= SCORE_SOFT_CAP
            || blue >= SCORE_SOFT_CAP) && red != blue && (red - blue >= DEUCE_WIN_DIFF
            || blue - red >= DEUCE_WIN_DIFF)),
        game_result(red as int, blue as int) == Some(Team::Red) ==> red > blue,
        game_result(red as int, blue as int) == Some(Team::Blue) ==> blue > red,
{
}

/// Four lost rallies in a row take the serve once around the ring and back
/// to the same server.
pub proof fn lemma_rotation_closes(s: Server)
    ensures
        next_server(
            next_server(
                next_server(next_server(s, RelativeSide::Receiving), RelativeSide::Receiving),
                RelativeSide::Receiving,
            ),
            RelativeSide::Receiving,
        ) == s,
{
}

/// The score as the serving team announces it.
pub struct ScoreLine {
    pub team: Team,
    pub own: u32,
    pub opponent: u32,
    pub partner: u8,
}

/// The score and the server of one game.
pub struct Score {
    pub serving: Server,
    pub red: u32,
    pub blue: u32,
}

impl View for Score {
    type V = ScoreState;

    open spec fn view(&self) -> ScoreState {
        ScoreState { serving: self.serving, red: self.red as nat, blue: self.blue as nat }
    }
}

impl Score {
    /// A game before its first rally: the second server of Blue holds serve.
    pub fn new() -> (r: Score)
        ensures
            r@ == (ScoreState { serving: Server::Blue2, red: 0, blue: 0 }),
    {
        Score { serving: Server::Blue2, red: 0, blue: 0 }
    }

    /// The serving team, its own count, the opponent's count, and which of
    /// its two partners holds serve.
    pub fn score_line(&self) -> (r: ScoreLine)
        ensures
            r.team == team_of(self.serving),
            r.own == (if r.team == Team::Red { self.red } else { self.blue }),
            r.opponent == (if r.team == Team::Red { self.blue } else { self.red }),
            r.partner == (if self.serving == Server::Red1 || self.serving == Server::Blue1 {
                1u8
            } else {
                2u8
            }),
    {
        match self.serving {
            Server::Red1 => ScoreLine { team: Team::Red, own: self.red, opponent: self.blue, partner: 1 },
            Server::Red2 => ScoreLine { team: Team::Red, own: self.red, opponent: self.blue, partner: 2 },
            Server::Blue1 => ScoreLine { team: Team::Blue, own: self.blue, opponent: self.red, partner: 1 },
            Server::Blue2 => ScoreLine { team: Team::Blue, own: self.blue, opponent: self.red, partner: 2 },
        }
    }

    /// The server after a rally that `point_winner` won.
    pub fn calc_next_server(&self, point_winner: RelativeSide) -> (r: Server)
        ensures
            r == next_server(self.serving, point_winner),
    {
        match self.serving {
            Server::Red1 => match point_winner {
                RelativeSide::Serving => Server::Red1,
                RelativeSide::Receiving => Server::Red2,
            },
            Server::Red2 => match point_winner {
                RelativeSide::Serving => Server::Red2,
                RelativeSide::Receiving => Server::Blue1,
            },
            Server::Blue1 => match point_winner {
                RelativeSide::Serving => Server::Blue1,
                RelativeSide::Receiving => Server::Blue2,
            },
            Server::Blue2 => match point_winner {
                RelativeSide::Serving => Server::Blue2,
                RelativeSide::Receiving => Server::Red1,
            },
        }
    }

    /// The winner, once the game is over.
    pub fn is_game_over(&self) -> (r: Option<Team>)
        ensures
            r == game_result(self.red as int, self.blue as int),
    {
        if self.red < SCORE_SOFT_CAP && self.blue < SCORE_SOFT_CAP {
            return None;
        }
        if self.red > self.blue {
            if self.red - self.blue >= DEUCE_WIN_DIFF {
                Some(Team::Red)
            } else {
                None
            }
        } else if self.blue > self.red {
            if self.blue - self.red >= DEUCE_WIN_DIFF {
                Some(Team::Blue)
            } else {
                None
            }
        } else {
            None
        }
    }

    /// Records one rally: the serving team scores if it won it, and the
    /// serve moves on by the rotation.
    pub fn calc_point(&mut self, point_winner: RelativeSide)
        requires
            point_winner == RelativeSide::Serving ==> (team_of(old(self).serving) == Team::Red
                ==> old(self).red < u32::MAX),
            point_winner == RelativeSide::Serving ==> (team_of(old(self).serving) == Team::Blue
                ==> old(self).blue < u32::MAX),
        ensures
            final(self)@ == step(old(self)@, point_winner),
    {
        let increment: u32 = if point_winner == RelativeSide::Serving {
            1
        } else {
            0
        };
        match self.serving {
            Server::Red1 | Server::Red2 => self.red = self.red + increment,
            Server::Blue1 | Server::Blue2 => self.blue = self.blue + increment,
        }
        self.serving = self.calc_next_server(point_winner);
    }
}

} // verus!
