use rally_score::game::{RelativeSide, Score, Server, Team};
use rally_score::input::{is_valid_input, side_of_token};

#[test]
fn new_game_starts_with_second_blue_server() {
    let score = Score::new();
    assert_eq!(score.serving, Server::Blue2);
    assert_eq!(score.red, 0);
    assert_eq!(score.blue, 0);
}

#[test]
fn opening_rallies_from_new_game() {
    let mut score = Score::new();
    score.calc_point(RelativeSide::Serving);
    assert_eq!(score.serving, Server::Blue2);
    assert_eq!(score.blue, 1);
    assert_eq!(score.red, 0);
    score.calc_point(RelativeSide::Receiving);
    assert_eq!(score.serving, Server::Red1);
    assert_eq!(score.blue, 1);
    assert_eq!(score.red, 0);
}

#[test]
fn four_lost_rallies_close_the_ring() {
    let mut score = Score {
        serving: Server::Red1,
        red: 0,
        blue: 0,
    };
    let expected = [Server::Red2, Server::Blue1, Server::Blue2, Server::Red1];
    for next in expected.iter() {
        score.calc_point(RelativeSide::Receiving);
        assert_eq!(score.serving, *next);
    }
    assert_eq!(score.red, 0);
    assert_eq!(score.blue, 0);
}

#[test]
fn scores_grow_by_rallies_won_while_serving() {
    let rallies = [
        RelativeSide::Serving,
        RelativeSide::Receiving,
        RelativeSide::Serving,
        RelativeSide::Serving,
        RelativeSide::Receiving,
        RelativeSide::Receiving,
        RelativeSide::Serving,
        RelativeSide::Receiving,
        RelativeSide::Serving,
    ];
    let mut score = Score::new();
    let mut won: u32 = 0;
    for r in rallies.iter() {
        let (red, blue) = (score.red, score.blue);
        score.calc_point(*r);
        assert!(score.red >= red);
        assert!(score.blue >= blue);
        if *r == RelativeSide::Serving {
            won += 1;
        }
        assert_eq!(score.red + score.blue, won);
    }
    assert_eq!(score.red, 2);
    assert_eq!(score.blue, 3);
    assert_eq!(score.serving, Server::Blue2);
}

#[test]
fn point_for_red_server_scores_red() {
    let mut score = Score {
        serving: Server::Red2,
        red: 5,
        blue: 7,
    };
    score.calc_point(RelativeSide::Serving);
    assert_eq!(score.red, 6);
    assert_eq!(score.blue, 7);
    assert_eq!(score.serving, Server::Red2);
}

#[test]
fn never_over_below_cap() {
    for red in 0..11u32 {
        for blue in 0..11u32 {
            let score = Score {
                serving: Server::Red1,
                red,
                blue,
            };
            assert_eq!(score.is_game_over(), None);
        }
    }
}

#[test]
fn win_condition_above_cap() {
    for red in 0..30u32 {
        for blue in 0..30u32 {
            let score = Score {
                serving: Server::Blue1,
                red,
                blue,
            };
            let diff = if red > blue { red - blue } else { blue - red };
            let over = (red >= 11 || blue >= 11) && red != blue && diff >= 2;
            let expected = if !over {
                None
            } else if red > blue {
                Some(Team::Red)
            } else {
                Some(Team::Blue)
            };
            assert_eq!(score.is_game_over(), expected);
        }
    }
}

#[test]
fn tie_above_cap_is_not_over() {
    let score = Score {
        serving: Server::Red1,
        red: 15,
        blue: 15,
    };
    assert_eq!(score.is_game_over(), None);
}

#[test]
fn exact_win_at_cap_and_deuce() {
    let score = Score {
        serving: Server::Red1,
        red: 11,
        blue: 0,
    };
    assert_eq!(score.is_game_over(), Some(Team::Red));
    let score = Score {
        serving: Server::Red1,
        red: 10,
        blue: 12,
    };
    assert_eq!(score.is_game_over(), Some(Team::Blue));
    let score = Score {
        serving: Server::Red1,
        red: 11,
        blue: 10,
    };
    assert_eq!(score.is_game_over(), None);
}

#[test]
fn score_line_puts_serving_team_first() {
    let score = Score {
        serving: Server::Blue1,
        red: 3,
        blue: 8,
    };
    let line = score.score_line();
    assert_eq!(line.team, Team::Blue);
    assert_eq!(line.own, 8);
    assert_eq!(line.opponent, 3);
    assert_eq!(line.partner, 1);
    let score = Score {
        serving: Server::Red2,
        red: 3,
        blue: 8,
    };
    let line = score.score_line();
    assert_eq!(line.team, Team::Red);
    assert_eq!(line.own, 3);
    assert_eq!(line.opponent, 8);
    assert_eq!(line.partner, 2);
}

#[test]
fn input_is_trimmed_before_matching() {
    assert_eq!(is_valid_input("  serv\n"), Some(RelativeSide::Serving));
    assert_eq!(is_valid_input("\treceiving \r\n"), Some(RelativeSide::Receiving));
    assert_eq!(is_valid_input("1\n"), Some(RelativeSide::Receiving));
    assert_eq!(is_valid_input("   "), None);
}

#[test]
fn token_matching_is_exact() {
    assert_eq!(side_of_token("serving"), Some(RelativeSide::Serving));
    assert_eq!(side_of_token("rec"), Some(RelativeSide::Receiving));
    assert_eq!(side_of_token(" serv"), None);
    assert_eq!(side_of_token("Serv"), None);
    assert_eq!(side_of_token("servings"), None);
    assert_eq!(side_of_token(""), None);
}
