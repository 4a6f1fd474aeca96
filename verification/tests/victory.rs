use tictactoe::board::Ttt;
use tictactoe::player::{CellPlayed, Players};
use tictactoe::victory::{game_state, is_victory, winner_player_based_on_current_player, GameState};

const LINES: [[usize; 3]; 8] = [
    [0, 1, 2],
    [3, 4, 5],
    [6, 7, 8],
    [0, 3, 6],
    [1, 4, 7],
    [2, 5, 8],
    [0, 4, 8],
    [2, 4, 6],
];

/// Two cells off the line, and not together with a third on a line of their own.
fn off_line(line: [usize; 3]) -> [usize; 2] {
    let mut found: Vec<usize> = Vec::new();
    let mut i: usize = 0;
    while i < 9 {
        if !line.contains(&i) {
            found.push(i);
        }
        i += 1;
    }
    [found[0], found[1]]
}

/// The first player takes `line`, the second answers beside it.
fn first_takes(line: [usize; 3]) -> Ttt {
    let other = off_line(line);
    let mut board = Ttt::new();
    assert!(board.play(line[0]));
    assert!(board.play(other[0]));
    assert!(board.play(line[1]));
    assert!(board.play(other[1]));
    assert!(!is_victory(&board));
    assert!(board.play(line[2]));
    board
}

/// The second player takes `line`, the first plays beside it.
fn second_takes(line: [usize; 3]) -> Ttt {
    let mut spare: Vec<usize> = Vec::new();
    let mut i: usize = 0;
    while i < 9 {
        if !line.contains(&i) {
            spare.push(i);
        }
        i += 1;
    }
    // Three cells beside the line that form no line themselves.
    let mut beside: [usize; 3] = [spare[0], spare[1], spare[2]];
    let mut sorted = beside;
    sorted.sort();
    if LINES.contains(&sorted) {
        beside = [spare[0], spare[1], spare[3]];
    }
    let mut board = Ttt::new();
    assert!(board.play(beside[0]));
    assert!(board.play(line[0]));
    assert!(board.play(beside[1]));
    assert!(board.play(line[1]));
    assert!(board.play(beside[2]));
    assert!(!is_victory(&board));
    assert!(board.play(line[2]));
    board
}

#[test]
fn fresh_board_is_not_decided() {
    let board = Ttt::new();
    assert!(!is_victory(&board));
    assert_eq!(game_state(&board), GameState::InProgress);
    assert_eq!(*board.get_player(), Players::Player1);
}

#[test]
fn top_row_wins_for_first_player() {
    let mut board = Ttt::new();
    let moves: [usize; 5] = [0, 3, 1, 4, 2];
    for (n, position) in moves.iter().enumerate() {
        assert!(!is_victory(&board), "decided before move {}", n);
        assert!(board.play(*position));
    }
    assert!(is_victory(&board));
    assert_eq!(*winner_player_based_on_current_player(&board), Players::Player1);
    assert_eq!(*board.pos(0), CellPlayed::Yes(Players::Player1));
    assert_eq!(*board.pos(1), CellPlayed::Yes(Players::Player1));
    assert_eq!(*board.pos(2), CellPlayed::Yes(Players::Player1));
    assert_eq!(*board.pos(3), CellPlayed::Yes(Players::Player2));
    assert_eq!(*board.pos(4), CellPlayed::Yes(Players::Player2));
}

#[test]
fn left_column_wins_for_first_player() {
    let mut board = Ttt::new();
    let moves: [usize; 5] = [0, 1, 3, 4, 6];
    for (n, position) in moves.iter().enumerate() {
        assert!(!is_victory(&board), "decided before move {}", n);
        assert!(board.play(*position));
    }
    assert!(is_victory(&board));
    assert_eq!(*winner_player_based_on_current_player(&board), Players::Player1);
}

#[test]
fn every_line_decides_for_the_first_player() {
    for line in LINES {
        let board = first_takes(line);
        assert!(is_victory(&board), "line {:?}", line);
        assert_eq!(*winner_player_based_on_current_player(&board), Players::Player1);
        assert_eq!(game_state(&board), GameState::Decided);
    }
}

#[test]
fn every_line_decides_for_the_second_player() {
    for line in LINES {
        let board = second_takes(line);
        assert!(is_victory(&board), "line {:?}", line);
        assert_eq!(*winner_player_based_on_current_player(&board), Players::Player2);
        assert_eq!(game_state(&board), GameState::Decided);
    }
}

#[test]
fn only_the_eight_lines_decide() {
    // Every way to give the first player three cells, the second none.
    let mut a: usize = 0;
    while a < 9 {
        let mut b: usize = a + 1;
        while b < 9 {
            let mut c: usize = b + 1;
            while c < 9 {
                let mut rest: Vec<usize> = Vec::new();
                let mut i: usize = 0;
                while i < 9 {
                    if i != a && i != b && i != c {
                        rest.push(i);
                    }
                    i += 1;
                }
                // The second player's two cells can never make a line.
                let mut board = Ttt::new();
                assert!(board.play(a));
                assert!(board.play(rest[0]));
                assert!(board.play(b));
                assert!(board.play(rest[1]));
                assert!(board.play(c));
                assert_eq!(is_victory(&board), LINES.contains(&[a, b, c]), "cells {} {} {}", a, b, c);
                c += 1;
            }
            b += 1;
        }
        a += 1;
    }
}

#[test]
fn mixed_line_does_not_decide() {
    let mut board = Ttt::new();
    let moves: [usize; 3] = [0, 1, 2];
    for position in moves {
        assert!(board.play(position));
    }
    assert!(!is_victory(&board));
    assert_eq!(game_state(&board), GameState::InProgress);
}

#[test]
fn winner_is_the_side_not_to_move() {
    let mut board = Ttt::new();
    assert_eq!(*winner_player_based_on_current_player(&board), Players::Player2);
    assert!(board.play(0));
    assert_eq!(*winner_player_based_on_current_player(&board), Players::Player1);
}

#[test]
fn winner_made_the_last_move() {
    for line in LINES {
        let other = off_line(line);
        let mut board = Ttt::new();
        assert!(board.play(line[0]));
        assert!(board.play(other[0]));
        assert!(board.play(line[1]));
        assert!(board.play(other[1]));
        let mover = *board.get_player();
        assert!(board.play(line[2]));
        assert!(is_victory(&board));
        assert_eq!(*winner_player_based_on_current_player(&board), mover);
        assert_eq!(*board.pos(line[2]), CellPlayed::Yes(mover));
        assert_ne!(*board.get_player(), mover);
    }
    for line in LINES {
        let mut board = second_takes(line);
        assert_eq!(*board.get_player(), Players::Player1);
        assert_eq!(*winner_player_based_on_current_player(&board), Players::Player2);
        assert_eq!(*board.pos(line[2]), CellPlayed::Yes(Players::Player2));
        assert!(!board.play(line[2]));
    }
}

#[test]
fn full_board_without_a_line_is_a_draw() {
    let mut board = Ttt::new();
    let moves: [usize; 9] = [0, 1, 2, 4, 3, 5, 7, 6, 8];
    for position in moves {
        assert_eq!(game_state(&board), GameState::InProgress);
        assert!(board.play(position));
    }
    assert!(!is_victory(&board));
    assert_eq!(game_state(&board), GameState::Draw);
    let mut i: usize = 0;
    while i < 9 {
        assert!(!board.play(i));
        i += 1;
    }
    assert_eq!(game_state(&board), GameState::Draw);
}

#[test]
fn full_board_with_a_line_is_decided() {
    let mut board = Ttt::new();
    let moves: [usize; 9] = [0, 1, 2, 4, 3, 5, 7, 8, 6];
    for position in moves {
        assert!(!is_victory(&board));
        assert!(board.play(position));
    }
    assert!(is_victory(&board));
    assert_eq!(game_state(&board), GameState::Decided);
    assert_eq!(*winner_player_based_on_current_player(&board), Players::Player1);
}
