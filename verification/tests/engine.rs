use pandemic_rust::cities::{city_neighbors, City};
use pandemic_rust::errors::Error;
use pandemic_rust::game::{get_actions, start_state, Action};

#[test]
fn it_works() {
    println!("hello!");
    assert_eq!(2 + 2, 4);
    println!("{:?}", city_neighbors(2));
    println!("{:?}", get_actions(&start_state()));
}

#[test]
fn neighbors_of_city_two() {
    assert_eq!(city_neighbors(2), Ok(vec![36, 7, 45, 14, 17]));
}

#[test]
fn neighbors_all_in_range() {
    for id in 0..48 {
        let row = city_neighbors(id).unwrap();
        for n in row {
            assert!(n < 48);
        }
    }
}

#[test]
fn neighbors_out_of_range() {
    assert_eq!(city_neighbors(48), Err(Error::OutOfRange));
    assert_eq!(city_neighbors(usize::MAX), Err(Error::OutOfRange));
}

#[test]
fn adjacency_is_symmetric() {
    // Data-quality check on the canonical table: every declared edge has
    // its reverse edge declared too.
    for id in 0..48 {
        let row = city_neighbors(id).unwrap();
        for n in row {
            let back = city_neighbors(n).unwrap();
            assert!(
                back.contains(&id),
                "edge {} -> {} has no reverse edge",
                id,
                n
            );
        }
    }
}

#[test]
fn city_node_carries_declared_row() {
    let c = City::new(2).unwrap();
    assert_eq!(c.id, 2);
    assert_eq!(c.neighbors, vec![36, 7, 45, 14, 17]);
    assert!(matches!(City::new(48), Err(Error::OutOfRange)));
}

#[test]
fn start_state_actions() {
    let s = start_state();
    let actions = get_actions(&s);
    assert_eq!(
        actions,
        vec![
            Action::Move { player: 0, city: 47 },
            Action::Move { player: 0, city: 9 },
            Action::Move { player: 0, city: 28 },
        ]
    );
}

#[test]
fn legal_actions_idempotent() {
    let s = start_state();
    let first = get_actions(&s);
    let second = get_actions(&s);
    assert_eq!(first, second);
}

#[test]
fn actions_follow_move() {
    let mut s = start_state();
    assert_eq!(s.apply_move(0, 47), Ok(()));
    let expected: Vec<Action> = city_neighbors(47)
        .unwrap()
        .into_iter()
        .map(|c| Action::Move { player: 0, city: c })
        .collect();
    assert_eq!(get_actions(&s), expected);
}

#[test]
fn move_to_non_neighbor_rejected() {
    let mut s = start_state();
    // Player 0 starts in city 1, whose neighbors are [47, 9, 28].
    assert_eq!(s.apply_move(0, 2), Err(Error::NotAdjacent));
    assert_eq!(s.apply_move(0, 1), Err(Error::NotAdjacent));
    // The refused move changed nothing.
    assert_eq!(s.actions, 4);
    assert_eq!(s.get_active_player().city, 1);
}

#[test]
fn move_by_inactive_player_rejected() {
    let mut s = start_state();
    assert_eq!(s.apply_move(1, 47), Err(Error::IllegalMove));
    assert_eq!(s.actions, 4);
}

#[test]
fn moves_stop_when_budget_is_spent() {
    let mut s = start_state();
    // Bounce player 0 between cities 1 and 47 until the budget runs out.
    assert_eq!(s.apply_move(0, 47), Ok(()));
    assert_eq!(s.apply_move(0, 1), Ok(()));
    assert_eq!(s.apply_move(0, 47), Ok(()));
    assert_eq!(s.apply_move(0, 1), Ok(()));
    assert_eq!(s.actions, 0);
    assert_eq!(s.apply_move(0, 47), Err(Error::NoActionsRemaining));
}

#[test]
fn end_turn_cycles_players() {
    let mut s = start_state();
    assert_eq!(s.apply_move(0, 47), Ok(()));
    for expected_next in [1, 2, 3, 0] {
        s.end_turn();
        assert_eq!(s.active_player, expected_next);
        assert_eq!(s.actions, 4);
    }
}

#[test]
fn active_player_is_looked_up_by_index() {
    let mut s = start_state();
    assert_eq!(s.get_active_player().city, 1);
    assert_eq!(s.apply_move(0, 9), Ok(()));
    assert_eq!(s.get_active_player().city, 9);
    s.end_turn();
    // Player 1 never moved.
    assert_eq!(s.get_active_player().city, 1);
}

#[test]
fn invariant_holds_along_a_played_game() {
    let mut s = start_state();
    for _round in 0..8 {
        let moves = get_actions(&s);
        assert!(!moves.is_empty());
        let Action::Move { player, city } = moves[0];
        assert_eq!(s.apply_move(player, city), Ok(()));
        s.end_turn();
        assert!(s.active_player <= 3);
        assert!(s.actions >= 0);
    }
}
