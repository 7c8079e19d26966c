use token_takedown::error::{GameError, TransferError};
use token_takedown::escrow::{Disbursement, Party, PowerUpType, Transfer, MAX_ENTRY_FEE};
use token_takedown::identity::Identity;
use token_takedown::lifecycle::{
    distribute_rewards, emergency_end_game, initialize_game, join_game, power_up_transfer,
    refund_transfers, stake_transfer, use_power_up,
};
use token_takedown::model::GameStatus;
use token_takedown::record::Game;

fn player(n: u8) -> Identity {
    Identity::new([n; 32])
}

fn authority() -> Identity {
    Identity::new([200; 32])
}

fn room(entry_fee: u64, seats: u8) -> Game {
    initialize_game(false, 1, entry_fee, seats, authority()).unwrap()
}

fn room_with(entry_fee: u64, seats: u8, joined: u8) -> Game {
    let mut game = room(entry_fee, seats);
    for n in 1..=joined {
        join_game(&mut game, player(n), Ok(())).unwrap();
    }
    game
}

fn stored(status: GameStatus, seats: u8, joined: u8) -> Game {
    let players: Vec<Identity> = (1..=joined).map(player).collect();
    let pool = if status == GameStatus::Cancelled { 0 } else { 100 * joined as u64 };
    Game::from_parts(7, 100, seats, status, pool, authority(), players, [None, None, None], [0, 0, 0])
        .unwrap()
}

#[test]
fn created_room_waits_with_an_empty_pool() {
    let game = initialize_game(false, 77, 1_000_000, 3, authority()).unwrap();
    assert_eq!(game.game_id(), 77);
    assert_eq!(game.entry_fee(), 1_000_000);
    assert_eq!(game.max_players(), 3);
    assert_eq!(game.status(), GameStatus::Waiting);
    assert_eq!(game.current_players(), 0);
    assert_eq!(game.total_pool(), 0);
    assert_eq!(game.authority(), authority());
    assert_eq!(game, Game::new(77, 1_000_000, 3, authority()).unwrap());
}

#[test]
fn room_id_can_be_taken_once() {
    assert_eq!(initialize_game(true, 77, 1_000_000, 3, authority()), Err(GameError::RoomAlreadyExists));
    assert_eq!(initialize_game(true, 77, 0, 0, authority()), Err(GameError::RoomAlreadyExists));
}

#[test]
fn created_room_needs_a_valid_configuration() {
    assert_eq!(initialize_game(false, 1, 0, 3, authority()), Err(GameError::InvalidConfiguration));
    assert_eq!(initialize_game(false, 1, 5, 0, authority()), Err(GameError::InvalidConfiguration));
    assert_eq!(initialize_game(false, 1, 5, 7, authority()), Err(GameError::InvalidConfiguration));
    assert_eq!(
        initialize_game(false, 1, MAX_ENTRY_FEE + 1, 2, authority()),
        Err(GameError::InvalidConfiguration)
    );
}

#[test]
fn each_join_adds_one_player_and_one_fee() {
    let mut game = room(250, 6);
    for n in 1..=6u8 {
        assert_eq!(join_game(&mut game, player(n), Ok(())), Ok(()));
        assert_eq!(game.current_players(), n);
        assert_eq!(game.total_pool(), 250 * n as u64);
        assert_eq!(game.players().len(), n as usize);
        assert_eq!(game.players()[n as usize - 1], player(n));
    }
    let expected: Vec<Identity> = (1..=6u8).map(player).collect();
    assert_eq!(*game.players(), expected);
}

#[test]
fn pool_of_a_full_room_at_the_largest_fee_fits() {
    let game = room_with(MAX_ENTRY_FEE, 6, 6);
    assert_eq!(game.total_pool(), 18_446_744_073_709_551_612);
    assert_eq!(game.status(), GameStatus::Active);
}

#[test]
fn last_seat_puts_the_room_in_play() {
    let mut game = room(10, 3);
    join_game(&mut game, player(1), Ok(())).unwrap();
    assert_eq!(game.status(), GameStatus::Waiting);
    join_game(&mut game, player(2), Ok(())).unwrap();
    assert_eq!(game.status(), GameStatus::Waiting);
    join_game(&mut game, player(3), Ok(())).unwrap();
    assert_eq!(game.status(), GameStatus::Active);
    assert_eq!(game.current_players(), 3);
    assert_eq!(game.players()[2], player(3));
}

#[test]
fn single_seat_room_is_in_play_after_one_join() {
    let mut game = room(10, 1);
    join_game(&mut game, player(1), Ok(())).unwrap();
    assert_eq!(game.status(), GameStatus::Active);
    assert_eq!(game.total_pool(), 10);
}

#[test]
fn full_waiting_room_refuses_with_room_full() {
    let mut game = stored(GameStatus::Waiting, 2, 2);
    let before = game.clone();
    assert_eq!(stake_transfer(&game, player(3)), Err(GameError::RoomFull));
    assert_eq!(join_game(&mut game, player(3), Ok(())), Err(GameError::RoomFull));
    assert_eq!(join_game(&mut game, player(1), Ok(())), Err(GameError::RoomFull));
    assert_eq!(
        join_game(&mut game, player(3), Err(TransferError::InsufficientFunds)),
        Err(GameError::RoomFull)
    );
    assert_eq!(game, before);
}

#[test]
fn room_that_is_not_waiting_refuses_with_room_not_waiting() {
    for status in [GameStatus::Active, GameStatus::Finished, GameStatus::Cancelled] {
        for joined in [1u8, 2u8] {
            let mut game = stored(status, 2, joined);
            let before = game.clone();
            assert_eq!(stake_transfer(&game, player(3)), Err(GameError::RoomNotWaiting));
            assert_eq!(join_game(&mut game, player(3), Ok(())), Err(GameError::RoomNotWaiting));
            assert_eq!(join_game(&mut game, player(1), Ok(())), Err(GameError::RoomNotWaiting));
            assert_eq!(game, before);
        }
    }
}

#[test]
fn filled_room_refuses_the_next_player() {
    let mut game = room_with(10, 3, 3);
    let before = game.clone();
    assert_eq!(join_game(&mut game, player(4), Ok(())), Err(GameError::RoomNotWaiting));
    assert_eq!(game, before);
}

#[test]
fn player_joins_only_once() {
    let mut game = room_with(10, 4, 2);
    let before = game.clone();
    assert_eq!(stake_transfer(&game, player(1)), Err(GameError::AlreadyJoined));
    assert_eq!(join_game(&mut game, player(1), Ok(())), Err(GameError::AlreadyJoined));
    assert_eq!(join_game(&mut game, player(2), Ok(())), Err(GameError::AlreadyJoined));
    assert_eq!(game, before);
}

#[test]
fn failed_stake_transfer_leaves_the_room_untouched() {
    let mut game = room_with(10, 4, 2);
    let before = game.clone();
    assert_eq!(
        join_game(&mut game, player(3), Err(TransferError::InsufficientFunds)),
        Err(GameError::InsufficientFunds)
    );
    assert_eq!(
        join_game(&mut game, player(3), Err(TransferError::TransferRejected)),
        Err(GameError::TransferRejected)
    );
    assert_eq!(game, before);
    assert_eq!(join_game(&mut game, player(3), Ok(())), Ok(()));
    assert_eq!(game.current_players(), 3);
}

#[test]
fn stake_is_the_entry_fee_from_the_player_into_escrow() {
    let game = room_with(1_000_000, 3, 1);
    assert_eq!(
        stake_transfer(&game, player(2)),
        Ok(Transfer { from: Party::Holder(player(2)), to: Party::Escrow, amount: 1_000_000 })
    );
}

#[test]
fn power_up_needs_a_room_in_play() {
    let game = room_with(1_000_000, 6, 4);
    assert_eq!(game.status(), GameStatus::Waiting);
    for n in 1..=4u8 {
        assert_eq!(
            use_power_up(&game, player(n), PowerUpType::FreezeRay, Ok(())),
            Err(GameError::RoomNotActive)
        );
        assert_eq!(
            power_up_transfer(&game, player(n), PowerUpType::FreezeRay),
            Err(GameError::RoomNotActive)
        );
    }
    for status in [GameStatus::Finished, GameStatus::Cancelled] {
        let game = stored(status, 2, 2);
        assert_eq!(
            use_power_up(&game, player(1), PowerUpType::FreezeRay, Ok(())),
            Err(GameError::RoomNotActive)
        );
    }
}

#[test]
fn power_up_needs_a_seat() {
    let game = room_with(10, 2, 2);
    assert_eq!(
        use_power_up(&game, player(3), PowerUpType::FreezeRay, Ok(())),
        Err(GameError::PlayerNotInRoom)
    );
    assert_eq!(
        use_power_up(&game, authority(), PowerUpType::FreezeRay, Ok(())),
        Err(GameError::PlayerNotInRoom)
    );
    assert_eq!(
        power_up_transfer(&game, player(3), PowerUpType::FreezeRay),
        Err(GameError::PlayerNotInRoom)
    );
}

#[test]
fn power_up_burns_its_price_and_leaves_the_room_alone() {
    let game = room_with(10, 2, 2);
    let before = game.clone();
    assert_eq!(
        power_up_transfer(&game, player(2), PowerUpType::FreezeRay),
        Ok(Transfer { from: Party::Holder(player(2)), to: Party::Sink, amount: 1_000_000 })
    );
    assert_eq!(use_power_up(&game, player(2), PowerUpType::FreezeRay, Ok(())), Ok(1_000_000));
    assert_eq!(game, before);
    assert_eq!(game.total_pool(), 20);
    assert_eq!(game.status(), GameStatus::Active);
}

#[test]
fn failed_power_up_payment_passes_through() {
    let game = room_with(10, 2, 2);
    assert_eq!(
        use_power_up(&game, player(1), PowerUpType::FreezeRay, Err(TransferError::InsufficientFunds)),
        Err(GameError::InsufficientFunds)
    );
    assert_eq!(
        use_power_up(&game, player(1), PowerUpType::FreezeRay, Err(TransferError::TransferRejected)),
        Err(GameError::TransferRejected)
    );
    assert_eq!(
        use_power_up(&game, player(3), PowerUpType::FreezeRay, Err(TransferError::TransferRejected)),
        Err(GameError::PlayerNotInRoom)
    );
}

#[test]
fn three_players_fill_and_settle_a_room() {
    let (a, b, c) = (player(1), player(2), player(3));
    let mut game = room(1_000_000, 3);
    join_game(&mut game, a, Ok(())).unwrap();
    join_game(&mut game, b, Ok(())).unwrap();
    join_game(&mut game, c, Ok(())).unwrap();
    assert_eq!(game.total_pool(), 3_000_000);
    assert_eq!(game.status(), GameStatus::Active);
    let dues =
        distribute_rewards(&mut game, authority(), [Some(a), Some(b), Some(c)], [100, 80, 50])
            .unwrap();
    assert_eq!(
        dues,
        [
            Some(Disbursement { place: 1, winner: a, amount: 1_500_000, score: 100 }),
            Some(Disbursement { place: 2, winner: b, amount: 900_000, score: 80 }),
            Some(Disbursement { place: 3, winner: c, amount: 600_000, score: 50 }),
        ]
    );
    assert_eq!(game.status(), GameStatus::Finished);
    assert_eq!(game.winners(), [Some(a), Some(b), Some(c)]);
    assert_eq!(game.final_scores(), [100, 80, 50]);
    assert_eq!(game.total_pool(), 3_000_000);
    assert_eq!(*game.players(), vec![a, b, c]);
}

#[test]
fn empty_slots_and_zero_prizes_are_owed_nothing() {
    let mut game = room_with(2, 2, 2);
    assert_eq!(game.total_pool(), 4);
    let dues = distribute_rewards(
        &mut game,
        authority(),
        [Some(player(2)), None, Some(player(1))],
        [9, 8, 7],
    )
    .unwrap();
    assert_eq!(
        dues,
        [Some(Disbursement { place: 1, winner: player(2), amount: 2, score: 9 }), None, None]
    );
    assert_eq!(game.winners(), [Some(player(2)), None, Some(player(1))]);
    assert_eq!(game.final_scores(), [9, 8, 7]);

    let mut tiny = room_with(1, 1, 1);
    let dues = distribute_rewards(
        &mut tiny,
        authority(),
        [Some(player(1)), Some(player(1)), Some(player(1))],
        [1, 1, 1],
    )
    .unwrap();
    assert_eq!(dues, [None, None, None]);
    assert_eq!(tiny.status(), GameStatus::Finished);
}

#[test]
fn only_the_authority_settles() {
    let mut game = room_with(10, 2, 2);
    let before = game.clone();
    assert_eq!(
        distribute_rewards(&mut game, player(1), [Some(player(1)), None, None], [1, 0, 0]),
        Err(GameError::Unauthorized)
    );
    assert_eq!(game, before);
    let mut waiting = room_with(10, 3, 2);
    assert_eq!(
        distribute_rewards(&mut waiting, player(1), [Some(player(1)), None, None], [1, 0, 0]),
        Err(GameError::Unauthorized)
    );
}

#[test]
fn only_a_room_in_play_is_settled() {
    for status in [GameStatus::Waiting, GameStatus::Finished, GameStatus::Cancelled] {
        let mut game = stored(status, 2, 2);
        let before = game.clone();
        assert_eq!(
            distribute_rewards(&mut game, authority(), [Some(player(1)), None, None], [1, 0, 0]),
            Err(GameError::RoomNotActive)
        );
        assert_eq!(game, before);
    }
}

#[test]
fn room_is_settled_once() {
    let mut game = room_with(10, 2, 2);
    distribute_rewards(&mut game, authority(), [Some(player(1)), Some(player(2)), None], [5, 4, 0])
        .unwrap();
    let settled = game.clone();
    assert_eq!(
        distribute_rewards(&mut game, authority(), [Some(player(2)), Some(player(1)), None], [9, 9, 9]),
        Err(GameError::RoomNotActive)
    );
    assert_eq!(game, settled);
    assert_eq!(game.winners(), [Some(player(1)), Some(player(2)), None]);
    assert_eq!(game.final_scores(), [5, 4, 0]);
}

#[test]
fn waiting_room_is_cancelled_and_refunded() {
    let mut game = room_with(10, 4, 3);
    let refunds = refund_transfers(&game, authority()).unwrap();
    assert_eq!(
        refunds,
        vec![
            Transfer { from: Party::Escrow, to: Party::Holder(player(1)), amount: 10 },
            Transfer { from: Party::Escrow, to: Party::Holder(player(2)), amount: 10 },
            Transfer { from: Party::Escrow, to: Party::Holder(player(3)), amount: 10 },
        ]
    );
    assert_eq!(refunds.iter().map(|t| t.amount).sum::<u64>(), game.total_pool());
    assert_eq!(emergency_end_game(&mut game, authority(), Ok(())), Ok(()));
    assert_eq!(game.status(), GameStatus::Cancelled);
    assert_eq!(game.total_pool(), 0);
    assert_eq!(game.current_players(), 3);
    assert_eq!(*game.players(), vec![player(1), player(2), player(3)]);
}

#[test]
fn room_in_play_is_cancelled_and_refunded() {
    let mut game = room_with(10, 2, 2);
    assert_eq!(game.status(), GameStatus::Active);
    assert_eq!(refund_transfers(&game, authority()).unwrap().len(), 2);
    assert_eq!(emergency_end_game(&mut game, authority(), Ok(())), Ok(()));
    assert_eq!(game.status(), GameStatus::Cancelled);
    assert_eq!(game.total_pool(), 0);
}

#[test]
fn empty_room_is_cancelled_without_refunds() {
    let mut game = room(10, 2);
    assert_eq!(refund_transfers(&game, authority()), Ok(vec![]));
    assert_eq!(emergency_end_game(&mut game, authority(), Ok(())), Ok(()));
    assert_eq!(game.status(), GameStatus::Cancelled);
}

#[test]
fn finished_room_is_not_cancelled() {
    let mut game = room_with(10, 2, 2);
    distribute_rewards(&mut game, authority(), [Some(player(1)), None, None], [5, 0, 0]).unwrap();
    let before = game.clone();
    assert_eq!(refund_transfers(&game, authority()), Err(GameError::RoomNotActive));
    assert_eq!(emergency_end_game(&mut game, authority(), Ok(())), Err(GameError::RoomNotActive));
    assert_eq!(game, before);
    assert_eq!(game.status(), GameStatus::Finished);
}

#[test]
fn room_is_cancelled_once() {
    let mut game = room_with(10, 3, 2);
    emergency_end_game(&mut game, authority(), Ok(())).unwrap();
    let before = game.clone();
    assert_eq!(refund_transfers(&game, authority()), Err(GameError::RoomNotActive));
    assert_eq!(emergency_end_game(&mut game, authority(), Ok(())), Err(GameError::RoomNotActive));
    assert_eq!(game, before);
}

#[test]
fn only_the_authority_cancels() {
    for status in
        [GameStatus::Waiting, GameStatus::Active, GameStatus::Finished, GameStatus::Cancelled]
    {
        let mut game = stored(status, 2, 2);
        let before = game.clone();
        assert_eq!(refund_transfers(&game, player(1)), Err(GameError::Unauthorized));
        assert_eq!(emergency_end_game(&mut game, player(1), Ok(())), Err(GameError::Unauthorized));
        assert_eq!(game, before);
    }
}

#[test]
fn failed_refunds_leave_the_room_untouched() {
    let mut game = room_with(10, 3, 2);
    let before = game.clone();
    assert_eq!(
        emergency_end_game(&mut game, authority(), Err(TransferError::TransferRejected)),
        Err(GameError::TransferRejected)
    );
    assert_eq!(
        emergency_end_game(&mut game, authority(), Err(TransferError::InsufficientFunds)),
        Err(GameError::InsufficientFunds)
    );
    assert_eq!(game, before);
    assert_eq!(game.status(), GameStatus::Waiting);
    assert_eq!(game.total_pool(), 20);
}

#[test]
fn cancelled_room_takes_no_player_and_no_settlement() {
    let mut game = room_with(10, 3, 2);
    emergency_end_game(&mut game, authority(), Ok(())).unwrap();
    let before = game.clone();
    assert_eq!(join_game(&mut game, player(3), Ok(())), Err(GameError::RoomNotWaiting));
    assert_eq!(
        distribute_rewards(&mut game, authority(), [Some(player(1)), None, None], [1, 0, 0]),
        Err(GameError::RoomNotActive)
    );
    assert_eq!(
        use_power_up(&game, player(1), PowerUpType::FreezeRay, Ok(())),
        Err(GameError::RoomNotActive)
    );
    assert_eq!(game, before);
}
