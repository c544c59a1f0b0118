use timelock_auction::access::{BurnSuccess, ConditionSuccess, LimitedUseToken};
use timelock_auction::account::AccountId;
use timelock_auction::exchange::IrisErr;
use timelock_auction::game::{ClockError, ClockU8, DecryptedData, EventConfig, GameEvent, TlockMessage};
use timelock_auction::guess::TlockGuessANumber;
use timelock_auction::society::{CiphertextVerification, Society};

fn id(n: u8) -> AccountId {
    AccountId::new([n; 32])
}

#[test]
fn token_default_works() {
    let limited_use_token = LimitedUseToken::default();
    assert_eq!(limited_use_token.asset_id(), 0);
    assert_eq!(limited_use_token.usage_limit(), 0);
}

#[test]
fn token_holds_what_it_was_made_with() {
    let token = LimitedUseToken::new(4, 9);
    assert_eq!(token.asset_id(), 4);
    assert_eq!(token.usage_limit(), 9);
    assert_eq!(token.access_count(&id(1)), None);
    assert_eq!(Ok::<ConditionSuccess, BurnSuccess>(ConditionSuccess {}).is_ok(), true);
}

#[test]
fn iris_status_is_read() {
    assert_eq!(IrisErr::from_status_code(0), Err(IrisErr::FailTransferAsset));
    assert_eq!(IrisErr::from_status_code(1), Err(IrisErr::FailMintAssets));
    assert_eq!(IrisErr::from_status_code(2), Err(IrisErr::FailLockCurrency));
    assert_eq!(IrisErr::from_status_code(3), Err(IrisErr::FailUnlockCurrency));
}

#[test]
fn guesses_are_kept_in_order_of_joining() {
    let mut game = TlockGuessANumber::new(vec![1, 2], [7u8; 32], vec![9u8; 12], vec![3u8]);
    assert_eq!(game.get_nonce(), vec![9u8; 12]);
    assert!(game.get_participants().is_empty());
    assert!(game.sealed_messages().is_empty());
    game.publish(id(2), vec![20]);
    game.publish(id(1), vec![10]);
    game.publish(id(2), vec![21, 22]);
    assert_eq!(game.get_participants(), vec![id(2), id(1)]);
    assert_eq!(game.sealed_messages(), vec![vec![21u8, 22u8], vec![10u8]]);
    assert!(game.get_revealed_messages().is_empty());
    game.reveal_messages(vec![vec![1u8], vec![2u8]]);
    assert_eq!(game.get_revealed_messages(), vec![vec![1u8], vec![2u8]]);
    game.reveal_messages(vec![vec![5u8]]);
    assert_eq!(game.get_revealed_messages(), vec![vec![5u8]]);
}

#[test]
fn guess_default_is_empty() {
    let game = TlockGuessANumber::default();
    assert!(game.get_participants().is_empty());
    assert!(game.get_nonce().is_empty());
    assert!(game.get_revealed_messages().is_empty());
}

#[test]
fn society_records_what_was_verified() {
    let mut society = Society::new([4u8; 32]);
    assert_eq!(society.get_society_id(), [4u8; 32]);
    assert_eq!(society.get([1u8; 32]), None);
    society.publish([2u8; 32], [1u8; 32], [3u8; 32], false);
    assert_eq!(society.get([1u8; 32]), None);
    society.publish([2u8; 32], [1u8; 32], [3u8; 32], true);
    assert_eq!(
        society.get([1u8; 32]),
        Some(CiphertextVerification { u: [2u8; 32], w: [3u8; 32] })
    );
    society.publish([5u8; 32], [1u8; 32], [6u8; 32], true);
    assert_eq!(
        society.get([1u8; 32]),
        Some(CiphertextVerification { u: [5u8; 32], w: [6u8; 32] })
    );
    assert_eq!(society.get([2u8; 32]), None);
    assert_eq!(Society::default().get_society_id(), [0u8; 32]);
}

struct CountingClock {
    inputs: u32,
    rounds: Vec<u64>,
}

impl ClockU8 for CountingClock {
    fn execute(&mut self, input: u8) -> Result<(), ClockError> {
        if input > 1 {
            return Err(ClockError::ExecutionFailed);
        }
        self.inputs += 1;
        Ok(())
    }

    fn calculate_result(&mut self, round: u64) -> Result<(), ClockError> {
        self.rounds.push(round);
        Ok(())
    }
}

#[test]
fn game_types_hold_their_fields() {
    let message = TlockMessage {
        ciphertext: vec![1],
        nonce: vec![2],
        capsule: vec![3],
        commitment: vec![4],
    };
    let event = GameEvent { name: Some([1u8; 32]), slot: 9, data: vec![message.clone()] };
    assert_eq!(event.data[0], message);
    assert_eq!(event.slot, 9);
    let config = EventConfig { initial_slot: 3, interval: 4 };
    assert_eq!(config.initial_slot + config.interval, 7);
    let opened = DecryptedData { address: id(1), data: 5u8, msk: [0u8; 32] };
    assert_eq!(opened.data, 5);
    let mut clock = CountingClock { inputs: 0, rounds: vec![] };
    assert_eq!(clock.execute(1), Ok(()));
    assert_eq!(clock.execute(2), Err(ClockError::ExecutionFailed));
    assert_eq!(clock.calculate_result(3), Ok(()));
    assert_eq!(clock.inputs, 1);
    assert_eq!(clock.rounds, vec![3]);
}

#[test]
fn events_without_fields_are_equal_to_themselves() {
    assert_eq!(
        timelock_auction::access::DataRequestSubmitted {},
        timelock_auction::access::DataRequestSubmitted {}
    );
    assert_eq!(
        timelock_auction::access::ResultsSubmitted {},
        timelock_auction::access::ResultsSubmitted {}
    );
    assert_eq!(
        timelock_auction::exchange::NewTokenSaleSuccess {},
        timelock_auction::exchange::NewTokenSaleSuccess {}
    );
}
