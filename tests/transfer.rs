use sol_transfer::address::Address;
use sol_transfer::balance::{check_sufficient_balance, required_balance};
use sol_transfer::error::TransferError;
use sol_transfer::keypair::SenderKeypair;
use sol_transfer::transfer::{submit_error, Action, Event, Stage, SubmitFailure, TransferRequest, TransferRun};

// RFC 8032 test 1: secret seed followed by its public key.
const KEYPAIR_TEXT: &str =
    "49W385L4rePHy6PAaQUovbD2aacgN4HsKXSMeUzRg4fmwXszN91JuMFrQRj3vMDpZuRF3ZknQBuRBoWQJEfXstMw";
const PUBLIC_KEY: [u8; 32] = [
    215, 90, 152, 1, 130, 177, 10, 183, 213, 75, 254, 211, 201, 100, 7, 58, 14, 225, 114, 243, 218,
    166, 35, 37, 175, 2, 26, 104, 247, 7, 81, 26,
];
const PUBLIC_TEXT: &str = "FVen3X669xLzsi6N2V91DoiyzHzg1uAgqiT8jZ9nS96Z";
// The first 63 bytes of the key pair above.
const SHORT_KEY_TEXT: &str =
    "iMAznqj7GGUQaqyYasFi9CnfsfSgfMb4Hs9kqUxtSkgBYTxbF3nk8JsAPNJt4DsepDk4JPcD3vZfhShAo9H4Nc";
// The same seed with one bit of the public half flipped.
const MISMATCHED_KEY_TEXT: &str =
    "49W385L4rePHy6PAaQUovbD2aacgN4HsKXSMeUzRg4fmwTyaieHE1Wm8zjc5QqxNfyg1nZC1hEoWbwCWo3MYA5hb";
// The bytes 1, 2, ..., 32.
const DEST_TEXT: &str = "4wBqpZM9xaSheZzJSMawUKKwhdpChKbZ5eu5ky4Vigw";

fn dest_bytes() -> [u8; 32] {
    let mut b = [0u8; 32];
    for (i, x) in b.iter_mut().enumerate() {
        *x = (i + 1) as u8;
    }
    b
}

fn request(amount: u64, min_reserve: u64) -> TransferRequest {
    TransferRequest::new(DEST_TEXT, amount, min_reserve, true).unwrap()
}

fn run(amount: u64, min_reserve: u64) -> TransferRun {
    TransferRun::new(request(amount, min_reserve), SenderKeypair::load(KEYPAIR_TEXT).unwrap())
}

/// A chain that keeps one balance and counts submissions.
struct FakeChain {
    balance: u64,
    submissions: u32,
    outcome: Result<String, SubmitFailure>,
}

impl FakeChain {
    fn drive(&mut self, mut run: TransferRun, amount: u64) -> Result<String, TransferError> {
        let mut event = Event::BalanceRead(Some(self.balance));
        loop {
            assert!(run.accepts(&event));
            match run.step(event) {
                Action::QueryAnchor => event = Event::AnchorRead(Some([7u8; 32])),
                Action::Submit { .. } => {
                    self.submissions += 1;
                    if self.outcome.is_ok() {
                        self.balance -= amount;
                    }
                    event = Event::SubmitOutcome(self.outcome.clone());
                }
                Action::Finish(r) => return r,
            }
        }
    }
}

#[test]
fn scenario_a_sufficient() {
    assert!(check_sufficient_balance(10_000_000_000, 1_000_000_000, 5_000_000));
}

#[test]
fn scenario_b_insufficient_reports_shortfall() {
    assert!(!check_sufficient_balance(1_000_000_000, 1_000_000_000, 5_000_000));
    let mut r = run(1_000_000_000, 5_000_000);
    match r.step(Event::BalanceRead(Some(1_000_000_000))) {
        Action::Finish(Err(e)) => assert_eq!(
            e,
            TransferError::InsufficientBalance { current: 1_000_000_000, required: 1_005_000_000 }
        ),
        _ => panic!("expected the run to end"),
    }
    assert_eq!(r.stage(), Stage::Failed);
}

#[test]
fn balance_exactly_required_is_sufficient() {
    assert!(check_sufficient_balance(1_005_000_000, 1_000_000_000, 5_000_000));
    assert!(!check_sufficient_balance(1_004_999_999, 1_000_000_000, 5_000_000));
}

#[test]
fn balance_check_does_not_wrap() {
    assert!(!check_sufficient_balance(u64::MAX, u64::MAX, 1));
    assert!(!check_sufficient_balance(0, 1, u64::MAX));
    assert!(check_sufficient_balance(u64::MAX, u64::MAX, 0));
    assert_eq!(required_balance(u64::MAX, u64::MAX), 2 * (u64::MAX as u128));
}

#[test]
fn scenario_c_short_key_is_invalid_length() {
    assert_eq!(SenderKeypair::load(SHORT_KEY_TEXT).err(), Some(TransferError::InvalidKeyLength));
    assert_eq!(SenderKeypair::load(PUBLIC_TEXT).err(), Some(TransferError::InvalidKeyLength));
    assert_eq!(SenderKeypair::load("").err(), Some(TransferError::InvalidKeyLength));
}

#[test]
fn load_known_vector_yields_its_account() {
    let a = SenderKeypair::load(KEYPAIR_TEXT).unwrap().address();
    let b = SenderKeypair::load(KEYPAIR_TEXT).unwrap().address();
    assert_eq!(a.bytes, PUBLIC_KEY);
    assert_eq!(b.bytes, PUBLIC_KEY);
}

#[test]
fn load_bad_text_is_invalid_encoding() {
    assert_eq!(SenderKeypair::load("0OIl").err(), Some(TransferError::InvalidEncoding));
}

#[test]
fn load_mismatched_halves_is_construction_error() {
    assert_eq!(
        SenderKeypair::load(MISMATCHED_KEY_TEXT).err(),
        Some(TransferError::KeyConstructionError)
    );
}

#[test]
fn parse_address_reads_bytes() {
    assert_eq!(Address::parse(DEST_TEXT).unwrap().bytes, dest_bytes());
    assert_eq!(Address::parse(PUBLIC_TEXT).unwrap().bytes, PUBLIC_KEY);
    assert_eq!(Address::from_array(PUBLIC_KEY).bytes, PUBLIC_KEY);
}

#[test]
fn scenario_e_malformed_destination() {
    for text in ["", "not-an-address", "0000", KEYPAIR_TEXT] {
        assert_eq!(
            TransferRequest::new(text, 1, 0, true).err(),
            Some(TransferError::InvalidAddress)
        );
    }
}

#[test]
fn request_keeps_its_fields() {
    let q = TransferRequest::new(DEST_TEXT, 42, 7, false).unwrap();
    assert_eq!(q.destination.bytes, dest_bytes());
    assert_eq!((q.amount, q.min_reserve, q.skip_preflight), (42, 7, false));
}

#[test]
fn run_source_is_the_key_account() {
    let r = run(1, 0);
    assert_eq!(r.source().bytes, PUBLIC_KEY);
    assert_eq!(r.stage(), Stage::Idle);
}

#[test]
fn successful_run_signs_and_finishes() {
    let mut r = run(1_000_000_000, 5_000_000);
    assert!(matches!(r.step(Event::BalanceRead(Some(10_000_000_000))), Action::QueryAnchor));
    assert_eq!(r.stage(), Stage::BalanceChecked);
    match r.step(Event::AnchorRead(Some([9u8; 32]))) {
        Action::Submit { tx, skip_preflight } => {
            assert!(skip_preflight);
            let tx = tx.transaction();
            assert!(tx.verify().is_ok());
            assert!(tx.is_signed());
            assert_eq!(tx.signatures.len(), 1);
            assert_eq!(tx.message.header.num_required_signatures, 1);
            assert_eq!(tx.message.recent_blockhash.to_bytes(), [9u8; 32]);
            assert_eq!(tx.message.account_keys[0].to_bytes(), PUBLIC_KEY);
            assert_eq!(tx.message.account_keys[1].to_bytes(), dest_bytes());
            assert_eq!(tx.message.instructions.len(), 1);
            // System transfer: variant 2, then the amount in little-endian.
            let mut data = vec![2u8, 0, 0, 0];
            data.extend_from_slice(&1_000_000_000u64.to_le_bytes());
            assert_eq!(tx.message.instructions[0].data, data);
        }
        _ => panic!("expected a signed transaction"),
    }
    assert_eq!(r.stage(), Stage::TransactionSigned);
    match r.step(Event::SubmitOutcome(Ok("sig".to_string()))) {
        Action::Finish(Ok(s)) => assert_eq!(s, "sig"),
        _ => panic!("expected success"),
    }
    assert_eq!(r.stage(), Stage::Submitted);
    assert!(!r.accepts(&Event::BalanceRead(Some(1))));
}

#[test]
fn scenario_d_timeout_is_indeterminate() {
    let mut chain = FakeChain { balance: 10_000_000_000, submissions: 0, outcome: Err(SubmitFailure::Timeout) };
    let r = chain.drive(run(1_000_000_000, 5_000_000), 1_000_000_000);
    assert_eq!(r, Err(TransferError::Timeout));
    assert!(r.unwrap_err().is_indeterminate());
    assert_eq!(chain.submissions, 1);
}

#[test]
fn submit_failures_map_to_errors() {
    assert_eq!(submit_error(SubmitFailure::Network), TransferError::NetworkError);
    assert_eq!(submit_error(SubmitFailure::Rejected), TransferError::RejectedByChain);
    assert_eq!(submit_error(SubmitFailure::Timeout), TransferError::Timeout);
    assert!(!TransferError::RejectedByChain.is_indeterminate());
}

#[test]
fn failed_queries_end_with_network_error() {
    let mut r = run(1, 0);
    assert!(matches!(r.step(Event::BalanceRead(None)), Action::Finish(Err(TransferError::NetworkError))));
    assert_eq!(r.stage(), Stage::Failed);
    let mut r = run(1, 0);
    r.step(Event::BalanceRead(Some(5)));
    assert!(matches!(r.step(Event::AnchorRead(None)), Action::Finish(Err(TransferError::NetworkError))));
    assert_eq!(r.stage(), Stage::Failed);
}

#[test]
fn insufficient_balance_never_submits() {
    let mut chain = FakeChain { balance: 1_000_000_000, submissions: 0, outcome: Ok("sig".to_string()) };
    let r = chain.drive(run(1_000_000_000, 5_000_000), 1_000_000_000);
    assert!(matches!(r, Err(TransferError::InsufficientBalance { .. })));
    assert_eq!(chain.submissions, 0);
}

#[test]
fn second_run_sees_the_first_debit() {
    let mut chain = FakeChain { balance: 1_500_000_000, submissions: 0, outcome: Ok("sig".to_string()) };
    assert_eq!(chain.drive(run(1_000_000_000, 5_000_000), 1_000_000_000), Ok("sig".to_string()));
    let second = chain.drive(run(1_000_000_000, 5_000_000), 1_000_000_000);
    assert_eq!(
        second,
        Err(TransferError::InsufficientBalance { current: 500_000_000, required: 1_005_000_000 })
    );
    assert_eq!(chain.submissions, 1);
}
