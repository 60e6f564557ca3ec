use sol_batch_transfer::config::{Config, ConfigError, LAMPORTS_PER_SOL};
use sol_batch_transfer::dispatch::{plan_transfers, Action, Event, Outcome, Phase, TransferPlan, TransferTask};
use sol_batch_transfer::keys::KeyError;
use solana_sdk::signature::Keypair;
use solana_sdk::signer::Signer;

fn started(plan: &TransferPlan) -> TransferTask {
    match TransferTask::start(plan) {
        Ok((task, Action::QueryBalance(addr))) => {
            assert_eq!(addr, task.sender_address());
            task
        }
        Ok(_) => panic!("a new transfer asks for the balance first"),
        Err(o) => panic!("start failed: {:?}", o),
    }
}

fn plan(sender: &Keypair, recipient: &Keypair, lamports: u64) -> TransferPlan {
    TransferPlan {
        sender: sender.to_base58_string(),
        recipient: recipient.pubkey().to_string(),
        lamports,
    }
}

#[test]
fn empty_sender_list_is_refused() {
    let r = Config::new(vec![], vec!["x".to_string()], 5);
    assert_eq!(r.err(), Some(ConfigError::NoSenders));
}

#[test]
fn zero_amount_is_refused() {
    let r = Config::new(vec!["s".to_string()], vec!["x".to_string()], 0);
    assert_eq!(r.err(), Some(ConfigError::ZeroAmount));
}

#[test]
fn recipients_are_paired_with_senders_cyclically() {
    let senders: Vec<String> = vec!["s0".into(), "s1".into()];
    let to: Vec<String> = (0..5).map(|i| format!("r{}", i)).collect();
    let config = Config::new(senders, to, 7).unwrap();
    let plans = plan_transfers(&config);
    assert_eq!(plans.len(), 5);
    for (i, p) in plans.iter().enumerate() {
        assert_eq!(p.sender, format!("s{}", i % 2));
        assert_eq!(p.recipient, format!("r{}", i));
        assert_eq!(p.lamports, 7);
    }
}

#[test]
fn no_recipients_no_transfers() {
    let config = Config::new(vec!["s".into()], vec![], 1).unwrap();
    assert!(plan_transfers(&config).is_empty());
}

#[test]
fn low_balance_finishes_without_submitting() {
    let s = Keypair::new();
    let r = Keypair::new();
    let mut task = started(&plan(&s, &r, 10));
    let a = task.step(Event::Balance(Ok(9)));
    assert!(matches!(a, Action::Finish(Outcome::InsufficientFunds { balance: 9, needed: 10 })));
    assert_eq!(task.phase, Phase::Done);
    assert!(matches!(task.step(Event::Blockhash(Ok([1u8; 32]))), Action::Wait));
    assert!(matches!(task.step(Event::Confirmation(Ok([1u8; 64]))), Action::Wait));
}

#[test]
fn full_transfer_reports_signature() {
    let s = Keypair::new();
    let r = Keypair::new();
    let mut task = started(&plan(&s, &r, 10));
    assert_eq!(task.recipient_address(), r.pubkey().to_string());
    assert!(matches!(task.step(Event::Balance(Ok(10))), Action::FetchBlockhash));
    match task.step(Event::Blockhash(Ok([3u8; 32]))) {
        Action::Submit(o) => {
            assert_eq!(o.sender, s.to_bytes().to_vec());
            assert_eq!(o.recipient, r.pubkey().to_bytes().to_vec());
            assert_eq!(o.lamports, 10);
            assert_eq!(o.blockhash, [3u8; 32]);
        }
        _ => panic!("expected a submission"),
    }
    match task.step(Event::Confirmation(Ok([0u8; 64]))) {
        Action::Finish(Outcome::Success(sig)) => assert_eq!(sig, "1".repeat(64)),
        _ => panic!("expected success"),
    }
    assert_eq!(task.phase, Phase::Done);
}

#[test]
fn signature_text_is_base58_of_its_bytes() {
    let s = Keypair::new();
    let mut task = started(&plan(&s, &Keypair::new(), 1));
    task.step(Event::Balance(Ok(1)));
    task.step(Event::Blockhash(Ok([0u8; 32])));
    let sig = [5u8; 64];
    match task.step(Event::Confirmation(Ok(sig))) {
        Action::Finish(Outcome::Success(text)) => {
            assert!(!text.is_empty());
            assert_eq!(text, bs58::encode(sig).into_string());
        }
        _ => panic!("expected success"),
    }
}

#[test]
fn network_errors_end_the_transfer() {
    let s = Keypair::new();
    let r = Keypair::new();
    let mut t1 = started(&plan(&s, &r, 1));
    assert!(matches!(t1.step(Event::Balance(Err("down".into()))), Action::Finish(Outcome::BalanceQueryError(m)) if m == "down"));
    let mut t2 = started(&plan(&s, &r, 1));
    t2.step(Event::Balance(Ok(5)));
    assert!(matches!(t2.step(Event::Blockhash(Err("nohash".into()))), Action::Finish(Outcome::BlockhashFetchError(m)) if m == "nohash"));
    let mut t3 = started(&plan(&s, &r, 1));
    t3.step(Event::Balance(Ok(5)));
    t3.step(Event::Blockhash(Ok([2u8; 32])));
    assert!(matches!(t3.step(Event::Confirmation(Err("rejected".into()))), Action::Finish(Outcome::SubmissionError(m)) if m == "rejected"));
    assert_eq!(t3.phase, Phase::Done);
}

#[test]
fn out_of_order_event_is_ignored() {
    let mut task = started(&plan(&Keypair::new(), &Keypair::new(), 1));
    assert!(matches!(task.step(Event::Confirmation(Ok([1u8; 64]))), Action::Wait));
    assert_eq!(task.phase, Phase::AwaitBalance);
    assert_eq!(task.balance, None);
}

#[test]
fn undecodable_keys_end_before_any_network_call() {
    let good = Keypair::new();
    let bad_sender = TransferPlan { sender: "0OIl".into(), recipient: good.pubkey().to_string(), lamports: 1 };
    assert!(matches!(TransferTask::start(&bad_sender), Err(Outcome::KeyDecodeError(KeyError::DecodeError))));
    let bad_recipient = TransferPlan {
        sender: good.to_base58_string(),
        recipient: bs58::encode([1u8; 5]).into_string(),
        lamports: 1,
    };
    assert!(matches!(TransferTask::start(&bad_recipient), Err(Outcome::KeyDecodeError(KeyError::InvalidKeyLength(5)))));
}

#[test]
fn one_sender_two_recipients_half_coin_each() {
    let s1 = Keypair::new();
    let r1 = Keypair::new();
    let r2 = Keypair::new();
    let config = Config::new(
        vec![s1.to_base58_string()],
        vec![r1.pubkey().to_string(), r2.pubkey().to_string()],
        LAMPORTS_PER_SOL / 2,
    )
    .unwrap();
    let plans = plan_transfers(&config);
    assert_eq!(plans.len(), 2);
    let mut successes = 0;
    for (p, r) in plans.iter().zip([&r1, &r2]) {
        let mut task = started(p);
        assert_eq!(task.sender_address(), s1.pubkey().to_string());
        assert_eq!(task.recipient_address(), r.pubkey().to_string());
        assert!(matches!(task.step(Event::Balance(Ok(LAMPORTS_PER_SOL))), Action::FetchBlockhash));
        match task.step(Event::Blockhash(Ok([4u8; 32]))) {
            Action::Submit(o) => assert_eq!(o.lamports, 500_000_000),
            _ => panic!("expected a submission"),
        }
        if let Action::Finish(Outcome::Success(sig)) = task.step(Event::Confirmation(Ok([8u8; 64]))) {
            assert!(!sig.is_empty());
            successes += 1;
        }
    }
    assert_eq!(successes, 2);
}
