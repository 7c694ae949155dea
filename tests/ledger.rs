use coupler::auth::{Permissions, ReadGrant, ReceiveGrant, SpendGrant, Token, TokenHash, TokenId};
use coupler::balance::{Balance, Reservation, ReservationStatus};
use coupler::btc::{Address, MilliSats, Sats, Tx, TxId, TxOut};
use coupler::cash_limits::{self, Amounts, CashLimits};
use coupler::concurrency::{after_attempt, RetryStep, MAX_RETRIES};
use coupler::config::LimitsConfig;
use coupler::deposit;
use coupler::hex::Hex;
use coupler::invoice::{self, max_settle_index, ExpiryProblem, Invoice};
use coupler::ln::{RawInvoice, SettledInvoice};
use coupler::range::{check_limit, check_offset, Range, RangeError};
use coupler::seconds::Seconds;
use coupler::sys::Timestamp;
use coupler::user;
use coupler::withdrawal::{self, SendStep, Withdrawal};

const USER: user::Id = user::Id(7);

fn tx_out(tx: &str, height: Option<u32>, address: &str, v_out: i64, sats: i64) -> TxOut {
    TxOut {
        tx: Tx { id: TxId(tx.to_owned()), block_height: height },
        address: Address(address.to_owned()),
        v_out,
        amount: Sats(sats),
    }
}

fn limits(min: i64, max: i64, daily: i64) -> CashLimits {
    CashLimits { min: MilliSats(min), max: MilliSats(max), daily: MilliSats(daily) }
}

#[test]
fn hex_encodes_two_lowercase_digits_per_byte() {
    assert_eq!(Hex::encode(&[0x00, 0x0f, 0xab, 0xff]).as_str(), "000fabff");
    assert_eq!(Hex::encode(&[]).as_str(), "");
}

#[test]
fn token_hash_is_hex_sha256() {
    assert_eq!(
        TokenHash::generate("abc").as_str(),
        "ba7816bf8f01cfea414140de5dae2223b00361a396177a9cb410ff61f20015ad"
    );
}

fn token(disabled: bool, spend: bool, receive: bool, read: bool) -> Token {
    Token {
        id: TokenId(3),
        user_id: USER,
        permissions: Permissions { can_spend: spend, can_receive: receive, can_read: read },
        disabled: if disabled { Some(Timestamp(1)) } else { None },
    }
}

#[test]
fn grants_follow_permissions() {
    let t = token(false, true, false, true);
    let g = t.spend_grant().unwrap();
    assert_eq!(g.user_id, USER);
    assert_eq!(g.token_id, TokenId(3));
    assert!(t.receive_grant().is_err());
    assert!(t.read_grant().is_ok());
}

#[test]
fn disabled_token_grants_nothing() {
    let t = token(true, true, true, true);
    assert!(t.spend_grant().is_err());
    assert!(t.receive_grant().is_err());
    assert!(t.read_grant().is_err());
}

#[test]
fn balance_reserve_and_credit() {
    let mut b = Balance::new(USER, MilliSats(1000));
    assert!(!b.changed());
    let r = b.reserve(MilliSats(400)).unwrap();
    assert_eq!(r.amount, MilliSats(400));
    assert_eq!(r.status, ReservationStatus::Pending);
    assert_eq!(r.user_id, USER);
    assert_eq!(b.amount(), MilliSats(600));
    assert_eq!(b.original_amount(), MilliSats(1000));
    assert!(b.changed());
    b.credit(MilliSats(50));
    assert_eq!(b.amount(), MilliSats(650));
    assert_eq!(b.user_id(), USER);
}

#[test]
fn reserve_more_than_balance_fails_unchanged() {
    let mut b = Balance::new(USER, MilliSats(1000));
    assert!(b.reserve(MilliSats(1001)).is_err());
    assert_eq!(b.amount(), MilliSats(1000));
    assert!(b.reserve(MilliSats(1000)).is_ok());
    assert_eq!(b.amount(), MilliSats(0));
}

#[test]
fn reservation_debit_and_refund() {
    let mut b = Balance::new(USER, MilliSats(1000));
    let mut r1 = b.reserve(MilliSats(300)).unwrap();
    let mut r2 = b.reserve(MilliSats(200)).unwrap();
    r1.debit();
    assert_eq!(r1.status, ReservationStatus::Debited);
    r2.refund(&mut b);
    assert_eq!(r2.status, ReservationStatus::Refunded);
    assert_eq!(b.amount(), MilliSats(700));
}

#[test]
fn reservation_status_codes() {
    assert_eq!(ReservationStatus::Pending.code(), 0);
    assert_eq!(ReservationStatus::Debited.code(), 1);
    assert_eq!(ReservationStatus::Refunded.code(), 2);
    assert_eq!(ReservationStatus::from_code(1), Some(ReservationStatus::Debited));
    assert_eq!(ReservationStatus::from_code(3), None);
}

#[test]
fn units_convert() {
    assert_eq!(Sats(12).msats(), MilliSats(12000));
    assert_eq!(MilliSats(1999).sats_floor(), Sats(1));
    assert_eq!(MilliSats(-1500).sats_floor(), Sats(-1));
    assert_eq!(MilliSats(5).plus(MilliSats(7)), MilliSats(12));
    assert_eq!(MilliSats(5).minus(MilliSats(7)), MilliSats(-2));
}

#[test]
fn addresses_are_parsed_by_the_bitcoin_library() {
    let a = Address::parse("bc1qw508d6qejxtdg4y5r3zarvary0c5xw7kv8f3t4").unwrap();
    assert_eq!(a.as_str(), "bc1qw508d6qejxtdg4y5r3zarvary0c5xw7kv8f3t4");
    assert!(Address::parse("not an address").is_none());
    assert!(Address::parse("").is_none());
}

#[test]
fn limits_minimum_and_maximum_boundaries() {
    let l = limits(100, 1000, 1_000_000);
    let check = |a: i64| l.check(Amounts { amount: MilliSats(a), daily_total: MilliSats(0) });
    assert_eq!(check(99), Err(cash_limits::Error::AmountTooLow));
    assert_eq!(check(100), Ok(()));
    assert_eq!(check(1000), Ok(()));
    assert_eq!(check(1001), Err(cash_limits::Error::AmountTooHigh));
}

#[test]
fn limits_daily_boundary() {
    let l = limits(1, 1000, 5000);
    let at = l.check(Amounts { amount: MilliSats(1000), daily_total: MilliSats(4000) });
    assert_eq!(at, Ok(()));
    let over = l.check(Amounts { amount: MilliSats(1000), daily_total: MilliSats(4001) });
    assert_eq!(over, Err(cash_limits::Error::DailyLimitExceeded));
}

#[test]
fn limits_daily_total_does_not_overflow() {
    let l = limits(1, i64::MAX, i64::MAX);
    let r = l.check(Amounts { amount: MilliSats(10), daily_total: MilliSats(i64::MAX) });
    assert_eq!(r, Err(cash_limits::Error::DailyLimitExceeded));
}

#[test]
fn limits_config_converts_to_msats() {
    let c = LimitsConfig {
        payment_min_sats: 1,
        payment_max_sats: 2,
        payment_daily_sats: 3,
        invoice_min_sats: 4,
        invoice_max_sats: 5,
        invoice_daily_sats: 6,
    };
    let l = c.into_api_limits();
    assert_eq!(l.payment_limits.min, MilliSats(1000));
    assert_eq!(l.payment_limits.daily, MilliSats(3000));
    assert_eq!(l.invoice_limits.max, MilliSats(5000));
    assert_eq!(l.invoice_limits.daily, MilliSats(6000));
}

#[test]
fn retry_loop_backs_off_linearly_and_stops() {
    assert_eq!(after_attempt(1, true), RetryStep::Retry { sleep_secs: 1 });
    assert_eq!(after_attempt(9, true), RetryStep::Retry { sleep_secs: 9 });
    assert_eq!(after_attempt(MAX_RETRIES, true), RetryStep::Return);
    assert_eq!(after_attempt(3, false), RetryStep::Return);
}

#[test]
fn listing_limits_and_offsets() {
    assert_eq!(Range::parse_limit(Some("0".to_owned())), Err(RangeError::InvalidLimit));
    assert_eq!(Range::parse_limit(Some("251".to_owned())), Err(RangeError::InvalidLimit));
    assert_eq!(Range::parse_limit(Some("250".to_owned())), Ok(250));
    assert_eq!(Range::parse_limit(Some("1".to_owned())), Ok(1));
    assert_eq!(Range::parse_limit(Some("ten".to_owned())), Err(RangeError::InvalidLimit));
    assert_eq!(Range::parse_limit(None), Ok(100));
    assert_eq!(Range::parse_offset(Some("-1".to_owned())), Err(RangeError::InvalidOffset));
    assert_eq!(Range::parse_offset(Some("0".to_owned())), Ok(0));
    assert_eq!(Range::parse_offset(None), Ok(0));
    assert_eq!(check_limit(0), Err(RangeError::InvalidLimit));
    assert_eq!(check_offset(-5), Err(RangeError::InvalidOffset));
}

#[test]
fn query_range_checks_limit_first() {
    let r = Range { limit: Some("300".to_owned()), offset: Some("-1".to_owned()) };
    assert_eq!(r.query_range(), Err(RangeError::InvalidLimit));
    let r = Range { limit: Some("20".to_owned()), offset: Some("-1".to_owned()) };
    assert_eq!(r.query_range(), Err(RangeError::InvalidOffset));
    let r = Range { limit: None, offset: Some("40".to_owned()) };
    let q = r.query_range().unwrap();
    assert_eq!((q.limit, q.offset), (100, 40));
}

fn receive_grant() -> ReceiveGrant {
    ReceiveGrant { token_id: TokenId(3), user_id: USER }
}

#[test]
fn invoice_memo_boundary() {
    let l = limits(1, 1_000_000, 10_000_000);
    let ok = Some("a".repeat(639));
    let long = Some("a".repeat(640));
    assert_eq!(Invoice::validate(MilliSats(10), &ok, Seconds(60), &l, MilliSats(0)), Ok(()));
    assert_eq!(
        Invoice::validate(MilliSats(10), &long, Seconds(60), &l, MilliSats(0)),
        Err(invoice::Error::InvalidMemo)
    );
    let multibyte = Some("é".repeat(320));
    assert_eq!(
        Invoice::validate(MilliSats(10), &multibyte, Seconds(60), &l, MilliSats(0)),
        Err(invoice::Error::InvalidMemo)
    );
}

#[test]
fn invoice_expiry_boundaries() {
    let l = limits(1, 1_000_000, 10_000_000);
    let v = |s: i64| Invoice::validate(MilliSats(10), &None, Seconds(s), &l, MilliSats(0));
    assert_eq!(v(1), Ok(()));
    assert_eq!(v(0), Err(invoice::Error::InvalidExpiry(ExpiryProblem::NotPositive)));
    assert_eq!(v(31_536_000), Ok(()));
    assert_eq!(v(31_536_001), Err(invoice::Error::InvalidExpiry(ExpiryProblem::TooLong)));
}

#[test]
fn invoice_amount_must_be_positive() {
    let l = limits(-100, 1_000_000, 10_000_000);
    let v = |a: i64| Invoice::validate(MilliSats(a), &None, Seconds(60), &l, MilliSats(0));
    assert_eq!(v(0), Err(invoice::Error::AmountNotPositive));
    assert_eq!(v(-5), Err(invoice::Error::AmountNotPositive));
    assert_eq!(v(1), Ok(()));
}

#[test]
fn invoice_limits_apply() {
    let l = limits(100, 1000, 1500);
    let r = Invoice::validate(MilliSats(600), &None, Seconds(60), &l, MilliSats(1000));
    assert_eq!(r, Err(invoice::Error::LimitsViolated(cash_limits::Error::DailyLimitExceeded)));
}

#[test]
fn invoice_settled_through_stream_credits_once() {
    let l = limits(1, 1_000_000, 10_000_000);
    let raw = RawInvoice("lnbcrt5u1raw".to_owned());
    let mut inv = Invoice::create(
        &receive_grant(),
        raw.clone(),
        MilliSats(500_000),
        None,
        Seconds::one_hour(),
        &l,
        MilliSats(0),
    )
    .unwrap();
    assert!(!inv.is_settled());
    assert_eq!(inv.expiration.0 - inv.created.0, 3_600_000);
    assert!(!inv.is_expired_at(inv.created));
    assert!(inv.is_expired_at(inv.expiration));
    let mut b = Balance::new(USER, MilliSats(2_000_000_000));
    let s = SettledInvoice { amount: MilliSats(500_000), settle_index: 1, raw };
    inv.complete(&mut b, &s);
    assert_eq!(b.amount(), MilliSats(2_000_500_000));
    assert!(inv.is_settled());
    assert_eq!(inv.settlement.unwrap().settle_index, 1);
    inv.complete(&mut b, &s);
    assert_eq!(b.amount(), MilliSats(2_000_500_000));
}

#[test]
fn invoice_create_fails_like_validate() {
    let l = limits(1, 1000, 10_000);
    let r = Invoice::create(
        &receive_grant(),
        RawInvoice("x".to_owned()),
        MilliSats(5000),
        None,
        Seconds(60),
        &l,
        MilliSats(0),
    );
    assert_eq!(r.err(), Some(invoice::Error::LimitsViolated(cash_limits::Error::AmountTooHigh)));
}

#[test]
fn resume_index_is_highest_recorded() {
    assert_eq!(max_settle_index(&vec![]), 0);
    assert_eq!(max_settle_index(&vec![3, 9, 4]), 9);
}

#[test]
fn deposit_confirms_once() {
    let addr = deposit::Address::generate(&receive_grant(), Address("bcrt1qdeposit".to_owned()));
    assert_eq!(addr.user_id, USER);
    let seen = tx_out("aa", None, "bcrt1qdeposit", 0, 10_000);
    let mut d = addr.start_deposit(&seen);
    assert!(!d.is_confirmed());
    let mut b = Balance::new(USER, MilliSats(5));
    assert!(!d.process(&seen, &mut b));
    assert_eq!(b.amount(), MilliSats(5));
    let mined = tx_out("aa", Some(120), "bcrt1qdeposit", 0, 10_000);
    assert!(d.process(&mined, &mut b));
    assert_eq!(b.amount(), MilliSats(10_000_005));
    assert_eq!(d.tx_out.tx.block_height, Some(120));
    assert!(d.is_confirmed());
    assert!(!d.process(&mined, &mut b));
    assert_eq!(b.amount(), MilliSats(10_000_005));
}

fn spend_grant() -> SpendGrant {
    SpendGrant { token_id: TokenId(4), user_id: USER }
}

#[test]
fn withdrawal_reserves_amount_and_fee() {
    let mut b = Balance::new(USER, MilliSats(100_000_000));
    let (w, mut res) = Withdrawal::start(
        &spend_grant(),
        &mut b,
        Address("bcrt1qout".to_owned()),
        Sats(50_000),
        Sats(500),
    )
    .unwrap();
    assert_eq!(res.amount, MilliSats(50_500_000));
    assert_eq!(res.status, ReservationStatus::Pending);
    assert_eq!(b.amount(), MilliSats(49_500_000));
    assert_eq!(w.reservation_id, res.id);
    assert!(!w.is_sent());
    let mut w = w;
    let broadcast = tx_out("bb", None, "bcrt1qout", 1, 50_000);
    match w.next_send_step(Some(broadcast.clone())) {
        SendStep::Record(o) => w.send(o),
        SendStep::Broadcast => panic!("found output must not be broadcast again"),
    }
    assert!(w.is_sent());
    let mined = tx_out("bb", Some(300), "bcrt1qout", 1, 50_000);
    assert!(w.should_confirm(&mined));
    assert!(!w.should_confirm(&broadcast));
    w.confirm(&mined, &mut res);
    assert!(w.is_confirmed());
    assert_eq!(res.status, ReservationStatus::Debited);
    assert!(!w.should_confirm(&mined));
}

#[test]
fn withdrawal_without_found_output_broadcasts() {
    let mut b = Balance::new(USER, MilliSats(100_000_000));
    let (w, _) = Withdrawal::start(&spend_grant(), &mut b, Address("a".to_owned()), Sats(1), Sats(0))
        .unwrap();
    assert!(matches!(w.next_send_step(None), SendStep::Broadcast));
}

#[test]
fn withdrawal_errors() {
    let mut b = Balance::new(USER, MilliSats(1_000_000));
    let a = || Address("a".to_owned());
    let r = Withdrawal::start(&spend_grant(), &mut b, a(), Sats(0), Sats(1));
    assert!(matches!(r, Err(withdrawal::Error::AmountNotPositive)));
    let r = Withdrawal::start(&spend_grant(), &mut b, a(), Sats(-3), Sats(1));
    assert!(matches!(r, Err(withdrawal::Error::AmountNotPositive)));
    let r = Withdrawal::start(&spend_grant(), &mut b, a(), Sats(1000), Sats(1));
    assert!(matches!(r, Err(withdrawal::Error::InsufficientBalance(_))));
    assert_eq!(b.amount(), MilliSats(1_000_000));
    let r = Withdrawal::start(&spend_grant(), &mut b, a(), Sats(999), Sats(1));
    assert!(r.is_ok());
    assert_eq!(b.amount(), MilliSats(0));
    assert_eq!(Withdrawal::validate(Sats(1)), Ok(()));
}

#[test]
fn withdrawal_label_is_its_uuid() {
    let mut b = Balance::new(USER, MilliSats(1_000_000));
    let (mut w, _) =
        Withdrawal::start(&spend_grant(), &mut b, Address("a".to_owned()), Sats(1), Sats(0)).unwrap();
    w.id = withdrawal::Id(0x0123_4567_89ab_cdef_0123_4567_89ab_cdef);
    assert_eq!(w.label(), "01234567-89ab-cdef-0123-456789abcdef");
}

#[test]
fn fresh_ids_differ() {
    let mut b = Balance::new(USER, MilliSats(1_000_000));
    let r1: Reservation = b.reserve(MilliSats(1)).unwrap();
    let r2: Reservation = b.reserve(MilliSats(1)).unwrap();
    assert_ne!(r1.id, r2.id);
}

#[test]
fn read_grant_is_plain_data() {
    let g = ReadGrant { token_id: TokenId(1), user_id: USER };
    assert_eq!(g.user_id, USER);
}

#[test]
fn stored_settlement_needs_every_field() {
    let s = invoice::Settlement::from_row(Some(500), Some(Timestamp(9)), Some(4)).unwrap();
    assert_eq!((s.amount, s.timestamp, s.settle_index), (MilliSats(500), Timestamp(9), 4));
    assert!(invoice::Settlement::from_row(Some(500), None, Some(4)).is_none());
    assert!(invoice::Settlement::from_row(None, Some(Timestamp(9)), Some(4)).is_none());
}

#[test]
fn stored_withdrawal_output_needs_id_and_index() {
    let a = Address("bcrt1qout".to_owned());
    let o = withdrawal::stored_tx_out(Some("cc".to_owned()), Some(2), Some(50), &a, Sats(70)).unwrap();
    assert_eq!(o.tx.id.0, "cc");
    assert_eq!(o.v_out, 2);
    assert_eq!(o.tx.block_height, Some(50));
    assert_eq!(o.address.0, "bcrt1qout");
    assert_eq!(o.amount, Sats(70));
    assert!(withdrawal::stored_tx_out(Some("cc".to_owned()), None, None, &a, Sats(70)).is_none());
    assert!(withdrawal::stored_tx_out(None, Some(2), None, &a, Sats(70)).is_none());
}

fn held(rs: &[&Reservation]) -> i64 {
    rs.iter()
        .filter(|r| r.status != ReservationStatus::Refunded)
        .map(|r| r.amount.0)
        .sum()
}

#[test]
fn funds_are_conserved_by_reserve_debit_and_refund() {
    let mut b = Balance::new(USER, MilliSats(10_000));
    let total = b.amount().0;
    let mut r1 = b.reserve(MilliSats(3_000)).unwrap();
    let mut r2 = b.reserve(MilliSats(2_500)).unwrap();
    assert_eq!(b.amount().0 + held(&[&r1, &r2]), total);
    r1.debit();
    assert_eq!(b.amount().0 + held(&[&r1, &r2]), total);
    r2.refund(&mut b);
    assert_eq!(b.amount().0 + held(&[&r1, &r2]), total);
    assert!(b.amount().0 >= 0);
}

#[test]
fn deposit_is_started_only_for_untracked_outputs_on_known_addresses() {
    let addr = deposit::Address::generate(&receive_grant(), Address("bcrt1qknown".to_owned()));
    let o = tx_out("dd", None, "bcrt1qknown", 3, 700);
    match deposit::tracking(None, Some(&addr), &o) {
        deposit::Tracking::Started(d) => {
            assert_eq!(d.user_id, USER);
            assert_eq!(d.tx_out.v_out, 3);
            assert!(!d.is_confirmed());
            match deposit::tracking(Some(d), Some(&addr), &o) {
                deposit::Tracking::Existing(e) => assert_eq!(e.tx_out.tx.id.0, "dd"),
                _ => panic!("an existing deposit must be reused"),
            }
        }
        _ => panic!("a deposit must be started"),
    }
    assert!(matches!(deposit::tracking(None, None, &o), deposit::Tracking::Ignored));
}

#[test]
fn completing_a_settled_invoice_needs_nothing_of_the_balance() {
    let l = limits(1, 1_000_000, 10_000_000);
    let raw = RawInvoice("lnbcrt1raw".to_owned());
    let mut inv = Invoice::create(&receive_grant(), raw.clone(), MilliSats(10), None, Seconds(60), &l, MilliSats(0)).unwrap();
    let mut b = Balance::new(USER, MilliSats(0));
    inv.complete(&mut b, &SettledInvoice { amount: MilliSats(10), settle_index: 2, raw });
    let mut other = Balance::new(user::Id(99), MilliSats(i64::MAX));
    let stray = SettledInvoice { amount: MilliSats(10), settle_index: 2, raw: RawInvoice("other".to_owned()) };
    inv.complete(&mut other, &stray);
    assert_eq!(other.amount(), MilliSats(i64::MAX));
    assert_eq!(b.amount(), MilliSats(10));
}
