use lyra::crosscut::policies::ErrorAction;
use lyra::crosscut::policies::RuntimePolicy;
use lyra::framework::context::BlockContext;
use lyra::framework::context::Era;
use lyra::framework::context::OutputRef;
use lyra::framework::LyraError;

fn reference(tag: u8, index: u64) -> OutputRef {
    OutputRef::new(vec![tag; 32], index)
}

fn sample() -> BlockContext {
    let mut ctx = BlockContext::new();
    ctx.import_ref_output(&reference(1, 0), Era::Byron, vec![10]);
    ctx.import_ref_output(&reference(1, 1), Era::Shelley, vec![11]);
    ctx.import_ref_output(&reference(2, 0), Era::Conway, vec![20]);
    ctx
}

fn policy(missing_data: Option<ErrorAction>, any_error: Option<ErrorAction>) -> RuntimePolicy {
    RuntimePolicy { missing_data, cbor_errors: None, ledger_errors: None, any_error }
}

#[test]
fn an_output_is_filed_under_hash_and_index() {
    assert_eq!(
        OutputRef::new(vec![0x00, 0xab, 0xff], 17).key(),
        "00abff#17"
    );
    assert_eq!(OutputRef::new(vec![], 0).key(), "#0");
    assert_eq!(
        OutputRef::new(vec![1], u64::MAX).key(),
        "01#18446744073709551615"
    );
    assert_eq!(reference(3, 4).clone(), reference(3, 4));
}

#[test]
fn what_was_filed_is_found() {
    let ctx = sample();
    assert_eq!(ctx.find_utxo(&reference(1, 0)), Ok((Era::Byron, vec![10])));
    assert_eq!(ctx.find_utxo(&reference(1, 1)), Ok((Era::Shelley, vec![11])));
    assert_eq!(ctx.find_utxo(&reference(2, 0)), Ok((Era::Conway, vec![20])));
}

#[test]
fn what_was_not_filed_is_missing_by_its_key() {
    let ctx = sample();
    let key = format!("{}#1", "02".repeat(32));
    assert_eq!(ctx.find_utxo(&reference(2, 1)), Err(LyraError::MissingUtxo(key)));
    assert!(matches!(
        BlockContext::new().find_utxo(&reference(1, 0)),
        Err(LyraError::MissingUtxo(_))
    ));
    assert!(matches!(
        BlockContext::default().find_utxo(&reference(1, 0)),
        Err(LyraError::MissingUtxo(_))
    ));
}

#[test]
fn filing_again_replaces() {
    let mut ctx = sample();
    ctx.import_ref_output(&reference(1, 1), Era::Mary, vec![99, 98]);
    assert_eq!(ctx.find_utxo(&reference(1, 1)), Ok((Era::Mary, vec![99, 98])));
    assert_eq!(ctx.find_utxo(&reference(1, 0)), Ok((Era::Byron, vec![10])));
    assert_eq!(ctx.get_all_keys().len(), 3);
}

#[test]
fn all_keys_each_once() {
    let mut keys = sample().get_all_keys();
    keys.sort();
    assert_eq!(
        keys,
        vec![
            format!("{}#0", "01".repeat(32)),
            format!("{}#1", "01".repeat(32)),
            format!("{}#0", "02".repeat(32)),
        ]
    );
    assert!(BlockContext::new().get_all_keys().is_empty());
    let mut copy = sample().clone().get_all_keys();
    copy.sort();
    assert_eq!(copy, keys);
}

#[test]
fn consumed_outputs_in_the_order_of_the_inputs() {
    let ctx = sample();
    let consumes = vec![reference(2, 0), reference(1, 0)];
    assert_eq!(
        ctx.find_consumed_txos(&consumes, &RuntimePolicy::strict()),
        Ok(vec![
            (reference(2, 0), (Era::Conway, vec![20])),
            (reference(1, 0), (Era::Byron, vec![10])),
        ])
    );
    assert_eq!(ctx.find_consumed_txos(&vec![], &RuntimePolicy::strict()), Ok(vec![]));
}

#[test]
fn a_missing_output_fails_unless_the_policy_skips_it() {
    let ctx = sample();
    let consumes = vec![reference(2, 0), reference(9, 9), reference(1, 0), reference(8, 8)];
    let missing = LyraError::MissingUtxo(format!("{}#9", "09".repeat(32)));
    let found = vec![
        (reference(2, 0), (Era::Conway, vec![20])),
        (reference(1, 0), (Era::Byron, vec![10])),
    ];
    for strict in [
        RuntimePolicy::strict(),
        policy(Some(ErrorAction::Default), None),
        policy(Some(ErrorAction::Skip), Some(ErrorAction::Default)),
        policy(None, Some(ErrorAction::Default)),
    ] {
        assert!(!strict.skips_missing());
        assert_eq!(ctx.find_consumed_txos(&consumes, &strict), Err(missing.clone()));
    }
    for lenient in [
        policy(Some(ErrorAction::Skip), None),
        policy(Some(ErrorAction::Warn), None),
        policy(None, Some(ErrorAction::Skip)),
        policy(Some(ErrorAction::Default), Some(ErrorAction::Warn)),
    ] {
        assert!(lenient.skips_missing());
        assert_eq!(ctx.find_consumed_txos(&consumes, &lenient), Ok(found.clone()));
    }
}
