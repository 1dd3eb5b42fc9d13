use bolt12_payer_proof::run::{decimal_string, generation_plan, PlannedVector, VerificationTally};
use bolt12_payer_proof::vectors::TestVectorError;

#[test]
fn decimal_text() {
    assert_eq!(decimal_string(0), "0");
    assert_eq!(decimal_string(7), "7");
    assert_eq!(decimal_string(10), "10");
    assert_eq!(decimal_string(1234567), "1234567");
}

#[test]
fn default_plan() {
    let plan = generation_plan(3, true, true);
    assert_eq!(plan.len(), 8);
    match &plan[0] {
        PlannedVector::Basic { name, description, preimage_seed, payer_seed, recipient_seed } => {
            assert_eq!(name, "basic_1");
            assert_eq!(description, "Basic payer proof with required fields only (test 1)");
            assert_eq!((*preimage_seed, *payer_seed, *recipient_seed), (100, 42, 43));
        },
        other => panic!("unexpected {:?}", other),
    }
    match &plan[2] {
        PlannedVector::Basic { name, preimage_seed, payer_seed, recipient_seed, .. } => {
            assert_eq!(name, "basic_3");
            assert_eq!((*preimage_seed, *payer_seed, *recipient_seed), (102, 44, 45));
        },
        other => panic!("unexpected {:?}", other),
    }
    match &plan[4] {
        PlannedVector::WithNote { name, note, preimage_seed, payer_seed, recipient_seed } => {
            assert_eq!(name, "with_note_service");
            assert_eq!(note, "Payment for consulting service");
            assert_eq!((*preimage_seed, *payer_seed, *recipient_seed), (151, 51, 52));
        },
        other => panic!("unexpected {:?}", other),
    }
    match &plan[6] {
        PlannedVector::InvalidPreimage { name, real_preimage_seed, wrong_preimage_seed, payer_seed, recipient_seed } => {
            assert_eq!(name, "invalid_preimage");
            assert_eq!(
                (*real_preimage_seed, *wrong_preimage_seed, *payer_seed, *recipient_seed),
                (200, 201, 60, 61)
            );
        },
        other => panic!("unexpected {:?}", other),
    }
    match &plan[7] {
        PlannedVector::ExperimentalTlv { name, preimage_seed, payer_seed, recipient_seed } => {
            assert_eq!(name, "included_experimental_invoice_tlv");
            assert_eq!((*preimage_seed, *payer_seed, *recipient_seed), (210, 70, 71));
        },
        other => panic!("unexpected {:?}", other),
    }
}

#[test]
fn skipped_categories_keep_the_regression_vector() {
    let plan = generation_plan(0, false, false);
    assert_eq!(plan.len(), 1);
    assert!(matches!(&plan[0], PlannedVector::ExperimentalTlv { .. }));
}

#[test]
fn seeds_wrap_around() {
    let plan = generation_plan(160, false, false);
    match &plan[156] {
        PlannedVector::Basic { name, preimage_seed, payer_seed, .. } => {
            assert_eq!(name, "basic_157");
            assert_eq!(*preimage_seed, 0);
            assert_eq!(*payer_seed, 198);
        },
        other => panic!("unexpected {:?}", other),
    }
}

#[test]
fn tally_counts_and_stops() {
    let mut t = VerificationTally::new();
    assert!(t.record(&"a".to_string(), &Ok(true), false));
    assert!(!t.record(&"b".to_string(), &Ok(false), false));
    assert!(t.record(
        &"c".to_string(),
        &Err(TestVectorError::Parse("bad".to_string())),
        true
    ));
    assert_eq!(t.passed, 1);
    assert_eq!(t.failed, 2);
    assert_eq!(t.total(), 3);
    assert!(!t.all_passed());
    assert_eq!(
        t.errors,
        vec![
            ("b".to_string(), "Verification returned false".to_string()),
            ("c".to_string(), "Parse error: bad".to_string()),
        ]
    );
}
