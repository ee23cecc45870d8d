use z3::handle::RefLedger;
use z3::Handle;

#[test]
fn null_pointer_yields_no_handle() {
    // An unsatisfiable check leaves the solver without a model: the engine
    // answers null, and the single constructor turns that into an absent
    // value, never a handle, and moves no count.
    let mut ledger = RefLedger::new();
    let h = ledger.acquire(1, 0);
    assert!(h.is_none());
    assert_eq!(ledger.count(0), 0);
}

#[test]
fn acquire_returns_tagged_handle() {
    let mut ledger = RefLedger::new();
    let h = ledger.acquire(7, 42).unwrap();
    assert_eq!(h, Handle { ctx: 7, raw: 42 });
    assert_eq!(ledger.count(42), 1);
}

#[test]
fn n_handles_then_n_drops_is_net_zero() {
    // Three handles to the same native object, then three drops: the count
    // ends exactly where it began.
    let mut ledger = RefLedger::new();
    let before = ledger.count(42);
    let a = ledger.acquire(1, 42).unwrap();
    let b = ledger.acquire(1, 42).unwrap();
    let c = ledger.acquire(1, 42).unwrap();
    assert_eq!(ledger.count(42), 3);
    ledger.release(a);
    ledger.release(b);
    ledger.release(c);
    assert_eq!(ledger.count(42), before);
}

#[test]
fn counts_are_per_object() {
    let mut ledger = RefLedger::new();
    let a = ledger.acquire(1, 10).unwrap();
    let _b = ledger.acquire(1, 20).unwrap();
    assert_eq!(ledger.count(10), 1);
    assert_eq!(ledger.count(20), 1);
    ledger.release(a);
    assert_eq!(ledger.count(10), 0);
    assert_eq!(ledger.count(20), 1);
}

#[test]
fn release_decrements_one_claim() {
    let mut ledger = RefLedger::new();
    let a = ledger.acquire(1, 5).unwrap();
    let _b = ledger.acquire(1, 5).unwrap();
    ledger.release(a);
    assert_eq!(ledger.count(5), 1);
}
