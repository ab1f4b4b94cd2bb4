use mojo_backend::errors::{ErrorContext, ErrorStore, LoweringError};

#[test]
fn new_store_is_empty() {
    let store = ErrorStore::new();
    assert_eq!(store.context.ty, "");
    assert_eq!(store.context.method, "");
    assert!(store.errors.is_empty());
}

#[test]
fn errors_are_recorded_under_the_current_context() {
    let mut store = ErrorStore::new();
    store.push_error(String::from("outside"));
    let previous = store.set_context_method(String::from("Foo"), String::from("bar"));
    assert_eq!(previous.ty, "");
    assert_eq!(previous.method, "");
    store.push_error(String::from("inside"));
    store.restore_context(previous);
    store.push_error(String::from("after"));
    assert_eq!(store.errors.len(), 3);
    assert_eq!(store.errors[0].message, "outside");
    assert_eq!(store.errors[0].context.ty, "");
    assert_eq!(store.errors[1].message, "inside");
    assert_eq!(store.errors[1].context.ty, "Foo");
    assert_eq!(store.errors[1].context.method, "bar");
    assert_eq!(store.errors[2].message, "after");
    assert_eq!(store.errors[2].context.ty, "");
    assert_eq!(store.errors[2].context.method, "");
}

#[test]
fn contexts_nest() {
    let mut store = ErrorStore::new();
    let outer = store.set_context_method(String::from("A"), String::from("f"));
    let inner = store.set_context_method(String::from("B"), String::from("g"));
    assert_eq!(inner.ty, "A");
    assert_eq!(inner.method, "f");
    assert_eq!(store.context.ty, "B");
    store.restore_context(inner);
    assert_eq!(store.context.ty, "A");
    assert_eq!(store.context.method, "f");
    store.restore_context(outer);
    assert_eq!(store.context.ty, "");
}

#[test]
fn take_all_empties_the_store() {
    let mut store = ErrorStore::new();
    let previous = store.set_context_method(String::from("Foo"), String::from("bar"));
    store.push_error(String::from("one"));
    store.push_error(String::from("two"));
    let all = store.take_all();
    assert_eq!(all.len(), 2);
    assert_eq!(all[0].message, "one");
    assert_eq!(all[1].message, "two");
    assert!(store.errors.is_empty());
    assert_eq!(store.context.ty, "Foo");
    store.restore_context(previous);
}

#[test]
fn duplicate_context_is_equal() {
    let cx = ErrorContext { ty: String::from("T"), method: String::from("m") };
    let copy = cx.duplicate();
    assert_eq!(copy.ty, "T");
    assert_eq!(copy.method, "m");
    let fresh = ErrorContext::new();
    assert_eq!(fresh.ty, "");
    assert_eq!(fresh.method, "");
}

#[test]
fn every_failure_has_a_message_of_its_own() {
    let all = [
        LoweringError::UnsupportedPrimitive,
        LoweringError::CallbackOutsideArgument,
        LoweringError::InvalidOptionInner,
        LoweringError::UnknownResultSpelling,
        LoweringError::SymbolKindMismatch,
        LoweringError::UnresolvedSymbol,
    ];
    for (i, a) in all.iter().enumerate() {
        assert!(!a.message().is_empty());
        for (j, b) in all.iter().enumerate() {
            assert_eq!(i == j, a.message() == b.message());
            assert_eq!(i == j, a == b);
        }
    }
    assert_eq!(
        LoweringError::UnsupportedPrimitive.message(),
        "128-bit integers are not supported on the ABI"
    );
}
