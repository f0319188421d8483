use vm::deferred::DeferredRegistry;
use vm::error::ItrErrCode;

fn addr(b: u8) -> [u8; 21] {
    let mut a = [0u8; 21];
    a[0] = 1;
    a[20] = b;
    a
}

#[test]
fn only_the_authorized_contract_registers_and_only_once() {
    let mut reg = DeferredRegistry::new();
    assert_eq!(reg.register_current(&addr(1), None).unwrap_err().0, ItrErrCode::DeferredError);
    assert_eq!(reg.replace_defer_auth(Some(addr(1))), None);
    reg.register_current(&addr(1), None).unwrap();
    let dup = reg.register_current(&addr(1), None).unwrap_err();
    assert_eq!(dup.0, ItrErrCode::DeferredError);
    assert!(dup.1.contains("duplicate"));
    reg.register_current(&addr(1), Some(Some(3))).unwrap();
    assert_eq!(reg.register_current(&addr(2), None).unwrap_err().0, ItrErrCode::DeferredError);
}

#[test]
fn drain_runs_last_registered_first_and_keeps_them_registered() {
    let mut reg = DeferredRegistry::new();
    reg.replace_defer_auth(Some(addr(5)));
    reg.register_current(&addr(5), None).unwrap();
    reg.register_current(&addr(5), Some(None)).unwrap();
    reg.register_current(&addr(5), Some(Some(1))).unwrap();
    let out = reg.drain_lifo();
    let scopes: Vec<_> = out.iter().map(|e| e.intent_scope).collect();
    assert_eq!(scopes, vec![Some(Some(1)), Some(None), None]);
    assert!(reg.drain_lifo().is_empty());
    assert_eq!(reg.register_current(&addr(5), None).unwrap_err().0, ItrErrCode::DeferredError);
    reg.clear();
    reg.replace_defer_auth(Some(addr(5)));
    reg.register_current(&addr(5), None).unwrap();
}
