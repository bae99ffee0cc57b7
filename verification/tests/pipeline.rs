use owned_singleton::emit::emit;
use owned_singleton::parse::{check, Args, Declaration, Error, Item};
use owned_singleton::Singleton;

fn storage(mutable: bool, ident: &str, ty: &str, init: Option<&str>) -> Item {
    Item::Storage {
        attrs: vec![],
        vis: String::new(),
        mutable,
        ident: ident.to_string(),
        ty: ty.to_string(),
        init: init.map(|s| s.to_string()),
    }
}

fn toks(ts: &[&str]) -> Vec<String> {
    ts.iter().map(|s| s.to_string()).collect()
}

#[test]
fn scenario_plain_mutable() {
    // declaration `static mut FOO: u32 = 0`, no arguments
    let r = Singleton(&toks(&[]), storage(true, "FOO", "u32", Some("0")), 7, 11, 0);
    let u = r.expect("a plain mutable declaration must be accepted");
    assert_eq!(u.proxy_name, "FOO");
    assert_eq!(u.storage_ty, "u32");
    assert_eq!(u.storage_init, "0");
    assert!(u.write_through);
    assert!(!u.grant_send);
    assert!(!u.grant_sync);
}

#[test]
fn scenario_both_capabilities() {
    // declaration `static mut FOO: u32 = 0`, arguments (Send, Sync)
    let r = Singleton(
        &toks(&["Send", "Sync"]),
        storage(true, "FOO", "u32", Some("0")),
        7,
        11,
        0,
    );
    let u = r.expect("both capabilities together must be accepted");
    assert_eq!(u.proxy_name, "FOO");
    assert!(u.write_through);
    assert!(u.grant_send);
    assert!(u.grant_sync);
}

#[test]
fn scenario_duplicate_token() {
    // arguments (Send, Send)
    let r = Singleton(
        &toks(&["Send", "Send"]),
        storage(true, "FOO", "u32", Some("0")),
        7,
        11,
        0,
    );
    let e = r.expect_err("a duplicated token must be rejected");
    assert_eq!(
        e,
        Error::Argument {
            index: 1,
            duplicate: true
        }
    );
    assert_eq!(e.message(), "this trait appears twice");
}

#[test]
fn scenario_unknown_token() {
    // arguments (Copy)
    let r = Singleton(
        &toks(&["Copy"]),
        storage(true, "FOO", "u32", Some("0")),
        7,
        11,
        0,
    );
    let e = r.expect_err("an unrecognized token must be rejected");
    assert_eq!(
        e,
        Error::Argument {
            index: 0,
            duplicate: false
        }
    );
    assert_eq!(e.message(), "expected one of: Send or Sync");
}

#[test]
fn scenario_not_a_storage_declaration() {
    // the annotated item is a function, not a storage declaration
    let r = Singleton(&toks(&[]), Item::Other, 7, 11, 0);
    let e = r.expect_err("a non-storage item must be rejected");
    assert_eq!(e, Error::Shape);
}

#[test]
fn shape_is_judged_before_the_arguments() {
    // both the item and the token list are invalid: the shape diagnostic wins
    let r = Singleton(&toks(&["Copy"]), Item::Other, 7, 11, 0);
    assert_eq!(r.expect_err("a non-storage item must be rejected"), Error::Shape);
}

#[test]
fn storage_without_initializer_is_rejected() {
    let r = Singleton(&toks(&[]), storage(true, "FOO", "u32", None), 7, 11, 0);
    assert_eq!(r.expect_err("a missing initializer must be rejected"), Error::Shape);
}

#[test]
fn immutable_declaration_has_no_write_through() {
    let r = Singleton(&toks(&[]), storage(false, "BAR", "i64", Some("-3")), 7, 11, 0);
    let u = r.expect("an immutable declaration must be accepted");
    assert_eq!(u.proxy_name, "BAR");
    assert!(!u.write_through);
}

#[test]
fn export_symbol_combines_name_and_alias() {
    let r = Singleton(&toks(&[]), storage(true, "FOO", "u32", Some("0")), 7, 11, 0);
    let u = r.expect("a plain mutable declaration must be accepted");
    assert_eq!(u.storage_alias.len(), 16);
    assert_eq!(u.export_symbol, format!("FOO::{}", u.storage_alias));
}

#[test]
fn attributes_and_visibility_are_forwarded() {
    let item = Item::Storage {
        attrs: vec!["#[used]".to_string(), "#[no_mangle]".to_string()],
        vis: "pub".to_string(),
        mutable: true,
        ident: "QUEUE".to_string(),
        ty: "[u8; 4]".to_string(),
        init: Some("[0; 4]".to_string()),
    };
    let u = Singleton(&toks(&[]), item, 7, 11, 0).expect("declaration must be accepted");
    assert_eq!(u.storage_attrs, vec!["#[used]".to_string(), "#[no_mangle]".to_string()]);
    assert_eq!(u.proxy_vis, "pub");
    assert_eq!(u.proxy_name, "QUEUE");
}

#[test]
fn check_decomposes_a_valid_declaration() {
    let d: Declaration = check(storage(true, "FOO", "u32", Some("0"))).expect("valid shape");
    assert_eq!(d.ident, "FOO");
    assert_eq!(d.ty, "u32");
    assert_eq!(d.init, "0");
    assert!(d.mutable);
}

#[test]
fn emit_with_known_alias() {
    let d = check(storage(false, "CFG", "u8", Some("1"))).expect("valid shape");
    let u = emit(
        d,
        "abcdefghabcdefgh".to_string(),
        &Args {
            send: true,
            sync: false,
        },
    );
    assert_eq!(u.export_symbol, "CFG::abcdefghabcdefgh");
    assert_eq!(u.storage_alias, "abcdefghabcdefgh");
    assert_eq!(u.proxy_name, "CFG");
    assert!(!u.write_through);
    assert!(u.grant_send);
    assert!(!u.grant_sync);
}
