use owned_singleton::parse::{Args, Error};

fn toks(ts: &[&str]) -> Vec<String> {
    ts.iter().map(|s| s.to_string()).collect()
}

#[test]
fn empty_list_requests_nothing() {
    let a = Args::parse(&toks(&[])).expect("the empty list is valid");
    assert!(!a.send);
    assert!(!a.sync);
}

#[test]
fn send_alone() {
    let a = Args::parse(&toks(&["Send"])).expect("Send alone is valid");
    assert!(a.send);
    assert!(!a.sync);
}

#[test]
fn sync_alone() {
    let a = Args::parse(&toks(&["Sync"])).expect("Sync alone is valid");
    assert!(!a.send);
    assert!(a.sync);
}

#[test]
fn both_in_either_order() {
    let a = Args::parse(&toks(&["Send", "Sync"])).expect("both are valid");
    assert!(a.send && a.sync);
    let b = Args::parse(&toks(&["Sync", "Send"])).expect("order does not matter");
    assert!(b.send && b.sync);
}

#[test]
fn sync_twice_is_rejected() {
    let e = Args::parse(&toks(&["Sync", "Sync"])).expect_err("duplicate Sync");
    assert_eq!(
        e,
        Error::Argument {
            index: 1,
            duplicate: true
        }
    );
    assert_eq!(e.message(), "this trait appears twice");
}

#[test]
fn late_duplicate_is_pinpointed() {
    let e = Args::parse(&toks(&["Send", "Sync", "Send"])).expect_err("duplicate Send");
    assert_eq!(
        e,
        Error::Argument {
            index: 2,
            duplicate: true
        }
    );
}

#[test]
fn unknown_token_is_pinpointed() {
    let e = Args::parse(&toks(&["Send", "Clone"])).expect_err("unknown token");
    assert_eq!(
        e,
        Error::Argument {
            index: 1,
            duplicate: false
        }
    );
    assert_eq!(e.message(), "expected one of: Send or Sync");
}

#[test]
fn case_matters() {
    let e = Args::parse(&toks(&["send"])).expect_err("tokens are case sensitive");
    assert_eq!(
        e,
        Error::Argument {
            index: 0,
            duplicate: false
        }
    );
}

#[test]
fn nothing_is_accepted_after_an_offending_token() {
    // rejection is all-or-nothing: the offending token poisons the whole list
    let e = Args::parse(&toks(&["Copy", "Send"])).expect_err("unknown token first");
    assert_eq!(
        e,
        Error::Argument {
            index: 0,
            duplicate: false
        }
    );
}
