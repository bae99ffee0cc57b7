//! Declaration parser: validates the target storage declaration and its
//! modifier-argument list, and decomposes them into plain values.
//!
//! Two diagnostics can arise, and on either one nothing at all is emitted:
//! a shape error when the annotated item is not a storage declaration with an
//! initializer, and an argument error, pinpointing the offending token, when
//! the argument list holds an unrecognized or duplicated token.

use vstd::prelude::*;

verus! {

/// A compile-time diagnostic: the reason an invocation emits nothing.
#[derive(Debug, Clone, Copy, PartialEq, Eq, Structural)]
pub enum Error {
    /// The annotated item is not a single-variable storage declaration with
    /// an initializer.
    Shape,
    /// The modifier-argument list is invalid at token `index`: the token
    /// there is either a duplicate of an earlier one (`duplicate`) or
    /// unrecognized.
    Argument { index: usize, duplicate: bool },
}

impl Error {
    /// The diagnostic text attached to this error.
    pub open spec fn spec_message(self) -> Seq<char> {
        match self {
            Error::Shape => "expected a `static` variable declaration with an initializer"@,
            Error::Argument { duplicate, .. } => if duplicate {
                "this trait appears twice"@
            } else {
                "expected one of: Send or Sync"@
            },
        }
    }

    /// The diagnostic text attached to this error.
    pub fn message(&self) -> (r: String)
        ensures
            r@ == self.spec_message(),
    {
        match self {
            Error::Shape => String::from_str(
                "expected a `static` variable declaration with an initializer",
            ),
            Error::Argument { duplicate, .. } => if *duplicate {
                String::from_str("this trait appears twice")
            } else {
                String::from_str("expected one of: Send or Sync")
            },
        }
    }
}

/// A candidate item, as handed to the attribute: either a storage declaration
/// (whose initializer may be missing) or some other kind of item entirely.
pub enum Item {
    /// A single-variable storage declaration.
    Storage {
        /// Attached metadata, forwarded verbatim onto the renamed storage.
        attrs: Vec<String>,
        /// Visibility, empty for a private declaration.
        vis: String,
        /// Whether the declaration is mutable.
        mutable: bool,
        /// The declared identifier.
        ident: String,
        /// The declared type.
        ty: String,
        /// The initializer expression, if one is present.
        init: Option<String>,
    },
    /// Anything else: a function, a type, an expression, ...
    Other,
}

/// A validated storage declaration: always-resident, with an initializer.
#[derive(Debug)]
pub struct Declaration {
    /// Attached metadata, forwarded verbatim onto the renamed storage.
    pub attrs: Vec<String>,
    /// Visibility, empty for a private declaration.
    pub vis: String,
    /// Whether the declaration is mutable.
    pub mutable: bool,
    /// The declared identifier.
    pub ident: String,
    /// The declared type.
    pub ty: String,
    /// The initializer expression.
    pub init: String,
}

/// A candidate qualifies if and only if it is a storage declaration with an
/// initializer.
pub open spec fn well_shaped(item: Item) -> bool {
    item matches Item::Storage { init: Some(_), .. }
}

/// Validates the shape of the candidate item: a storage declaration with an
/// initializer passes and is decomposed, anything else is rejected with a
/// shape diagnostic.
pub fn check(item: Item) -> (r: Result<Declaration, Error>)
    ensures
        r is Ok <==> well_shaped(item),
        r matches Ok(d) ==> item matches Item::Storage { attrs, vis, mutable, ident, ty, init }
            && d.attrs == attrs
            && d.vis == vis
            && d.mutable == mutable
            && d.ident == ident
            && d.ty == ty
            && init == Some(d.init),
        r matches Err(e) ==> e == Error::Shape,
{
    match item {
        Item::Storage { attrs, vis, mutable, ident, ty, init: Some(init) } => Ok(Declaration {
            attrs,
            vis,
            mutable,
            ident,
            ty,
            init,
        }),
        _ => Err(Error::Shape),
    }
}

/// The cross-thread-move token.
pub open spec fn is_send_tok(t: Seq<char>) -> bool {
    t == "Send"@
}

/// The cross-thread-share token.
pub open spec fn is_sync_tok(t: Seq<char>) -> bool {
    t == "Sync"@
}

/// A token drawn from the recognized set.
pub open spec fn recognized(t: Seq<char>) -> bool {
    is_send_tok(t) || is_sync_tok(t)
}

/// The argument list is invalid at position `i`: the token there is either
/// unrecognized or a repetition of an earlier token.
pub open spec fn bad_at(toks: Seq<String>, i: int) -> bool {
    ||| !recognized(toks[i]@)
    ||| exists|j: int| 0 <= j < i && toks[j]@ == toks[i]@
}

/// A valid argument list: every token recognized, none repeated.
pub open spec fn args_ok(toks: Seq<String>) -> bool {
    forall|i: int| 0 <= i < toks.len() ==> !(#[trigger] bad_at(toks, i))
}

/// The list requests the cross-thread-move capability.
pub open spec fn has_send(toks: Seq<String>) -> bool {
    exists|i: int| 0 <= i < toks.len() && is_send_tok(#[trigger] toks[i]@)
}

/// The list requests the cross-thread-share capability.
pub open spec fn has_sync(toks: Seq<String>) -> bool {
    exists|i: int| 0 <= i < toks.len() && is_sync_tok(#[trigger] toks[i]@)
}

/// Extending a prefix by one token adds exactly that token's capability
/// requests.
proof fn lemma_take_extend(toks: Seq<String>, i: int)
    requires
        0 <= i < toks.len(),
    ensures
        has_send(toks.take(i + 1)) == (has_send(toks.take(i)) || is_send_tok(toks[i]@)),
        has_sync(toks.take(i + 1)) == (has_sync(toks.take(i)) || is_sync_tok(toks[i]@)),
{
    let prev = toks.take(i);
    let cur = toks.take(i + 1);
    assert(cur[i] == toks[i]);
    if has_send(cur) {
        let k = choose|k: int| 0 <= k < cur.len() && is_send_tok(#[trigger] cur[k]@);
        if k < i {
            assert(prev[k] == toks[k]);
            assert(is_send_tok(prev[k]@));
        }
    }
    if has_send(prev) {
        let k = choose|k: int| 0 <= k < prev.len() && is_send_tok(#[trigger] prev[k]@);
        assert(cur[k] == toks[k]);
        assert(is_send_tok(cur[k]@));
    }
    if is_send_tok(toks[i]@) {
        assert(is_send_tok(cur[i]@));
    }
    if has_sync(cur) {
        let k = choose|k: int| 0 <= k < cur.len() && is_sync_tok(#[trigger] cur[k]@);
        if k < i {
            assert(prev[k] == toks[k]);
            assert(is_sync_tok(prev[k]@));
        }
    }
    if has_sync(prev) {
        let k = choose|k: int| 0 <= k < prev.len() && is_sync_tok(#[trigger] prev[k]@);
        assert(cur[k] == toks[k]);
        assert(is_sync_tok(cur[k]@));
    }
    if is_sync_tok(toks[i]@) {
        assert(is_sync_tok(cur[i]@));
    }
}

/// A recognized token that repeats no earlier capability request is not an
/// offending token.
proof fn lemma_fresh_not_bad(toks: Seq<String>, i: int)
    requires
        0 <= i < toks.len(),
        recognized(toks[i]@),
        is_send_tok(toks[i]@) ==> !has_send(toks.take(i)),
        is_sync_tok(toks[i]@) ==> !has_sync(toks.take(i)),
    ensures
        !bad_at(toks, i),
{
    if exists|j: int| 0 <= j < i && toks[j]@ == toks[i]@ {
        let j = choose|j: int| 0 <= j < i && toks[j]@ == toks[i]@;
        assert(toks.take(i)[j] == toks[j]);
        if is_send_tok(toks[i]@) {
            assert(is_send_tok(toks.take(i)[j]@));
            assert(has_send(toks.take(i)));
        } else {
            assert(is_sync_tok(toks.take(i)[j]@));
            assert(has_sync(toks.take(i)));
        }
    }
}

/// A token whose capability was already requested earlier is an offending
/// token.
proof fn lemma_dup_bad(toks: Seq<String>, i: int)
    requires
        0 <= i < toks.len(),
        (is_send_tok(toks[i]@) && has_send(toks.take(i))) || (is_sync_tok(toks[i]@) && has_sync(
            toks.take(i),
        )),
    ensures
        bad_at(toks, i),
{
    if is_send_tok(toks[i]@) && has_send(toks.take(i)) {
        let k = choose|k: int|
            0 <= k < toks.take(i).len() && is_send_tok(#[trigger] toks.take(i)[k]@);
        assert(toks.take(i)[k] == toks[k]);
        assert(toks[k]@ == toks[i]@);
    } else {
        let k = choose|k: int|
            0 <= k < toks.take(i).len() && is_sync_tok(#[trigger] toks.take(i)[k]@);
        assert(toks.take(i)[k] == toks[k]);
        assert(toks[k]@ == toks[i]@);
    }
}

/// Every argument list drawn from the recognized set without repetition is
/// valid, whatever its order or length: the empty list, either capability
/// alone, or both together are all accepted.
pub proof fn lemma_recognized_distinct_ok(toks: Seq<String>)
    requires
        forall|i: int| 0 <= i < toks.len() ==> recognized(#[trigger] toks[i]@),
        forall|i: int, j: int| 0 <= i < j < toks.len() ==> toks[i]@ != toks[j]@,
    ensures
        args_ok(toks),
{
    assert forall|i: int| 0 <= i < toks.len() implies !(#[trigger] bad_at(toks, i)) by {
        if exists|j: int| 0 <= j < i && toks[j]@ == toks[i]@ {
            let j = choose|j: int| 0 <= j < i && toks[j]@ == toks[i]@;
            assert(toks[j]@ != toks[i]@);
        }
    }
}

/// A list holding an unrecognized token, or a repetition of an earlier one,
/// is rejected as a whole: no partial argument set is accepted.
pub proof fn lemma_offending_token_bad(toks: Seq<String>, i: int)
    requires
        0 <= i < toks.len(),
        !recognized(toks[i]@) || exists|j: int| 0 <= j < i && toks[j]@ == toks[i]@,
    ensures
        !args_ok(toks),
{
    assert(bad_at(toks, i));
}

/// The parsed modifier arguments: which cross-thread capabilities were
/// requested.
#[derive(Debug, Clone, Copy, PartialEq, Eq, Structural)]
pub struct Args {
    /// The cross-thread-move capability (`Send`) was requested.
    pub send: bool,
    /// The cross-thread-share capability (`Sync`) was requested.
    pub sync: bool,
}

impl Args {
    /// Parses the modifier-argument list: a sequence of bare tokens, each of
    /// which must be `Send` or `Sync` and may appear at most once.
    ///
    /// On the first offending token the whole list is rejected — no partial
    /// argument set is ever accepted — and the diagnostic pinpoints that
    /// token.
    pub fn parse(tokens: &Vec<String>) -> (r: Result<Args, Error>)
        ensures
            r is Ok <==> args_ok(tokens@),
            r matches Ok(a) ==> a.send == has_send(tokens@) && a.sync == has_sync(tokens@),
            r matches Err(e) ==> {
                &&& e matches Error::Argument { index, duplicate }
                &&& index < tokens@.len()
                &&& bad_at(tokens@, index as int)
                &&& forall|j: int| 0 <= j < index ==> !(#[trigger] bad_at(tokens@, j))
                &&& duplicate == recognized(tokens@[index as int]@)
            },
    {
        let send_lit = String::from_str("Send");
        let sync_lit = String::from_str("Sync");
        let mut send = false;
        let mut sync = false;
        let mut i: usize = 0;
        while i < tokens.len()
            invariant
                i <= tokens@.len(),
                send_lit@ == "Send"@,
                sync_lit@ == "Sync"@,
                send == has_send(tokens@.take(i as int)),
                sync == has_sync(tokens@.take(i as int)),
                forall|j: int| 0 <= j < i ==> !(#[trigger] bad_at(tokens@, j)),
            decreases tokens@.len() - i,
        {
            proof {
                reveal_strlit("Send");
                reveal_strlit("Sync");
                assert("Send"@[1] != "Sync"@[1]);
                assert("Send"@ != "Sync"@);
            }
            let t = &tokens[i];
            if *t == send_lit {
                if send {
                    proof {
                        lemma_dup_bad(tokens@, i as int);
                    }
                    return Err(Error::Argument { index: i, duplicate: true });
                }
                send = true;
            } else if *t == sync_lit {
                if sync {
                    proof {
                        lemma_dup_bad(tokens@, i as int);
                    }
                    return Err(Error::Argument { index: i, duplicate: true });
                }
                sync = true;
            } else {
                assert(!recognized(tokens@[i as int]@));
                assert(bad_at(tokens@, i as int));
                return Err(Error::Argument { index: i, duplicate: false });
            }
            proof {
                lemma_fresh_not_bad(tokens@, i as int);
                lemma_take_extend(tokens@, i as int);
            }
            i += 1;
        }
        proof {
            assert(tokens@.take(i as int) =~= tokens@);
        }
        Ok(Args { send, sync })
    }
}

} // verus!
