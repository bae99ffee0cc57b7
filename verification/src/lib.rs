//! Owned singletons.
//!
//! An owned singleton is a proxy (a handle) that grants exclusive access to a
//! program-lifetime storage location. This crate models the code-generation
//! pipeline that turns one storage declaration, together with a small list of
//! modifier arguments, into such a proxy: a parser that validates the
//! declaration and its arguments, a synthesizer that produces a collision-free
//! internal alias for the renamed storage, and an emitter that combines the
//! two into the generated unit.

pub mod emit;
pub mod parse;
pub mod synth;

use vstd::prelude::*;

use crate::emit::{emit, symbol_of, GeneratedUnit};
use crate::parse::{args_ok, bad_at, check, has_send, has_sync, recognized, well_shaped};
use crate::parse::{Args, Error, Item};
use crate::synth::{alias_wf, mk_ident};

verus! {

/// One invocation of the whole pipeline: validate the candidate item, parse
/// the modifier-argument list, synthesize a fresh alias from the clock
/// reading and the call count, and emit the generated unit.
///
/// Emission is all-or-nothing: a shape error on the item, or an argument
/// error on the token list, aborts the invocation with that diagnostic and
/// nothing is emitted. The shape of the item is judged first, as the
/// original declaration must be decomposed before its arguments matter.
#[allow(non_snake_case)]
pub fn Singleton(args: &Vec<String>, input: Item, secs: u64, nanos: u32, count: u32) -> (r: Result<
    GeneratedUnit,
    Error,
>)
    ensures
        r is Ok <==> well_shaped(input) && args_ok(args@),
        !well_shaped(input) ==> (r matches Err(e) && e == Error::Shape),
        well_shaped(input) && !args_ok(args@) ==> (r matches Err(e) && {
            &&& e matches Error::Argument { index, duplicate }
            &&& index < args@.len()
            &&& bad_at(args@, index as int)
            &&& forall|j: int| 0 <= j < index ==> !(#[trigger] bad_at(args@, j))
            &&& duplicate == recognized(args@[index as int]@)
        }),
        r matches Ok(u) ==> input matches Item::Storage { attrs, vis, mutable, ident, ty, init }
            && {
            &&& u.proxy_name == ident
            &&& u.proxy_vis == vis
            &&& u.storage_attrs == attrs
            &&& u.storage_ty == ty
            &&& init == Some(u.storage_init)
            &&& u.write_through == mutable
            &&& u.grant_send == has_send(args@)
            &&& u.grant_sync == has_sync(args@)
            &&& alias_wf(u.storage_alias@)
            &&& u.export_symbol@ == symbol_of(ident@, u.storage_alias@)
        },
{
    let decl = match check(input) {
        Ok(d) => d,
        Err(e) => { return Err(e) },
    };
    let parsed = match Args::parse(args) {
        Ok(a) => a,
        Err(e) => { return Err(e) },
    };
    let alias = mk_ident(secs, nanos, count);
    Ok(emit(decl, alias, &parsed))
}

/// The access contract every emitted proxy implements: a proxy grants
/// exclusive access to the contents of the storage location behind it.
///
/// Exclusivity — at most one live proxy per storage location — is a contract
/// on the caller of the constructor, documented but not machine-checked, in
/// keeping with the zero-overhead design.
pub trait Singleton: Sized {
    /// The type of the storage behind this proxy.
    type Type;

    /// The current contents of the storage behind this proxy.
    spec fn contents(&self) -> Self::Type;

    /// Creates the proxy.
    ///
    /// Caller contract (not machine-checked): at most one instance of this
    /// proxy may be live at any time.
    fn new() -> Self;

    /// Read-through access to the storage.
    fn read(&self) -> (r: &Self::Type)
        ensures
            *r == self.contents(),
    ;

    /// Consumes this proxy and returns the storage contents it guarded.
    fn unwrap(self) -> (r: Self::Type)
        ensures
            r == self.contents(),
    ;
}

/// The additional operation a proxy for a mutable declaration implements:
/// write-through access. Proxies for immutable declarations expose no
/// mutation surface at all.
pub trait SingletonMut: Singleton {
    /// Write-through access to the storage.
    fn write(&mut self, v: Self::Type)
        ensures
            final(self).contents() == v,
    ;
}

} // verus!
