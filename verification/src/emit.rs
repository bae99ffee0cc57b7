//! Code emitter: combines a validated declaration, its synthesized alias and
//! its parsed arguments into the generated unit — the renamed storage, the
//! proxy type and the access-contract surface the proxy exposes.

use vstd::prelude::*;

use crate::parse::{Args, Declaration};

verus! {

/// The link-time symbol the renamed storage is re-exported under: the
/// original identifier, two colons, the alias — so tooling can still
/// associate the storage with its logical name.
pub open spec fn symbol_of(ident: Seq<char>, alias: Seq<char>) -> Seq<char> {
    ident + "::"@ + alias
}

/// The aggregate output for one accepted declaration: the renamed storage,
/// the proxy type named after the original identifier, and the shape of the
/// access contract the proxy implements. Created once per invocation and
/// never mutated.
#[derive(Debug)]
pub struct GeneratedUnit {
    /// The synthesized internal name of the renamed storage.
    pub storage_alias: String,
    /// The symbol the renamed storage is exported under.
    pub export_symbol: String,
    /// Metadata forwarded verbatim from the declaration onto the storage.
    pub storage_attrs: Vec<String>,
    /// The declared type of the storage.
    pub storage_ty: String,
    /// The initializer expression of the storage.
    pub storage_init: String,
    /// The proxy type's name: exactly the original identifier.
    pub proxy_name: String,
    /// The proxy type's visibility: that of the declaration.
    pub proxy_vis: String,
    /// Whether the proxy exposes the write-through operation: if and only if
    /// the declaration was mutable.
    pub write_through: bool,
    /// Whether the cross-thread-move grant is emitted, conditioned at the
    /// use site on the underlying type itself supporting it.
    pub grant_send: bool,
    /// Whether the cross-thread-share grant is emitted, conditioned at the
    /// use site on the underlying type itself supporting it.
    pub grant_sync: bool,
}

/// Emits the generated unit for a validated declaration: exactly one proxy,
/// named after the original identifier; the storage renamed to the alias and
/// re-exported under the combined symbol; write-through access if and only if
/// the declaration was mutable; and each cross-thread grant if and only if it
/// was requested.
pub fn emit(decl: Declaration, alias: String, args: &Args) -> (u: GeneratedUnit)
    ensures
        u.proxy_name == decl.ident,
        u.proxy_vis == decl.vis,
        u.storage_alias == alias,
        u.export_symbol@ == symbol_of(decl.ident@, alias@),
        u.storage_attrs == decl.attrs,
        u.storage_ty == decl.ty,
        u.storage_init == decl.init,
        u.write_through == decl.mutable,
        u.grant_send == args.send,
        u.grant_sync == args.sync,
{
    let mut symbol = decl.ident.clone();
    symbol.append("::");
    symbol.append(alias.as_str());
    GeneratedUnit {
        storage_alias: alias,
        export_symbol: symbol,
        storage_attrs: decl.attrs,
        storage_ty: decl.ty,
        storage_init: decl.init,
        proxy_name: decl.ident,
        proxy_vis: decl.vis,
        write_through: decl.mutable,
        grant_send: args.send,
        grant_sync: args.sync,
    }
}

} // verus!
