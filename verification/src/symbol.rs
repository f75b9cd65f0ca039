//! Symbols: the two-variant names — a small unsigned id or an owned text
//! name — the engine uses for declared objects, and the stateless codec
//! between them and the form the engine interns.
//!
//! The engine's signed-integer symbols and its interned strings reach this
//! module as plain values; no engine handle is retained between calls, and a
//! fresh encoding is produced on every call.

use vstd::prelude::*;

verus! {

/// A symbolic name: an unsigned integer id, or an owned text name. The two
/// representations are mutually exclusive and exhaustive.
#[derive(Clone, Debug)]
pub enum Symbol {
    Int(u32),
    String(String),
}

/// A symbol in the form the engine takes and returns it: the integer variant
/// as the engine's signed integer, the text variant as the text itself.
#[derive(Clone, Debug)]
pub enum WireSymbol {
    Int(i32),
    Text(String),
}

/// How a symbol is encoded for the engine: the unsigned id reinterpreted as
/// the engine's signed integer, the text passed through.
pub open spec fn encoded(s: Symbol) -> WireSymbol {
    match s {
        Symbol::Int(i) => WireSymbol::Int(i as i32),
        Symbol::String(t) => WireSymbol::Text(t),
    }
}

/// How an engine symbol is decoded: the signed integer reinterpreted as the
/// unsigned id, the text passed through.
pub open spec fn decoded(w: WireSymbol) -> Symbol {
    match w {
        WireSymbol::Int(v) => Symbol::Int(v as u32),
        WireSymbol::Text(t) => Symbol::String(t),
    }
}

impl Symbol {
    /// Encode this symbol for the engine. No handle is cached: every call
    /// produces a fresh encoding.
    pub fn as_z3_symbol(&self) -> (w: WireSymbol)
        ensures
            w == encoded(*self),
    {
        match self {
            Symbol::Int(i) => WireSymbol::Int(*i as i32),
            Symbol::String(s) => WireSymbol::Text(s.clone()),
        }
    }

    /// Decode a symbol the engine handed back, by its kind: an integer
    /// payload becomes the integer variant, a text payload the text variant.
    /// No third kind is representable.
    pub fn from_z3_symbol(w: WireSymbol) -> (s: Symbol)
        ensures
            s == decoded(w),
    {
        match w {
            WireSymbol::Int(v) => Symbol::Int(v as u32),
            WireSymbol::Text(t) => Symbol::String(t),
        }
    }
}

/// Law: the codec round-trips. A symbol encoded for the engine and decoded
/// back is the original symbol, in the integer and in the text case alike.
pub proof fn lemma_symbol_round_trip(s: Symbol)
    ensures
        decoded(encoded(s)) == s,
{
    match s {
        Symbol::Int(i) => {
            assert((i as i32) as u32 == i) by (bit_vector);
        },
        Symbol::String(_) => {
        },
    }
}

impl PartialEq for Symbol {
    /// Two symbols are equal when they are the same variant with the same
    /// payload; ids and text names never compare equal.
    fn eq(&self, other: &Symbol) -> (r: bool) {
        match (self, other) {
            (Symbol::Int(a), Symbol::Int(b)) => *a == *b,
            (Symbol::String(a), Symbol::String(b)) => *a == *b,
            _ => false,
        }
    }
}

impl vstd::std_specs::cmp::PartialEqSpecImpl for Symbol {
    open spec fn obeys_eq_spec() -> bool {
        true
    }

    open spec fn eq_spec(&self, other: &Symbol) -> bool {
        match (self, other) {
            (Symbol::Int(a), Symbol::Int(b)) => a == b,
            (Symbol::String(a), Symbol::String(b)) => a@ == b@,
            _ => false,
        }
    }
}

impl PartialEq for WireSymbol {
    /// Same-variant, same-payload equality, as for [`Symbol`].
    fn eq(&self, other: &WireSymbol) -> (r: bool) {
        match (self, other) {
            (WireSymbol::Int(a), WireSymbol::Int(b)) => *a == *b,
            (WireSymbol::Text(a), WireSymbol::Text(b)) => *a == *b,
            _ => false,
        }
    }
}

impl vstd::std_specs::cmp::PartialEqSpecImpl for WireSymbol {
    open spec fn obeys_eq_spec() -> bool {
        true
    }

    open spec fn eq_spec(&self, other: &WireSymbol) -> bool {
        match (self, other) {
            (WireSymbol::Int(a), WireSymbol::Int(b)) => a == b,
            (WireSymbol::Text(a), WireSymbol::Text(b)) => a@ == b@,
            _ => false,
        }
    }
}

impl From<u32> for Symbol {
    /// An unsigned integer names the integer variant directly, without
    /// consulting the engine.
    fn from(val: u32) -> (s: Self) {
        Symbol::Int(val)
    }
}

impl vstd::std_specs::convert::FromSpecImpl<u32> for Symbol {
    open spec fn obeys_from_spec() -> bool {
        true
    }

    open spec fn from_spec(val: u32) -> Symbol {
        Symbol::Int(val)
    }
}

impl From<String> for Symbol {
    /// An owned text value names the text variant directly, without
    /// consulting the engine.
    fn from(val: String) -> (s: Self) {
        Symbol::String(val)
    }
}

impl vstd::std_specs::convert::FromSpecImpl<String> for Symbol {
    open spec fn obeys_from_spec() -> bool {
        true
    }

    open spec fn from_spec(val: String) -> Symbol {
        Symbol::String(val)
    }
}

impl From<&str> for Symbol {
    /// A borrowed text value is copied into the text variant, without
    /// consulting the engine: the result is the text variant holding exactly
    /// the argument's characters.
    fn from(val: &str) -> (s: Self)
        ensures
            s matches Symbol::String(t) && t@ == val@,
    {
        Symbol::String(val.to_owned())
    }
}

impl vstd::std_specs::convert::FromSpecImpl<&str> for Symbol {
    open spec fn obeys_from_spec() -> bool {
        // No spec-level value can be written down for the fresh owned text,
        // so the hook is declined; the conversion's own `ensures` above
        // carries the contract instead.
        false
    }

    open spec fn from_spec(val: &str) -> Symbol {
        arbitrary()
    }
}

} // verus!
