//! Key-expression queries: validity, inclusion and intersection of
//! the hierarchical, wildcard-capable addressing strings, computed by
//! the messaging library's own key-expression engine.

use vstd::prelude::*;

use crate::errors::Loc;

verus! {

/// Whether a string is a valid key expression in canon form; it
/// depends on the string alone.
pub uninterp spec fn ke_valid(s: Seq<char>) -> bool;

/// Whether the set of keys addressed by `a` contains every key
/// addressed by `b`; it depends on the two strings alone.
pub uninterp spec fn ke_includes(a: Seq<char>, b: Seq<char>) -> bool;

/// Whether some key is addressed by both `a` and `b`; it depends on
/// the two strings alone.
pub uninterp spec fn ke_intersects(a: Seq<char>, b: Seq<char>) -> bool;

#[verifier::external_type_specification]
#[verifier::external_body]
pub struct ExOwnedKeyExpr(zenoh_keyexpr::OwnedKeyExpr);

/// The string a parsed key expression holds.
pub uninterp spec fn ke_str(k: zenoh_keyexpr::OwnedKeyExpr) -> Seq<char>;

/// Relies on `OwnedKeyExpr::try_from(&str)`: it succeeds exactly on
/// valid, canon-form key expressions and keeps the string unchanged;
/// the rendered error reports why the string was rejected.
#[verifier::external_body]
fn keyexpr_parse(s: &str) -> (r: Result<zenoh_keyexpr::OwnedKeyExpr, String>)
    ensures
        r matches Ok(k) ==> ke_valid(s@) && ke_str(k) == s@,
        r is Err ==> !ke_valid(s@),
{
    match zenoh_keyexpr::OwnedKeyExpr::try_from(s) {
        Ok(k) => Ok(k),
        Err(e) => Err(format!("{e}")),
    }
}

/// Relies on `keyexpr::includes`: whether `a`'s key set contains
/// `b`'s depends on the two key expressions alone.
#[verifier::external_body]
fn keyexpr_includes_raw(a: &zenoh_keyexpr::OwnedKeyExpr, b: &zenoh_keyexpr::OwnedKeyExpr) -> (r:
    bool)
    ensures
        r == ke_includes(ke_str(*a), ke_str(*b)),
{
    a.includes(b)
}

/// Relies on `keyexpr::intersects`: whether some key lies in both key
/// sets depends on the two key expressions alone, and is the same
/// question in either order.
#[verifier::external_body]
fn keyexpr_intersects_raw(a: &zenoh_keyexpr::OwnedKeyExpr, b: &zenoh_keyexpr::OwnedKeyExpr) -> (r:
    bool)
    ensures
        r == ke_intersects(ke_str(*a), ke_str(*b)),
        r == ke_intersects(ke_str(*b), ke_str(*a)),
{
    a.intersects(b)
}

/// Which of the two key expressions of a binary key-expression
/// command was rejected.
#[derive(Debug, PartialEq, Eq)]
pub enum KeyExprSide {
    Left,
    Right,
}

/// A rejected key expression: which side it stood on, the rendered
/// rejection, and the source location of the command's arguments.
#[derive(Debug, PartialEq, Eq)]
pub struct KeyExprError {
    pub side: KeyExprSide,
    pub reason: String,
    pub loc: Loc,
}

/// Whether the left key expression includes the right one: both
/// strings must be valid key expressions, the left one first.
pub fn keyexpr_includes(lhs: &str, rhs: &str, loc: Loc) -> (r: Result<bool, KeyExprError>)
    ensures
        r is Ok <==> ke_valid(lhs@) && ke_valid(rhs@),
        r matches Ok(b) ==> b == ke_includes(lhs@, rhs@),
        r matches Err(e) ==> e.loc == loc && (if !ke_valid(lhs@) {
            e.side == KeyExprSide::Left
        } else {
            e.side == KeyExprSide::Right
        }),
{
    let l = match keyexpr_parse(lhs) {
        Ok(k) => k,
        Err(reason) => {
            return Err(KeyExprError { side: KeyExprSide::Left, reason, loc });
        },
    };
    let q = match keyexpr_parse(rhs) {
        Ok(k) => k,
        Err(reason) => {
            return Err(KeyExprError { side: KeyExprSide::Right, reason, loc });
        },
    };
    Ok(keyexpr_includes_raw(&l, &q))
}

/// Whether the two key expressions intersect: both strings must be
/// valid key expressions, the left one first. The relation is
/// symmetric: swapping the operands gives the same answer.
pub fn keyexpr_intersects(lhs: &str, rhs: &str, loc: Loc) -> (r: Result<bool, KeyExprError>)
    ensures
        r is Ok <==> ke_valid(lhs@) && ke_valid(rhs@),
        r matches Ok(b) ==> b == ke_intersects(lhs@, rhs@) && b == ke_intersects(rhs@, lhs@),
        r matches Err(e) ==> e.loc == loc && (if !ke_valid(lhs@) {
            e.side == KeyExprSide::Left
        } else {
            e.side == KeyExprSide::Right
        }),
{
    let l = match keyexpr_parse(lhs) {
        Ok(k) => k,
        Err(reason) => {
            return Err(KeyExprError { side: KeyExprSide::Left, reason, loc });
        },
    };
    let q = match keyexpr_parse(rhs) {
        Ok(k) => k,
        Err(reason) => {
            return Err(KeyExprError { side: KeyExprSide::Right, reason, loc });
        },
    };
    Ok(keyexpr_intersects_raw(&l, &q))
}

} // verus!
