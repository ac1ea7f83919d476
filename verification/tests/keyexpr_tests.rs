use zenoh_shell_core::errors::Loc;
use zenoh_shell_core::keyexpr::{keyexpr_includes, keyexpr_intersects, KeyExprSide};

fn loc() -> Loc {
    Loc { start: 0, end: 4 }
}

#[test]
fn wildcard_keyexpr_includes_its_subkeys() {
    assert_eq!(keyexpr_includes("a/**", "a/b/c", loc()), Ok(true));
    assert_eq!(keyexpr_includes("a/*", "a/b", loc()), Ok(true));
    assert_eq!(keyexpr_includes("a/b", "a/c", loc()), Ok(false));
    assert_eq!(keyexpr_includes("a/b/**", "a", loc()), Ok(false));
}

#[test]
fn intersection_goes_both_ways() {
    assert_eq!(keyexpr_intersects("a/*", "*/b", loc()), Ok(true));
    assert_eq!(keyexpr_intersects("*/b", "a/*", loc()), Ok(true));
    assert_eq!(keyexpr_intersects("a/**", "b/**", loc()), Ok(false));
    assert_eq!(keyexpr_intersects("a/b", "a/b", loc()), Ok(true));
}

#[test]
fn invalid_left_keyexpr_is_reported_first() {
    let e = keyexpr_includes("a//b", "a", loc()).unwrap_err();
    assert_eq!(e.side, KeyExprSide::Left);
    assert_eq!(e.loc, loc());
    assert!(!e.reason.is_empty());
}

#[test]
fn invalid_right_keyexpr_is_reported_second() {
    let e = keyexpr_intersects("a/b", "", loc()).unwrap_err();
    assert_eq!(e.side, KeyExprSide::Right);
    assert_eq!(e.loc, loc());
}
