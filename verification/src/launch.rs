//! The launch-environment safety decision.
//!
//! Injecting a dynamic library into the process would put arbitrary code
//! on the privileged context, so a launch with one of the well-known
//! injection variables set (and non-empty) is refused unless an explicit
//! override is present. The decision is made here from plain key/value
//! pairs; reading the environment, printing the offenders and exiting
//! belong to the surrounding driver.

use vstd::prelude::*;

verus! {

/// The environment keys whose presence with a non-empty value marks a
/// high-risk injection: the dynamic linker's library-insertion hooks.
pub open spec fn blocked_key(k: Seq<char>) -> bool {
    ||| k == "DYLD_INSERT_LIBRARIES"@
    ||| k == "DYLD_LIBRARY_PATH"@
    ||| k == "DYLD_FRAMEWORK_PATH"@
    ||| k == "DYLD_FORCE_FLAT_NAMESPACE"@
    ||| k == "LD_PRELOAD"@
}

/// An environment pair that makes the launch unsafe: a blocked key bound
/// to a non-empty value.
pub open spec fn offending(p: (String, String)) -> bool {
    blocked_key(p.0@) && p.1@.len() > 0
}

/// `offending`, packaged once so that every contract filters with the
/// same predicate value.
pub open spec fn offending_pred() -> spec_fn((String, String)) -> bool {
    |p: (String, String)| offending(p)
}

/// Decides whether a key is one of the blocked injection hooks.
pub fn is_blocked_key(k: &String) -> (r: bool)
    ensures
        r == blocked_key(k@),
{
    let a = "DYLD_INSERT_LIBRARIES".to_owned();
    let b = "DYLD_LIBRARY_PATH".to_owned();
    let c = "DYLD_FRAMEWORK_PATH".to_owned();
    let d = "DYLD_FORCE_FLAT_NAMESPACE".to_owned();
    let e = "LD_PRELOAD".to_owned();
    *k == a || *k == b || *k == c || *k == d || *k == e
}

/// Keeps exactly the environment pairs that make the launch unsafe, in
/// their original order.
pub fn injection_offenders(vars: Vec<(String, String)>) -> (off: Vec<(String, String)>)
    ensures
        off@ == vars@.filter(offending_pred()),
{
    let ghost orig = vars@;
    let mut rest = vars;
    let mut off: Vec<(String, String)> = Vec::new();
    proof {
        reveal(Seq::filter);
        assert(orig.take(0) =~= Seq::<(String, String)>::empty());
    }
    while rest.len() > 0
        invariant
            rest@.len() <= orig.len(),
            rest@ =~= orig.skip(orig.len() - rest@.len()),
            off@ == orig.take(orig.len() - rest@.len()).filter(offending_pred()),
        decreases rest@.len(),
    {
        let ghost k = orig.len() - rest@.len();
        let p = rest.remove(0);
        proof {
            assert(p == orig[k]);
            assert(rest@ =~= orig.skip(k + 1));
        }
        let keep = is_blocked_key(&p.0) && !p.1.as_str().is_empty();
        proof {
            reveal(Seq::filter);
            assert(orig.take(k + 1).drop_last() =~= orig.take(k));
            assert(orig.take(k + 1).last() == orig[k]);
            assert(keep == offending_pred()(orig[k]));
        }
        if keep {
            off.push(p);
        }
    }
    proof {
        assert(orig.take(orig.len() as int) =~= orig);
    }
    off
}

/// The refusal decision: a launch is refused exactly when at least one
/// offending pair was found and no explicit override was given.
pub fn should_refuse_launch(offenders: &Vec<(String, String)>, allow_override: bool) -> (r: bool)
    ensures
        r == (offenders@.len() > 0 && !allow_override),
{
    offenders.len() > 0 && !allow_override
}

} // verus!
