//! The runtime gate: the per-call decision, taken from the observed value of
//! the `ENABLE_FUNCTION_TIMER` environment variable, between the timed and
//! the untimed path of a decorated function.

use vstd::prelude::*;

verus! {

/// `s` spells `true` up to ASCII letter case.
pub open spec fn is_true_ignore_ascii_case(s: Seq<char>) -> bool {
    &&& s.len() == 4
    &&& (s[0] == 't' || s[0] == 'T')
    &&& (s[1] == 'r' || s[1] == 'R')
    &&& (s[2] == 'u' || s[2] == 'U')
    &&& (s[3] == 'e' || s[3] == 'E')
}

/// The values of the variable that keep timing switched on: `true` in
/// any ASCII letter case, or exactly `1`.
pub open spec fn enables_timer(s: Seq<char>) -> bool {
    is_true_ignore_ascii_case(s) || s == seq!['1']
}

/// The runtime-gate decision over the state of the environment variable, `None`
/// standing for an unset (or unreadable) variable: timing is on by default
/// and on for an enabling value; every other value switches it off.
pub open spec fn gate_on_spec(v: Option<Seq<char>>) -> bool {
    match v {
        None => true,
        Some(s) => enables_timer(s),
    }
}

/// Decides the runtime gate from the observed value of the environment
/// variable.
pub fn gate_on(v: Option<&str>) -> (on: bool)
    ensures
        on == gate_on_spec(match v {
            Some(s) => Some(s@),
            None => None,
        }),
{
    match v {
        None => true,
        Some(s) => {
            let n = s.unicode_len();
            if n == 4 {
                let c0 = s.get_char(0);
                let c1 = s.get_char(1);
                let c2 = s.get_char(2);
                let c3 = s.get_char(3);
                (c0 == 't' || c0 == 'T') && (c1 == 'r' || c1 == 'R') && (c2 == 'u' || c2 == 'U')
                    && (c3 == 'e' || c3 == 'E')
            } else if n == 1 {
                let c0 = s.get_char(0);
                proof {
                    if c0 == '1' {
                        assert(s@ =~= seq!['1']);
                    }
                }
                c0 == '1'
            } else {
                false
            }
        },
    }
}

} // verus!
