//! The error that a poisoned container surfaces to callers: the captured
//! state, rendered as a descriptive message with its cause and origin.

use vstd::prelude::*;
use vstd::string::StringExecFns;

use crate::state::Origin;
use crate::state::PoisonState;

verus! {

/// An error indicating that a value was poisoned.
///
/// It carries a copy of the state that blocked access: which kind of failure
/// poisoned the value, the captured cause or unwind payload when one was
/// supplied, and the origin of the checkout that broke.
#[derive(Debug)]
pub struct PoisonError {
    state: PoisonState,
}

/// The decimal digit `d` as a character.
pub open spec fn spec_digit(d: nat) -> char {
    if d == 0 {
        '0'
    } else if d == 1 {
        '1'
    } else if d == 2 {
        '2'
    } else if d == 3 {
        '3'
    } else if d == 4 {
        '4'
    } else if d == 5 {
        '5'
    } else if d == 6 {
        '6'
    } else if d == 7 {
        '7'
    } else if d == 8 {
        '8'
    } else {
        '9'
    }
}

/// The decimal rendering of `n`, most significant digit first.
pub open spec fn spec_decimal(n: nat) -> Seq<char>
    decreases n,
{
    if n < 10 {
        seq![spec_digit(n)]
    } else {
        spec_decimal(n / 10) + seq![spec_digit(n % 10)]
    }
}

/// The suffix `PoisonError::message` renders for the checkout's origin.
pub open spec fn spec_origin_suffix(o: Origin) -> Seq<char> {
    " (the poisoning guard was acquired at line "@ + spec_decimal(o.line as nat) + ", column "@
        + spec_decimal(o.col as nat) + ")"@
}

/// The description `PoisonError::message` renders for a captured state.
pub open spec fn spec_message(s: PoisonState) -> Seq<char> {
    match s {
        PoisonState::Unpoisoned => "a guard was not poisoned"@,
        PoisonState::CheckedOut { origin } => "poisoned"@ + spec_origin_suffix(origin),
        PoisonState::PoisonedByUnwind { origin, payload: Some(p) } => "poisoned by a panic: "@
            + p@ + spec_origin_suffix(origin),
        PoisonState::PoisonedByUnwind { origin, payload: None } => "poisoned by a panic"@
            + spec_origin_suffix(origin),
        PoisonState::PoisonedByError { origin, cause: Some(c) } => "poisoned by an error: "@ + c@
            + spec_origin_suffix(origin),
        PoisonState::PoisonedByError { origin, cause: None } => "poisoned by an error"@
            + spec_origin_suffix(origin),
    }
}

fn digit_str(d: u32) -> (s: &'static str)
    requires
        d < 10,
    ensures
        s@ == seq![spec_digit(d as nat)],
{
    let s: &'static str = match d {
        0 => "0",
        1 => "1",
        2 => "2",
        3 => "3",
        4 => "4",
        5 => "5",
        6 => "6",
        7 => "7",
        8 => "8",
        _ => "9",
    };
    proof {
        reveal_strlit("0");
        reveal_strlit("1");
        reveal_strlit("2");
        reveal_strlit("3");
        reveal_strlit("4");
        reveal_strlit("5");
        reveal_strlit("6");
        reveal_strlit("7");
        reveal_strlit("8");
        reveal_strlit("9");
        assert(s@ =~= seq![spec_digit(d as nat)]);
    }
    s
}

fn u32_decimal(n: u32) -> (s: String)
    ensures
        s@ == spec_decimal(n as nat),
    decreases n,
{
    if n < 10 {
        String::from_str(digit_str(n))
    } else {
        let rest = u32_decimal(n / 10);
        let s = rest.concat(digit_str(n % 10));
        proof {
            assert(s@ =~= spec_decimal(n as nat));
        }
        s
    }
}

fn origin_suffix(o: Origin) -> (s: String)
    ensures
        s@ == spec_origin_suffix(o),
{
    let line = u32_decimal(o.line);
    let col = u32_decimal(o.col);
    let s = String::from_str(" (the poisoning guard was acquired at line ").concat(line.as_str())
        .concat(", column ").concat(col.as_str()).concat(")");
    proof {
        assert(s@ =~= spec_origin_suffix(o));
    }
    s
}

impl PoisonError {
    /// The captured state this error reports.
    pub closed spec fn spec_state(&self) -> PoisonState {
        self.state
    }

    pub(crate) fn from_state(state: PoisonState) -> (e: Self)
        ensures
            e.spec_state() == state,
    {
        PoisonError { state }
    }

    /// A description of the failure, with the captured cause or unwind
    /// payload when one was supplied.
    pub fn message(&self) -> (m: String)
        ensures
            m@ == spec_message(self.spec_state()),
    {
        match &self.state {
            PoisonState::Unpoisoned => String::from_str("a guard was not poisoned"),
            PoisonState::CheckedOut { origin } => String::from_str("poisoned").concat(
                origin_suffix(*origin).as_str(),
            ),
            PoisonState::PoisonedByUnwind { origin, payload: Some(p) } => String::from_str(
                "poisoned by a panic: ",
            ).concat(p.as_str()).concat(origin_suffix(*origin).as_str()),
            PoisonState::PoisonedByUnwind { origin, payload: None } => String::from_str(
                "poisoned by a panic",
            ).concat(origin_suffix(*origin).as_str()),
            PoisonState::PoisonedByError { origin, cause: Some(c) } => String::from_str(
                "poisoned by an error: ",
            ).concat(c.as_str()).concat(origin_suffix(*origin).as_str()),
            PoisonState::PoisonedByError { origin, cause: None } => String::from_str(
                "poisoned by an error",
            ).concat(origin_suffix(*origin).as_str()),
        }
    }

    /// The origin of the checkout that the captured state records, absent
    /// only when the state was not poisoned at all.
    pub fn origin(&self) -> (o: Option<Origin>)
        ensures
            match self.spec_state() {
                PoisonState::Unpoisoned => o is None,
                PoisonState::CheckedOut { origin } => o == Some(origin),
                PoisonState::PoisonedByUnwind { origin, .. } => o == Some(origin),
                PoisonState::PoisonedByError { origin, .. } => o == Some(origin),
            },
    {
        match &self.state {
            PoisonState::Unpoisoned => None,
            PoisonState::CheckedOut { origin } => Some(*origin),
            PoisonState::PoisonedByUnwind { origin, .. } => Some(*origin),
            PoisonState::PoisonedByError { origin, .. } => Some(*origin),
        }
    }

    /// The underlying cause, present only for an error poisoning that
    /// supplied one.
    pub fn cause(&self) -> (c: Option<&String>)
        ensures
            match self.spec_state() {
                PoisonState::PoisonedByError { cause: Some(s), .. } => c matches Some(r) && *r == s,
                _ => c is None,
            },
    {
        match &self.state {
            PoisonState::PoisonedByError { cause: Some(c), .. } => Some(c),
            _ => None,
        }
    }
}

impl Clone for PoisonError {
    fn clone(&self) -> (r: Self)
        ensures
            r == *self,
    {
        PoisonError { state: self.state.clone() }
    }
}

} // verus!
