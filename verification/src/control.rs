use crate::envelope::{decode_either_envelope, either_decode_spec, ActiveBranch};
use crate::error::ExecutorError;
use crate::flow::{ByteSeq, CharSeq};
use vstd::prelude::*;
use vstd::string::StringExecFns;

verus! {

/// The input type of a conditional or a loop, and its condition: how the
/// input value is read from bytes and written back, and whether the
/// condition holds of a state and an input.
pub trait ControlInput<S> {
    /// The canonical encoding of the input value at the front of `bytes`
    /// (trailing bytes ignored), or the text of why none is there.
    spec fn canonical_spec(bytes: ByteSeq) -> Result<ByteSeq, CharSeq>;

    /// Whether the condition holds of `state` and the encoded input `carry`.
    spec fn holds_spec(&self, state: S, carry: ByteSeq) -> bool;

    fn canonical(&self, bytes: &[u8]) -> (r: Result<Vec<u8>, String>)
        ensures
            match r {
                Ok(c) => Self::canonical_spec(bytes@) == Ok::<Seq<u8>, Seq<char>>(c@),
                Err(t) => Self::canonical_spec(bytes@) == Err::<Seq<u8>, Seq<char>>(t@),
            },
    ;

    fn holds(&self, state: &S, carry: &[u8]) -> (b: bool)
        ensures
            b == self.holds_spec(*state, carry@),
    ;
}

/// A control flag byte followed by exactly the canonical encoding of an
/// input: the flag and the input.
pub open spec fn flagged_spec<S, C: ControlInput<S>>(input: Seq<u8>) -> Option<(bool, Seq<u8>)> {
    if input.len() >= 1 && input[0] <= 1 && C::canonical_spec(input.skip(1)) == Ok::<Seq<u8>, Seq<char>>(
        input.skip(1),
    ) {
        Some((input[0] == 1, input.skip(1)))
    } else {
        None
    }
}

/// What a conditional reads from its input: a flag with the input; else
/// a branch envelope, whose side is the choice and whose payload is the
/// input; else the input alone, with the condition making the choice. The
/// input handed on is its canonical encoding; an input that cannot be read
/// is an input error.
pub open spec fn controlled_input_spec<S, C: ControlInput<S>>(c: C, state: S, input: Seq<u8>) -> Option<(bool, Seq<u8>)> {
    match flagged_spec::<S, C>(input) {
        Some(p) => Some(p),
        None => match either_decode_spec(input) {
            Some((branch, payload)) => match C::canonical_spec(payload) {
                Ok(carry) => Some((branch == ActiveBranch::Left, carry)),
                Err(_) => None,
            },
            None => match C::canonical_spec(input) {
                Ok(carry) => Some((c.holds_spec(state, carry), carry)),
                Err(_) => None,
            },
        },
    }
}

/// What a loop reads from its input: a flag with the input; else a branch
/// envelope, whose payload is the input, and the condition decides; else
/// the input alone, and the condition decides.
pub open spec fn loop_input_spec<S, C: ControlInput<S>>(c: C, state: S, input: Seq<u8>) -> Option<(bool, Seq<u8>)> {
    match flagged_spec::<S, C>(input) {
        Some(p) => Some(p),
        None => {
            let payload = match either_decode_spec(input) {
                Some((_, payload)) => payload,
                None => input,
            };
            match C::canonical_spec(payload) {
                Ok(carry) => Some((c.holds_spec(state, carry), carry)),
                Err(_) => None,
            }
        },
    }
}

/// Why `bytes` hold no input value, or nothing when they do.
pub open spec fn canonical_error<S, C: ControlInput<S>>(bytes: Seq<u8>) -> Seq<char> {
    match C::canonical_spec(bytes) {
        Ok(_) => Seq::empty(),
        Err(t) => t,
    }
}

/// The text of the error when a conditional cannot read its input.
pub open spec fn controlled_error_spec<S, C: ControlInput<S>>(input: Seq<u8>) -> Seq<char> {
    match either_decode_spec(input) {
        Some((ActiveBranch::Left, payload)) => "conditional either left carry"@ + ": "@ + canonical_error::<S, C>(
            payload,
        ),
        Some((ActiveBranch::Right, payload)) => "conditional either right carry"@ + ": "@ + canonical_error::<
            S,
            C,
        >(payload),
        None => "conditional direct carry"@ + ": "@ + canonical_error::<S, C>(input),
    }
}

/// The text of the error when a loop cannot read its control value.
pub open spec fn loop_error_spec<S, C: ControlInput<S>>(input: Seq<u8>) -> Seq<char> {
    match either_decode_spec(input) {
        Some((_, payload)) => "while either carry"@ + ": "@ + canonical_error::<S, C>(payload),
        None => "while direct carry"@ + ": "@ + canonical_error::<S, C>(input),
    }
}

fn input_error(context: &str, detail: String) -> (e: ExecutorError)
    ensures
        e matches ExecutorError::InputDeserialize(t) && t@ == context@ + ": "@ + detail@,
{
    let mut text = String::from_str(context);
    text.append(": ");
    text.append(detail.as_str());
    ExecutorError::InputDeserialize(text)
}

fn flagged<S, C: ControlInput<S>>(c: &C, input: &[u8]) -> (r: Option<(bool, Vec<u8>)>)
    ensures
        match flagged_spec::<S, C>(input@) {
            Some((f, carry)) => r matches Some((g, d)) && g == f && d@ == carry,
            None => r is None,
        },
{
    if input.len() >= 1 && input[0] <= 1 {
        let rest = vstd::slice::slice_subrange(input, 1, input.len());
        proof {
            assert(rest@ =~= input@.skip(1));
        }
        match c.canonical(rest) {
            Ok(canon) => {
                if bytes_equal(canon.as_slice(), rest) {
                    return Some((input[0] == 1, canon));
                }
                None
            },
            Err(_) => None,
        }
    } else {
        None
    }
}

fn bytes_equal(a: &[u8], b: &[u8]) -> (r: bool)
    ensures
        r == (a@ == b@),
{
    if a.len() != b.len() {
        return false;
    }
    let mut i: usize = 0;
    while i < a.len()
        invariant
            i <= a@.len(),
            a@.len() == b@.len(),
            forall|k: int| 0 <= k < i ==> a@[k] == b@[k],
        decreases a.len() - i,
    {
        if a[i] != b[i] {
            return false;
        }
        i = i + 1;
    }
    proof {
        assert(a@ =~= b@);
    }
    true
}

/// Reads a conditional's input: the choice of branch and the encoded input
/// the branch runs on.
pub fn decode_controlled_input<S, C: ControlInput<S>>(c: &C, state: &S, input: &[u8]) -> (r: Result<
    (bool, Vec<u8>),
    ExecutorError,
>)
    ensures
        match controlled_input_spec::<S, C>(*c, *state, input@) {
            Some((f, carry)) => r matches Ok((g, d)) && g == f && d@ == carry,
            None => r matches Err(ExecutorError::InputDeserialize(t)) && t@ == controlled_error_spec::<S, C>(input@),
        },
{
    if let Some(p) = flagged::<S, C>(c, input) {
        return Ok(p);
    }
    match decode_either_envelope(input) {
        Some((branch, payload)) => match c.canonical(payload.as_slice()) {
            Ok(carry) => Ok((branch == ActiveBranch::Left, carry)),
            Err(t) => match branch {
                ActiveBranch::Left => Err(input_error("conditional either left carry", t)),
                ActiveBranch::Right => Err(input_error("conditional either right carry", t)),
            },
        },
        None => match c.canonical(input) {
            Ok(carry) => {
                let choice = c.holds(state, carry.as_slice());
                Ok((choice, carry))
            },
            Err(t) => Err(input_error("conditional direct carry", t)),
        },
    }
}

/// Reads a loop's input: whether to run the body again and the encoded
/// input the body runs on.
pub fn decode_loop_input<S, C: ControlInput<S>>(c: &C, state: &S, input: &[u8]) -> (r: Result<
    (bool, Vec<u8>),
    ExecutorError,
>)
    ensures
        match loop_input_spec::<S, C>(*c, *state, input@) {
            Some((f, carry)) => r matches Ok((g, d)) && g == f && d@ == carry,
            None => r matches Err(ExecutorError::InputDeserialize(t)) && t@ == loop_error_spec::<S, C>(input@),
        },
{
    if let Some(p) = flagged::<S, C>(c, input) {
        return Ok(p);
    }
    match decode_either_envelope(input) {
        Some((_, payload)) => match c.canonical(payload.as_slice()) {
            Ok(carry) => {
                let go_on = c.holds(state, carry.as_slice());
                Ok((go_on, carry))
            },
            Err(t) => Err(input_error("while either carry", t)),
        },
        None => match c.canonical(input) {
            Ok(carry) => {
                let go_on = c.holds(state, carry.as_slice());
                Ok((go_on, carry))
            },
            Err(t) => Err(input_error("while direct carry", t)),
        },
    }
}

} // verus!
