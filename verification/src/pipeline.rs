//! The operation contract and its composition.
//!
//! An operation turns an input value into a success value or a typed
//! failure. Operations compose linearly: the success value of one stage
//! feeds the next, and the first failure short-circuits the rest of the
//! chain. The composite's error type is a tagged union over the two stages'
//! error types, so a caller can always tell which stage failed.
//!
//! Backends may be nondeterministic (a network call can fail at any time),
//! so every operation describes itself with a relational specification
//! `post`: the set of (input, outcome) pairs it may produce. `call` promises
//! that its outcome satisfies `post`. The composition laws below
//! (short-circuiting and associativity) are proved once for all operations,
//! purely from those relations.

use vstd::prelude::*;

verus! {

/// The operation contract: given an input value, produce an output value or
/// a typed failure. Each pipeline stage, and every composed pipeline,
/// implements this identically. Implementations are stateless aside from
/// the backend handles they close over.
pub trait Op {
    /// The input type of the operation.
    type Input;

    /// The success type of the operation.
    type Output;

    /// The failure type of the operation.
    type Error;

    /// The outcomes this operation may produce for an input: a relation
    /// rather than a function, because an operation may consult a backend
    /// whose answer is not determined by the input alone. Left
    /// unoverridden, it admits every outcome.
    open spec fn post(
        &self,
        input: Self::Input,
        outcome: Result<Self::Output, Self::Error>,
    ) -> bool {
        true
    }

    /// Run the operation to completion on one input.
    fn call(&self, input: Self::Input) -> (r: Result<Self::Output, Self::Error>)
        ensures
            self.post(input, r),
    ;
}

/// The failure of a two-stage chain, tagged with the stage that failed.
/// Composition never collapses the two error types into one: a caller can
/// always determine the failing stage.
#[derive(Debug, Clone, PartialEq, Eq)]
pub enum ChainError<E1, E2> {
    /// The first stage failed; the second was never invoked.
    First(E1),
    /// The first stage succeeded and the second stage failed.
    Second(E2),
}

/// Two operations composed in sequence: `first`, then — only if `first`
/// succeeded — `second` applied to `first`'s success value.
pub struct Chain<A, B> {
    /// The first stage of the chain.
    pub first: A,
    /// The second stage, invoked only when the first succeeds.
    pub second: B,
}

impl<A, B> Op for Chain<A, B> where
    A: Op,
    B: Op<Input = <A as Op>::Output>,
 {
    type Input = <A as Op>::Input;

    type Output = <B as Op>::Output;

    type Error = ChainError<<A as Op>::Error, <B as Op>::Error>;

    /// A chain fails at its first stage exactly when the first stage fails;
    /// any other outcome passes through some mid value that the first stage
    /// produced and the second stage consumed.
    open spec fn post(
        &self,
        input: <A as Op>::Input,
        outcome: Result<<B as Op>::Output, ChainError<<A as Op>::Error, <B as Op>::Error>>,
    ) -> bool {
        match outcome {
            Result::Err(ChainError::First(e)) => self.first.post(input, Err(e)),
            Result::Err(ChainError::Second(e)) => exists|mid: <A as Op>::Output|
                #[trigger] self.first.post(input, Ok(mid)) && self.second.post(mid, Err(e)),
            Result::Ok(out) => exists|mid: <A as Op>::Output|
                #[trigger] self.first.post(input, Ok(mid)) && self.second.post(mid, Ok(out)),
        }
    }

    /// Runs the first stage; on failure returns that failure immediately
    /// without invoking the second stage; on success feeds the success value
    /// to the second stage and returns its outcome.
    fn call(&self, input: <A as Op>::Input) -> (r: Result<
        <B as Op>::Output,
        ChainError<<A as Op>::Error, <B as Op>::Error>,
    >) {
        let ghost ghost_input = input;
        match self.first.call(input) {
            Err(e) => {
                proof {
                    assert(self.post(ghost_input, Err(ChainError::First(e))));
                }
                Err(ChainError::First(e))
            },
            Ok(mid) => {
                let ghost ghost_mid = mid;
                match self.second.call(mid) {
                    Err(e) => {
                        proof {
                            assert(self.first.post(ghost_input, Ok(ghost_mid)));
                            assert(self.second.post(ghost_mid, Err(e)));
                        }
                        Err(ChainError::Second(e))
                    },
                    Ok(out) => {
                        proof {
                            assert(self.first.post(ghost_input, Ok(ghost_mid)));
                            assert(self.second.post(ghost_mid, Ok(out)));
                        }
                        Ok(out)
                    },
                }
            },
        }
    }
}

/// Composes two operations into one: the output of `first` becomes the
/// input of `second`, and the first failure encountered short-circuits.
pub fn chain<A, B>(first: A, second: B) -> (r: Chain<A, B>) where
    A: Op,
    B: Op<Input = <A as Op>::Output>,

    ensures
        r == (Chain { first, second }),
{
    Chain { first, second }
}

/// Law: when the first stage fails, the chain reports that failure as the
/// first stage's and the second stage is never involved. Here "the first
/// stage cannot succeed on this input" is expressed by its relation
/// admitting no successful outcome.
pub proof fn lemma_chain_short_circuit<A, B>(
    ch: Chain<A, B>,
    input: <A as Op>::Input,
    outcome: Result<<B as Op>::Output, ChainError<<A as Op>::Error, <B as Op>::Error>>,
) where
    A: Op,
    B: Op<Input = <A as Op>::Output>,

    requires
        ch.post(input, outcome),
        forall|mid: <A as Op>::Output| !ch.first.post(input, Ok(mid)),
    ensures
        outcome matches Err(ChainError::First(e)) && ch.first.post(input, Err(e)),
{
    match outcome {
        Result::Err(ChainError::First(_)) => {},
        Result::Err(ChainError::Second(e)) => {
            let mid = choose|mid: <A as Op>::Output|
                #[trigger] ch.first.post(input, Ok(mid)) && ch.second.post(mid, Err(e));
            assert(!ch.first.post(input, Ok(mid)));
        },
        Result::Ok(out) => {
            let mid = choose|mid: <A as Op>::Output|
                #[trigger] ch.first.post(input, Ok(mid)) && ch.second.post(mid, Ok(out));
            assert(!ch.first.post(input, Ok(mid)));
        },
    }
}

/// Law: when the first stage always succeeds and the second stage always
/// fails, every outcome of the chain is a failure reported as the second
/// stage's.
pub proof fn lemma_chain_second_stage_failure<A, B>(
    ch: Chain<A, B>,
    input: <A as Op>::Input,
    outcome: Result<<B as Op>::Output, ChainError<<A as Op>::Error, <B as Op>::Error>>,
) where
    A: Op,
    B: Op<Input = <A as Op>::Output>,

    requires
        ch.post(input, outcome),
        forall|e: <A as Op>::Error| !ch.first.post(input, Err(e)),
        forall|mid: <A as Op>::Output, out: <B as Op>::Output| !ch.second.post(mid, Ok(out)),
    ensures
        outcome matches Err(ChainError::Second(e)) && (exists|mid: <A as Op>::Output|
            #[trigger] ch.first.post(input, Ok(mid)) && ch.second.post(mid, Err(e))),
{
    match outcome {
        Result::Err(ChainError::First(e)) => {
            assert(!ch.first.post(input, Err(e)));
        },
        Result::Err(ChainError::Second(_)) => {},
        Result::Ok(out) => {
            let mid = choose|mid: <A as Op>::Output|
                #[trigger] ch.first.post(input, Ok(mid)) && ch.second.post(mid, Ok(out));
            assert(!ch.second.post(mid, Ok(out)));
        },
    }
}

/// Rewrites the outcome of a left-nested three-stage chain into the outcome
/// of the right-nested chain of the same three stages: the success value is
/// kept, and the failure keeps its originating stage, only re-tagged.
pub open spec fn reassociate_outcome<Out, E1, E2, E3>(
    outcome: Result<Out, ChainError<ChainError<E1, E2>, E3>>,
) -> Result<Out, ChainError<E1, ChainError<E2, E3>>> {
    match outcome {
        Result::Ok(out) => Ok(out),
        Result::Err(ChainError::First(ChainError::First(e1))) => Err(ChainError::First(e1)),
        Result::Err(ChainError::First(ChainError::Second(e2))) => Err(
            ChainError::Second(ChainError::First(e2)),
        ),
        Result::Err(ChainError::Second(e3)) => Err(ChainError::Second(ChainError::Second(e3))),
    }
}

/// Law: composition is associative. For three operations with compatible
/// types, `(a then b) then c` and `a then (b then c)` admit exactly the
/// same outcomes on the same input, up to the re-tagging of the failing
/// stage that `reassociate_outcome` performs.
pub proof fn lemma_chain_associative<A, B, C>(
    a: A,
    b: B,
    c: C,
    input: <A as Op>::Input,
    outcome: Result<
        <C as Op>::Output,
        ChainError<ChainError<<A as Op>::Error, <B as Op>::Error>, <C as Op>::Error>,
    >,
) where
    A: Op,
    B: Op<Input = <A as Op>::Output>,
    C: Op<Input = <B as Op>::Output>,

    ensures
        (Chain { first: Chain { first: a, second: b }, second: c }).post(input, outcome)
            <==> (Chain { first: a, second: Chain { first: b, second: c } }).post(
            input,
            reassociate_outcome(outcome),
        ),
{
    let ab = Chain { first: a, second: b };
    let bc = Chain { first: b, second: c };
    let left = Chain { first: ab, second: c };
    let right = Chain { first: a, second: bc };
    assert(left.first == ab && left.second == c);
    assert(right.first == a && right.second == bc);
    assert(ab.first == a && ab.second == b);
    assert(bc.first == b && bc.second == c);
    match outcome {
        Result::Ok(out) => {
            if left.post(input, outcome) {
                let m2 = choose|m2: <B as Op>::Output|
                    #[trigger] left.first.post(input, Ok(m2)) && left.second.post(m2, Ok(out));
                assert(ab.post(input, Ok(m2)));
                let m1 = choose|m1: <A as Op>::Output|
                    #[trigger] ab.first.post(input, Ok(m1)) && ab.second.post(m1, Ok(m2));
                assert(bc.post(m1, Ok(out))) by {
                    assert(bc.first.post(m1, Ok(m2)) && bc.second.post(m2, Ok(out)));
                }
                assert(right.first.post(input, Ok(m1)) && right.second.post(m1, Ok(out)));
                assert(right.post(input, reassociate_outcome(outcome)));
            }
            if right.post(input, reassociate_outcome(outcome)) {
                let m1 = choose|m1: <A as Op>::Output|
                    #[trigger] right.first.post(input, Ok(m1)) && right.second.post(m1, Ok(out));
                assert(bc.post(m1, Ok(out)));
                let m2 = choose|m2: <B as Op>::Output|
                    #[trigger] bc.first.post(m1, Ok(m2)) && bc.second.post(m2, Ok(out));
                assert(ab.post(input, Ok(m2))) by {
                    assert(ab.first.post(input, Ok(m1)) && ab.second.post(m1, Ok(m2)));
                }
                assert(left.first.post(input, Ok(m2)) && left.second.post(m2, Ok(out)));
                assert(left.post(input, outcome));
            }
        },
        Result::Err(ChainError::First(ChainError::First(_))) => {},
        Result::Err(ChainError::First(ChainError::Second(e2))) => {
            if left.post(input, outcome) {
                assert(ab.post(input, Err(ChainError::Second(e2))));
                let m1 = choose|m1: <A as Op>::Output|
                    #[trigger] ab.first.post(input, Ok(m1)) && ab.second.post(m1, Err(e2));
                assert(bc.post(m1, Err(ChainError::First(e2)))) by {
                    assert(bc.first.post(m1, Err(e2)));
                }
                assert(right.first.post(input, Ok(m1)) && right.second.post(
                    m1,
                    Err(ChainError::First(e2)),
                ));
                assert(right.post(input, reassociate_outcome(outcome)));
            }
            if right.post(input, reassociate_outcome(outcome)) {
                let m1 = choose|m1: <A as Op>::Output|
                    #[trigger] right.first.post(input, Ok(m1)) && right.second.post(
                        m1,
                        Err(ChainError::First(e2)),
                    );
                assert(bc.post(m1, Err(ChainError::First(e2))));
                assert(b.post(m1, Err(e2)));
                assert(ab.post(input, Err(ChainError::Second(e2)))) by {
                    assert(ab.first.post(input, Ok(m1)) && ab.second.post(m1, Err(e2)));
                }
                assert(left.first.post(input, Err(ChainError::Second(e2))));
                assert(left.post(input, outcome));
            }
        },
        Result::Err(ChainError::Second(e3)) => {
            if left.post(input, outcome) {
                let m2 = choose|m2: <B as Op>::Output|
                    #[trigger] left.first.post(input, Ok(m2)) && left.second.post(m2, Err(e3));
                assert(ab.post(input, Ok(m2)));
                let m1 = choose|m1: <A as Op>::Output|
                    #[trigger] ab.first.post(input, Ok(m1)) && ab.second.post(m1, Ok(m2));
                assert(bc.post(m1, Err(ChainError::Second(e3)))) by {
                    assert(bc.first.post(m1, Ok(m2)) && bc.second.post(m2, Err(e3)));
                }
                assert(right.first.post(input, Ok(m1)) && right.second.post(
                    m1,
                    Err(ChainError::Second(e3)),
                ));
                assert(right.post(input, reassociate_outcome(outcome)));
            }
            if right.post(input, reassociate_outcome(outcome)) {
                let m1 = choose|m1: <A as Op>::Output|
                    #[trigger] right.first.post(input, Ok(m1)) && right.second.post(
                        m1,
                        Err(ChainError::Second(e3)),
                    );
                assert(bc.post(m1, Err(ChainError::Second(e3))));
                let m2 = choose|m2: <B as Op>::Output|
                    #[trigger] bc.first.post(m1, Ok(m2)) && bc.second.post(m2, Err(e3));
                assert(ab.post(input, Ok(m2))) by {
                    assert(ab.first.post(input, Ok(m1)) && ab.second.post(m1, Ok(m2)));
                }
                assert(left.first.post(input, Ok(m2)) && left.second.post(m2, Err(e3)));
                assert(left.post(input, outcome));
            }
        },
    }
}

} // verus!
