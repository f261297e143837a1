use vstd::prelude::*;

verus! {

/// The forcing series given to a run do not pair up day by day.
#[derive(Debug, Clone, Copy, PartialEq, Eq, Structural)]
pub enum SeriesError {
    LengthMismatch { rainfall: usize, pet: usize },
}

/// The number of days that a run over `rainfall` and `pet` covers, or the
/// mismatch when the two series differ in length.
pub fn day_count<A>(rainfall: &[A], pet: &[A]) -> (r: Result<usize, SeriesError>)
    ensures
        r is Ok <==> rainfall@.len() == pet@.len(),
        r is Ok ==> r->Ok_0 == rainfall@.len(),
        r is Err ==> r->Err_0 == (SeriesError::LengthMismatch {
            rainfall: rainfall@.len() as usize,
            pet: pet@.len() as usize,
        }),
{
    if rainfall.len() == pet.len() {
        Ok(rainfall.len())
    } else {
        Err(SeriesError::LengthMismatch { rainfall: rainfall.len(), pet: pet.len() })
    }
}

/// Drives a daily step over paired forcing series, in day order, threading
/// the model state from each day to the next: day `i` steps the state left by
/// day `i - 1` with `(rainfall[i], pet[i])` and yields one result. Returns the
/// state after the last day together with the results, one per day. An empty
/// pair of series gives an empty result and the state as it was given.
pub fn run_days<S, A: Copy, R, F: Fn(S, A, A) -> (S, R)>(
    state: S,
    rainfall: &[A],
    pet: &[A],
    step: F,
) -> (r: (S, Vec<R>))
    requires
        rainfall@.len() == pet@.len(),
        forall|s: S, a: A, b: A| call_requires(step, (s, a, b)),
    ensures
        r.1@.len() == rainfall@.len(),
        rainfall@.len() == 0 ==> r.0 == state,
        exists|states: Seq<S>|
            {
                &&& states.len() == rainfall@.len() + 1
                &&& states[0] == state
                &&& states.last() == r.0
                &&& forall|i: int|
                    0 <= i < rainfall@.len() ==> call_ensures(
                        step,
                        (states[i], rainfall@[i], pet@[i]),
                        (states[i + 1], #[trigger] r.1@[i]),
                    )
            },
{
    let n = rainfall.len();
    let mut current = state;
    let mut out: Vec<R> = Vec::new();
    let ghost mut states: Seq<S> = seq![current];
    let mut day: usize = 0;
    while day < n
        invariant
            n == rainfall@.len(),
            n == pet@.len(),
            day <= n,
            out@.len() == day,
            states.len() == day + 1,
            states[0] == state,
            states.last() == current,
            forall|s: S, a: A, b: A| call_requires(step, (s, a, b)),
            forall|i: int|
                0 <= i < day ==> call_ensures(
                    step,
                    (states[i], rainfall@[i], pet@[i]),
                    (states[i + 1], #[trigger] out@[i]),
                ),
        decreases n - day,
    {
        let (next, q) = step(current, rainfall[day], pet[day]);
        proof {
            states = states.push(next);
        }
        current = next;
        out.push(q);
        day = day + 1;
    }
    (current, out)
}

} // verus!
