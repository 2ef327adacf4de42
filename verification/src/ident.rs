//! Task and application identities.
//!
//! A proving task is identified by a string derived from the block number
//! alone, so resubmitting the same block always carries the same identifier.
//! An application is identified by the content of its program image, so
//! registering the same image twice always names the same application.

use vstd::prelude::*;

verus! {

/// The shortest decimal rendering of `n`, as ASCII digit bytes.
pub open spec fn decimal_spec(n: nat) -> Seq<u8>
    decreases n,
{
    if n < 10 {
        seq![(48 + n) as u8]
    } else {
        decimal_spec(n / 10).push((48 + n % 10) as u8)
    }
}

/// The task identifier bytes for block `n`: the fixed prefix `task-block-`
/// followed by the decimal block number.
pub open spec fn task_id_spec(n: u64) -> Seq<u8> {
    task_prefix_spec() + decimal_spec(n as nat)
}

/// The ASCII bytes of the fixed prefix `task-block-`.
pub open spec fn task_prefix_spec() -> Seq<u8> {
    seq![116u8, 97u8, 115u8, 107u8, 45u8, 98u8, 108u8, 111u8, 99u8, 107u8, 45u8]
}

/// Renders `n` in decimal, most significant digit first.
pub fn decimal_digits(n: u64) -> (r: Vec<u8>)
    ensures
        r@ == decimal_spec(n as nat),
    decreases n,
{
    if n < 10 {
        let mut out: Vec<u8> = Vec::new();
        out.push(48 + (n as u8));
        out
    } else {
        let mut out: Vec<u8> = decimal_digits(n / 10);
        out.push(48 + ((n % 10) as u8));
        out
    }
}

/// Builds the task identifier for block `n`. The identifier depends on the
/// block number alone.
pub fn task_id(n: u64) -> (r: Vec<u8>)
    ensures
        r@ == task_id_spec(n),
{
    let mut out: Vec<u8> = Vec::new();
    out.push(116);
    out.push(97);
    out.push(115);
    out.push(107);
    out.push(45);
    out.push(98);
    out.push(108);
    out.push(111);
    out.push(99);
    out.push(107);
    out.push(45);
    proof {
        assert(out@ =~= task_prefix_spec());
    }
    let digits: Vec<u8> = decimal_digits(n);
    let mut i: usize = 0;
    while i < digits.len()
        invariant
            i <= digits.len(),
            digits@ == decimal_spec(n as nat),
            out@ == task_prefix_spec() + digits@.take(i as int),
        decreases digits.len() - i,
    {
        out.push(digits[i]);
        proof {
            assert(task_prefix_spec() + digits@.take(i as int) + seq![digits@[i as int]]
                =~= task_prefix_spec() + digits@.take(i + 1));
        }
        i += 1;
    }
    proof {
        assert(digits@.take(digits@.len() as int) =~= digits@);
    }
    out
}

/// Submitting the same block twice yields the same task identifier: the
/// identifier is a function of the block number alone.
pub proof fn lemma_task_id_deterministic(first: Seq<u8>, second: Seq<u8>, n: u64)
    requires
        first == task_id_spec(n),
        second == task_id_spec(n),
    ensures
        first == second,
{
}

/// A proving target, identified by the content of its program image.
///
/// The remote proving service derives a compact identity from the same
/// content on registration; any deterministic content-derived identity keeps
/// registration idempotent, and the pipeline carries the image content itself.
pub struct Application {
    /// The content-derived identity bytes.
    pub id: Vec<u8>,
}

impl Application {
    /// Derives the application identity from the program image content.
    pub fn from_program(program: &Vec<u8>) -> (r: Application)
        ensures
            r.id@ == program@,
    {
        Application { id: crate::codec::copy_bytes(program) }
    }
}

/// Identical program bytes always yield the identical application identity:
/// registration keyed on it is idempotent.
pub proof fn lemma_application_identity_deterministic(a: Application, b: Application, program: Seq<u8>)
    requires
        a.id@ == program,
        b.id@ == program,
    ensures
        a.id@ == b.id@,
{
}

} // verus!
