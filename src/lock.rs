//! The lock coordinator's plan: after the process-wide token, the locks of
//! the standard streams that the terminal aliases, in a fixed order.
use crate::stdio::{StdStream, StdioFlags};
use vstd::prelude::*;

verus! {

/// The rank of a standard stream in the fixed lock order: standard input,
/// standard output, standard error.
pub open spec fn lock_rank(s: StdStream) -> int {
    match s {
        StdStream::Stdin => 0,
        StdStream::Stdout => 1,
        StdStream::Stderr => 2,
    }
}

/// `order` lists exactly the aliased streams, each once, by increasing rank.
pub open spec fn is_lock_order(aliases: StdioFlags, order: Seq<StdStream>) -> bool {
    &&& forall|s: StdStream| #[trigger] order.contains(s) <==> aliases.flag(s)
    &&& forall|i: int, j: int|
        0 <= i < j < order.len() ==> lock_rank(#[trigger] order[i]) < lock_rank(#[trigger] order[j])
}

/// The aliased streams in lock order.
pub open spec fn lock_order_spec(aliases: StdioFlags) -> Seq<StdStream> {
    (if aliases.stdin {
        seq![StdStream::Stdin]
    } else {
        Seq::empty()
    }) + (if aliases.stdout {
        seq![StdStream::Stdout]
    } else {
        Seq::empty()
    }) + (if aliases.stderr {
        seq![StdStream::Stderr]
    } else {
        Seq::empty()
    })
}

proof fn lemma_lock_order_spec(aliases: StdioFlags)
    ensures
        is_lock_order(aliases, lock_order_spec(aliases)),
        lock_order_spec(aliases).no_duplicates(),
{
    let order = lock_order_spec(aliases);
    assert forall|s: StdStream| #[trigger] order.contains(s) <==> aliases.flag(s) by {
        if aliases.flag(s) {
            let k: int = if s == StdStream::Stdin {
                0
            } else if s == StdStream::Stdout {
                if aliases.stdin { 1 } else { 0 }
            } else {
                (if aliases.stdin { 1int } else { 0int }) + (if aliases.stdout { 1int } else { 0int })
            };
            assert(order[k] == s);
        }
        if order.contains(s) {
            let k = choose|k: int| 0 <= k < order.len() && order[k] == s;
            assert(aliases.flag(order[k]));
        }
    }
}

/// The standard streams whose locks are taken, in this order, once the
/// process-wide token is held; they are released in the reverse order.
pub fn stdio_lock_order(aliases: &StdioFlags) -> (r: Vec<StdStream>)
    ensures
        r@ == lock_order_spec(*aliases),
        is_lock_order(*aliases, r@),
        r@.no_duplicates(),
{
    let mut order: Vec<StdStream> = Vec::new();
    if aliases.stdin {
        order.push(StdStream::Stdin);
    }
    if aliases.stdout {
        order.push(StdStream::Stdout);
    }
    if aliases.stderr {
        order.push(StdStream::Stderr);
    }
    assert(order@ =~= lock_order_spec(*aliases));
    proof {
        lemma_lock_order_spec(*aliases);
    }
    order
}

} // verus!
