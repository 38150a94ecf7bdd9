//! The command line that is handed to the program once it runs on the server.
//!
//! The arguments travel in one buffer of bounded size, each followed by a zero
//! byte. An argument that no longer fits is left out, together with all that
//! come after it: the buffer never holds part of an argument.

use vstd::prelude::*;
use vstd::utf8::encode_utf8;

verus! {

/// The size of the buffer in which the server takes the command line.
pub const MAX_CMD_BUF_SIZE: usize = 3072;

/// The bytes of each argument: its text in UTF-8.
pub open spec fn arg_bytes(args: Seq<String>) -> Seq<Seq<u8>> {
    Seq::new(args.len(), |i: int| encode_utf8(args[i]@))
}

/// All of `args` in order, each followed by its terminator.
pub open spec fn joined(args: Seq<Seq<u8>>) -> Seq<u8>
    decreases args.len(),
{
    if args.len() == 0 {
        Seq::empty()
    } else {
        joined(args.drop_last()) + args.last().push(0u8)
    }
}

/// How many of `args`, counted from the first, fit the buffer together with
/// their terminators.
pub open spec fn fitting_count(args: Seq<Seq<u8>>) -> nat
    decreases args.len(),
{
    if args.len() == 0 {
        0
    } else if joined(args).len() <= MAX_CMD_BUF_SIZE {
        args.len()
    } else {
        fitting_count(args.drop_last())
    }
}

/// The buffer that is sent for `args`: the arguments that fit, terminated.
pub open spec fn arg_blob(args: Seq<Seq<u8>>) -> Seq<u8> {
    joined(args.take(fitting_count(args) as int))
}

/// Leaving arguments out at the end never makes the joined form longer.
pub proof fn lemma_joined_prefix(args: Seq<Seq<u8>>, count: int)
    requires
        0 <= count <= args.len(),
    ensures
        joined(args.take(count)).len() <= joined(args).len(),
    decreases args.len(),
{
    if count == args.len() {
        assert(args.take(count) =~= args);
    } else {
        assert(args.drop_last().take(count) =~= args.take(count));
        lemma_joined_prefix(args.drop_last(), count);
    }
}

/// The arguments that fit are those before the first that would overrun the
/// buffer: where the first `count` fit and the next one does not (or there is
/// no next one), `count` is the number that fit.
pub proof fn lemma_fitting_count_is(args: Seq<Seq<u8>>, count: int)
    requires
        0 <= count <= args.len(),
        joined(args.take(count)).len() <= MAX_CMD_BUF_SIZE,
        count < args.len() ==> joined(args.take(count + 1)).len() > MAX_CMD_BUF_SIZE,
    ensures
        fitting_count(args) == count,
    decreases args.len(),
{
    if count == args.len() {
        assert(args.take(count) =~= args);
    } else {
        lemma_joined_prefix(args, count + 1);
        assert(args.drop_last().take(count) =~= args.take(count));
        if count < args.len() - 1 {
            assert(args.drop_last().take(count + 1) =~= args.take(count + 1));
        }
        lemma_fitting_count_is(args.drop_last(), count);
    }
}

/// The buffer never exceeds its size, and it holds whole arguments only: it is
/// the joined form of the first `fitting_count(args)` arguments, each in full
/// and with its terminator. Every shorter run of leading arguments fits as
/// well, and where an argument was left out, taking it in would have overrun
/// the buffer.
pub proof fn lemma_arg_blob(args: Seq<Seq<u8>>)
    ensures
        arg_blob(args).len() <= MAX_CMD_BUF_SIZE,
        fitting_count(args) <= args.len(),
        arg_blob(args) == joined(args.take(fitting_count(args) as int)),
        forall|count: int|
            0 <= count <= fitting_count(args) ==> #[trigger] joined(args.take(count)).len()
                <= MAX_CMD_BUF_SIZE,
        fitting_count(args) < args.len() ==> joined(
            args.take(fitting_count(args) as int + 1),
        ).len() > MAX_CMD_BUF_SIZE,
    decreases args.len(),
{
    if args.len() == 0 {
        assert(args.take(0) =~= args);
        assert forall|count: int| 0 <= count <= fitting_count(args) implies #[trigger] joined(
            args.take(count),
        ).len() <= MAX_CMD_BUF_SIZE by {
            assert(args.take(count) =~= args);
        }
    } else if joined(args).len() <= MAX_CMD_BUF_SIZE {
        assert(args.take(args.len() as int) =~= args);
        assert forall|count: int| 0 <= count <= fitting_count(args) implies #[trigger] joined(
            args.take(count),
        ).len() <= MAX_CMD_BUF_SIZE by {
            lemma_joined_prefix(args, count);
        }
    } else {
        let rest = args.drop_last();
        let kept = fitting_count(rest) as int;
        lemma_arg_blob(rest);
        assert(rest.take(kept) =~= args.take(kept));
        assert forall|count: int| 0 <= count <= fitting_count(args) implies #[trigger] joined(
            args.take(count),
        ).len() <= MAX_CMD_BUF_SIZE by {
            assert(rest.take(count) =~= args.take(count));
        }
        if kept < rest.len() {
            assert(rest.take(kept + 1) =~= args.take(kept + 1));
        } else {
            assert(args.take(kept + 1) =~= args);
        }
    }
}

/// Builds the buffer that is sent for `args`.
pub fn build_arg_blob(args: &[String]) -> (blob: Vec<u8>)
    ensures
        blob@ == arg_blob(arg_bytes(args@)),
        blob@.len() <= MAX_CMD_BUF_SIZE,
{
    let ghost all = arg_bytes(args@);
    let mut blob: Vec<u8> = Vec::new();
    let mut taken: usize = 0;
    proof {
        assert(all.take(0) =~= Seq::<Seq<u8>>::empty());
    }
    while taken < args.len()
        invariant
            all == arg_bytes(args@),
            taken <= args.len(),
            blob@ == joined(all.take(taken as int)),
            blob@.len() <= MAX_CMD_BUF_SIZE,
        ensures
            taken < args.len() ==> joined(all.take(taken + 1)).len() > MAX_CMD_BUF_SIZE,
        decreases args.len() - taken,
    {
        let arg = args[taken].as_str().as_bytes();
        proof {
            assert(arg@ == all[taken as int]);
            assert(all.take(taken + 1).drop_last() =~= all.take(taken as int));
            assert(all.take(taken + 1).last() == arg@);
            assert(joined(all.take(taken + 1)) == blob@ + arg@.push(0u8));
        }
        if arg.len() >= MAX_CMD_BUF_SIZE - blob.len() {
            break ;
        }
        blob.extend_from_slice(arg);
        blob.push(0u8);
        taken += 1;
        proof {
            assert(blob@ =~= joined(all.take(taken as int)));
        }
    }
    proof {
        lemma_fitting_count_is(all, taken as int);
    }
    blob
}

} // verus!
