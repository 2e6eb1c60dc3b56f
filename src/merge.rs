use vstd::prelude::*;
use vstd::string::StringExecFns;

verus! {

/// One `-i <path>` pair per fragment, in order.
pub open spec fn input_args(inputs: Seq<Seq<char>>) -> Seq<Seq<char>>
    decreases inputs.len(),
{
    if inputs.len() == 0 {
        seq![]
    } else {
        input_args(inputs.drop_last()) + seq![seq!['-', 'i'], inputs.last()]
    }
}

/// The arguments of the merge tool: the inputs, then a stream copy into `output`.
pub open spec fn merge_args_of(inputs: Seq<Seq<char>>, output: Seq<char>) -> Seq<Seq<char>> {
    input_args(inputs) + seq![seq!['-', 'c'], seq!['c', 'o', 'p', 'y'], output]
}

/// The command-line arguments that make the merge tool copy the streams of
/// `inputs`, in order and without re-encoding, into `output`.
pub fn merge_args(inputs: &Vec<String>, output: &str) -> (r: Vec<String>)
    ensures
        r@.map_values(|s: String| s@) == merge_args_of(
            inputs@.map_values(|s: String| s@),
            output@,
        ),
{
    proof {
        reveal_strlit("-i");
        reveal_strlit("-c");
        reveal_strlit("copy");
        assert("-i"@ =~= seq!['-', 'i']);
        assert("-c"@ =~= seq!['-', 'c']);
        assert("copy"@ =~= seq!['c', 'o', 'p', 'y']);
    }
    let ghost all = inputs@.map_values(|s: String| s@);
    let mut args: Vec<String> = Vec::new();
    let mut i: usize = 0;
    while i < inputs.len()
        invariant
            i <= inputs@.len(),
            all == inputs@.map_values(|s: String| s@),
            args@.map_values(|s: String| s@) == input_args(all.subrange(0, i as int)),
        decreases inputs@.len() - i,
    {
        proof {
            reveal_strlit("-i");
            assert("-i"@ =~= seq!['-', 'i']);
            assert(all.subrange(0, i + 1).drop_last() =~= all.subrange(0, i as int));
            assert(all.subrange(0, i + 1).last() == inputs@[i as int]@);
        }
        let ghost before = args@.map_values(|s: String| s@);
        args.push(String::from_str("-i"));
        args.push(String::from_str(inputs[i].as_str()));
        assert(args@.map_values(|s: String| s@) =~= before + seq![seq!['-', 'i'], inputs@[i as int]@]);
        i = i + 1;
    }
    assert(all.subrange(0, inputs@.len() as int) =~= all);
    args.push(String::from_str("-c"));
    args.push(String::from_str("copy"));
    args.push(String::from_str(output));
    assert(args@.map_values(|s: String| s@) =~= merge_args_of(all, output@));
    args
}

} // verus!
