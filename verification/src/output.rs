//! The exact text of every line the program can emit, as specification-level
//! character sequences, and the complete line sequence of a run for each value
//! of the flag.

use vstd::prelude::*;

verus! {

/// Marker printed just before the callable resource is invoked.
pub open spec fn calling_line() -> Seq<char> {
    "calling helper()"@
}

/// Marker printed by the callable resource's invocation.
pub open spec fn invoked_line() -> Seq<char> {
    "CallableResource invoked"@
}

/// Marker printed right after the invocation returns.
pub open spec fn returned_line() -> Seq<char> {
    "helper() returned"@
}

/// Marker printed when the invocation is skipped.
pub open spec fn not_calling_line() -> Seq<char> {
    "not calling helper()"@
}

/// Last marker of the entry point's own body.
pub open spec fn end_line() -> Seq<char> {
    "end of main()"@
}

/// Teardown marker of a tagged resource, with its label embedded.
pub open spec fn tagged_drop_line(label: Seq<char>) -> Seq<char> {
    "TaggedResource (\""@ + label + "\")::drop()"@
}

/// Teardown marker of the callable resource.
pub open spec fn callable_drop_line() -> Seq<char> {
    "CallableResource::drop()"@
}

/// Label of the standalone tagged resource the entry point constructs.
pub open spec fn dog_label() -> Seq<char> {
    "dog"@
}

/// The teardown tail, common to both branches: the standalone tagged resource
/// (constructed last) releases first, then the callable resource, whose
/// internal tagged resource (empty label) releases as part of its owner's
/// teardown, right after the owner's own marker.
pub open spec fn teardown_lines() -> Seq<Seq<char>> {
    seq![
        tagged_drop_line(dog_label()),
        callable_drop_line(),
        tagged_drop_line(Seq::<char>::empty()),
    ]
}

/// The lines the chosen branch prints before the end marker.
pub open spec fn branch_lines(help: bool) -> Seq<Seq<char>> {
    if help {
        seq![calling_line(), invoked_line(), returned_line()]
    } else {
        seq![not_calling_line()]
    }
}

/// Every line of a complete run, in order.
pub open spec fn program_lines(help: bool) -> Seq<Seq<char>> {
    branch_lines(help) + seq![end_line()] + teardown_lines()
}

/// `target` stands in `lines` exactly once: at some position, and at no two
/// distinct positions.
pub open spec fn appears_exactly_once(lines: Seq<Seq<char>>, target: Seq<char>) -> bool {
    &&& exists|i: int| 0 <= i < lines.len() && lines[i] == target
    &&& forall|i: int, j: int|
        0 <= i < lines.len() && 0 <= j < lines.len() && lines[i] == target && lines[j] == target
            ==> i == j
}

/// The eight line texts the program can emit are pairwise distinct.
proof fn lemma_lines_distinct()
    ensures
        calling_line() != invoked_line(),
        calling_line() != returned_line(),
        calling_line() != not_calling_line(),
        calling_line() != end_line(),
        calling_line() != tagged_drop_line(dog_label()),
        calling_line() != callable_drop_line(),
        calling_line() != tagged_drop_line(Seq::<char>::empty()),
        invoked_line() != returned_line(),
        invoked_line() != not_calling_line(),
        invoked_line() != end_line(),
        invoked_line() != tagged_drop_line(dog_label()),
        invoked_line() != callable_drop_line(),
        invoked_line() != tagged_drop_line(Seq::<char>::empty()),
        returned_line() != not_calling_line(),
        returned_line() != end_line(),
        returned_line() != tagged_drop_line(dog_label()),
        returned_line() != callable_drop_line(),
        returned_line() != tagged_drop_line(Seq::<char>::empty()),
        not_calling_line() != end_line(),
        not_calling_line() != tagged_drop_line(dog_label()),
        not_calling_line() != callable_drop_line(),
        not_calling_line() != tagged_drop_line(Seq::<char>::empty()),
        end_line() != tagged_drop_line(dog_label()),
        end_line() != callable_drop_line(),
        end_line() != tagged_drop_line(Seq::<char>::empty()),
        tagged_drop_line(dog_label()) != callable_drop_line(),
        tagged_drop_line(dog_label()) != tagged_drop_line(Seq::<char>::empty()),
        callable_drop_line() != tagged_drop_line(Seq::<char>::empty()),
{
    reveal_strlit("calling helper()");
    reveal_strlit("CallableResource invoked");
    reveal_strlit("helper() returned");
    reveal_strlit("not calling helper()");
    reveal_strlit("end of main()");
    reveal_strlit("TaggedResource (\"");
    reveal_strlit("\")::drop()");
    reveal_strlit("dog");
    reveal_strlit("CallableResource::drop()");
    assert(calling_line().len() == 16);
    assert(invoked_line().len() == 24);
    assert(returned_line().len() == 17);
    assert(not_calling_line().len() == 20);
    assert(end_line().len() == 13);
    assert(tagged_drop_line(dog_label()).len() == 30);
    assert(callable_drop_line().len() == 24);
    assert(tagged_drop_line(Seq::<char>::empty()).len() == 27);
    assert(invoked_line()[16] == ' ');
    assert(callable_drop_line()[16] == ':');
}

/// Teardown markers are printed exactly once per constructed instance,
/// whichever branch is taken: never zero times, never more than once, for the
/// standalone tagged resource, the callable resource, and the callable's
/// internal tagged resource alike.
pub proof fn lemma_teardown_once(help: bool)
    ensures
        appears_exactly_once(program_lines(help), tagged_drop_line(dog_label())),
        appears_exactly_once(program_lines(help), callable_drop_line()),
        appears_exactly_once(program_lines(help), tagged_drop_line(Seq::<char>::empty())),
{
    lemma_lines_distinct();
    let pl = program_lines(help);
    if help {
        assert(pl.len() == 7);
        assert(pl[0] == calling_line());
        assert(pl[1] == invoked_line());
        assert(pl[2] == returned_line());
        assert(pl[3] == end_line());
        assert(pl[4] == tagged_drop_line(dog_label()));
        assert(pl[5] == callable_drop_line());
        assert(pl[6] == tagged_drop_line(Seq::<char>::empty()));
    } else {
        assert(pl.len() == 5);
        assert(pl[0] == not_calling_line());
        assert(pl[1] == end_line());
        assert(pl[2] == tagged_drop_line(dog_label()));
        assert(pl[3] == callable_drop_line());
        assert(pl[4] == tagged_drop_line(Seq::<char>::empty()));
    }
}

/// The invocation marker stands in a run's output exactly when the flag is
/// true, and then strictly between a "calling" marker before it and a
/// "returned" marker after it.
pub proof fn lemma_invoked_iff_true(help: bool)
    ensures
        program_lines(help).contains(invoked_line()) <==> help,
        forall|i: int|
            0 <= i < program_lines(help).len() && program_lines(help)[i] == invoked_line()
                ==> (exists|j: int| 0 <= j < i && program_lines(help)[j] == calling_line())
                    && (exists|k: int|
                    i < k < program_lines(help).len() && program_lines(help)[k]
                        == returned_line()),
{
    lemma_lines_distinct();
    let pl = program_lines(help);
    if help {
        assert(pl.len() == 7);
        assert(pl[0] == calling_line());
        assert(pl[1] == invoked_line());
        assert(pl[2] == returned_line());
        assert(pl[3] == end_line());
        assert(pl[4] == tagged_drop_line(dog_label()));
        assert(pl[5] == callable_drop_line());
        assert(pl[6] == tagged_drop_line(Seq::<char>::empty()));
        assert(pl.contains(invoked_line()));
    } else {
        assert(pl.len() == 5);
        assert(pl[0] == not_calling_line());
        assert(pl[1] == end_line());
        assert(pl[2] == tagged_drop_line(dog_label()));
        assert(pl[3] == callable_drop_line());
        assert(pl[4] == tagged_drop_line(Seq::<char>::empty()));
        assert(!pl.contains(invoked_line()));
    }
}

} // verus!
