use vstd::prelude::*;

use crate::console::{lemma_line_of_plain, result_lines};
use crate::node::{details_text, NodeEntry};
use crate::result::{CmdType, Color, ConsoleError, ConsoleResult};
use crate::text::occurs_in;
use crate::visit::{accepts, fails_with, help_text, known_prefix, report, type_at, FilterView, VisitMutExt};

verus! {

/// A part of `b` stays a part of `b + a`.
proof fn lemma_occurs_extend(p: Seq<char>, b: Seq<char>, a: Seq<char>)
    requires
        occurs_in(p, b),
    ensures
        occurs_in(p, b + a),
{
    let i = choose|i: int| 0 <= i && i + p.len() <= b.len() && #[trigger] b.subrange(i, i + p.len()) == p;
    assert((b + a).subrange(i, i + p.len()) =~= p);
}

/// Every node that a filter takes in has its entry in the report.
proof fn lemma_report_contains(s: Seq<NodeEntry>, f: FilterView, i: int)
    requires
        0 <= i < s.len(),
        accepts(f, s[i].path@),
    ensures
        occurs_in(details_text(s[i].path@, s[i]), report(s, f)),
    decreases s.len(),
{
    let d = details_text(s[i].path@, s[i]);
    let tail = if accepts(f, s.last().path@) {
        details_text(s.last().path@, s.last())
    } else {
        Seq::<char>::empty()
    };
    assert(report(s, f) == report(s.drop_last(), f) + tail);
    if i == s.len() - 1 {
        let pre = report(s.drop_last(), f);
        assert(tail == d);
        assert((pre + d).subrange(pre.len() as int, (pre.len() + d.len()) as int) =~= d);
    } else {
        assert(s.drop_last()[i] == s[i]);
        lemma_report_contains(s.drop_last(), f, i);
        lemma_occurs_extend(d, report(s.drop_last(), f), tail);
    }
}

/// Once a prefix of the nodes has a node at `name`, the first match lies in
/// that prefix.
proof fn lemma_type_at_prefix(s: Seq<NodeEntry>, name: Seq<char>, k: int)
    requires
        0 <= k <= s.len(),
        type_at(s.take(k), name) != CmdType::NotFound,
    ensures
        type_at(s, name) == type_at(s.take(k), name),
    decreases s.len() - k,
{
    if s.len() > k {
        assert(s.drop_last().take(k) =~= s.take(k));
        lemma_type_at_prefix(s.drop_last(), name, k);
    } else {
        assert(s.take(k) =~= s);
    }
}

/// `find` with an empty text lists every property and action: each has its
/// entry in the report, which is never empty, and `find` is the built-in
/// action that gives it.
pub proof fn lemma_find_everything(t: VisitMutExt)
    requires
        t.wf(),
    ensures
        type_at(t.nodes@, "find"@) == CmdType::Action,
        report(t.nodes@, FilterView::Search(Seq::<char>::empty())).len() > 0,
        forall|i: int|
            0 <= i < t.nodes@.len() && !(t.nodes@[i].kind is List) && t.nodes@[i].path@ != "find"@
                ==> occurs_in(
                details_text(t.nodes@[i].path@, #[trigger] t.nodes@[i]),
                report(t.nodes@, FilterView::Search(Seq::<char>::empty())),
            ),
{
    let s = t.nodes@;
    let f = FilterView::Search(Seq::<char>::empty());
    assert forall|p: Seq<char>| occurs_in(Seq::<char>::empty(), p) by {
        assert(p.subrange(0, 0int + Seq::<char>::empty().len()) =~= Seq::<char>::empty());
    }
    reveal_strlit("find");
    reveal_strlit("help");
    // the built-in `find` is the first node at its name
    assert(s.take(2).last() == s[1]);
    assert(s.take(2).drop_last() =~= s.take(1));
    assert(s.take(1).last() == s[0]);
    assert(s.take(1).drop_last() =~= Seq::<NodeEntry>::empty());
    assert("help"@[0] != "find"@[0]);
    assert(type_at(s.take(1).drop_last(), "find"@) == CmdType::NotFound);
    assert(type_at(s.take(1), "find"@) == CmdType::NotFound);
    assert(type_at(s.take(2), "find"@) == CmdType::Action);
    lemma_type_at_prefix(s, "find"@, 2);
    // `help` has a non-empty entry in the report
    assert("help"@[0] != "find"@[0]);
    assert(s[0].path@ != "find"@);
    lemma_report_contains(s, f, 0);
    let d0 = details_text(s[0].path@, s[0]);
    assert(d0.len() > 0);
    assert forall|i: int|
        0 <= i < s.len() && !(s[i].kind is List) && s[i].path@ != "find"@ implies occurs_in(
        details_text(s[i].path@, #[trigger] s[i]),
        report(s, f),
    ) by {
        lemma_report_contains(s, f, i);
    }
}

/// `help` for a name that no node has finds no entry, and `help` is the
/// built-in action that says so.
pub proof fn lemma_help_unknown(t: VisitMutExt, name: Seq<char>)
    requires
        t.wf(),
        forall|i: int| 0 <= i < t.nodes@.len() ==> #[trigger] t.nodes@[i].path@ != name,
    ensures
        type_at(t.nodes@, "help"@) == CmdType::Action,
        help_text(t.nodes@, name).len() == 0,
{
    let s = t.nodes@;
    // the built-in `help` is the first node
    assert(s.take(1).last() == s[0]);
    assert(s.take(1).drop_last() =~= Seq::<NodeEntry>::empty());
    assert(type_at(s.take(1).drop_last(), "help"@) == CmdType::NotFound);
    assert(type_at(s.take(1), "help"@) == CmdType::Action);
    lemma_type_at_prefix(s, "help"@, 1);
    lemma_help_text_empty(s, name);
}

proof fn lemma_help_text_empty(s: Seq<NodeEntry>, name: Seq<char>)
    requires
        forall|i: int| 0 <= i < s.len() ==> #[trigger] s[i].path@ != name,
    ensures
        help_text(s, name).len() == 0,
    decreases s.len(),
{
    if s.len() > 0 {
        assert(s.last() == s[s.len() - 1]);
        assert forall|i: int| 0 <= i < s.drop_last().len() implies #[trigger] s.drop_last()[i].path@
            != name by {
            assert(s.drop_last()[i] == s[i]);
        }
        lemma_help_text_empty(s.drop_last(), name);
    }
}

/// An unknown command shows as exactly one red line, `Unknown command`.
pub proof fn lemma_unknown_command_line(r: ConsoleResult)
    requires
        fails_with(r, ConsoleError::UnknownCommand),
    ensures
        result_lines(r) == seq![(Color::spec_red(), "Unknown command\n"@)],
{
    reveal_strlit("Unknown command");
    reveal_strlit("Unknown command\n");
    reveal_strlit("\n");
    lemma_line_of_plain(Color::spec_red(), "Unknown command"@);
    assert("Unknown command"@ + "\n"@ =~= "Unknown command\n"@);
}

/// A command alone reads a property.
pub open spec fn fires_get(s: Seq<NodeEntry>, cmd: Seq<char>, nargs: nat) -> bool {
    type_at(s, cmd) == CmdType::Prop && nargs == 0
}

/// A command with arguments sets a property.
pub open spec fn fires_set(s: Seq<NodeEntry>, cmd: Seq<char>, nargs: nat) -> bool {
    type_at(s, cmd) == CmdType::Prop && nargs > 0
}

/// A command calls an action.
pub open spec fn fires_call(s: Seq<NodeEntry>, cmd: Seq<char>, nargs: nat) -> bool {
    type_at(s, cmd) == CmdType::Action
}

/// A command lists a namespace: a list node, or a name that no node has but
/// that nodes lie under.
pub open spec fn fires_list(s: Seq<NodeEntry>, cmd: Seq<char>, nargs: nat) -> bool {
    type_at(s, cmd) == CmdType::List || (type_at(s, cmd) == CmdType::NotFound && known_prefix(s, cmd))
}

/// A command matches no node and no namespace.
pub open spec fn fires_not_found(s: Seq<NodeEntry>, cmd: Seq<char>, nargs: nat) -> bool {
    type_at(s, cmd) == CmdType::NotFound && !known_prefix(s, cmd)
}

/// One for true, zero for false.
pub open spec fn count(b: bool) -> int {
    if b {
        1
    } else {
        0
    }
}

/// Classification is total: for any nodes and any command with any number of
/// arguments, exactly one of get, set, call, list and not-found fires.
pub proof fn lemma_dispatch_total(s: Seq<NodeEntry>, cmd: Seq<char>, nargs: nat)
    ensures
        count(fires_get(s, cmd, nargs)) + count(fires_set(s, cmd, nargs)) + count(
            fires_call(s, cmd, nargs),
        ) + count(fires_list(s, cmd, nargs)) + count(fires_not_found(s, cmd, nargs)) == 1,
{
}

} // verus!
