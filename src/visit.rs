use vstd::prelude::*;

use crate::console::{lemma_line_of_plain, line_of, result_lines, ColoredConsole};
use crate::node::{details_text, kind_type, NodeEntry, NodeKind};
use crate::result::{error_text, CmdType, Color, ConsoleError, ConsoleResult};
use crate::text::{occurs_in, same_text, str_contains, str_starts_with};

verus! {

/// Which paths a listing takes in, as plain values.
pub enum FilterView {
    Any,
    Prefix(Seq<char>),
    Search(Seq<char>),
}

/// Which paths a listing takes in.
#[derive(Debug)]
pub enum PathFilter {
    /// Every path.
    Any,
    /// Paths that start with the text.
    Prefix(String),
    /// Paths that contain the text, except the `find` command itself.
    Search(String),
}

impl View for PathFilter {
    type V = FilterView;

    open spec fn view(&self) -> FilterView {
        match self {
            PathFilter::Any => FilterView::Any,
            PathFilter::Prefix(p) => FilterView::Prefix(p@),
            PathFilter::Search(t) => FilterView::Search(t@),
        }
    }
}

pub open spec fn accepts(f: FilterView, path: Seq<char>) -> bool {
    match f {
        FilterView::Any => true,
        FilterView::Prefix(p) => p.is_prefix_of(path),
        FilterView::Search(t) => occurs_in(t, path) && path != "find"@,
    }
}

/// The help entries, in traversal order, of the nodes whose path the filter
/// takes in.
pub open spec fn report(s: Seq<NodeEntry>, f: FilterView) -> Seq<char>
    decreases s.len(),
{
    if s.len() == 0 {
        Seq::<char>::empty()
    } else {
        report(s.drop_last(), f) + if accepts(f, s.last().path@) {
            details_text(s.last().path@, s.last())
        } else {
            Seq::<char>::empty()
        }
    }
}

/// The help entries, shown under `var`, of the nodes whose path is `var`.
pub open spec fn help_text(s: Seq<NodeEntry>, var: Seq<char>) -> Seq<char>
    decreases s.len(),
{
    if s.len() == 0 {
        Seq::<char>::empty()
    } else {
        help_text(s.drop_last(), var) + if s.last().path@ == var {
            details_text(var, s.last())
        } else {
            Seq::<char>::empty()
        }
    }
}

/// The variant of the first node whose path is `var`; `NotFound` when none
/// is. The first match wins.
pub open spec fn type_at(s: Seq<NodeEntry>, var: Seq<char>) -> CmdType
    decreases s.len(),
{
    if s.len() == 0 {
        CmdType::NotFound
    } else if type_at(s.drop_last(), var) != CmdType::NotFound {
        type_at(s.drop_last(), var)
    } else if s.last().path@ == var {
        kind_type(s.last().kind)
    } else {
        CmdType::NotFound
    }
}

/// The current value of the first node whose path is `var`, when that node
/// is a property; `None` when it is not, or when no node is at `var`.
pub open spec fn value_at(s: Seq<NodeEntry>, var: Seq<char>) -> Option<Seq<char>>
    decreases s.len(),
{
    if s.len() == 0 {
        None
    } else if type_at(s.drop_last(), var) != CmdType::NotFound {
        value_at(s.drop_last(), var)
    } else if s.last().path@ == var && s.last().kind is Prop {
        Some(s.last().kind->Prop_value@)
    } else {
        None
    }
}

/// The namespace that a name stands for: the name followed by a dot.
pub open spec fn namespace_of(name: Seq<char>) -> Seq<char> {
    name + "."@
}

/// Some node lies in the namespace of `name`.
pub open spec fn known_prefix(s: Seq<NodeEntry>, name: Seq<char>) -> bool {
    exists|i: int| 0 <= i < s.len() && namespace_of(name).is_prefix_of(#[trigger] s[i].path@)
}

/// `r` is a success showing `t`.
pub open spec fn shows(r: ConsoleResult, t: Seq<char>) -> bool {
    r.0 is Ok && r.0->Ok_0@ == t
}

/// `r` is the error `e`, which carries no text.
pub open spec fn fails_with(r: ConsoleResult, e: ConsoleError) -> bool {
    r.0 is Err && r.0->Err_0 == e
}

/// What a listing returns: its entries, or `NoResults` when there are none.
pub open spec fn listing(r: ConsoleResult, text: Seq<char>) -> bool {
    if text.len() > 0 {
        shows(r, text)
    } else {
        fails_with(r, ConsoleError::NoResults)
    }
}

/// What a property lookup returns: the value, or `UnknownProperty`.
pub open spec fn got(r: ConsoleResult, v: Option<Seq<char>>) -> bool {
    match v {
        Some(t) => shows(r, t),
        None => fails_with(r, ConsoleError::UnknownProperty),
    }
}

/// The lines a listing result adds to a console: the entries in white, or
/// the message of `err` in red when there are none.
pub open spec fn listing_lines(text: Seq<char>, err: ConsoleError) -> Seq<(Color, Seq<char>)> {
    if text.len() > 0 {
        line_of((Color::spec_white(), text))
    } else {
        line_of((Color::spec_red(), error_text(err)))
    }
}

/// What the built-in `help` writes: with a name, the entries under it, else
/// the entries of every node.
pub open spec fn help_lines(s: Seq<NodeEntry>, args: Seq<String>) -> Seq<(Color, Seq<char>)> {
    if args.len() > 0 {
        listing_lines(help_text(s, args[0]@), ConsoleError::UnknownProperty)
    } else {
        listing_lines(report(s, FilterView::Any), ConsoleError::NoResults)
    }
}

/// The usage text of the built-in `find`.
pub open spec fn find_usage() -> Seq<char> {
    "find <name>"@
}

/// What the built-in `find` writes: the entries whose path holds the text, or
/// its usage when no text is given.
pub open spec fn find_lines(s: Seq<NodeEntry>, args: Seq<String>) -> Seq<(Color, Seq<char>)> {
    if args.len() > 0 {
        listing_lines(report(s, FilterView::Search(args[0]@)), ConsoleError::NoResults)
    } else {
        line_of((Color::spec_red(), "Usage: "@ + find_usage()))
    }
}

/// What is left to do for a command line once it has been classified.
#[derive(Debug)]
pub enum Step {
    /// The command is answered.
    Reply(ConsoleResult),
    /// Set the property at `path` from the text `value`.
    SetValue { path: String, value: String },
    /// Invoke the action at `path` with the arguments.
    Invoke { path: String, args: Vec<String> },
    /// Reset the property at `path` to its default.
    Reset { path: String },
    /// Reset every property to its default.
    ResetAll,
}

/// What the owner of the tree reports back after carrying out a step.
#[derive(Debug)]
pub enum Done {
    /// Setting a property: whether a property was found, or why the text did
    /// not parse.
    SetValue(Result<bool, String>),
    /// Invoking an action: the text it wrote to the console it was given.
    Invoked(String),
    /// Resetting one property: whether it was found.
    Reset(bool),
    /// Resetting every property.
    ResetAll,
}

/// The views of a list of strings.
pub open spec fn texts(v: Seq<String>) -> Seq<Seq<char>> {
    v.map_values(|s: String| s@)
}

/// What setting a property returns: empty success when it was set,
/// `UnknownProperty` when there is none at the path, `InvalidValue` with the
/// reason when the text did not parse.
pub open spec fn set_outcome(o: Result<bool, String>, r: ConsoleResult) -> bool {
    match o {
        Ok(true) => shows(r, Seq::<char>::empty()),
        Ok(false) => fails_with(r, ConsoleError::UnknownProperty),
        Err(d) => r.0 is Err && r.0->Err_0 is InvalidValue && r.0->Err_0->InvalidValue_0@ == d@,
    }
}

/// The result of setting a property, from what the setter reported.
pub fn set_result(o: Result<bool, String>) -> (r: ConsoleResult)
    ensures
        set_outcome(o, r),
{
    match o {
        Ok(true) => ConsoleResult(Ok(String::new())),
        Ok(false) => ConsoleResult(Err(ConsoleError::UnknownProperty)),
        Err(d) => ConsoleResult(Err(ConsoleError::InvalidValue(d))),
    }
}

/// The result of invoking an action: empty success when it was found.
pub fn call_result(found: bool) -> (r: ConsoleResult)
    ensures
        found ==> shows(r, Seq::<char>::empty()),
        !found ==> fails_with(r, ConsoleError::UnknownCommand),
{
    if found {
        ConsoleResult(Ok(String::new()))
    } else {
        ConsoleResult(Err(ConsoleError::UnknownCommand))
    }
}

/// The result of resetting one property: empty success when it was found.
pub fn reset_result(found: bool) -> (r: ConsoleResult)
    ensures
        found ==> shows(r, Seq::<char>::empty()),
        !found ==> fails_with(r, ConsoleError::UnknownProperty),
{
    if found {
        ConsoleResult(Ok(String::new()))
    } else {
        ConsoleResult(Err(ConsoleError::UnknownProperty))
    }
}

/// The result of resetting every property.
pub fn reset_all_result() -> (r: ConsoleResult)
    ensures
        shows(r, "OK"@),
{
    ConsoleResult::ok_text("OK")
}

/// What the built-in `reset` writes for one property.
pub open spec fn reset_lines(found: bool) -> Seq<(Color, Seq<char>)> {
    if found {
        Seq::<(Color, Seq<char>)>::empty()
    } else {
        seq![(Color::spec_red(), "Unknown property\n"@)]
    }
}

/// A copy of the arguments.
fn copy_args(args: &Vec<String>) -> (r: Vec<String>)
    ensures
        texts(r@) == texts(args@),
{
    let mut r: Vec<String> = Vec::new();
    let mut i: usize = 0;
    while i < args.len()
        invariant
            i <= args@.len(),
            texts(r@) == texts(args@.take(i as int)),
        decreases args@.len() - i,
    {
        r.push(args[i].clone());
        assert(texts(args@.take(i + 1)) =~= texts(args@.take(i as int)).push(args@[i as int]@));
        assert(texts(r@) =~= texts(args@.take(i as int)).push(args@[i as int]@));
        i = i + 1;
    }
    assert(args@.take(args@.len() as int) =~= args@);
    r
}

/// What `exec` does for a command `cmd` with arguments `args` over the nodes
/// `s`, from the private buffer `before` to `after`, giving the step `r`.
pub open spec fn exec_step(
    s: Seq<NodeEntry>,
    before: Seq<(Color, Seq<char>)>,
    cmd: Seq<char>,
    args: Seq<String>,
    r: Step,
    after: Seq<(Color, Seq<char>)>,
) -> bool {
    match type_at(s, cmd) {
        CmdType::Prop => after == before && if args.len() > 0 {
            r is SetValue && r->SetValue_path@ == cmd && r->SetValue_value@ == args[0]@
        } else {
            r is Reply && got(r->Reply_0, value_at(s, cmd))
        },
        CmdType::Action => if cmd == "help"@ {
            r is Reply && shows(r->Reply_0, Seq::<char>::empty()) && after == before + help_lines(s, args)
        } else if cmd == "find"@ {
            r is Reply && shows(r->Reply_0, Seq::<char>::empty()) && after == before + find_lines(s, args)
        } else if cmd == "reset"@ {
            after == before && if args.len() > 0 {
                r is Reset && r->Reset_path@ == args[0]@
            } else {
                r is ResetAll
            }
        } else {
            after == before && r is Invoke && r->Invoke_path@ == cmd && texts(r->Invoke_args@) == texts(args)
        },
        CmdType::List => after == before && r is Reply && listing(r->Reply_0, report(s, FilterView::Prefix(cmd))),
        CmdType::NotFound => after == before && r is Reply && if known_prefix(s, cmd) {
            listing(r->Reply_0, report(s, FilterView::Prefix(namespace_of(cmd))))
        } else {
            fails_with(r->Reply_0, ConsoleError::UnknownCommand)
        },
    }
}

/// One traversal of a configuration tree wrapped with the built-in commands
/// `help`, `find` and `reset`: the nodes met, in order, and a private output
/// buffer that the built-in commands write to.
pub struct VisitMutExt {
    pub nodes: Vec<NodeEntry>,
    pub console: ColoredConsole,
}

impl VisitMutExt {
    /// The built-in commands come first, as actions.
    pub open spec fn builtins_first(&self) -> bool {
        &&& self.nodes@.len() >= 3
        &&& self.nodes@[0].path@ == "help"@
        &&& self.nodes@[1].path@ == "find"@
        &&& self.nodes@[2].path@ == "reset"@
        &&& self.nodes@[0].kind is Action
        &&& self.nodes@[1].kind is Action
        &&& self.nodes@[2].kind is Action
        &&& self.nodes@[0].description@ == "List all commands and properties"@
        &&& self.nodes@[1].description@ == "<text>\nSearch for matching commands"@
        &&& self.nodes@[2].description@ == "<var>\nSet a property to its default"@
    }

    /// A traversal that has met only the built-in commands.
    pub fn new() -> (r: VisitMutExt)
        ensures
            r.wf(),
            r.nodes@.len() == 3,
            r.console@ == Seq::<(Color, Seq<char>)>::empty(),
    {
        let mut nodes: Vec<NodeEntry> = Vec::new();
        nodes.push(
            NodeEntry {
                path: String::from_str("help"),
                description: String::from_str("List all commands and properties"),
                kind: NodeKind::Action,
            },
        );
        nodes.push(
            NodeEntry {
                path: String::from_str("find"),
                description: String::from_str("<text>\nSearch for matching commands"),
                kind: NodeKind::Action,
            },
        );
        nodes.push(
            NodeEntry {
                path: String::from_str("reset"),
                description: String::from_str("<var>\nSet a property to its default"),
                kind: NodeKind::Action,
            },
        );
        VisitMutExt { nodes, console: ColoredConsole::new() }
    }

    /// The built-in commands come first; as the first match wins, they win
    /// over any node of the same name.
    pub open spec fn wf(&self) -> bool {
        self.builtins_first()
    }

    /// Records the next node of the traversal.
    pub fn add(&mut self, e: NodeEntry)
        ensures
            final(self).nodes@ == old(self).nodes@.push(e),
            final(self).console@ == old(self).console@,
            old(self).wf() ==> final(self).wf(),
    {
        self.nodes.push(e);
    }

    /// Whether some node lies in the namespace `ns`.
    fn has_under(&self, ns: &str) -> (r: bool)
        ensures
            r == exists|i: int| 0 <= i < self.nodes@.len() && ns@.is_prefix_of(#[trigger] self.nodes@[i].path@),
    {
        let mut i: usize = 0;
        while i < self.nodes.len()
            invariant
                i <= self.nodes@.len(),
                forall|j: int| 0 <= j < i ==> !ns@.is_prefix_of(#[trigger] self.nodes@[j].path@),
            decreases self.nodes@.len() - i,
        {
            if str_starts_with(self.nodes[i].path.as_str(), ns) {
                return true;
            }
            i = i + 1;
        }
        false
    }

    /// Whether the filter takes in the path.
    pub fn accepts(f: &PathFilter, path: &str) -> (r: bool)
        ensures
            r == accepts(f@, path@),
    {
        match f {
            PathFilter::Any => true,
            PathFilter::Prefix(p) => str_starts_with(path, p.as_str()),
            PathFilter::Search(t) => str_contains(path, t.as_str()) && !same_text(path, "find"),
        }
    }

    /// The help entries of the nodes whose path the filter takes in;
    /// `NoResults` when there are none.
    pub fn find(&self, f: &PathFilter) -> (r: ConsoleResult)
        ensures
            listing(r, report(self.nodes@, f@)),
    {
        let mut out = String::new();
        let mut i: usize = 0;
        while i < self.nodes.len()
            invariant
                i <= self.nodes@.len(),
                out@ == report(self.nodes@.take(i as int), f@),
            decreases self.nodes@.len() - i,
        {
            let e = &self.nodes[i];
            assert(self.nodes@.take(i + 1).drop_last() =~= self.nodes@.take(i as int));
            if VisitMutExt::accepts(f, e.path.as_str()) {
                e.details(e.path.as_str(), &mut out);
            }
            i = i + 1;
        }
        assert(self.nodes@.take(self.nodes@.len() as int) =~= self.nodes@);
        if out.unicode_len() > 0 {
            ConsoleResult(Ok(out))
        } else {
            ConsoleResult(Err(ConsoleError::NoResults))
        }
    }

    /// The help entries of the nodes at `var`; `UnknownProperty` when there
    /// are none.
    pub fn help(&self, var: &str) -> (r: ConsoleResult)
        ensures
            help_text(self.nodes@, var@).len() > 0 ==> shows(r, help_text(self.nodes@, var@)),
            help_text(self.nodes@, var@).len() == 0 ==> fails_with(r, ConsoleError::UnknownProperty),
    {
        let mut out = String::new();
        let mut i: usize = 0;
        while i < self.nodes.len()
            invariant
                i <= self.nodes@.len(),
                out@ == help_text(self.nodes@.take(i as int), var@),
            decreases self.nodes@.len() - i,
        {
            let e = &self.nodes[i];
            assert(self.nodes@.take(i + 1).drop_last() =~= self.nodes@.take(i as int));
            if same_text(e.path.as_str(), var) {
                e.details(var, &mut out);
            }
            i = i + 1;
        }
        assert(self.nodes@.take(self.nodes@.len() as int) =~= self.nodes@);
        if out.unicode_len() > 0 {
            ConsoleResult(Ok(out))
        } else {
            ConsoleResult(Err(ConsoleError::UnknownProperty))
        }
    }

    /// The variant of the first node at `var`, or `NotFound`.
    pub fn cmdtype(&self, var: &str) -> (r: CmdType)
        ensures
            r == type_at(self.nodes@, var@),
    {
        let mut t = CmdType::NotFound;
        let mut i: usize = 0;
        while i < self.nodes.len()
            invariant
                i <= self.nodes@.len(),
                t == type_at(self.nodes@.take(i as int), var@),
            decreases self.nodes@.len() - i,
        {
            let e = &self.nodes[i];
            assert(self.nodes@.take(i + 1).drop_last() =~= self.nodes@.take(i as int));
            if t == CmdType::NotFound && same_text(e.path.as_str(), var) {
                t = e.kind();
            }
            i = i + 1;
        }
        assert(self.nodes@.take(self.nodes@.len() as int) =~= self.nodes@);
        t
    }

    /// The current value of the first node at `var` when it is a property;
    /// `UnknownProperty` otherwise.
    pub fn get(&self, var: &str) -> (r: ConsoleResult)
        ensures
            got(r, value_at(self.nodes@, var@)),
    {
        let mut found: Option<&String> = None;
        let mut seen = false;
        let mut i: usize = 0;
        while i < self.nodes.len()
            invariant
                i <= self.nodes@.len(),
                seen == (type_at(self.nodes@.take(i as int), var@) != CmdType::NotFound),
                match found {
                    Some(v) => value_at(self.nodes@.take(i as int), var@) == Some(v@),
                    None => value_at(self.nodes@.take(i as int), var@) is None,
                },
            decreases self.nodes@.len() - i,
        {
            let e = &self.nodes[i];
            assert(self.nodes@.take(i + 1).drop_last() =~= self.nodes@.take(i as int));
            if !seen && same_text(e.path.as_str(), var) {
                seen = true;
                match &e.kind {
                    NodeKind::Prop { value, .. } => {
                        found = Some(value);
                    },
                    _ => {},
                }
            }
            i = i + 1;
        }
        assert(self.nodes@.take(self.nodes@.len() as int) =~= self.nodes@);
        match found {
            Some(v) => ConsoleResult(Ok(v.clone())),
            None => ConsoleResult(Err(ConsoleError::UnknownProperty)),
        }
    }

    /// The built-in `help`: with a name, the entries under it; without, the
    /// entries of every node. The outcome is written to the private buffer.
    pub fn cmd_help(&mut self, args: &Vec<String>)
        ensures
            final(self).nodes@ == old(self).nodes@,
            final(self).console@ == old(self).console@ + help_lines(old(self).nodes@, args@),
    {
        let out = if args.len() > 0 {
            self.help(args[0].as_str())
        } else {
            self.find(&PathFilter::Any)
        };
        self.console.write_result(out);
    }

    /// The built-in `find`: the entries whose path holds the text, except
    /// `find` itself. The outcome is written to the private buffer.
    pub fn cmd_find(&mut self, args: &Vec<String>)
        ensures
            final(self).nodes@ == old(self).nodes@,
            final(self).console@ == old(self).console@ + find_lines(old(self).nodes@, args@),
    {
        let out = if args.len() > 0 {
            self.find(&PathFilter::Search(args[0].clone()))
        } else {
            ConsoleResult(Err(ConsoleError::InvalidUsage(String::from_str("find <name>"))))
        };
        self.console.write_result(out);
    }

    /// The built-in `reset`: with a name, that property; without, every
    /// property. The owner of the tree carries it out.
    pub fn cmd_reset(&self, args: &Vec<String>) -> (r: Step)
        ensures
            args@.len() > 0 ==> r is Reset && r->Reset_path@ == args@[0]@,
            args@.len() == 0 ==> r is ResetAll,
    {
        if args.len() > 0 {
            Step::Reset { path: args[0].clone() }
        } else {
            Step::ResetAll
        }
    }

    /// Turns a command and its arguments into what is left to do: a property
    /// alone is read, a property with arguments is set from the first, an
    /// action is invoked, a list shows the entries under it, and anything
    /// else is an unknown command. The built-in `help` and `find` are
    /// answered here; `reset` is handed on.
    pub fn exec(&mut self, cmd: &str, args: &Vec<String>) -> (r: Step)
        ensures
            final(self).nodes@ == old(self).nodes@,
            exec_step(old(self).nodes@, old(self).console@, cmd@, args@, r, final(self).console@),
    {
        match self.cmdtype(cmd) {
            CmdType::Prop => {
                if args.len() > 0 {
                    Step::SetValue { path: cmd.to_string(), value: args[0].clone() }
                } else {
                    Step::Reply(self.get(cmd))
                }
            },
            CmdType::Action => {
                if same_text(cmd, "help") {
                    self.cmd_help(args);
                    Step::Reply(ConsoleResult(Ok(String::new())))
                } else if same_text(cmd, "find") {
                    self.cmd_find(args);
                    Step::Reply(ConsoleResult(Ok(String::new())))
                } else if same_text(cmd, "reset") {
                    self.cmd_reset(args)
                } else {
                    Step::Invoke { path: cmd.to_string(), args: copy_args(args) }
                }
            },
            CmdType::List => Step::Reply(self.find(&PathFilter::Prefix(cmd.to_string()))),
            CmdType::NotFound => {
                let mut ns = cmd.to_string();
                ns.append(".");
                if self.has_under(ns.as_str()) {
                    Step::Reply(self.find(&PathFilter::Prefix(ns)))
                } else {
                    Step::Reply(ConsoleResult(Err(ConsoleError::UnknownCommand)))
                }
            },
        }
    }

    /// Finishes a step that the owner of the tree carried out, giving the
    /// command's result. The outcome of a reset is written to the private
    /// buffer, as the built-in commands write theirs.
    pub fn complete(&mut self, done: Done) -> (r: ConsoleResult)
        ensures
            final(self).nodes@ == old(self).nodes@,
            match done {
                Done::SetValue(o) => final(self).console@ == old(self).console@ && set_outcome(o, r),
                Done::Invoked(t) => final(self).console@ == old(self).console@ && shows(r, t@),
                Done::Reset(found) => shows(r, Seq::<char>::empty()) && final(self).console@
                    == old(self).console@ + reset_lines(found),
                Done::ResetAll => shows(r, Seq::<char>::empty()) && final(self).console@
                    == old(self).console@.push((Color::spec_white(), "OK\n"@)),
            },
    {
        match done {
            Done::SetValue(o) => set_result(o),
            Done::Invoked(t) => ConsoleResult(Ok(t)),
            Done::Reset(found) => {
                proof {
                    reveal_strlit("Unknown property");
                    lemma_line_of_plain(Color::spec_red(), "Unknown property"@);
                    assert("Unknown property"@ + "\n"@ == "Unknown property\n"@) by {
                        reveal_strlit("Unknown property\n");
                        reveal_strlit("\n");
                        assert("Unknown property"@ + "\n"@ =~= "Unknown property\n"@);
                    }
                }
                self.console.write_result(reset_result(found));
                ConsoleResult(Ok(String::new()))
            },
            Done::ResetAll => {
                proof {
                    reveal_strlit("OK");
                    lemma_line_of_plain(Color::spec_white(), "OK"@);
                    assert("OK"@ + "\n"@ == "OK\n"@) by {
                        reveal_strlit("OK\n");
                        reveal_strlit("\n");
                        assert("OK"@ + "\n"@ =~= "OK\n"@);
                    }
                }
                self.console.write_result(reset_all_result());
                ConsoleResult(Ok(String::new()))
            },
        }
    }
}

} // verus!
