use vstd::prelude::*;

use crate::result::CmdType;
use crate::text::{lemma_split_on_nonempty, split_chars, split_on};

verus! {

/// What a node is, with the values a property shows.
#[derive(Debug)]
pub enum NodeKind {
    /// A property, with its current and its default value as text.
    Prop { value: String, default: String },
    /// A namespace holding further nodes.
    List,
    /// A command that can be invoked with arguments.
    Action,
}

/// One node met during a traversal of a configuration tree, with its full
/// dotted path.
#[derive(Debug)]
pub struct NodeEntry {
    pub path: String,
    pub description: String,
    pub kind: NodeKind,
}

/// The variant of a node kind.
pub open spec fn kind_type(k: NodeKind) -> CmdType {
    match k {
        NodeKind::Prop { .. } => CmdType::Prop,
        NodeKind::List => CmdType::List,
        NodeKind::Action => CmdType::Action,
    }
}

/// The parts joined, with `sep` between neighbours.
pub open spec fn join_with(parts: Seq<Seq<char>>, sep: Seq<char>) -> Seq<char>
    decreases parts.len(),
{
    if parts.len() == 0 {
        Seq::<char>::empty()
    } else if parts.len() == 1 {
        parts[0]
    } else {
        join_with(parts.drop_last(), sep) + sep + parts.last()
    }
}

/// An action's description read as a usage line and a text: the first line
/// is the usage when more text follows it; otherwise the usage is empty and
/// the first line is the text.
pub open spec fn usage_of(desc: Seq<char>) -> (Seq<char>, Seq<char>) {
    let parts = split_on(desc, '\n');
    let first = parts[0];
    let rest = join_with(parts.skip(1), "\n"@);
    if rest.len() > 0 {
        (first, rest)
    } else {
        (Seq::<char>::empty(), first)
    }
}

/// The help entry of a node shown under `path`. Properties read
/// `path: value (Default: default)` then the description on an indented line;
/// actions read `path usage:` then the text on an indented line; lists show
/// nothing.
pub open spec fn details_text(path: Seq<char>, e: NodeEntry) -> Seq<char> {
    match e.kind {
        NodeKind::Prop { value, default } => path + ": "@ + value@ + " (Default: "@ + default@
            + ")\n\t"@ + e.description@ + "\n"@,
        NodeKind::Action => {
            let (args, d) = usage_of(e.description@);
            path + (if args.len() > 0 {
                " "@ + args
            } else {
                Seq::<char>::empty()
            }) + ":\n\t"@ + d + "\n"@
        },
        NodeKind::List => Seq::<char>::empty(),
    }
}

/// Joins `parts[from..]` with newlines.
fn join_lines(parts: &Vec<String>, from: usize) -> (r: String)
    requires
        from <= parts@.len(),
    ensures
        r@ == join_with(parts@.map_values(|p: String| p@).skip(from as int), "\n"@),
{
    let ghost views = parts@.map_values(|p: String| p@);
    let mut out = String::new();
    let mut i: usize = from;
    assert(views.subrange(from as int, from as int) =~= Seq::<Seq<char>>::empty());
    while i < parts.len()
        invariant
            from <= i <= parts@.len(),
            views == parts@.map_values(|p: String| p@),
            out@ == join_with(views.subrange(from as int, i as int), "\n"@),
        decreases parts@.len() - i,
    {
        let ghost before = views.subrange(from as int, i as int);
        if i > from {
            out.append("\n");
        }
        out.append(parts[i].as_str());
        proof {
            let after = views.subrange(from as int, i + 1);
            assert(after.drop_last() =~= before);
            if i == from {
                assert(after.len() == 1);
            }
        }
        i = i + 1;
    }
    assert(views.subrange(from as int, parts@.len() as int) =~= views.skip(from as int));
    out
}

/// Reads an action's description as its usage line and its text.
pub fn usage_parts(desc: &str) -> (r: (String, String))
    ensures
        (r.0@, r.1@) == usage_of(desc@),
{
    let parts = split_chars(desc, '\n');
    proof {
        lemma_split_on_nonempty(desc@, '\n');
    }
    let ghost views = parts@.map_values(|p: String| p@);
    assert(views =~= split_on(desc@, '\n'));
    let first = parts[0].clone();
    let rest = join_lines(&parts, 1);
    if rest.unicode_len() > 0 {
        (first, rest)
    } else {
        (String::new(), first)
    }
}

impl NodeEntry {
    /// The node's variant.
    pub fn kind(&self) -> (r: CmdType)
        ensures
            r == kind_type(self.kind),
    {
        match self.kind {
            NodeKind::Prop { .. } => CmdType::Prop,
            NodeKind::List => CmdType::List,
            NodeKind::Action => CmdType::Action,
        }
    }

    /// Appends the help entry of this node, shown under `path`, to `out`.
    pub fn details(&self, path: &str, out: &mut String)
        ensures
            final(out)@ == old(out)@ + details_text(path@, *self),
    {
        match &self.kind {
            NodeKind::Prop { value, default } => {
                out.append(path);
                out.append(": ");
                out.append(value.as_str());
                out.append(" (Default: ");
                out.append(default.as_str());
                out.append(")\n\t");
                out.append(self.description.as_str());
                out.append("\n");
                assert(out@ =~= old(out)@ + details_text(path@, *self));
            },
            NodeKind::Action => {
                let (args, d) = usage_parts(self.description.as_str());
                out.append(path);
                if args.unicode_len() > 0 {
                    out.append(" ");
                    out.append(args.as_str());
                }
                out.append(":\n\t");
                out.append(d.as_str());
                out.append("\n");
                assert(out@ =~= old(out)@ + details_text(path@, *self));
            },
            NodeKind::List => {
                assert(out@ =~= old(out)@ + details_text(path@, *self));
            },
        }
    }
}

} // verus!
