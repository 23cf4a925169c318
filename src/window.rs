use vstd::prelude::*;

use crate::console::{line_of, result_lines, ColoredConsole};
use crate::result::{Color, ConsoleResult, TextSpan};
use crate::text::{lemma_split_on_nonempty, split_chars, split_on};
use crate::visit::texts;

verus! {

/// The scrollback of a console window, and what a submitted line adds to it.
#[derive(Debug)]
pub struct ConsoleWindow {
    console: ColoredConsole,
}

impl View for ConsoleWindow {
    type V = Seq<(Color, Seq<char>)>;

    closed spec fn view(&self) -> Seq<(Color, Seq<char>)> {
        self.console@
    }
}

/// The text echoed before a submitted line.
pub open spec fn prompt_text() -> Seq<char> {
    " > "@
}

impl ConsoleWindow {
    /// A window with an empty scrollback.
    pub fn new() -> (r: ConsoleWindow)
        ensures
            r@ == Seq::<(Color, Seq<char>)>::empty(),
    {
        ConsoleWindow { console: ColoredConsole::new() }
    }

    /// The spans of the scrollback, oldest first.
    pub fn spans(&self) -> (r: &Vec<TextSpan>)
        ensures
            r@.map_values(|s: TextSpan| s@) == self@,
    {
        self.console.spans()
    }

    /// Empties the scrollback.
    pub fn clear(&mut self)
        ensures
            final(self)@ == Seq::<(Color, Seq<char>)>::empty(),
    {
        self.console.clear();
    }

    /// Appends a span as it is.
    pub fn write(&mut self, span: TextSpan)
        ensures
            final(self)@ == old(self)@.push(span@),
    {
        self.console.write(span);
    }

    /// Appends a span as a line, as `ColoredConsole::writeln` does.
    pub fn writeln(&mut self, span: TextSpan)
        ensures
            final(self)@ == old(self)@ + line_of(span@),
    {
        self.console.writeln(span);
    }

    /// Appends text in the given color.
    pub fn write_colored(&mut self, c: Color, text: &str)
        ensures
            final(self)@ == old(self)@.push((c, text@)),
    {
        self.console.write_colored(c, text);
    }

    /// Appends the prompt marker in cyan.
    pub fn draw_prompt(&mut self)
        ensures
            final(self)@ == old(self)@.push((Color::spec_cyan(), prompt_text())),
    {
        self.console.write_colored(Color::cyan(), " > ");
    }

    /// Echoes a submitted line: the prompt marker, then the line and a
    /// newline in white.
    pub fn echo_command(&mut self, line: &str)
        ensures
            final(self)@ == old(self)@.push((Color::spec_cyan(), prompt_text())).push(
                (Color::spec_white(), line@ + "\n"@),
            ),
    {
        self.draw_prompt();
        let mut text = line.to_string();
        text.append("\n");
        self.console.write(TextSpan::from_text(text));
    }

    /// Shows the outcome of a command: its result as a line, then whatever
    /// the command wrote to the buffer `side`, which is emptied.
    pub fn finish_cmd(&mut self, result: ConsoleResult, side: &mut ColoredConsole)
        ensures
            final(self)@ == old(self)@ + result_lines(result) + old(side)@,
            final(side)@ == Seq::<(Color, Seq<char>)>::empty(),
    {
        self.console.write_result(result);
        self.console.append(side);
    }
}

/// A new console window with an empty scrollback.
pub fn create_console() -> (r: ConsoleWindow)
    ensures
        r@ == Seq::<(Color, Seq<char>)>::empty(),
{
    ConsoleWindow::new()
}

/// Splits a command line at every space into the command and its arguments.
pub fn parse_command(line: &str) -> (r: (String, Vec<String>))
    ensures
        r.0@ == split_on(line@, ' ')[0],
        texts(r.1@) == split_on(line@, ' ').skip(1),
{
    let parts = split_chars(line, ' ');
    proof {
        lemma_split_on_nonempty(line@, ' ');
    }
    let cmd = parts[0].clone();
    let mut args: Vec<String> = Vec::new();
    let mut i: usize = 1;
    while i < parts.len()
        invariant
            1 <= i <= parts@.len(),
            parts@.len() == split_on(line@, ' ').len(),
            forall|k: int| 0 <= k < parts@.len() ==> #[trigger] parts@[k]@ == split_on(line@, ' ')[k],
            texts(args@) == split_on(line@, ' ').subrange(1, i as int),
        decreases parts@.len() - i,
    {
        let ghost prev = args@;
        args.push(parts[i].clone());
        assert(texts(args@) =~= texts(prev).push(parts@[i as int]@));
        assert(texts(args@) =~= split_on(line@, ' ').subrange(1, i + 1));
        i = i + 1;
    }
    assert(split_on(line@, ' ').subrange(1, parts@.len() as int) =~= split_on(line@, ' ').skip(1));
    (cmd, args)
}

} // verus!
