use vstd::prelude::*;

use crate::result::{error_text, Color, ConsoleError, ConsoleResult, TextSpan};
use crate::text::{is_space_char, trim_end, trimmed_end};

verus! {

/// What `writeln` adds for a span: the text without trailing whitespace and
/// with one newline, or nothing when no text is left.
pub open spec fn line_of(span: (Color, Seq<char>)) -> Seq<(Color, Seq<char>)> {
    let t = trimmed_end(span.1);
    if t.len() > 0 {
        seq![(span.0, t + "\n"@)]
    } else {
        seq![]
    }
}

/// Text that ends in a character other than whitespace is written as it is,
/// with one newline.
pub proof fn lemma_line_of_plain(c: Color, t: Seq<char>)
    requires
        t.len() > 0,
        !is_space_char(t.last()),
    ensures
        line_of((c, t)) == seq![(c, t + "\n"@)],
{
}

/// What `write_result` adds for a result: success text in white, an error's
/// message in red, each as by `writeln`.
pub open spec fn result_lines(r: ConsoleResult) -> Seq<(Color, Seq<char>)> {
    match r.0 {
        Ok(t) => line_of((Color::spec_white(), t@)),
        Err(e) => line_of((Color::spec_red(), error_text(e))),
    }
}

/// An output sink that keeps colored text spans, in the order written.
#[derive(Debug)]
pub struct ColoredConsole {
    buf: Vec<TextSpan>,
}

impl View for ColoredConsole {
    type V = Seq<(Color, Seq<char>)>;

    closed spec fn view(&self) -> Seq<(Color, Seq<char>)> {
        self.buf@.map_values(|s: TextSpan| s@)
    }
}

impl ColoredConsole {
    /// An empty buffer.
    pub fn new() -> (r: ColoredConsole)
        ensures
            r@ == Seq::<(Color, Seq<char>)>::empty(),
    {
        let r = ColoredConsole { buf: Vec::new() };
        assert(r@ =~= Seq::<(Color, Seq<char>)>::empty());
        r
    }

    /// The spans written so far.
    pub fn spans(&self) -> (r: &Vec<TextSpan>)
        ensures
            r@.map_values(|s: TextSpan| s@) == self@,
    {
        &self.buf
    }

    /// Appends a span as it is.
    pub fn write(&mut self, span: TextSpan)
        ensures
            final(self)@ == old(self)@.push(span@),
    {
        self.buf.push(span);
        assert(self@ =~= old(self)@.push(span@));
    }

    /// Appends a span as a line: trailing whitespace is removed and a newline
    /// added; a span with no text left adds nothing.
    pub fn writeln(&mut self, span: TextSpan)
        ensures
            final(self)@ == old(self)@ + line_of(span@),
    {
        let mut text = trim_end(span.text.as_str());
        if text.unicode_len() > 0 {
            text.append("\n");
            self.write(TextSpan { color: span.color, text });
            assert(final(self)@ =~= old(self)@ + line_of(span@));
        } else {
            assert(old(self)@ + line_of(span@) =~= old(self)@);
        }
    }

    /// Appends text in the default color.
    pub fn write_str(&mut self, text: &str)
        ensures
            final(self)@ == old(self)@.push((Color::spec_white(), text@)),
    {
        self.write(TextSpan::from_text(text.to_string()));
    }

    /// Appends text in the given color.
    pub fn write_colored(&mut self, c: Color, text: &str)
        ensures
            final(self)@ == old(self)@.push((c, text@)),
    {
        self.write(TextSpan { color: c, text: text.to_string() });
    }

    /// Appends a result as a line: success text in white, an error in red.
    pub fn write_result(&mut self, result: ConsoleResult)
        ensures
            final(self)@ == old(self)@ + result_lines(result),
    {
        match result.0 {
            Ok(output) => self.writeln(TextSpan::from_text(output)),
            Err(e) => self.writeln(TextSpan::from_error(&e)),
        }
    }

    /// Appends the text of an error raised elsewhere as a red line.
    pub fn write_error(&mut self, text: &str)
        ensures
            final(self)@ == old(self)@ + line_of((Color::spec_red(), text@)),
    {
        self.writeln(TextSpan { color: Color::red(), text: text.to_string() });
    }

    /// Removes every span.
    pub fn clear(&mut self)
        ensures
            final(self)@ == Seq::<(Color, Seq<char>)>::empty(),
    {
        self.buf.clear();
        assert(self@ =~= Seq::<(Color, Seq<char>)>::empty());
    }

    /// Moves every span of `other` to the end of this buffer.
    pub fn append(&mut self, other: &mut ColoredConsole)
        ensures
            final(self)@ == old(self)@ + old(other)@,
            final(other)@ == Seq::<(Color, Seq<char>)>::empty(),
    {
        self.buf.append(&mut other.buf);
        assert(self@ =~= old(self)@ + old(other)@);
        assert(other@ =~= Seq::<(Color, Seq<char>)>::empty());
    }
}

} // verus!
