//! A buffered, line-oriented text accumulator carried inside a resolution
//! outcome, with an error flag and an optional terminal-colour rendering.

use std::io::Write;
use vstd::prelude::*;
use vstd::string::StringExecFns;

verus! {

/// The raw buffer wrapped in the ANSI escape codes that render it red:
/// the colour prefix, the text, then the reset suffix.
pub open spec fn red_wrapped(s: Seq<char>) -> Seq<char> {
    "\u{1b}[31m"@ + s + "\u{1b}[0m"@
}

/// Relies on `ansi_term::Colour::Red.paint` and the `Display` of the
/// `ANSIString` it returns: the rendering is the input surrounded by the
/// red colour code `ESC[31m` and the reset code `ESC[0m`.
#[verifier::external_body]
fn paint_red(s: &str) -> (r: String)
    ensures
        r@ == red_wrapped(s@),
{
    ansi_term::Colour::Red.paint(s).to_string()
}

/// Relies on `std::io::Stdout`: writes the text and a newline to standard
/// output, ignoring write errors as terminal output conventionally does.
#[verifier::external_body]
pub(crate) fn write_stdout_line(s: &str) {
    let mut out = std::io::stdout();
    let _ = writeln!(out, "{}", s);
}

/// A message to be shown to the user: an append-only text buffer, a flag
/// marking it as an error, and a flag saying whether the platform renders
/// colour. Rendering never changes the buffer itself.
pub struct Message {
    text: String,
    is_error: bool,
    formated: bool,
}

impl Message {
    /// The accumulated buffer, as the contracts see it.
    pub closed spec fn spec_text(&self) -> Seq<char> {
        self.text@
    }

    /// The error flag, as the contracts see it.
    pub closed spec fn spec_is_error(&self) -> bool {
        self.is_error
    }

    /// The colour-capability flag, as the contracts see it.
    pub closed spec fn spec_is_formated(&self) -> bool {
        self.formated
    }

    /// The rendered form: coloured red exactly when the message is an
    /// error and the platform renders colour; the raw buffer otherwise.
    pub open spec fn spec_rendered(&self) -> Seq<char> {
        if self.spec_is_error() && self.spec_is_formated() {
            red_wrapped(self.spec_text())
        } else {
            self.spec_text()
        }
    }

    /// Return a new empty message: not an error, and with colour rendering
    /// off until a platform capability is injected with `set_formated`.
    pub fn new() -> (r: Message)
        ensures
            r.spec_text() == Seq::<char>::empty(),
            !r.spec_is_error(),
            !r.spec_is_formated(),
    {
        Message { text: String::new(), is_error: false, formated: false }
    }

    /// Return a copy of the internal string.
    pub fn get(&self) -> (r: String)
        ensures
            r@ == self.spec_text(),
    {
        self.text.clone()
    }

    /// Return a formated (colorized) copy of the internal string. The raw
    /// buffer is left untouched: only the returned copy carries colour.
    pub fn getf(&self) -> (r: String)
        ensures
            r@ == self.spec_rendered(),
    {
        if self.is_error && self.formated {
            paint_red(self.text.as_str())
        } else {
            self.get()
        }
    }

    /// Print the formated string on stdout.
    pub fn print(&self) {
        let rendered = self.getf();
        write_stdout_line(rendered.as_str());
    }

    /// Add a string to the internal buffer.
    pub fn add(&mut self, txt: &str)
        ensures
            final(self).spec_text() == old(self).spec_text() + txt@,
            final(self).spec_is_error() == old(self).spec_is_error(),
            final(self).spec_is_formated() == old(self).spec_is_formated(),
    {
        self.text.append(txt);
    }

    /// Add a string to the internal buffer and a `\n` character, so the
    /// buffer grows by the fragment plus exactly one trailing newline,
    /// whatever the fragment itself holds.
    pub fn add_line(&mut self, line: &str)
        ensures
            final(self).spec_text() == old(self).spec_text() + line@ + "\n"@,
            final(self).spec_is_error() == old(self).spec_is_error(),
            final(self).spec_is_formated() == old(self).spec_is_formated(),
    {
        self.add(line);
        self.add("\n");
    }

    /// Return true if formated (colour) output is enabled.
    pub fn is_formated(&self) -> (r: bool)
        ensures
            r == self.spec_is_formated(),
    {
        self.formated
    }

    /// Return true if this is an error message.
    pub fn is_error(&self) -> (r: bool)
        ensures
            r == self.spec_is_error(),
    {
        self.is_error
    }

    /// Set or unset the error flag.
    pub fn set_error(&mut self, state: bool)
        ensures
            final(self).spec_text() == old(self).spec_text(),
            final(self).spec_is_error() == state,
            final(self).spec_is_formated() == old(self).spec_is_formated(),
    {
        self.is_error = state;
    }

    /// Inject the platform colour capability. Whether the platform renders
    /// colour is a process-wide environment fact, so it is handed in by the
    /// embedding program rather than read here.
    pub fn set_formated(&mut self, state: bool)
        ensures
            final(self).spec_text() == old(self).spec_text(),
            final(self).spec_is_error() == old(self).spec_is_error(),
            final(self).spec_is_formated() == state,
    {
        self.formated = state;
    }
}

/// One recorded buffer-growing call: the raw fragment handed to `add`, or
/// the line handed to `add_line`.
pub enum MsgOp {
    /// A fragment appended verbatim by `add`.
    Add(Seq<char>),
    /// A line appended by `add_line`, which also appends one newline.
    AddLine(Seq<char>),
}

/// What one call appends to the buffer, as its contract states.
pub open spec fn op_text(op: MsgOp) -> Seq<char> {
    match op {
        MsgOp::Add(s) => s,
        MsgOp::AddLine(s) => s + "\n"@,
    }
}

/// The concatenation of the appended fragments, in call order.
pub open spec fn ops_text(ops: Seq<MsgOp>) -> Seq<char>
    decreases ops.len(),
{
    if ops.len() == 0 {
        Seq::empty()
    } else {
        op_text(ops[0]) + ops_text(ops.drop_first())
    }
}

/// The buffer after a sequence of `add`/`add_line` calls, each call folded
/// in exactly as the contracts of `add` and `add_line` state it.
pub open spec fn text_after(start: Seq<char>, ops: Seq<MsgOp>) -> Seq<char>
    decreases ops.len(),
{
    if ops.len() == 0 {
        start
    } else {
        text_after(start + op_text(ops[0]), ops.drop_first())
    }
}

/// Round-trip law: after any sequence of `add`/`add_line` calls, the buffer
/// equals what it started as followed by the concatenation of the raw
/// appended fragments in call order. `get` returns that buffer verbatim and
/// `getf` only copies it, so no rendering ever rewrites what was appended.
pub proof fn lemma_message_round_trip(start: Seq<char>, ops: Seq<MsgOp>)
    ensures
        text_after(start, ops) == start + ops_text(ops),
    decreases ops.len(),
{
    if ops.len() == 0 {
        assert(text_after(start, ops) =~= start + ops_text(ops));
    } else {
        lemma_message_round_trip(start + op_text(ops[0]), ops.drop_first());
        assert(text_after(start, ops) =~= start + ops_text(ops));
    }
}

} // verus!
