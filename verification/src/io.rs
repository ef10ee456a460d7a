//! The evaluator's input source and output sink.
//!
//! Every chunk the evaluator writes is recorded as an [`OutEvent`]: one
//! event per `print` statement, carrying the printed value, and one per
//! `input(...)` prompt, carrying the prompt text. Input lines come either
//! from a script (a fixed list of lines, consumed front to back) or, in
//! console mode, from standard input; console mode also forwards each
//! output event to standard output as it is recorded. Nothing is promised
//! of a line read from the console: it depends on the process's input.

use std::io::Write;

use vstd::prelude::*;

verus! {

/// One chunk written to the output sink: a printed value (followed by a
/// newline when rendered) or an input prompt (rendered with no trailing
/// newline).
#[derive(PartialEq, Eq, Debug)]
pub enum OutEvent {
    Print(i32),
    Prompt(String),
}

/// The mathematical shape of an [`OutEvent`].
pub enum OutEventV {
    Print(i32),
    Prompt(Seq<char>),
}

impl View for OutEvent {
    type V = OutEventV;

    open spec fn view(&self) -> OutEventV {
        match self {
            OutEvent::Print(n) => OutEventV::Print(*n),
            OutEvent::Prompt(s) => OutEventV::Prompt(s@),
        }
    }
}

// Relies on std::io::Stdout::write_fmt, through `writeln!`: writes the
// value in decimal followed by a newline to standard output.
#[verifier::external_body]
fn console_print_value(n: i32) {
    let _ = writeln!(std::io::stdout(), "{}", n);
}

// Relies on std::io::Stdout::write_fmt, through `write!`: writes the text
// to standard output with no trailing newline.
#[verifier::external_body]
fn console_print_text(s: &str) {
    let _ = write!(std::io::stdout(), "{}", s);
}

// Relies on std::io::Stdout::flush: makes buffered output visible before
// the interpreter blocks for input.
#[verifier::external_body]
fn console_flush() {
    let _ = std::io::stdout().flush();
}

// Relies on std::io::Stdin::read_line: reads one line from standard input,
// newline included, into an empty buffer; `None` on a read error. Nothing
// is promised of the returned text: it depends on the process's input.
#[verifier::external_body]
fn console_read_line() -> (r: Option<String>) {
    let mut buffer = String::new();
    match std::io::stdin().read_line(&mut buffer) {
        Ok(_) => Some(buffer),
        Err(_) => None,
    }
}

/// The mathematical shape of an [`Io`]: whether it is in console mode, the
/// scripted input lines with the read cursor, and the recorded output.
pub struct IoV {
    pub console: bool,
    pub inputs: Seq<Seq<char>>,
    pub cursor: int,
    pub outputs: Seq<OutEventV>,
}

/// The evaluator's line-based input source and output sink.
pub struct Io {
    console: bool,
    inputs: Vec<String>,
    cursor: usize,
    outputs: Vec<OutEvent>,
}

impl View for Io {
    type V = IoV;

    closed spec fn view(&self) -> IoV {
        IoV {
            console: self.console,
            inputs: self.inputs@.map_values(|s: String| s@),
            cursor: self.cursor as int,
            outputs: self.outputs@.map_values(|e: OutEvent| e@),
        }
    }
}

impl Io {
    /// An input source reading from the given lines, and an output sink
    /// that only records.
    pub fn scripted(lines: Vec<String>) -> (r: Io)
        ensures
            r@.console == false,
            r@.inputs == lines@.map_values(|s: String| s@),
            r@.cursor == 0,
            r@.outputs == Seq::<OutEventV>::empty(),
    {
        let io = Io { console: false, inputs: lines, cursor: 0, outputs: Vec::new() };
        proof {
            assert(io@.outputs =~= Seq::<OutEventV>::empty());
        }
        io
    }

    /// Console mode: input lines come from standard input, and each output
    /// event is forwarded to standard output as it is recorded.
    pub fn console() -> (r: Io)
        ensures
            r@.console == true,
            r@.inputs == Seq::<Seq<char>>::empty(),
            r@.cursor == 0,
            r@.outputs == Seq::<OutEventV>::empty(),
    {
        let io = Io { console: true, inputs: Vec::new(), cursor: 0, outputs: Vec::new() };
        proof {
            assert(io@.outputs =~= Seq::<OutEventV>::empty());
            assert(io@.inputs =~= Seq::<Seq<char>>::empty());
        }
        io
    }

    /// Record one output event; in console mode, also render it to
    /// standard output (a printed value in decimal with a newline, a
    /// prompt verbatim without one).
    pub fn emit(&mut self, ev: OutEvent)
        ensures
            final(self)@.outputs == old(self)@.outputs.push(ev@),
            final(self)@.console == old(self)@.console,
            final(self)@.inputs == old(self)@.inputs,
            final(self)@.cursor == old(self)@.cursor,
    {
        if self.console {
            match &ev {
                OutEvent::Print(n) => console_print_value(*n),
                OutEvent::Prompt(s) => {
                    console_print_text(s.as_str());
                    console_flush();
                },
            }
        }
        let ghost before = self.outputs@;
        self.outputs.push(ev);
        proof {
            assert(self.outputs@.map_values(|e: OutEvent| e@) =~= before.map_values(
                |e: OutEvent| e@,
            ).push(ev@));
        }
    }

    /// Read one line: the next scripted line, or, in console mode, a line
    /// from standard input. `None` once the script is exhausted or the
    /// console read fails.
    pub fn read_line(&mut self) -> (r: Option<String>)
        ensures
            final(self)@.console == old(self)@.console,
            final(self)@.inputs == old(self)@.inputs,
            final(self)@.outputs == old(self)@.outputs,
            old(self)@.console ==> final(self)@.cursor == old(self)@.cursor,
            !old(self)@.console ==> if old(self)@.cursor < old(self)@.inputs.len() {
                &&& r matches Some(s) && s@ == old(self)@.inputs[old(self)@.cursor]
                &&& final(self)@.cursor == old(self)@.cursor + 1
            } else {
                &&& r is None
                &&& final(self)@.cursor == old(self)@.cursor
            },
    {
        if self.console {
            console_read_line()
        } else if self.cursor < self.inputs.len() {
            let line = self.inputs[self.cursor].clone();
            self.cursor = self.cursor + 1;
            Some(line)
        } else {
            None
        }
    }

    /// Everything written so far, in order.
    pub fn outputs(&self) -> (r: &Vec<OutEvent>)
        ensures
            r@.map_values(|e: OutEvent| e@) == self@.outputs,
    {
        &self.outputs
    }
}

} // verus!
