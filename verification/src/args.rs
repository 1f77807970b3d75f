//! The options of one run, and what they decide about the temporary file's
//! name, the editor to start and the text to hand on.

use crate::text::{trim, trimmed};
use vstd::prelude::*;

verus! {

/// Suffix of the temporary file where none is given.
pub const DEFAULT_SUFFIX: &'static str = "txt";

/// Editor to start where the environment names none.
pub const DEFAULT_EDITOR: &'static str = "vi";

/// The characters of [`DEFAULT_SUFFIX`].
pub open spec fn default_suffix() -> Seq<char> {
    seq!['t', 'x', 't']
}

/// The characters of [`DEFAULT_EDITOR`].
pub open spec fn default_editor() -> Seq<char> {
    seq!['v', 'i']
}

/// The suffix in force for an optional choice of one.
pub open spec fn suffix_spec(suffix: Option<Seq<char>>) -> Seq<char> {
    match suffix {
        Some(s) => s,
        None => default_suffix(),
    }
}

/// The end of the temporary file's name: a dot, then the suffix in force.
pub open spec fn file_suffix_spec(suffix: Option<Seq<char>>) -> Seq<char> {
    seq!['.'] + suffix_spec(suffix)
}

/// The editor command for an optional value of the `EDITOR` variable.
pub open spec fn editor_spec(var: Option<Seq<char>>) -> Seq<char> {
    match var {
        Some(e) => e,
        None => default_editor(),
    }
}

/// The text to hand on for what the file holds after the editor has gone.
pub open spec fn output_spec(trim: bool, text: Seq<char>) -> Seq<char> {
    if trim {
        trimmed(text)
    } else {
        text
    }
}

/// Whether `name` ends with `tail`.
pub open spec fn ends_with(name: Seq<char>, tail: Seq<char>) -> bool {
    tail.len() <= name.len() && name.subrange(name.len() - tail.len(), name.len() as int) == tail
}

/// The options of one run.
#[derive(Debug, PartialEq, Eq)]
pub struct Args {
    /// Suffix to use for the temporary file. An editor may choose its
    /// syntax highlighting by it.
    pub suffix: Option<String>,
    /// Use the system's clipboard in place of standard input and output.
    pub clipboard_editor: bool,
    /// Remove the whitespace, blank lines included, around the text.
    pub trim: bool,
}

/// The options as plain values.
pub struct ArgsView {
    pub suffix: Option<Seq<char>>,
    pub clipboard_editor: bool,
    pub trim: bool,
}

impl View for Args {
    type V = ArgsView;

    open spec fn view(&self) -> ArgsView {
        ArgsView {
            suffix: match self.suffix {
                Some(s) => Some(s@),
                None => None,
            },
            clipboard_editor: self.clipboard_editor,
            trim: self.trim,
        }
    }
}

impl Args {
    /// The suffix in force: the one given, else [`DEFAULT_SUFFIX`].
    pub fn get_suffix(&self) -> (r: &str)
        ensures
            r@ == suffix_spec(self@.suffix),
    {
        proof {
            reveal_strlit("txt");
        }
        match &self.suffix {
            Some(s) => s.as_str(),
            None => {
                assert(DEFAULT_SUFFIX@ == default_suffix());
                DEFAULT_SUFFIX
            },
        }
    }

    /// The text to hand on: `output` as it is, or trimmed where trimming is
    /// asked for.
    pub fn get_output(&self, output: String) -> (r: String)
        ensures
            r@ == output_spec(self@.trim, output@),
    {
        if self.trim {
            trim(output.as_str()).to_owned()
        } else {
            output
        }
    }

    /// The suffix to create the temporary file with.
    pub fn file_suffix(&self) -> (r: String)
        ensures
            r@ == file_suffix_spec(self@.suffix),
    {
        proof {
            reveal_strlit(".");
        }
        let dot = ".";
        assert(dot@ == seq!['.']);
        dot.to_owned().concat(self.get_suffix())
    }
}

/// The editor command: the value of the `EDITOR` variable where it is set,
/// else [`DEFAULT_EDITOR`].
pub fn resolve_editor(var: Option<String>) -> (r: String)
    ensures
        r@ == editor_spec(
            match var {
                Some(e) => Some(e@),
                None => None,
            },
        ),
{
    proof {
        reveal_strlit("vi");
    }
    match var {
        Some(e) => e,
        None => {
            assert(DEFAULT_EDITOR@ == default_editor());
            DEFAULT_EDITOR.to_owned()
        },
    }
}

/// A name made of anything followed by the file suffix ends with a dot and
/// the suffix in force.
pub proof fn lemma_suffix_propagation(stem: Seq<char>, suffix: Option<Seq<char>>)
    ensures
        ends_with(stem + file_suffix_spec(suffix), seq!['.'] + suffix_spec(suffix)),
        suffix is None ==> ends_with(stem + file_suffix_spec(suffix), seq!['.', 't', 'x', 't']),
{
    let tail = file_suffix_spec(suffix);
    let name = stem + tail;
    assert(name.subrange(name.len() - tail.len(), name.len() as int) == tail);
    if suffix is None {
        assert(tail == seq!['.', 't', 'x', 't']);
    }
}

} // verus!
