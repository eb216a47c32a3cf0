//! Parsing the resolved editor command line.
//!
//! A raw command string is tokenized with POSIX-shell-like quoting rules, so
//! quoted substrings with embedded spaces remain single tokens. An input
//! that cannot be tokenized, or that yields no tokens, is an invalid editor
//! command.

use vstd::prelude::*;
use crate::errors::HotEditError;

verus! {

/// What shell-style tokenization makes of a command string: `None` where
/// the string cannot be tokenized, otherwise the sequence of tokens. The
/// result is a function of the string alone.
pub uninterp spec fn shell_split(s: Seq<char>) -> Option<Seq<Seq<char>>>;

/// Relies on shlex::split: tokenizes a string by POSIX-shell quoting rules,
/// and returns None for erroneous input (an unbalanced quote, or a trailing
/// unescaped backslash). The result depends on the input string alone.
#[verifier::external_body]
fn split_command_line(raw: &str) -> (r: Option<Vec<String>>)
    ensures
        r is Some <==> shell_split(raw@) is Some,
        r matches Some(v) ==> v.deep_view() == shell_split(raw@)->0,
{
    shlex::split(raw)
}

/// A tokenized editor command: the program name followed by its arguments.
///
/// A value of this type is never empty; its first token is the executable.
#[derive(Debug)]
pub struct EditorCommand {
    tokens: Vec<String>,
}

impl View for EditorCommand {
    type V = Seq<Seq<char>>;

    closed spec fn view(&self) -> Seq<Seq<char>> {
        self.tokens.deep_view()
    }
}

impl EditorCommand {
    /// A command always holds at least the program token.
    pub open spec fn wf(&self) -> bool {
        self@.len() > 0
    }

    /// The executable: the first token of the command.
    pub fn program(&self) -> (r: &String)
        requires
            self.wf(),
        ensures
            r.deep_view() == self@[0],
    {
        &self.tokens[0]
    }

    /// The arguments that follow the program, with `extra` appended as the
    /// final one.
    pub fn arguments_with(self, extra: String) -> (r: Vec<String>)
        requires
            self.wf(),
        ensures
            r.deep_view() == self@.skip(1).push(extra@),
    {
        let mut tokens = self.tokens;
        let ghost whole = tokens.deep_view();
        tokens.remove(0);
        assert(tokens.deep_view() =~= whole.skip(1));
        tokens.push(extra);
        assert(tokens.deep_view() =~= whole.skip(1).push(extra@));
        tokens
    }

    /// All tokens of the command, in order.
    pub fn tokens(&self) -> (r: &Vec<String>)
        ensures
            r.deep_view() == self@,
    {
        &self.tokens
    }
}

/// Tokenize a raw editor command string.
///
/// Succeeds exactly where shell tokenization succeeds and yields at least
/// one token; a string that cannot be tokenized, or that holds no tokens,
/// gives `InvalidEditorCommand`.
pub fn parse_command(raw: &str) -> (r: Result<EditorCommand, HotEditError>)
    ensures
        r is Ok <==> (shell_split(raw@) matches Some(t) && t.len() > 0),
        r matches Ok(cmd) ==> cmd@ == shell_split(raw@)->0 && cmd.wf(),
        shell_split(raw@) is None ==> (r matches Err(e)
            && e matches HotEditError::InvalidEditorCommand(m)
            && m@ == "couldn't split editor args"@),
        (shell_split(raw@) matches Some(t) && t.len() == 0) ==> (r matches Err(e)
            && e matches HotEditError::InvalidEditorCommand(m)
            && m@ == "empty command string"@),
{
    match split_command_line(raw) {
        None => Err(HotEditError::InvalidEditorCommand("couldn't split editor args".to_owned())),
        Some(tokens) => {
            if tokens.len() == 0 {
                Err(HotEditError::InvalidEditorCommand("empty command string".to_owned()))
            } else {
                Ok(EditorCommand { tokens })
            }
        },
    }
}

} // verus!
