//! Shell input: words, quotes and escapes, and `|` between the stages of a pipeline.
use vstd::prelude::*;

use crate::error::{ConfluenceCliError, Result};
use crate::text::{chars_of, copy_str, is_ws, spec_is_ws, string_of, strings_view};

verus! {

/// A lexical unit of shell input.
#[derive(Debug, Clone, PartialEq, Eq)]
pub enum Token {
    Word(String),
    Pipe,
}

pub enum TokenView {
    Word(Seq<char>),
    Pipe,
}

impl View for Token {
    type V = TokenView;

    open spec fn view(&self) -> TokenView {
        match self {
            Token::Word(w) => TokenView::Word(w@),
            Token::Pipe => TokenView::Pipe,
        }
    }
}

/// The tokens with the word read so far appended, if it is not empty.
pub open spec fn spec_flush(tokens: Seq<TokenView>, current: Seq<char>) -> Seq<TokenView> {
    if current.len() > 0 {
        tokens.push(TokenView::Word(current))
    } else {
        tokens
    }
}

/// Lexing `s` from position `i` on, with `tokens` read, the word `current` under way and
/// the quote `quote` open: `None` when a quote is left open at the end.
///
/// Inside double quotes a backslash takes the next character as it is; inside single
/// quotes it is an ordinary character. Outside quotes a backslash escapes the next
/// character, whitespace ends a word, and `|` ends a word and stands as a token itself.
pub open spec fn spec_lex_from(
    s: Seq<char>,
    i: int,
    tokens: Seq<TokenView>,
    current: Seq<char>,
    quote: Option<char>,
) -> Option<Seq<TokenView>>
    decreases s.len() - i,
{
    if i < 0 || i >= s.len() {
        if quote is Some {
            None
        } else {
            Some(spec_flush(tokens, current))
        }
    } else {
        let ch = s[i];
        match quote {
            Some(q) => {
                if ch == '\\' && q == '"' {
                    if i + 1 < s.len() {
                        spec_lex_from(s, i + 2, tokens, current.push(s[i + 1]), quote)
                    } else {
                        spec_lex_from(s, i + 1, tokens, current, quote)
                    }
                } else if ch == q {
                    spec_lex_from(s, i + 1, tokens, current, None)
                } else {
                    spec_lex_from(s, i + 1, tokens, current.push(ch), quote)
                }
            },
            None => {
                if ch == '"' || ch == '\'' {
                    spec_lex_from(s, i + 1, tokens, current, Some(ch))
                } else if ch == '|' {
                    spec_lex_from(s, i + 1, spec_flush(tokens, current).push(TokenView::Pipe), Seq::empty(), None)
                } else if ch == '\\' {
                    if i + 1 < s.len() {
                        spec_lex_from(s, i + 2, tokens, current.push(s[i + 1]), None)
                    } else {
                        spec_lex_from(s, i + 1, tokens, current, None)
                    }
                } else if spec_is_ws(ch) {
                    spec_lex_from(s, i + 1, spec_flush(tokens, current), Seq::empty(), None)
                } else {
                    spec_lex_from(s, i + 1, tokens, current.push(ch), None)
                }
            },
        }
    }
}

/// The tokens of a shell line, or `None` when a quote is left open.
pub open spec fn spec_lex(s: Seq<char>) -> Option<Seq<TokenView>> {
    spec_lex_from(s, 0, Seq::empty(), Seq::empty(), None)
}

/// A character that lexes as itself outside quotes: no quote, pipe, backslash or
/// whitespace.
pub open spec fn spec_plain_char(c: char) -> bool {
    c != '"' && c != '\'' && c != '|' && c != '\\' && !spec_is_ws(c)
}

/// Outside quotes, a run of plain characters is added to the word under way.
pub proof fn lemma_plain_run(s: Seq<char>, i: int, tokens: Seq<TokenView>, current: Seq<char>, w: Seq<char>)
    requires
        0 <= i,
        i + w.len() <= s.len(),
        s.subrange(i, i + w.len()) == w,
        forall|k: int| 0 <= k < w.len() ==> spec_plain_char(#[trigger] w[k]),
    ensures
        spec_lex_from(s, i, tokens, current, None) == spec_lex_from(s, i + w.len(), tokens, current + w, None),
    decreases w.len(),
{
    if w.len() == 0 {
        assert(current + w =~= current);
    } else {
        assert(s[i] == w[0]);
        assert(spec_plain_char(w[0]));
        let rest = w.drop_first();
        assert(s.subrange(i + 1, i + 1 + rest.len()) =~= rest);
        assert forall|k: int| 0 <= k < rest.len() implies spec_plain_char(#[trigger] rest[k]) by {
            assert(rest[k] == w[k + 1]);
        }
        lemma_plain_run(s, i + 1, tokens, current.push(w[0]), rest);
        assert(current.push(w[0]) + rest =~= current + w);
    }
}

/// Inside single quotes every character up to the closing quote belongs to the word,
/// whitespace, pipes and backslashes included; the closing quote ends the quote, not
/// the word.
pub proof fn lemma_single_quoted_run(s: Seq<char>, i: int, tokens: Seq<TokenView>, current: Seq<char>, w: Seq<char>)
    requires
        0 <= i,
        i + w.len() < s.len(),
        s.subrange(i, i + w.len()) == w,
        s[i + w.len()] == '\'',
        !w.contains('\''),
    ensures
        spec_lex_from(s, i, tokens, current, Some('\'')) == spec_lex_from(
            s,
            i + w.len() + 1,
            tokens,
            current + w,
            None,
        ),
    decreases w.len(),
{
    if w.len() == 0 {
        assert(current + w =~= current);
    } else {
        assert(s[i] == w[0]);
        assert(w[0] != '\'');
        let rest = w.drop_first();
        assert(s.subrange(i + 1, i + 1 + rest.len()) =~= rest);
        assert(!rest.contains('\'')) by {
            if rest.contains('\'') {
                let k = choose|k: int| 0 <= k < rest.len() && rest[k] == '\'';
                assert(w[k + 1] == '\'');
            }
        }
        lemma_single_quoted_run(s, i + 1, tokens, current.push(w[0]), rest);
        assert(current.push(w[0]) + rest =~= current + w);
    }
}

/// Inside double quotes every character up to the closing quote belongs to the word,
/// whitespace and pipes included, when no backslash escapes one.
pub proof fn lemma_double_quoted_run(s: Seq<char>, i: int, tokens: Seq<TokenView>, current: Seq<char>, w: Seq<char>)
    requires
        0 <= i,
        i + w.len() < s.len(),
        s.subrange(i, i + w.len()) == w,
        s[i + w.len()] == '"',
        !w.contains('"'),
        !w.contains('\\'),
    ensures
        spec_lex_from(s, i, tokens, current, Some('"')) == spec_lex_from(
            s,
            i + w.len() + 1,
            tokens,
            current + w,
            None,
        ),
    decreases w.len(),
{
    if w.len() == 0 {
        assert(current + w =~= current);
    } else {
        assert(s[i] == w[0]);
        assert(w[0] != '"' && w[0] != '\\');
        let rest = w.drop_first();
        assert(s.subrange(i + 1, i + 1 + rest.len()) =~= rest);
        assert(!rest.contains('"') && !rest.contains('\\')) by {
            if rest.contains('"') {
                let k = choose|k: int| 0 <= k < rest.len() && rest[k] == '"';
                assert(w[k + 1] == '"');
            }
            if rest.contains('\\') {
                let k = choose|k: int| 0 <= k < rest.len() && rest[k] == '\\';
                assert(w[k + 1] == '\\');
            }
        }
        lemma_double_quoted_run(s, i + 1, tokens, current.push(w[0]), rest);
        assert(current.push(w[0]) + rest =~= current + w);
    }
}

/// A single-quoted text is one word, whatever whitespace it holds.
pub proof fn lemma_single_quoted_word(w: Seq<char>)
    requires
        w.len() > 0,
        !w.contains('\''),
    ensures
        spec_lex(seq!['\''] + w + seq!['\'']) == Some(seq![TokenView::Word(w)]),
{
    let s = seq!['\''] + w + seq!['\''];
    assert(s[0] == '\'');
    assert(s.subrange(1, 1 + w.len() as int) =~= w);
    assert(s[1 + w.len() as int] == '\'');
    lemma_single_quoted_run(s, 1, Seq::empty(), Seq::empty(), w);
    assert(Seq::<char>::empty() + w =~= w);
    assert(spec_flush(Seq::empty(), w) =~= seq![TokenView::Word(w)]);
}

/// A double-quoted text without backslashes is one word, whatever whitespace it holds.
pub proof fn lemma_double_quoted_word(w: Seq<char>)
    requires
        w.len() > 0,
        !w.contains('"'),
        !w.contains('\\'),
    ensures
        spec_lex(seq!['"'] + w + seq!['"']) == Some(seq![TokenView::Word(w)]),
{
    let s = seq!['"'] + w + seq!['"'];
    assert(s[0] == '"');
    assert(s.subrange(1, 1 + w.len() as int) =~= w);
    assert(s[1 + w.len() as int] == '"');
    lemma_double_quoted_run(s, 1, Seq::empty(), Seq::empty(), w);
    assert(Seq::<char>::empty() + w =~= w);
    assert(spec_flush(Seq::empty(), w) =~= seq![TokenView::Word(w)]);
}

/// A command followed by a single-quoted argument is one stage of two words: the
/// quoted text is one argument, whatever whitespace it holds.
pub proof fn lemma_command_with_quoted_argument(c: Seq<char>, w: Seq<char>)
    requires
        c.len() > 0,
        forall|k: int| 0 <= k < c.len() ==> spec_plain_char(#[trigger] c[k]),
        w.len() > 0,
        !w.contains('\''),
    ensures
        spec_parse_stages(c + seq![' ', '\''] + w + seq!['\'']) == Some(seq![seq![c, w]]),
{
    let s = c + seq![' ', '\''] + w + seq!['\''];
    let n = c.len() as int;
    assert(s.subrange(0, n) =~= c);
    lemma_plain_run(s, 0, Seq::empty(), Seq::empty(), c);
    assert(Seq::<char>::empty() + c =~= c);
    assert(s[n] == ' ');
    assert(spec_flush(Seq::empty(), c) =~= seq![TokenView::Word(c)]);
    assert(s[n + 1] == '\'');
    assert(s.subrange(n + 2, n + 2 + w.len()) =~= w);
    assert(s[n + 2 + w.len()] == '\'');
    lemma_single_quoted_run(s, n + 2, seq![TokenView::Word(c)], Seq::empty(), w);
    assert(Seq::<char>::empty() + w =~= w);
    let toks = seq![TokenView::Word(c), TokenView::Word(w)];
    assert(spec_flush(seq![TokenView::Word(c)], w) =~= toks);
    assert(s.len() == n + 3 + w.len());
    assert(spec_lex_from(s, n + 3 + w.len(), seq![TokenView::Word(c)], w, None) == Some(toks));
    assert(spec_lex_from(s, n + 1, seq![TokenView::Word(c)], Seq::empty(), None) == spec_lex_from(
        s,
        n + 2,
        seq![TokenView::Word(c)],
        Seq::empty(),
        Some('\''),
    ));
    assert(spec_lex_from(s, n, Seq::empty(), c, None) == spec_lex_from(
        s,
        n + 1,
        seq![TokenView::Word(c)],
        Seq::empty(),
        None,
    ));
    assert(spec_lex(s) == Some(toks));
    assert(seq![c].push(w) =~= seq![c, w]);
    assert(Seq::<Seq<char>>::empty().push(c) =~= seq![c]);
    assert(spec_stages_from(toks, 2, Seq::empty(), seq![c, w]) == Some(seq![seq![c, w]])) by {
        assert(Seq::<Seq<Seq<char>>>::empty().push(seq![c, w]) =~= seq![seq![c, w]]);
    }
    assert(spec_stages_from(toks, 1, Seq::empty(), seq![c]) == spec_stages_from(toks, 2, Seq::empty(), seq![c, w]));
    assert(spec_stages_from(toks, 0, Seq::empty(), Seq::empty()) == spec_stages_from(toks, 1, Seq::empty(), seq![c]));
}

/// Two plain words with whitespace between them are two words; with `|` between them,
/// two words around a pipe.
pub proof fn lemma_separated_words(c: Seq<char>, sep: char, d: Seq<char>)
    requires
        c.len() > 0,
        d.len() > 0,
        forall|k: int| 0 <= k < c.len() ==> spec_plain_char(#[trigger] c[k]),
        forall|k: int| 0 <= k < d.len() ==> spec_plain_char(#[trigger] d[k]),
        spec_is_ws(sep) || sep == '|',
    ensures
        spec_is_ws(sep) ==> spec_lex(c + seq![sep] + d) == Some(seq![TokenView::Word(c), TokenView::Word(d)]),
        sep == '|' ==> spec_lex(c + seq![sep] + d) == Some(
            seq![TokenView::Word(c), TokenView::Pipe, TokenView::Word(d)],
        ),
{
    let s = c + seq![sep] + d;
    let n = c.len() as int;
    assert(s.subrange(0, n) =~= c);
    lemma_plain_run(s, 0, Seq::empty(), Seq::empty(), c);
    assert(Seq::<char>::empty() + c =~= c);
    assert(s[n] == sep);
    assert(spec_flush(Seq::empty(), c) =~= seq![TokenView::Word(c)]);
    assert(s.subrange(n + 1, n + 1 + d.len()) =~= d);
    assert(s.len() == n + 1 + d.len());
    assert(Seq::<char>::empty() + d =~= d);
    if sep == '|' {
        let before = seq![TokenView::Word(c), TokenView::Pipe];
        assert(spec_flush(Seq::empty(), c).push(TokenView::Pipe) =~= before);
        lemma_plain_run(s, n + 1, before, Seq::empty(), d);
        assert(spec_flush(before, d) =~= seq![TokenView::Word(c), TokenView::Pipe, TokenView::Word(d)]);
        assert(spec_lex_from(s, n, Seq::empty(), c, None) == spec_lex_from(s, n + 1, before, Seq::empty(), None));
    } else {
        let before = seq![TokenView::Word(c)];
        lemma_plain_run(s, n + 1, before, Seq::empty(), d);
        assert(spec_flush(before, d) =~= seq![TokenView::Word(c), TokenView::Word(d)]);
        assert(spec_lex_from(s, n, Seq::empty(), c, None) == spec_lex_from(s, n + 1, before, Seq::empty(), None));
    }
}

/// Outside quotes a backslash makes the character after it part of the word, whatever
/// it is: a space, a quote or a pipe included.
pub proof fn lemma_escaped_char_joins_word(c: Seq<char>, ch: char)
    requires
        forall|k: int| 0 <= k < c.len() ==> spec_plain_char(#[trigger] c[k]),
    ensures
        spec_lex(c + seq!['\\', ch]) == Some(seq![TokenView::Word(c.push(ch))]),
{
    let s = c + seq!['\\', ch];
    let n = c.len() as int;
    assert(s.subrange(0, n) =~= c);
    lemma_plain_run(s, 0, Seq::empty(), Seq::empty(), c);
    assert(Seq::<char>::empty() + c =~= c);
    assert(s[n] == '\\' && s[n + 1] == ch && s.len() == n + 2);
    assert(spec_lex_from(s, n, Seq::empty(), c, None) == spec_lex_from(s, n + 2, Seq::empty(), c.push(ch), None));
    assert(spec_flush(Seq::empty(), c.push(ch)) =~= seq![TokenView::Word(c.push(ch))]);
}

/// The views of a sequence of tokens.
pub open spec fn tokens_view(v: Seq<Token>) -> Seq<TokenView> {
    v.map_values(|t: Token| t@)
}

/// Moves a non-empty word under way into the tokens.
fn flush_word(tokens: &mut Vec<Token>, current: &mut Vec<char>)
    ensures
        tokens_view(final(tokens)@) == spec_flush(tokens_view(old(tokens)@), old(current)@),
        final(current)@ == Seq::<char>::empty(),
{
    if current.len() > 0 {
        let word = string_of(current.as_slice());
        let ghost before = tokens_view(tokens@);
        tokens.push(Token::Word(word));
        assert(tokens_view(tokens@) == before.push(TokenView::Word(old(current)@)));
        *current = Vec::new();
    }
}

/// Splits a shell line into words and pipes.
pub fn lex(line: &str) -> (r: Result<Vec<Token>>)
    ensures
        match spec_lex(line@) {
            Some(t) => r matches Ok(v) && tokens_view(v@) == t,
            None => r matches Err(ConfluenceCliError::Config(m)) && m@
                == "shell input has unmatched quotes"@,
        },
{
    let s = chars_of(line);
    let mut tokens: Vec<Token> = Vec::new();
    let mut current: Vec<char> = Vec::new();
    let mut quote: Option<char> = None;
    let mut i: usize = 0;
    assert(tokens_view(tokens@) == Seq::<TokenView>::empty());
    while i < s.len()
        invariant
            i <= s.len(),
            s@ == line@,
            spec_lex(line@) == spec_lex_from(s@, i as int, tokens_view(tokens@), current@, quote),
        decreases s.len() - i,
    {
        let ch = s[i];
        let ghost tv = tokens_view(tokens@);
        match quote {
            Some(q) => {
                if ch == '\\' && q == '"' {
                    if i + 1 < s.len() {
                        current.push(s[i + 1]);
                        i = i + 2;
                    } else {
                        i = i + 1;
                    }
                } else if ch == q {
                    quote = None;
                    i = i + 1;
                } else {
                    current.push(ch);
                    i = i + 1;
                }
            },
            None => {
                if ch == '"' || ch == '\'' {
                    quote = Some(ch);
                    i = i + 1;
                } else if ch == '|' {
                    flush_word(&mut tokens, &mut current);
                    let ghost tf = tokens_view(tokens@);
                    tokens.push(Token::Pipe);
                    assert(tokens_view(tokens@) == tf.push(TokenView::Pipe));
                    i = i + 1;
                } else if ch == '\\' {
                    if i + 1 < s.len() {
                        current.push(s[i + 1]);
                        i = i + 2;
                    } else {
                        i = i + 1;
                    }
                } else if is_ws(ch) {
                    flush_word(&mut tokens, &mut current);
                    i = i + 1;
                } else {
                    current.push(ch);
                    i = i + 1;
                }
            },
        }
    }
    if quote.is_some() {
        return Err(ConfluenceCliError::Config(copy_str("shell input has unmatched quotes")));
    }
    flush_word(&mut tokens, &mut current);
    Ok(tokens)
}

/// A parsed shell line.
#[derive(Debug, Clone, PartialEq, Eq)]
pub struct ShellLine {
    pub pipeline: Pipeline,
}

/// Stages joined by `|`.
#[derive(Debug, Clone, PartialEq, Eq)]
pub struct Pipeline {
    pub commands: Vec<SimpleCommand>,
}

/// One stage: a command name and its arguments.
#[derive(Debug, Clone, PartialEq, Eq)]
pub struct SimpleCommand {
    pub argv: Vec<String>,
}

/// The stages of a token sequence, reading from position `i` with the stage `current`
/// under way: `None` when a stage would be empty.
pub open spec fn spec_stages_from(
    tokens: Seq<TokenView>,
    i: int,
    done: Seq<Seq<Seq<char>>>,
    current: Seq<Seq<char>>,
) -> Option<Seq<Seq<Seq<char>>>>
    decreases tokens.len() - i,
{
    if i < 0 || i >= tokens.len() {
        if current.len() == 0 {
            None
        } else {
            Some(done.push(current))
        }
    } else {
        match tokens[i] {
            TokenView::Word(w) => spec_stages_from(tokens, i + 1, done, current.push(w)),
            TokenView::Pipe => {
                if current.len() == 0 {
                    None
                } else {
                    spec_stages_from(tokens, i + 1, done.push(current), Seq::empty())
                }
            },
        }
    }
}

/// The stages of a shell line, each the words of one command: `None` when the line
/// does not lex or some stage would be empty.
pub open spec fn spec_parse_stages(s: Seq<char>) -> Option<Seq<Seq<Seq<char>>>> {
    match spec_lex(s) {
        Some(t) => spec_stages_from(t, 0, Seq::empty(), Seq::empty()),
        None => None,
    }
}

/// The argument words of each stage.
pub open spec fn stages_view(v: Seq<SimpleCommand>) -> Seq<Seq<Seq<char>>> {
    v.map_values(|c: SimpleCommand| strings_view(c.argv@))
}

/// The parser of shell lines.
pub struct ShellParser;

impl ShellParser {
    /// Parses a line into a pipeline of non-empty stages.
    pub fn parse(line: &str) -> (r: Result<ShellLine>)
        ensures
            spec_lex(line@) is None ==> (r matches Err(ConfluenceCliError::Config(m)) && m@
                == "shell input has unmatched quotes"@),
            spec_lex(line@) is Some ==> match spec_parse_stages(line@) {
                Some(stages) => r matches Ok(l) && stages_view(l.pipeline.commands@) == stages,
                None => r matches Err(ConfluenceCliError::Config(m)) && m@
                    == "pipeline contains an empty command"@,
            },
    {
        let tokens = lex(line)?;
        let ghost tv = tokens_view(tokens@);
        let mut commands: Vec<SimpleCommand> = Vec::new();
        let mut current: Vec<String> = Vec::new();
        let mut i: usize = 0;
        assert(stages_view(commands@) == Seq::<Seq<Seq<char>>>::empty());
        assert(strings_view(current@) == Seq::<Seq<char>>::empty());
        while i < tokens.len()
            invariant
                i <= tokens.len(),
                tv == tokens_view(tokens@),
                spec_lex(line@) == Some(tv),
                spec_stages_from(tv, 0, Seq::empty(), Seq::empty()) == spec_stages_from(
                    tv,
                    i as int,
                    stages_view(commands@),
                    strings_view(current@),
                ),
            decreases tokens.len() - i,
        {
            assert(tv[i as int] == tokens@[i as int]@);
            match &tokens[i] {
                Token::Word(word) => {
                    let ghost before = strings_view(current@);
                    current.push(word.clone());
                    assert(strings_view(current@) == before.push(word@));
                },
                Token::Pipe => {
                    if current.len() == 0 {
                        return Err(ConfluenceCliError::Config(copy_str("pipeline contains an empty command")));
                    }
                    let ghost before = stages_view(commands@);
                    let ghost cur = strings_view(current@);
                    let cmd = SimpleCommand { argv: current };
                    commands.push(cmd);
                    assert(stages_view(commands@) == before.push(cur));
                    current = Vec::new();
                    assert(strings_view(current@) == Seq::<Seq<char>>::empty());
                },
            }
            i = i + 1;
        }
        if current.len() == 0 {
            return Err(ConfluenceCliError::Config(copy_str("pipeline contains an empty command")));
        }
        let ghost before = stages_view(commands@);
        let ghost cur = strings_view(current@);
        commands.push(SimpleCommand { argv: current });
        assert(stages_view(commands@) == before.push(cur));
        Ok(ShellLine { pipeline: Pipeline { commands } })
    }
}

} // verus!
