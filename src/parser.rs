use vstd::prelude::*;

use std::collections::BTreeMap;

use crate::ast::{duplicate_body, stmts_model, KindModel, ParameterKind, Statement, StatementKind, StmtModel};
use vstd::string::StringExecFns;

use crate::lexer::{display_spec, lex_spec, tokens_model, Token, TokenKind, TokenModel, TokenStream};
use crate::text::{append_chars, append_decimal, decimal};
use crate::program::{functions_model, functions_of, Program, Table, DEFAULT_TABLE_SIZE};

verus! {

/// An error found while parsing.
#[derive(Debug)]
pub enum ParseError {
    ExpectedToken(TokenKind, Token),
    ExpectedNumber(Token),
    ExpectedParameter(Token),
    UnexpectedTableToken(Token),
    UnexpectedToken(Token),
    UnexpectedEof(usize, usize),
    ExpectedStatement(usize, usize),
}

pub enum ParseErrorModel {
    ExpectedToken(TokenKind, TokenModel),
    ExpectedNumber(TokenModel),
    ExpectedParameter(TokenModel),
    UnexpectedTableToken(TokenModel),
    UnexpectedToken(TokenModel),
    UnexpectedEof(nat, nat),
    ExpectedStatement(nat, nat),
}

impl View for ParseError {
    type V = ParseErrorModel;

    open spec fn view(&self) -> ParseErrorModel {
        match self {
            ParseError::ExpectedToken(k, t) => ParseErrorModel::ExpectedToken(*k, t@),
            ParseError::ExpectedNumber(t) => ParseErrorModel::ExpectedNumber(t@),
            ParseError::ExpectedParameter(t) => ParseErrorModel::ExpectedParameter(t@),
            ParseError::UnexpectedTableToken(t) => ParseErrorModel::UnexpectedTableToken(t@),
            ParseError::UnexpectedToken(t) => ParseErrorModel::UnexpectedToken(t@),
            ParseError::UnexpectedEof(l, c) => ParseErrorModel::UnexpectedEof(*l as nat, *c as nat),
            ParseError::ExpectedStatement(l, c) => ParseErrorModel::ExpectedStatement(*l as nat, *c as nat),
        }
    }
}

/// " at line L col C".
pub open spec fn at_text(line: nat, col: nat) -> Seq<char> {
    " at line "@ + decimal(line) + " col "@ + decimal(col)
}

/// The message for a parse error: where it happened, and what was expected and found.
pub open spec fn parse_error_text(e: ParseErrorModel) -> Seq<char> {
    match e {
        ParseErrorModel::ExpectedToken(kind, t) => "Expected token of type '"@ + display_spec(kind) + "'"@ + at_text(
            t.loc.line,
            t.loc.col,
        ) + ", got '"@ + t.loc.span + "'."@,
        ParseErrorModel::ExpectedNumber(t) => "Expected a number"@ + at_text(t.loc.line, t.loc.col) + ", got '"@
            + t.loc.span + "'."@,
        ParseErrorModel::ExpectedParameter(t) => "Expected a number or '$'"@ + at_text(t.loc.line, t.loc.col)
            + ", got '"@ + t.loc.span + "'."@,
        ParseErrorModel::UnexpectedTableToken(t) => "Unexpected table token '"@ + t.loc.span + "'"@ + at_text(
            t.loc.line,
            t.loc.col,
        ) + "."@,
        ParseErrorModel::UnexpectedToken(t) => "Unexpected token '"@ + t.loc.span + "'"@ + at_text(
            t.loc.line,
            t.loc.col,
        ) + "."@,
        ParseErrorModel::UnexpectedEof(line, col) => "Unexpected EOF"@ + at_text(line, col) + "."@,
        ParseErrorModel::ExpectedStatement(line, col) => "Expected a statement"@ + at_text(line, col) + "."@,
    }
}

fn append_at(s: &mut String, line: usize, col: usize)
    ensures
        final(s)@ == old(s)@ + at_text(line as nat, col as nat),
{
    s.append(" at line ");
    append_decimal(s, line);
    s.append(" col ");
    append_decimal(s, col);
    assert(s@ =~= old(s)@ + at_text(line as nat, col as nat));
}

impl ParseError {
    /// The message for this error.
    pub fn describe(&self) -> (r: String)
        ensures
            r@ == parse_error_text(self@),
    {
        let mut s = String::new();
        match self {
            ParseError::ExpectedToken(kind, t) => {
                s.append("Expected token of type '");
                let shown = kind.display();
                s.append(shown.as_str());
                s.append("'");
                append_at(&mut s, t.loc.line, t.loc.col);
                s.append(", got '");
                append_chars(&mut s, &t.loc.span);
                s.append("'.");
            },
            ParseError::ExpectedNumber(t) => {
                s.append("Expected a number");
                append_at(&mut s, t.loc.line, t.loc.col);
                s.append(", got '");
                append_chars(&mut s, &t.loc.span);
                s.append("'.");
            },
            ParseError::ExpectedParameter(t) => {
                s.append("Expected a number or '$'");
                append_at(&mut s, t.loc.line, t.loc.col);
                s.append(", got '");
                append_chars(&mut s, &t.loc.span);
                s.append("'.");
            },
            ParseError::UnexpectedTableToken(t) => {
                s.append("Unexpected table token '");
                append_chars(&mut s, &t.loc.span);
                s.append("'");
                append_at(&mut s, t.loc.line, t.loc.col);
                s.append(".");
            },
            ParseError::UnexpectedToken(t) => {
                s.append("Unexpected token '");
                append_chars(&mut s, &t.loc.span);
                s.append("'");
                append_at(&mut s, t.loc.line, t.loc.col);
                s.append(".");
            },
            ParseError::UnexpectedEof(line, col) => {
                s.append("Unexpected EOF");
                append_at(&mut s, *line, *col);
                s.append(".");
            },
            ParseError::ExpectedStatement(line, col) => {
                s.append("Expected a statement");
                append_at(&mut s, *line, *col);
                s.append(".");
            },
        }
        assert(s@ =~= parse_error_text(self@));
        s
    }
}

/// The column of the last character of a token at `col` that is `len` long
/// (the sum saturates at `usize::MAX`, the difference at 0).
pub open spec fn end_col(col: nat, len: nat) -> nat {
    let sum: nat = if col + len > usize::MAX { usize::MAX as nat } else { col + len };
    if sum == 0 { 0 } else { (sum - 1) as nat }
}

/// The line at which parsing stands after reading the first `p` tokens.
pub open spec fn line_at(toks: Seq<TokenModel>, p: int) -> nat {
    if 0 < p <= toks.len() { toks[p - 1].loc.line } else { 1 }
}

/// The column at which parsing stands after reading the first `p` tokens.
pub open spec fn col_at(toks: Seq<TokenModel>, p: int) -> nat {
    if 0 < p <= toks.len() { end_col(toks[p - 1].loc.col, toks[p - 1].loc.len) } else { 1 }
}

/// The error for running out of tokens after the first `p`.
pub open spec fn eof_at(toks: Seq<TokenModel>, p: int) -> ParseErrorModel {
    ParseErrorModel::UnexpectedEof(line_at(toks, p), col_at(toks, p))
}

/// A statement with no body, introduced by `tok`.
pub open spec fn node(kind: KindModel, tok: TokenModel) -> StmtModel {
    StmtModel { kind, token: tok }
}

/// Reads one token of `kind` at `p`; gives the position after it.
pub open spec fn expect_token_spec(toks: Seq<TokenModel>, p: int, kind: TokenKind) -> Result<int, ParseErrorModel> {
    if p < 0 || p >= toks.len() {
        Err(eof_at(toks, p))
    } else if toks[p].kind == kind {
        Ok(p + 1)
    } else {
        Err(ParseErrorModel::ExpectedToken(kind, toks[p]))
    }
}

/// Reads a number at `p`.
pub open spec fn expect_number_spec(toks: Seq<TokenModel>, p: int) -> Result<(usize, int), ParseErrorModel> {
    if p < 0 || p >= toks.len() {
        Err(eof_at(toks, p))
    } else {
        match toks[p].kind {
            TokenKind::Number(v) => Ok((v, p + 1)),
            _ => Err(ParseErrorModel::ExpectedNumber(toks[p])),
        }
    }
}

/// Reads a parameter, a number or `$`, at `p`.
pub open spec fn expect_param_spec(toks: Seq<TokenModel>, p: int) -> Result<(ParameterKind, int), ParseErrorModel> {
    if p < 0 || p >= toks.len() {
        Err(eof_at(toks, p))
    } else {
        match toks[p].kind {
            TokenKind::Number(v) => Ok((ParameterKind::Numeric(v), p + 1)),
            TokenKind::Save => Ok((ParameterKind::Saved, p + 1)),
            _ => Err(ParseErrorModel::ExpectedParameter(toks[p])),
        }
    }
}

/// Reads `(`, a parameter and `)` at `p`.
pub open spec fn param_group_spec(toks: Seq<TokenModel>, p: int) -> Result<(ParameterKind, int), ParseErrorModel> {
    match expect_token_spec(toks, p, TokenKind::LParen) {
        Err(e) => Err(e),
        Ok(q) => match expect_param_spec(toks, q) {
            Err(e) => Err(e),
            Ok((x, r)) => match expect_token_spec(toks, r, TokenKind::RParen) {
                Err(e) => Err(e),
                Ok(end) => Ok((x, end)),
            },
        },
    }
}

/// Reads `(`, a number and `)` at `p`.
pub open spec fn number_group_spec(toks: Seq<TokenModel>, p: int) -> Result<(usize, int), ParseErrorModel> {
    match expect_token_spec(toks, p, TokenKind::LParen) {
        Err(e) => Err(e),
        Ok(q) => match expect_number_spec(toks, q) {
            Err(e) => Err(e),
            Ok((x, r)) => match expect_token_spec(toks, r, TokenKind::RParen) {
                Err(e) => Err(e),
                Ok(end) => Ok((x, end)),
            },
        },
    }
}

/// Reads statements from `p` up to and including the token of kind `term`.
pub open spec fn parse_block_spec(toks: Seq<TokenModel>, p: int, term: TokenKind) -> Result<
    (Seq<StmtModel>, int),
    ParseErrorModel,
>
    decreases toks.len() - p, 1int,
{
    if p < 0 || p >= toks.len() {
        Err(eof_at(toks, p))
    } else if toks[p].kind == term {
        Ok((seq![], p + 1))
    } else {
        match parse_stmt_spec(toks, p) {
            Err(e) => Err(e),
            Ok((s, q)) => {
                // never taken: a statement takes its first token, and no token that is not there
                if q <= p || q > toks.len() {
                    Err(eof_at(toks, p))
                } else {
                    match parse_block_spec(toks, q, term) {
                        Err(e) => Err(e),
                        Ok((rest, r)) => Ok((seq![s] + rest, r)),
                    }
                }
            },
        }
    }
}

/// A loop whose `{` is `tok`, read from `p`: a body up to `}`, then an optional
/// `(parameter)` that gives the value that ends it.
pub open spec fn loop_spec(toks: Seq<TokenModel>, p: int, tok: TokenModel) -> Result<(StmtModel, int), ParseErrorModel>
    decreases toks.len() - p, 2int,
{
    match parse_block_spec(toks, p, TokenKind::EndLoop) {
        Err(e) => Err(e),
        Ok((body, q)) => {
            if 0 <= q < toks.len() && toks[q].kind == TokenKind::LParen {
                match param_group_spec(toks, q) {
                    Err(e) => Err(e),
                    Ok((t, r)) => Ok((node(KindModel::Loop(body, Some(t)), tok), r)),
                }
            } else {
                Ok((node(KindModel::Loop(body, None), tok), q))
            }
        },
    }
}

/// An if whose `?` is `tok`, read from `p`: `(parameter)`, then a body up to `;`.
pub open spec fn if_spec(toks: Seq<TokenModel>, p: int, tok: TokenModel) -> Result<(StmtModel, int), ParseErrorModel>
    decreases toks.len() - p, 2int,
{
    match param_group_spec(toks, p) {
        Err(e) => Err(e),
        Ok((c, q)) => {
            if q <= p {
                Err(eof_at(toks, p))
            } else {
                match parse_block_spec(toks, q, TokenKind::Eos) {
                    Err(e) => Err(e),
                    Ok((body, r)) => Ok((node(KindModel::If(c, body), tok), r)),
                }
            }
        },
    }
}

/// A function definition whose `:` is `tok`, read from `p`: `(id)`, then a body up to `;`.
pub open spec fn define_fn_spec(toks: Seq<TokenModel>, p: int, tok: TokenModel) -> Result<(StmtModel, int), ParseErrorModel>
    decreases toks.len() - p, 2int,
{
    match number_group_spec(toks, p) {
        Err(e) => Err(e),
        Ok((id, q)) => {
            if q <= p {
                Err(eof_at(toks, p))
            } else {
                match parse_block_spec(toks, q, TokenKind::Eos) {
                    Err(e) => Err(e),
                    Ok((body, r)) => Ok((node(KindModel::DefineFn(id, body), tok), r)),
                }
            }
        },
    }
}

/// A cell definition whose `[` is `tok`, read from `p`: a number, then `]`.
pub open spec fn defn_spec(toks: Seq<TokenModel>, p: int, tok: TokenModel) -> Result<(StmtModel, int), ParseErrorModel> {
    match expect_number_spec(toks, p) {
        Err(e) => Err(e),
        Ok((v, q)) => match expect_token_spec(toks, q, TokenKind::EndDefine) {
            Err(e) => Err(e),
            Ok(r) => Ok((node(KindModel::Define(v), tok), r)),
        },
    }
}

/// A copy whose `=` is `tok`, read from `p`: `(parameter)`.
pub open spec fn copy_spec(toks: Seq<TokenModel>, p: int, tok: TokenModel) -> Result<(StmtModel, int), ParseErrorModel> {
    match param_group_spec(toks, p) {
        Err(e) => Err(e),
        Ok((x, r)) => Ok((node(KindModel::Copy(x), tok), r)),
    }
}

/// A goto whose `@` is `tok`, read from `p`: `(parameter)`.
pub open spec fn goto_spec(toks: Seq<TokenModel>, p: int, tok: TokenModel) -> Result<(StmtModel, int), ParseErrorModel> {
    match param_group_spec(toks, p) {
        Err(e) => Err(e),
        Ok((x, r)) => Ok((node(KindModel::Goto(x), tok), r)),
    }
}

/// A function call whose `^` is `tok`, read from `p`: `(id)`.
pub open spec fn call_fn_spec(toks: Seq<TokenModel>, p: int, tok: TokenModel) -> Result<(StmtModel, int), ParseErrorModel> {
    match number_group_spec(toks, p) {
        Err(e) => Err(e),
        Ok((id, r)) => Ok((node(KindModel::CallFn(id), tok), r)),
    }
}

/// The statement that starts at `p`, and the position after it.
pub open spec fn parse_stmt_spec(toks: Seq<TokenModel>, p: int) -> Result<(StmtModel, int), ParseErrorModel>
    decreases toks.len() - p, 0int,
{
    if p < 0 || p >= toks.len() {
        Err(ParseErrorModel::ExpectedStatement(line_at(toks, p), col_at(toks, p)))
    } else {
        let tok = toks[p];
        let q = p + 1;
        match tok.kind {
            TokenKind::Table(_) => Err(ParseErrorModel::UnexpectedTableToken(tok)),
            TokenKind::Inc => Ok((node(KindModel::Inc, tok), q)),
            TokenKind::Dec => Ok((node(KindModel::Dec, tok), q)),
            TokenKind::Mul => Ok((node(KindModel::Mul, tok), q)),
            TokenKind::Div => Ok((node(KindModel::Div, tok), q)),
            TokenKind::MovR => Ok((node(KindModel::MovR, tok), q)),
            TokenKind::MovL => Ok((node(KindModel::MovL, tok), q)),
            TokenKind::Print => Ok((node(KindModel::Print, tok), q)),
            TokenKind::StartLoop => loop_spec(toks, q, tok),
            TokenKind::StartDefine => defn_spec(toks, q, tok),
            TokenKind::Question => if_spec(toks, q, tok),
            TokenKind::Goto => goto_spec(toks, q, tok),
            TokenKind::Save => Ok((node(KindModel::Save, tok), q)),
            TokenKind::PrintAscii => Ok((node(KindModel::PrintAscii, tok), q)),
            TokenKind::CopyTo => copy_spec(toks, q, tok),
            TokenKind::Modulo => Ok((node(KindModel::Modulo, tok), q)),
            TokenKind::FuncDef => define_fn_spec(toks, q, tok),
            TokenKind::FuncCall => call_fn_spec(toks, q, tok),
            TokenKind::Newline => Ok((node(KindModel::PrintNewline, tok), q)),
            TokenKind::Tilde => Ok((node(KindModel::FlipSign, tok), q)),
            _ => Err(ParseErrorModel::UnexpectedToken(tok)),
        }
    }
}

/// The top-level statements from `p` to the end.
pub open spec fn parse_top_spec(toks: Seq<TokenModel>, p: int) -> Result<Seq<StmtModel>, ParseErrorModel>
    decreases toks.len() - p,
{
    if p < 0 || p >= toks.len() {
        Ok(seq![])
    } else {
        match parse_stmt_spec(toks, p) {
            Err(e) => Err(e),
            Ok((s, q)) => {
                // never taken: a statement takes its first token, and no token that is not there
                if q <= p || q > toks.len() {
                    Err(eof_at(toks, p))
                } else {
                    match parse_top_spec(toks, q) {
                        Err(e) => Err(e),
                        Ok(rest) => Ok(seq![s] + rest),
                    }
                }
            },
        }
    }
}

/// The declared table size if the token at `p` is a table token, and where the
/// statements start.
pub open spec fn table_start(toks: Seq<TokenModel>, p: int) -> (usize, int) {
    if 0 <= p < toks.len() && toks[p].kind is Table {
        (toks[p].kind->Table_0, p + 1)
    } else {
        (DEFAULT_TABLE_SIZE, p)
    }
}

/// What parsing the tokens from `p` gives: the top-level statements and the table size.
pub open spec fn parse_program_spec(toks: Seq<TokenModel>, p: int) -> Result<(Seq<StmtModel>, usize), ParseErrorModel> {
    let (size, start) = table_start(toks, p);
    match parse_top_spec(toks, start) {
        Err(e) => Err(e),
        Ok(stmts) => Ok((stmts, size)),
    }
}

/// Whether `r`, the outcome of reading something from the tokens at `p`, is the one
/// that `spec` describes, with the parser after it standing at the position that it gives.
pub open spec fn stmt_outcome(
    r: Result<Statement, ParseError>,
    spec: Result<(StmtModel, int), ParseErrorModel>,
    after: int,
) -> bool {
    match (r, spec) {
        (Ok(s), Ok((m, q))) => s@ == m && after == q,
        (Err(e), Err(em)) => e@ == em,
        _ => false,
    }
}

/// Whether `r`, the outcome of parsing a program, is the one that `spec` describes:
/// the same statements, each function id mapped to its last top-level definition,
/// and a new table of the declared size.
pub open spec fn program_outcome(
    r: Result<Program, ParseError>,
    spec: Result<(Seq<StmtModel>, usize), ParseErrorModel>,
) -> bool {
    match (r, spec) {
        (Ok(prog), Ok((stmts, size))) => {
            &&& stmts_model(&prog.statements) == stmts
            &&& functions_model(prog.functions@) == functions_of(stmts)
            &&& prog.table.is_fresh(size)
        },
        (Err(e), Err(em)) => e@ == em,
        _ => false,
    }
}

/// A text that does not begin with a table declaration lexes, and parses, if at
/// all, into a program whose table has the default size, with the cursor on cell 0.
pub proof fn lemma_default_table(s: Seq<char>, r: Result<Program, ParseError>)
    requires
        s.len() == 0 || s[0] != '[',
        lex_spec(s) is Ok ==> program_outcome(r, parse_program_spec(lex_spec(s)->Ok_0, 0)),
    ensures
        lex_spec(s) is Ok,
        r matches Ok(prog) ==> {
            &&& prog.table.size == DEFAULT_TABLE_SIZE
            &&& prog.table.array.len() == DEFAULT_TABLE_SIZE
            &&& prog.table.curr == 0
        },
{
    let toks = lex_spec(s)->Ok_0;
    assert(toks[0].kind == TokenKind::Table(DEFAULT_TABLE_SIZE));
    assert(table_start(toks, 0).0 == DEFAULT_TABLE_SIZE);
}

/// Reads a token sequence into a program.
pub struct Parser {
    tokens: TokenStream,
    line: usize,
    col: usize,
}

impl Parser {
    /// The models of the tokens being parsed.
    pub closed spec fn toks(&self) -> Seq<TokenModel> {
        tokens_model(self.tokens.tokens@)
    }

    /// How many tokens were read.
    pub closed spec fn pos(&self) -> int {
        self.tokens.curr as int
    }

    /// The position is within the tokens, and line and column are those after the last token read.
    pub closed spec fn wf(&self) -> bool {
        &&& 0 <= self.pos() <= self.toks().len()
        &&& self.line == line_at(self.toks(), self.pos())
        &&& self.col == col_at(self.toks(), self.pos())
    }

    pub fn new(tokens: Vec<Token>) -> (r: Parser)
        ensures
            r.wf(),
            r.toks() == tokens_model(tokens@),
            r.pos() == 0,
    {
        Parser { tokens: TokenStream::new(tokens), line: 1, col: 1 }
    }

    /// Reads the next token, if any.
    pub fn next(&mut self) -> (r: Option<Token>)
        requires
            old(self).wf(),
        ensures
            final(self).wf(),
            final(self).toks() == old(self).toks(),
            match r {
                Some(t) => {
                    &&& old(self).pos() < old(self).toks().len()
                    &&& t@ == old(self).toks()[old(self).pos()]
                    &&& final(self).pos() == old(self).pos() + 1
                },
                None => old(self).pos() >= old(self).toks().len() && final(self).pos() == old(self).pos(),
            },
    {
        let next = self.tokens.next();
        if let Some(t) = &next {
            self.line = t.loc.line;
            self.col = t.loc.col.saturating_add(t.loc.len).saturating_sub(1);
        }
        next
    }

    /// The next token, if any, without reading it.
    pub fn peek(&self) -> (r: Option<&Token>)
        requires
            self.wf(),
        ensures
            match r {
                Some(t) => self.pos() < self.toks().len() && t@ == self.toks()[self.pos()],
                None => self.pos() >= self.toks().len(),
            },
    {
        self.tokens.peek()
    }

    pub fn expect_number(&mut self) -> (r: Result<usize, ParseError>)
        requires
            old(self).wf(),
        ensures
            final(self).wf(),
            final(self).toks() == old(self).toks(),
            old(self).pos() <= final(self).pos(),
            match (r, expect_number_spec(old(self).toks(), old(self).pos())) {
                (Ok(v), Ok((w, q))) => v == w && final(self).pos() == q,
                (Err(e), Err(em)) => e@ == em,
                _ => false,
            },
    {
        let line = self.line;
        let col = self.col;
        if let Some(tok) = self.next() {
            match tok.kind {
                TokenKind::Number(val) => Ok(val),
                _ => Err(ParseError::ExpectedNumber(tok)),
            }
        } else {
            Err(ParseError::UnexpectedEof(line, col))
        }
    }

    pub fn expect_param(&mut self) -> (r: Result<ParameterKind, ParseError>)
        requires
            old(self).wf(),
        ensures
            final(self).wf(),
            final(self).toks() == old(self).toks(),
            old(self).pos() <= final(self).pos(),
            match (r, expect_param_spec(old(self).toks(), old(self).pos())) {
                (Ok(v), Ok((w, q))) => v == w && final(self).pos() == q,
                (Err(e), Err(em)) => e@ == em,
                _ => false,
            },
    {
        let line = self.line;
        let col = self.col;
        if let Some(tok) = self.next() {
            match tok.kind {
                TokenKind::Number(val) => Ok(ParameterKind::Numeric(val)),
                TokenKind::Save => Ok(ParameterKind::Saved),
                _ => Err(ParseError::ExpectedParameter(tok)),
            }
        } else {
            Err(ParseError::UnexpectedEof(line, col))
        }
    }

    pub fn expect_token(&mut self, kind: TokenKind) -> (r: Result<(), ParseError>)
        requires
            old(self).wf(),
        ensures
            final(self).wf(),
            final(self).toks() == old(self).toks(),
            old(self).pos() <= final(self).pos(),
            match (r, expect_token_spec(old(self).toks(), old(self).pos(), kind)) {
                (Ok(_), Ok(q)) => final(self).pos() == q,
                (Err(e), Err(em)) => e@ == em,
                _ => false,
            },
    {
        let line = self.line;
        let col = self.col;
        if let Some(tok) = self.next() {
            if tok.kind == kind {
                Ok(())
            } else {
                Err(ParseError::ExpectedToken(kind, tok))
            }
        } else {
            Err(ParseError::UnexpectedEof(line, col))
        }
    }

    /// Reads `(`, a parameter and `)`.
    pub fn expect_param_group(&mut self) -> (r: Result<ParameterKind, ParseError>)
        requires
            old(self).wf(),
        ensures
            final(self).wf(),
            final(self).toks() == old(self).toks(),
            old(self).pos() <= final(self).pos(),
            match (r, param_group_spec(old(self).toks(), old(self).pos())) {
                (Ok(v), Ok((w, q))) => v == w && final(self).pos() == q,
                (Err(e), Err(em)) => e@ == em,
                _ => false,
            },
    {
        self.expect_token(TokenKind::LParen)?;
        let param = self.expect_param()?;
        self.expect_token(TokenKind::RParen)?;
        Ok(param)
    }

    /// Reads `(`, a number and `)`.
    pub fn expect_number_group(&mut self) -> (r: Result<usize, ParseError>)
        requires
            old(self).wf(),
        ensures
            final(self).wf(),
            final(self).toks() == old(self).toks(),
            old(self).pos() <= final(self).pos(),
            match (r, number_group_spec(old(self).toks(), old(self).pos())) {
                (Ok(v), Ok((w, q))) => v == w && final(self).pos() == q,
                (Err(e), Err(em)) => e@ == em,
                _ => false,
            },
    {
        self.expect_token(TokenKind::LParen)?;
        let number = self.expect_number()?;
        self.expect_token(TokenKind::RParen)?;
        Ok(number)
    }

    pub fn parse_copy_stmt(&mut self, token: Token) -> (r: Result<Statement, ParseError>)
        requires
            old(self).wf(),
        ensures
            final(self).wf(),
            final(self).toks() == old(self).toks(),
            old(self).pos() <= final(self).pos(),
            stmt_outcome(r, copy_spec(old(self).toks(), old(self).pos(), token@), final(self).pos()),
    {
        let param = self.expect_param_group()?;
        Ok(Statement::new(StatementKind::Copy(param), token))
    }

    pub fn parse_goto_stmt(&mut self, token: Token) -> (r: Result<Statement, ParseError>)
        requires
            old(self).wf(),
        ensures
            final(self).wf(),
            final(self).toks() == old(self).toks(),
            old(self).pos() <= final(self).pos(),
            stmt_outcome(r, goto_spec(old(self).toks(), old(self).pos(), token@), final(self).pos()),
    {
        let param = self.expect_param_group()?;
        Ok(Statement::new(StatementKind::Goto(param), token))
    }

    pub fn parse_defn_stmt(&mut self, token: Token) -> (r: Result<Statement, ParseError>)
        requires
            old(self).wf(),
        ensures
            final(self).wf(),
            final(self).toks() == old(self).toks(),
            old(self).pos() <= final(self).pos(),
            stmt_outcome(r, defn_spec(old(self).toks(), old(self).pos(), token@), final(self).pos()),
    {
        let num = self.expect_number()?;
        self.expect_token(TokenKind::EndDefine)?;
        Ok(Statement::new(StatementKind::Define(num), token))
    }

    pub fn parse_call_fn_stmt(&mut self, token: Token) -> (r: Result<Statement, ParseError>)
        requires
            old(self).wf(),
        ensures
            final(self).wf(),
            final(self).toks() == old(self).toks(),
            old(self).pos() <= final(self).pos(),
            stmt_outcome(r, call_fn_spec(old(self).toks(), old(self).pos(), token@), final(self).pos()),
    {
        let function_id = self.expect_number_group()?;
        Ok(Statement::new(StatementKind::CallFn(function_id), token))
    }

    /// Reads statements up to and including the next token of kind `term`.
    pub fn parse_block(&mut self, term: TokenKind) -> (r: Result<Vec<Statement>, ParseError>)
        requires
            old(self).wf(),
        ensures
            final(self).wf(),
            final(self).toks() == old(self).toks(),
            old(self).pos() <= final(self).pos(),
            match (r, parse_block_spec(old(self).toks(), old(self).pos(), term)) {
                (Ok(v), Ok((m, q))) => stmts_model(&v) == m && final(self).pos() == q,
                (Err(e), Err(em)) => e@ == em,
                _ => false,
            },
        decreases old(self).toks().len() - old(self).pos(), 1int,
    {
        let ghost toks = self.toks();
        let ghost entry = self.pos();
        let mut stmts: Vec<Statement> = Vec::new();
        loop
            invariant
                self.wf(),
                self.toks() == toks,
                toks == old(self).toks(),
                entry == old(self).pos(),
                entry <= self.pos(),
                parse_block_spec(toks, entry, term) == match parse_block_spec(toks, self.pos(), term) {
                    Err(e) => Err(e),
                    Ok((rest, r)) => Ok((stmts_model(&stmts) + rest, r)),
                },
            ensures
                self.wf(),
                self.toks() == toks,
                toks == old(self).toks(),
                entry == old(self).pos(),
                entry <= self.pos(),
                parse_block_spec(toks, entry, term) == match parse_block_spec(toks, self.pos(), term) {
                    Err(e) => Err(e),
                    Ok((rest, r)) => Ok((stmts_model(&stmts) + rest, r)),
                },
                self.pos() >= toks.len() || toks[self.pos()].kind == term,
            decreases toks.len() - self.pos(),
        {
            let at_end = match self.peek() {
                None => true,
                Some(tok) => tok.kind == term,
            };
            if at_end {
                break ;
            }
            let ghost before = stmts_model(&stmts);
            let stmt = self.parse_stmt()?;
            stmts.push(stmt);
            proof {
                assert(stmts_model(&stmts) =~= before.push(stmt@));
                let rest = parse_block_spec(toks, self.pos(), term);
                if rest is Ok {
                    assert(before + (seq![stmt@] + rest->Ok_0.0) =~= stmts_model(&stmts) + rest->Ok_0.0);
                }
            }
        }
        self.expect_token(term)?;
        proof {
            assert(stmts_model(&stmts) + seq![] =~= stmts_model(&stmts));
        }
        Ok(stmts)
    }

    pub fn parse_loop_stmt(&mut self, token: Token) -> (r: Result<Statement, ParseError>)
        requires
            old(self).wf(),
        ensures
            final(self).wf(),
            final(self).toks() == old(self).toks(),
            old(self).pos() <= final(self).pos(),
            stmt_outcome(r, loop_spec(old(self).toks(), old(self).pos(), token@), final(self).pos()),
        decreases old(self).toks().len() - old(self).pos(), 2int,
    {
        let stmts = self.parse_block(TokenKind::EndLoop)?;
        let mut has_param = false;
        if let Some(tok) = self.peek() {
            has_param = tok.kind == TokenKind::LParen;
        }
        let param = if has_param {
            Some(self.expect_param_group()?)
        } else {
            None
        };
        Ok(Statement::new(StatementKind::Loop(stmts, param), token))
    }

    pub fn parse_if_stmt(&mut self, token: Token) -> (r: Result<Statement, ParseError>)
        requires
            old(self).wf(),
        ensures
            final(self).wf(),
            final(self).toks() == old(self).toks(),
            old(self).pos() <= final(self).pos(),
            stmt_outcome(r, if_spec(old(self).toks(), old(self).pos(), token@), final(self).pos()),
        decreases old(self).toks().len() - old(self).pos(), 2int,
    {
        let param = self.expect_param_group()?;
        let stmts = self.parse_block(TokenKind::Eos)?;
        Ok(Statement::new(StatementKind::If(param, stmts), token))
    }

    pub fn parse_define_fn_stmt(&mut self, token: Token) -> (r: Result<Statement, ParseError>)
        requires
            old(self).wf(),
        ensures
            final(self).wf(),
            final(self).toks() == old(self).toks(),
            old(self).pos() <= final(self).pos(),
            stmt_outcome(r, define_fn_spec(old(self).toks(), old(self).pos(), token@), final(self).pos()),
        decreases old(self).toks().len() - old(self).pos(), 2int,
    {
        let function_id = self.expect_number_group()?;
        let stmts = self.parse_block(TokenKind::Eos)?;
        Ok(Statement::new(StatementKind::DefineFn(function_id, stmts), token))
    }

    /// Reads one statement.
    pub fn parse_stmt(&mut self) -> (r: Result<Statement, ParseError>)
        requires
            old(self).wf(),
        ensures
            final(self).wf(),
            final(self).toks() == old(self).toks(),
            old(self).pos() <= final(self).pos(),
            stmt_outcome(r, parse_stmt_spec(old(self).toks(), old(self).pos()), final(self).pos()),
            r is Ok ==> old(self).pos() < final(self).pos(),
        decreases old(self).toks().len() - old(self).pos(), 0int,
    {
        let line = self.line;
        let col = self.col;
        let tok = match self.next() {
            Some(t) => t,
            None => {
                return Err(ParseError::ExpectedStatement(line, col));
            },
        };
        match tok.kind {
            TokenKind::Table(_) => Err(ParseError::UnexpectedTableToken(tok)),
            TokenKind::Inc => Ok(Statement::new(StatementKind::Inc, tok)),
            TokenKind::Dec => Ok(Statement::new(StatementKind::Dec, tok)),
            TokenKind::Mul => Ok(Statement::new(StatementKind::Mul, tok)),
            TokenKind::Div => Ok(Statement::new(StatementKind::Div, tok)),
            TokenKind::MovR => Ok(Statement::new(StatementKind::MovR, tok)),
            TokenKind::MovL => Ok(Statement::new(StatementKind::MovL, tok)),
            TokenKind::Print => Ok(Statement::new(StatementKind::Print, tok)),
            TokenKind::StartLoop => self.parse_loop_stmt(tok),
            TokenKind::StartDefine => self.parse_defn_stmt(tok),
            TokenKind::Question => self.parse_if_stmt(tok),
            TokenKind::Goto => self.parse_goto_stmt(tok),
            TokenKind::Save => Ok(Statement::new(StatementKind::Save, tok)),
            TokenKind::PrintAscii => Ok(Statement::new(StatementKind::PrintAscii, tok)),
            TokenKind::CopyTo => self.parse_copy_stmt(tok),
            TokenKind::Modulo => Ok(Statement::new(StatementKind::Modulo, tok)),
            TokenKind::FuncDef => self.parse_define_fn_stmt(tok),
            TokenKind::FuncCall => self.parse_call_fn_stmt(tok),
            TokenKind::Newline => Ok(Statement::new(StatementKind::PrintNewline, tok)),
            TokenKind::Tilde => Ok(Statement::new(StatementKind::FlipSign, tok)),
            _ => Err(ParseError::UnexpectedToken(tok)),
        }
    }

    /// Reads the table token, if the next token is one.
    pub fn parse_table_stmt(&mut self) -> (r: Result<Option<Statement>, ParseError>)
        requires
            old(self).wf(),
        ensures
            final(self).wf(),
            final(self).toks() == old(self).toks(),
            r matches Ok(t) && match t {
                Some(s) => {
                    let p = old(self).pos();
                    &&& p < old(self).toks().len()
                    &&& old(self).toks()[p].kind matches TokenKind::Table(v)
                    &&& s@ == node(KindModel::Table(v), old(self).toks()[p])
                    &&& final(self).pos() == p + 1
                },
                None => {
                    &&& !(old(self).pos() < old(self).toks().len() && old(self).toks()[old(
                        self,
                    ).pos()].kind is Table)
                    &&& final(self).pos() == old(self).pos()
                },
            },
    {
        let size: Option<usize> = match self.peek() {
            Some(tok) => match tok.kind {
                TokenKind::Table(val) => Some(val),
                _ => None,
            },
            None => None,
        };
        match size {
            Some(val) => match self.next() {
                Some(tok) => Ok(Some(Statement::new(StatementKind::Table(val), tok))),
                None => Ok(None),
            },
            None => Ok(None),
        }
    }

    /// Reads the whole program: the table token, if any, then statements up to the end.
    pub fn parse_program(&mut self) -> (r: Result<Program, ParseError>)
        requires
            old(self).wf(),
        ensures
            program_outcome(r, parse_program_spec(old(self).toks(), old(self).pos())),
    {
        broadcast use vstd::laws_cmp::group_laws_cmp;

        let ghost toks = self.toks();
        let ghost entry = self.pos();
        let mut statements: Vec<Statement> = Vec::new();
        let mut functions: BTreeMap<usize, Statement> = BTreeMap::new();
        let wrapped_table = self.parse_table_stmt()?;
        let table = match wrapped_table {
            Some(table_stmt) => match table_stmt.kind {
                StatementKind::Table(size) => Table::new(size),
                _ => Table::new(DEFAULT_TABLE_SIZE),
            },
            None => Table::new(DEFAULT_TABLE_SIZE),
        };
        let ghost start = table_start(toks, entry).1;
        assert(functions_model(functions@) =~= functions_of(stmts_model(&statements)));
        assert(stmts_model(&statements) + parse_top_spec(toks, start)->Ok_0 =~= parse_top_spec(toks, start)->Ok_0);
        loop
            invariant
                self.wf(),
                self.toks() == toks,
                toks == old(self).toks(),
                entry == old(self).pos(),
                start == table_start(toks, entry).1,
                start <= self.pos(),
                table.is_fresh(table_start(toks, entry).0),
                functions_model(functions@) == functions_of(stmts_model(&statements)),
                parse_top_spec(toks, start) == match parse_top_spec(toks, self.pos()) {
                    Err(e) => Err(e),
                    Ok(rest) => Ok(stmts_model(&statements) + rest),
                },
            ensures
                self.pos() >= toks.len(),
                table.is_fresh(table_start(toks, entry).0),
                functions_model(functions@) == functions_of(stmts_model(&statements)),
                parse_top_spec(toks, start) == Ok::<Seq<StmtModel>, ParseErrorModel>(stmts_model(&statements)),
            decreases toks.len() - self.pos(),
        {
            if self.peek().is_none() {
                assert(stmts_model(&statements) + seq![] =~= stmts_model(&statements));
                break ;
            }
            let ghost before = stmts_model(&statements);
            let stmt = self.parse_stmt()?;
            if let StatementKind::DefineFn(id, _) = &stmt.kind {
                let copy = stmt.duplicate();
                functions.insert(*id, copy);
            }
            statements.push(stmt);
            proof {
                assert(stmts_model(&statements) =~= before.push(stmt@));
                assert(stmts_model(&statements).drop_last() =~= before);
                assert(functions_model(functions@) =~= functions_of(stmts_model(&statements)));
                let rest = parse_top_spec(toks, self.pos());
                if rest is Ok {
                    assert(before + (seq![stmt@] + rest->Ok_0) =~= stmts_model(&statements) + rest->Ok_0);
                }
            }
        }
        Ok(Program::new(statements, functions, table))
    }
}

} // verus!
