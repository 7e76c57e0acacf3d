use vstd::prelude::*;
use vstd::std_specs::iter::IteratorSpec;

use vstd::string::StringExecFns;

use crate::text::{append_chars, append_decimal, decimal};
use crate::program::DEFAULT_TABLE_SIZE;

verus! {

/// The kind of a lexical token.
#[derive(Clone, Copy, PartialEq, Eq, Structural, Debug)]
pub enum TokenKind {
    Table(usize),
    Inc,
    Dec,
    Mul,
    Div,
    MovR,
    MovL,
    Print,
    StartLoop,
    EndLoop,
    StartDefine,
    EndDefine,
    LParen,
    RParen,
    Question,
    Goto,
    Save,
    PrintAscii,
    CopyTo,
    Modulo,
    FuncDef,
    FuncCall,
    Newline,
    Eos,
    Tilde,
    Number(usize),
}

/// The text a token kind is displayed as: its operator character, or the
/// decimal digits of its number.
pub open spec fn display_spec(k: TokenKind) -> Seq<char> {
    match k {
        TokenKind::Table(n) => decimal(n as nat),
        TokenKind::Number(n) => decimal(n as nat),
        _ => seq![op_char(k)->0],
    }
}

/// The operator text of a kind that is neither a table nor a number.
fn op_str(k: TokenKind) -> (r: &'static str)
    requires
        op_char(k) is Some,
    ensures
        r@ == seq![op_char(k)->0],
{
    match k {
            TokenKind::Inc => {
                proof {
                    reveal_strlit("+");
                }
                "+"
            },
            TokenKind::Dec => {
                proof {
                    reveal_strlit("-");
                }
                "-"
            },
            TokenKind::Mul => {
                proof {
                    reveal_strlit("*");
                }
                "*"
            },
            TokenKind::Div => {
                proof {
                    reveal_strlit("/");
                }
                "/"
            },
            TokenKind::MovR => {
                proof {
                    reveal_strlit(">");
                }
                ">"
            },
            TokenKind::MovL => {
                proof {
                    reveal_strlit("<");
                }
                "<"
            },
            TokenKind::Print => {
                proof {
                    reveal_strlit(".");
                }
                "."
            },
            TokenKind::StartLoop => {
                proof {
                    reveal_strlit("{");
                }
                "{"
            },
            TokenKind::EndLoop => {
                proof {
                    reveal_strlit("}");
                }
                "}"
            },
            TokenKind::StartDefine => {
                proof {
                    reveal_strlit("[");
                }
                "["
            },
            TokenKind::EndDefine => {
                proof {
                    reveal_strlit("]");
                }
                "]"
            },
            TokenKind::LParen => {
                proof {
                    reveal_strlit("(");
                }
                "("
            },
            TokenKind::RParen => {
                proof {
                    reveal_strlit(")");
                }
                ")"
            },
            TokenKind::Question => {
                proof {
                    reveal_strlit("?");
                }
                "?"
            },
            TokenKind::Goto => {
                proof {
                    reveal_strlit("@");
                }
                "@"
            },
            TokenKind::Save => {
                proof {
                    reveal_strlit("$");
                }
                "$"
            },
            TokenKind::PrintAscii => {
                proof {
                    reveal_strlit("&");
                }
                "&"
            },
            TokenKind::CopyTo => {
                proof {
                    reveal_strlit("=");
                }
                "="
            },
            TokenKind::Modulo => {
                proof {
                    reveal_strlit("%");
                }
                "%"
            },
            TokenKind::FuncDef => {
                proof {
                    reveal_strlit(":");
                }
                ":"
            },
            TokenKind::FuncCall => {
                proof {
                    reveal_strlit("^");
                }
                "^"
            },
            TokenKind::Newline => {
                proof {
                    reveal_strlit("_");
                }
                "_"
            },
            TokenKind::Eos => {
                proof {
                    reveal_strlit(";");
                }
                ";"
            },
            TokenKind::Tilde => {
                proof {
                    reveal_strlit("~");
                }
                "~"
            },
            TokenKind::Table(_) => "",
            TokenKind::Number(_) => "",
    }
}

impl TokenKind {
    /// The text this kind is displayed as.
    pub fn display(&self) -> (r: String)
        ensures
            r@ == display_spec(*self),
    {
        match *self {
            TokenKind::Table(n) => {
                let mut s = String::new();
                append_decimal(&mut s, n);
                s
            },
            TokenKind::Number(n) => {
                let mut s = String::new();
                append_decimal(&mut s, n);
                s
            },
            _ => String::from_str(op_str(*self)),
        }
    }
}

/// Where a token came from: its line and column, and the characters it was read from.
#[derive(Debug)]
pub struct TokenLocation {
    pub line: usize,
    pub col: usize,
    pub len: usize,
    pub span: Vec<char>,
}

/// Mathematical model of a `TokenLocation`.
pub struct LocModel {
    pub line: nat,
    pub col: nat,
    pub len: nat,
    pub span: Seq<char>,
}

impl View for TokenLocation {
    type V = LocModel;

    open spec fn view(&self) -> LocModel {
        LocModel { line: self.line as nat, col: self.col as nat, len: self.len as nat, span: self.span@ }
    }
}

#[derive(Debug)]
pub struct Token {
    pub kind: TokenKind,
    pub loc: TokenLocation,
}

/// Mathematical model of a `Token`.
pub struct TokenModel {
    pub kind: TokenKind,
    pub loc: LocModel,
}

impl View for Token {
    type V = TokenModel;

    open spec fn view(&self) -> TokenModel {
        TokenModel { kind: self.kind, loc: self.loc@ }
    }
}

pub open spec fn tokens_model(v: Seq<Token>) -> Seq<TokenModel> {
    v.map_values(|t: Token| t@)
}

/// An error found while lexing.
#[derive(Debug)]
pub enum LexError {
    UnexpectedToken(TokenKind, TokenLocation),
    ExpectedToken(TokenKind, TokenLocation),
}

pub enum LexErrorModel {
    UnexpectedToken(TokenKind, LocModel),
    ExpectedToken(TokenKind, LocModel),
}

impl View for LexError {
    type V = LexErrorModel;

    open spec fn view(&self) -> LexErrorModel {
        match self {
            LexError::UnexpectedToken(k, l) => LexErrorModel::UnexpectedToken(*k, l@),
            LexError::ExpectedToken(k, l) => LexErrorModel::ExpectedToken(*k, l@),
        }
    }
}

/// The message for a lexing error: where it happened, and what was expected and found.
pub open spec fn lex_error_text(e: LexErrorModel) -> Seq<char> {
    match e {
        LexErrorModel::UnexpectedToken(_, loc) => "Unexpected token '"@ + loc.span + "' at line "@ + decimal(loc.line)
            + " col "@ + decimal(loc.col) + "."@,
        LexErrorModel::ExpectedToken(kind, loc) => "Expected token '"@ + display_spec(kind) + "' at line "@ + decimal(
            loc.line,
        ) + " col "@ + decimal(loc.col) + ", got '"@ + loc.span + "'."@,
    }
}

impl LexError {
    /// The message for this error.
    pub fn describe(&self) -> (r: String)
        ensures
            r@ == lex_error_text(self@),
    {
        let mut s = String::new();
        match self {
            LexError::UnexpectedToken(_, loc) => {
                s.append("Unexpected token '");
                append_chars(&mut s, &loc.span);
                s.append("' at line ");
                append_decimal(&mut s, loc.line);
                s.append(" col ");
                append_decimal(&mut s, loc.col);
                s.append(".");
            },
            LexError::ExpectedToken(kind, loc) => {
                s.append("Expected token '");
                let shown = kind.display();
                s.append(shown.as_str());
                s.append("' at line ");
                append_decimal(&mut s, loc.line);
                s.append(" col ");
                append_decimal(&mut s, loc.col);
                s.append(", got '");
                append_chars(&mut s, &loc.span);
                s.append("'.");
            },
        }
        assert(s@ =~= lex_error_text(self@));
        s
    }
}

/// The token kind of a one-character operator, if `c` is one.
pub open spec fn op_kind(c: char) -> Option<TokenKind> {
    if c == '+' { Some(TokenKind::Inc) }
    else if c == '-' { Some(TokenKind::Dec) }
    else if c == '*' { Some(TokenKind::Mul) }
    else if c == '/' { Some(TokenKind::Div) }
    else if c == '>' { Some(TokenKind::MovR) }
    else if c == '<' { Some(TokenKind::MovL) }
    else if c == '.' { Some(TokenKind::Print) }
    else if c == '{' { Some(TokenKind::StartLoop) }
    else if c == '}' { Some(TokenKind::EndLoop) }
    else if c == '[' { Some(TokenKind::StartDefine) }
    else if c == ']' { Some(TokenKind::EndDefine) }
    else if c == '(' { Some(TokenKind::LParen) }
    else if c == ')' { Some(TokenKind::RParen) }
    else if c == '?' { Some(TokenKind::Question) }
    else if c == '@' { Some(TokenKind::Goto) }
    else if c == '$' { Some(TokenKind::Save) }
    else if c == '&' { Some(TokenKind::PrintAscii) }
    else if c == '=' { Some(TokenKind::CopyTo) }
    else if c == '%' { Some(TokenKind::Modulo) }
    else if c == ':' { Some(TokenKind::FuncDef) }
    else if c == '^' { Some(TokenKind::FuncCall) }
    else if c == '_' { Some(TokenKind::Newline) }
    else if c == ';' { Some(TokenKind::Eos) }
    else if c == '~' { Some(TokenKind::Tilde) }
    else { None }
}

/// The character an operator kind is written with; `None` for tables and numbers.
pub open spec fn op_char(k: TokenKind) -> Option<char> {
    match k {
        TokenKind::Table(_) => None,
        TokenKind::Number(_) => None,
        TokenKind::Inc => Some('+'),
        TokenKind::Dec => Some('-'),
        TokenKind::Mul => Some('*'),
        TokenKind::Div => Some('/'),
        TokenKind::MovR => Some('>'),
        TokenKind::MovL => Some('<'),
        TokenKind::Print => Some('.'),
        TokenKind::StartLoop => Some('{'),
        TokenKind::EndLoop => Some('}'),
        TokenKind::StartDefine => Some('['),
        TokenKind::EndDefine => Some(']'),
        TokenKind::LParen => Some('('),
        TokenKind::RParen => Some(')'),
        TokenKind::Question => Some('?'),
        TokenKind::Goto => Some('@'),
        TokenKind::Save => Some('$'),
        TokenKind::PrintAscii => Some('&'),
        TokenKind::CopyTo => Some('='),
        TokenKind::Modulo => Some('%'),
        TokenKind::FuncDef => Some(':'),
        TokenKind::FuncCall => Some('^'),
        TokenKind::Newline => Some('_'),
        TokenKind::Eos => Some(';'),
        TokenKind::Tilde => Some('~'),
    }
}

pub open spec fn is_digit(c: char) -> bool {
    '0' <= c && c <= '9'
}

pub open spec fn digit_value(c: char) -> nat {
    (c as int - '0' as int) as nat
}

/// The number that a sequence of decimal digits denotes.
pub open spec fn digits_value(ds: Seq<char>) -> nat
    decreases ds.len(),
{
    if ds.len() == 0 {
        0
    } else {
        digits_value(ds.drop_last()) * 10 + digit_value(ds.last())
    }
}

/// How many decimal digits follow one another in `s` from index `i`.
pub open spec fn run_len(s: Seq<char>, i: int) -> nat
    decreases s.len() - i,
{
    if 0 <= i < s.len() && is_digit(s[i]) {
        1 + run_len(s, i + 1)
    } else {
        0
    }
}

/// A number literal's value; one that does not fit in `usize` reads as 0.
pub open spec fn number_literal(v: nat) -> usize {
    if v <= usize::MAX { v as usize } else { 0 }
}

/// A declared table size; one that does not fit in `usize` gives the default size.
pub open spec fn size_literal(v: nat) -> usize {
    if v <= usize::MAX { v as usize } else { DEFAULT_TABLE_SIZE }
}

/// The line after reading `c` on line `line`.
pub open spec fn next_line(c: char, line: nat) -> nat {
    if c == '\n' { line + 1 } else { line }
}

/// The column after reading `c` at column `col`.
pub open spec fn next_col(c: char, col: nat) -> nat {
    if c == '\n' { 0 } else { col + 1 }
}

pub open spec fn loc_model(line: nat, col: nat, span: Seq<char>) -> LocModel {
    LocModel { line, col, len: span.len(), span }
}

/// Whether `s[i]` is a digit that starts a number (its left neighbour is no digit).
pub open spec fn starts_number(s: Seq<char>, i: int) -> bool {
    is_digit(s[i]) && (i == 0 || !is_digit(s[i - 1]))
}

/// The tokens that the text `s` holds from index `i` on, where (`line`, `col`) is
/// the position before `s[i]`. A token's column is the one after its first character.
/// Characters that are neither operators nor digits are skipped.
pub open spec fn scan(s: Seq<char>, i: int, line: nat, col: nat) -> Seq<TokenModel>
    decreases s.len() - i,
{
    if i < 0 || i >= s.len() {
        seq![]
    } else {
        let c = s[i];
        let rest = scan(s, i + 1, next_line(c, line), next_col(c, col));
        if starts_number(s, i) {
            let digits = s.subrange(i, i + run_len(s, i));
            let value = number_literal(digits_value(digits));
            seq![TokenModel { kind: TokenKind::Number(value), loc: loc_model(line, col + 1, digits) }]
                + rest
        } else if op_kind(c) is Some {
            seq![TokenModel { kind: op_kind(c)->0, loc: loc_model(line, col + 1, seq![c]) }] + rest
        } else {
            rest
        }
    }
}

/// The leading table token, declaring `size` and read from the first `n` characters.
pub open spec fn table_token(s: Seq<char>, size: usize, n: int) -> TokenModel {
    TokenModel { kind: TokenKind::Table(size), loc: loc_model(1, 1, s.subrange(0, n)) }
}

/// What lexing the text `s` gives. A leading `[digits]` declares the table size,
/// else the size is the default; the table token always comes first.
pub open spec fn lex_spec(s: Seq<char>) -> Result<Seq<TokenModel>, LexErrorModel> {
    if s.len() == 0 || s[0] != '[' {
        Ok(seq![table_token(s, DEFAULT_TABLE_SIZE, 0)] + scan(s, 0, 1, 1))
    } else if s.len() == 1 {
        Ok(seq![table_token(s, DEFAULT_TABLE_SIZE, 1)])
    } else if !is_digit(s[1]) {
        Err(
            LexErrorModel::UnexpectedToken(
                TokenKind::Eos,
                loc_model(next_line(s[1], 1), next_col(s[1], 2), seq![s[1]]),
            ),
        )
    } else {
        let j = 1 + run_len(s, 1) as int;
        if j >= s.len() {
            Err(LexErrorModel::ExpectedToken(TokenKind::EndDefine, loc_model(1, (j + 1) as nat, seq![])))
        } else if s[j] != ']' {
            Err(
                LexErrorModel::ExpectedToken(
                    TokenKind::EndDefine,
                    loc_model(next_line(s[j], 1), next_col(s[j], (j + 1) as nat), seq![s[j]]),
                ),
            )
        } else {
            let size = size_literal(digits_value(s.subrange(1, j)));
            Ok(seq![table_token(s, size, j + 1)] + scan(s, j + 1, 1, (j + 2) as nat))
        }
    }
}

/// Every operator token that `scan` yields displays as the text it was read from.
proof fn lemma_scan_displays_span(s: Seq<char>, i: int, line: nat, col: nat)
    ensures
        forall|k: int|
            0 <= k < scan(s, i, line, col).len() && op_char(#[trigger] scan(s, i, line, col)[k].kind) is Some
                ==> display_spec(scan(s, i, line, col)[k].kind) == scan(s, i, line, col)[k].loc.span,
    decreases s.len() - i,
{
    if 0 <= i < s.len() {
        let c = s[i];
        lemma_scan_displays_span(s, i + 1, next_line(c, line), next_col(c, col));
    }
}

/// Lexing, then displaying each operator token, gives back the operator
/// character that the token was read from.
pub proof fn lemma_display_round_trip(s: Seq<char>)
    requires
        lex_spec(s) is Ok,
    ensures
        forall|k: int|
            0 <= k < lex_spec(s)->Ok_0.len() && op_char(#[trigger] lex_spec(s)->Ok_0[k].kind) is Some
                ==> display_spec(lex_spec(s)->Ok_0[k].kind) == lex_spec(s)->Ok_0[k].loc.span
                && lex_spec(s)->Ok_0[k].loc.span == seq![op_char(lex_spec(s)->Ok_0[k].kind)->0],
{
    if s.len() == 0 || s[0] != '[' {
        lemma_scan_displays_span(s, 0, 1, 1);
    } else if s.len() > 1 {
        let j = 1 + run_len(s, 1) as int;
        lemma_scan_displays_span(s, j + 1, 1, (j + 2) as nat);
    }
    let toks = lex_spec(s)->Ok_0;
    assert forall|k: int| 0 <= k < toks.len() && op_char(#[trigger] toks[k].kind) is Some implies display_spec(
        toks[k].kind,
    ) == toks[k].loc.span && toks[k].loc.span == seq![op_char(toks[k].kind)->0] by {
        if k > 0 {
            assert(toks[k] == toks.drop_first()[k - 1]);
        }
    }
}

/// Collects the characters of `text`, in order.
pub fn chars_of(text: &str) -> (r: Vec<char>)
    ensures
        r@ == text@,
{
    broadcast use vstd::string::axiom_spec_iter;

    let mut out: Vec<char> = Vec::new();
    let mut iter = text.chars();
    loop
        invariant
            iter.obeys_prophetic_iter_laws(),
            out@ + iter.remaining() == text@,
        ensures
            out@ == text@,
        decreases text@.len() - out@.len(),
    {
        match iter.next() {
            Some(c) => {
                out.push(c);
            },
            None => {
                assert(out@ + iter.remaining() =~= out@);
                break ;
            },
        }
    }
    out
}

/// Copies `text[start..end]`.
fn copy_span(text: &Vec<char>, start: usize, end: usize) -> (r: Vec<char>)
    requires
        start <= end <= text.len(),
    ensures
        r@ == text@.subrange(start as int, end as int),
{
    let mut out: Vec<char> = Vec::new();
    let mut i: usize = start;
    while i < end
        invariant
            start <= i <= end <= text.len(),
            out@ == text@.subrange(start as int, i as int),
        decreases end - i,
    {
        out.push(text[i]);
        i += 1;
        assert(out@ =~= text@.subrange(start as int, i as int));
    }
    out
}

impl TokenLocation {
    /// The location at `line`/`col` of the characters `text[start..end]`.
    pub fn new(text: &Vec<char>, line: usize, col: usize, start: usize, end: usize) -> (r: TokenLocation)
        requires
            start <= end <= text.len(),
        ensures
            r@ == loc_model(line as nat, col as nat, text@.subrange(start as int, end as int)),
    {
        TokenLocation { line, col, len: end - start, span: copy_span(text, start, end) }
    }

    /// A copy of this location.
    pub fn duplicate(&self) -> (r: TokenLocation)
        ensures
            r@ == self@,
    {
        let span = copy_span(&self.span, 0, self.span.len());
        assert(self.span@.subrange(0, self.span@.len() as int) =~= self.span@);
        TokenLocation { line: self.line, col: self.col, len: self.len, span }
    }
}

impl Token {
    pub fn new(kind: TokenKind, loc: TokenLocation) -> (r: Token)
        ensures
            r.kind == kind,
            r.loc@ == loc@,
    {
        Token { kind, loc }
    }

    /// A copy of this token.
    pub fn duplicate(&self) -> (r: Token)
        ensures
            r@ == self@,
    {
        Token { kind: self.kind, loc: self.loc.duplicate() }
    }
}

/// A value that fits in `usize`, or `None`.
pub open spec fn fits(v: nat) -> Option<usize> {
    if v <= usize::MAX { Some(v as usize) } else { None }
}

proof fn lemma_digits_push(ds: Seq<char>, c: char)
    ensures
        digits_value(ds.push(c)) == digits_value(ds) * 10 + digit_value(c),
{
    assert(ds.push(c).drop_last() =~= ds);
}

/// The value of the decimal digit `c`.
fn digit_of(c: char) -> (r: usize)
    requires
        is_digit(c),
    ensures
        r == digit_value(c),
{
    (c as u32 - '0' as u32) as usize
}

fn is_digit_char(c: char) -> (r: bool)
    ensures
        r == is_digit(c),
{
    '0' <= c && c <= '9'
}

/// Appends the digit `c` to a number that is being read, `None` once it overflowed.
fn push_digit(acc: Option<usize>, c: char, Ghost(ds): Ghost<Seq<char>>) -> (r: Option<usize>)
    requires
        is_digit(c),
        acc == fits(digits_value(ds)),
    ensures
        r == fits(digits_value(ds.push(c))),
{
    proof {
        lemma_digits_push(ds, c);
    }
    let d = digit_of(c);
    match acc {
        None => None,
        Some(a) => match a.checked_mul(10) {
            None => None,
            Some(m) => m.checked_add(d),
        },
    }
}

/// The token kind of the operator `c`, if it is one.
fn op_kind_of(c: char) -> (r: Option<TokenKind>)
    ensures
        r == op_kind(c),
{
    match c {
        '+' => Some(TokenKind::Inc),
        '-' => Some(TokenKind::Dec),
        '*' => Some(TokenKind::Mul),
        '/' => Some(TokenKind::Div),
        '>' => Some(TokenKind::MovR),
        '<' => Some(TokenKind::MovL),
        '.' => Some(TokenKind::Print),
        '{' => Some(TokenKind::StartLoop),
        '}' => Some(TokenKind::EndLoop),
        '[' => Some(TokenKind::StartDefine),
        ']' => Some(TokenKind::EndDefine),
        '(' => Some(TokenKind::LParen),
        ')' => Some(TokenKind::RParen),
        '?' => Some(TokenKind::Question),
        '@' => Some(TokenKind::Goto),
        '$' => Some(TokenKind::Save),
        '&' => Some(TokenKind::PrintAscii),
        '=' => Some(TokenKind::CopyTo),
        '%' => Some(TokenKind::Modulo),
        ':' => Some(TokenKind::FuncDef),
        '^' => Some(TokenKind::FuncCall),
        '_' => Some(TokenKind::Newline),
        ';' => Some(TokenKind::Eos),
        '~' => Some(TokenKind::Tilde),
        _ => None,
    }
}

/// Whether a lexing outcome is the one that `lex_spec` describes.
pub open spec fn lex_matches(r: Result<TokenStream, LexError>, s: Seq<char>) -> bool {
    match (r, lex_spec(s)) {
        (Ok(ts), Ok(toks)) => tokens_model(ts.tokens@) == toks && ts.position() == 0,
        (Err(e), Err(em)) => e@ == em,
        _ => false,
    }
}

/// The tokens of a text, read one at a time.
pub struct TokenStream {
    pub tokens: Vec<Token>,
    pub curr: usize,
}

impl TokenStream {
    /// How many tokens were read.
    pub open spec fn position(&self) -> int {
        self.curr as int
    }

    pub fn new(tokens: Vec<Token>) -> (r: TokenStream)
        ensures
            r.tokens@ == tokens@,
            r.position() == 0,
    {
        TokenStream { tokens, curr: 0 }
    }

    /// The token after the last one read, if any, without reading it.
    pub fn peek(&self) -> (r: Option<&Token>)
        ensures
            0 <= self.position(),
            match r {
                Some(t) => self.position() < self.tokens.len() && *t == self.tokens@[self.position()],
                None => self.position() >= self.tokens.len(),
            },
    {
        if self.curr < self.tokens.len() {
            Some(&self.tokens[self.curr])
        } else {
            None
        }
    }

    /// Reads the next token, if any.
    pub fn next(&mut self) -> (r: Option<Token>)
        ensures
            final(self).tokens@ == old(self).tokens@,
            0 <= old(self).position(),
            match r {
                Some(t) => {
                    &&& old(self).position() < old(self).tokens.len()
                    &&& t@ == old(self).tokens@[old(self).position()]@
                    &&& final(self).position() == old(self).position() + 1
                },
                None => {
                    &&& old(self).position() >= old(self).tokens.len()
                    &&& final(self).position() == old(self).position()
                },
            },
    {
        if self.curr >= self.tokens.len() {
            None
        } else {
            let t = self.tokens[self.curr].duplicate();
            self.curr += 1;
            Some(t)
        }
    }
}

/// Turns program text into tokens.
pub struct Lexer {
    pub text: Vec<char>,
    pub line: usize,
    pub col: usize,
    pub curr_char: usize,
}

impl Lexer {
    /// The text being lexed.
    pub open spec fn source(&self) -> Seq<char> {
        self.text@
    }

    /// The position is within the text, and line and column are no further on than it.
    pub open spec fn at_most_after(&self) -> bool {
        &&& self.curr_char <= self.text.len() < usize::MAX
        &&& self.line <= self.curr_char + 1
        &&& self.col <= self.curr_char + 1
    }

    pub fn new(text: String) -> (r: Lexer)
        ensures
            r.source() == text@,
            r.line == 1,
            r.col == 1,
            r.curr_char == 0,
    {
        Lexer { text: chars_of(text.as_str()), line: 1, col: 1, curr_char: 0 }
    }

    pub fn peek(&self) -> (r: Option<char>)
        ensures
            r == if self.curr_char < self.text.len() {
                Some(self.text@[self.curr_char as int])
            } else {
                None::<char>
            },
    {
        if self.curr_char < self.text.len() {
            Some(self.text[self.curr_char])
        } else {
            None
        }
    }

    pub fn next(&mut self) -> (r: Option<char>)
        requires
            old(self).at_most_after(),
        ensures
            final(self).text == old(self).text,
            final(self).at_most_after(),
            old(self).curr_char < old(self).text.len() ==> {
                let c = old(self).text@[old(self).curr_char as int];
                &&& r == Some(c)
                &&& final(self).curr_char == old(self).curr_char + 1
                &&& final(self).line == next_line(c, old(self).line as nat)
                &&& final(self).col == next_col(c, old(self).col as nat)
            },
            old(self).curr_char >= old(self).text.len() ==> r is None && *final(self) == *old(self),
    {
        if self.curr_char < self.text.len() {
            let chr = self.text[self.curr_char];
            self.curr_char += 1;
            if chr == '\n' {
                self.line += 1;
                self.col = 0;
            } else {
                self.col += 1;
            }
            Some(chr)
        } else {
            None
        }
    }

    /// A token of `kind` for the character just read.
    pub fn emit(&self, kind: TokenKind) -> (r: Token)
        requires
            1 <= self.curr_char <= self.text.len(),
        ensures
            r@ == (TokenModel {
                kind,
                loc: loc_model(
                    self.line as nat,
                    self.col as nat,
                    self.text@.subrange(self.curr_char - 1, self.curr_char as int),
                ),
            }),
    {
        Token { kind, loc: TokenLocation::new(&self.text, self.line, self.col, self.curr_char - 1, self.curr_char) }
    }

    /// A token of `kind` for the characters `from..to`, at column `col`.
    pub fn emit_large(&self, kind: TokenKind, col: usize, from: usize, to: usize) -> (r: Token)
        requires
            from <= to <= self.text.len(),
        ensures
            r@ == (TokenModel {
                kind,
                loc: loc_model(self.line as nat, col as nat, self.text@.subrange(from as int, to as int)),
            }),
    {
        Token { kind, loc: TokenLocation::new(&self.text, self.line, col, from, to) }
    }

    /// Lexes the whole text: a table token first, then the tokens of the body.
    pub fn lex(&mut self) -> (r: Result<TokenStream, LexError>)
        requires
            old(self).source().len() < usize::MAX,
        ensures
            final(self).source() == old(self).source(),
            lex_matches(r, old(self).source()),
    {
        self.line = 1;
        self.col = 1;
        self.curr_char = 0;
        let ghost s = self.text@;
        let mut tokens: Vec<Token> = Vec::new();
        let mut table_size: usize = DEFAULT_TABLE_SIZE;
        let mut at_bracket = false;
        if let Some(first) = self.peek() {
            at_bracket = first == '[';
        }
        if at_bracket {
            self.next();
            if let Some(c2) = self.next() {
                if !is_digit_char(c2) {
                    assert(s.subrange(1, 2) =~= seq![c2]);
                    let loc = TokenLocation::new(&self.text, self.line, self.col, 1, 2);
                    return Err(LexError::UnexpectedToken(TokenKind::Eos, loc));
                }
                let mut value: Option<usize> = push_digit(Some(0), c2, Ghost(Seq::<char>::empty()));
                assert(seq![c2] =~= Seq::<char>::empty().push(c2));
                assert(s.subrange(1, 2) =~= seq![c2]);
                loop
                    invariant_except_break
                        run_len(s, 1) == (self.curr_char - 1) + run_len(s, self.curr_char as int),
                        value == fits(digits_value(s.subrange(1, self.curr_char as int))),
                    invariant
                        s == self.text@,
                        s == old(self).source(),
                        self.at_most_after(),
                        2 <= self.curr_char <= s.len(),
                        s[0] == '[',
                        is_digit(s[1]),
                        self.line == 1,
                        self.col == self.curr_char + 1,
                        tokens@.len() == 0,
                    ensures
                        s == self.text@,
                        self.at_most_after(),
                        self.curr_char == 2 + run_len(s, 1) as int,
                        self.curr_char <= s.len(),
                        s[self.curr_char - 1] == ']',
                        self.line == 1,
                        self.col == self.curr_char + 1,
                        value == fits(digits_value(s.subrange(1, self.curr_char - 1))),
                        tokens@.len() == 0,
                    decreases s.len() - self.curr_char,
                {
                    let k = self.curr_char;
                    match self.next() {
                        None => {
                            assert(s.subrange(k as int, k as int) =~= Seq::<char>::empty());
                            let loc = TokenLocation::new(&self.text, self.line, self.col, k, k);
                            return Err(LexError::ExpectedToken(TokenKind::EndDefine, loc));
                        },
                        Some(c) => {
                            if is_digit_char(c) {
                                assert(s.subrange(1, k as int + 1) =~= s.subrange(1, k as int).push(c));
                                value = push_digit(value, c, Ghost(s.subrange(1, k as int)));
                            } else if c == ']' {
                                break ;
                            } else {
                                assert(s.subrange(k as int, k + 1) =~= seq![c]);
                                let loc = TokenLocation::new(&self.text, self.line, self.col, k, k + 1);
                                return Err(LexError::ExpectedToken(TokenKind::EndDefine, loc));
                            }
                        },
                    }
                }
                table_size = match value {
                    Some(v) => v,
                    None => DEFAULT_TABLE_SIZE,
                };
            }
        }
        let n = self.curr_char;
        tokens.push(Token { kind: TokenKind::Table(table_size), loc: TokenLocation::new(&self.text, 1, 1, 0, n) });
        let ghost body = scan(s, n as int, 1, (n + 1) as nat);
        assert(lex_spec(s) == Ok::<Seq<TokenModel>, LexErrorModel>(seq![tokens@[0]@] + body));
        assert(tokens_model(tokens@) =~= seq![tokens@[0]@]);
        loop
            invariant
                s == self.text@,
                self.at_most_after(),
                self.curr_char <= s.len(),
                lex_spec(s) == Ok::<Seq<TokenModel>, LexErrorModel>(
                    tokens_model(tokens@) + scan(s, self.curr_char as int, self.line as nat, self.col as nat),
                ),
                self.curr_char < s.len() && is_digit(s[self.curr_char as int]) ==> starts_number(
                    s,
                    self.curr_char as int,
                ),
            ensures
                lex_spec(s) == Ok::<Seq<TokenModel>, LexErrorModel>(tokens_model(tokens@)),
                s == self.text@,
            decreases s.len() - self.curr_char,
        {
            let k = self.curr_char;
            let ghost line0 = self.line as nat;
            let ghost col0 = self.col as nat;
            let ghost before = tokens_model(tokens@);
            match self.next() {
                None => {
                    assert(scan(s, self.curr_char as int, self.line as nat, self.col as nat) =~= seq![]);
                    assert(tokens_model(tokens@) + seq![] =~= tokens_model(tokens@));
                    break ;
                },
                Some(c) => {
                    if is_digit_char(c) {
                        let start_col = self.col;
                        let mut value: Option<usize> = push_digit(Some(0), c, Ghost(Seq::<char>::empty()));
                        assert(seq![c] =~= Seq::<char>::empty().push(c));
                        assert(s.subrange(k as int, k + 1) =~= seq![c]);
                        loop
                            invariant
                                s == self.text@,
                                self.at_most_after(),
                                k < self.curr_char <= s.len(),
                                self.line == line0,
                                start_col == col0 + 1,
                                self.col == col0 + (self.curr_char - k),
                                c != '\n',
                                run_len(s, k as int) == (self.curr_char - k) + run_len(
                                    s,
                                    self.curr_char as int,
                                ),
                                scan(s, k + 1, line0, col0 + 1) == scan(
                                    s,
                                    self.curr_char as int,
                                    self.line as nat,
                                    self.col as nat,
                                ),
                                forall|m: int| k <= m < self.curr_char ==> is_digit(#[trigger] s[m]),
                                value == fits(digits_value(s.subrange(k as int, self.curr_char as int))),
                            ensures
                                s == self.text@,
                                self.at_most_after(),
                                k < self.curr_char <= s.len(),
                                self.line == line0,
                                start_col == col0 + 1,
                                self.col == col0 + (self.curr_char - k),
                                c != '\n',
                                run_len(s, k as int) == (self.curr_char - k) + run_len(
                                    s,
                                    self.curr_char as int,
                                ),
                                scan(s, k + 1, line0, col0 + 1) == scan(
                                    s,
                                    self.curr_char as int,
                                    self.line as nat,
                                    self.col as nat,
                                ),
                                forall|m: int| k <= m < self.curr_char ==> is_digit(#[trigger] s[m]),
                                value == fits(digits_value(s.subrange(k as int, self.curr_char as int))),
                                self.curr_char == s.len() || !is_digit(s[self.curr_char as int]),
                            decreases s.len() - self.curr_char,
                        {
                            let m = self.curr_char;
                            match self.peek() {
                                None => {
                                    break ;
                                },
                                Some(d) => {
                                    if !is_digit_char(d) {
                                        break ;
                                    }
                                    assert(s.subrange(k as int, m + 1) =~= s.subrange(k as int, m as int).push(d));
                                    assert(!starts_number(s, m as int));
                                    self.next();
                                    value = push_digit(value, d, Ghost(s.subrange(k as int, m as int)));
                                },
                            }
                        }
                        let number = match value {
                            Some(v) => v,
                            None => 0,
                        };
                        let tok = self.emit_large(TokenKind::Number(number), start_col, k, self.curr_char);
                        tokens.push(tok);
                        assert(tokens_model(tokens@) =~= before.push(tok@));
                        assert(scan(s, k as int, line0, col0) == seq![tok@] + scan(s, k + 1, line0, col0 + 1));
                        assert(before.push(tok@) + scan(s, self.curr_char as int, self.line as nat, self.col as nat)
                            =~= before + (seq![tok@] + scan(s, self.curr_char as int, self.line as nat, self.col as nat)));
                    } else {
                        match op_kind_of(c) {
                            Some(kind) => {
                                let tok = self.emit(kind);
                                tokens.push(tok);
                                assert(s.subrange(k as int, k + 1) =~= seq![c]);
                                assert(tokens_model(tokens@) =~= before.push(tok@));
                                let ghost rest = scan(s, self.curr_char as int, self.line as nat, self.col as nat);
                                assert(scan(s, k as int, line0, col0) == seq![tok@] + rest);
                                assert(before.push(tok@) + rest =~= before + (seq![tok@] + rest));
                            },
                            None => {
                                assert(tokens_model(tokens@) =~= before);
                            },
                        }
                    }
                },
            }
        }
        Ok(TokenStream { tokens, curr: 0 })
    }
}

} // verus!
