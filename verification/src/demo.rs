//! The example derive macro `Demo`, as written to be compiled to Wasm: it
//! gives the type that it is attached to an associated constant `MESSAGE`
//! that greets by the type's name.
//!
//! The expansion is built in the library's own token model ([`Token`]),
//! where [`expansion_tokens`] states it exactly, and then turned into a
//! `proc_macro2` token stream, whose tokens are named by [`stream_tokens`].
use proc_macro2::TokenStream;
use vstd::prelude::*;

verus! {

#[verifier::external_type_specification]
#[verifier::external_body]
pub struct ExTokenStream(proc_macro2::TokenStream);

/// Whether a punctuation token joins the one after it.
#[derive(Clone, Copy, Debug, PartialEq, Eq, Structural)]
pub enum Spacing {
    Alone,
    Joint,
}

/// The delimiters around a group of tokens; `Invisible` stands for the
/// groups without delimiters that macro expansion makes.
#[derive(Clone, Copy, Debug, PartialEq, Eq, Structural)]
pub enum Delimiter {
    Parenthesis,
    Brace,
    Bracket,
    Invisible,
}

/// A token of an expansion.
#[derive(Debug)]
pub enum Token {
    /// An identifier or keyword.
    Ident(String),
    /// A punctuation character.
    Punct(char, Spacing),
    /// A string literal with the given contents.
    Str(String),
    /// Tokens between delimiters.
    Group(Delimiter, Vec<Token>),
}

/// A token as plain values, without its span: an identifier or keyword by
/// its text, a punctuation character with its spacing, a string literal by
/// its contents, any other literal by its text, a group by its delimiters
/// and the tokens inside it.
pub enum TokenView {
    Ident(Seq<char>),
    Punct(char, Spacing),
    Str(Seq<char>),
    Literal(Seq<char>),
    Group(Delimiter, Seq<TokenView>),
}

/// The plain value that a token stands for.
pub open spec fn token_view(token: Token) -> TokenView
    decreases token,
{
    match token {
        Token::Ident(text) => TokenView::Ident(text@),
        Token::Punct(ch, spacing) => TokenView::Punct(ch, spacing),
        Token::Str(contents) => TokenView::Str(contents@),
        Token::Group(delimiter, inner) => TokenView::Group(
            delimiter,
            Seq::new(
                inner@.len(),
                |i: int|
                    if 0 <= i < inner@.len() {
                        token_view(inner@[i])
                    } else {
                        TokenView::Str(Seq::empty())
                    },
            ),
        ),
    }
}

impl View for Token {
    type V = TokenView;

    open spec fn view(&self) -> TokenView {
        token_view(*self)
    }
}

/// A non-empty run of ASCII letters: every such text is an identifier or
/// a keyword, which `proc_macro2::Ident::new` accepts.
pub open spec fn is_plain_ident(text: Seq<char>) -> bool {
    &&& text.len() > 0
    &&& forall|i: int|
        0 <= i < text.len() ==> ('a' <= #[trigger] text[i] <= 'z' || 'A' <= text[i] <= 'Z')
}

/// The punctuation characters that `proc_macro2::Punct::new` accepts.
pub open spec fn is_punct_char(ch: char) -> bool {
    ch == '!' || ch == '#' || ch == '$' || ch == '%' || ch == '&' || ch == '\'' || ch == '*'
        || ch == '+' || ch == ',' || ch == '-' || ch == '.' || ch == '/' || ch == ':' || ch == ';'
        || ch == '<' || ch == '=' || ch == '>' || ch == '?' || ch == '@' || ch == '^' || ch == '|'
        || ch == '~'
}

/// A token that can be turned into `proc_macro2` tokens without a panic.
pub open spec fn is_valid_token(token: TokenView) -> bool
    decreases token,
{
    match token {
        TokenView::Ident(text) => is_plain_ident(text),
        TokenView::Punct(ch, _) => is_punct_char(ch),
        TokenView::Str(_) => true,
        TokenView::Literal(_) => false,
        TokenView::Group(_, inner) => forall|i: int|
            0 <= i < inner.len() ==> is_valid_token(#[trigger] inner[i]),
    }
}

/// The greeting that the expansion stores for a type named `name`.
pub open spec fn greeting(name: Seq<char>) -> Seq<char> {
    "Hello from WASM! My name is "@ + name + "."@
}

/// The body of the expanded impl block:
/// `pub const MESSAGE: &'static str = "<message>";`
pub open spec fn message_const(message: Seq<char>) -> Seq<TokenView> {
    seq![
        TokenView::Ident("pub"@),
        TokenView::Ident("const"@),
        TokenView::Ident("MESSAGE"@),
        TokenView::Punct(':', Spacing::Alone),
        TokenView::Punct('&', Spacing::Alone),
        TokenView::Punct('\'', Spacing::Joint),
        TokenView::Ident("static"@),
        TokenView::Ident("str"@),
        TokenView::Punct('=', Spacing::Alone),
        TokenView::Str(message),
        TokenView::Punct(';', Spacing::Alone),
    ]
}

/// The whole expansion for a type named `name`:
/// `impl <name> { pub const MESSAGE: &'static str = "<greeting>"; }`
pub open spec fn expansion(name: Seq<char>) -> Seq<TokenView> {
    seq![
        TokenView::Ident("impl"@),
        TokenView::Ident(name),
        TokenView::Group(Delimiter::Brace, message_const(greeting(name))),
    ]
}

/// The greeting for a type named `name`: "Hello from WASM! My name is
/// <name>."
pub fn greeting_for(name: &str) -> (message: String)
    ensures
        message@ == greeting(name@),
{
    let mut message = String::from_str("Hello from WASM! My name is ");
    message.append(name);
    message.append(".");
    message
}

/// The tokens of `pub const MESSAGE: &'static str = "<message>";`, the
/// body of the expanded impl block.
pub fn message_const_tokens(message: &str) -> (tokens: Vec<Token>)
    ensures
        tokens@.map_values(|t: Token| t@) == message_const(message@),
{
    let mut tokens: Vec<Token> = Vec::new();
    tokens.push(Token::Ident(String::from_str("pub")));
    tokens.push(Token::Ident(String::from_str("const")));
    tokens.push(Token::Ident(String::from_str("MESSAGE")));
    tokens.push(Token::Punct(':', Spacing::Alone));
    tokens.push(Token::Punct('&', Spacing::Alone));
    tokens.push(Token::Punct('\'', Spacing::Joint));
    tokens.push(Token::Ident(String::from_str("static")));
    tokens.push(Token::Ident(String::from_str("str")));
    tokens.push(Token::Punct('=', Spacing::Alone));
    tokens.push(Token::Str(String::from_str(message)));
    tokens.push(Token::Punct(';', Spacing::Alone));
    assert(tokens@.map_values(|t: Token| t@) =~= message_const(message@));
    tokens
}

/// The tokens of the expansion for a type named `name`:
/// `impl <name> { pub const MESSAGE: &'static str = "Hello from WASM! My name is <name>."; }`
pub fn expansion_tokens(name: &str) -> (tokens: Vec<Token>)
    ensures
        tokens@.map_values(|t: Token| t@) == expansion(name@),
{
    let message = greeting_for(name);
    let body = message_const_tokens(message.as_str());
    let ghost body_view = body@.map_values(|t: Token| t@);
    let mut tokens: Vec<Token> = Vec::new();
    tokens.push(Token::Ident(String::from_str("impl")));
    tokens.push(Token::Ident(String::from_str(name)));
    tokens.push(Token::Group(Delimiter::Brace, body));
    assert(tokens@[2]@ == TokenView::Group(Delimiter::Brace, body_view)) by {
        assert(token_view(tokens@[2])->Group_1 =~= body_view);
    }
    assert(tokens@.map_values(|t: Token| t@) =~= expansion(name@));
    tokens
}

/// Every token of the impl body can be turned into `proc_macro2` tokens.
pub proof fn lemma_message_const_is_valid(message: Seq<char>)
    ensures
        forall|i: int|
            0 <= i < message_const(message).len() ==> is_valid_token(
                #[trigger] message_const(message)[i],
            ),
{
    reveal_strlit("pub");
    reveal_strlit("const");
    reveal_strlit("MESSAGE");
    reveal_strlit("static");
    reveal_strlit("str");
    assert forall|i: int| 0 <= i < message_const(message).len() implies is_valid_token(
        #[trigger] message_const(message)[i],
    ) by {
        if i == 0 || i == 1 || i == 2 || i == 6 || i == 7 {
            assert(is_plain_ident(message_const(message)[i]->Ident_0));
        }
    }
}

/// Every token of the expansion but the type's name can be turned into
/// `proc_macro2` tokens; the name stands for the identifier that was parsed.
pub proof fn lemma_expansion_is_valid(name: Seq<char>)
    ensures
        is_valid_token(expansion(name)[0]),
        is_valid_token(expansion(name)[2]),
{
    reveal_strlit("impl");
    lemma_message_const_is_valid(greeting(name));
    assert(is_plain_ident(expansion(name)[0]->Ident_0));
}


/// The tokens that a `proc_macro2::TokenStream` holds, in order, each
/// without its span.
pub uninterp spec fn stream_tokens(stream: TokenStream) -> Seq<TokenView>;

/// What `syn::parse2::<syn::DeriveInput>` makes of the tokens `input`: the
/// text of the parsed item's identifier, or the tokens of the error that
/// `syn::Error::to_compile_error` renders.
pub uninterp spec fn parsed_derive_input(input: Seq<TokenView>) -> Result<
    Seq<char>,
    Seq<TokenView>,
>;

/// Calls `syn::parse2::<syn::DeriveInput>` on `input`. On success it hands
/// back the parsed item's identifier as a one-token stream (keeping its
/// span) beside its text; on failure, the error rendered by
/// `syn::Error::to_compile_error`. What the parser makes of the tokens is
/// the name [`parsed_derive_input`]; the rendered error is never empty, as
/// a `syn::Error` holds at least one message and each gives an invocation
/// of the compiler's error macro.
#[verifier::external_body]
fn parse_derive_input(input: TokenStream) -> (r: Result<(TokenStream, String), TokenStream>)
    ensures
        r is Ok <==> parsed_derive_input(stream_tokens(input)) is Ok,
        r matches Ok((ident, name)) ==> parsed_derive_input(stream_tokens(input))->Ok_0 == name@
            && stream_tokens(ident) == seq![TokenView::Ident(name@)],
        r matches Err(error) ==> parsed_derive_input(stream_tokens(input))->Err_0 == stream_tokens(
            error,
        ) && stream_tokens(error).len() > 0,
{
    match syn::parse2::<syn::DeriveInput>(input) {
        Ok(derive) => {
            let name = derive.ident.to_string();
            Ok((TokenStream::from(proc_macro2::TokenTree::Ident(derive.ident)), name))
        },
        Err(err) => Err(err.to_compile_error()),
    }
}

/// Calls `proc_macro2::TokenStream::new`: the empty stream.
#[verifier::external_body]
fn empty_stream() -> (r: TokenStream)
    ensures
        stream_tokens(r) == Seq::<TokenView>::empty(),
{
    TokenStream::new()
}

/// Calls `proc_macro2::Ident::new` with the call-site span, as a one-token
/// stream. That function panics on a text that is neither an identifier nor
/// a keyword; the `requires` admits only runs of ASCII letters, which it
/// always accepts.
#[verifier::external_body]
fn ident_stream(text: &str) -> (r: TokenStream)
    requires
        is_plain_ident(text@),
    ensures
        stream_tokens(r) == seq![TokenView::Ident(text@)],
{
    TokenStream::from(proc_macro2::TokenTree::Ident(
        proc_macro2::Ident::new(text, proc_macro2::Span::call_site()),
    ))
}

/// Calls `proc_macro2::Punct::new`, as a one-token stream. That function
/// panics on any other character than those of `is_punct_char`.
#[verifier::external_body]
fn punct_stream(ch: char, spacing: Spacing) -> (r: TokenStream)
    requires
        is_punct_char(ch),
    ensures
        stream_tokens(r) == seq![TokenView::Punct(ch, spacing)],
{
    let spacing = match spacing {
        Spacing::Alone => proc_macro2::Spacing::Alone,
        Spacing::Joint => proc_macro2::Spacing::Joint,
    };
    TokenStream::from(proc_macro2::TokenTree::Punct(proc_macro2::Punct::new(ch, spacing)))
}

/// Calls `proc_macro2::Literal::string`: a string literal with the given
/// contents, as a one-token stream.
#[verifier::external_body]
fn string_stream(contents: &str) -> (r: TokenStream)
    ensures
        stream_tokens(r) == seq![TokenView::Str(contents@)],
{
    TokenStream::from(proc_macro2::TokenTree::Literal(proc_macro2::Literal::string(contents)))
}

/// Calls `proc_macro2::Group::new` with the given delimiters around
/// `inner`, as a one-token stream.
#[verifier::external_body]
fn group_stream(delimiter: Delimiter, inner: TokenStream) -> (r: TokenStream)
    ensures
        stream_tokens(r) == seq![TokenView::Group(delimiter, stream_tokens(inner))],
{
    let delimiter = match delimiter {
        Delimiter::Parenthesis => proc_macro2::Delimiter::Parenthesis,
        Delimiter::Brace => proc_macro2::Delimiter::Brace,
        Delimiter::Bracket => proc_macro2::Delimiter::Bracket,
        Delimiter::Invisible => proc_macro2::Delimiter::None,
    };
    TokenStream::from(proc_macro2::TokenTree::Group(proc_macro2::Group::new(delimiter, inner)))
}

/// Calls `TokenStream`'s `Extend<TokenStream>`: the tokens of `first`
/// followed by those of `second`.
#[verifier::external_body]
fn concat(first: TokenStream, second: TokenStream) -> (r: TokenStream)
    ensures
        stream_tokens(r) == stream_tokens(first) + stream_tokens(second),
{
    let mut first = first;
    first.extend(std::iter::once(second));
    first
}

/// Turns a token of the library's model into a one-token `proc_macro2`
/// stream; a group becomes a group of all the tokens inside it.
fn to_stream(token: &Token) -> (stream: TokenStream)
    requires
        is_valid_token(token@),
    ensures
        stream_tokens(stream) == seq![token@],
    decreases token,
{
    match token {
        Token::Ident(text) => ident_stream(text.as_str()),
        Token::Punct(ch, spacing) => punct_stream(*ch, *spacing),
        Token::Str(contents) => string_stream(contents.as_str()),
        Token::Group(delimiter, inner) => {
            let ghost inner_view = token@->Group_1;
            proof {
                assert forall|j: int| 0 <= j < inner@.len() implies is_valid_token(
                    #[trigger] inner@[j]@,
                ) && inner_view[j] == inner@[j]@ by {
                    assert(inner_view[j] == inner@[j]@);
                }
            }
            let mut stream = empty_stream();
            let mut i: usize = 0;
            while i < inner.len()
                invariant
                    i <= inner.len(),
                    *token == Token::Group(*delimiter, *inner),
                    inner_view.len() == inner@.len(),
                    forall|j: int|
                        0 <= j < inner@.len() ==> is_valid_token(#[trigger] inner@[j]@)
                            && inner_view[j] == inner@[j]@,
                    stream_tokens(stream) == inner_view.subrange(0, i as int),
                decreases inner.len() - i,
            {
                proof {
                    assert(decreases_to!(*token => token->Group_1));
                    vstd::std_specs::vec::axiom_vec_index_decreases(*inner, i as int);
                    assert(decreases_to!(*inner => inner@[i as int]));
                }
                let next = to_stream(&inner[i]);
                stream = concat(stream, next);
                assert(inner_view.subrange(0, i + 1) =~= inner_view.subrange(0, i as int)
                    + seq![inner_view[i as int]]);
                i = i + 1;
            }
            assert(inner_view.subrange(0, inner.len() as int) =~= inner_view);
            group_stream(*delimiter, stream)
        },
    }
}

/// The derive macro `Demo`: for an input item named `T`, expands to
/// `impl T { pub const MESSAGE: &'static str = "Hello from WASM! My name is T."; }`,
/// and to the parser's error, as an invocation of the compiler's error
/// macro, when the input does not parse as an item that a derive can be
/// attached to. Only the parsed item's name shapes the expansion; the
/// output is never empty.
pub fn demo(input: TokenStream) -> (output: TokenStream)
    ensures
        match parsed_derive_input(stream_tokens(input)) {
            Ok(name) => stream_tokens(output) == expansion(name),
            Err(error) => stream_tokens(output) == error,
        },
        stream_tokens(output).len() > 0,
{
    let ghost input_tokens = stream_tokens(input);
    let (ident, name) = match parse_derive_input(input) {
        Ok(parsed) => parsed,
        Err(error) => {
            return error;
        },
    };
    let tokens = expansion_tokens(name.as_str());
    proof {
        lemma_expansion_is_valid(name@);
        assert(tokens@.map_values(|t: Token| t@).len() == 3);
        assert(tokens@.map_values(|t: Token| t@)[0] == tokens@[0]@);
        assert(tokens@.map_values(|t: Token| t@)[1] == tokens@[1]@);
        assert(tokens@.map_values(|t: Token| t@)[2] == tokens@[2]@);
    }
    let keyword = to_stream(&tokens[0]);
    let body = to_stream(&tokens[2]);
    let output = concat(concat(keyword, ident), body);
    assert(stream_tokens(output) =~= expansion(name@));
    output
}

} // verus!
