use std::sync::atomic::AtomicUsize;
use std::sync::atomic::Ordering;

use proc_macro2::TokenStream;
use watt::demo::{demo, expansion_tokens, greeting_for, message_const_tokens, Delimiter, Spacing, Token};
use watt::{decide_id, settle_id, WasmMacro, FIRST_ID, UNASSIGNED_ID};

fn tokens(text: &str) -> TokenStream {
    text.parse::<TokenStream>().unwrap()
}

#[test]
fn new_keeps_the_bytecode() {
    let bytes: [u8; 4] = [0x00, 0x61, 0x73, 0x6d];
    let module = WasmMacro::new(&bytes);
    assert_eq!(module.wasm(), &bytes[..]);
}

#[test]
fn new_accepts_empty_bytecode() {
    let module = WasmMacro::new(&[]);
    assert!(module.wasm().is_empty());
}

#[test]
fn first_id_is_assigned() {
    assert_ne!(FIRST_ID, UNASSIGNED_ID);
}

#[test]
fn id_is_drawn_once_and_kept() {
    let counter = AtomicUsize::new(FIRST_ID);
    let module = WasmMacro::new(&[1, 2, 3]);
    assert_eq!(module.id(&counter), UNASSIGNED_ID);
    assert_eq!(module.id(&counter), 1);
    assert_eq!(module.id(&counter), 1);
    assert_eq!(counter.load(Ordering::SeqCst), 2);
}

#[test]
fn distinct_modules_get_distinct_ids() {
    let counter = AtomicUsize::new(FIRST_ID);
    let first = WasmMacro::new(&[1]);
    let second = WasmMacro::new(&[1]);
    let third = WasmMacro::new(&[2]);
    assert_eq!(first.id(&counter), UNASSIGNED_ID);
    assert_eq!(second.id(&counter), UNASSIGNED_ID);
    assert_eq!(third.id(&counter), UNASSIGNED_ID);
    assert_eq!(first.id(&counter), 1);
    assert_eq!(second.id(&counter), 2);
    assert_eq!(third.id(&counter), 3);
}

#[test]
fn settle_id_reports_the_replaced_marker() {
    assert_eq!(settle_id(Ok(UNASSIGNED_ID)), UNASSIGNED_ID);
}

#[test]
fn decide_id_returns_a_loaded_id() {
    assert_eq!(decide_id(7, None), 7);
    assert_eq!(decide_id(7, Some(Err(9))), 7);
}

#[test]
fn decide_id_settles_an_attempt_on_an_unassigned_slot() {
    assert_eq!(decide_id(UNASSIGNED_ID, Some(Ok(UNASSIGNED_ID))), UNASSIGNED_ID);
    assert_eq!(decide_id(UNASSIGNED_ID, Some(Err(4))), 4);
    assert_eq!(decide_id(UNASSIGNED_ID, None), UNASSIGNED_ID);
}

#[test]
fn settle_id_reports_the_stored_id() {
    assert_eq!(settle_id(Err(9)), 9);
}

#[test]
fn proc_macro_calls_with_the_input() {
    let module = WasmMacro::new(&[0]);
    let call = module.proc_macro("the_macro", 5u32);
    assert_eq!(call.fun, "the_macro");
    assert_eq!(call.args, vec![5u32]);
    assert!(std::ptr::eq(call.module, &module));
}

#[test]
fn proc_macro_derive_calls_with_the_input() {
    let module = WasmMacro::new(&[0]);
    let call = module.proc_macro_derive("derive_it", "struct S;");
    assert_eq!(call.fun, "derive_it");
    assert_eq!(call.args, vec!["struct S;"]);
    assert!(std::ptr::eq(call.module, &module));
}

#[test]
fn proc_macro_attribute_calls_with_args_then_input() {
    let module = WasmMacro::new(&[0]);
    let call = module.proc_macro_attribute("attr", "args", "item");
    assert_eq!(call.fun, "attr");
    assert_eq!(call.args, vec!["args", "item"]);
    assert!(std::ptr::eq(call.module, &module));
}

#[test]
fn greeting_names_the_type() {
    assert_eq!(greeting_for("Foo"), "Hello from WASM! My name is Foo.");
}

#[test]
fn greeting_for_an_empty_name() {
    assert_eq!(greeting_for(""), "Hello from WASM! My name is .");
}

fn ident_is(token: &Token, text: &str) -> bool {
    matches!(token, Token::Ident(t) if t == text)
}

fn assert_message_const(tokens: &[Token], message: &str) {
    assert_eq!(tokens.len(), 11);
    assert!(ident_is(&tokens[0], "pub"));
    assert!(ident_is(&tokens[1], "const"));
    assert!(ident_is(&tokens[2], "MESSAGE"));
    assert!(matches!(tokens[3], Token::Punct(':', Spacing::Alone)));
    assert!(matches!(tokens[4], Token::Punct('&', Spacing::Alone)));
    assert!(matches!(tokens[5], Token::Punct('\'', Spacing::Joint)));
    assert!(ident_is(&tokens[6], "static"));
    assert!(ident_is(&tokens[7], "str"));
    assert!(matches!(tokens[8], Token::Punct('=', Spacing::Alone)));
    match &tokens[9] {
        Token::Str(contents) => assert_eq!(contents, message),
        other => panic!("unexpected token {:?}", other),
    }
    assert!(matches!(tokens[10], Token::Punct(';', Spacing::Alone)));
}

#[test]
fn message_const_tokens_shape() {
    let tokens = message_const_tokens("hi");
    assert_message_const(&tokens, "hi");
}

#[test]
fn expansion_tokens_for_foo() {
    let tokens = expansion_tokens("Foo");
    assert_eq!(tokens.len(), 3);
    assert!(ident_is(&tokens[0], "impl"));
    assert!(ident_is(&tokens[1], "Foo"));
    match &tokens[2] {
        Token::Group(Delimiter::Brace, inner) => {
            assert_message_const(inner, "Hello from WASM! My name is Foo.")
        }
        other => panic!("unexpected token {:?}", other),
    }
}

#[test]
fn demo_on_a_struct() {
    let out = demo(tokens("struct Foo;"));
    assert_eq!(
        out.to_string(),
        "impl Foo { pub const MESSAGE : & 'static str = \"Hello from WASM! My name is Foo.\" ; }"
    );
}

#[test]
fn demo_on_an_enum_with_attributes() {
    let out = demo(tokens("#[derive(Demo)] pub enum Shape { Circle, Square(u8) }"));
    assert_eq!(
        out.to_string(),
        "impl Shape { pub const MESSAGE : & 'static str = \"Hello from WASM! My name is Shape.\" ; }"
    );
}

#[test]
fn demo_keeps_only_the_name_of_a_generic_type() {
    let out = demo(tokens("struct Wrapper<T> { inner: T }"));
    assert_eq!(
        out.to_string(),
        "impl Wrapper { pub const MESSAGE : & 'static str = \"Hello from WASM! My name is Wrapper.\" ; }"
    );
}

#[test]
fn demo_reports_input_that_is_not_a_type() {
    let out = demo(tokens("fn not_a_type() {}")).to_string();
    assert!(out.contains("compile_error"));
    assert!(out.contains("expected one of: `struct`, `enum`, `union`"));
    assert!(!out.contains("MESSAGE"));
}

#[test]
fn demo_reports_empty_input() {
    let out = demo(TokenStream::new()).to_string();
    assert!(out.contains("compile_error"));
}

#[test]
fn demo_on_an_enum_with_a_derive() {
    let out = demo(tokens("#[derive(Debug)] pub enum Bar { A, B(u8) }"));
    assert_eq!(
        out.to_string(),
        "impl Bar { pub const MESSAGE : & 'static str = \"Hello from WASM! My name is Bar.\" ; }"
    );
}

#[test]
fn demo_depends_only_on_the_name() {
    let a = demo(tokens("struct Same;")).to_string();
    let b = demo(tokens("#[repr(C)] pub(crate) union Same<T: Copy> { x: T }")).to_string();
    assert_eq!(a, b);
}
