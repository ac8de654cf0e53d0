//! A plain model of the syntax that the attributes read.
//!
//! Only what a decision depends on is modelled; the rest of a statement is an
//! opaque payload `T` that is carried through unchanged.

use vstd::prelude::*;

verus! {

/// The delimiter of a token group.
#[derive(PartialEq, Eq, Structural, Clone, Copy, Debug)]
pub enum Delimiter {
    Parenthesis,
    Brace,
    Bracket,
    Invisible,
}

/// One token tree of an attribute's argument list.
#[derive(PartialEq, Eq, Debug)]
pub enum Token {
    Ident(String),
    Punct(char),
    Literal(String),
    Group(Delimiter, Vec<Token>),
}

/// A type as written in a signature, reduced to the forms the checks tell apart.
#[derive(Debug)]
pub enum TypeExpr {
    /// `!`
    Never,
    /// A tuple type with its number of elements (`()` has none).
    Tuple(usize),
    /// A path type; `qualified` for a `<T as Trait>::` prefix.
    Path { qualified: bool, segments: Vec<PathSegment> },
    /// Any other type.
    Other,
}

/// One segment of a path type.
#[derive(Debug)]
pub struct PathSegment {
    pub ident: String,
    /// Whether the segment carries generic arguments (`Foo<'a>`, `Fn(u8)`).
    pub has_arguments: bool,
}

/// The pattern of a typed parameter.
#[derive(Debug)]
pub enum Pattern {
    /// `[ref] [mut] name [@ subpattern]`, possibly with attributes.
    Ident { name: String, by_ref: bool, mutable: bool, subpattern: bool, attributed: bool },
    /// Any other pattern.
    Other,
}

/// One parameter of a function signature.
#[derive(Debug)]
pub enum FnInput {
    /// `self`, `&self`, ...
    Receiver,
    /// `pattern: type`, possibly with attributes on the parameter.
    Typed { attributed: bool, pat: Pattern, ty: TypeExpr },
}

/// The return type of a signature.
#[derive(Debug)]
pub enum ReturnType {
    /// No `->` at all.
    Default,
    Type(TypeExpr),
}

/// A function signature.
#[derive(Debug)]
pub struct Signature {
    pub constness: bool,
    pub unsafety: bool,
    /// An explicit `extern "..."` on the declaration.
    pub abi: bool,
    pub ident: String,
    pub generic_params: usize,
    pub where_clause: bool,
    pub variadic: bool,
    pub inputs: Vec<FnInput>,
    pub output: ReturnType,
}

/// A `static` item that stands as a statement of a function body; `source`
/// carries its attributes, type and initialiser.
#[derive(PartialEq, Eq, Debug)]
pub struct StaticDecl<T> {
    pub ident: String,
    pub mutable: bool,
    pub source: T,
}

/// A statement of a function body.
#[derive(PartialEq, Eq, Debug)]
pub enum Stmt<T> {
    Static(StaticDecl<T>),
    Other(T),
}

/// A function item: its visibility, signature and body.
#[derive(Debug)]
pub struct FnItem<T> {
    /// Whether a visibility (`pub`, `pub(crate)`, ...) is written.
    pub visible: bool,
    pub sig: Signature,
    pub stmts: Vec<Stmt<T>>,
}

/// The words that the argument parser refuses where it expects an
/// identifier: `_` and a list of keywords.
pub open spec fn reserved_words() -> Seq<Seq<char>> {
    seq![
        "_"@, "abstract"@, "as"@, "become"@, "box"@, "break"@, "const"@, "continue"@,
        "crate"@, "do"@, "else"@, "enum"@, "extern"@, "false"@, "final"@, "fn"@,
        "for"@, "if"@, "impl"@, "in"@, "let"@, "loop"@, "macro"@, "match"@,
        "mod"@, "move"@, "mut"@, "override"@, "priv"@, "pub"@, "ref"@,
        "return"@, "Self"@, "self"@, "static"@, "struct"@, "super"@, "trait"@,
        "true"@, "type"@, "typeof"@, "unsafe"@, "unsized"@, "use"@, "virtual"@,
        "where"@, "while"@, "yield"@
    ]
}

/// An identifier token that can stand where a plain identifier is expected.
pub open spec fn is_plain_ident(s: Seq<char>) -> bool {
    !reserved_words().contains(s)
}

/// Whether `s` reads `w`.
pub fn text_is(s: &String, w: &str) -> (r: bool)
    ensures
        r == (s@ == w@),
{
    let w = String::from_str(w);
    *s == w
}

/// Whether an identifier token can stand where a plain identifier is expected.
pub fn plain_ident(s: &String) -> (r: bool)
    ensures
        r == is_plain_ident(s@),
{
    let words: [&str; 48] = [
        "_", "abstract", "as", "become", "box", "break", "const", "continue",
        "crate", "do", "else", "enum", "extern", "false", "final", "fn",
        "for", "if", "impl", "in", "let", "loop", "macro", "match",
        "mod", "move", "mut", "override", "priv", "pub", "ref",
        "return", "Self", "self", "static", "struct", "super", "trait",
        "true", "type", "typeof", "unsafe", "unsized", "use", "virtual",
        "where", "while", "yield",
    ];
    let ghost listed = Seq::new(48, |k: int| words@[k]@);
    assert(listed =~= reserved_words());
    let mut i: usize = 0;
    while i < 48
        invariant
            i <= 48,
            listed == reserved_words(),
            listed == Seq::new(48, |k: int| words@[k]@),
            forall|k: int| 0 <= k < i ==> listed[k] != s@,
        decreases 48 - i,
    {
        if text_is(s, words[i]) {
            assert(listed[i as int] == s@);
            return false;
        }
        i = i + 1;
    }
    true
}

} // verus!
