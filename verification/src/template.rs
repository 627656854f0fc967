//! The template renderer. Two templates are registered, `index` and
//! `hello`; rendering binds a context into fixed HTML text. All
//! interpolated text is HTML-escaped, and rendering is a mathematical
//! function of the template name and the context alone.

use vstd::prelude::*;

use crate::text::{append_chars, append_str_chars, chars_of, str_eq, string_of};

verus! {

/// A render failure: the named template is not registered, or a field
/// the template interpolates is absent from the context. Both are
/// server faults, answered with a generic error page.
#[derive(Clone, Copy, Debug, PartialEq, Eq, Structural)]
pub enum RenderError {
    UnknownTemplate,
    MissingField,
}

/// The data bound into a template. The `index` template reads no
/// field; the `hello` template requires `name`.
pub struct TemplateContext {
    pub name: Option<String>,
}

impl TemplateContext {
    /// The view of the context's `name` field.
    pub open spec fn name_view(&self) -> Option<Seq<char>> {
        match self.name {
            Option::None => None,
            Option::Some(ref n) => Some(n@),
        }
    }
}

/// The replacement text a character renders as in HTML: the five
/// HTML-significant characters become entities, every other character
/// stands for itself.
pub open spec fn spec_escape_char(c: char) -> Seq<char> {
    if c == '&' {
        "&amp;"@
    } else if c == '<' {
        "&lt;"@
    } else if c == '>' {
        "&gt;"@
    } else if c == '"' {
        "&quot;"@
    } else if c == '\'' {
        "&#x27;"@
    } else {
        seq![c]
    }
}

/// HTML-escaping of a character sequence: each character replaced by
/// its rendering, in order.
pub open spec fn spec_escape(s: Seq<char>) -> Seq<char>
    decreases s.len(),
{
    if s.len() == 0 {
        Seq::empty()
    } else {
        spec_escape_char(s[0]) + spec_escape(s.skip(1))
    }
}

/// Escaping one more character appends that character's rendering.
proof fn lemma_escape_push(s: Seq<char>, c: char)
    ensures
        spec_escape(s.push(c)) == spec_escape(s) + spec_escape_char(c),
    decreases s.len(),
{
    if s.len() == 0 {
        assert(s.push(c)[0] == c);
        assert(s.push(c).skip(1) =~= Seq::<char>::empty());
        assert(spec_escape(s.push(c).skip(1)) == Seq::<char>::empty());
        assert(spec_escape(s) == Seq::<char>::empty());
        assert(spec_escape_char(c) + Seq::<char>::empty() =~= spec_escape_char(c));
        assert(Seq::<char>::empty() + spec_escape_char(c) =~= spec_escape_char(c));
    } else {
        lemma_escape_push(s.skip(1), c);
        assert(s.push(c).skip(1) =~= s.skip(1).push(c));
        assert(s.push(c)[0] == s[0]);
        assert(spec_escape_char(s[0]) + (spec_escape(s.skip(1)) + spec_escape_char(c)) =~= (
        spec_escape_char(s[0]) + spec_escape(s.skip(1))) + spec_escape_char(c));
    }
}

/// Escaping a sequence free of HTML-significant characters leaves it
/// unchanged.
pub proof fn lemma_escape_plain(s: Seq<char>)
    requires
        forall|i: int|
            0 <= i < s.len() ==> s[i] != '&' && s[i] != '<' && s[i] != '>' && s[i] != '"' && s[i]
                != '\'',
    ensures
        spec_escape(s) == s,
    decreases s.len(),
{
    if s.len() == 0 {
        assert(spec_escape(s) =~= s);
    } else {
        assert(forall|i: int| 0 <= i < s.skip(1).len() ==> s.skip(1)[i] == s[i + 1]);
        lemma_escape_plain(s.skip(1));
        assert(spec_escape_char(s[0]) == seq![s[0]]);
        assert(seq![s[0]] + s.skip(1) =~= s);
    }
}

/// HTML-escape a character vector.
pub fn escape_html(s: &Vec<char>) -> (r: Vec<char>)
    ensures
        r@ == spec_escape(s@),
{
    let mut r: Vec<char> = Vec::new();
    assert(spec_escape(s@.take(0)) =~= Seq::<char>::empty());
    let mut i: usize = 0;
    while i < s.len()
        invariant
            i <= s@.len(),
            r@ == spec_escape(s@.take(i as int)),
        decreases s@.len() - i,
    {
        let c = s[i];
        if c == '&' {
            append_str_chars(&mut r, "&amp;");
        } else if c == '<' {
            append_str_chars(&mut r, "&lt;");
        } else if c == '>' {
            append_str_chars(&mut r, "&gt;");
        } else if c == '"' {
            append_str_chars(&mut r, "&quot;");
        } else if c == '\'' {
            append_str_chars(&mut r, "&#x27;");
        } else {
            r.push(c);
            assert(spec_escape_char(c) == seq![c]);
        }
        proof {
            lemma_escape_push(s@.take(i as int), s@[i as int]);
            assert(s@.take(i + 1 as int) =~= s@.take(i as int).push(s@[i as int]));
        }
        i = i + 1;
    }
    assert(s@.take(s@.len() as int) =~= s@);
    r
}

/// The `index` page: fixed HTML with no interpolation and no
/// placeholder syntax.
pub open spec fn spec_index_page() -> Seq<char> {
    "<!DOCTYPE html><html><head><title>Home</title></head><body><h1>Hello, welcome!</h1></body></html>"@
}

/// The `hello` page: a greeting around the escaped `name` field.
pub open spec fn spec_hello_page(name: Seq<char>) -> Seq<char> {
    "<!DOCTYPE html><html><head><title>Hello</title></head><body><h1>Hello "@ + spec_escape(name)
        + "!</h1></body></html>"@
}

/// The index page is non-empty and holds no placeholder braces: every
/// template expression was resolved at startup.
pub proof fn lemma_index_page_complete()
    ensures
        spec_index_page().len() > 0,
        forall|i: int|
            0 <= i < spec_index_page().len() ==> spec_index_page()[i] != '{' && spec_index_page()[i]
                != '}',
{
    reveal_strlit(
        "<!DOCTYPE html><html><head><title>Home</title></head><body><h1>Hello, welcome!</h1></body></html>",
    );
}

/// Render the index page.
pub fn render_index() -> (r: String)
    ensures
        r@ == spec_index_page(),
{
    let mut v: Vec<char> = Vec::new();
    append_str_chars(
        &mut v,
        "<!DOCTYPE html><html><head><title>Home</title></head><body><h1>Hello, welcome!</h1></body></html>",
    );
    assert(Seq::<char>::empty() + spec_index_page() =~= spec_index_page());
    string_of(&v)
}

/// Render the hello page around an already-supplied name.
pub fn render_hello(name: &Vec<char>) -> (r: String)
    ensures
        r@ == spec_hello_page(name@),
{
    let mut v: Vec<char> = Vec::new();
    append_str_chars(
        &mut v,
        "<!DOCTYPE html><html><head><title>Hello</title></head><body><h1>Hello ",
    );
    let escaped = escape_html(name);
    append_chars(&mut v, &escaped);
    append_str_chars(&mut v, "!</h1></body></html>");
    proof {
        let pre = "<!DOCTYPE html><html><head><title>Hello</title></head><body><h1>Hello "@;
        let post = "!</h1></body></html>"@;
        assert(Seq::<char>::empty() + pre =~= pre);
        assert((pre + spec_escape(name@)) + post =~= pre + spec_escape(name@) + post);
    }
    string_of(&v)
}

/// What rendering returns, as a mathematical function of the template
/// name and the context's `name` field: the fixed `index` page, the
/// `hello` page around the escaped name, or the error naming what was
/// wrong. Exactly the names `index` and `hello` are registered, and
/// `hello` fails exactly when the context's `name` field is absent.
pub open spec fn spec_render(template: Seq<char>, ctx_name: Option<Seq<char>>) -> Result<
    Seq<char>,
    RenderError,
> {
    if template == "index"@ {
        Ok(spec_index_page())
    } else if template == "hello"@ {
        match ctx_name {
            Option::Some(n) => Ok(spec_hello_page(n)),
            Option::None => Err(RenderError::MissingField),
        }
    } else {
        Err(RenderError::UnknownTemplate)
    }
}

/// Render a template by name with a context.
pub fn render(template: &str, ctx: &TemplateContext) -> (r: Result<String, RenderError>)
    ensures
        match r {
            Result::Ok(s) => spec_render(template@, ctx.name_view()) == Ok::<Seq<char>, RenderError>(
                s@,
            ),
            Result::Err(e) => spec_render(template@, ctx.name_view()) == Err::<
                Seq<char>,
                RenderError,
            >(e),
        },
{
    if str_eq(template, "index") {
        Ok(render_index())
    } else if str_eq(template, "hello") {
        match &ctx.name {
            Option::Some(n) => {
                let name = chars_of(n.as_str());
                Ok(render_hello(&name))
            },
            Option::None => Err(RenderError::MissingField),
        }
    } else {
        Err(RenderError::UnknownTemplate)
    }
}

/// Rendering is idempotent: two results of rendering the same template
/// with the same context are identical, character for character.
pub proof fn lemma_render_deterministic(
    template: Seq<char>,
    ctx_name: Option<Seq<char>>,
    r1: Result<Seq<char>, RenderError>,
    r2: Result<Seq<char>, RenderError>,
)
    requires
        r1 == spec_render(template, ctx_name),
        r2 == spec_render(template, ctx_name),
    ensures
        r1 == r2,
{
}

} // verus!
