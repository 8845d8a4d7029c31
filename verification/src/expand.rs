//! The rewrite itself: given the parts of a function as source text, build
//! the same function with a timer declared at the top of its body.

use vstd::prelude::*;
use vstd::string::*;
use crate::severity::Severity;

verus! {

/// A function definition, cut into the pieces the rewrite moves around. Each
/// piece is source text.
#[derive(Debug, PartialEq, Eq)]
pub struct FnItem {
    /// The attributes on the function, one entry each.
    pub attrs: Vec<String>,
    /// The visibility qualifier; empty for a private function.
    pub vis: String,
    /// The signature, from the qualifiers before `fn` to the return type or
    /// `where` clause.
    pub sig: String,
    /// The function's name as it stands in the signature.
    pub ident: String,
    /// The statements of the body, one entry each.
    pub stmts: Vec<String>,
}

/// What a [`FnItem`] holds, as sequences of characters.
pub struct FnItemView {
    pub attrs: Seq<Seq<char>>,
    pub vis: Seq<char>,
    pub sig: Seq<char>,
    pub ident: Seq<char>,
    pub stmts: Seq<Seq<char>>,
}

/// The characters of each string of a list.
pub open spec fn texts(list: Seq<String>) -> Seq<Seq<char>> {
    list.map_values(|s: String| s@)
}

impl View for FnItem {
    type V = FnItemView;

    open spec fn view(&self) -> FnItemView {
        FnItemView {
            attrs: texts(self.attrs@),
            vis: self.vis@,
            sig: self.sig@,
            ident: self.ident@,
            stmts: texts(self.stmts@),
        }
    }
}

/// The pieces one after the other, each followed by one space.
pub open spec fn spaced(pieces: Seq<Seq<char>>) -> Seq<char>
    decreases pieces.len(),
{
    if pieces.len() == 0 {
        Seq::empty()
    } else {
        spaced(pieces.drop_last()) + pieces.last() + " "@
    }
}

/// An identifier without the `r#` that marks it as raw.
pub open spec fn unraw(ident: Seq<char>) -> Seq<char> {
    if ident.len() >= 2 && ident[0] == 'r' && ident[1] == '#' {
        ident.skip(2)
    } else {
        ident
    }
}

/// The name of the variable that holds the timer of the function `ident`.
pub open spec fn spec_binding_name(ident: Seq<char>) -> Seq<char> {
    "_"@ + unraw(ident) + "_profiler"@
}

/// The statements planted at the top of the body of the function `ident`.
///
/// In a debug build they declare the timer: running if `level` is enabled
/// when the function is entered, absent otherwise. The bare path that follows
/// keeps `log` in use in a release build.
pub open spec fn spec_prologue(ident: Seq<char>, level: Severity) -> Seq<char> {
    "#[cfg(debug_assertions)] let "@ + spec_binding_name(ident) + " = if log::log_enabled!("@
        + level.spec_path() + ") { Some(proflogger::AutoLogger::new(\""@ + ident + "\", "@
        + level.spec_path() + ")) } else { None }; "@ + level.spec_path() + ";"@
}

/// A visibility qualifier followed by one space, or nothing where there is
/// no qualifier.
pub open spec fn qualifier(vis: Seq<char>) -> Seq<char> {
    if vis.len() == 0 {
        vis
    } else {
        vis + " "@
    }
}

/// The rewritten function: attributes, visibility and signature as they
/// were, then a body that opens with the prologue and goes on with the
/// statements as they were.
pub open spec fn instrumented(item: FnItemView, level: Severity) -> Seq<char> {
    spaced(item.attrs) + qualifier(item.vis) + item.sig + " { "@ + spec_prologue(
        item.ident,
        level,
    ) + " "@ + spaced(item.stmts) + "}"@
}

/// Builds the name of the variable that holds the timer of the function
/// `ident`.
pub fn binding_name(ident: &str) -> (name: String)
    ensures
        name@ == spec_binding_name(ident@),
{
    let len = ident.unicode_len();
    let mut name = String::from_str("_");
    if len >= 2 && ident.get_char(0) == 'r' && ident.get_char(1) == '#' {
        name.append(ident.substring_char(2, len));
        assert(ident@.subrange(2, len as int) == ident@.skip(2));
    } else {
        name.append(ident);
    }
    name.append("_profiler");
    name
}

/// Builds the statements planted at the top of the body of the function
/// `ident`.
pub fn prologue(ident: &str, level: Severity) -> (text: String)
    ensures
        text@ == spec_prologue(ident@, level),
{
    let binding = binding_name(ident);
    let mut text = String::from_str("#[cfg(debug_assertions)] let ");
    text.append(binding.as_str());
    text.append(" = if log::log_enabled!(");
    text.append(level.path());
    text.append(") { Some(proflogger::AutoLogger::new(\"");
    text.append(ident);
    text.append("\", ");
    text.append(level.path());
    text.append(")) } else { None }; ");
    text.append(level.path());
    text.append(";");
    text
}

/// Appends each piece to `out`, each followed by one space.
fn append_spaced(out: &mut String, pieces: &Vec<String>)
    ensures
        final(out)@ == old(out)@ + spaced(texts(pieces@)),
{
    let ghost before = out@;
    let mut i: usize = 0;
    while i < pieces.len()
        invariant
            i <= pieces.len(),
            out@ == before + spaced(texts(pieces@.take(i as int))),
        decreases pieces.len() - i,
    {
        out.append(pieces[i].as_str());
        out.append(" ");
        proof {
            let done = texts(pieces@.take(i + 1));
            assert(done.drop_last() == texts(pieces@.take(i as int)));
            assert(done.last() == pieces@[i as int]@);
        }
        i += 1;
    }
    assert(pieces@.take(i as int) == pieces@);
}

/// Builds the rewritten function from its pieces.
pub fn instrument(item: &FnItem, level: Severity) -> (text: String)
    ensures
        text@ == instrumented(item@, level),
{
    let mut text = String::new();
    append_spaced(&mut text, &item.attrs);
    if !item.vis.as_str().is_empty() {
        text.append(item.vis.as_str());
        text.append(" ");
    }
    text.append(item.sig.as_str());
    text.append(" { ");
    let top = prologue(item.ident.as_str(), level);
    text.append(top.as_str());
    text.append(" ");
    append_spaced(&mut text, &item.stmts);
    text.append("}");
    text
}

} // verus!
