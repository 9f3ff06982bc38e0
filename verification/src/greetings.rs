//! A greeting for a name, plain or decorated.

use vstd::prelude::*;
use vstd::string::StringExecFns;

verus! {

/// How a greeting is dressed.
#[derive(Clone, Copy, Debug, PartialEq, Eq, Structural)]
pub enum Style {
    /// The bare sentence.
    Plain,
    /// The sentence between two stars.
    Fancy,
}

/// The bare sentence that greets `name`.
pub open spec fn plain_greeting(name: Seq<char>) -> Seq<char> {
    "Hello, "@ + name + "!"@
}

/// The greeting for `name` in the given style: the bare sentence, or the
/// bare sentence with a star and a space on either side.
pub open spec fn greeting(name: Seq<char>, style: Style) -> Seq<char> {
    match style {
        Style::Plain => plain_greeting(name),
        Style::Fancy => "🌟 "@ + plain_greeting(name) + " 🌟"@,
    }
}

/// Greets `name` in the given style. Every name is taken as it is, the empty
/// one too.
pub fn say_hello(name: &str, style: Style) -> (text: String)
    ensures
        text@ == greeting(name@, style),
{
    let mut text = String::new();
    if let Style::Fancy = style {
        text.append("🌟 ");
    }
    text.append("Hello, ");
    text.append(name);
    text.append("!");
    if let Style::Fancy = style {
        text.append(" 🌟");
    }
    text
}

} // verus!
