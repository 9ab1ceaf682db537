//! The texts of the diagnostics.

use vstd::prelude::*;

verus! {

/// Said where the annotation is given arguments.
pub const NO_ARGUMENTS: &'static str = "no arguments supported";

/// Said of an `impl` block for a negated trait.
pub const NEGATION: &'static str = "negation unsupported";

/// Said of an `impl` block that names no trait.
pub const NON_TRAIT: &'static str = "non-trait implementation unsupported";

/// The trait's bare name.
pub const BARE: &'static str = "FromStr";

/// The trait's name under the standard library's string module.
pub const DOTTED: &'static str = "std :: str :: FromStr";

/// The same, rooted.
pub const ROOTED: &'static str = ":: std :: str :: FromStr";

/// A text as `Debug` prints it: between double quotes, with escapes.
pub uninterp spec fn debug_rendering(text: Seq<char>) -> Seq<char>;

/// `format!("{:?}", text)`: the text as `Debug` prints it.
#[verifier::external_body]
fn debug_text(text: &str) -> (rendered: String)
    ensures
        rendered@ == debug_rendering(text@),
{
    format!("{:?}", text)
}

/// Whether a trait's printed path is one of the three spellings of `FromStr`
/// that are recognized.
pub open spec fn is_recognized(spelling: Seq<char>) -> bool {
    spelling == BARE@ || spelling == DOTTED@ || spelling == ROOTED@
}

/// The recognized spellings as a list prints them.
pub open spec fn recognized_listing() -> Seq<char> {
    "["@ + debug_rendering(BARE@) + ", "@ + debug_rendering(DOTTED@) + ", "@ + debug_rendering(
        ROOTED@,
    ) + "]"@
}

/// Said of a type that is not written as a path; `text` is how it prints.
pub open spec fn not_a_path_message(text: Seq<char>) -> Seq<char> {
    "expected path, found "@ + debug_rendering(text)
}

/// Said of a path type with a qualified-self prefix; `text` is how it prints.
pub open spec fn not_simple_message(text: Seq<char>) -> Seq<char> {
    "expected simple path, found "@ + debug_rendering(text)
}

/// Said of an `impl` block for another trait; `found` is how its path prints.
pub open spec fn mismatch_message(found: Seq<char>) -> Seq<char> {
    "expecting implementation for one of "@ + recognized_listing() + ", found "@
        + debug_rendering(found)
}

/// The bare name, the dotted form and the rooted form are recognized, each
/// printed with spaces round `::`; no other text is.
pub proof fn lemma_recognized_spellings()
    ensures
        is_recognized("FromStr"@),
        is_recognized("std :: str :: FromStr"@),
        is_recognized(":: std :: str :: FromStr"@),
        forall|spelling: Seq<char>| #[trigger]
            is_recognized(spelling) ==> spelling == "FromStr"@ || spelling
                == "std :: str :: FromStr"@ || spelling == ":: std :: str :: FromStr"@,
        !is_recognized("std::str::FromStr"@),
        !is_recognized("Display"@),
{
    reveal_strlit("FromStr");
    reveal_strlit("std :: str :: FromStr");
    reveal_strlit(":: std :: str :: FromStr");
    reveal_strlit("std::str::FromStr");
    reveal_strlit("Display");
    assert("Display"@[0] != "FromStr"@[0]);
    assert("std::str::FromStr"@.len() == 17);
    assert("std :: str :: FromStr"@.len() == 21);
    assert(":: std :: str :: FromStr"@.len() == 24);
}

/// Whether `spelling` is recognized.
pub fn recognized(spelling: &str) -> (yes: bool)
    ensures
        yes == is_recognized(spelling@),
{
    let spelling = spelling.to_owned();
    spelling == BARE.to_owned() || spelling == DOTTED.to_owned() || spelling == ROOTED.to_owned()
}

/// The text of [`not_a_path_message`].
pub fn not_a_path(text: &str) -> (message: String)
    ensures
        message@ == not_a_path_message(text@),
{
    let mut message = "expected path, found ".to_owned();
    message.append(debug_text(text).as_str());
    message
}

/// The text of [`not_simple_message`].
pub fn not_simple(text: &str) -> (message: String)
    ensures
        message@ == not_simple_message(text@),
{
    let mut message = "expected simple path, found ".to_owned();
    message.append(debug_text(text).as_str());
    message
}

/// The text of [`mismatch_message`].
pub fn mismatch(found: &str) -> (message: String)
    ensures
        message@ == mismatch_message(found@),
{
    let mut message = "expecting implementation for one of ".to_owned();
    message.append("[");
    message.append(debug_text(BARE).as_str());
    message.append(", ");
    message.append(debug_text(DOTTED).as_str());
    message.append(", ");
    message.append(debug_text(ROOTED).as_str());
    message.append("]");
    message.append(", found ");
    message.append(debug_text(found).as_str());
    message
}

} // verus!
