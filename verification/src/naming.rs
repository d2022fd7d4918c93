//! The file name that is proposed for a transcoded file.
//!
//! It is the stem of the selected file as `Debug` prints it, escapes and all,
//! with a dot and the new extension behind it and every double quote taken
//! out.

use vstd::prelude::*;

verus! {

/// `text` as `Debug` prints it: between double quotes, with escapes.
pub uninterp spec fn debug_text(text: Seq<char>) -> Seq<char>;

/// Formats `text` with `{:?}`, that is with `<str as Debug>::fmt`. Claimed of
/// it: the result is a function of the text alone.
#[verifier::external_body]
fn debug_form(text: &str) -> (quoted: String)
    ensures
        quoted@ == debug_text(text@),
{
    format!("{:?}", text)
}

/// `text` without its double quotes.
pub open spec fn without_quotes(text: Seq<char>) -> Seq<char> {
    text.filter(|c: char| c != '"')
}

/// The name proposed for the file made from the one with the stem `stem`.
pub open spec fn output_name_spec(stem: Seq<char>, extension: Seq<char>) -> Seq<char> {
    without_quotes(debug_text(stem) + seq!['.'] + extension)
}

/// Takes the double quotes out of `text`.
pub fn strip_quotes(text: &str) -> (stripped: String)
    ensures
        stripped@ == without_quotes(text@),
{
    let len: usize = text.unicode_len();
    let mut stripped = String::new();
    let mut i: usize = 0;
    proof {
        reveal(Seq::filter);
        assert(text@.take(0) =~= Seq::<char>::empty());
    }
    while i < len
        invariant
            len == text@.len(),
            i <= len,
            stripped@ == without_quotes(text@.take(i as int)),
        decreases len - i,
    {
        let c: char = text.get_char(i);
        proof {
            reveal(Seq::filter);
            assert(text@.take(i + 1).drop_last() =~= text@.take(i as int));
            assert(text@.take(i + 1).last() == c);
        }
        if c != '"' {
            stripped.append(text.substring_char(i, i + 1));
            proof {
                assert(text@.subrange(i as int, i + 1) =~= seq![c]);
                assert(without_quotes(text@.take(i as int)) + seq![c] =~= without_quotes(
                    text@.take(i as int),
                ).push(c));
            }
        }
        i += 1;
    }
    proof {
        assert(text@.take(len as int) =~= text@);
    }
    stripped
}

/// Proposes a name for the file made from the one with the stem `stem`.
pub fn output_name(stem: &str, extension: &str) -> (name: String)
    ensures
        name@ == output_name_spec(stem@, extension@),
{
    let mut quoted = debug_form(stem);
    quoted.append(".");
    quoted.append(extension);
    proof {
        reveal_strlit(".");
        assert("."@ =~= seq!['.']);
    }
    strip_quotes(quoted.as_str())
}

} // verus!
