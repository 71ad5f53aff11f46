//! The clipboard-side decision of the translate flow. The clipboard itself
//! is an external collaborator; after the copy chord is synthesized, the
//! embedding program hands in what the clipboard held before and what it
//! holds now, and this rule says whether a translation should start.

use vstd::prelude::*;

verus! {

/// Whether freshly copied text is a selection worth translating: it must
/// be nonempty, and it must differ from what the clipboard already held,
/// else nothing was selected and the copy was a no-op.
pub fn should_translate(original: &Option<String>, captured: &str) -> (r: bool)
    ensures
        r == (captured@.len() > 0 && (match original {
            Some(o) => o@ != captured@,
            None => true,
        })),
{
    if captured.unicode_len() == 0 {
        return false;
    }
    match original {
        Some(o) => !crate::text::str_eq(o.as_str(), captured),
        None => true,
    }
}

} // verus!
