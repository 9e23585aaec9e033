//! Target languages.
use vstd::prelude::*;
use vstd::utf8::is_ascii_chars;

use crate::text::{join3, same_text};

verus! {

/// The languages that speech can be translated to, by ISO 639-1 code.
pub const VALID_TARGETS: [&'static str; 13] = [
    "es", "pt", "fr", "ja", "ru", "zh", "de", "ko", "hi", "id", "vi", "it", "en",
];

/// The languages that speech can be translated to.
pub open spec fn valid_targets() -> Seq<Seq<char>> {
    seq![
        "es"@, "pt"@, "fr"@, "ja"@, "ru"@, "zh"@, "de"@, "ko"@, "hi"@, "id"@, "vi"@, "it"@, "en"@,
    ]
}

/// The lower-case form of a text, by Unicode.
pub uninterp spec fn lowercased(text: Seq<char>) -> Seq<char>;

/// An ASCII letter in lower case; any other character is its own.
pub open spec fn ascii_lower(c: char) -> char {
    if 'A' <= c <= 'Z' {
        (c as u32 + 32) as char
    } else {
        c
    }
}

/// A text with its ASCII letters in lower case.
pub open spec fn ascii_lowered(text: Seq<char>) -> Seq<char> {
    Seq::new(text.len(), |i: int| ascii_lower(text[i]))
}

/// What is said of a language that is not on the list.
pub open spec fn invalid_target_message(target: Seq<char>) -> Seq<char> {
    "Invalid target language '"@ + target
        + "'. Valid: [\"es\", \"pt\", \"fr\", \"ja\", \"ru\", \"zh\", \"de\", \"ko\", \"hi\", \"id\", \"vi\", \"it\", \"en\"]"@
}

/// What becomes of a language code in lower case: itself where it is on the list.
pub open spec fn target_outcome(lowered: Seq<char>) -> Result<Seq<char>, Seq<char>> {
    if valid_targets().contains(lowered) {
        Ok(lowered)
    } else {
        Err(invalid_target_message(lowered))
    }
}

/// The meaning of a text or an error message.
pub open spec fn result_view(r: Result<String, String>) -> Result<Seq<char>, Seq<char>> {
    match r {
        Ok(text) => Ok(text@),
        Err(message) => Err(message@),
    }
}

/// Calls `str::to_lowercase`. Claimed: the result is a function of the text, and of an ASCII
/// text it is that text with its letters in lower case.
#[verifier::external_body]
fn lowercase(text: &str) -> (r: String)
    ensures
        r@ == lowercased(text@),
        is_ascii_chars(text@) ==> r@ == ascii_lowered(text@),
{
    text.to_lowercase()
}

/// Whether a code is on the list.
pub fn is_valid_target(code: &str) -> (r: bool)
    ensures
        r == valid_targets().contains(code@),
{
    let targets: [&'static str; 13] = VALID_TARGETS;
    let mut i: usize = 0;
    while i < 13
        invariant
            i <= 13,
            targets == VALID_TARGETS,
            forall|k: int| 0 <= k < i ==> #[trigger] valid_targets()[k] != code@,
        decreases 13 - i,
    {
        if same_text(targets[i], code) {
            assert(valid_targets()[i as int] == code@);
            return true;
        }
        i = i + 1;
    }
    false
}

/// Admits a language code in lower case, or says which codes there are.
pub fn check_target(lowered: String) -> (r: Result<String, String>)
    ensures
        result_view(r) == target_outcome(lowered@),
{
    if is_valid_target(lowered.as_str()) {
        Ok(lowered)
    } else {
        Err(
            join3(
                "Invalid target language '",
                lowered.as_str(),
                "'. Valid: [\"es\", \"pt\", \"fr\", \"ja\", \"ru\", \"zh\", \"de\", \"ko\", \"hi\", \"id\", \"vi\", \"it\", \"en\"]",
            ),
        )
    }
}

/// Admits a language code in any case, or says which codes there are.
pub fn resolve_target(target: &str) -> (r: Result<String, String>)
    ensures
        result_view(r) == target_outcome(lowercased(target@)),
        is_ascii_chars(target@) ==> result_view(r) == target_outcome(ascii_lowered(target@)),
{
    check_target(lowercase(target))
}

/// Every code on the list is admitted as it stands.
pub proof fn law_listed_codes_are_admitted(code: Seq<char>)
    requires
        valid_targets().contains(code),
    ensures
        is_ascii_chars(code),
        ascii_lowered(code) == code,
        target_outcome(ascii_lowered(code)) == Ok::<Seq<char>, Seq<char>>(code),
{
    reveal_strlit("es");
    reveal_strlit("pt");
    reveal_strlit("fr");
    reveal_strlit("ja");
    reveal_strlit("ru");
    reveal_strlit("zh");
    reveal_strlit("de");
    reveal_strlit("ko");
    reveal_strlit("hi");
    reveal_strlit("id");
    reveal_strlit("vi");
    reveal_strlit("it");
    reveal_strlit("en");
    assert(ascii_lowered(code) =~= code);
}

/// The case of ASCII letters does not matter: ASCII texts that differ in it alone fare alike.
pub proof fn law_case_does_not_matter(a: Seq<char>, b: Seq<char>)
    requires
        is_ascii_chars(a),
        is_ascii_chars(b),
        a.len() == b.len(),
        forall|i: int| 0 <= i < a.len() ==> ascii_lower(#[trigger] a[i]) == ascii_lower(b[i]),
    ensures
        target_outcome(ascii_lowered(a)) == target_outcome(ascii_lowered(b)),
{
    assert(ascii_lowered(a) =~= ascii_lowered(b));
}

/// Thirteen languages are admitted, each as it stands, and any other code is named in the refusal.
pub proof fn law_thirteen_languages(code: Seq<char>)
    ensures
        ({
            let listed = code == "es"@ || code == "pt"@ || code == "fr"@ || code == "ja"@ || code
                == "ru"@ || code == "zh"@ || code == "de"@ || code == "ko"@ || code == "hi"@ || code
                == "id"@ || code == "vi"@ || code == "it"@ || code == "en"@;
            &&& listed ==> target_outcome(code) == Ok::<Seq<char>, Seq<char>>(code)
            &&& !listed ==> target_outcome(code) == Err::<Seq<char>, Seq<char>>(
                "Invalid target language '"@ + code
                    + "'. Valid: [\"es\", \"pt\", \"fr\", \"ja\", \"ru\", \"zh\", \"de\", \"ko\", \"hi\", \"id\", \"vi\", \"it\", \"en\"]"@,
            )
        }),
{
    let all = valid_targets();
    assert(all[0] == "es"@ && all[1] == "pt"@ && all[2] == "fr"@ && all[3] == "ja"@ && all[4]
        == "ru"@ && all[5] == "zh"@ && all[6] == "de"@ && all[7] == "ko"@ && all[8] == "hi"@
        && all[9] == "id"@ && all[10] == "vi"@ && all[11] == "it"@ && all[12] == "en"@);
}

/// Lower case moves the capitals by 32 and leaves every other character where it is.
pub proof fn law_capitals_are_lowered(text: Seq<char>)
    ensures
        ascii_lowered(text).len() == text.len(),
        forall|i: int|
            0 <= i < text.len() ==> #[trigger] ascii_lowered(text)[i] == if 65 <= text[i] as u32
                <= 90 {
                (text[i] as u32 + 32) as char
            } else {
                text[i]
            },
{
}

} // verus!
