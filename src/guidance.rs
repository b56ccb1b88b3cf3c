//! Additional guidance for the system prompt: the text of a Word document's
//! body, appended to a base prompt.
use vstd::prelude::*;
use crate::text::{opt_view, trim_text, trimmed};

verus! {

#[verifier::external_type_specification]
#[verifier::external_body]
pub struct ExRegex(regex::Regex);

/// Matches a run of text in a Word document's XML; group 1 is the text.
pub const WORD_TEXT_PATTERN: &'static str = r"<w:t[^>]*>(.*?)</w:t>";

/// Separates the base prompt from the guidance.
pub const GUIDANCE_HEADER: &'static str = "\n\n--- Additional Guidance ---\n";

/// The regex that a pattern compiles to, if it compiles.
pub uninterp spec fn compiled_regex(pattern: Seq<char>) -> Option<regex::Regex>;

/// For each successive non-overlapping match of `re` in `text`, what capture
/// group `group` matched, if it took part in the match.
pub uninterp spec fn group_captures(re: regex::Regex, text: Seq<char>, group: nat) -> Seq<Option<Seq<char>>>;

/// Relies on `Regex::new`: it compiles a pattern or rejects it.
#[verifier::external_body]
fn compile_regex(pattern: &str) -> (r: Option<regex::Regex>)
    ensures
        r == compiled_regex(pattern@),
{
    regex::Regex::new(pattern).ok()
}

/// Relies on `Regex::captures_iter`: the successive non-overlapping matches,
/// each mapped to the text of one capture group.
#[verifier::external_body]
fn capture_texts(re: &regex::Regex, text: &str, group: usize) -> (r: Vec<Option<String>>)
    ensures
        r@.map_values(|c: Option<String>| opt_view(c)) == group_captures(*re, text@, group as nat),
{
    re.captures_iter(text).map(|c| c.get(group).map(|m| m.as_str().to_string())).collect()
}

/// `parts` with `sep` between each two.
pub open spec fn joined(parts: Seq<Seq<char>>, sep: Seq<char>) -> Seq<char>
    decreases parts.len(),
{
    if parts.len() == 0 {
        Seq::empty()
    } else if parts.len() == 1 {
        parts[0]
    } else {
        joined(parts.drop_last(), sep) + sep + parts.last()
    }
}

/// The captures that took part, in order.
pub open spec fn present(captures: Seq<Option<Seq<char>>>) -> Seq<Seq<char>> {
    captures.filter_map(|c: Option<Seq<char>>| c)
}

/// The text of a Word document body: its text runs joined by spaces, trimmed.
pub open spec fn xml_text(xml: Seq<char>) -> Seq<char> {
    match compiled_regex(WORD_TEXT_PATTERN@) {
        Some(re) => trimmed(joined(present(group_captures(re, xml, 1)), seq![' '])),
        None => Seq::empty(),
    }
}

/// Extracts the text of a Word document from its `word/document.xml`.
pub fn extract_text_from_xml(xml: &str) -> (r: String)
    ensures
        r@ == xml_text(xml@),
{
    let re = match compile_regex(WORD_TEXT_PATTERN) {
        Some(re) => re,
        None => return String::new(),
    };
    let captures = capture_texts(&re, xml, 1);
    let ghost model = captures@.map_values(|c: Option<String>| opt_view(c));
    let mut text = String::new();
    let mut count: usize = 0;
    let mut i: usize = 0;
    proof {
        reveal_strlit(" ");
    }
    while i < captures.len()
        invariant
            i <= captures@.len(),
            model == captures@.map_values(|c: Option<String>| opt_view(c)),
            count <= i,
            count == present(model.take(i as int)).len(),
            text@ == joined(present(model.take(i as int)), seq![' ']),
            " "@ == seq![' '],
        decreases captures@.len() - i,
    {
        assert(model.take(i + 1).drop_last() =~= model.take(i as int));
        assert(model.take(i + 1).last() == model[i as int]);
        match &captures[i] {
            Some(piece) => {
                let ghost before = present(model.take(i as int));
                assert(present(model.take(i + 1)) == before.push(piece@));
                assert(before.push(piece@).drop_last() =~= before);
                if count > 0 {
                    text.append(" ");
                }
                text.append(piece.as_str());
                count = count + 1;
            },
            None => {},
        }
        i = i + 1;
    }
    assert(model.take(model.len() as int) =~= model);
    trim_text(text.as_str()).to_owned()
}

/// The system prompt: the base prompt, then the guidance under a header.
pub fn enhanced_prompt(base: &str, guidance: &str) -> (r: String)
    ensures
        r@ == base@ + GUIDANCE_HEADER@ + guidance@,
{
    let mut prompt = base.to_owned();
    prompt.append(GUIDANCE_HEADER);
    prompt.append(guidance);
    prompt
}

} // verus!
