//! The file that holds a board's drawing: a JSON document with the texts of
//! its elements, each a JSON string, and the drawing's background, written
//! in the indented form with keys in sorted order.
use vstd::prelude::*;
use vstd::string::StringExecFns;

verus! {

/// The JSON string literal of `text`: quoted, with the characters JSON
/// requires escaped.
pub uninterp spec fn json_string_literal(text: Seq<char>) -> Seq<char>;

/// `serde_json::to_string` on a `str`: the JSON string literal of `text`.
/// The contract names the result. (Writing into a `Vec` cannot fail, so the
/// error case does not occur.)
#[verifier::external_body]
fn json_string(text: &str) -> (r: String)
    ensures
        r@ == json_string_literal(text@),
{
    serde_json::to_string(text).unwrap_or_default()
}

/// The part of every board document before its elements.
pub open spec fn document_head() -> Seq<char> {
    "{\n  \"appState\": {\n    \"viewBackgroundColor\": \"#ffffff\"\n  },\n  \"elements\": "@
}

/// The element lines of a document: each element's literal on a line of its
/// own, indented, the lines separated by ",\n".
pub open spec fn element_lines(es: Seq<Seq<char>>) -> Seq<char>
    decreases es.len(),
{
    if es.len() == 0 {
        Seq::empty()
    } else if es.len() == 1 {
        "    "@ + json_string_literal(es[0])
    } else {
        element_lines(es.drop_last()) + ",\n    "@ + json_string_literal(es.last())
    }
}

/// The document of a board drawn with the elements `es`.
pub open spec fn board_document_text(es: Seq<Seq<char>>) -> Seq<char> {
    if es.len() == 0 {
        document_head() + "[]\n}"@
    } else {
        document_head() + "[\n"@ + element_lines(es) + "\n  ]\n}"@
    }
}

/// The document of a board with nothing drawn on it, as a new board's file
/// starts.
pub open spec fn initial_document_text() -> Seq<char> {
    board_document_text(Seq::empty())
}

/// An empty drawing in compact form, as a board is shown.
pub open spec fn empty_drawing_text() -> Seq<char> {
    "{\"appState\":{\"viewBackgroundColor\":\"#ffffff\"},\"elements\":[]}"@
}

pub open spec fn texts_of(v: Seq<String>) -> Seq<Seq<char>> {
    v.map_values(|s: String| s@)
}

/// The document of a board drawn with `elements`.
pub fn board_document(elements: &Vec<String>) -> (r: String)
    ensures
        r@ == board_document_text(texts_of(elements@)),
{
    let mut r = String::from_str("{\n  \"appState\": {\n    \"viewBackgroundColor\": \"#ffffff\"\n  },\n  \"elements\": ");
    if elements.len() == 0 {
        r.append("[]\n}");
        return r;
    }
    r.append("[\n");
    let ghost head = r@;
    let mut i: usize = 0;
    while i < elements.len()
        invariant
            i <= elements@.len(),
            elements@.len() > 0,
            r@ == head + element_lines(texts_of(elements@.subrange(0, i as int))),
        decreases elements@.len() - i,
    {
        let ghost before = texts_of(elements@.subrange(0, i as int));
        let ghost after = texts_of(elements@.subrange(0, i + 1));
        assert(after.drop_last() =~= before);
        assert(after.last() == elements@[i as int]@);
        if i == 0 {
            assert(before =~= Seq::<Seq<char>>::empty());
            r.append("    ");
        } else {
            r.append(",\n    ");
        }
        let lit = json_string(elements[i].as_str());
        r.append(lit.as_str());
        i = i + 1;
        assert(r@ =~= head + element_lines(after));
    }
    assert(elements@.subrange(0, i as int) =~= elements@);
    r.append("\n  ]\n}");
    r
}

/// The document a new board's file starts with.
pub fn initial_document() -> (r: String)
    ensures
        r@ == initial_document_text(),
{
    let r = board_document(&Vec::new());
    assert(texts_of(Seq::<String>::empty()) =~= Seq::<Seq<char>>::empty());
    r
}

/// An empty drawing in compact form.
pub fn empty_drawing() -> (r: String)
    ensures
        r@ == empty_drawing_text(),
{
    String::from_str("{\"appState\":{\"viewBackgroundColor\":\"#ffffff\"},\"elements\":[]}")
}

} // verus!
