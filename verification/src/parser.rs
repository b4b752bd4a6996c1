//! Recovery of the boolean that a response body carries.
//!
//! The service answers with a body of this shape, where an unknown target
//! gets a plain message in place of the `boolean` element:
//!
//! ```xml
//! <?xml version="1.0"?>
//! <methodResponse>
//!   <params>
//!     <param>
//!       <value><boolean>0</boolean></value>
//!     </param>
//!   </params>
//! </methodResponse>
//! ```
//!
//! The body is scanned for the literal tags only; a tag with attributes is
//! not a tag here.

use crate::text::{
    chars_of, find_from, first_occurrence, is_white_space, lemma_first_occurrence,
    lemma_first_occurrence_absent, lemma_first_occurrence_found, occurs_at, trim, trim_bounds,
    trim_end, trim_start,
};
use vstd::prelude::*;
use vstd::string::StrSliceExecFns;

verus! {

/// The tag that opens the element `tag`: `<tag>`.
pub open spec fn opening_tag(tag: Seq<char>) -> Seq<char> {
    seq!['<'] + tag + seq!['>']
}

/// The tag that closes the element `tag`: `</tag>`.
pub open spec fn closing_tag(tag: Seq<char>) -> Seq<char> {
    seq!['<', '/'] + tag + seq!['>']
}

/// What the first element `tag` of `text` holds, trimmed: the text between
/// the first opening tag and the first closing tag after it. There is none
/// where either tag is missing.
pub open spec fn tag_content(text: Seq<char>, tag: Seq<char>) -> Option<Seq<char>> {
    match first_occurrence(text, opening_tag(tag), 0) {
        Some(open) => {
            let start = open + opening_tag(tag).len();
            match first_occurrence(text, closing_tag(tag), start) {
                Some(close) => Some(trim(text.subrange(start, close))),
                None => None,
            }
        },
        None => None,
    }
}

/// The status that a response body carries: the content of its first
/// `boolean` element, where that is exactly `1` or `0`.
pub open spec fn status_in(payload: Seq<char>) -> Option<bool> {
    match tag_content(payload, "boolean"@) {
        Some(content) => if content == "1"@ {
            Some(true)
        } else if content == "0"@ {
            Some(false)
        } else {
            None
        },
        None => None,
    }
}

/// The first element `tag` of `text`, told by where its tags stand: the
/// opening tag at `open` with none before it, the closing tag at `close`
/// with none between the two. Its content is what lies between them,
/// trimmed.
pub proof fn lemma_tag_content_found(text: Seq<char>, tag: Seq<char>, open: int, close: int)
    requires
        occurs_at(text, opening_tag(tag), open),
        forall|k: int| 0 <= k < open ==> !occurs_at(text, opening_tag(tag), k),
        open + opening_tag(tag).len() <= close,
        occurs_at(text, closing_tag(tag), close),
        forall|k: int|
            open + opening_tag(tag).len() <= k < close ==> !occurs_at(text, closing_tag(tag), k),
    ensures
        tag_content(text, tag) == Some(
            trim(text.subrange(open + opening_tag(tag).len(), close)),
        ),
{
    lemma_first_occurrence_found(text, opening_tag(tag), 0, open);
    lemma_first_occurrence_found(
        text,
        closing_tag(tag),
        open + opening_tag(tag).len(),
        close,
    );
}

/// A text in which the opening tag stands nowhere has no element `tag`.
pub proof fn lemma_tag_content_unopened(text: Seq<char>, tag: Seq<char>)
    requires
        forall|k: int| !occurs_at(text, opening_tag(tag), k),
    ensures
        tag_content(text, tag) is None,
{
    lemma_first_occurrence_absent(text, opening_tag(tag), 0);
}

/// A text whose first opening tag, at `open`, has no closing tag after it
/// has no element `tag`.
pub proof fn lemma_tag_content_unclosed(text: Seq<char>, tag: Seq<char>, open: int)
    requires
        occurs_at(text, opening_tag(tag), open),
        forall|k: int| 0 <= k < open ==> !occurs_at(text, opening_tag(tag), k),
        forall|k: int|
            open + opening_tag(tag).len() <= k ==> !occurs_at(text, closing_tag(tag), k),
    ensures
        tag_content(text, tag) is None,
{
    lemma_first_occurrence_found(text, opening_tag(tag), 0, open);
    lemma_first_occurrence_absent(text, closing_tag(tag), open + opening_tag(tag).len());
}

/// The element `<boolean>d</boolean>` at `at`, first of its kind, holds `d`.
proof fn lemma_boolean_element(payload: Seq<char>, at: int, element: Seq<char>, d: char)
    requires
        occurs_at(payload, element, at),
        element == "<boolean>"@ + seq![d] + "</boolean>"@,
        forall|k: int| 0 <= k < at ==> !occurs_at(payload, "<boolean>"@, k),
        !is_white_space(d),
        d != '<',
    ensures
        tag_content(payload, "boolean"@) == Some(seq![d]),
{
    reveal_strlit("<boolean>");
    reveal_strlit("</boolean>");
    reveal_strlit("boolean");
    let open = "<boolean>"@;
    let close = "</boolean>"@;
    assert(opening_tag("boolean"@) =~= open);
    assert(closing_tag("boolean"@) =~= close);
    assert(occurs_at(payload, open, at)) by {
        assert forall|k: int| 0 <= k < open.len() implies payload[at + k] == #[trigger] open[k] by {
            assert(element[k] == open[k]);
        }
    }
    let start = at + 9;
    assert(!occurs_at(payload, close, start)) by {
        assert(payload[start] == element[9]);
        assert(close[0] == '<');
    }
    assert(occurs_at(payload, close, start + 1)) by {
        assert forall|k: int| 0 <= k < close.len() implies payload[start + 1 + k]
            == #[trigger] close[k] by {
            assert(element[10 + k] == close[k]);
        }
    }
    lemma_tag_content_found(payload, "boolean"@, at, start + 1);
    let content = payload.subrange(start, start + 1);
    assert(content =~= seq![d]) by {
        assert(payload[start] == element[9]);
    }
}

/// A body in which `<boolean>1</boolean>` stands, with no `<boolean>`
/// starting before it, carries the status true.
pub proof fn lemma_status_true(payload: Seq<char>, at: int)
    requires
        occurs_at(payload, "<boolean>1</boolean>"@, at),
        forall|k: int| 0 <= k < at ==> !occurs_at(payload, "<boolean>"@, k),
    ensures
        status_in(payload) == Some(true),
{
    reveal_strlit("<boolean>1</boolean>");
    reveal_strlit("<boolean>");
    reveal_strlit("</boolean>");
    reveal_strlit("1");
    assert("<boolean>1</boolean>"@ =~= "<boolean>"@ + seq!['1'] + "</boolean>"@);
    lemma_boolean_element(payload, at, "<boolean>1</boolean>"@, '1');
    assert("1"@ =~= seq!['1']);
}

/// A body in which `<boolean>0</boolean>` stands, with no `<boolean>`
/// starting before it, carries the status false.
pub proof fn lemma_status_false(payload: Seq<char>, at: int)
    requires
        occurs_at(payload, "<boolean>0</boolean>"@, at),
        forall|k: int| 0 <= k < at ==> !occurs_at(payload, "<boolean>"@, k),
    ensures
        status_in(payload) == Some(false),
{
    reveal_strlit("<boolean>0</boolean>");
    reveal_strlit("<boolean>");
    reveal_strlit("</boolean>");
    reveal_strlit("1");
    reveal_strlit("0");
    assert("<boolean>0</boolean>"@ =~= "<boolean>"@ + seq!['0'] + "</boolean>"@);
    lemma_boolean_element(payload, at, "<boolean>0</boolean>"@, '0');
    assert("0"@ =~= seq!['0']);
    assert("1"@[0] != seq!['0'][0]);
}

/// A body without the opening tag `<boolean>` carries no status.
pub proof fn lemma_status_absent_without_opening_tag(payload: Seq<char>)
    requires
        forall|k: int| !occurs_at(payload, "<boolean>"@, k),
    ensures
        status_in(payload) is None,
{
    reveal_strlit("<boolean>");
    reveal_strlit("boolean");
    assert(opening_tag("boolean"@) =~= "<boolean>"@);
    lemma_tag_content_unopened(payload, "boolean"@);
}

/// A body carries a status only where its first `boolean` element holds
/// exactly `1` or exactly `0`: any other content, the empty one and `11`
/// among them, gives none, and so does a body without such an element.
pub proof fn lemma_status_absent_on_other_content(payload: Seq<char>)
    requires
        tag_content(payload, "boolean"@) != Some("1"@),
        tag_content(payload, "boolean"@) != Some("0"@),
    ensures
        status_in(payload) is None,
{
}

/// The characters of `<tag>`, or of `</tag>` where `closing` is set.
fn tag_chars(tag: &Vec<char>, closing: bool) -> (chars: Vec<char>)
    ensures
        chars@ == if closing {
            closing_tag(tag@)
        } else {
            opening_tag(tag@)
        },
{
    let mut chars: Vec<char> = Vec::new();
    chars.push('<');
    if closing {
        chars.push('/');
    }
    let ghost head = chars@;
    let mut k: usize = 0;
    while k < tag.len()
        invariant
            k <= tag.len(),
            chars@ == head + tag@.take(k as int),
        decreases tag.len() - k,
    {
        chars.push(tag[k]);
        k += 1;
    }
    chars.push('>');
    assert(head =~= if closing {
        seq!['<', '/']
    } else {
        seq!['<']
    });
    chars
}

/// Finds the first element `tag` of `s` and returns what it holds, trimmed.
pub fn find_tag_content(s: &str, tag: &str) -> (content: Option<String>)
    ensures
        match content {
            Some(found) => tag_content(s@, tag@) == Some(found@),
            None => tag_content(s@, tag@) is None,
        },
{
    let text = chars_of(s);
    let name = chars_of(tag);
    let tag_open = tag_chars(&name, false);
    let tag_close = tag_chars(&name, true);
    match find_from(&text, &tag_open, 0) {
        None => None,
        Some(open) => {
            proof {
                lemma_first_occurrence(s@, opening_tag(tag@), 0);
            }
            let start = open + tag_open.len();
            match find_from(&text, &tag_close, start) {
                None => None,
                Some(close) => {
                    proof {
                        lemma_first_occurrence(s@, closing_tag(tag@), start as int);
                    }
                    let (from, to) = trim_bounds(&text, start, close);
                    Some(s.substring_char(from, to).to_owned())
                },
            }
        },
    }
}

/// Reads the status out of a response body: `Some(true)` for `1`,
/// `Some(false)` for `0`, `None` where the body carries no such boolean.
pub fn extract_status_from_xml(s: &str) -> (status: Option<bool>)
    ensures
        status == status_in(s@),
{
    proof {
        reveal_strlit("1");
        reveal_strlit("0");
    }
    match find_tag_content(s, "boolean") {
        None => None,
        Some(content) => {
            let content = content.as_str();
            if content.unicode_len() != 1 {
                None
            } else {
                let c = content.get_char(0);
                assert(content@ =~= seq![c]);
                assert("1"@ =~= seq!['1']);
                assert("0"@ =~= seq!['0']);
                if c == '1' {
                    Some(true)
                } else if c == '0' {
                    Some(false)
                } else {
                    None
                }
            }
        },
    }
}

} // verus!
