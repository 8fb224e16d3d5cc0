//! The card document shown in the overlay, and the script that writes it
//! into the overlay's blank page.
use vstd::prelude::*;
use vstd::string::{StrSliceExecFns, StringExecFns};

verus! {

/// Everything of the card document before the label.
pub const CARD_HEAD: &'static str = "<!DOCTYPE html>
<html style=\"background:transparent!important\">
<head>
<style>
*{margin:0;padding:0;box-sizing:border-box}
html,body{background:transparent!important;overflow:hidden;width:100%;height:100%}
body{font-family:system-ui,-apple-system,sans-serif;display:flex}
.card{
  background:#fff;
  border:1px solid #e5e5e5;
  border-radius:4px;
  padding:8px 12px;
  display:flex;
  align-items:center;
  gap:8px;
  font-size:14px;
  color:#18181b;
  width:100%;
  height:100%;
}
.grip{color:#a1a1aa}
.checkbox{width:16px;height:16px;border:1px solid #a1a1aa;border-radius:3px;flex-shrink:0}
.content{flex:1;overflow:hidden;text-overflow:ellipsis;white-space:nowrap}
</style>
</head>
<body style=\"background:transparent!important\">
<div class=\"card\">
<div class=\"grip\">\u{22ee}\u{22ee}</div>
<div class=\"checkbox\"></div>
<span class=\"content\">";

/// Everything of the card document after the label.
pub const CARD_TAIL: &'static str = "</span>
</div>
</body>
</html>";

/// Opening of the script, up to the template literal's first character.
pub const SCRIPT_HEAD: &'static str = "document.write(`";

/// Closing of the script, after the template literal's last character.
pub const SCRIPT_TAIL: &'static str = "`); document.close();";

/// What one character of text becomes inside HTML markup.
pub open spec fn html_escape_char(c: char) -> Seq<char> {
    if c == '&' {
        seq!['&', 'a', 'm', 'p', ';']
    } else if c == '<' {
        seq!['&', 'l', 't', ';']
    } else if c == '>' {
        seq!['&', 'g', 't', ';']
    } else if c == '"' {
        seq!['&', 'q', 'u', 'o', 't', ';']
    } else if c == '\'' {
        seq!['&', '#', '3', '9', ';']
    } else {
        seq![c]
    }
}

/// Text with every markup-sensitive character replaced by its entity.
pub open spec fn html_escaped(s: Seq<char>) -> Seq<char>
    decreases s.len(),
{
    if s.len() == 0 {
        Seq::empty()
    } else {
        html_escaped(s.drop_last()) + html_escape_char(s.last())
    }
}

/// What one character becomes inside a script template literal.
pub open spec fn template_escape_char(c: char) -> Seq<char> {
    if c == '\\' || c == '`' || c == '$' {
        seq!['\\', c]
    } else {
        seq![c]
    }
}

/// Text that a template literal reproduces exactly: backslashes, backticks
/// and dollar signs are preceded by a backslash.
pub open spec fn template_escaped(s: Seq<char>) -> Seq<char>
    decreases s.len(),
{
    if s.len() == 0 {
        Seq::empty()
    } else {
        template_escaped(s.drop_last()) + template_escape_char(s.last())
    }
}

/// The card document that shows `label`.
pub open spec fn card_document(label: Seq<char>) -> Seq<char> {
    CARD_HEAD@ + html_escaped(label) + CARD_TAIL@
}

/// The script that writes `document` into a blank page and closes it.
pub open spec fn write_script(document: Seq<char>) -> Seq<char> {
    SCRIPT_HEAD@ + template_escaped(document) + SCRIPT_TAIL@
}

fn html_entity(c: char) -> (r: Option<&'static str>)
    ensures
        match r {
            Some(e) => e@ == html_escape_char(c),
            None => html_escape_char(c) == seq![c],
        },
{
    if c == '&' {
        proof { reveal_strlit("&amp;"); }
        Some("&amp;")
    } else if c == '<' {
        proof { reveal_strlit("&lt;"); }
        Some("&lt;")
    } else if c == '>' {
        proof { reveal_strlit("&gt;"); }
        Some("&gt;")
    } else if c == '"' {
        proof { reveal_strlit("&quot;"); }
        Some("&quot;")
    } else if c == '\'' {
        proof { reveal_strlit("&#39;"); }
        Some("&#39;")
    } else {
        None
    }
}

fn template_escape(c: char) -> (r: Option<&'static str>)
    ensures
        match r {
            Some(e) => e@ == template_escape_char(c),
            None => template_escape_char(c) == seq![c],
        },
{
    if c == '\\' {
        proof { reveal_strlit("\\\\"); }
        Some("\\\\")
    } else if c == '`' {
        proof { reveal_strlit("\\`"); }
        Some("\\`")
    } else if c == '$' {
        proof { reveal_strlit("\\$"); }
        Some("\\$")
    } else {
        None
    }
}

/// `text` with `&`, `<`, `>`, `"` and `'` replaced by their HTML entities,
/// so that it is shown as text and never read as markup.
pub fn escape_html(text: &str) -> (r: String)
    ensures
        r@ == html_escaped(text@),
{
    let n = text.unicode_len();
    let mut out = String::new();
    let mut i: usize = 0;
    while i < n
        invariant
            n == text@.len(),
            i <= n,
            out@ == html_escaped(text@.subrange(0, i as int)),
        decreases n - i,
    {
        let c = text.get_char(i);
        match html_entity(c) {
            Some(e) => out.append(e),
            None => out.append(text.substring_char(i, i + 1)),
        }
        proof {
            let next = text@.subrange(0, i + 1);
            assert(next.drop_last() == text@.subrange(0, i as int));
            assert(next.last() == c);
            assert(text@.subrange(i as int, i + 1) == seq![c]);
        }
        i = i + 1;
    }
    assert(text@.subrange(0, n as int) == text@);
    out
}

/// `text` with `\`, `` ` `` and `$` preceded by a backslash, so that a
/// template literal holding it yields `text` exactly.
pub fn escape_template(text: &str) -> (r: String)
    ensures
        r@ == template_escaped(text@),
{
    let n = text.unicode_len();
    let mut out = String::new();
    let mut i: usize = 0;
    while i < n
        invariant
            n == text@.len(),
            i <= n,
            out@ == template_escaped(text@.subrange(0, i as int)),
        decreases n - i,
    {
        let c = text.get_char(i);
        match template_escape(c) {
            Some(e) => out.append(e),
            None => out.append(text.substring_char(i, i + 1)),
        }
        proof {
            let next = text@.subrange(0, i + 1);
            assert(next.drop_last() == text@.subrange(0, i as int));
            assert(next.last() == c);
            assert(text@.subrange(i as int, i + 1) == seq![c]);
        }
        i = i + 1;
    }
    assert(text@.subrange(0, n as int) == text@);
    out
}

/// The card document showing `label` as plain text: a drag grip, an empty
/// checkbox and the label, cut off with an ellipsis where it is too long.
pub fn card_markup(label: &str) -> (r: String)
    ensures
        r@ == card_document(label@),
{
    let mut doc = String::from_str(CARD_HEAD);
    let escaped = escape_html(label);
    doc.append(escaped.as_str());
    doc.append(CARD_TAIL);
    doc
}

/// The script that replaces the overlay's blank page with `document`.
pub fn injection_script(document: &str) -> (r: String)
    ensures
        r@ == write_script(document@),
{
    let mut script = String::from_str(SCRIPT_HEAD);
    let escaped = escape_template(document);
    script.append(escaped.as_str());
    script.append(SCRIPT_TAIL);
    script
}

} // verus!
