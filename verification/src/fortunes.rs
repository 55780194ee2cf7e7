use vstd::prelude::*;
use vstd::string::StringExecFns;
use vstd::string::StrSliceExecFns;
use crate::digits::{dec_rep, u32_dec};

verus! {

/// A fortune record: a row id and a free-form message.
pub struct Fortune {
    pub id: u32,
    pub message: String,
}

/// What a character becomes in escaped HTML text: the five characters
/// with meaning in markup or attributes are written as entities, every
/// other character stands as itself.
pub open spec fn escape_char(c: char) -> Seq<char> {
    if c == '&' {
        "&amp;"@
    } else if c == '<' {
        "&lt;"@
    } else if c == '>' {
        "&gt;"@
    } else if c == '"' {
        "&quot;"@
    } else if c == '\'' {
        "&#39;"@
    } else {
        seq![c]
    }
}

/// s with every character escaped for HTML.
pub open spec fn escape_seq(s: Seq<char>) -> Seq<char>
    decreases s.len(),
{
    if s.len() == 0 {
        Seq::<char>::empty()
    } else {
        escape_seq(s.drop_last()) + escape_char(s.last())
    }
}

/// The fixed page head: document type, title and the table header row.
pub open spec fn page_head() -> Seq<char> {
    "<!DOCTYPE html><html><head><title>Fortunes</title></head><body><table><tr><th>id</th><th>message</th></tr>"@
}

/// The fixed page tail, closing the table and the document.
pub open spec fn page_tail() -> Seq<char> {
    "</table></body></html>"@
}

/// One table row: the id in decimal and the message escaped.
pub open spec fn row_spec(f: Fortune) -> Seq<char> {
    "<tr><td>"@ + dec_rep(f.id as int) + "</td><td>"@ + escape_seq(f.message@) + "</td></tr>"@
}

/// The rows for a fortune list, in order.
pub open spec fn rows_spec(fs: Seq<Fortune>) -> Seq<char>
    decreases fs.len(),
{
    if fs.len() == 0 {
        Seq::<char>::empty()
    } else {
        rows_spec(fs.drop_last()) + row_spec(fs.last())
    }
}

/// The whole rendered page for a fortune list.
pub open spec fn fortunes_page_spec(fs: Seq<Fortune>) -> Seq<char> {
    page_head() + rows_spec(fs) + page_tail()
}

/// Escape a string for HTML text.
pub fn html_escape(s: &str) -> (r: String)
    ensures
        r@ == escape_seq(s@),
{
    let n: usize = s.unicode_len();
    let mut r = String::new();
    let mut i: usize = 0;
    while i < n
        invariant
            n as nat == s@.len(),
            i <= n,
            r@ == escape_seq(s@.take(i as int)),
        decreases n - i,
    {
        let c = s.get_char(i);
        if c == '&' {
            r.append("&amp;");
        } else if c == '<' {
            r.append("&lt;");
        } else if c == '>' {
            r.append("&gt;");
        } else if c == '"' {
            r.append("&quot;");
        } else if c == '\'' {
            r.append("&#39;");
        } else {
            let one = s.substring_char(i, i + 1);
            proof {
                assert(one@ =~= seq![s@[i as int]]);
            }
            r.append(one);
        }
        proof {
            let t = s@.take(i as int + 1);
            assert(t.drop_last() =~= s@.take(i as int));
            assert(t.last() == s@[i as int]);
            assert(r@ =~= escape_seq(t));
        }
        i += 1;
    }
    proof {
        assert(s@.take(n as int) =~= s@);
    }
    r
}

/// Render one fortune as a table row.
pub fn render_row(f: &Fortune) -> (r: String)
    ensures
        r@ == row_spec(*f),
{
    let mut r = String::from_str("<tr><td>");
    let id = u32_dec(f.id);
    r.append(id.as_str());
    r.append("</td><td>");
    let msg = html_escape(f.message.as_str());
    r.append(msg.as_str());
    r.append("</td></tr>");
    proof {
        assert(r@ =~= row_spec(*f));
    }
    r
}

/// Render the whole fortunes page: the fixed head, one row per fortune in
/// order, each message escaped, and the fixed tail.
pub fn render_fortunes(fs: &Vec<Fortune>) -> (r: String)
    ensures
        r@ == fortunes_page_spec(fs@),
{
    let mut r = String::from_str(
        "<!DOCTYPE html><html><head><title>Fortunes</title></head><body><table><tr><th>id</th><th>message</th></tr>",
    );
    let mut i: usize = 0;
    while i < fs.len()
        invariant
            i <= fs@.len(),
            r@ == page_head() + rows_spec(fs@.take(i as int)),
        decreases fs@.len() - i,
    {
        let row = render_row(&fs[i]);
        r.append(row.as_str());
        proof {
            let t = fs@.take(i as int + 1);
            assert(t.drop_last() =~= fs@.take(i as int));
            assert(t.last() == fs@[i as int]);
            assert(r@ =~= page_head() + rows_spec(t));
        }
        i += 1;
    }
    r.append("</table></body></html>");
    proof {
        assert(fs@.take(fs@.len() as int) =~= fs@);
        assert(r@ =~= fortunes_page_spec(fs@));
    }
    r
}

} // verus!
