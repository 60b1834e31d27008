//! Plain text to HTML: the escaping that every multi-line note field goes through.
use vstd::prelude::*;
use crate::text::{blank, push_char, push_str, trim, trimmed_chars};

verus! {

/// The HTML that stands for one character of plain text.
pub open spec fn html_char(c: char) -> Seq<char> {
    if c == '&' {
        seq!['&', 'a', 'm', 'p', ';']
    } else if c == '<' {
        seq!['&', 'l', 't', ';']
    } else if c == '>' {
        seq!['&', 'g', 't', ';']
    } else if c == '"' {
        seq!['&', 'q', 'u', 'o', 't', ';']
    } else if c == '\'' {
        seq!['&', '#', 'x', '2', '7', ';']
    } else if c == '\n' {
        seq!['<', 'b', 'r', '>']
    } else if c == '\r' {
        seq![]
    } else {
        seq![c]
    }
}

/// The HTML for a run of plain text, character by character.
pub open spec fn html_text(s: Seq<char>) -> Seq<char>
    decreases s.len(),
{
    if s.len() == 0 {
        seq![]
    } else {
        html_char(s[0]) + html_text(s.drop_first())
    }
}

/// What `escape_multiline` makes of a field: the trimmed text, escaped.
pub open spec fn escaped(s: Seq<char>) -> Seq<char> {
    html_text(trim(s))
}

/// `s` with every carriage return removed.
pub open spec fn drop_cr(s: Seq<char>) -> Seq<char>
    decreases s.len(),
{
    if s.len() == 0 {
        seq![]
    } else if s[0] == '\r' {
        drop_cr(s.drop_first())
    } else {
        seq![s[0]] + drop_cr(s.drop_first())
    }
}

/// Reads escaped HTML back into text: each entity and `<br>` gives its character.
pub open spec fn unescape(t: Seq<char>) -> Seq<char>
    decreases t.len(),
{
    if t.len() == 0 {
        seq![]
    } else if t.len() >= 5 && t.take(5) == seq!['&', 'a', 'm', 'p', ';'] {
        seq!['&'] + unescape(t.skip(5))
    } else if t.len() >= 4 && t.take(4) == seq!['&', 'l', 't', ';'] {
        seq!['<'] + unescape(t.skip(4))
    } else if t.len() >= 4 && t.take(4) == seq!['&', 'g', 't', ';'] {
        seq!['>'] + unescape(t.skip(4))
    } else if t.len() >= 6 && t.take(6) == seq!['&', 'q', 'u', 'o', 't', ';'] {
        seq!['"'] + unescape(t.skip(6))
    } else if t.len() >= 6 && t.take(6) == seq!['&', '#', 'x', '2', '7', ';'] {
        seq!['\''] + unescape(t.skip(6))
    } else if t.len() >= 4 && t.take(4) == seq!['<', 'b', 'r', '>'] {
        seq!['\n'] + unescape(t.skip(4))
    } else {
        seq![t[0]] + unescape(t.skip(1))
    }
}

proof fn lemma_html_text_push(s: Seq<char>, c: char)
    ensures
        html_text(s.push(c)) == html_text(s) + html_char(c),
    decreases s.len(),
{
    if s.len() == 0 {
        assert(s.push(c).drop_first() == Seq::<char>::empty());
        let t = s.push(c);
        assert(t[0] == c);
        assert(t.len() == 1);
        assert(html_text(t.drop_first()) == Seq::<char>::empty());
        assert(html_text(t) == html_char(t[0]) + html_text(t.drop_first()));
        assert(html_char(c) + Seq::<char>::empty() == html_char(c));
        assert(html_text(s) == Seq::<char>::empty());
        assert(Seq::<char>::empty() + html_char(c) == html_char(c));
    } else {
        assert(s.push(c).drop_first() == s.drop_first().push(c));
        assert(s.push(c)[0] == s[0]);
        lemma_html_text_push(s.drop_first(), c);
        let a = html_char(s[0]);
        let b = html_text(s.drop_first());
        let d = html_char(c);
        assert(a + (b + d) == (a + b) + d);
    }
}

proof fn lemma_unescape_step(c: char, rest: Seq<char>)
    ensures
        unescape(html_char(c) + rest) == (if c == '\r' {
            unescape(rest)
        } else {
            seq![c] + unescape(rest)
        }),
{
    let t = html_char(c) + rest;
    let h = html_char(c);
    assert(t.skip(h.len() as int) == rest);
    if c == '\r' {
        assert(t == rest);
    } else {
        assert(t[0] == h[0]);
        assert(t.take(h.len() as int) == h);
        assert forall|k: int| 1 <= k <= t.len() implies #[trigger] t.take(k)[0] == t[0] by {}
        if h.len() >= 4 {
            assert(t[1] == h[1]);
            assert(t[2] == h[2]);
            assert(t[3] == h[3]);
            assert(t.take(4)[1] == t[1]);
        }
        if h.len() >= 5 {
            assert(t[4] == h[4]);
        }
        if c != '&' && c != '<' && c != '>' && c != '"' && c != '\'' && c != '\n' {
            assert(h == seq![c]);
            assert(t.skip(1) == rest);
            if t.len() >= 5 {
                assert(t.take(5)[0] == c);
            }
            if t.len() >= 4 {
                assert(t.take(4)[0] == c);
            }
            if t.len() >= 6 {
                assert(t.take(6)[0] == c);
            }
        }
    }
}

/// Escaping can be undone: reading the escaped HTML back gives the trimmed text, carriage
/// returns aside, so no character of the text is lost and none turns into markup.
pub proof fn lemma_escape_roundtrip(s: Seq<char>)
    ensures
        unescape(html_text(s)) == drop_cr(s),
    decreases s.len(),
{
    if s.len() > 0 {
        lemma_escape_roundtrip(s.drop_first());
        lemma_unescape_step(s[0], html_text(s.drop_first()));
    }
}

/// Escaped text never holds a quote, an apostrophe or a carriage return, so it cannot close
/// an HTML attribute.
pub proof fn lemma_escaped_has_no_quotes(s: Seq<char>)
    ensures
        !html_text(s).contains('"'),
        !html_text(s).contains('\''),
        !html_text(s).contains('\r'),
    decreases s.len(),
{
    if s.len() > 0 {
        lemma_escaped_has_no_quotes(s.drop_first());
        let h = html_char(s[0]);
        let r = html_text(s.drop_first());
        assert(!h.contains('"') && !h.contains('\'') && !h.contains('\r')) by {
            if h.len() > 0 {
                assert(h[0] != '"');
            }
        }
        assert forall|x: char| (h + r).contains(x) implies h.contains(x) || r.contains(x) by {
            let i = choose|i: int| 0 <= i < (h + r).len() && (h + r)[i] == x;
            if i < h.len() {
                assert(h[i] == x);
            } else {
                assert(r[i - h.len()] == x);
            }
        }
    }
}

/// Escapes a plain-text field for HTML: trims it, writes `& < > " '` as entities, a line feed
/// as `<br>`, and drops carriage returns.
pub fn escape_multiline(value: &str) -> (r: String)
    ensures
        r@ == escaped(value@),
{
    let v = trimmed_chars(value);
    let mut out = String::new();
    let mut i: usize = 0;
    while i < v.len()
        invariant
            i <= v@.len(),
            v@ == trim(value@),
            out@ == html_text(v@.take(i as int)),
        decreases v.len() - i,
    {
        let c = v[i];
        let ghost before = out@;
        if c == '&' {
            push_str(&mut out, "&amp;");
            assert(out@ == before + html_char(c)) by {
                reveal_strlit("&amp;");
            }
        } else if c == '<' {
            push_str(&mut out, "&lt;");
            assert(out@ == before + html_char(c)) by {
                reveal_strlit("&lt;");
            }
        } else if c == '>' {
            push_str(&mut out, "&gt;");
            assert(out@ == before + html_char(c)) by {
                reveal_strlit("&gt;");
            }
        } else if c == '"' {
            push_str(&mut out, "&quot;");
            assert(out@ == before + html_char(c)) by {
                reveal_strlit("&quot;");
            }
        } else if c == '\'' {
            push_str(&mut out, "&#x27;");
            assert(out@ == before + html_char(c)) by {
                reveal_strlit("&#x27;");
            }
        } else if c == '\n' {
            push_str(&mut out, "<br>");
            assert(out@ == before + html_char(c)) by {
                reveal_strlit("<br>");
            }
        } else if c == '\r' {
            assert(before + html_char(c) == before);
        } else {
            push_char(&mut out, c);
        }
        proof {
            assert(v@.take(i + 1) == v@.take(i as int).push(c));
            lemma_html_text_push(v@.take(i as int), c);
        }
        i = i + 1;
    }
    assert(v@.take(v@.len() as int) == v@);
    out
}

} // verus!
