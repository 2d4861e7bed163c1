//! Escaping text for inclusion in an HTML document.
use vstd::prelude::*;
use crate::text::push_char;

verus! {

/// The HTML rendering of one character: the five characters with a markup meaning become
/// entities, every other character stands for itself.
pub open spec fn escape_char(c: char) -> Seq<char> {
    if c == '&' {
        seq!['&', 'a', 'm', 'p', ';']
    } else if c == '<' {
        seq!['&', 'l', 't', ';']
    } else if c == '>' {
        seq!['&', 'g', 't', ';']
    } else if c == '"' {
        seq!['&', 'q', 'u', 'o', 't', ';']
    } else if c == '\'' {
        seq!['&', '#', '3', '9', ';']
    } else {
        seq![c]
    }
}

/// The HTML rendering of a text, character by character.
pub open spec fn spec_html_escape(s: Seq<char>) -> Seq<char>
    decreases s.len(),
{
    if s.len() == 0 {
        Seq::empty()
    } else {
        spec_html_escape(s.drop_last()) + escape_char(s.last())
    }
}

fn push_escaped(out: &mut String, c: char)
    ensures
        final(out)@ == old(out)@ + escape_char(c),
{
    let ghost start = out@;
    if c == '&' {
        push_char(out, '&');
        push_char(out, 'a');
        push_char(out, 'm');
        push_char(out, 'p');
        push_char(out, ';');
    } else if c == '<' {
        push_char(out, '&');
        push_char(out, 'l');
        push_char(out, 't');
        push_char(out, ';');
    } else if c == '>' {
        push_char(out, '&');
        push_char(out, 'g');
        push_char(out, 't');
        push_char(out, ';');
    } else if c == '"' {
        push_char(out, '&');
        push_char(out, 'q');
        push_char(out, 'u');
        push_char(out, 'o');
        push_char(out, 't');
        push_char(out, ';');
    } else if c == '\'' {
        push_char(out, '&');
        push_char(out, '#');
        push_char(out, '3');
        push_char(out, '9');
        push_char(out, ';');
    } else {
        push_char(out, c);
    }
    assert(out@ =~= start + escape_char(c));
}

/// Escapes `&`, `<`, `>`, `"` and `'` so that `s` can stand as text in an HTML document.
pub fn html_escape(s: &str) -> (r: String)
    ensures
        r@ == spec_html_escape(s@),
{
    let n = s.unicode_len();
    let mut out = String::new();
    let mut i: usize = 0;
    while i < n
        invariant
            n == s@.len(),
            i <= n,
            out@ == spec_html_escape(s@.take(i as int)),
        decreases n - i,
    {
        let c = s.get_char(i);
        push_escaped(&mut out, c);
        proof {
            assert(s@.take(i as int + 1).drop_last() =~= s@.take(i as int));
            assert(s@.take(i as int + 1).last() == c);
        }
        i = i + 1;
    }
    assert(s@.take(n as int) =~= s@);
    out
}

/// Escaped text holds no `<`, `>`, `"` or `'`: it cannot open or close markup or an attribute
/// value.
pub proof fn lemma_escaped_has_no_markup(s: Seq<char>)
    ensures
        forall|k: int| 0 <= k < spec_html_escape(s).len() ==> {
            let c = #[trigger] spec_html_escape(s)[k];
            c != '<' && c != '>' && c != '"' && c != '\''
        },
    decreases s.len(),
{
    if s.len() > 0 {
        lemma_escaped_has_no_markup(s.drop_last());
        let pre = spec_html_escape(s.drop_last());
        let e = escape_char(s.last());
        assert forall|k: int| 0 <= k < spec_html_escape(s).len() implies {
            let c = #[trigger] spec_html_escape(s)[k];
            c != '<' && c != '>' && c != '"' && c != '\''
        } by {
            if k < pre.len() {
                assert(spec_html_escape(s)[k] == pre[k]);
            } else {
                assert(spec_html_escape(s)[k] == e[k - pre.len()]);
            }
        }
    }
}

/// Escaping maps concatenations to concatenations.
pub proof fn lemma_escape_concat(a: Seq<char>, b: Seq<char>)
    ensures
        spec_html_escape(a + b) == spec_html_escape(a) + spec_html_escape(b),
    decreases b.len(),
{
    if b.len() == 0 {
        assert(a + b =~= a);
        assert(spec_html_escape(a) + spec_html_escape(b) =~= spec_html_escape(a));
    } else {
        assert((a + b).drop_last() =~= a + b.drop_last());
        assert((a + b).last() == b.last());
        lemma_escape_concat(a, b.drop_last());
        assert(spec_html_escape(a) + spec_html_escape(b.drop_last()) + escape_char(b.last())
            =~= spec_html_escape(a) + (spec_html_escape(b.drop_last()) + escape_char(b.last())));
    }
}

} // verus!
