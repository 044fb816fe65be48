//! Building the document tree from page text.
//!
//! The pages this library reads are small, well-formed-enough templates,
//! so the parser is deliberately modest: it recognizes tags with quoted
//! or bare attribute values, comments and doctype declarations, treats
//! the usual void elements (`img`, `br`, ...) and `/>` as childless, and
//! closes any elements left open at a closing tag or at the end of
//! input.  Text runs are trimmed of surrounding whitespace and dropped
//! when empty, so that captured cell text is the visible text.  The
//! parser always returns a tree and never fails; what matching
//! guarantees about that tree is stated on the matcher itself.

use vstd::prelude::*;
use crate::html::Attr;
use crate::html::Element;
use crate::html::Node;
use crate::numeric::is_space;
use crate::numeric::trim_back;
use crate::numeric::trim_front;
use crate::numeric::trimmed;

verus! {

fn is_space_char(c: char) -> bool {
    c == ' ' || c == '\t' || c == '\n' || c == '\r'
}

fn is_name_char(c: char) -> bool {
    ('a' <= c && c <= 'z') || ('A' <= c && c <= 'Z') || ('0' <= c && c <= '9') || c == '-' || c
        == '_' || c == ':'
}

/// Elements that never have children in the markup this library reads.
fn is_void_tag(tag: &String) -> bool {
    *tag == String::from_str("img") || *tag == String::from_str("br") || *tag
        == String::from_str("hr") || *tag == String::from_str("meta") || *tag
        == String::from_str("link") || *tag == String::from_str("input")
}

/// Advances past a run of name characters.
fn scan_name(chars: &Vec<char>, start: usize) -> (r: usize)
    requires
        start <= chars@.len(),
    ensures
        start <= r <= chars@.len(),
{
    let mut i = start;
    while i < chars.len() && is_name_char(chars[i])
        invariant
            start <= i <= chars@.len(),
        decreases chars@.len() - i,
    {
        i = i + 1;
    }
    i
}

/// Advances to just after the next `>`, or to the end of input.
fn skip_past_gt(chars: &Vec<char>, start: usize) -> (r: usize)
    requires
        start <= chars@.len(),
    ensures
        start <= r <= chars@.len(),
{
    let mut i = start;
    while i < chars.len() && chars[i] != '>'
        invariant
            start <= i <= chars@.len(),
        decreases chars@.len() - i,
    {
        i = i + 1;
    }
    if i < chars.len() {
        i + 1
    } else {
        i
    }
}

/// Advances to just after the next `-->`, or to the end of input.
fn skip_past_comment(chars: &Vec<char>, start: usize) -> (r: usize)
    requires
        start <= chars@.len(),
    ensures
        start <= r <= chars@.len(),
{
    let mut i = start;
    while chars.len() - i > 2 && !(chars[i] == '-' && chars[i + 1] == '-' && chars[i + 2] == '>')
        invariant
            start <= i,
            i <= chars@.len(),
        decreases chars@.len() - i,
    {
        i = i + 1;
    }
    if chars.len() - i > 2 {
        i + 3
    } else {
        chars.len()
    }
}

/// Hands a finished node to the innermost open element, or to the top
/// level when none is open.
fn attach(stack: &mut Vec<Element>, roots: &mut Vec<Node>, node: Node)
    ensures
        final(stack)@.len() == old(stack)@.len(),
{
    if stack.len() > 0 {
        match stack.pop() {
            Some(mut e) => {
                e.children.push(node);
                stack.push(e);
            },
            None => {},
        }
    } else {
        roots.push(node);
    }
}

/// Closes open elements down to and including the nearest one with this
/// tag; a closing tag with no matching open element is ignored.
fn close_element(stack: &mut Vec<Element>, roots: &mut Vec<Node>, name: &String) {
    let mut found = false;
    let mut idx: usize = 0;
    let mut i = stack.len();
    while i > 0
        invariant
            i <= stack@.len(),
            found ==> idx < stack@.len(),
        decreases i,
    {
        i = i - 1;
        if !found && stack[i].tag == *name {
            idx = i;
            found = true;
        }
    }
    if !found {
        return ;
    }
    while stack.len() > 0 && stack.len() - 1 > idx
        decreases stack@.len(),
    {
        match stack.pop() {
            Some(e) => {
                match stack.pop() {
                    Some(mut parent) => {
                        parent.children.push(Node::Elem(e));
                        stack.push(parent);
                    },
                    None => {},
                }
            },
            None => {},
        }
    }
    match stack.pop() {
        Some(e) => {
            attach(stack, roots, Node::Elem(e));
        },
        None => {},
    }
}

/// Reads one opening tag (name and attributes) and either opens it on
/// the stack or, for void and self-closed elements, attaches it at once.
fn parse_open_tag(
    text: &str,
    chars: &Vec<char>,
    start: usize,
    stack: &mut Vec<Element>,
    roots: &mut Vec<Node>,
) -> (r: usize)
    requires
        chars@.len() == text@.len(),
        start <= chars@.len(),
    ensures
        start <= r <= chars@.len(),
{
    let n = chars.len();
    let name_end = scan_name(chars, start);
    let tag = text.substring_char(start, name_end).to_owned();
    let mut attrs: Vec<Attr> = Vec::new();
    let mut i = name_end;
    let mut self_closing = false;
    let mut done = false;
    while !done && i < n
        invariant
            name_end <= i <= n,
            n == chars@.len(),
            chars@.len() == text@.len(),
        decreases n - i,
    {
        let c = chars[i];
        if c == '>' {
            i = i + 1;
            done = true;
        } else if c == '/' {
            self_closing = true;
            i = i + 1;
        } else if is_name_char(c) {
            let ae = scan_name(chars, i);
            if ae == i {
                i = i + 1;
            } else {
                let aname = text.substring_char(i, ae).to_owned();
                let mut j = ae;
                let mut avalue = String::new();
                if j < n && chars[j] == '=' {
                    j = j + 1;
                    if j < n && (chars[j] == '"' || chars[j] == '\'') {
                        let quote = chars[j];
                        j = j + 1;
                        let vstart = j;
                        while j < n && chars[j] != quote
                            invariant
                                vstart <= j <= n,
                                n == chars@.len(),
                            decreases n - j,
                        {
                            j = j + 1;
                        }
                        avalue = text.substring_char(vstart, j).to_owned();
                        if j < n {
                            j = j + 1;
                        }
                    } else {
                        let vstart = j;
                        while j < n && chars[j] != '>' && chars[j] != '/' && !(chars[j] == ' '
                            || chars[j] == '\t' || chars[j] == '\n' || chars[j] == '\r')
                            invariant
                                vstart <= j <= n,
                                n == chars@.len(),
                            decreases n - j,
                        {
                            j = j + 1;
                        }
                        avalue = text.substring_char(vstart, j).to_owned();
                    }
                }
                attrs.push(Attr { name: aname, value: avalue });
                i = j;
            }
        } else {
            i = i + 1;
        }
    }
    let elem = Element { tag, attrs, children: Vec::new() };
    if self_closing || is_void_tag(&elem.tag) {
        attach(stack, roots, Node::Elem(elem));
    } else {
        stack.push(elem);
    }
    i
}

/// Whether the text holds no tag opener at all.
pub open spec fn no_markup(s: Seq<char>) -> bool {
    forall|i: int| 0 <= i < s.len() ==> s[i] != '<'
}

/// Parses page text into a document forest.  Parsing is total: whatever
/// the input, it returns a tree and never panics; malformed stretches
/// degrade to text or are skipped rather than failing the pipeline.
/// Markup-free text is pinned exactly: it yields its trimmed content as
/// one text node, or nothing when only whitespace remains.
pub fn parse_document(text: &str) -> (r: Vec<Node>)
    ensures
        no_markup(text@) ==> (if trimmed(text@).len() > 0 {
            r@.len() == 1 && (r@[0] matches Node::Text(t) && t@ == trimmed(text@))
        } else {
            r@.len() == 0
        }),
{
    let n = text.unicode_len();
    let mut chars: Vec<char> = Vec::new();
    let mut ci: usize = 0;
    while ci < n
        invariant
            ci <= n,
            n == text@.len(),
            chars@ == text@.subrange(0, ci as int),
        decreases n - ci,
    {
        proof {
            assert(text@.subrange(0, ci as int + 1) =~= text@.subrange(0, ci as int).push(
                text@[ci as int],
            ));
        }
        chars.push(text.get_char(ci));
        ci = ci + 1;
    }
    proof {
        assert(text@.subrange(0, n as int) =~= text@);
    }

    // A document with no tag opener is one trimmed text run.
    let mut has_lt = false;
    let mut si: usize = 0;
    while si < n
        invariant
            si <= n,
            n == text@.len(),
            chars@ == text@,
            !has_lt ==> forall|j: int| 0 <= j < si ==> text@[j] != '<',
            has_lt ==> !no_markup(text@),
        decreases n - si,
    {
        if chars[si] == '<' {
            proof {
                assert(text@[si as int] == '<');
            }
            has_lt = true;
        }
        si = si + 1;
    }
    if !has_lt {
        let mut lo: usize = 0;
        while lo < n && (chars[lo] == ' ' || chars[lo] == '\t' || chars[lo] == '\n' || chars[lo]
            == '\r')
            invariant
                lo <= n,
                n == text@.len(),
                chars@ == text@,
                trim_front(text@) == trim_front(text@.subrange(lo as int, n as int)),
            decreases n - lo,
        {
            proof {
                let cur = text@.subrange(lo as int, n as int);
                assert(cur.subrange(1, cur.len() as int) =~= text@.subrange(
                    lo as int + 1,
                    n as int,
                ));
            }
            lo = lo + 1;
        }
        proof {
            let cur = text@.subrange(lo as int, n as int);
            if lo < n {
                assert(!is_space(cur[0]));
            }
            assert(trim_front(text@) == cur);
        }
        let mut hi: usize = n;
        while hi > lo && (chars[hi - 1] == ' ' || chars[hi - 1] == '\t' || chars[hi - 1] == '\n'
            || chars[hi - 1] == '\r')
            invariant
                lo <= hi <= n,
                n == text@.len(),
                chars@ == text@,
                trim_front(text@) == text@.subrange(lo as int, n as int),
                trimmed(text@) == trim_back(text@.subrange(lo as int, hi as int)),
            decreases hi,
        {
            proof {
                let cur = text@.subrange(lo as int, hi as int);
                assert(cur.subrange(0, cur.len() - 1) =~= text@.subrange(
                    lo as int,
                    hi as int - 1,
                ));
            }
            hi = hi - 1;
        }
        proof {
            let cur = text@.subrange(lo as int, hi as int);
            if hi > lo {
                assert(!is_space(cur[cur.len() - 1]));
            }
            assert(trimmed(text@) == cur);
        }
        let mut out: Vec<Node> = Vec::new();
        if lo < hi {
            let t = text.substring_char(lo, hi).to_owned();
            out.push(Node::Text(t));
        }
        return out;
    }
    proof {
        assert(!no_markup(text@));
    }

    let mut roots: Vec<Node> = Vec::new();
    let mut stack: Vec<Element> = Vec::new();
    let mut pos: usize = 0;
    while pos < n
        invariant
            pos <= n,
            n == text@.len(),
            chars@.len() == n,
        decreases n - pos,
    {
        let c = chars[pos];
        if c == '<' {
            if n - pos > 3 && chars[pos + 1] == '!' && chars[pos + 2] == '-' && chars[pos + 3]
                == '-' {
                pos = skip_past_comment(&chars, pos + 4);
            } else if n - pos > 1 && (chars[pos + 1] == '!' || chars[pos + 1] == '?') {
                pos = skip_past_gt(&chars, pos + 2);
            } else if n - pos > 1 && chars[pos + 1] == '/' {
                let name_end = scan_name(&chars, pos + 2);
                let name = text.substring_char(pos + 2, name_end).to_owned();
                close_element(&mut stack, &mut roots, &name);
                pos = skip_past_gt(&chars, name_end);
            } else if n - pos > 1 && is_name_char(chars[pos + 1]) {
                pos = parse_open_tag(text, &chars, pos + 1, &mut stack, &mut roots);
            } else {
                pos = pos + 1;
            }
        } else {
            let mut k = pos;
            while k < n && chars[k] != '<'
                invariant
                    pos <= k <= n,
                    n == chars@.len(),
                decreases n - k,
            {
                k = k + 1;
            }
            let mut a = pos;
            let mut b = k;
            while a < b && is_space_char(chars[a])
                invariant
                    pos <= a <= b <= n,
                    n == chars@.len(),
                decreases b - a,
            {
                a = a + 1;
            }
            while b > a && is_space_char(chars[b - 1])
                invariant
                    a <= b <= n,
                    n == chars@.len(),
                decreases b,
            {
                b = b - 1;
            }
            if a < b {
                let t = text.substring_char(a, b).to_owned();
                attach(&mut stack, &mut roots, Node::Text(t));
            }
            if k > pos {
                pos = k;
            } else {
                pos = pos + 1;
            }
        }
    }

    while stack.len() > 0
        decreases stack@.len(),
    {
        match stack.pop() {
            Some(e) => {
                attach(&mut stack, &mut roots, Node::Elem(e));
            },
            None => {},
        }
    }
    roots
}

} // verus!
